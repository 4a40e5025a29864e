//! Session orchestration for a chat-relay bot: onboarding, supervision of the
//! inference process, and the relay of chat messages with reply sanitizing.
pub mod text;
pub mod sanitize;
pub mod store;
pub mod onboarding;
pub mod supervisor;
pub mod relay;
