use relay_bot::onboarding::{
    handle_setup_bot, parse_chat_command, ChatCommand, Handler, InboundMessage, MessageAction,
    OnboardError,
};
use relay_bot::relay::{apply_relay, relay_outcome, RelayAction};
use relay_bot::store::{registered_from_lookup, get_nickname_by_discord_id, new_user, StoreError, UserStore};

const CHAT: u64 = 77;

fn msg(author: u64, content: &str) -> InboundMessage {
    InboundMessage { author_id: author, channel_id: CHAT, content: content.to_string(), is_from_bot: false }
}

fn reply_of(a: &MessageAction) -> String {
    match a {
        MessageAction::Reply(t) => t.clone(),
        other => panic!("expected a reply, got {:?}", other),
    }
}

#[test]
fn parses_commands_in_order() {
    assert!(matches!(parse_chat_command("!start"), ChatCommand::Start));
    assert!(matches!(parse_chat_command("!startle"), ChatCommand::Start));
    match parse_chat_command("!nickname   Fox  ") {
        ChatCommand::Nickname(n) => assert_eq!(n, "Fox"),
        other => panic!("{:?}", other),
    }
    assert!(matches!(parse_chat_command("!nickname"), ChatCommand::Other));
    assert!(matches!(parse_chat_command("!confirm"), ChatCommand::Confirm));
    assert!(matches!(parse_chat_command("hello"), ChatCommand::Other));
    assert!(matches!(parse_chat_command(""), ChatCommand::Other));
}

#[test]
fn confirm_without_proposal_fails() {
    let mut h = Handler::new();
    let r = h.confirm_registration(5);
    assert!(matches!(r, Err(OnboardError::NoPendingNickname)));
    let a = h.message(&msg(5, "!confirm"), CHAT, false);
    assert_eq!(reply_of(&a), "No pending nickname found. Use !nickname <your_nickname> first.");
}

#[test]
fn blank_nickname_is_refused() {
    let mut h = Handler::new();
    assert_eq!(h.propose_nickname(1, "   ".to_string()), Err(OnboardError::EmptyNickname));
    assert!(h.pending_nickname(1).is_none());
    let a = h.message(&msg(1, "!nickname    "), CHAT, false);
    assert_eq!(reply_of(&a), "Your nickname cannot be empty. Use !nickname <your_nickname>.");
    assert!(h.pending_nickname(1).is_none());
}

#[test]
fn last_proposal_wins() {
    let mut h = Handler::new();
    h.propose_nickname(1, "A".to_string()).unwrap();
    h.propose_nickname(1, "B".to_string()).unwrap();
    assert_eq!(h.pending_nickname(1), Some("B".to_string()));
    match h.confirm_registration(1) {
        Ok(u) => assert_eq!(u.nickname, "B"),
        Err(e) => panic!("{:?}", e),
    }
}

#[test]
fn second_confirm_finds_nothing() {
    let mut h = Handler::new();
    let mut store = UserStore::new();
    h.propose_nickname(9, "Fox".to_string()).unwrap();
    let first = h.confirm_registration(9).unwrap();
    assert!(store.insert(first).is_ok());
    assert!(matches!(h.confirm_registration(9), Err(OnboardError::NoPendingNickname)));
    assert_eq!(store.insert(new_user(9, "Fox".to_string())), Err(StoreError::Duplicate));
}

#[test]
fn ignores_bots_and_other_channels() {
    let mut h = Handler::new();
    let mut m = msg(1, "!start");
    m.is_from_bot = true;
    assert!(matches!(h.message(&m, CHAT, false), MessageAction::Ignore));
    let m = InboundMessage { author_id: 1, channel_id: CHAT + 1, content: "!start".to_string(), is_from_bot: false };
    assert!(matches!(h.message(&m, CHAT, false), MessageAction::Ignore));
}

#[test]
fn unregistered_users_are_told_to_onboard() {
    let mut h = Handler::new();
    let a = h.message(&msg(1, "hello"), CHAT, false);
    assert_eq!(reply_of(&a), "You must complete onboarding first! Use !start or /setup-bot.");
    let a = h.message(&msg(1, "!start"), CHAT, false);
    assert_eq!(reply_of(&a), "Welcome! Please reply with your desired bot nickname.");
    assert!(matches!(h.message(&msg(1, "hello"), CHAT, true), MessageAction::Relay));
}

#[test]
fn nickname_then_confirm_then_unreachable_chat() {
    let mut h = Handler::new();
    let mut store = UserStore::new();
    let a = h.message(&msg(42, "!nickname Fox"), CHAT, store.is_registered(42));
    assert_eq!(reply_of(&a), "You chose 'Fox'. Type !confirm to register.");
    let a = h.message(&msg(42, "!confirm"), CHAT, store.is_registered(42));
    match a {
        MessageAction::Register(u) => {
            assert_eq!(u.discord_id, 42);
            assert_eq!(u.nickname, "Fox");
            assert!(u.conversations.is_empty());
            assert!(store.insert(u).is_ok());
        }
        other => panic!("{:?}", other),
    }
    assert!(store.is_registered(42));
    let rec = store.find_by_external_id(42).unwrap();
    assert_eq!(rec.nickname, "Fox");
    assert!(rec.conversations.is_empty());

    let a = h.message(&msg(42, "hi there"), CHAT, store.is_registered(42));
    assert!(matches!(a, MessageAction::Relay));
    let action = relay_outcome(false, Ok("ignored".to_string()), "hi there".to_string(), 10);
    assert!(matches!(action, RelayAction::Silent));
    let (reply, _) = apply_relay(&mut store, 42, action);
    assert!(reply.is_none());
    assert!(store.find_by_external_id(42).unwrap().conversations.is_empty());
}

#[test]
fn registration_follows_store_records() {
    let mut store = UserStore::new();
    assert!(!store.is_registered(3));
    store.insert(new_user(3, "Kit".to_string())).unwrap();
    assert!(store.is_registered(3));
    assert!(!store.is_registered(4));
}

#[test]
fn lookup_errors_count_as_unregistered() {
    assert!(registered_from_lookup(&Ok(true)));
    assert!(!registered_from_lookup(&Ok(false)));
    assert!(!registered_from_lookup(&Err(StoreError::Unavailable)));
    assert_eq!(get_nickname_by_discord_id(Ok(Some(new_user(1, "Fox".to_string())))), Some("Fox".to_string()));
    assert_eq!(get_nickname_by_discord_id(Ok(None)), None);
    assert_eq!(get_nickname_by_discord_id(Err(StoreError::Unavailable)), None);
}

#[test]
fn setup_command_paths() {
    assert_eq!(reply_of(&handle_setup_bot(true, 1, Some("Fox".to_string()))), "You are already registered!");
    assert_eq!(
        reply_of(&handle_setup_bot(false, 1, None)),
        "Please provide your desired nickname as an argument, e.g., `/setup-bot nickname:YourNick`"
    );
    assert_eq!(
        reply_of(&handle_setup_bot(false, 1, Some(" ".to_string()))),
        "Your nickname cannot be empty. Use !nickname <your_nickname>."
    );
    match handle_setup_bot(false, 1, Some("Fox".to_string())) {
        MessageAction::Register(u) => {
            assert_eq!(u.discord_id, 1);
            assert_eq!(u.nickname, "Fox");
        }
        other => panic!("{:?}", other),
    }
}

#[test]
fn registration_replies() {
    assert_eq!(relay_bot::onboarding::confirm_reply("Fox", true), "You have been added as 'Fox'. You can now chat with the AI!");
    assert_eq!(relay_bot::onboarding::confirm_reply("Fox", false), "Failed to add to DB.");
    assert_eq!(relay_bot::onboarding::setup_reply("Fox", true), "Welcome, Fox! You are now registered and can chat with the AI.");
    assert_eq!(relay_bot::onboarding::setup_reply("Fox", false), "Failed to register. Please try again later.");
}
