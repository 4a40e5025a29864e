//! Onboarding: which users may chat, the conversational registration path
//! (`!start`, `!nickname <name>`, `!confirm`) and the single-shot one.
use vstd::prelude::*;
use std::collections::HashMap;
use crate::store::{User, new_user};
use vstd::string::{StrSliceExecFns, StringExecFns};
use crate::text::{chars_of, slice_of, string_of, trim, trim_chars};

verus! {

broadcast use vstd::std_specs::hash::group_hash_axioms;

pub open spec fn starts_with(s: Seq<char>, p: Seq<char>) -> bool {
    p.len() <= s.len() && s.subrange(0, p.len() as int) == p
}

pub open spec fn start_word() -> Seq<char> {
    seq!['!', 's', 't', 'a', 'r', 't']
}

pub open spec fn nickname_word() -> Seq<char> {
    seq!['!', 'n', 'i', 'c', 'k', 'n', 'a', 'm', 'e', ' ']
}

pub open spec fn confirm_word() -> Seq<char> {
    seq!['!', 'c', 'o', 'n', 'f', 'i', 'r', 'm']
}

/// A nickname that is empty or holds only white space.
pub open spec fn is_blank(s: Seq<char>) -> bool {
    trim(s).len() == 0
}

/// A chat message read as an onboarding command.
#[derive(Debug, Clone)]
pub enum ChatCommand {
    /// `!start`: ask how to register.
    Start,
    /// `!nickname <name>`: propose a nickname (trimmed).
    Nickname(String),
    /// `!confirm`: register with the proposed nickname.
    Confirm,
    /// Anything else.
    Other,
}

/// The nickname that `!nickname <name>` proposes: what follows the command
/// word, trimmed.
pub open spec fn nickname_arg(s: Seq<char>) -> Seq<char> {
    trim(s.subrange(nickname_word().len() as int, s.len() as int))
}

/// Whether `c` is what message `s` means: the prefixes are tried in the order
/// `!start`, `!nickname `, `!confirm`.
pub open spec fn command_matches(s: Seq<char>, c: ChatCommand) -> bool {
    if starts_with(s, start_word()) {
        c is Start
    } else if starts_with(s, nickname_word()) {
        c is Nickname && c->Nickname_0@ == nickname_arg(s)
    } else if starts_with(s, confirm_word()) {
        c is Confirm
    } else {
        c is Other
    }
}

fn starts_with_exec(s: &Vec<char>, p: &Vec<char>) -> (r: bool)
    ensures
        r == starts_with(s@, p@),
{
    if p.len() > s.len() {
        return false;
    }
    let mut i: usize = 0;
    while i < p.len()
        invariant
            p@.len() <= s@.len(),
            i <= p@.len(),
            forall|j: int| 0 <= j < i ==> s@[j] == p@[j],
        decreases p@.len() - i,
    {
        if s[i] != p[i] {
            assert(s@.subrange(0, p@.len() as int)[i as int] != p@[i as int]);
            return false;
        }
        i = i + 1;
    }
    assert(s@.subrange(0, p@.len() as int) =~= p@);
    true
}

/// Reads a chat message as an onboarding command.
pub fn parse_chat_command(content: &str) -> (r: ChatCommand)
    ensures
        command_matches(content@, r),
{
    let s = chars_of(content);
    let start = vec!['!', 's', 't', 'a', 'r', 't'];
    let nick = vec!['!', 'n', 'i', 'c', 'k', 'n', 'a', 'm', 'e', ' '];
    let confirm = vec!['!', 'c', 'o', 'n', 'f', 'i', 'r', 'm'];
    assert(start@ =~= start_word());
    assert(nick@ =~= nickname_word());
    assert(confirm@ =~= confirm_word());
    if starts_with_exec(&s, &start) {
        ChatCommand::Start
    } else if starts_with_exec(&s, &nick) {
        let rest = slice_of(&s, nick.len(), s.len());
        let name = trim_chars(&rest);
        ChatCommand::Nickname(string_of(&name))
    } else if starts_with_exec(&s, &confirm) {
        ChatCommand::Confirm
    } else {
        ChatCommand::Other
    }
}

/// Whether a nickname is empty or only white space.
pub fn is_blank_nickname(nickname: &str) -> (r: bool)
    ensures
        r == is_blank(nickname@),
{
    let s = chars_of(nickname);
    let t = trim_chars(&s);
    t.len() == 0
}

/// Why an onboarding step was refused.
#[derive(Debug, Clone, Copy, PartialEq, Eq, Structural)]
pub enum OnboardError {
    /// The nickname is empty or only white space.
    EmptyNickname,
    /// `!confirm` came with no nickname proposed before it.
    NoPendingNickname,
}

/// The onboarding state held in memory: the nickname that each user has
/// proposed and not yet confirmed.
pub struct Handler {
    pub pending_nicknames: HashMap<u64, String>,
}

impl Handler {
    pub closed spec fn view(&self) -> Map<u64, String> {
        self.pending_nicknames@
    }

    pub fn new() -> (r: Handler)
        ensures
            r.view() == Map::<u64, String>::empty(),
    {
        Handler { pending_nicknames: HashMap::new() }
    }

    /// The nickname that `discord_id` has proposed, if any.
    pub fn pending_nickname(&self, discord_id: u64) -> (r: Option<String>)
        ensures
            r is Some <==> self.view().contains_key(discord_id),
            r is Some ==> r->Some_0@ == self.view()[discord_id]@,
    {
        match self.pending_nicknames.get(&discord_id) {
            Some(n) => Some(n.clone()),
            None => None,
        }
    }

    /// Records the nickname that a user proposes; a later proposal replaces an
    /// earlier one. A blank nickname is refused and nothing changes.
    pub fn propose_nickname(&mut self, discord_id: u64, nickname: String) -> (r: Result<
        (),
        OnboardError,
    >)
        ensures
            is_blank(nickname@) ==> r == Err::<(), OnboardError>(OnboardError::EmptyNickname)
                && final(self).view() == old(self).view(),
            !is_blank(nickname@) ==> r is Ok && final(self).view() == old(self).view().insert(
                discord_id,
                nickname,
            ),
    {
        if is_blank_nickname(nickname.as_str()) {
            return Err(OnboardError::EmptyNickname);
        }
        self.pending_nicknames.insert(discord_id, nickname);
        Ok(())
    }

    /// Takes the proposed nickname of a user out of the pending map and builds
    /// the record to store. With no proposal, fails and changes nothing; the
    /// entry is gone before any write, so a second confirmation finds none.
    pub fn confirm_registration(&mut self, discord_id: u64) -> (r: Result<User, OnboardError>)
        ensures
            !old(self).view().contains_key(discord_id) ==> r is Err && r->Err_0
                == OnboardError::NoPendingNickname && final(self).view() == old(self).view(),
            old(self).view().contains_key(discord_id) ==> r is Ok && r->Ok_0.discord_id
                == discord_id && r->Ok_0.nickname == old(self).view()[discord_id]
                && r->Ok_0.conversations@.len() == 0 && final(self).view() == old(
                self,
            ).view().remove(discord_id),
    {
        match self.pending_nicknames.remove(&discord_id) {
            Some(nickname) => Ok(new_user(discord_id, nickname)),
            None => Err(OnboardError::NoPendingNickname),
        }
    }
}


/// A chat message as the gateway delivers it.
#[derive(Debug, Clone)]
pub struct InboundMessage {
    pub author_id: u64,
    pub channel_id: u64,
    pub content: String,
    pub is_from_bot: bool,
}

/// What the caller is to do with an inbound message or command.
#[derive(Debug, Clone)]
pub enum MessageAction {
    /// Nothing at all.
    Ignore,
    /// Send this text back.
    Reply(String),
    /// Store this new user record, then send the registration reply.
    Register(User),
    /// Hand the message to the chat relay.
    Relay,
}

pub open spec fn is_reply(a: MessageAction, t: Seq<char>) -> bool {
    a is Reply && a->Reply_0@ == t
}

/// Text of `!start`.
pub fn welcome_text() -> (r: String)
    ensures
        r@ == "Welcome! Please reply with your desired bot nickname."@,
{
    String::from_str("Welcome! Please reply with your desired bot nickname.")
}

/// Text that acknowledges a proposed nickname.
pub fn chosen_text(nickname: &str) -> (r: String)
    ensures
        r@ == "You chose '"@ + nickname@ + "'. Type !confirm to register."@,
{
    String::from_str("You chose '").concat(nickname).concat("'. Type !confirm to register.")
}

/// Text for a blank nickname.
pub fn empty_nickname_text() -> (r: String)
    ensures
        r@ == "Your nickname cannot be empty. Use !nickname <your_nickname>."@,
{
    String::from_str("Your nickname cannot be empty. Use !nickname <your_nickname>.")
}

/// Text for `!confirm` without a proposal.
pub fn no_pending_text() -> (r: String)
    ensures
        r@ == "No pending nickname found. Use !nickname <your_nickname> first."@,
{
    String::from_str("No pending nickname found. Use !nickname <your_nickname> first.")
}

/// Text for any other message of a user who is not registered.
pub fn must_onboard_text() -> (r: String)
    ensures
        r@ == "You must complete onboarding first! Use !start or /setup-bot."@,
{
    String::from_str("You must complete onboarding first! Use !start or /setup-bot.")
}

/// Reply after the record of a `!confirm` was written, or failed to be.
pub fn confirm_reply(nickname: &str, inserted: bool) -> (r: String)
    ensures
        inserted ==> r@ == "You have been added as '"@ + nickname@
            + "'. You can now chat with the AI!"@,
        !inserted ==> r@ == "Failed to add to DB."@,
{
    if inserted {
        String::from_str("You have been added as '").concat(nickname).concat(
            "'. You can now chat with the AI!",
        )
    } else {
        String::from_str("Failed to add to DB.")
    }
}

/// Reply after the record of the registration command was written, or failed
/// to be.
pub fn setup_reply(nickname: &str, inserted: bool) -> (r: String)
    ensures
        inserted ==> r@ == "Welcome, "@ + nickname@
            + "! You are now registered and can chat with the AI."@,
        !inserted ==> r@ == "Failed to register. Please try again later."@,
{
    if inserted {
        String::from_str("Welcome, ").concat(nickname).concat(
            "! You are now registered and can chat with the AI.",
        )
    } else {
        String::from_str("Failed to register. Please try again later.")
    }
}

/// The registration command: registers at once with the nickname given, after
/// checking that the user is not registered yet and that the nickname is not
/// blank.
pub fn handle_setup_bot(already_registered: bool, discord_id: u64, nickname: Option<String>) -> (r:
    MessageAction)
    ensures
        already_registered ==> is_reply(r, "You are already registered!"@),
        !already_registered && nickname is None ==> is_reply(
            r,
            "Please provide your desired nickname as an argument, e.g., `/setup-bot nickname:YourNick`"@,
        ),
        !already_registered && nickname is Some && is_blank(nickname->Some_0@) ==> is_reply(
            r,
            "Your nickname cannot be empty. Use !nickname <your_nickname>."@,
        ),
        !already_registered && nickname is Some && !is_blank(nickname->Some_0@) ==> r is Register
            && r->Register_0.discord_id == discord_id && r->Register_0.nickname
            == nickname->Some_0 && r->Register_0.conversations@.len() == 0,
{
    if already_registered {
        return MessageAction::Reply(String::from_str("You are already registered!"));
    }
    match nickname {
        None => MessageAction::Reply(
            String::from_str(
                "Please provide your desired nickname as an argument, e.g., `/setup-bot nickname:YourNick`",
            ),
        ),
        Some(n) => {
            if is_blank_nickname(n.as_str()) {
                MessageAction::Reply(empty_nickname_text())
            } else {
                MessageAction::Register(new_user(discord_id, n))
            }
        },
    }
}

impl Handler {
    /// Decides what an inbound chat message leads to. Messages of bots and
    /// messages outside the chat channel are ignored; registered users go on to
    /// the chat relay; any other user is taken through onboarding.
    pub fn message(&mut self, msg: &InboundMessage, chat_channel: u64, registered: bool) -> (r:
        MessageAction)
        ensures
            msg.is_from_bot || msg.channel_id != chat_channel ==> r is Ignore && final(self).view()
                == old(self).view(),
            !msg.is_from_bot && msg.channel_id == chat_channel && registered ==> r is Relay
                && final(self).view() == old(self).view(),
            !msg.is_from_bot && msg.channel_id == chat_channel && !registered ==> {
                let s = msg.content@;
                let u = msg.author_id;
                let p = old(self).view();
                if starts_with(s, start_word()) {
                    is_reply(r, "Welcome! Please reply with your desired bot nickname."@)
                        && final(self).view() == p
                } else if starts_with(s, nickname_word()) {
                    if is_blank(nickname_arg(s)) {
                        is_reply(r, "Your nickname cannot be empty. Use !nickname <your_nickname>."@)
                            && final(self).view() == p
                    } else {
                        is_reply(r, "You chose '"@ + nickname_arg(s) + "'. Type !confirm to register."@)
                            && final(self).view().dom() == p.dom().insert(u)
                            && final(self).view()[u]@ == nickname_arg(s)
                            && forall|k: u64| k != u && #[trigger] p.contains_key(k)
                                ==> final(self).view()[k] == p[k]
                    }
                } else if starts_with(s, confirm_word()) {
                    if p.contains_key(u) {
                        r is Register && r->Register_0.discord_id == u && r->Register_0.nickname
                            == p[u] && r->Register_0.conversations@.len() == 0
                            && final(self).view() == p.remove(u)
                    } else {
                        is_reply(r, "No pending nickname found. Use !nickname <your_nickname> first."@)
                            && final(self).view() == p
                    }
                } else {
                    is_reply(r, "You must complete onboarding first! Use !start or /setup-bot."@)
                        && final(self).view() == p
                }
            },
    {
        if msg.is_from_bot || msg.channel_id != chat_channel {
            return MessageAction::Ignore;
        }
        if registered {
            return MessageAction::Relay;
        }
        match parse_chat_command(msg.content.as_str()) {
            ChatCommand::Start => MessageAction::Reply(welcome_text()),
            ChatCommand::Nickname(n) => {
                let text = chosen_text(n.as_str());
                match self.propose_nickname(msg.author_id, n) {
                    Ok(()) => MessageAction::Reply(text),
                    Err(_) => MessageAction::Reply(empty_nickname_text()),
                }
            },
            ChatCommand::Confirm => match self.confirm_registration(msg.author_id) {
                Ok(user) => MessageAction::Register(user),
                Err(_) => MessageAction::Reply(no_pending_text()),
            },
            ChatCommand::Other => MessageAction::Reply(must_onboard_text()),
        }
    }
}

/// Two confirmations for the same user yield at most one record: when the
/// first one takes a proposal out of the pending map, the second finds none.
pub proof fn lemma_confirm_twice(pending: Map<u64, String>, u: u64)
    ensures
        pending.contains_key(u) ==> !pending.remove(u).contains_key(u),
{
}

} // verus!
