//! The chat relay: what a registered user's message leads to, given whether the
//! backend answered, and how the exchange is recorded.
use vstd::prelude::*;
use vstd::string::{StrSliceExecFns, StringExecFns};
use crate::sanitize::{clean, clean_ai_response};
use crate::store::{Conversation, StoreError, User, UserStore, appends_in_order};
use crate::text::{chars_of, trim, trim_chars};

verus! {

/// Text sent in place of an empty reply of the backend.
pub open spec fn placeholder() -> Seq<char> {
    "The chatbot returned nothing."@
}

/// The text that a raw reply becomes: trimmed, replaced by the placeholder when
/// empty, then cleaned; a reply that cleaning empties becomes the placeholder
/// too, so that no empty message is sent.
pub open spec fn reply_text(raw: Seq<char>) -> Seq<char> {
    let cleaned = if trim(raw).len() == 0 {
        clean(placeholder())
    } else {
        clean(trim(raw))
    };
    if cleaned.len() == 0 {
        placeholder()
    } else {
        cleaned
    }
}

/// How a call to the backend's chat route failed.
#[derive(Debug, Clone, Copy, PartialEq, Eq, Structural)]
pub enum RelayFailure {
    /// The request could not be made or got no answer.
    CallFailed,
    /// The answer's body could not be read.
    ReadFailed,
}

/// What the relay of one message leads to.
#[derive(Debug, Clone)]
pub enum RelayAction {
    /// Nothing is sent and nothing is stored: the backend is not reachable.
    Silent,
    /// This failure notice is sent; nothing is stored.
    Failure(String),
    /// `entry` is appended to the user's history and `reply` is sent.
    Deliver { reply: String, entry: Conversation },
}

/// The text that a raw reply of the backend becomes.
pub fn prepare_reply(raw: &str) -> (r: String)
    ensures
        r@ == reply_text(raw@),
{
    let t = trim_chars(&chars_of(raw));
    let cleaned = if t.len() == 0 {
        clean_ai_response("The chatbot returned nothing.")
    } else {
        let s = crate::text::string_of(&t);
        clean_ai_response(s.as_str())
    };
    if cleaned.as_str().unicode_len() == 0 {
        String::from_str("The chatbot returned nothing.")
    } else {
        cleaned
    }
}

/// Decides the relay of `prompt`, given whether the backend's health check
/// passed and what its chat route answered; `timestamp` is when the exchange
/// is recorded.
pub fn relay_outcome(
    reachable: bool,
    response: Result<String, RelayFailure>,
    prompt: String,
    timestamp: i64,
) -> (r: RelayAction)
    ensures
        !reachable ==> r is Silent,
        reachable && response == Err::<String, RelayFailure>(RelayFailure::CallFailed) ==> r is Failure
            && r->Failure_0@ == "Failed to reach chatbot server."@,
        reachable && response == Err::<String, RelayFailure>(RelayFailure::ReadFailed) ==> r is Failure
            && r->Failure_0@ == "Failed to read chatbot response."@,
        reachable && response is Ok ==> r is Deliver && r->reply@ == reply_text(response->Ok_0@)
            && r->entry.prompt == prompt && r->entry.response@ == reply_text(response->Ok_0@)
            && r->entry.timestamp == timestamp,
{
    if !reachable {
        return RelayAction::Silent;
    }
    match response {
        Err(RelayFailure::CallFailed) => RelayAction::Failure(
            String::from_str("Failed to reach chatbot server."),
        ),
        Err(RelayFailure::ReadFailed) => RelayAction::Failure(
            String::from_str("Failed to read chatbot response."),
        ),
        Ok(raw) => {
            let reply = prepare_reply(raw.as_str());
            let stored = reply.clone();
            RelayAction::Deliver { reply, entry: Conversation { prompt, response: stored, timestamp } }
        },
    }
}

/// Relies on chrono's `From<SystemTime>` for `DateTime<Utc>` and on
/// `DateTime::timestamp`: the current time in seconds since the epoch (negative
/// for a clock set before it). Nothing is promised of its value.
#[verifier::external_body]
fn now_timestamp() -> (r: i64) {
    chrono::DateTime::<chrono::Utc>::from(std::time::SystemTime::now()).timestamp()
}

/// Decides the relay of `prompt` as `relay_outcome` does, recording the
/// exchange at the current time.
pub fn relay_now(reachable: bool, response: Result<String, RelayFailure>, prompt: String) -> (r:
    RelayAction)
    ensures
        !reachable ==> r is Silent,
        reachable && response == Err::<String, RelayFailure>(RelayFailure::CallFailed) ==> r is Failure
            && r->Failure_0@ == "Failed to reach chatbot server."@,
        reachable && response == Err::<String, RelayFailure>(RelayFailure::ReadFailed) ==> r is Failure
            && r->Failure_0@ == "Failed to read chatbot response."@,
        reachable && response is Ok ==> r is Deliver && r->reply@ == reply_text(response->Ok_0@)
            && r->entry.prompt == prompt && r->entry.response@ == reply_text(response->Ok_0@),
{
    let t = now_timestamp();
    relay_outcome(reachable, response, prompt, t)
}

/// Whether the store takes `entry` into the history of `discord_id`: the user
/// exists and the entry is not older than the last one.
pub open spec fn can_append(users: Map<u64, User>, discord_id: u64, entry: Conversation) -> bool {
    users.contains_key(discord_id) && appends_in_order(users[discord_id].conversations@, entry)
}

/// Carries out a relay decision against a user store: a delivered exchange is
/// appended to the user's history, and the text to send, if any, is returned
/// together with the outcome of the write. A failed write does not withhold
/// the reply.
pub fn apply_relay(store: &mut UserStore, discord_id: u64, action: RelayAction) -> (r: (
    Option<String>,
    Result<(), StoreError>,
))
    requires
        old(store).wf(),
    ensures
        final(store).wf(),
        action is Silent ==> r.0 is None && r.1 is Ok && final(store).view() == old(store).view(),
        action is Failure ==> r.0 == Some(action->Failure_0) && r.1 is Ok && final(store).view() == old(
            store,
        ).view(),
        action is Deliver ==> r.0 == Some(action->reply) && (r.1 is Ok <==> can_append(
            old(store).view(),
            discord_id,
            action->entry,
        )),
        action is Deliver && can_append(old(store).view(), discord_id, action->entry) ==> {
            &&& final(store).view().dom() == old(store).view().dom()
            &&& forall|k: u64| k != discord_id && #[trigger] old(store).view().contains_key(k)
                ==> final(store).view()[k] == old(store).view()[k]
            &&& final(store).view()[discord_id].nickname == old(store).view()[discord_id].nickname
            &&& final(store).view()[discord_id].conversations@
                == old(store).view()[discord_id].conversations@.push(action->entry)
        },
        action is Deliver && !can_append(old(store).view(), discord_id, action->entry)
            ==> final(store).view() == old(store).view(),
{
    match action {
        RelayAction::Silent => (None, Ok(())),
        RelayAction::Failure(t) => (Some(t), Ok(())),
        RelayAction::Deliver { reply, entry } => {
            let saved = store.append_conversation(discord_id, entry);
            (Some(reply), saved)
        },
    }
}

/// The notice sent besides the reply when the exchange could not be saved;
/// nothing when it was.
pub fn save_notice(saved: bool) -> (r: Option<String>)
    ensures
        saved ==> r is None,
        !saved ==> r is Some && r->Some_0@ == "Your message was answered but could not be saved."@,
{
    if saved {
        None
    } else {
        Some(String::from_str("Your message was answered but could not be saved."))
    }
}

/// The nickname to relay with, from the store's answer; a registered user
/// whose nickname cannot be found gets an error notice instead.
pub fn relay_nickname(found: Option<String>) -> (r: Result<String, String>)
    ensures
        found is Some ==> r == Ok::<String, String>(found->Some_0),
        found is None ==> r is Err && r->Err_0@ == "Error: Could not fetch your nickname from DB."@,
{
    match found {
        Some(n) => Ok(n),
        None => Err(String::from_str("Error: Could not fetch your nickname from DB.")),
    }
}

/// The relay of one message of a registered user against a user store: when
/// the backend is reachable and answers, the cleaned reply is returned for
/// sending and one exchange with that reply is appended to the user's history;
/// when it is not reachable, nothing is sent and nothing is stored.
pub fn relay_message(
    store: &mut UserStore,
    discord_id: u64,
    reachable: bool,
    response: Result<String, RelayFailure>,
    prompt: String,
    timestamp: i64,
) -> (r: (Option<String>, Result<(), StoreError>))
    requires
        old(store).wf(),
    ensures
        final(store).wf(),
        !reachable ==> r.0 is None && final(store).view() == old(store).view(),
        reachable && response is Err ==> r.0 is Some && final(store).view() == old(store).view(),
        reachable && response is Ok ==> r.0 is Some && r.0->Some_0@ == reply_text(response->Ok_0@),
        reachable && response is Ok && old(store).view().contains_key(discord_id) && (old(
            store,
        ).view()[discord_id].conversations@.len() == 0 || old(
            store,
        ).view()[discord_id].conversations@.last().timestamp <= timestamp) ==> {
            let c = final(store).view()[discord_id].conversations@;
            let before = old(store).view()[discord_id].conversations@;
            &&& r.1 is Ok
            &&& final(store).view().dom() == old(store).view().dom()
            &&& forall|k: u64| k != discord_id && #[trigger] old(store).view().contains_key(k)
                ==> final(store).view()[k] == old(store).view()[k]
            &&& c.len() == before.len() + 1
            &&& c.subrange(0, before.len() as int) == before
            &&& c.last().prompt == prompt
            &&& c.last().response@ == reply_text(response->Ok_0@)
            &&& c.last().timestamp == timestamp
        },
{
    let ghost resp = response;
    proof {
        if resp is Err {
            assert(resp->Err_0 is CallFailed || resp->Err_0 is ReadFailed);
            if resp->Err_0 is CallFailed {
                assert(resp == Err::<String, RelayFailure>(RelayFailure::CallFailed));
            } else {
                assert(resp == Err::<String, RelayFailure>(RelayFailure::ReadFailed));
            }
        }
    }
    let action = relay_outcome(reachable, response, prompt, timestamp);
    let ghost a = action;
    let r = apply_relay(store, discord_id, action);
    proof {
        if a is Deliver && can_append(old(store).view(), discord_id, a->entry) {
            let before = old(store).view()[discord_id].conversations@;
            assert(before.push(a->entry).subrange(0, before.len() as int) =~= before);
        }
    }
    r
}

} // verus!
