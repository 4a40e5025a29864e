//! Users and their conversation history, and an in-memory user store that
//! keeps one record per external user id.
use vstd::prelude::*;
use std::collections::HashMap;

verus! {

broadcast use vstd::std_specs::hash::group_hash_axioms;

/// One exchange with the backend: the user's prompt, the cleaned reply, and
/// when it happened (seconds since the epoch).
#[derive(Debug, Clone)]
pub struct Conversation {
    pub prompt: String,
    pub response: String,
    pub timestamp: i64,
}

/// A registered user.
#[derive(Debug, Clone)]
pub struct User {
    pub discord_id: u64,
    pub nickname: String,
    pub conversations: Vec<Conversation>,
}

/// Why the store refused an operation.
#[derive(Debug, Clone, Copy, PartialEq, Eq, Structural)]
pub enum StoreError {
    /// A record with that id exists already.
    Duplicate,
    /// No record with that id exists.
    NotFound,
    /// The record's history would have a timestamp earlier than the one
    /// before it.
    OutOfOrder,
    /// The store could not be reached or answered with an error.
    Unavailable,
}

/// A freshly registered user: the given nickname and an empty history.
pub fn new_user(discord_id: u64, nickname: String) -> (r: User)
    ensures
        r.discord_id == discord_id,
        r.nickname == nickname,
        r.conversations@.len() == 0,
{
    User { discord_id, nickname, conversations: Vec::new() }
}

/// Whether a user counts as registered, given the answer of a lookup: only a
/// lookup that succeeded and found the record does; an error counts as not
/// registered.
pub fn registered_from_lookup(lookup: &Result<bool, StoreError>) -> (r: bool)
    ensures
        r == (*lookup == Ok::<bool, StoreError>(true)),
{
    match lookup {
        Ok(found) => *found,
        Err(_) => false,
    }
}

/// The nickname that a lookup by id yields: the record's nickname, or nothing
/// when no record was found or the lookup failed.
pub fn get_nickname_by_discord_id(lookup: Result<Option<User>, StoreError>) -> (r: Option<String>)
    ensures
        r == (match lookup {
            Ok(Some(u)) => Some(u.nickname),
            _ => None,
        }),
{
    match lookup {
        Ok(Some(u)) => Some(u.nickname),
        _ => None,
    }
}

/// The timestamps of a history do not decrease in insertion order.
pub open spec fn timestamps_ordered(c: Seq<Conversation>) -> bool {
    forall|i: int, j: int| 0 <= i < j < c.len() ==> c[i].timestamp <= c[j].timestamp
}

/// Whether the timestamps of a history do not decrease.
pub fn history_ordered(c: &Vec<Conversation>) -> (r: bool)
    ensures
        r == timestamps_ordered(c@),
{
    let mut i: usize = 1;
    while i < c.len()
        invariant
            1 <= i,
            forall|a: int, b: int| 0 <= a < b < i && b < c@.len() ==> c@[a].timestamp <= c@[b].timestamp,
        decreases c@.len() - i,
    {
        if c[i - 1].timestamp > c[i].timestamp {
            return false;
        }
        proof {
            assert forall|a: int, b: int| 0 <= a < b < i + 1 && b < c@.len() implies c@[a].timestamp
                <= c@[b].timestamp by {
                if b == i as int && a < i - 1 {
                    assert(c@[a].timestamp <= c@[i - 1].timestamp);
                }
            }
        }
        i = i + 1;
    }
    true
}

/// Whether `entry` may follow history `c`: it is not older than the last entry.
pub open spec fn appends_in_order(c: Seq<Conversation>, entry: Conversation) -> bool {
    c.len() == 0 || c[c.len() - 1].timestamp <= entry.timestamp
}

/// Users keyed by their external id.
pub struct UserStore {
    pub users: HashMap<u64, User>,
}

impl UserStore {
    pub closed spec fn view(&self) -> Map<u64, User> {
        self.users@
    }

    /// Whether each record is filed under its own id, with a history whose
    /// timestamps do not decrease.
    pub closed spec fn wf(&self) -> bool {
        forall|k: u64| #[trigger] self.users@.contains_key(k) ==> self.users@[k].discord_id == k
            && timestamps_ordered(self.users@[k].conversations@)
    }

    pub fn new() -> (r: UserStore)
        ensures
            r.view() == Map::<u64, User>::empty(),
            r.wf(),
    {
        UserStore { users: HashMap::new() }
    }

    /// Whether a record with this id exists.
    pub fn is_registered(&self, discord_id: u64) -> (r: bool)
        ensures
            r == self.view().contains_key(discord_id),
    {
        self.users.contains_key(&discord_id)
    }

    /// The record with this id, if any.
    pub fn find_by_external_id(&self, discord_id: u64) -> (r: Option<&User>)
        ensures
            r is Some <==> self.view().contains_key(discord_id),
            r is Some ==> *r->Some_0 == self.view()[discord_id],
    {
        self.users.get(&discord_id)
    }

    /// Adds a record; a second record for the same id is refused, and so is a
    /// record whose history is out of order.
    pub fn insert(&mut self, user: User) -> (r: Result<(), StoreError>)
        requires
            old(self).wf(),
        ensures
            final(self).wf(),
            old(self).view().contains_key(user.discord_id) ==> r == Err::<(), StoreError>(
                StoreError::Duplicate,
            ) && final(self).view() == old(self).view(),
            !old(self).view().contains_key(user.discord_id) && !timestamps_ordered(
                user.conversations@,
            ) ==> r == Err::<(), StoreError>(StoreError::OutOfOrder) && final(self).view() == old(
                self,
            ).view(),
            !old(self).view().contains_key(user.discord_id) && timestamps_ordered(
                user.conversations@,
            ) ==> r is Ok && final(self).view() == old(self).view().insert(user.discord_id, user),
    {
        if self.users.contains_key(&user.discord_id) {
            Err(StoreError::Duplicate)
        } else if !history_ordered(&user.conversations) {
            Err(StoreError::OutOfOrder)
        } else {
            let id = user.discord_id;
            self.users.insert(id, user);
            Ok(())
        }
    }

    /// Appends an exchange to the history of the user with this id; an entry
    /// older than the last one of that history is refused.
    pub fn append_conversation(&mut self, discord_id: u64, entry: Conversation)
        -> (r: Result<(), StoreError>)
        requires
            old(self).wf(),
        ensures
            final(self).wf(),
            !old(self).view().contains_key(discord_id) ==> r == Err::<(), StoreError>(
                StoreError::NotFound,
            ) && final(self).view() == old(self).view(),
            old(self).view().contains_key(discord_id) && !appends_in_order(
                old(self).view()[discord_id].conversations@,
                entry,
            ) ==> r == Err::<(), StoreError>(StoreError::OutOfOrder) && final(self).view() == old(
                self,
            ).view(),
            old(self).view().contains_key(discord_id) && appends_in_order(
                old(self).view()[discord_id].conversations@,
                entry,
            ) ==> {
                &&& r is Ok
                &&& final(self).view().dom() == old(self).view().dom()
                &&& forall|k: u64| k != discord_id && #[trigger] old(self).view().contains_key(k)
                    ==> final(self).view()[k] == old(self).view()[k]
                &&& final(self).view()[discord_id].nickname == old(self).view()[discord_id].nickname
                &&& final(self).view()[discord_id].conversations@
                    == old(self).view()[discord_id].conversations@.push(entry)
            },
    {
        let n = match self.users.get(&discord_id) {
            Some(u) => u.conversations.len(),
            None => { return Err(StoreError::NotFound); },
        };
        if n > 0 {
            let last = match self.users.get(&discord_id) {
                Some(u) => u.conversations[n - 1].timestamp,
                None => { return Err(StoreError::NotFound); },
            };
            if entry.timestamp < last {
                return Err(StoreError::OutOfOrder);
            }
        }
        match self.users.remove(&discord_id) {
            Some(u) => {
                let mut u = u;
                u.conversations.push(entry);
                self.users.insert(discord_id, u);
                proof {
                    assert(self.users@.dom() =~= old(self).users@.dom());
                }
                Ok(())
            },
            None => Err(StoreError::NotFound),
        }
    }
}

} // verus!
