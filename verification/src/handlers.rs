//! The request handlers: each takes what the transport layer extracted from a
//! request and returns the value that is sent back as the response body.

use vstd::prelude::*;
use crate::store::Store;
use crate::text::{deleted_message, deleted_text, not_found_message, not_found_text};
use crate::user::{CreateUserRequest, User, views_of};

verus! {

/// The greeting served at the root path.
pub open spec fn welcome() -> Seq<char> {
    "Welcome to Rusty API! 🦀"@
}

/// The reply to a delete request for `id`, given whether a record was removed.
pub open spec fn delete_reply(id: nat, removed: bool) -> Seq<char> {
    if removed {
        deleted_message(id)
    } else {
        not_found_message(id)
    }
}

/// Answers a request for the root path with the greeting.
pub fn say_hello() -> (greeting: &'static str)
    ensures
        greeting@ == welcome(),
{
    "Welcome to Rusty API! 🦀"
}

/// Answers a create request: registers the username under the next id and
/// returns the new record.
pub fn create_user(state: &mut Store, payload: CreateUserRequest) -> (user: User)
    requires
        old(state).wf(),
        old(state)@.next_id < u64::MAX,
    ensures
        final(state).wf(),
        final(state)@ == old(state)@.create(payload.username@),
        user@ == old(state)@.created(payload.username@),
{
    state.create(payload.username)
}

/// Answers a request for all records with a snapshot of them, oldest first.
pub fn get_all_users(state: &Store) -> (all: Vec<User>)
    ensures
        views_of(all@) == state@.records,
{
    state.list()
}

/// Answers a request for one record: the record with id `id`, or `None`, which
/// is a regular answer and no failure, where no record has that id.
pub fn get_single_user(state: &Store, id: u64) -> (found: Option<User>)
    requires
        state.wf(),
    ensures
        match found {
            Some(user) => state@.find(id as nat) == Some(user@),
            None => state@.find(id as nat).is_none(),
        },
{
    state.get(id)
}

/// Answers a delete request: removes the record with id `id` if there is one,
/// and returns the sentence that says which of the two happened.
pub fn delete_user(state: &mut Store, id: u64) -> (reply: String)
    requires
        old(state).wf(),
    ensures
        final(state).wf(),
        final(state)@ == old(state)@.delete(id as nat),
        reply@ == delete_reply(id as nat, old(state)@.contains_id(id as nat)),
{
    if state.delete(id) {
        deleted_text(id)
    } else {
        not_found_text(id)
    }
}

} // verus!
