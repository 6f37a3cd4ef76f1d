//! The user record and its mathematical model.

use vstd::prelude::*;

verus! {

/// What a record is, independent of how it is stored: its id and two texts.
pub struct UserView {
    pub user_id: nat,
    pub username: Seq<char>,
    pub message: Seq<char>,
}

/// One entry of the registry. The id is assigned by the registry, the username
/// comes from the client, and the message confirms the creation.
#[derive(Debug, PartialEq, Eq)]
pub struct User {
    pub user_id: u64,
    pub username: String,
    pub message: String,
}

impl View for User {
    type V = UserView;

    open spec fn view(&self) -> UserView {
        UserView {
            user_id: self.user_id as nat,
            username: self.username@,
            message: self.message@,
        }
    }
}

impl Clone for User {
    /// An independent copy: equal in every field, sharing no storage.
    fn clone(&self) -> (copy: Self)
        ensures
            copy == *self,
    {
        User {
            user_id: self.user_id,
            username: self.username.clone(),
            message: self.message.clone(),
        }
    }
}

/// The models of a sequence of records, in the same order.
pub open spec fn views_of(users: Seq<User>) -> Seq<UserView> {
    Seq::new(users.len(), |i: int| users[i]@)
}

/// The body of a create request.
#[derive(Debug, PartialEq, Eq)]
pub struct CreateUserRequest {
    pub username: String,
}

} // verus!
