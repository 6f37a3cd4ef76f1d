//! The registry: an insertion-ordered collection of records and the counter
//! from which ids are issued.

use vstd::prelude::*;
use crate::text::{created_message, created_text};
use crate::user::{User, UserView, views_of};

verus! {

/// The state of a registry as plain mathematics.
pub struct StoreView {
    /// The records, oldest first.
    pub records: Seq<UserView>,
    /// The id that the next create will issue.
    pub next_id: nat,
}

impl StoreView {
    /// The state at start-up: no records, and 1 as the first id to issue.
    pub open spec fn empty() -> StoreView {
        StoreView { records: Seq::empty(), next_id: 1 }
    }

    /// What every reachable state satisfies: ids start at 1, lie below the
    /// counter, grow strictly along the sequence (so none occurs twice), and
    /// every record still carries the message it was created with.
    pub open spec fn wf(self) -> bool {
        &&& self.next_id >= 1
        &&& forall|i: int|
            0 <= i < self.records.len() ==> 1 <= (#[trigger] self.records[i]).user_id
                < self.next_id
        &&& forall|i: int, j: int|
            0 <= i < j < self.records.len() ==> (#[trigger] self.records[i]).user_id
                < (#[trigger] self.records[j]).user_id
        &&& forall|i: int|
            0 <= i < self.records.len() ==> (#[trigger] self.records[i]).message
                == created_message(self.records[i].user_id)
    }

    /// Whether some record has the id `id`.
    pub open spec fn contains_id(self, id: nat) -> bool {
        exists|i: int| 0 <= i < self.records.len() && (#[trigger] self.records[i]).user_id == id
    }

    /// A position at which a record with id `id` stands, if there is one.
    pub open spec fn index_of(self, id: nat) -> int {
        choose|i: int| 0 <= i < self.records.len() && (#[trigger] self.records[i]).user_id == id
    }

    /// The record with id `id`, or `None` where no record has it.
    pub open spec fn find(self, id: nat) -> Option<UserView> {
        if self.contains_id(id) {
            Some(self.records[self.index_of(id)])
        } else {
            None
        }
    }

    /// The record that a create with `username` produces in this state.
    pub open spec fn created(self, username: Seq<char>) -> UserView {
        UserView {
            user_id: self.next_id,
            username,
            message: created_message(self.next_id),
        }
    }

    /// The state after a create with `username`: the new record stands last
    /// and the counter has moved on by one.
    pub open spec fn create(self, username: Seq<char>) -> StoreView {
        StoreView {
            records: self.records.push(self.created(username)),
            next_id: self.next_id + 1,
        }
    }

    /// The state after a delete of `id`: the record with that id is gone, the
    /// others keep their order, and the counter is untouched.
    pub open spec fn delete(self, id: nat) -> StoreView {
        if self.contains_id(id) {
            StoreView { records: self.records.remove(self.index_of(id)), next_id: self.next_id }
        } else {
            self
        }
    }

    /// In a well-formed state a record's id determines its position.
    pub proof fn lemma_index_of(self, id: nat, i: int)
        requires
            self.wf(),
            0 <= i < self.records.len(),
            self.records[i].user_id == id,
        ensures
            self.contains_id(id),
            self.index_of(id) == i,
    {
        let j = self.index_of(id);
        assert(0 <= j < self.records.len() && self.records[j].user_id == id);
        if j < i {
            assert(self.records[j].user_id < self.records[i].user_id);
        } else if i < j {
            assert(self.records[i].user_id < self.records[j].user_id);
        }
    }

    /// A delete leaves a well-formed state well-formed.
    pub proof fn lemma_delete_wf(self, id: nat)
        requires
            self.wf(),
        ensures
            self.delete(id).wf(),
    {
        if self.contains_id(id) {
            let i = self.index_of(id);
            let after = self.delete(id).records;
            assert forall|k: int| 0 <= k < after.len() implies after[k] == self.records[if k < i {
                k
            } else {
                k + 1
            }] by {}
        }
    }
}

/// The registry of user records.
pub struct Store {
    users: Vec<User>,
    next_id: u64,
}

impl View for Store {
    type V = StoreView;

    closed spec fn view(&self) -> StoreView {
        StoreView { records: views_of(self.users@), next_id: self.next_id as nat }
    }
}

impl Store {
    /// Whether the registry is in a reachable state.
    pub open spec fn wf(&self) -> bool {
        self@.wf() && self@.next_id <= u64::MAX
    }

    /// A registry with no records that will issue 1 as its first id.
    pub fn new() -> (store: Store)
        ensures
            store.wf(),
            store@ == StoreView::empty(),
    {
        let store = Store { users: Vec::new(), next_id: 1 };
        assert(store@.records =~= Seq::empty());
        store
    }

    /// The number of records held.
    pub fn len(&self) -> (n: usize)
        ensures
            n == self@.records.len(),
    {
        self.users.len()
    }

    /// The id that the next create will issue.
    pub fn next_id(&self) -> (id: u64)
        ensures
            id == self@.next_id,
    {
        self.next_id
    }

    /// Adds a record for `username` under the next id and returns a copy of it.
    /// The counter cannot pass the largest `u64`, so a registry that has
    /// reached it takes no further record.
    pub fn create(&mut self, username: String) -> (user: User)
        requires
            old(self).wf(),
            old(self)@.next_id < u64::MAX,
        ensures
            final(self).wf(),
            final(self)@ == old(self)@.create(username@),
            user@ == old(self)@.created(username@),
    {
        let id = self.next_id;
        self.next_id = id + 1;
        let new_user = User { user_id: id, username, message: created_text(id) };
        let copy = new_user.clone();
        self.users.push(new_user);
        proof {
            assert(self@.records =~= old(self)@.records.push(old(self)@.created(username@)));
        }
        copy
    }

    /// A snapshot of all records, oldest first, as independent copies.
    pub fn list(&self) -> (all: Vec<User>)
        ensures
            views_of(all@) == self@.records,
    {
        let all = self.users.clone();
        assert(all@ =~= self.users@);
        all
    }

    /// A copy of the record with id `id`, or `None` where no record has it.
    pub fn get(&self, id: u64) -> (found: Option<User>)
        requires
            self.wf(),
        ensures
            match found {
                Some(user) => self@.find(id as nat) == Some(user@),
                None => self@.find(id as nat).is_none(),
            },
    {
        let mut i: usize = 0;
        while i < self.users.len()
            invariant
                self.wf(),
                i <= self.users.len(),
                forall|k: int| 0 <= k < i ==> (#[trigger] self@.records[k]).user_id != id,
            decreases self.users.len() - i,
        {
            if self.users[i].user_id == id {
                proof {
                    self@.lemma_index_of(id as nat, i as int);
                }
                return Some(self.users[i].clone());
            }
            i += 1;
        }
        None
    }

    /// Removes the record with id `id` if there is one, and says whether it did.
    pub fn delete(&mut self, id: u64) -> (removed: bool)
        requires
            old(self).wf(),
        ensures
            final(self).wf(),
            removed == old(self)@.contains_id(id as nat),
            final(self)@ == old(self)@.delete(id as nat),
    {
        let mut i: usize = 0;
        while i < self.users.len()
            invariant
                self.wf(),
                i <= self.users.len(),
                *self == *old(self),
                forall|k: int| 0 <= k < i ==> (#[trigger] self@.records[k]).user_id != id,
            decreases self.users.len() - i,
        {
            if self.users[i].user_id == id {
                proof {
                    self@.lemma_index_of(id as nat, i as int);
                }
                self.users.remove(i);
                proof {
                    assert(self@.records =~= old(self)@.records.remove(i as int));
                    old(self)@.lemma_delete_wf(id as nat);
                }
                return true;
            }
            i += 1;
        }
        false
    }
}

} // verus!
