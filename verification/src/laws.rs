//! What holds of the registry over one operation and over whole histories of
//! creates and deletes.

use vstd::prelude::*;
use crate::store::StoreView;
use crate::user::UserView;

verus! {

/// An operation that changes the registry.
pub enum Op {
    /// A create with the given username.
    Create(Seq<char>),
    /// A delete of the given id.
    Delete(nat),
}

/// The state after one operation.
pub open spec fn step(s: StoreView, op: Op) -> StoreView {
    match op {
        Op::Create(username) => s.create(username),
        Op::Delete(id) => s.delete(id),
    }
}

/// The state after the operations `ops`, applied to `s` in order.
pub open spec fn run(s: StoreView, ops: Seq<Op>) -> StoreView
    decreases ops.len(),
{
    if ops.len() == 0 {
        s
    } else {
        step(run(s, ops.drop_last()), ops.last())
    }
}

/// How many of `ops` are creates.
pub open spec fn creates(ops: Seq<Op>) -> nat
    decreases ops.len(),
{
    if ops.len() == 0 {
        0
    } else {
        creates(ops.drop_last()) + match ops.last() {
            Op::Create(_) => 1nat,
            Op::Delete(_) => 0nat,
        }
    }
}

/// How many of `ops`, applied to `s` in order, are deletes that find their
/// record, that is, deletes that report a removal.
pub open spec fn removals(s: StoreView, ops: Seq<Op>) -> nat
    decreases ops.len(),
{
    if ops.len() == 0 {
        0
    } else {
        removals(s, ops.drop_last()) + match ops.last() {
            Op::Create(_) => 0nat,
            Op::Delete(id) => if run(s, ops.drop_last()).contains_id(id) {
                1nat
            } else {
                0nat
            },
        }
    }
}

/// The ids returned by the creates among `ops`, applied to `s` in order.
pub open spec fn issued(s: StoreView, ops: Seq<Op>) -> Seq<nat>
    decreases ops.len(),
{
    if ops.len() == 0 {
        Seq::empty()
    } else {
        let before = issued(s, ops.drop_last());
        match ops.last() {
            Op::Create(_) => before.push(run(s, ops.drop_last()).next_id),
            Op::Delete(_) => before,
        }
    }
}

/// A create leaves a well-formed state well-formed.
pub proof fn lemma_create_wf(s: StoreView, username: Seq<char>)
    requires
        s.wf(),
    ensures
        s.create(username).wf(),
{
}

/// Every state reached from a well-formed one by creates and deletes is
/// well-formed: no id occurs twice, and the counter lies above every id held.
pub proof fn lemma_run_wf(s: StoreView, ops: Seq<Op>)
    requires
        s.wf(),
    ensures
        run(s, ops).wf(),
    decreases ops.len(),
{
    if ops.len() > 0 {
        lemma_run_wf(s, ops.drop_last());
        let before = run(s, ops.drop_last());
        match ops.last() {
            Op::Create(username) => lemma_create_wf(before, username),
            Op::Delete(id) => before.lemma_delete_wf(id),
        }
    }
}

/// The ids that a history of creates hands out are consecutive, starting at
/// the counter's first value, whatever deletes stand between them. So they are
/// strictly increasing in the order of the calls and pairwise distinct, the
/// counter stays above every id issued, and no id is issued again after its
/// record is deleted.
pub proof fn lemma_issued_ids_increase(s: StoreView, ops: Seq<Op>)
    ensures
        issued(s, ops).len() == creates(ops),
        run(s, ops).next_id == s.next_id + creates(ops),
        forall|k: int| 0 <= k < creates(ops) ==> #[trigger] issued(s, ops)[k] == s.next_id + k,
        forall|k: int|
            0 <= k < creates(ops) ==> #[trigger] issued(s, ops)[k] < run(s, ops).next_id,
        forall|i: int, j: int|
            0 <= i < j < creates(ops) ==> #[trigger] issued(s, ops)[i]
                < #[trigger] issued(s, ops)[j],
        forall|i: int, j: int|
            0 <= i < creates(ops) && 0 <= j < creates(ops) && i != j
                ==> #[trigger] issued(s, ops)[i] != #[trigger] issued(s, ops)[j],
    decreases ops.len(),
{
    if ops.len() > 0 {
        lemma_issued_ids_increase(s, ops.drop_last());
    }
}

/// After a create, a lookup of the id it returned finds the record it
/// returned, which carries the username given.
pub proof fn lemma_create_then_get(s: StoreView, username: Seq<char>)
    requires
        s.wf(),
    ensures
        s.created(username).username == username,
        s.create(username).find(s.created(username).user_id) == Some(s.created(username)),
{
    let after = s.create(username);
    lemma_create_wf(s, username);
    after.lemma_index_of(s.next_id, s.records.len() as int);
}

/// A create changes no lookup of an id other than the one it issues.
pub proof fn lemma_create_keeps_others(s: StoreView, username: Seq<char>, id: nat)
    requires
        s.wf(),
        id != s.next_id,
    ensures
        s.create(username).find(id) == s.find(id),
{
    let after = s.create(username);
    lemma_create_wf(s, username);
    if s.contains_id(id) {
        let i = s.index_of(id);
        assert(after.records[i] == s.records[i]);
        after.lemma_index_of(id, i);
    } else if after.contains_id(id) {
        let j = after.index_of(id);
        assert(j < s.records.len());
        assert(s.records[j].user_id == id);
    }
}

/// A delete of an id that is held removes exactly the record with that id:
/// the registry is shorter by one, a lookup of the id finds nothing, and a
/// second delete of it finds nothing to remove and changes nothing.
pub proof fn lemma_delete_once(s: StoreView, id: nat)
    requires
        s.wf(),
        s.contains_id(id),
    ensures
        s.delete(id).records.len() == s.records.len() - 1,
        !s.delete(id).contains_id(id),
        s.delete(id).find(id).is_none(),
        s.delete(id).delete(id) == s.delete(id),
{
    let i = s.index_of(id);
    let after = s.delete(id);
    if after.contains_id(id) {
        let k = after.index_of(id);
        let back = if k < i {
            k
        } else {
            k + 1
        };
        assert(after.records[k] == s.records[back]);
        s.lemma_index_of(id, back);
    }
}

/// A delete of an id that is not held changes nothing.
pub proof fn lemma_delete_absent(s: StoreView, id: nat)
    requires
        !s.contains_id(id),
    ensures
        s.delete(id) == s,
{
}

/// A delete changes no lookup of another id.
pub proof fn lemma_delete_keeps_others(s: StoreView, id: nat, other: nat)
    requires
        s.wf(),
        other != id,
    ensures
        s.delete(id).find(other) == s.find(other),
{
    if s.contains_id(id) {
        let i = s.index_of(id);
        let after = s.delete(id);
        s.lemma_delete_wf(id);
        if s.contains_id(other) {
            let j = s.index_of(other);
            let there = if j < i {
                j
            } else {
                j - 1
            };
            assert(after.records[there] == s.records[j]);
            after.lemma_index_of(other, there);
        } else if after.contains_id(other) {
            let k = after.index_of(other);
            let back = if k < i {
                k
            } else {
                k + 1
            };
            assert(after.records[k] == s.records[back]);
        }
    }
}

/// A delete keeps exactly the records whose id differs from the one given, in
/// their order.
pub proof fn lemma_delete_is_filter(s: StoreView, id: nat)
    requires
        s.wf(),
    ensures
        s.delete(id).records == s.records.filter(|u: UserView| u.user_id != id),
    decreases s.records.len(),
{
    let keep = |u: UserView| u.user_id != id;
    reveal(Seq::filter);
    if s.records.len() > 0 {
        let front = StoreView { records: s.records.drop_last(), next_id: s.next_id };
        let last = s.records.last();
        assert(front.wf());
        lemma_delete_is_filter(front, id);
        assert(front.delete(id).records == front.records.filter(keep));
        if last.user_id == id {
            s.lemma_index_of(id, s.records.len() - 1);
            if front.contains_id(id) {
                let k = front.index_of(id);
                assert(s.records[k].user_id == id);
                s.lemma_index_of(id, k);
            }
            assert(s.delete(id).records =~= front.records);
        } else if s.contains_id(id) {
            let i = s.index_of(id);
            assert(front.records[i].user_id == id);
            front.lemma_index_of(id, i);
            assert(s.delete(id).records =~= front.delete(id).records.push(last));
        } else {
            if front.contains_id(id) {
                let k = front.index_of(id);
                assert(s.records[k].user_id == id);
            }
            assert(s.delete(id).records =~= front.delete(id).records.push(last));
        }
    } else {
        assert(s.delete(id).records =~= s.records.filter(keep));
    }
}

/// A record is destroyed by a delete of its id and by nothing else: after a
/// create, whatever creates and deletes of other ids follow, a lookup of the
/// id issued still finds the record as it was created.
pub proof fn lemma_record_stays(s: StoreView, username: Seq<char>, ops: Seq<Op>)
    requires
        s.wf(),
        forall|k: int| 0 <= k < ops.len() ==> #[trigger] ops[k] != Op::Delete(s.next_id),
    ensures
        run(s.create(username), ops).find(s.next_id) == Some(s.created(username)),
    decreases ops.len(),
{
    let start = s.create(username);
    lemma_create_wf(s, username);
    if ops.len() == 0 {
        lemma_create_then_get(s, username);
    } else {
        let front = ops.drop_last();
        lemma_record_stays(s, username, front);
        lemma_run_wf(start, front);
        lemma_issued_ids_increase(start, front);
        let before = run(start, front);
        match ops.last() {
            Op::Create(name) => lemma_create_keeps_others(before, name, s.next_id),
            Op::Delete(id) => {
                assert(ops[ops.len() - 1] != Op::Delete(s.next_id));
                lemma_delete_keeps_others(before, id, s.next_id);
            },
        }
    }
}

/// The number of records held after a history equals the number held before
/// it, plus the creates, minus the deletes that reported a removal.
pub proof fn lemma_len_counts(s: StoreView, ops: Seq<Op>)
    ensures
        run(s, ops).records.len() == s.records.len() + creates(ops) - removals(s, ops),
    decreases ops.len(),
{
    if ops.len() > 0 {
        lemma_len_counts(s, ops.drop_last());
    }
}

/// A registry that started empty holds as many records as creates were made,
/// less the deletes that reported a removal.
pub proof fn lemma_len_from_start(ops: Seq<Op>)
    ensures
        run(StoreView::empty(), ops).records.len() == creates(ops) - removals(
            StoreView::empty(),
            ops,
        ),
{
    lemma_len_counts(StoreView::empty(), ops);
}

/// A history of creates alone loses no record: from the empty registry, as
/// many records are held as creates were made.
pub proof fn lemma_creates_keep_all(ops: Seq<Op>)
    requires
        forall|k: int| 0 <= k < ops.len() ==> #[trigger] ops[k] is Create,
    ensures
        run(StoreView::empty(), ops).records.len() == ops.len(),
    decreases ops.len(),
{
    if ops.len() > 0 {
        lemma_creates_keep_all(ops.drop_last());
    }
}

} // verus!
