//! Undo records and savepoints.

use crate::kv::{apply_write, apply_writes, Key, StoreModel, Val, WriteView};
use vstd::prelude::*;

verus! {

/// A savepoint state capturing operations that can be undone.
pub struct Savepoint {
    /// Operations that can be undone to roll back to this savepoint.
    pub operations: Vec<Operation>,
}

/// An operation that can be undone during savepoint rollback.
#[derive(Debug, Clone)]
pub enum Operation {
    /// Delete a key that was inserted.
    DeleteKey(Key),
    /// Restore a key to its previous value.
    RestoreValue(Key, Val),
    /// Restore a key that was deleted (insert it back).
    RestoreDeleted(Key, Val),
}

/// An undo record over byte sequences.
pub enum OpView {
    DeleteKey(Seq<u8>),
    RestoreValue(Seq<u8>, Seq<u8>),
    RestoreDeleted(Seq<u8>, Seq<u8>),
}

impl View for Operation {
    type V = OpView;

    open spec fn view(&self) -> OpView {
        match self {
            Operation::DeleteKey(k) => OpView::DeleteKey(k@),
            Operation::RestoreValue(k, v) => OpView::RestoreValue(k@, v@),
            Operation::RestoreDeleted(k, v) => OpView::RestoreDeleted(k@, v@),
        }
    }
}

/// The views of a list of undo records.
pub open spec fn ops_view(ops: Seq<Operation>) -> Seq<OpView> {
    ops.map_values(|o: Operation| o@)
}

/// The store command that undoes one record.
pub open spec fn undo_write(op: OpView) -> WriteView {
    match op {
        OpView::DeleteKey(k) => (k, None),
        OpView::RestoreValue(k, v) => (k, Some(v)),
        OpView::RestoreDeleted(k, v) => (k, Some(v)),
    }
}

/// The commands that undo a log: the newest record first.
pub open spec fn undo_plan(ops: Seq<OpView>) -> Seq<WriteView> {
    Seq::new(ops.len(), |j: int| undo_write(ops[ops.len() - 1 - j]))
}

/// The store after undoing every record of a log.
pub open spec fn undo(m: StoreModel, ops: Seq<OpView>) -> StoreModel {
    apply_writes(m, undo_plan(ops))
}

/// Undoing a log with one more record first undoes that record.
pub proof fn lemma_undo_push(m: StoreModel, ops: Seq<OpView>, op: OpView)
    ensures
        undo(m, ops.push(op)) == undo(apply_write(m, undo_write(op)), ops),
{
    let p = undo_plan(ops.push(op));
    assert(p.len() > 0);
    assert(p[0] == undo_write(op));
    assert(p.drop_first() =~= undo_plan(ops));
}

/// Undoing an empty log leaves the store as it is.
pub proof fn lemma_undo_empty(m: StoreModel, ops: Seq<OpView>)
    requires
        ops.len() == 0,
    ensures
        undo(m, ops) == m,
{
    assert(undo_plan(ops).len() == 0);
}

/// The commands that undo `ops`, newest record first.
pub fn undo_commands(ops: &Vec<Operation>) -> (r: Vec<crate::kv::Write>)
    ensures
        r@.map_values(|w: crate::kv::Write| w@) == undo_plan(ops_view(ops@)),
{
    let n = ops.len();
    let mut r: Vec<crate::kv::Write> = Vec::new();
    let mut i: usize = n;
    while i > 0
        invariant
            n == ops@.len(),
            i <= n,
            r@.len() == n - i,
            forall|j: int|
                0 <= j < n - i ==> #[trigger] r@[j]@ == undo_write(ops@[n - 1 - j]@),
        decreases i,
    {
        i = i - 1;
        let w = match &ops[i] {
            Operation::DeleteKey(k) => crate::kv::Write::Delete(k.clone()),
            Operation::RestoreValue(k, v) => crate::kv::Write::Put(k.clone(), v.clone()),
            Operation::RestoreDeleted(k, v) => crate::kv::Write::Put(k.clone(), v.clone()),
        };
        r.push(w);
    }
    assert(r@.map_values(|w: crate::kv::Write| w@) =~= undo_plan(ops_view(ops@)));
    r
}

} // verus!
