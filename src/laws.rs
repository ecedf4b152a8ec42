//! Laws of the engine, stated over its model: a transaction state driven
//! against a store, where each call is handed the value the store holds
//! under its key and its command, if any, is applied to the store.

use crate::err::Error;
use crate::lock::grants;
use crate::kv::{apply_write, apply_writes, lookup, StoreModel};
use crate::sp::{lemma_undo_empty, lemma_undo_push, undo, OpView};
use crate::tx::{
    begin_spec, tx_cancel, tx_commit, tx_del, tx_delc, tx_put, tx_putc, tx_rollback, tx_savepoint,
    tx_set, TxState,
};
use vstd::prelude::*;

verus! {

/// A mutating call, as the laws replay it.
pub enum Mutation {
    SetCall(Seq<u8>, Seq<u8>),
    PutCall(Seq<u8>, Seq<u8>),
    PutcCall(Seq<u8>, Seq<u8>, Option<Seq<u8>>),
    DelCall(Seq<u8>),
    DelcCall(Seq<u8>, Option<Seq<u8>>),
}

/// The engine's answer to one mutating call against store `m`.
pub open spec fn answer(s: TxState, m: StoreModel, c: Mutation) -> (
    TxState,
    Result<(Seq<u8>, Option<Seq<u8>>), Error>,
) {
    match c {
        Mutation::SetCall(k, v) => tx_set(s, k, v, lookup(m, k)),
        Mutation::PutCall(k, v) => tx_put(s, k, v, lookup(m, k)),
        Mutation::PutcCall(k, v, e) => tx_putc(s, k, v, lookup(m, k), e),
        Mutation::DelCall(k) => tx_del(s, k, lookup(m, k)),
        Mutation::DelcCall(k, e) => tx_delc(s, k, lookup(m, k), e),
    }
}

/// One mutating call: the engine answers and its command reaches the store.
pub open spec fn step(s: TxState, m: StoreModel, c: Mutation) -> (TxState, StoreModel) {
    let a = answer(s, m, c);
    (
        a.0,
        match a.1 {
            Ok(w) => apply_write(m, w),
            Err(_) => m,
        },
    )
}

/// A sequence of mutating calls, first to last.
pub open spec fn run(s: TxState, m: StoreModel, cs: Seq<Mutation>) -> (TxState, StoreModel)
    decreases cs.len(),
{
    if cs.len() == 0 {
        (s, m)
    } else {
        let n = step(s, m, cs[0]);
        run(n.0, n.1, cs.drop_first())
    }
}

/// What a call leaves alone: lifecycle flags and the savepoint stack.
pub open spec fn same_frame(a: TxState, b: TxState) -> bool {
    a.done == b.done && a.write == b.write && a.holds_token == b.holds_token && a.savepoints
        == b.savepoints
}

proof fn lemma_set_undone(s: TxState, m: StoreModel, k: Seq<u8>, v: Seq<u8>)
    requires
        s.write_guard() is None,
        s.tracking(),
    ensures
        ({
            let a = tx_set(s, k, v, lookup(m, k));
            same_frame(a.0, s) && a.0.tracking() && a.1 is Ok && undo(
                apply_write(m, a.1->Ok_0),
                a.0.operations,
            ) == undo(m, s.operations)
        }),
{
    let m1 = m.insert(k, v);
    if m.dom().contains(k) {
        let op = OpView::RestoreValue(k, m[k]);
        lemma_undo_push(m1, s.operations, op);
        assert(m1.insert(k, m[k]) =~= m);
    } else {
        let op = OpView::DeleteKey(k);
        lemma_undo_push(m1, s.operations, op);
        assert(m1.remove(k) =~= m);
    }
}

proof fn lemma_del_undone(s: TxState, m: StoreModel, k: Seq<u8>)
    requires
        s.write_guard() is None,
        s.tracking(),
    ensures
        ({
            let a = tx_del(s, k, lookup(m, k));
            same_frame(a.0, s) && a.0.tracking() && a.1 is Ok && undo(
                apply_write(m, a.1->Ok_0),
                a.0.operations,
            ) == undo(m, s.operations)
        }),
{
    let m1 = m.remove(k);
    if m.dom().contains(k) {
        let op = OpView::RestoreDeleted(k, m[k]);
        lemma_undo_push(m1, s.operations, op);
        assert(m1.insert(k, m[k]) =~= m);
    } else {
        assert(m1 =~= m);
    }
}

proof fn lemma_step_undone(s: TxState, m: StoreModel, c: Mutation)
    requires
        s.write_guard() is None,
        s.tracking(),
    ensures
        ({
            let n = step(s, m, c);
            same_frame(n.0, s) && n.0.tracking() && undo(n.1, n.0.operations) == undo(
                m,
                s.operations,
            )
        }),
{
    match c {
        Mutation::SetCall(k, v) => lemma_set_undone(s, m, k, v),
        Mutation::PutCall(k, v) => lemma_set_undone(s, m, k, v),
        Mutation::PutcCall(k, v, e) => lemma_set_undone(s, m, k, v),
        Mutation::DelCall(k) => lemma_del_undone(s, m, k),
        Mutation::DelcCall(k, e) => lemma_del_undone(s, m, k),
    }
}

proof fn lemma_run_undone(s: TxState, m: StoreModel, cs: Seq<Mutation>)
    requires
        s.write_guard() is None,
        s.tracking(),
    ensures
        ({
            let n = run(s, m, cs);
            same_frame(n.0, s) && n.0.tracking() && undo(n.1, n.0.operations) == undo(
                m,
                s.operations,
            )
        }),
    decreases cs.len(),
{
    if cs.len() > 0 {
        lemma_step_undone(s, m, cs[0]);
        let n = step(s, m, cs[0]);
        lemma_run_undone(n.0, n.1, cs.drop_first());
    }
}

/// Rollback law: whatever sequence of writes and deletes follows a
/// savepoint, rolling back to it yields the commands that return the store
/// to exactly the contents it had when the savepoint was set, and returns
/// the transaction to the state it had then.
pub proof fn rollback_restores(s: TxState, m: StoreModel, cs: Seq<Mutation>)
    requires
        s.write_guard() is None,
    ensures
        ({
            let s1 = tx_savepoint(s).0;
            let n = run(s1, m, cs);
            let b = tx_rollback(n.0);
            b.1 is Ok && apply_writes(n.1, b.1->Ok_0) == m && b.0 == s
        }),
{
    let s1 = tx_savepoint(s).0;
    lemma_undo_empty(m, s1.operations);
    lemma_run_undone(s1, m, cs);
    let n = run(s1, m, cs);
    assert(s.savepoints.push(s.operations).drop_last() =~= s.savepoints);
}

/// Nested savepoints: rolling back to the inner savepoint undoes only what
/// followed it, keeps what came between the two savepoints, and leaves the
/// outer savepoint on the stack.
pub proof fn nested_rollback(s: TxState, m: StoreModel, a: Seq<Mutation>, b: Seq<Mutation>)
    requires
        s.write_guard() is None,
    ensures
        ({
            let s1 = tx_savepoint(s).0;
            let n1 = run(s1, m, a);
            let s2 = tx_savepoint(n1.0).0;
            let n2 = run(s2, n1.1, b);
            let r = tx_rollback(n2.0);
            r.1 is Ok && apply_writes(n2.1, r.1->Ok_0) == n1.1 && r.0 == n1.0
                && r.0.savepoints.len() == s.savepoints.len() + 1
        }),
{
    let s1 = tx_savepoint(s).0;
    lemma_run_undone(s1, m, a);
    let n1 = run(s1, m, a);
    rollback_restores(n1.0, n1.1, b);
}

/// Rolling back with no savepoint set fails with `NoSavepoint` and changes
/// nothing.
pub proof fn rollback_needs_savepoint(s: TxState)
    requires
        s.write_guard() is None,
        s.savepoints.len() == 0,
    ensures
        tx_rollback(s) == (s, Err::<Seq<(Seq<u8>, Option<Seq<u8>>)>, Error>(Error::NoSavepoint)),
{
}

/// A stored value is read back: after `set(k, v)` the store holds `v` under `k`.
pub proof fn set_then_get(s: TxState, m: StoreModel, k: Seq<u8>, v: Seq<u8>)
    requires
        s.write_guard() is None,
    ensures
        lookup(step(s, m, Mutation::SetCall(k, v)).1, k) == Some(v),
{
}

/// A second `put` of the same key fails with `KeyAlreadyExists` and changes
/// nothing; where the key was absent, the first one stored its value.
pub proof fn put_twice(s: TxState, m: StoreModel, k: Seq<u8>, v: Seq<u8>, v2: Seq<u8>)
    requires
        s.write_guard() is None,
    ensures
        ({
            let n1 = step(s, m, Mutation::PutCall(k, v));
            let n2 = step(n1.0, n1.1, Mutation::PutCall(k, v2));
            &&& answer(n1.0, n1.1, Mutation::PutCall(k, v2)).1 == Err::<
                (Seq<u8>, Option<Seq<u8>>),
                Error,
            >(Error::KeyAlreadyExists)
            &&& n2 == n1
            &&& lookup(m, k) is None ==> lookup(n1.1, k) == Some(v)
        }),
{
    let n1 = step(s, m, Mutation::PutCall(k, v));
    if lookup(m, k) is None {
        assert(n1.1.dom().contains(k));
    }
}

/// A conditional write succeeds exactly when the stored value is the
/// expected one (both absent counts as equal); otherwise it fails with
/// `ValNotExpectedValue` and changes neither the transaction nor the store.
pub proof fn putc_compares(s: TxState, m: StoreModel, k: Seq<u8>, v: Seq<u8>, e: Option<Seq<u8>>)
    requires
        s.write_guard() is None,
    ensures
        ({
            let c = Mutation::PutcCall(k, v, e);
            &&& (answer(s, m, c).1 is Ok <==> lookup(m, k) == e)
            &&& answer(s, m, c).1 is Ok ==> lookup(step(s, m, c).1, k) == Some(v)
            &&& answer(s, m, c).1 is Err ==> answer(s, m, c).1 == Err::<
                (Seq<u8>, Option<Seq<u8>>),
                Error,
            >(Error::ValNotExpectedValue) && step(s, m, c) == (s, m)
        }),
{
}

/// A conditional delete follows the same comparison rule as `putc`.
pub proof fn delc_compares(s: TxState, m: StoreModel, k: Seq<u8>, e: Option<Seq<u8>>)
    requires
        s.write_guard() is None,
    ensures
        ({
            let c = Mutation::DelcCall(k, e);
            &&& (answer(s, m, c).1 is Ok <==> lookup(m, k) == e)
            &&& answer(s, m, c).1 is Ok ==> lookup(step(s, m, c).1, k) is None
            &&& answer(s, m, c).1 is Err ==> answer(s, m, c).1 == Err::<
                (Seq<u8>, Option<Seq<u8>>),
                Error,
            >(Error::ValNotExpectedValue) && step(s, m, c) == (s, m)
        }),
{
}

/// Once committed or cancelled, a transaction refuses every call with
/// `TxClosed`, a second commit or cancel included, and changes nothing.
pub proof fn finished_is_closed(s: TxState, m: StoreModel, c: Mutation, cancel: bool)
    requires
        (if cancel { tx_cancel(s) } else { tx_commit(s) }).1 is Ok,
    ensures
        ({
            let f = (if cancel { tx_cancel(s) } else { tx_commit(s) }).0;
            &&& f.read_guard() == Some(Error::TxClosed)
            &&& answer(f, m, c).1 == Err::<(Seq<u8>, Option<Seq<u8>>), Error>(Error::TxClosed)
            &&& step(f, m, c) == (f, m)
            &&& tx_savepoint(f) == (f, Err::<(), Error>(Error::TxClosed))
            &&& tx_rollback(f).1 == Err::<Seq<(Seq<u8>, Option<Seq<u8>>)>, Error>(
                Error::TxClosed,
            )
            &&& tx_commit(f) == (f, Err::<bool, Error>(Error::TxClosed))
            &&& tx_cancel(f) == (f, Err::<bool, Error>(Error::TxClosed))
        }),
{
}

/// A read-only transaction refuses every mutating call with
/// `TxNotWritable` and changes neither itself nor the store.
pub proof fn read_only_refuses(s: TxState, m: StoreModel, c: Mutation)
    requires
        !s.done,
        !s.write,
    ensures
        answer(s, m, c).1 == Err::<(Seq<u8>, Option<Seq<u8>>), Error>(Error::TxNotWritable),
        step(s, m, c) == (s, m),
        tx_savepoint(s) == (s, Err::<(), Error>(Error::TxNotWritable)),
        tx_rollback(s).1 == Err::<Seq<(Seq<u8>, Option<Seq<u8>>)>, Error>(Error::TxNotWritable),
        tx_commit(s) == (s, Err::<bool, Error>(Error::TxNotWritable)),
{
}

/// Single writer: while one write transaction is open, every further
/// request for a writer is refused and leaves the lock held, while readers
/// are admitted; once the writer commits or cancels, it hands its token
/// back, and after the release a writer is admitted again.
pub proof fn single_writer(held: bool, cancel: bool)
    requires
        grants(held),
    ensures
        ({
            let first = begin_spec(held, true);
            let second = begin_spec(first.0, true);
            let reader = begin_spec(first.0, false);
            let t = first.1->0;
            let f = if cancel {
                tx_cancel(t)
            } else {
                tx_commit(t)
            };
            &&& first.1 is Some && first.0
            &&& second.1 is None && second.0
            &&& reader.1 is Some && reader.0
            &&& f.1 == Ok::<bool, Error>(true) && !f.0.holds_token
            &&& begin_spec(false, true).1 is Some
        }),
{
}

} // verus!
