//! The transaction engine: lifecycle, point writes with undo recording,
//! range-scan planning and the savepoint stack.

use crate::err::Error;
use crate::lock::{grants, WriteLock, WriteToken};
use crate::kv::{key_lt, lex_lt, opt_view, same_value, Key, Val, Write, WriteView};
use crate::sp::{ops_view, undo_commands, undo_plan, OpView, Operation, Savepoint};
use vstd::prelude::*;

verus! {

/// The abstract state of a transaction.
pub struct TxState {
    /// Whether the transaction was committed or cancelled.
    pub done: bool,
    /// Whether the transaction may write.
    pub write: bool,
    /// Whether the transaction holds the write token.
    pub holds_token: bool,
    /// The savepoint stack, oldest first; each holds the undo log that was
    /// current when it was set.
    pub savepoints: Seq<Seq<OpView>>,
    /// The undo records since the newest savepoint, oldest first.
    pub operations: Seq<OpView>,
}

impl TxState {
    /// Whether writes are being recorded for undo.
    pub open spec fn tracking(self) -> bool {
        self.savepoints.len() > 0 || self.operations.len() > 0
    }

    /// The error a read meets, if any.
    pub open spec fn read_guard(self) -> Option<Error> {
        if self.done {
            Some(Error::TxClosed)
        } else {
            None
        }
    }

    /// The error a mutating call meets, if any.
    pub open spec fn write_guard(self) -> Option<Error> {
        if self.done {
            Some(Error::TxClosed)
        } else if !self.write {
            Some(Error::TxNotWritable)
        } else {
            None
        }
    }
}

/// A transaction as `begin` creates it.
pub open spec fn fresh(write: bool) -> TxState {
    TxState {
        done: false,
        write,
        holds_token: write,
        savepoints: Seq::empty(),
        operations: Seq::empty(),
    }
}

/// `begin`: whether the lock is held afterwards, and the transaction started,
/// if any. A writer is started only when the lock grants the token.
pub open spec fn begin_spec(held: bool, write: bool) -> (bool, Option<TxState>) {
    if !write {
        (held, Some(fresh(false)))
    } else if grants(held) {
        (true, Some(fresh(true)))
    } else {
        (held, None)
    }
}

/// The state after recording the undo of storing under `k`, which held `cur`.
pub open spec fn record_set(s: TxState, k: Seq<u8>, cur: Option<Seq<u8>>) -> TxState {
    if s.tracking() {
        let op = match cur {
            Some(c) => OpView::RestoreValue(k, c),
            None => OpView::DeleteKey(k),
        };
        TxState { operations: s.operations.push(op), ..s }
    } else {
        s
    }
}

/// The state after recording the undo of removing `k`, which held `cur`.
pub open spec fn record_del(s: TxState, k: Seq<u8>, cur: Option<Seq<u8>>) -> TxState {
    if s.tracking() && cur is Some {
        TxState { operations: s.operations.push(OpView::RestoreDeleted(k, cur->0)), ..s }
    } else {
        s
    }
}

/// `set`: unconditional upsert of `v` under `k`, which currently holds `cur`.
pub open spec fn tx_set(s: TxState, k: Seq<u8>, v: Seq<u8>, cur: Option<Seq<u8>>) -> (
    TxState,
    Result<WriteView, Error>,
) {
    match s.write_guard() {
        Some(e) => (s, Err(e)),
        None => (record_set(s, k, cur), Ok((k, Some(v)))),
    }
}

/// `del`: unconditional removal of `k`, which currently holds `cur`.
pub open spec fn tx_del(s: TxState, k: Seq<u8>, cur: Option<Seq<u8>>) -> (
    TxState,
    Result<WriteView, Error>,
) {
    match s.write_guard() {
        Some(e) => (s, Err(e)),
        None => (record_del(s, k, cur), Ok((k, None))),
    }
}

/// `put`: insert only where `k` is absent.
pub open spec fn tx_put(s: TxState, k: Seq<u8>, v: Seq<u8>, cur: Option<Seq<u8>>) -> (
    TxState,
    Result<WriteView, Error>,
) {
    match s.write_guard() {
        Some(e) => (s, Err(e)),
        None => if cur is Some {
            (s, Err(Error::KeyAlreadyExists))
        } else {
            tx_set(s, k, v, cur)
        },
    }
}

/// `putc`: store only where the current value is the expected one.
pub open spec fn tx_putc(
    s: TxState,
    k: Seq<u8>,
    v: Seq<u8>,
    cur: Option<Seq<u8>>,
    exp: Option<Seq<u8>>,
) -> (TxState, Result<WriteView, Error>) {
    match s.write_guard() {
        Some(e) => (s, Err(e)),
        None => if cur != exp {
            (s, Err(Error::ValNotExpectedValue))
        } else {
            tx_set(s, k, v, cur)
        },
    }
}

/// `delc`: remove only where the current value is the expected one.
pub open spec fn tx_delc(s: TxState, k: Seq<u8>, cur: Option<Seq<u8>>, exp: Option<Seq<u8>>) -> (
    TxState,
    Result<WriteView, Error>,
) {
    match s.write_guard() {
        Some(e) => (s, Err(e)),
        None => if cur != exp {
            (s, Err(Error::ValNotExpectedValue))
        } else {
            tx_del(s, k, cur)
        },
    }
}

/// `set_savepoint`: push the current log and start an empty one.
pub open spec fn tx_savepoint(s: TxState) -> (TxState, Result<(), Error>) {
    match s.write_guard() {
        Some(e) => (s, Err(e)),
        None => (
            TxState { savepoints: s.savepoints.push(s.operations), operations: Seq::empty(), ..s },
            Ok(()),
        ),
    }
}

/// `rollback_to_savepoint`: undo the current log, newest first, and make the
/// newest savepoint's log current again.
pub open spec fn tx_rollback(s: TxState) -> (TxState, Result<Seq<WriteView>, Error>) {
    match s.write_guard() {
        Some(e) => (s, Err(e)),
        None => if s.savepoints.len() == 0 {
            (s, Err(Error::NoSavepoint))
        } else {
            (
                TxState {
                    savepoints: s.savepoints.drop_last(),
                    operations: s.savepoints.last(),
                    ..s
                },
                Ok(undo_plan(s.operations)),
            )
        },
    }
}

/// The state once a transaction is finished; the result says whether it
/// handed the write token back.
pub open spec fn finish(s: TxState) -> (TxState, Result<bool, Error>) {
    (TxState { done: true, holds_token: false, ..s }, Ok(s.holds_token))
}

/// `commit`: only an open writable transaction commits.
pub open spec fn tx_commit(s: TxState) -> (TxState, Result<bool, Error>) {
    match s.write_guard() {
        Some(e) => (s, Err(e)),
        None => finish(s),
    }
}

/// `cancel`: any open transaction may be cancelled.
pub open spec fn tx_cancel(s: TxState) -> (TxState, Result<bool, Error>) {
    match s.read_guard() {
        Some(e) => (s, Err(e)),
        None => finish(s),
    }
}

/// The view of a point-write result.
pub open spec fn write_result(r: Result<Write, Error>) -> Result<WriteView, Error> {
    match r {
        Ok(w) => Ok(w@),
        Err(e) => Err(e),
    }
}

/// The view of a rollback result.
pub open spec fn writes_result(r: Result<Vec<Write>, Error>) -> Result<Seq<WriteView>, Error> {
    match r {
        Ok(ws) => Ok(ws@.map_values(|w: Write| w@)),
        Err(e) => Err(e),
    }
}

/// The view of a commit or cancel result: whether a token was handed back.
pub open spec fn token_result(r: Result<Option<WriteToken>, Error>) -> Result<bool, Error> {
    match r {
        Ok(t) => Ok(t is Some),
        Err(e) => Err(e),
    }
}

/// A serializable snapshot isolated database transaction.
pub struct Transaction {
    /// Is the transaction complete?
    done: bool,
    /// Is the transaction read+write?
    write: bool,
    /// The write token, held by a writable transaction until it finishes.
    token: Option<WriteToken>,
    /// Stack of savepoints for nested rollback support.
    savepoints: Vec<Savepoint>,
    /// Current undo operations since the last savepoint.
    operations: Vec<Operation>,
}

impl View for Transaction {
    type V = TxState;

    closed spec fn view(&self) -> TxState {
        TxState {
            done: self.done,
            write: self.write,
            holds_token: self.token is Some,
            savepoints: self.savepoints@.map_values(|p: Savepoint| ops_view(p.operations@)),
            operations: ops_view(self.operations@),
        }
    }
}

impl Transaction {
    /// Start a transaction. A writable one first takes the write token;
    /// `None` means another write transaction holds it, and the caller waits
    /// for its release before asking again.
    pub fn begin(lock: &mut WriteLock, write: bool) -> (r: Option<Transaction>)
        ensures
            final(lock)@ == begin_spec(old(lock)@, write).0,
            r is Some <==> begin_spec(old(lock)@, write).1 is Some,
            r is Some ==> r->0@ == begin_spec(old(lock)@, write).1->0,
    {
        let token = if write {
            match lock.try_acquire() {
                Some(t) => Some(t),
                None => return None,
            }
        } else {
            None
        };
        let tx = Transaction {
            done: false,
            write,
            token,
            savepoints: Vec::new(),
            operations: Vec::new(),
        };
        proof {
            assert(tx@.savepoints =~= Seq::<Seq<OpView>>::empty());
            assert(tx@.operations =~= Seq::<OpView>::empty());
        }
        Some(tx)
    }

    /// Check if the transaction is closed.
    pub fn closed(&self) -> (r: bool)
        ensures
            r == self@.done,
    {
        self.done
    }

    /// Whether the transaction may write.
    pub fn writable(&self) -> (r: bool)
        ensures
            r == self@.write,
    {
        self.write
    }

    /// Whether writes are being recorded for undo; only then do `set` and
    /// `del` consult the value currently stored under their key.
    pub fn tracking(&self) -> (r: bool)
        ensures
            r == self@.tracking(),
    {
        self.savepoints.len() > 0 || self.operations.len() > 0
    }

    /// The guard of every read: fails once the transaction is finished.
    pub fn check_open(&self) -> (r: Result<(), Error>)
        ensures
            r == match self@.read_guard() {
                Some(e) => Err(e),
                None => Ok(()),
            },
    {
        if self.done {
            return Err(Error::TxClosed);
        }
        Ok(())
    }

    /// The guard of every mutating call: the transaction must be open and
    /// writable.
    pub fn check_writable(&self) -> (r: Result<(), Error>)
        ensures
            r == match self@.write_guard() {
                Some(e) => Err(e),
                None => Ok(()),
            },
    {
        if self.done {
            return Err(Error::TxClosed);
        }
        if !self.write {
            return Err(Error::TxNotWritable);
        }
        Ok(())
    }

    /// Plan a range read over `[start, end)` returning at most `limit`
    /// entries, in either direction. `Ok(false)`: the answer is empty without
    /// asking the store (an empty or inverted range, or a zero limit).
    pub fn scan_range(&self, start: &Key, end: &Key, limit: u32) -> (r: Result<bool, Error>)
        ensures
            r == match self@.read_guard() {
                Some(e) => Err(e),
                None => Ok(lex_lt(start@, end@) && limit > 0),
            },
    {
        self.check_open()?;
        Ok(limit > 0 && key_lt(start, end))
    }

    /// Insert or update a key; `current` is the value stored under `key` now.
    /// Returns the store command to run.
    pub fn set(&mut self, key: Key, val: Val, current: Option<Val>) -> (r: Result<Write, Error>)
        ensures
            (final(self)@, write_result(r)) == tx_set(old(self)@, key@, val@, opt_view(current)),
    {
        self.check_writable()?;
        if self.tracking() {
            let op = match current {
                Some(c) => Operation::RestoreValue(key.clone(), c),
                None => Operation::DeleteKey(key.clone()),
            };
            self.operations.push(op);
            proof {
                assert(ops_view(self.operations@) =~= ops_view(old(self).operations@).push(op@));
            }
        }
        Ok(Write::Put(key, val))
    }

    /// Delete a key; `current` is the value stored under `key` now. Deleting
    /// an absent key is no error.
    pub fn del(&mut self, key: Key, current: Option<Val>) -> (r: Result<Write, Error>)
        ensures
            (final(self)@, write_result(r)) == tx_del(old(self)@, key@, opt_view(current)),
    {
        self.check_writable()?;
        if self.tracking() {
            if let Some(c) = current {
                let op = Operation::RestoreDeleted(key.clone(), c);
                self.operations.push(op);
                proof {
                    assert(ops_view(self.operations@) =~= ops_view(old(self).operations@).push(
                        op@,
                    ));
                }
            }
        }
        Ok(Write::Delete(key))
    }

    /// Insert a key if it does not exist; `current` is the value stored
    /// under `key` now.
    pub fn put(&mut self, key: Key, val: Val, current: Option<Val>) -> (r: Result<Write, Error>)
        ensures
            (final(self)@, write_result(r)) == tx_put(old(self)@, key@, val@, opt_view(current)),
    {
        self.check_writable()?;
        if current.is_some() {
            return Err(Error::KeyAlreadyExists);
        }
        self.set(key, val, current)
    }

    /// Store a value if the current one is `chk` (both absent counts as a
    /// match); `current` is the value stored under `key` now.
    pub fn putc(&mut self, key: Key, val: Val, current: Option<Val>, chk: Option<Val>) -> (r:
        Result<Write, Error>)
        ensures
            (final(self)@, write_result(r)) == tx_putc(
                old(self)@,
                key@,
                val@,
                opt_view(current),
                opt_view(chk),
            ),
    {
        self.check_writable()?;
        if !same_value(&current, &chk) {
            return Err(Error::ValNotExpectedValue);
        }
        self.set(key, val, current)
    }

    /// Delete a key if its current value is `chk` (both absent counts as a
    /// match); `current` is the value stored under `key` now.
    pub fn delc(&mut self, key: Key, current: Option<Val>, chk: Option<Val>) -> (r: Result<
        Write,
        Error,
    >)
        ensures
            (final(self)@, write_result(r)) == tx_delc(
                old(self)@,
                key@,
                opt_view(current),
                opt_view(chk),
            ),
    {
        self.check_writable()?;
        if !same_value(&current, &chk) {
            return Err(Error::ValNotExpectedValue);
        }
        self.del(key, current)
    }

    /// Set a savepoint for partial rollback. Savepoints stack: each call can
    /// be matched by a call to `rollback_to_savepoint`.
    pub fn set_savepoint(&mut self) -> (r: Result<(), Error>)
        ensures
            (final(self)@, r) == tx_savepoint(old(self)@),
    {
        self.check_writable()?;
        let mut ops: Vec<Operation> = Vec::new();
        std::mem::swap(&mut ops, &mut self.operations);
        let sp = Savepoint { operations: ops };
        self.savepoints.push(sp);
        proof {
            let s = self@;
            let o = old(self)@;
            assert(s.savepoints =~= o.savepoints.push(o.operations));
            assert(s.operations =~= Seq::<OpView>::empty());
        }
        Ok(())
    }

    /// Roll back to the most recently set savepoint. Returns the store
    /// commands that undo every write since then, to be run in order. The
    /// savepoint below it, if any, can be rolled back to next.
    pub fn rollback_to_savepoint(&mut self) -> (r: Result<Vec<Write>, Error>)
        ensures
            (final(self)@, writes_result(r)) == tx_rollback(old(self)@),
    {
        self.check_writable()?;
        match self.savepoints.pop() {
            None => Err(Error::NoSavepoint),
            Some(sp) => {
                let undo = undo_commands(&self.operations);
                self.operations = sp.operations;
                proof {
                    let s = self@;
                    let o = old(self)@;
                    assert(s.savepoints =~= o.savepoints.drop_last());
                }
                Ok(undo)
            },
        }
    }

    /// Finish the transaction and hand back its write token, if it held one.
    fn finish(&mut self) -> (r: Option<WriteToken>)
        ensures
            (final(self)@, Ok::<bool, Error>(r is Some)) == finish(old(self)@),
    {
        self.done = true;
        let mut token: Option<WriteToken> = None;
        std::mem::swap(&mut token, &mut self.token);
        token
    }

    /// Commit the transaction: it is finished, and its write token comes
    /// back for the lock after the store commits its own transaction.
    pub fn commit(&mut self) -> (r: Result<Option<WriteToken>, Error>)
        ensures
            (final(self)@, token_result(r)) == tx_commit(old(self)@),
    {
        self.check_writable()?;
        Ok(self.finish())
    }

    /// Cancel the transaction: it is finished, and its write token comes back
    /// for the lock after the store aborts its own transaction.
    pub fn cancel(&mut self) -> (r: Result<Option<WriteToken>, Error>)
        ensures
            (final(self)@, token_result(r)) == tx_cancel(old(self)@),
    {
        self.check_open()?;
        Ok(self.finish())
    }
}

} // verus!
