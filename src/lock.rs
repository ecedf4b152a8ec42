//! The single-writer exclusion token.

use vstd::prelude::*;

verus! {

/// Proof of holding the write token. Only a `WriteLock` mints one, and at
/// most one is outstanding per lock.
#[derive(Debug)]
pub struct WriteToken {
    seal: (),
}

/// The process-wide permit that serialises write transactions.
pub struct WriteLock {
    held: bool,
}

impl View for WriteLock {
    /// Whether a write token is outstanding.
    type V = bool;

    closed spec fn view(&self) -> bool {
        self.held
    }
}

/// Whether a request for the token is granted, given whether it is held.
pub open spec fn grants(held: bool) -> bool {
    !held
}

impl WriteLock {
    /// A lock whose token is free.
    pub fn new() -> (r: WriteLock)
        ensures
            !r@,
    {
        WriteLock { held: false }
    }

    /// Whether the token is currently held by some write transaction.
    pub fn is_held(&self) -> (r: bool)
        ensures
            r == self@,
    {
        self.held
    }

    /// Take the token if it is free; a caller that gets `None` waits for a
    /// release and asks again.
    pub fn try_acquire(&mut self) -> (r: Option<WriteToken>)
        ensures
            r is Some <==> grants(old(self)@),
            final(self)@,
    {
        if self.held {
            None
        } else {
            self.held = true;
            Some(WriteToken { seal: () })
        }
    }

    /// Give the token back, so that the next writer may proceed.
    pub fn release(&mut self, token: WriteToken)
        ensures
            !final(self)@,
    {
        let WriteToken { seal: _ } = token;
        self.held = false;
    }
}

} // verus!
