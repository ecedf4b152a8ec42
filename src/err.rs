//! The errors which can be emitted from a database.

use vstd::prelude::*;

verus! {

/// The errors which can be emitted from a database.
#[derive(Debug, Clone, PartialEq, Eq)]
pub enum Error {
    /// The database could not be opened.
    DbError,
    /// A transaction could not be opened.
    TxError,
    /// The transaction was already committed or cancelled.
    TxClosed,
    /// A mutating call was made on a read-only transaction.
    TxNotWritable,
    /// The key being inserted already exists.
    KeyAlreadyExists,
    /// The value being checked was not the stored one.
    ValNotExpectedValue,
    /// No savepoint has been set.
    NoSavepoint,
    /// A failure reported by the underlying store.
    IndexedDbError(String),
}

} // verus!
