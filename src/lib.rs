//! A transactional layer over an ordered key-value collection: transaction
//! lifecycle, single-writer exclusion, compare-and-swap writes, range-scan
//! planning and a nested savepoint undo log.
//!
//! The engine decides; the caller performs the store work. A mutating call is
//! handed the value currently stored under its key and returns the store
//! command to run, so every decision is verified against a model of the
//! store as a map from byte strings to byte strings.

pub mod err;
pub mod lock;
pub mod kv;
pub mod laws;
pub mod sp;
pub mod tx;

pub use err::Error;
pub use lock::{WriteLock, WriteToken};
pub use kv::{Key, Kv, Val, Write};
pub use tx::Transaction;
