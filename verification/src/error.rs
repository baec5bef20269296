//! The store's error taxonomy. Every failure is returned as a typed value
//! to the caller; none is retried or swallowed inside the library.
//!
//! The taxonomy covers the store's whole surface contract, including the
//! kinds a fallible backing engine would report. This store keeps its data
//! in memory and cannot fail that way, so the operations' contracts promise
//! that those kinds never come back; they remain part of the result types
//! callers match on.

use vstd::prelude::*;

verus! {

/// Why an operation on the store did not succeed.
#[derive(Clone, Debug, PartialEq, Eq)]
pub enum StoreError {
    /// The store could not be brought up at the requested path; never
    /// reported by this in-memory store.
    OpenFailed(String),
    /// `close` was called on a store that is already closed; a benign no-op.
    AlreadyClosed,
    /// An operation was issued on a handle past its lifetime.
    StoreClosed,
    /// The named column family lies outside the fixed set; carries the
    /// offending name.
    InvalidColumnFamily(String),
    /// A batch entry is malformed; carries the offending tag when there
    /// is one.
    InvalidOperation(Option<String>),
    /// A backing engine failed while reading; never reported by this
    /// in-memory store.
    GetFailed(String),
    /// A backing engine failed while writing one pair; never reported by
    /// this in-memory store.
    PutFailed(String),
    /// A backing engine failed while deleting one key; never reported by
    /// this in-memory store.
    DeleteFailed(String),
    /// A backing engine failed while committing a batch; never reported by
    /// this in-memory store.
    BatchFailed(String),
}

} // verus!
