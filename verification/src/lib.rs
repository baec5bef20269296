//! A verified access layer over a keyed byte store, partitioned into a fixed
//! set of named column families, with point operations and atomic batches.

pub mod error;
pub mod family;
pub mod kv;
pub mod laws;
pub mod ops;
pub mod store;
