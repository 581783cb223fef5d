//! An ephemeral, size-bounded key-value store for short-lived text blobs.
//!
//! Entries are identified by randomly generated keys and carry an absolute
//! expiry timestamp. Lookups purge expired entries lazily, and insertions
//! evict the oldest entry (by insertion order) once the store is over
//! capacity. A read/write lock wrapper makes the store safe to share among
//! concurrent request handlers.

pub mod laws;
pub mod model;
pub mod ordered_map;
pub mod shared;
pub mod store;
