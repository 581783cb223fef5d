//! Concurrent access to the entry store.
//!
//! The store is one shared mutable structure, read and written by many
//! request handlers at once. `SharedStore` guards it with a reader-writer
//! lock whose invariant is the store's well-formedness together with its
//! fixed configuration: every operation that releases the lock must prove
//! the invariant again, so the store seen by any handler is always a
//! well-formed one with the configured bounds. Both `put` and `get` may
//! mutate (eviction and insertion, lazy deletion), so each takes the lock
//! exclusively for its whole check-then-act sequence. Acquiring the lock
//! cannot fail: there is no poisoned state to propagate.

use vstd::prelude::*;
use vstd::rwlock::{RwLock, RwLockPredicate};

use crate::store::Store;

verus! {

/// The lock invariant: the guarded store is well-formed and carries this
/// fixed configuration.
pub struct StoreConfig {
    pub max_len: usize,
    pub ttl_secs: u64,
}

impl RwLockPredicate<Store> for StoreConfig {
    open spec fn inv(self, s: Store) -> bool {
        &&& s.wf()
        &&& s.max_len == self.max_len
        &&& s.ttl_secs == self.ttl_secs
    }
}

/// An entry store behind a reader-writer lock, safe to share among
/// concurrent callers.
pub struct SharedStore {
    pub lock: RwLock<Store, StoreConfig>,
}

impl SharedStore {
    /// The configuration every state of this store satisfies.
    pub open spec fn config(&self) -> StoreConfig {
        self.lock.pred()
    }

    /// An empty shared store with the given capacity bound and time-to-live.
    pub fn new(max_len: usize, ttl_secs: u64) -> (s: SharedStore)
        ensures
            s.config() == (StoreConfig { max_len, ttl_secs }),
    {
        let store = Store::new(max_len, ttl_secs);
        SharedStore { lock: RwLock::new(store, Ghost(StoreConfig { max_len, ttl_secs })) }
    }

    /// Store `content` at the current time under a fresh identifier and
    /// return the identifier; over capacity, the oldest entry is evicted.
    pub fn put(&self, content: String) -> (id: String)
        ensures
            id@.len() == crate::store::ID_LEN,
    {
        let (mut store, handle) = self.lock.acquire_write();
        let id = store.put(content);
        handle.release_write(store);
        id
    }

    /// Look `id` up at the current time: the content if the entry is live,
    /// `None` if it is absent or expired; an expired entry is removed.
    pub fn get(&self, id: &String) -> (r: Option<String>) {
        let (mut store, handle) = self.lock.acquire_write();
        let r = store.get(id);
        handle.release_write(store);
        r
    }

    /// Insert `content` under the given identifier with the given absolute
    /// expiry; over capacity, the oldest entry is evicted.
    pub fn insert_with(&self, id: String, content: String, expiry: u64) {
        let (mut store, handle) = self.lock.acquire_write();
        store.insert_at(id, content, expiry);
        handle.release_write(store);
    }

    /// The number of entries currently held, expired ones included. Never
    /// more than the capacity bound plus one.
    pub fn len(&self) -> (n: usize)
        ensures
            n <= self.config().max_len + 1,
    {
        let handle = self.lock.acquire_read();
        let n = handle.borrow().len();
        handle.release_read();
        n
    }
}

} // verus!
