//! The entry store: a bounded, insertion-ordered mapping from generated
//! identifiers to `(content, expiry)` pairs.
//!
//! `put` generates a fresh identifier, stamps the content with an absolute
//! expiry (now plus the store's time-to-live), evicts the oldest entry when
//! the store is over capacity, and appends the new entry. `get` returns the
//! content while the entry is live and removes it lazily once it is seen to
//! be expired. The deterministic core (`insert_at`, `get_at`) takes the
//! identifier and the clock reading as arguments and is specified exactly
//! against the model in `model`; `put` and `get` obtain those values from
//! the identifier generator and the system clock.

use vstd::prelude::*;

use crate::model::{
    distinct_keys, evict_model, expiry_for, get_model, lemma_evict_model, lemma_insert_model,
    lemma_remove_key, lookup_model, put_model, EntryModel,
};
use crate::ordered_map::{
    map_entries, map_get, map_insert, map_len, map_new, map_shift_remove, map_shift_remove_index,
    EntryMap,
};

verus! {

/// Default capacity bound on the number of entries.
pub const DEFAULT_MAX_LEN: usize = 10000;

/// Default time-to-live of an entry: seven days, in seconds.
pub const DEFAULT_TTL_SECS: u64 = 604800;

/// The number of characters in a generated identifier.
pub const ID_LEN: usize = 21;

/// The entry store. `max_len` is the capacity bound: an insertion that finds
/// more than `max_len` entries present first evicts the oldest one, so the
/// store holds at most `max_len + 1` entries at any observable point.
/// `ttl_secs` is the fixed time-to-live stamped on every entry.
pub struct Store {
    pub entries: EntryMap,
    pub max_len: usize,
    pub ttl_secs: u64,
}

impl View for Store {
    type V = Seq<EntryModel>;

    open spec fn view(&self) -> Seq<EntryModel> {
        map_entries(self.entries)
    }
}

impl Store {
    /// The store's invariant: keys are pairwise distinct and the entry count
    /// never exceeds the capacity bound plus the tolerated overshoot of one.
    pub open spec fn wf(&self) -> bool {
        &&& distinct_keys(self@)
        &&& self@.len() <= self.max_len + 1
    }

    /// The configuration is not changed by any operation.
    pub open spec fn same_config(&self, other: &Store) -> bool {
        &&& self.max_len == other.max_len
        &&& self.ttl_secs == other.ttl_secs
    }

    /// An empty store with the given capacity bound and time-to-live.
    pub fn new(max_len: usize, ttl_secs: u64) -> (s: Store)
        ensures
            s.wf(),
            s@ == Seq::<EntryModel>::empty(),
            s.max_len == max_len,
            s.ttl_secs == ttl_secs,
    {
        Store { entries: map_new(), max_len, ttl_secs }
    }

    /// The number of entries currently held, expired ones included.
    pub fn len(&self) -> (n: usize)
        ensures
            n == self@.len(),
    {
        map_len(&self.entries)
    }

    /// The absolute expiry for an entry inserted at time `now`, saturating
    /// at the largest representable time.
    pub fn expiry_at(&self, now: u64) -> (e: u64)
        ensures
            e == expiry_for(now, self.ttl_secs),
    {
        if now <= u64::MAX - self.ttl_secs {
            now + self.ttl_secs
        } else {
            u64::MAX
        }
    }

    /// Insert `content` under `id` with the given absolute expiry, evicting
    /// the oldest entry first when the store is over capacity.
    pub fn insert_at(&mut self, id: String, content: String, expiry: u64)
        requires
            old(self).wf(),
        ensures
            final (self).wf(),
            final (self).same_config(old(self)),
            final (self)@ == put_model(
                old(self)@,
                old(self).max_len as int,
                id@,
                (content@, expiry),
            ),
    {
        let ghost s0 = self@;
        let ghost cap = self.max_len as int;
        proof {
            lemma_evict_model(s0, cap);
        }
        if map_len(&self.entries) > self.max_len {
            let _ = map_shift_remove_index(&mut self.entries, 0);
            proof {
                assert(self@ =~= evict_model(s0, cap));
            }
        }
        proof {
            lemma_insert_model(evict_model(s0, cap), id@, (content@, expiry));
        }
        let _ = map_insert(&mut self.entries, id, (content, expiry));
    }

    /// Store `content` under the fresh identifier `id` at time `now`: the
    /// entry expires `ttl_secs` after `now`.
    pub fn put_at(&mut self, content: String, id: String, now: u64)
        requires
            old(self).wf(),
        ensures
            final (self).wf(),
            final (self).same_config(old(self)),
            final (self)@ == put_model(
                old(self)@,
                old(self).max_len as int,
                id@,
                (content@, expiry_for(now, old(self).ttl_secs)),
            ),
    {
        let expiry = self.expiry_at(now);
        self.insert_at(id, content, expiry);
    }

    /// Look `id` up at time `now`. A live entry's content is returned and
    /// nothing changes; an entry seen to be expired (`now` at or past its
    /// expiry) is removed and `None` is returned; an absent identifier
    /// returns `None`.
    pub fn get_at(&mut self, id: &String, now: u64) -> (r: Option<String>)
        requires
            old(self).wf(),
        ensures
            final (self).wf(),
            final (self).same_config(old(self)),
            final (self)@ == get_model(old(self)@, id@, now),
            ({
                match r {
                    Some(c) => lookup_model(old(self)@, id@, now) == Some(c@),
                    None => lookup_model(old(self)@, id@, now) is None,
                }
            }),
    {
        match map_get(&self.entries, id) {
            None => None,
            Some(v) => {
                if now >= v.1 {
                    proof {
                        lemma_remove_key(self@, id@);
                    }
                    let _ = map_shift_remove(&mut self.entries, id);
                    None
                } else {
                    Some(v.0)
                }
            },
        }
    }

    /// Store `content` and return its generated identifier. The clock
    /// reading and the identifier come from the outside, so the contract
    /// holds for whatever values they take.
    pub fn put(&mut self, content: String) -> (id: String)
        requires
            old(self).wf(),
        ensures
            final (self).wf(),
            final (self).same_config(old(self)),
            id@.len() == ID_LEN,
            exists|now: u64|
                final (self)@ == put_model(
                    old(self)@,
                    old(self).max_len as int,
                    id@,
                    (content@, expiry_for(now, old(self).ttl_secs)),
                ),
    {
        let id = fresh_id();
        let stamp = unix_time_secs();
        let now: u64 = if stamp < 0 {
            0
        } else {
            stamp as u64
        };
        let id_key = id.clone();
        self.put_at(content, id_key, now);
        id
    }

    /// Look `id` up at the current time; see `get_at`.
    pub fn get(&mut self, id: &String) -> (r: Option<String>)
        requires
            old(self).wf(),
        ensures
            final (self).wf(),
            final (self).same_config(old(self)),
            exists|now: u64|
                {
                    &&& final (self)@ == get_model(old(self)@, id@, now)
                    &&& match r {
                        Some(c) => lookup_model(old(self)@, id@, now) == Some(c@),
                        None => lookup_model(old(self)@, id@, now) is None,
                    }
                },
    {
        let stamp = unix_time_secs();
        let now: u64 = if stamp < 0 {
            0
        } else {
            stamp as u64
        };
        self.get_at(id, now)
    }
}

/// Relies on chrono's `Utc::now`: the current wall-clock time, as seconds
/// since the epoch. Nothing is assumed about the value.
#[verifier::external_body]
fn unix_time_secs() -> i64 {
    chrono::Utc::now().timestamp()
}

/// Relies on nanoid's `format` with its default generator and url-safe
/// alphabet (the call its `nanoid!` macro expands to): a random identifier
/// of exactly 21 ASCII characters. Nothing is assumed beyond the length.
#[verifier::external_body]
fn fresh_id() -> (r: String)
    ensures
        r@.len() == ID_LEN,
{
    nanoid::format(nanoid::rngs::default, &nanoid::alphabet::SAFE, 21)
}

} // verus!
