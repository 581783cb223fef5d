//! The mathematical model of the entry store.
//!
//! A store state is a sequence of `(key, (content, expiry))` triples in
//! insertion order, with pairwise-distinct keys. The spec functions here
//! define what each store operation does to such a sequence; the executable
//! code in `store` is proved against them.

use vstd::prelude::*;

verus! {

/// One entry of the model: the key, then the content and the absolute
/// expiry time in seconds since the epoch.
pub type EntryModel = (Seq<char>, (Seq<char>, u64));

/// All keys of the sequence are pairwise distinct.
pub open spec fn distinct_keys(s: Seq<EntryModel>) -> bool {
    forall|i: int, j: int| 0 <= i < j < s.len() ==> s[i].0 != s[j].0
}

/// Some entry of the sequence has key `k`.
pub open spec fn has_key(s: Seq<EntryModel>, k: Seq<char>) -> bool {
    exists|i: int| 0 <= i < s.len() && s[i].0 == k
}

/// The index of the entry with key `k` (meaningful when `has_key` holds and
/// the keys are distinct).
pub open spec fn key_index(s: Seq<EntryModel>, k: Seq<char>) -> int {
    choose|i: int| 0 <= i < s.len() && s[i].0 == k
}

/// The `(content, expiry)` pair stored under key `k`.
pub open spec fn entry_of(s: Seq<EntryModel>, k: Seq<char>) -> (Seq<char>, u64) {
    s[key_index(s, k)].1
}

/// The absolute expiry of an entry inserted at time `now` with time-to-live
/// `ttl`, saturating at the largest representable time.
pub open spec fn expiry_for(now: u64, ttl: u64) -> u64 {
    if now + ttl > u64::MAX {
        u64::MAX
    } else {
        (now + ttl) as u64
    }
}

/// Capacity enforcement: while the store holds more than `max_len` entries,
/// insertion first drops the oldest entry, the one at the front.
pub open spec fn evict_model(s: Seq<EntryModel>, max_len: int) -> Seq<EntryModel> {
    if s.len() > max_len {
        s.subrange(1, s.len() as int)
    } else {
        s
    }
}

/// Keyed insertion: an existing key keeps its place in the order and gets
/// the new pair; a fresh key is appended at the end.
pub open spec fn insert_model(s: Seq<EntryModel>, k: Seq<char>, v: (Seq<char>, u64)) -> Seq<
    EntryModel,
> {
    if has_key(s, k) {
        s.update(key_index(s, k), (k, v))
    } else {
        s.push((k, v))
    }
}

/// What `put` does to the store: evict if over capacity, then insert.
pub open spec fn put_model(
    s: Seq<EntryModel>,
    max_len: int,
    k: Seq<char>,
    v: (Seq<char>, u64),
) -> Seq<EntryModel> {
    insert_model(evict_model(s, max_len), k, v)
}

/// What a lookup at time `now` returns: the content if the key is present
/// and still live (`now` strictly before the expiry), absent otherwise.
pub open spec fn lookup_model(s: Seq<EntryModel>, k: Seq<char>, now: u64) -> Option<Seq<char>> {
    if has_key(s, k) && now < entry_of(s, k).1 {
        Some(entry_of(s, k).0)
    } else {
        None
    }
}

/// What a lookup at time `now` does to the store: an entry observed to be
/// expired is removed (lazy deletion); otherwise nothing changes.
pub open spec fn get_model(s: Seq<EntryModel>, k: Seq<char>, now: u64) -> Seq<EntryModel> {
    if has_key(s, k) && now >= entry_of(s, k).1 {
        s.remove(key_index(s, k))
    } else {
        s
    }
}

/// With distinct keys, `key_index` finds exactly the position that holds `k`.
pub proof fn lemma_key_index_is(s: Seq<EntryModel>, i: int)
    requires
        distinct_keys(s),
        0 <= i < s.len(),
    ensures
        key_index(s, s[i].0) == i,
        has_key(s, s[i].0),
{
    assert(has_key(s, s[i].0));
    let j = key_index(s, s[i].0);
    assert(0 <= j < s.len() && s[j].0 == s[i].0);
    if i < j {
        assert(s[i].0 != s[j].0);
    } else if j < i {
        assert(s[j].0 != s[i].0);
    }
}

/// Insertion yields a sequence that still has distinct keys, holds the new
/// pair under `k`, and keeps every other entry where it was.
pub proof fn lemma_insert_model(s: Seq<EntryModel>, k: Seq<char>, v: (Seq<char>, u64))
    requires
        distinct_keys(s),
    ensures
        distinct_keys(insert_model(s, k, v)),
        has_key(insert_model(s, k, v), k),
        entry_of(insert_model(s, k, v), k) == v,
        has_key(s, k) ==> insert_model(s, k, v).len() == s.len(),
        !has_key(s, k) ==> insert_model(s, k, v).len() == s.len() + 1,
{
    let t = insert_model(s, k, v);
    if has_key(s, k) {
        let i = key_index(s, k);
        assert(0 <= i < s.len() && s[i].0 == k);
        assert(forall|m: int| 0 <= m < t.len() ==> t[m].0 == s[m].0);
        assert(t[i].0 == k);
        lemma_key_index_is(t, i);
        assert(entry_of(t, k) == v);
    } else {
        assert(forall|m: int| 0 <= m < s.len() ==> t[m] == s[m]);
        assert(t[s.len() as int].0 == k);
        assert(distinct_keys(t)) by {
            assert forall|i: int, j: int| 0 <= i < j < t.len() implies t[i].0 != t[j].0 by {
                if j < s.len() {
                    assert(s[i].0 != s[j].0);
                } else {
                    assert(t[j].0 == k);
                    assert(!(0 <= i < s.len() && s[i].0 == k));
                }
            }
        }
        lemma_key_index_is(t, s.len() as int);
        assert(entry_of(t, k) == v);
    }
}

/// Eviction keeps keys distinct, never grows the sequence, and removes at
/// most the front entry.
pub proof fn lemma_evict_model(s: Seq<EntryModel>, max_len: int)
    requires
        distinct_keys(s),
        0 <= max_len,
    ensures
        distinct_keys(evict_model(s, max_len)),
        s.len() > max_len ==> evict_model(s, max_len).len() == s.len() - 1,
        s.len() <= max_len ==> evict_model(s, max_len) == s,
        forall|k: Seq<char>| !has_key(s, k) ==> !has_key(evict_model(s, max_len), k),
{
    let t = evict_model(s, max_len);
    if s.len() > max_len {
        assert forall|m: int| 0 <= m < t.len() implies #[trigger] t[m] == s[m + 1] by {
            assert(t[m] == s.subrange(1, s.len() as int)[m]);
        }
        assert forall|i: int, j: int| 0 <= i < j < t.len() implies t[i].0 != t[j].0 by {
            assert(s[i + 1].0 != s[j + 1].0);
        }
        assert forall|k: Seq<char>| !has_key(s, k) implies !has_key(t, k) by {
            if has_key(t, k) {
                let i = key_index(t, k);
                assert(0 <= i < t.len() && t[i].0 == k);
                assert(s[i + 1].0 == k);
            }
        }
    }
}

/// Removing the entry at `key_index` leaves distinct keys, shrinks the
/// sequence by one, and leaves no entry with that key behind.
pub proof fn lemma_remove_key(s: Seq<EntryModel>, k: Seq<char>)
    requires
        distinct_keys(s),
        has_key(s, k),
    ensures
        distinct_keys(s.remove(key_index(s, k))),
        s.remove(key_index(s, k)).len() == s.len() - 1,
        !has_key(s.remove(key_index(s, k)), k),
{
    let i = key_index(s, k);
    assert(0 <= i < s.len() && s[i].0 == k);
    let t = s.remove(i);
    s.remove_ensures(i);
    assert forall|m: int| 0 <= m < t.len() implies t[m] == (if m < i {
        s[m]
    } else {
        s[m + 1]
    }) by {}
    assert(distinct_keys(t)) by {
        assert forall|p: int, q: int| 0 <= p < q < t.len() implies t[p].0 != t[q].0 by {
            let p0 = if p < i {
                p
            } else {
                p + 1
            };
            let q0 = if q < i {
                q
            } else {
                q + 1
            };
            assert(s[p0].0 != s[q0].0);
        }
    }
    assert(!has_key(t, k)) by {
        if has_key(t, k) {
            let m = key_index(t, k);
            let m0 = if m < i {
                m
            } else {
                m + 1
            };
            assert(s[m0].0 == k);
            lemma_key_index_is(s, m0);
        }
    }
}

} // verus!
