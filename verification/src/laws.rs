//! The store's laws: properties that relate several operations, stated over
//! the model and proved once for all inputs.

use vstd::prelude::*;

use crate::model::{
    distinct_keys, entry_of, evict_model, expiry_for, get_model, has_key, lemma_evict_model,
    lemma_insert_model, lemma_remove_key, lookup_model, put_model, EntryModel,
};

verus! {

/// Round-trip: a lookup right after an insertion at the same time `now`
/// returns the stored content, and removes nothing. Needs a time-to-live of
/// at least one second and an expiry that does not saturate.
pub proof fn law_round_trip(
    s: Seq<EntryModel>,
    max_len: int,
    id: Seq<char>,
    content: Seq<char>,
    now: u64,
    ttl: u64,
)
    requires
        distinct_keys(s),
        0 <= max_len,
        1 <= ttl,
        now + ttl <= u64::MAX,
    ensures
        ({
            let stored = put_model(s, max_len, id, (content, expiry_for(now, ttl)));
            &&& lookup_model(stored, id, now) == Some(content)
            &&& get_model(stored, id, now) == stored
        }),
{
    lemma_evict_model(s, max_len);
    lemma_insert_model(evict_model(s, max_len), id, (content, expiry_for(now, ttl)));
}

/// Expiry boundary: an entry inserted at time `t` with time-to-live `ttl` is
/// retrievable at any time strictly before `t + ttl` and gone from `t + ttl`
/// on. Stated for expiries that do not saturate.
pub proof fn law_expiry_boundary(
    s: Seq<EntryModel>,
    max_len: int,
    id: Seq<char>,
    content: Seq<char>,
    t: u64,
    ttl: u64,
    now: u64,
)
    requires
        distinct_keys(s),
        0 <= max_len,
        t + ttl <= u64::MAX,
    ensures
        ({
            let stored = put_model(s, max_len, id, (content, expiry_for(t, ttl)));
            &&& (now < t + ttl ==> lookup_model(stored, id, now) == Some(content))
            &&& (now >= t + ttl ==> lookup_model(stored, id, now) is None)
        }),
{
    lemma_evict_model(s, max_len);
    lemma_insert_model(evict_model(s, max_len), id, (content, expiry_for(t, ttl)));
}

/// Lazy deletion: a lookup that observes an expired entry shrinks the store
/// by exactly one, and a second lookup of the same identifier finds nothing
/// and changes nothing more.
pub proof fn law_lazy_deletion(s: Seq<EntryModel>, id: Seq<char>, now: u64)
    requires
        distinct_keys(s),
        has_key(s, id),
        now >= entry_of(s, id).1,
    ensures
        ({
            let after = get_model(s, id, now);
            &&& after.len() == s.len() - 1
            &&& lookup_model(after, id, now) is None
            &&& get_model(after, id, now) == after
        }),
{
    lemma_remove_key(s, id);
}

/// Capacity bound: starting at or under the bound (plus the tolerated
/// overshoot of one), an insertion ends at or under it again, and when the
/// store is over the bound the entry evicted is the oldest one — the front
/// of the insertion order.
pub proof fn law_capacity_bound(s: Seq<EntryModel>, max_len: int, id: Seq<char>, v: (Seq<char>, u64))
    requires
        distinct_keys(s),
        0 <= max_len,
        s.len() <= max_len + 1,
    ensures
        ({
            let after = put_model(s, max_len, id, v);
            let survivors = s.subrange(1, s.len() as int);
            &&& after.len() <= max_len + 1
            &&& (s.len() > max_len && !has_key(survivors, id) ==> after == survivors.push((id, v)))
            &&& (s.len() <= max_len && !has_key(s, id) ==> after == s.push((id, v)))
        }),
{
    lemma_evict_model(s, max_len);
    lemma_insert_model(evict_model(s, max_len), id, v);
}

/// Uniqueness of keys under fresh identifiers: an insertion under an
/// identifier not yet present adds exactly that key and keeps all keys
/// pairwise distinct, so distinct generated identifiers name distinct
/// entries. That the generator never repeats an identifier is its own
/// guarantee and is not provable here.
pub proof fn law_fresh_id_added(s: Seq<EntryModel>, max_len: int, id: Seq<char>, v: (Seq<char>, u64))
    requires
        distinct_keys(s),
        0 <= max_len,
        !has_key(s, id),
    ensures
        ({
            let after = put_model(s, max_len, id, v);
            &&& has_key(after, id)
            &&& entry_of(after, id) == v
            &&& distinct_keys(after)
        }),
{
    lemma_evict_model(s, max_len);
    lemma_insert_model(evict_model(s, max_len), id, v);
}

} // verus!
