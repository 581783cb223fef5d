//! Trusted interface to the insertion-ordered map that backs the store.
//!
//! The store keeps its entries in an `indexmap::IndexMap`, which preserves
//! insertion order and keeps keys unique. `map_entries` names the contents
//! of such a map as a sequence of `(key, (content, expiry))` triples in
//! order; each wrapper below states, over that name, what the called method
//! does according to indexmap's documentation.

use vstd::prelude::*;

use crate::model::{distinct_keys, entry_of, has_key, key_index, EntryModel};

verus! {

#[verifier::external_type_specification]
#[verifier::external_body]
#[verifier::reject_recursive_types(K)]
#[verifier::reject_recursive_types(V)]
#[verifier::reject_recursive_types(S)]
pub struct ExIndexMap<K, V, S>(indexmap::IndexMap<K, V, S>);

/// A stored value: the content and the absolute expiry time in seconds.
pub type StoredPair = (String, u64);

/// The backing map from identifier to stored value.
pub type EntryMap = indexmap::IndexMap<String, StoredPair>;

/// The contents of the backing map: its `(key, (content, expiry))` entries
/// in insertion order.
pub uninterp spec fn map_entries(m: EntryMap) -> Seq<EntryModel>;

/// Relies on indexmap's `IndexMap::new`: it creates an empty map.
#[verifier::external_body]
pub(crate) fn map_new() -> (r: EntryMap)
    ensures
        map_entries(r) == Seq::<EntryModel>::empty(),
{
    indexmap::IndexMap::new()
}

/// Relies on indexmap's `IndexMap::len`: the number of key-value pairs.
#[verifier::external_body]
pub(crate) fn map_len(m: &EntryMap) -> (r: usize)
    ensures
        r == map_entries(*m).len(),
{
    m.len()
}

/// Relies on indexmap's `IndexMap::get`: the value stored under the key, if
/// the key is present, else `None`.
#[verifier::external_body]
pub(crate) fn map_get(m: &EntryMap, key: &String) -> (r: Option<StoredPair>)
    requires
        distinct_keys(map_entries(*m)),
    ensures
        ({
            let s = map_entries(*m);
            if has_key(s, key@) {
                r matches Some(v) && (v.0@, v.1) == entry_of(s, key@)
            } else {
                r is None
            }
        }),
{
    m.get(key).cloned()
}

/// Relies on indexmap's `IndexMap::insert`: an existing key keeps its place
/// in the order and its value is replaced, the old value being returned; a
/// new key-value pair is appended last in order and `None` is returned.
#[verifier::external_body]
pub(crate) fn map_insert(m: &mut EntryMap, key: String, value: StoredPair) -> (r: Option<
    StoredPair,
>)
    requires
        distinct_keys(map_entries(*old(m))),
    ensures
        ({
            let s = map_entries(*old(m));
            let t = map_entries(*final (m));
            if has_key(s, key@) {
                &&& t == s.update(key_index(s, key@), (key@, (value.0@, value.1)))
                &&& r matches Some(v) && (v.0@, v.1) == entry_of(s, key@)
            } else {
                &&& t == s.push((key@, (value.0@, value.1)))
                &&& r is None
            }
        }),
{
    m.insert(key, value)
}

/// Relies on indexmap's `IndexMap::shift_remove`: the pair with the key is
/// removed and its value returned, the following entries shifting left so
/// that their relative order is preserved; `None` if the key is absent.
#[verifier::external_body]
pub(crate) fn map_shift_remove(m: &mut EntryMap, key: &String) -> (r: Option<StoredPair>)
    requires
        distinct_keys(map_entries(*old(m))),
    ensures
        ({
            let s = map_entries(*old(m));
            let t = map_entries(*final (m));
            if has_key(s, key@) {
                &&& t == s.remove(key_index(s, key@))
                &&& r matches Some(v) && (v.0@, v.1) == entry_of(s, key@)
            } else {
                &&& t == s
                &&& r is None
            }
        }),
{
    m.shift_remove(key)
}

/// Relies on indexmap's `IndexMap::shift_remove_index`: the pair at the
/// index is removed and returned, the following entries shifting left so
/// that their relative order is preserved; `None` if the index is out of
/// bounds.
#[verifier::external_body]
pub(crate) fn map_shift_remove_index(m: &mut EntryMap, index: usize) -> (r: Option<
    (String, StoredPair),
>)
    ensures
        ({
            let s = map_entries(*old(m));
            let t = map_entries(*final (m));
            if index < s.len() {
                &&& t == s.remove(index as int)
                &&& r matches Some(kv) && (kv.0@, (kv.1.0@, kv.1.1)) == s[index as int]
            } else {
                &&& t == s
                &&& r is None
            }
        }),
{
    m.shift_remove_index(index)
}

} // verus!
