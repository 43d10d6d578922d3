//! Sets of span ids that remember the order in which the ids came.
//!
//! The sets are `linked_hash_map::LinkedHashMap<u64, ()>`. Verus does not
//! look inside that type; what this module says of it is taken from the
//! crate's source and believed, not proved.

use vstd::prelude::*;
use linked_hash_map::LinkedHashMap;

verus! {

/// `linked_hash_map::LinkedHashMap`, made known so that it can stand in
/// fields and signatures. Nothing is said of what is inside.
#[verifier::external_type_specification]
#[verifier::external_body]
#[verifier::reject_recursive_types(K)]
#[verifier::reject_recursive_types(V)]
#[verifier::reject_recursive_types(S)]
pub struct ExLinkedHashMap<K, V, S>(LinkedHashMap<K, V, S>);

/// The keys of the map in the order in which its iterators visit them:
/// from the key that was inserted longest ago to the one inserted last.
pub uninterp spec fn linked_keys(map: LinkedHashMap<u64, ()>) -> Seq<u64>;

/// The property of being another key than `key`.
pub open spec fn other_than(key: u64) -> spec_fn(u64) -> bool {
    |k: u64| k != key
}

/// `keys` without `key`, the others in their order.
pub open spec fn without(keys: Seq<u64>, key: u64) -> Seq<u64> {
    keys.filter(other_than(key))
}

/// `keys` with `key` as the last one, the others in their order.
pub open spec fn moved_to_back(keys: Seq<u64>, key: u64) -> Seq<u64> {
    without(keys, key).push(key)
}

/// `LinkedHashMap::new`: a map without keys.
#[verifier::external_body]
pub(crate) fn linked_new() -> (map: LinkedHashMap<u64, ()>)
    ensures
        linked_keys(map) == Seq::<u64>::empty(),
{
    LinkedHashMap::new()
}

/// `LinkedHashMap::insert`, with `()` as the value. A key that is new goes
/// to the back of the order. A key that is there already is moved to the
/// back as well, and the old value comes back.
#[verifier::external_body]
pub(crate) fn linked_insert(map: &mut LinkedHashMap<u64, ()>, key: u64) -> (old_value: Option<()>)
    ensures
        linked_keys(*final(map)) == moved_to_back(linked_keys(*old(map)), key),
        old_value is Some <==> linked_keys(*old(map)).contains(key),
{
    map.insert(key, ())
}

/// `LinkedHashMap::remove`: the key leaves, the others keep their order,
/// and the value comes back if the key was there.
#[verifier::external_body]
pub(crate) fn linked_remove(map: &mut LinkedHashMap<u64, ()>, key: u64) -> (value: Option<()>)
    ensures
        linked_keys(*final(map)) == without(linked_keys(*old(map)), key),
        value is Some <==> linked_keys(*old(map)).contains(key),
{
    map.remove(&key)
}

/// `LinkedHashMap::len`: the number of keys.
#[verifier::external_body]
pub(crate) fn linked_len(map: &LinkedHashMap<u64, ()>) -> (len: usize)
    ensures
        len == linked_keys(*map).len(),
{
    map.len()
}

/// `LinkedHashMap::is_empty`: whether there is no key.
#[verifier::external_body]
pub(crate) fn linked_is_empty(map: &LinkedHashMap<u64, ()>) -> (empty: bool)
    ensures
        empty == (linked_keys(*map).len() == 0),
{
    map.is_empty()
}

/// `LinkedHashMap::keys`, collected: the keys in the map's order.
#[verifier::external_body]
pub(crate) fn linked_keys_of(map: &LinkedHashMap<u64, ()>) -> (keys: Vec<u64>)
    ensures
        keys@ == linked_keys(*map),
{
    map.keys().copied().collect()
}

/// What is in `keys` without `key`: everything else that was in `keys`.
pub proof fn lemma_without_contains(keys: Seq<u64>, key: u64, other: u64)
    ensures
        without(keys, key).contains(other) <==> keys.contains(other) && other != key,
{
    let pred = other_than(key);
    if without(keys, key).contains(other) {
        keys.lemma_filter_contains_rev(pred, other);
        let i = choose|i: int| 0 <= i < keys.filter(pred).len() && keys.filter(pred)[i] == other;
        keys.lemma_filter_pred(pred, i);
    }
    if keys.contains(other) && other != key {
        let i = choose|i: int| 0 <= i < keys.len() && keys[i] == other;
        keys.lemma_filter_contains(pred, i);
    }
}

/// What is in `keys` with `key` at the back: `key`, and everything that
/// was in `keys`.
pub proof fn lemma_moved_to_back_contains(keys: Seq<u64>, key: u64, other: u64)
    ensures
        moved_to_back(keys, key).contains(other) <==> keys.contains(other) || other == key,
{
    lemma_without_contains(keys, key, other);
    let rest = without(keys, key);
    if moved_to_back(keys, key).contains(other) {
        let i = choose|i: int|
            0 <= i < moved_to_back(keys, key).len() && moved_to_back(keys, key)[i] == other;
        if i < rest.len() {
            assert(rest[i] == other);
        }
    }
    if rest.contains(other) {
        let i = choose|i: int| 0 <= i < rest.len() && rest[i] == other;
        assert(moved_to_back(keys, key)[i] == other);
    }
    if other == key {
        assert(moved_to_back(keys, key)[rest.len() as int] == other);
    }
}

} // verus!
