//! Hash maps with the Fx hasher, keyed by an integer.

use vstd::prelude::*;
use rustc_hash::FxBuildHasher;
use rustc_hash::FxHashMap;

verus! {

#[verifier::external_type_specification]
#[verifier::external_body]
pub struct ExFxBuildHasher(FxBuildHasher);

/// `HashMap::get` on a map that hashes with `rustc_hash::FxBuildHasher`.
/// The hasher it builds starts from a fixed state and has no other input than
/// the key, so the map finds a key exactly when it holds it, and hands out
/// the value stored under it.
#[verifier::external_body]
pub(crate) fn fx_get<'a, V>(map: &'a FxHashMap<u64, V>, key: u64) -> (value: Option<&'a V>)
    ensures
        value == (if map@.contains_key(key) {
            Some(&map@[key])
        } else {
            None
        }),
{
    map.get(&key)
}

/// `HashMap::insert` on a map that hashes with `rustc_hash::FxBuildHasher`:
/// afterwards the map holds `value` under `key` and is otherwise unchanged;
/// the value that was stored under `key` before, if any, is returned.
#[verifier::external_body]
pub(crate) fn fx_insert<V>(map: &mut FxHashMap<u64, V>, key: u64, value: V) -> (previous: Option<V>)
    ensures
        final(map)@ == old(map)@.insert(key, value),
        previous == (if old(map)@.contains_key(key) {
            Some(old(map)@[key])
        } else {
            None
        }),
{
    map.insert(key, value)
}

/// `HashMap::remove` on a map that hashes with `rustc_hash::FxBuildHasher`:
/// afterwards the map holds nothing under `key` and is otherwise unchanged;
/// the value that was stored under `key`, if any, is returned.
#[verifier::external_body]
pub(crate) fn fx_remove<V>(map: &mut FxHashMap<u64, V>, key: u64) -> (removed: Option<V>)
    ensures
        final(map)@ == old(map)@.remove(key),
        removed == (if old(map)@.contains_key(key) {
            Some(old(map)@[key])
        } else {
            None
        }),
{
    map.remove(&key)
}

} // verus!
