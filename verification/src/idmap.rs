//! Maps keyed by element id, hashed with the Fx hasher of `rustc_hash`.
//!
//! `vstd` describes `HashMap` for hashers it knows to be deterministic. The Fx
//! hasher is none of them, so the three operations below are stated here and
//! taken on trust; everything else about the maps is proved from them.
use rustc_hash::FxHashMap;
use vstd::prelude::*;

verus! {

/// `rustc_hash::FxBuildHasher`, the hasher factory of every `FxHashMap`.
/// Nothing is known of what is inside it.
#[verifier::external_type_specification]
#[verifier::external_body]
pub struct ExFxBuildHasher(rustc_hash::FxBuildHasher);

/// `HashMap::insert` on a map hashed by `rustc_hash::FxBuildHasher`: afterwards
/// the map holds `value` at `key` and is otherwise as before. The Fx hasher has
/// no state of its own and hashes equal keys alike, which is what the claim
/// rests on.
#[verifier::external_body]
pub(crate) fn fx_insert<V>(map: &mut FxHashMap<u32, V>, key: u32, value: V)
    ensures
        final(map)@ == old(map)@.insert(key, value),
{
    map.insert(key, value);
}

/// `HashMap::get` on a map hashed by `rustc_hash::FxBuildHasher`: the value at
/// `key` if the map has one, nothing otherwise.
#[verifier::external_body]
pub(crate) fn fx_get<V>(map: &FxHashMap<u32, V>, key: u32) -> (found: Option<&V>)
    ensures
        found == (if map@.contains_key(key) {
            Some(&map@[key])
        } else {
            None
        }),
{
    map.get(&key)
}

/// `HashMap::keys` on a map hashed by `rustc_hash::FxBuildHasher`, collected:
/// every key of the map once, in no order that could be relied on.
#[verifier::external_body]
pub(crate) fn fx_keys<V>(map: &FxHashMap<u32, V>) -> (keys: Vec<u32>)
    ensures
        keys@.no_duplicates(),
        forall|key: u32| keys@.contains(key) <==> map@.contains_key(key),
{
    map.keys().copied().collect()
}

} // verus!
