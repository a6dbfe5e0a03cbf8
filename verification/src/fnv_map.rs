//! Contracts of the `FnvHashMap` operations that the mesh bookkeeping uses.
//! `FnvHashMap` is std's `HashMap` with the FNV hasher of the `fnv` crate,
//! which hashes a key deterministically; the map then behaves as std's map
//! does for any key type whose hashing and equality follow vstd's key model.
use fnv::{FnvHashMap, FnvHasher};
use std::hash::{BuildHasherDefault, Hash};
use vstd::prelude::*;
use vstd::std_specs::hash::obeys_key_model;

verus! {

#[verifier::external_type_specification]
#[verifier::external_body]
pub struct ExFnvHasher(FnvHasher);

#[verifier::external_type_specification]
#[verifier::external_body]
#[verifier::reject_recursive_types(H)]
pub struct ExBuildHasherDefault<H>(BuildHasherDefault<H>);

/// `FnvHashMap::default()`: an empty map.
#[verifier::external_body]
pub(crate) fn fnv_map_new<K, V>() -> (r: FnvHashMap<K, V>)
    ensures
        r@.is_empty(),
{
    FnvHashMap::default()
}

/// `HashMap::insert` on an `FnvHashMap`: the key now maps to the value, and
/// the value it mapped to before, if any, comes back.
#[verifier::external_body]
pub(crate) fn fnv_map_insert<K: Eq + Hash, V>(m: &mut FnvHashMap<K, V>, k: K, v: V) -> (r: Option<V>)
    ensures
        obeys_key_model::<K>() ==> {
            &&& final(m)@ == old(m)@.insert(k, v)
            &&& match r {
                Some(prev) => old(m)@.contains_key(k) && prev == old(m)@[k],
                None => !old(m)@.contains_key(k),
            }
        },
{
    m.insert(k, v)
}

/// `HashMap::remove` on an `FnvHashMap`: the key is gone, and the value it
/// mapped to, if any, comes back.
#[verifier::external_body]
pub(crate) fn fnv_map_remove<K: Eq + Hash, V>(m: &mut FnvHashMap<K, V>, k: &K) -> (r: Option<V>)
    ensures
        obeys_key_model::<K>() ==> {
            &&& final(m)@ == old(m)@.remove(*k)
            &&& match r {
                Some(v) => old(m)@.contains_key(*k) && v == old(m)@[*k],
                None => !old(m)@.contains_key(*k),
            }
        },
{
    m.remove(k)
}

} // verus!
