//! The store under load: a concurrent map from keys to value blocks.
//!
//! A store is first in the sole possession of the loader, which fills it; what
//! it holds then is known exactly. To run a phase it is shared between the
//! workers, and from then on each of them may write at any time: nothing is
//! stated of the entries of a shared store.

use crate::record::make_value;
use crate::record::record_bytes;
use crate::record::Value;
use dashmap::DashMap;
use std::sync::Arc;
use vstd::prelude::*;

verus! {

/// `dashmap::DashMap`, the concurrent map: carried through as it is; what it
/// holds is spoken of through `store_entries` alone.
#[verifier::external_type_specification]
#[verifier::external_body]
#[verifier::reject_recursive_types(K)]
#[verifier::reject_recursive_types(V)]
#[verifier::reject_recursive_types(S)]
pub struct ExDashMap<K, V, S>(DashMap<K, V, S>);

/// The store that the harness drives, in sole possession of its holder.
pub type Store = DashMap<usize, Value>;

/// The entries of a store in sole possession: each key that it holds, with
/// the bytes of its value block.
pub uninterp spec fn store_entries(store: Store) -> Map<usize, Seq<u8>>;

/// `DashMap::new`: a map without entries.
#[verifier::external_body]
pub(crate) fn store_new() -> (store: Store)
    ensures
        store_entries(store) == (Map::<usize, Seq<u8>>::empty()),
{
    DashMap::new()
}

/// `DashMap::insert` through an exclusive borrow: nobody else can touch the
/// map during the call, so afterwards it holds what it held before, but for
/// `key`, which now maps to `value`.
#[verifier::external_body]
pub(crate) fn store_insert(store: &mut Store, key: usize, value: Value)
    ensures
        store_entries(*final(store)) == store_entries(*old(store)).insert(key, value@),
{
    store.insert(key, value);
}

/// The entries of a freshly loaded store of `record_count` records: every key
/// below `record_count`, each with the block written for it.
pub open spec fn loaded_entries(record_count: usize) -> Map<usize, Seq<u8>> {
    Map::new(|key: usize| key < record_count, |key: usize| record_bytes(key))
}

/// The load phase: makes a store and writes one record for each key below
/// `record_count`.
pub fn load(record_count: usize) -> (store: Store)
    ensures
        store_entries(store) == loaded_entries(record_count),
{
    let mut store = store_new();
    let mut key: usize = 0;
    assert(store_entries(store) =~= loaded_entries(0));
    while key < record_count
        invariant
            key <= record_count,
            store_entries(store) == loaded_entries(key),
        decreases record_count - key,
    {
        let value = make_value(key);
        store_insert(&mut store, key, value);
        assert(store_entries(store) =~= loaded_entries((key + 1) as usize));
        key = key + 1;
    }
    store
}

/// A handle to a store that several workers use at once. Each worker holds a
/// handle of its own; all handles made from one another reach the same map.
pub struct SharedStore {
    map: Arc<Store>,
}

impl Clone for SharedStore {
    /// Another handle to the same map.
    fn clone(&self) -> (other: SharedStore)
        ensures forall|store: Store| self.reaches(store) == #[trigger] other.reaches(store),
    { SharedStore { map: self.map.clone() } }
}

impl SharedStore {
    /// Gives up sole possession of a store, to share it.
    pub fn new(store: Store) -> (shared: SharedStore)
        ensures shared.reaches(store),
    { SharedStore { map: Arc::new(store) } }

    /// The map behind the handle, to look at.
    pub fn map(&self) -> (map: &Store)
        ensures self.reaches(*map),
    { &self.map }

    /// Whether this handle reaches `store`: whether the map behind it is that
    /// one. It says which map a handle leads to, not what that map holds by
    /// now: once a store is shared, any holder may write to it at any time.
    pub closed spec fn reaches(&self, store: Store) -> bool {
        *self.map == store
    }
}

/// `DashMap::insert` through a shared handle. Other holders may write at the
/// same time, so nothing is claimed of the entries. The call waits for the
/// lock of the key's shard; the library keeps no reference into the map that
/// could hold it.
#[verifier::external_body]
pub(crate) fn store_put(store: &SharedStore, key: usize, value: Value) {
    store.map.insert(key, value);
}

/// `DashMap::get` through a shared handle, reduced to whether the key was
/// found; the reference that the map hands out is dropped at once. Other
/// holders may write at the same time, so nothing is claimed of the answer.
#[verifier::external_body]
pub(crate) fn store_get(store: &SharedStore, key: usize) -> bool {
    store.map.get(&key).is_some()
}

} // verus!
