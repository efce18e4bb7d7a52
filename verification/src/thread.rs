//! A per-thread registry: values kept under the id of the thread whose
//! runtime they belong to, so that other threads can find them.
use vstd::prelude::*;

use rustc_hash::FxHashMap;

verus! {

#[verifier::external_type_specification]
#[verifier::external_body]
pub struct ExFxBuildHasher(rustc_hash::FxBuildHasher);

/// Nothing kept for any thread.
pub open spec fn no_threads<V>() -> Map<usize, V> {
    Map::empty()
}

/// The map of values by thread id.
pub type ThreadMap<V> = FxHashMap<usize, V>;

/// `FxHashMap::insert`: the map afterwards holds `v` under `k`, and every
/// other key as before.
#[verifier::external_body]
fn fx_map_insert<V>(m: &mut ThreadMap<V>, k: usize, v: V)
    ensures
        final(m)@ == old(m)@.insert(k, v),
{
    m.insert(k, v);
}

/// `FxHashMap::remove`: the map afterwards holds nothing under `k`, and
/// every other key as before.
#[verifier::external_body]
fn fx_map_remove<V>(m: &mut ThreadMap<V>, k: usize)
    ensures
        final(m)@ == old(m)@.remove(k),
{
    m.remove(&k);
}

/// `FxHashMap::get`: the value under `k`, if any.
#[verifier::external_body]
fn fx_map_get<V>(m: &ThreadMap<V>, k: usize) -> (r: Option<&V>)
    ensures
        r == (if m@.contains_key(k) {
            Some(&m@[k])
        } else {
            None
        }),
{
    m.get(&k)
}

/// Values kept by thread id.
pub struct ThreadRegistry<V> {
    map: ThreadMap<V>,
}

impl<V> View for ThreadRegistry<V> {
    type V = Map<usize, V>;

    /// The values, by thread id.
    closed spec fn view(&self) -> Map<usize, V> {
        self.map@
    }
}

impl<V> ThreadRegistry<V> {
    /// Nothing registered.
    pub fn new() -> (r: ThreadRegistry<V>)
        ensures
            r@ == no_threads::<V>(),
    {
        let map: ThreadMap<V> = std::collections::HashMap::default();
        ThreadRegistry { map }
    }

    /// Keeps `value` for thread `id`, replacing what was kept for it.
    pub fn register(&mut self, id: usize, value: V)
        ensures
            final(self)@ == old(self)@.insert(id, value),
    {
        fx_map_insert(&mut self.map, id, value);
    }

    /// Forgets what was kept for thread `id`.
    pub fn unregister(&mut self, id: usize)
        ensures
            final(self)@ == old(self)@.remove(id),
    {
        fx_map_remove(&mut self.map, id);
    }

    /// What is kept for thread `id`, if anything.
    pub fn get(&self, id: usize) -> (r: Option<&V>)
        ensures
            r == (if self@.contains_key(id) {
                Some(&self@[id])
            } else {
                None
            }),
    {
        fx_map_get(&self.map, id)
    }
}

/// A registered value is found under its thread id until that id is
/// unregistered, and registering one thread leaves the others alone.
pub proof fn lemma_register_then_find<V>(before: Map<usize, V>, id: usize, other: usize, value: V)
    requires
        other != id,
    ensures
        before.insert(id, value)[id] == value,
        !before.insert(id, value).remove(id).contains_key(id),
        before.insert(id, value).contains_key(other) == before.contains_key(other),
        before.insert(id, value).remove(id).contains_key(other) == before.contains_key(other),
{
}

} // verus!
