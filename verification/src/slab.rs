//! A slab: values stored under small integer keys that the slab hands out
//! and takes back.
use vstd::prelude::*;

verus! {

/// Values stored under keys that `insert` chooses; the key of a removed
/// value is used again.
pub struct Slab<T> {
    entries: Vec<Option<T>>,
    free: Vec<usize>,
}

impl<T> View for Slab<T> {
    type V = Map<usize, T>;

    /// The stored values, by key.
    closed spec fn view(&self) -> Map<usize, T> {
        Map::new(
            |k: usize| k < self.entries@.len() && self.entries@[k as int] is Some,
            |k: usize| self.entries@[k as int]->Some_0,
        )
    }
}

impl<T> Slab<T> {

    /// The free list names exactly the empty slots, each once.
    pub closed spec fn wf(&self) -> bool {
        &&& self.free@.no_duplicates()
        &&& forall|j: int|
            0 <= j < self.free@.len() ==> #[trigger] self.free@[j] < self.entries@.len()
                && self.entries@[self.free@[j] as int] is None
        &&& forall|k: int|
            0 <= k < self.entries@.len() && #[trigger] self.entries@[k] is None
                ==> self.free@.contains(k as usize)
    }

    /// An empty slab.
    pub fn new() -> (s: Slab<T>)
        ensures
            s.wf(),
            s@ == Map::<usize, T>::empty(),
    {
        let s = Slab { entries: Vec::new(), free: Vec::new() };
        assert(s@ =~= Map::<usize, T>::empty());
        s
    }

    /// Stores `value` under a key that holds nothing, and returns the key.
    pub fn insert(&mut self, value: T) -> (k: usize)
        requires
            old(self).wf(),
        ensures
            final(self).wf(),
            !old(self)@.contains_key(k),
            final(self)@ == old(self)@.insert(k, value),
    {
        match self.free.pop() {
            Some(k) => {
                proof {
                    assert(old(self).free@[old(self).free@.len() - 1] == k);
                    assert(old(self).free@ == self.free@.push(k));
                }
                self.entries.set(k, Some(value));
                proof {
                    assert forall|j: int| 0 <= j < self.free@.len() implies #[trigger] self.free@[j]
                        < self.entries@.len() && self.entries@[self.free@[j] as int] is None by {
                        assert(old(self).free@[j] == self.free@[j]);
                        assert(self.free@[j] != k) by {
                            assert(old(self).free@[old(self).free@.len() - 1] == k);
                        }
                    }
                    assert forall|i: int|
                        0 <= i < self.entries@.len() && #[trigger] self.entries@[i] is None
                            implies self.free@.contains(i as usize) by {
                        assert(i != k);
                        assert(old(self).free@.contains(i as usize));
                        let j = choose|j: int|
                            0 <= j < old(self).free@.len() && old(self).free@[j] == i as usize;
                        assert(j != old(self).free@.len() - 1);
                        assert(self.free@[j] == i as usize);
                    }
                    assert(self@ =~= old(self)@.insert(k, value));
                }
                k
            },
            None => {
                let k = self.entries.len();
                self.entries.push(Some(value));
                proof {
                    assert(self@ =~= old(self)@.insert(k, value));
                }
                k
            },
        }
    }

    /// The value stored under `k`, if any.
    pub fn get(&self, k: usize) -> (r: Option<&T>)
        requires
            self.wf(),
        ensures
            r == (if self@.contains_key(k) {
                Some(&self@[k])
            } else {
                None
            }),
    {
        if k < self.entries.len() {
            self.entries[k].as_ref()
        } else {
            None
        }
    }

    /// The value stored under `k`, if any, to change in place; nothing else
    /// changes.
    pub fn get_mut(&mut self, k: usize) -> (r: Option<&mut T>)
        requires
            old(self).wf(),
        ensures
            final(self).wf(),
            old(self)@.contains_key(k) ==> {
                &&& r is Some
                &&& *r->Some_0 == old(self)@[k]
                &&& final(self)@ == old(self)@.insert(k, *final(r->Some_0))
            },
            !old(self)@.contains_key(k) ==> r is None && final(self)@ == old(self)@,
    {
        if k < self.entries.len() {
            let slot = &mut self.entries[k];
            let r = slot.as_mut();
            r
        } else {
            proof {
                assert(final(self)@ =~= old(self)@);
            }
            None
        }
    }

    /// Takes out the value stored under `k`, if any; its key becomes free.
    pub fn remove(&mut self, k: usize) -> (r: Option<T>)
        requires
            old(self).wf(),
        ensures
            final(self).wf(),
            r == (if old(self)@.contains_key(k) {
                Some(old(self)@[k])
            } else {
                None
            }),
            final(self)@ == old(self)@.remove(k),
    {
        if k < self.entries.len() {
            if self.entries[k].is_some() {
                let old_value = self.entries[k].take();
                proof {
                    assert(!self.free@.contains(k)) by {
                        if self.free@.contains(k) {
                            let j = choose|j: int| 0 <= j < self.free@.len() && self.free@[j] == k;
                            assert(old(self).entries@[self.free@[j] as int] is None);
                        }
                    }
                }
                self.free.push(k);
                proof {
                    assert forall|j: int| 0 <= j < self.free@.len() implies #[trigger] self.free@[j]
                        < self.entries@.len() && self.entries@[self.free@[j] as int] is None by {
                        if j < old(self).free@.len() {
                            assert(old(self).free@[j] == self.free@[j]);
                        }
                    }
                    assert forall|i: int|
                        0 <= i < self.entries@.len() && #[trigger] self.entries@[i] is None
                            implies self.free@.contains(i as usize) by {
                        if i != k {
                            assert(old(self).free@.contains(i as usize));
                            let j = choose|j: int|
                                0 <= j < old(self).free@.len() && old(self).free@[j] == i as usize;
                            assert(self.free@[j] == i as usize);
                        } else {
                            assert(self.free@[self.free@.len() - 1] == k);
                        }
                    }
                    assert(self@ =~= old(self)@.remove(k));
                }
                return old_value;
            }
        }
        proof {
            assert(self@ =~= old(self)@.remove(k));
        }
        None
    }
}

/// A value stored under a key is found there until the key is removed, and
/// removing a freshly inserted value gives the slab back as it was.
pub proof fn lemma_insert_then_remove<T>(before: Map<usize, T>, k: usize, v: T)
    requires
        !before.contains_key(k),
    ensures
        before.insert(k, v).contains_key(k),
        before.insert(k, v)[k] == v,
        before.insert(k, v).remove(k) == before,
{
    assert(before.insert(k, v).remove(k) =~= before);
}

} // verus!
