//! A map from integer keys to values that remembers the order in which its
//! keys first came, so that walking it always gives the same sequence.

use vstd::prelude::*;

verus! {

/// The place of `key` in `keys`. Meaningful where `keys` holds `key`.
pub open spec fn position(keys: Seq<u32>, key: u32) -> int {
    choose|i: int| 0 <= i < keys.len() && keys[i] == key
}

/// Where the keys are distinct, a key stands at one place only.
pub proof fn lemma_position(keys: Seq<u32>, i: int)
    requires
        keys.no_duplicates(),
        0 <= i < keys.len(),
    ensures
        position(keys, keys[i]) == i,
{
}

/// The keys after `key` was put: a key that is there keeps its place, a new
/// one goes to the end.
pub open spec fn keys_after(keys: Seq<u32>, key: u32) -> Seq<u32> {
    if keys.contains(key) {
        keys
    } else {
        keys.push(key)
    }
}

/// The values after `value` was put under `key`: it takes the place of the
/// value that the key had, or goes to the end with its new key.
pub open spec fn values_after<V>(keys: Seq<u32>, values: Seq<V>, key: u32, value: V) -> Seq<V> {
    if keys.contains(key) {
        values.update(position(keys, key), value)
    } else {
        values.push(value)
    }
}

/// An insertion-ordered map from `u32` keys to values.
#[derive(Debug)]
pub struct Keyed<V> {
    keys: Vec<u32>,
    values: Vec<V>,
}

impl<V> Keyed<V> {
    /// The keys, in the order in which each first came.
    pub closed spec fn keys(&self) -> Seq<u32> {
        self.keys@
    }

    /// The values, each at the place of its key.
    pub closed spec fn values(&self) -> Seq<V> {
        self.values@
    }

    /// Every key has one value and stands once.
    pub closed spec fn wf(&self) -> bool {
        &&& self.keys@.len() == self.values@.len()
        &&& self.keys@.no_duplicates()
    }

    /// What well-formedness means for the two sequences.
    pub proof fn lemma_wf(&self)
        requires
            self.wf(),
        ensures
            self.keys().len() == self.values().len(),
            self.keys().no_duplicates(),
    {
    }

    pub fn new() -> (m: Self)
        ensures
            m.wf(),
            m.keys() == Seq::<u32>::empty(),
            m.values() == Seq::<V>::empty(),
    {
        Keyed { keys: Vec::new(), values: Vec::new() }
    }

    pub fn len(&self) -> (n: usize)
        requires
            self.wf(),
        ensures
            n == self.keys().len(),
            n == self.values().len(),
    {
        self.keys.len()
    }

    /// The place of `key`, if the map holds it.
    pub fn find(&self, key: u32) -> (place: Option<usize>)
        requires
            self.wf(),
        ensures
            match place {
                Some(i) => i < self.keys().len() && self.keys()[i as int] == key && i == position(
                    self.keys(),
                    key,
                ),
                None => !self.keys().contains(key),
            },
    {
        let mut i: usize = 0;
        while i < self.keys.len()
            invariant
                self.wf(),
                i <= self.keys@.len(),
                forall|j: int| 0 <= j < i ==> self.keys@[j] != key,
            decreases self.keys@.len() - i,
        {
            if self.keys[i] == key {
                proof {
                    lemma_position(self.keys@, i as int);
                }
                return Some(i);
            }
            i += 1;
        }
        None
    }

    pub fn key_at(&self, i: usize) -> (key: u32)
        requires
            self.wf(),
            i < self.keys().len(),
        ensures
            key == self.keys()[i as int],
    {
        self.keys[i]
    }

    pub fn value_at(&self, i: usize) -> (value: &V)
        requires
            self.wf(),
            i < self.keys().len(),
        ensures
            *value == self.values()[i as int],
    {
        &self.values[i]
    }

    /// The value under `key`, if the map holds the key.
    pub fn get(&self, key: u32) -> (value: Option<&V>)
        requires
            self.wf(),
        ensures
            match value {
                Some(v) => self.keys().contains(key) && *v == self.values()[position(
                    self.keys(),
                    key,
                )],
                None => !self.keys().contains(key),
            },
    {
        match self.find(key) {
            Some(i) => Some(&self.values[i]),
            None => None,
        }
    }

    /// Puts `value` under `key`. A key that the map holds keeps its place
    /// and gets the new value; a new key goes to the end.
    pub fn insert(&mut self, key: u32, value: V)
        requires
            old(self).wf(),
        ensures
            final(self).wf(),
            final(self).keys() == keys_after(old(self).keys(), key),
            final(self).values() == values_after(old(self).keys(), old(self).values(), key, value),
    {
        match self.find(key) {
            Some(i) => {
                self.values.set(i, value);
            },
            None => {
                self.keys.push(key);
                self.values.push(value);
                assert(self.keys@.no_duplicates()) by {
                    let keys = self.keys@;
                    let before = old(self).keys@;
                    assert forall|i: int, j: int|
                        0 <= i < keys.len() && 0 <= j < keys.len() && i != j implies keys[i]
                        != keys[j] by {
                        if i < before.len() {
                            assert(before[i] == keys[i]);
                        }
                        if j < before.len() {
                            assert(before[j] == keys[j]);
                        }
                    }
                }
            },
        }
    }
}

} // verus!
