//! A store of values keyed by strings, viewed as a map.
//!
//! Sessions and circuits are kept per identifier; this store holds them in
//! two parallel vectors with no key repeated.

use vstd::prelude::*;
use vstd::string::*;

verus! {

/// Values keyed by distinct strings.
pub struct KeyedStore<V> {
    keys: Vec<String>,
    values: Vec<V>,
}

impl<V> View for KeyedStore<V> {
    type V = Map<Seq<char>, V>;

    closed spec fn view(&self) -> Map<Seq<char>, V> {
        Map::new(
            |k: Seq<char>| exists|i: int| 0 <= i < self.keys@.len() && #[trigger] self.keys@[i]@ == k,
            |k: Seq<char>|
                self.values@[choose|i: int| 0 <= i < self.keys@.len() && #[trigger] self.keys@[i]@ == k],
        )
    }
}

impl<V> KeyedStore<V> {
    /// Parallel vectors of equal length, no key repeated.
    pub closed spec fn wf(&self) -> bool {
        &&& self.keys@.len() == self.values@.len()
        &&& forall|i: int, j: int|
            0 <= i < self.keys@.len() && 0 <= j < self.keys@.len() && i != j ==> #[trigger] self.keys@[i]@
                != #[trigger] self.keys@[j]@
    }

    /// Number of slots.
    pub closed spec fn slots(&self) -> nat {
        self.keys@.len()
    }

    /// Key held in slot `i`.
    pub closed spec fn key_at(&self, i: int) -> Seq<char> {
        self.keys@[i]@
    }

    /// Value held in slot `i`.
    pub closed spec fn value_at(&self, i: int) -> V {
        self.values@[i]
    }

    proof fn lemma_slot(&self, i: int)
        requires
            self.wf(),
            0 <= i < self.keys@.len(),
        ensures
            self@.dom().contains(self.keys@[i]@),
            self@[self.keys@[i]@] == self.values@[i],
    {
        let k = self.keys@[i]@;
        assert(self@.dom().contains(k));
        let j = choose|j: int| 0 <= j < self.keys@.len() && #[trigger] self.keys@[j]@ == k;
        assert(j == i);
    }

    /// An empty store.
    pub fn new() -> (s: KeyedStore<V>)
        ensures
            s.wf(),
            s@ == Map::<Seq<char>, V>::empty(),
    {
        let s = KeyedStore { keys: Vec::new(), values: Vec::new() };
        assert(s@ =~= Map::<Seq<char>, V>::empty());
        s
    }

    /// The slot holding `key`, if any.
    pub fn find(&self, key: &str) -> (r: Option<usize>)
        requires
            self.wf(),
        ensures
            r matches Some(i) ==> i < self.slots() && self.key_at(i as int) == key@
                && self@.dom().contains(key@) && self@[key@] == self.value_at(i as int),
            r is None ==> !self@.dom().contains(key@),
    {
        let probe = String::from_str(key);
        let mut i: usize = 0;
        while i < self.keys.len()
            invariant
                self.wf(),
                i <= self.keys@.len(),
                probe@ == key@,
                forall|j: int| 0 <= j < i ==> #[trigger] self.keys@[j]@ != key@,
            decreases self.keys.len() - i,
        {
            if self.keys[i] == probe {
                proof {
                    self.lemma_slot(i as int);
                }
                return Some(i);
            }
            i = i + 1;
        }
        None
    }

    /// The value in slot `i`.
    pub fn get(&self, i: usize) -> (v: &V)
        requires
            self.wf(),
            i < self.slots(),
        ensures
            *v == self.value_at(i as int),
            *v == self@[self.key_at(i as int)],
    {
        proof {
            self.lemma_slot(i as int);
        }
        &self.values[i]
    }

    /// Mutable access to the value in slot `i`.
    pub fn get_mut(&mut self, i: usize) -> (v: &mut V)
        requires
            old(self).wf(),
            i < old(self).slots(),
        ensures
            *v == old(self)@[old(self).key_at(i as int)],
            KeyedStore::slot_replaced(old(self), final(self), i as int, *final(v)),
    {
        proof {
            self.lemma_slot(i as int);
        }
        &mut self.values[i]
    }

    /// `new_s` is `old_s` with the value of slot `i` replaced by `v`.
    pub closed spec fn slot_replaced(old_s: &Self, new_s: &Self, i: int, v: V) -> bool {
        &&& new_s.keys == old_s.keys
        &&& new_s.values@ == old_s.values@.update(i, v)
    }

    /// After a slot's value is replaced, the map changes at that key only.
    pub proof fn lemma_update(old_s: &Self, new_s: &Self, i: int, v: V)
        requires
            old_s.wf(),
            0 <= i < old_s.slots(),
            KeyedStore::slot_replaced(old_s, new_s, i, v),
        ensures
            new_s.wf(),
            new_s@ == old_s@.insert(old_s.key_at(i), v),
    {
        let k = old_s.keys@[i]@;
        assert forall|key: Seq<char>| #[trigger] new_s@.dom().contains(key) == old_s@.insert(
            k,
            v,
        ).dom().contains(key) by {
            if key == k {
                assert(new_s.keys@[i]@ == key);
            } else if old_s@.dom().contains(key) {
                let j = choose|j: int| 0 <= j < old_s.keys@.len() && #[trigger] old_s.keys@[j]@ == key;
                assert(new_s.keys@[j]@ == key);
            }
        }
        assert forall|key: Seq<char>| new_s@.dom().contains(key) implies #[trigger] new_s@[key]
            == old_s@.insert(k, v)[key] by {
            let j = choose|j: int| 0 <= j < new_s.keys@.len() && #[trigger] new_s.keys@[j]@ == key;
            new_s.lemma_slot(j);
            old_s.lemma_slot(j);
        }
        assert(new_s@ =~= old_s@.insert(k, v));
    }

    /// Puts `v` under `key`, replacing what was there; returns its slot.
    pub fn insert(&mut self, key: &str, v: V) -> (i: usize)
        requires
            old(self).wf(),
        ensures
            final(self).wf(),
            final(self)@ == old(self)@.insert(key@, v),
            i < final(self).slots(),
            final(self).key_at(i as int) == key@,
    {
        match self.find(key) {
            Some(i) => {
                let ghost before = *self;
                self.values.set(i, v);
                proof {
                    KeyedStore::lemma_update(&before, self, i as int, v);
                }
                i
            },
            None => {
                let ghost before = *self;
                self.keys.push(String::from_str(key));
                self.values.push(v);
                let n = self.keys.len() - 1;
                proof {
                    assert forall|a: int, b: int|
                        0 <= a < self.keys@.len() && 0 <= b < self.keys@.len() && a != b
                        implies #[trigger] self.keys@[a]@ != #[trigger] self.keys@[b]@ by {
                        if a < n && b < n {
                            assert(self.keys@[a] == before.keys@[a]);
                            assert(self.keys@[b] == before.keys@[b]);
                        } else if a == n {
                            assert(self.keys@[b] == before.keys@[b]);
                            assert(before@.dom().contains(before.keys@[b]@));
                        } else {
                            assert(self.keys@[a] == before.keys@[a]);
                            assert(before@.dom().contains(before.keys@[a]@));
                        }
                    }
                    assert forall|key2: Seq<char>| #[trigger] self@.dom().contains(key2)
                        == before@.insert(key@, v).dom().contains(key2) by {
                        if key2 == key@ {
                            assert(self.keys@[n as int]@ == key2);
                        } else if before@.dom().contains(key2) {
                            let j = choose|j: int|
                                0 <= j < before.keys@.len() && #[trigger] before.keys@[j]@ == key2;
                            assert(self.keys@[j] == before.keys@[j]);
                        } else if self@.dom().contains(key2) {
                            let j = choose|j: int|
                                0 <= j < self.keys@.len() && #[trigger] self.keys@[j]@ == key2;
                            assert(j < n);
                            assert(self.keys@[j] == before.keys@[j]);
                        }
                    }
                    assert forall|key2: Seq<char>| self@.dom().contains(key2) implies #[trigger] self@[key2]
                        == before@.insert(key@, v)[key2] by {
                        let j = choose|j: int| 0 <= j < self.keys@.len() && #[trigger] self.keys@[j]@ == key2;
                        self.lemma_slot(j);
                        if j < n {
                            assert(self.keys@[j] == before.keys@[j]);
                            before.lemma_slot(j);
                        }
                    }
                    assert(self@ =~= before@.insert(key@, v));
                }
                n
            },
        }
    }

    /// Removes `key` and its value, if present.
    pub fn remove(&mut self, key: &str)
        requires
            old(self).wf(),
        ensures
            final(self).wf(),
            final(self)@ == old(self)@.remove(key@),
    {
        match self.find(key) {
            Some(i) => {
                let ghost before = *self;
                self.keys.remove(i);
                self.values.remove(i);
                proof {
                    let n = before.keys@.len();
                    assert forall|a: int, b: int|
                        0 <= a < self.keys@.len() && 0 <= b < self.keys@.len() && a != b
                        implies #[trigger] self.keys@[a]@ != #[trigger] self.keys@[b]@ by {
                        let a2 = if a < i { a } else { a + 1 };
                        let b2 = if b < i { b } else { b + 1 };
                        assert(self.keys@[a] == before.keys@[a2]);
                        assert(self.keys@[b] == before.keys@[b2]);
                    }
                    assert forall|key2: Seq<char>| #[trigger] self@.dom().contains(key2)
                        == before@.remove(key@).dom().contains(key2) by {
                        if self@.dom().contains(key2) {
                            let j = choose|j: int| 0 <= j < self.keys@.len() && #[trigger] self.keys@[j]@ == key2;
                            let j2 = if j < i { j } else { j + 1 };
                            assert(self.keys@[j] == before.keys@[j2]);
                            assert(before.keys@[j2]@ == key2);
                            assert(j2 != i);
                        }
                        if before@.remove(key@).dom().contains(key2) {
                            let j = choose|j: int|
                                0 <= j < before.keys@.len() && #[trigger] before.keys@[j]@ == key2;
                            assert(j != i);
                            let j1 = if j < i { j } else { j - 1 };
                            assert(self.keys@[j1] == before.keys@[j]);
                        }
                    }
                    assert forall|key2: Seq<char>| self@.dom().contains(key2) implies #[trigger] self@[key2]
                        == before@.remove(key@)[key2] by {
                        let j = choose|j: int| 0 <= j < self.keys@.len() && #[trigger] self.keys@[j]@ == key2;
                        self.lemma_slot(j);
                        let j2 = if j < i { j } else { j + 1 };
                        assert(self.keys@[j] == before.keys@[j2]);
                        assert(self.values@[j] == before.values@[j2]);
                        before.lemma_slot(j2);
                    }
                    assert(self@ =~= before@.remove(key@));
                }
            },
            None => {
                assert(self@ =~= old(self)@.remove(key@));
            },
        }
    }
}

} // verus!
