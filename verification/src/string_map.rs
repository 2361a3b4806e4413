//! A map with texts as keys that remembers the order of its entries.
use crate::text;
use vstd::prelude::*;

verus! {

/// A map from texts to values, kept as a list of entries with distinct keys.
pub struct StringMap<V> {
    pub entries: Vec<(String, V)>,
}

/// The entry at `i` has the key `k`.
pub open spec fn key_at<V>(entries: Seq<(String, V)>, k: Seq<char>, i: int) -> bool {
    0 <= i < entries.len() && entries[i].0@ == k
}

impl<V> View for StringMap<V> {
    type V = Map<Seq<char>, V>;

    open spec fn view(&self) -> Map<Seq<char>, V> {
        Map::new(
            |k: Seq<char>| exists|i: int| key_at(self.entries@, k, i),
            |k: Seq<char>| self.entries@[choose|i: int| key_at(self.entries@, k, i)].1,
        )
    }
}

impl<V> StringMap<V> {
    /// No key occurs twice.
    pub open spec fn wf(&self) -> bool {
        forall|i: int, j: int|
            0 <= i < j < self.entries@.len() ==> #[trigger] self.entries@[i].0@
                != #[trigger] self.entries@[j].0@
    }

    /// Every entry is a binding of the map, and the only one of its key.
    pub proof fn lemma_entry(&self, i: int)
        requires
            self.wf(),
            0 <= i < self.entries@.len(),
        ensures
            self@.dom().contains(self.entries@[i].0@),
            self@[self.entries@[i].0@] == self.entries@[i].1,
    {
        let k = self.entries@[i].0@;
        assert(key_at(self.entries@, k, i));
        let j = choose|j: int| key_at(self.entries@, k, j);
        assert(key_at(self.entries@, k, j));
        assert(i == j);
    }

    /// Every key of the map has an entry.
    pub proof fn lemma_key(&self, k: Seq<char>) -> (i: int)
        requires
            self@.dom().contains(k),
        ensures
            key_at(self.entries@, k, i),
            self@[k] == self.entries@[i].1,
    {
        choose|i: int| key_at(self.entries@, k, i)
    }

    /// A key is bound if and only if it is the key of an entry, and then to the value of
    /// that entry.
    pub proof fn law_bindings_are_the_entries(&self, k: Seq<char>)
        requires
            self.wf(),
        ensures
            self@.dom().contains(k) <==> exists|i: int|
                0 <= i < self.entries@.len() && #[trigger] self.entries@[i].0@ == k,
            forall|i: int|
                0 <= i < self.entries@.len() && #[trigger] self.entries@[i].0@ == k ==> self@[k]
                    == self.entries@[i].1,
    {
        if self@.dom().contains(k) {
            let i = self.lemma_key(k);
            assert(self.entries@[i].0@ == k);
        }
        assert forall|i: int|
            0 <= i < self.entries@.len() && #[trigger] self.entries@[i].0@ == k implies self@[k]
            == self.entries@[i].1 && self@.dom().contains(k) by {
            self.lemma_entry(i);
        }
    }

    /// The empty map.
    pub fn new() -> (r: Self)
        ensures
            r.wf(),
            r@ == Map::<Seq<char>, V>::empty(),
            r.entries@.len() == 0,
    {
        let r = StringMap { entries: Vec::new() };
        assert(r@ == Map::<Seq<char>, V>::empty());
        r
    }

    fn find(&self, k: &str) -> (r: Option<usize>)
        requires
            self.wf(),
        ensures
            match r {
                Some(i) => {
                    &&& key_at(self.entries@, k@, i as int)
                    &&& self@.dom().contains(k@)
                    &&& self@[k@] == self.entries@[i as int].1
                },
                None => !self@.dom().contains(k@),
            },
    {
        let mut i: usize = 0;
        while i < self.entries.len()
            invariant
                i <= self.entries@.len(),
                self.wf(),
                forall|j: int| 0 <= j < i ==> !key_at(self.entries@, k@, j),
            decreases self.entries@.len() - i,
        {
            if text::same(self.entries[i].0.as_str(), k) {
                proof {
                    self.lemma_entry(i as int);
                }
                return Some(i);
            }
            i += 1;
        }
        None
    }

    /// The value bound to a key.
    pub fn get(&self, k: &str) -> (r: Option<&V>)
        requires
            self.wf(),
        ensures
            match r {
                Some(v) => self@.dom().contains(k@) && *v == self@[k@],
                None => !self@.dom().contains(k@),
            },
    {
        match self.find(k) {
            Some(i) => Some(&self.entries[i].1),
            None => None,
        }
    }

    /// Tells whether a key is bound.
    pub fn contains_key(&self, k: &str) -> (r: bool)
        requires
            self.wf(),
        ensures
            r == self@.dom().contains(k@),
    {
        self.find(k).is_some()
    }

    /// Binds a key; an earlier binding of it is replaced.
    pub fn insert(&mut self, k: String, v: V)
        requires
            old(self).wf(),
        ensures
            final(self).wf(),
            final(self)@ == old(self)@.insert(k@, v),
            !old(self)@.dom().contains(k@) ==> final(self).entries@ == old(self).entries@.push(
                (k, v),
            ),
            old(self)@.dom().contains(k@) ==> {
                &&& final(self).entries@.len() == old(self).entries@.len()
                &&& forall|i: int|
                    0 <= i < old(self).entries@.len() ==> (#[trigger] final(self).entries@[i]).0@
                        == old(self).entries@[i].0@
            },
    {
        let ghost before = *self;
        match self.find(k.as_str()) {
            Some(i) => {
                self.entries.set(i, (k, v));
                proof {
                    assert(self.wf());
                    before.lemma_same_keys(*self, i as int);
                    assert(self@ =~= before@.insert(k@, v)) by {
                        assert forall|q: Seq<char>| self@.dom().contains(q) implies #[trigger] self@[q]
                            == before@.insert(k@, v)[q] by {
                            let j = self.lemma_key(q);
                            if j != i {
                                before.lemma_entry(j);
                            }
                        }
                    }
                }
            },
            None => {
                self.entries.push((k, v));
                proof {
                    assert forall|a: int, b: int|
                        0 <= a < b < self.entries@.len() implies #[trigger] self.entries@[a].0@
                        != #[trigger] self.entries@[b].0@ by {
                        if b == before.entries@.len() {
                            before.lemma_entry(a);
                        }
                    }
                    assert(self@ =~= before@.insert(k@, v)) by {
                        self.lemma_entry(before.entries@.len() as int);
                        assert forall|q: Seq<char>|
                            self@.dom().contains(q) == before@.insert(k@, v).dom().contains(q) by {
                            if self@.dom().contains(q) {
                                let j = self.lemma_key(q);
                                if j < before.entries@.len() {
                                    before.lemma_entry(j);
                                }
                            }
                            if before@.dom().contains(q) {
                                let j = before.lemma_key(q);
                                self.lemma_entry(j);
                            }
                        }
                        assert forall|q: Seq<char>| self@.dom().contains(q) implies #[trigger] self@[q]
                            == before@.insert(k@, v)[q] by {
                            let j = self.lemma_key(q);
                            if j < before.entries@.len() {
                                before.lemma_entry(j);
                                self.lemma_entry(j);
                            }
                        }
                    }
                }
            },
        }
    }

    proof fn lemma_same_keys(self, other: Self, i: int)
        requires
            self.wf(),
            other.wf(),
            0 <= i < self.entries@.len(),
            other.entries@.len() == self.entries@.len(),
            forall|j: int|
                0 <= j < self.entries@.len() ==> other.entries@[j].0@ == self.entries@[j].0@,
        ensures
            other@.dom() == self@.dom(),
    {
        assert forall|q: Seq<char>| other@.dom().contains(q) == self@.dom().contains(q) by {
            if other@.dom().contains(q) {
                let j = other.lemma_key(q);
                self.lemma_entry(j);
            }
            if self@.dom().contains(q) {
                let j = self.lemma_key(q);
                other.lemma_entry(j);
            }
        }
        assert(other@.dom() =~= self@.dom());
    }

    /// Binds a key only where it is not bound yet.
    pub fn insert_absent(&mut self, k: String, v: V)
        requires
            old(self).wf(),
        ensures
            final(self).wf(),
            final(self)@ == if old(self)@.dom().contains(k@) {
                old(self)@
            } else {
                old(self)@.insert(k@, v)
            },
            old(self)@.dom().contains(k@) ==> *final(self) == *old(self),
            !old(self)@.dom().contains(k@) ==> final(self).entries@ == old(self).entries@.push(
                (k, v),
            ),
    {
        if !self.contains_key(k.as_str()) {
            self.insert(k, v);
        }
    }

    /// Removes the binding of a key.
    pub fn remove(&mut self, k: &str)
        requires
            old(self).wf(),
        ensures
            final(self).wf(),
            final(self)@ == old(self)@.remove(k@),
    {
        let ghost before = *self;
        match self.find(k) {
            Some(i) => {
                let _ = self.entries.remove(i);
                proof {
                    assert forall|a: int, b: int|
                        0 <= a < b < self.entries@.len() implies #[trigger] self.entries@[a].0@
                        != #[trigger] self.entries@[b].0@ by {
                        let x = if a < i { a } else { a + 1 };
                        let y = if b < i { b } else { b + 1 };
                        assert(self.entries@[a] == before.entries@[x]);
                        assert(self.entries@[b] == before.entries@[y]);
                    }
                    assert forall|q: Seq<char>|
                        self@.dom().contains(q) == before@.remove(k@).dom().contains(q) by {
                        if self@.dom().contains(q) {
                            let a = self.lemma_key(q);
                            let x = if a < i { a } else { a + 1 };
                            assert(self.entries@[a] == before.entries@[x]);
                            before.lemma_entry(x);
                            assert(before.entries@[x].0@ != before.entries@[i as int].0@);
                        }
                        if before@.remove(k@).dom().contains(q) {
                            let x = before.lemma_key(q);
                            let a = if x < i { x } else { x - 1 };
                            assert(self.entries@[a] == before.entries@[x]);
                            self.lemma_entry(a);
                        }
                    }
                    assert forall|q: Seq<char>| self@.dom().contains(q) implies #[trigger] self@[q]
                        == before@.remove(k@)[q] by {
                        let a = self.lemma_key(q);
                        let x = if a < i { a } else { a + 1 };
                        assert(self.entries@[a] == before.entries@[x]);
                        before.lemma_entry(x);
                    }
                    assert(self@ =~= before@.remove(k@));
                }
            },
            None => {
                assert(self@ =~= before@.remove(k@));
            },
        }
    }
}

} // verus!
