//! A map from string keys to values, kept as a vector of entries in which no
//! key occurs twice.
use vstd::prelude::*;
use crate::text::str_eq;

verus! {

/// A map keyed by strings. Each key occurs at most once.
#[derive(Debug)]
pub struct KeyedStore<T> {
    entries: Vec<(String, T)>,
}

impl<T> View for KeyedStore<T> {
    type V = Map<Seq<char>, T>;

    closed spec fn view(&self) -> Map<Seq<char>, T> {
        Map::new(
            |k: Seq<char>| self.has_key_at(k),
            |k: Seq<char>| self.entries@[self.index_of(k)].1,
        )
    }
}

impl<T> KeyedStore<T> {
    #[verifier::type_invariant]
    closed spec fn keys_distinct(self) -> bool {
        forall|i: int, j: int|
            0 <= i < self.entries@.len() && 0 <= j < self.entries@.len() && i != j
                ==> #[trigger] self.entries@[i].0@ != #[trigger] self.entries@[j].0@
    }

    closed spec fn has_key_at(self, k: Seq<char>) -> bool {
        exists|i: int| 0 <= i < self.entries@.len() && #[trigger] self.entries@[i].0@ == k
    }

    closed spec fn index_of(self, k: Seq<char>) -> int {
        choose|i: int| 0 <= i < self.entries@.len() && #[trigger] self.entries@[i].0@ == k
    }

    proof fn lemma_index(self, i: int)
        requires
            self.keys_distinct(),
            0 <= i < self.entries@.len(),
        ensures
            self.has_key_at(self.entries@[i].0@),
            self.index_of(self.entries@[i].0@) == i,
            self@.dom().contains(self.entries@[i].0@),
            self@[self.entries@[i].0@] == self.entries@[i].1,
    {
        let k = self.entries@[i].0@;
        assert(self.has_key_at(k));
        let j = self.index_of(k);
        assert(self.entries@[j].0@ == k);
    }

    /// An empty store.
    pub fn new() -> (s: Self)
        ensures
            s@ == Map::<Seq<char>, T>::empty(),
    {
        let s = KeyedStore { entries: Vec::new() };
        assert(s@ =~= Map::<Seq<char>, T>::empty());
        s
    }

    /// Number of keys.
    pub fn len(&self) -> (n: usize)
        ensures
            n == self@.dom().len(),
    {
        proof {
            use_type_invariant(self);
            self.lemma_dom_len();
        }
        self.entries.len()
    }

    proof fn lemma_dom_len(self)
        requires
            self.keys_distinct(),
        ensures
            self@.dom().finite(),
            self@.dom().len() == self.entries@.len(),
        decreases self.entries@.len(),
    {
        let keys = self.entries@.map_values(|e: (String, T)| e.0@);
        assert forall|i: int, j: int| 0 <= i < keys.len() && 0 <= j < keys.len() && i != j
            implies keys[i] != keys[j] by {
            assert(self.entries@[i].0@ != self.entries@[j].0@);
        }
        assert(keys.no_duplicates());
        assert forall|k: Seq<char>| self@.dom().contains(k) <==> keys.to_set().contains(k) by {
            if self@.dom().contains(k) {
                let i = self.index_of(k);
                assert(keys[i] == k);
            }
            if keys.to_set().contains(k) {
                let i = choose|i: int| 0 <= i < keys.len() && keys[i] == k;
                assert(self.entries@[i].0@ == k);
            }
        }
        assert(self@.dom() =~= keys.to_set());
        keys.unique_seq_to_set();
    }

    /// Position of `key` in the entries, if present.
    fn find(&self, key: &str) -> (r: Option<usize>)
        ensures
            r matches Some(i) ==> i < self.entries@.len() && self.entries@[i as int].0@ == key@,
            r is None ==> !self@.dom().contains(key@),
    {
        let mut i: usize = 0;
        while i < self.entries.len()
            invariant
                i <= self.entries@.len(),
                forall|j: int| 0 <= j < i ==> #[trigger] self.entries@[j].0@ != key@,
            decreases self.entries@.len() - i,
        {
            if str_eq(self.entries[i].0.as_str(), key) {
                return Some(i);
            }
            i = i + 1;
        }
        None
    }

    /// Whether `key` is present.
    pub fn contains_key(&self, key: &str) -> (r: bool)
        ensures
            r == self@.dom().contains(key@),
    {
        proof {
            use_type_invariant(self);
        }
        match self.find(key) {
            Some(i) => {
                proof {
                    self.lemma_index(i as int);
                }
                true
            },
            None => false,
        }
    }

    /// The value under `key`, if present.
    pub fn get(&self, key: &str) -> (r: Option<&T>)
        ensures
            r matches Some(v) ==> self@.dom().contains(key@) && *v == self@[key@],
            r is None ==> !self@.dom().contains(key@),
    {
        proof {
            use_type_invariant(self);
        }
        match self.find(key) {
            Some(i) => {
                proof {
                    self.lemma_index(i as int);
                }
                Some(&self.entries[i].1)
            },
            None => None,
        }
    }

    /// Sets the value under `key`, replacing any earlier one.
    pub fn insert(&mut self, key: String, value: T)
        ensures
            final(self)@ == old(self)@.insert(key@, value),
    {
        proof {
            use_type_invariant(&*self);
        }
        let ghost old_self = *self;
        let found = self.find(key.as_str());
        let mut entries = Vec::new();
        std::mem::swap(&mut entries, &mut self.entries);
        let ghost k = key@;
        match found {
            Some(i) => {
                entries.set(i, (key, value));
            },
            None => {
                entries.push((key, value));
            },
        }
        proof {
            assert forall|a: int, b: int|
                0 <= a < entries@.len() && 0 <= b < entries@.len() && a != b
                    implies #[trigger] entries@[a].0@ != #[trigger] entries@[b].0@ by {
                if found is None {
                    if a < old_self.entries@.len() && b < old_self.entries@.len() {
                        assert(old_self.entries@[a].0@ != old_self.entries@[b].0@);
                    }
                } else {
                    if a != found->0 && b != found->0 {
                        assert(old_self.entries@[a].0@ != old_self.entries@[b].0@);
                    } else if a == found->0 {
                        assert(old_self.entries@[a].0@ != old_self.entries@[b].0@);
                    } else {
                        assert(old_self.entries@[a].0@ != old_self.entries@[b].0@);
                    }
                }
            }
        }
        self.entries = entries;
        proof {
            let new_self = *self;
            assert forall|q: Seq<char>| #[trigger] new_self@.dom().contains(q) <==> old_self@.insert(
                k,
                value,
            ).dom().contains(q) by {
                if new_self.has_key_at(q) {
                    let j = new_self.index_of(q);
                    if q != k {
                        assert(old_self.entries@[j].0@ == q);
                    }
                }
                if old_self.has_key_at(q) {
                    let j = old_self.index_of(q);
                    assert(new_self.entries@[j].0@ == q || q == k);
                }
                if q == k {
                    match found {
                        Some(i) => assert(new_self.entries@[i as int].0@ == k),
                        None => assert(new_self.entries@[old_self.entries@.len() as int].0@ == k),
                    }
                }
            }
            assert forall|q: Seq<char>| #[trigger] new_self@.dom().contains(q) implies new_self@[q]
                == old_self@.insert(k, value)[q] by {
                let j = new_self.index_of(q);
                new_self.lemma_index(j);
                if q != k {
                    old_self.lemma_index(j);
                }
            }
            assert(new_self@ =~= old_self@.insert(k, value));
        }
    }

    /// The keys, each once, in an unspecified order.
    pub fn keys(&self) -> (r: Vec<String>)
        ensures
            r@.len() == self@.dom().len(),
            forall|i: int| 0 <= i < r@.len() ==> self@.dom().contains(#[trigger] r@[i]@),
            forall|k: Seq<char>| #[trigger] self@.dom().contains(k) ==> exists|i: int|
                0 <= i < r@.len() && r@[i]@ == k,
            forall|i: int, j: int|
                0 <= i < r@.len() && 0 <= j < r@.len() && i != j ==> #[trigger] r@[i]@
                    != #[trigger] r@[j]@,
    {
        proof {
            use_type_invariant(self);
            self.lemma_dom_len();
        }
        let mut r: Vec<String> = Vec::new();
        let mut i: usize = 0;
        while i < self.entries.len()
            invariant
                self.keys_distinct(),
                i <= self.entries@.len(),
                r@.len() == i,
                forall|j: int| 0 <= j < i ==> #[trigger] r@[j]@ == self.entries@[j].0@,
            decreases self.entries@.len() - i,
        {
            r.push(self.entries[i].0.clone());
            i = i + 1;
        }
        proof {
            assert forall|j: int| 0 <= j < r@.len() implies self@.dom().contains(#[trigger] r@[j]@) by {
                self.lemma_index(j);
            }
            assert forall|k: Seq<char>| #[trigger] self@.dom().contains(k) implies exists|j: int|
                0 <= j < r@.len() && r@[j]@ == k by {
                let j = self.index_of(k);
                assert(r@[j]@ == k);
            }
            assert forall|a: int, b: int|
                0 <= a < r@.len() && 0 <= b < r@.len() && a != b implies #[trigger] r@[a]@
                    != #[trigger] r@[b]@ by {
                assert(self.entries@[a].0@ != self.entries@[b].0@);
            }
        }
        r
    }

    /// Removes `key` and returns its value, if present.
    pub fn remove(&mut self, key: &str) -> (r: Option<T>)
        ensures
            final(self)@ == old(self)@.remove(key@),
            r matches Some(v) ==> old(self)@.dom().contains(key@) && v == old(self)@[key@],
            r is None ==> !old(self)@.dom().contains(key@),
    {
        proof {
            use_type_invariant(&*self);
        }
        let ghost old_self = *self;
        match self.find(key) {
            None => {
                assert(self@ =~= old_self@.remove(key@));
                None
            },
            Some(i) => {
                proof {
                    old_self.lemma_index(i as int);
                }
                let mut entries = Vec::new();
                std::mem::swap(&mut entries, &mut self.entries);
                let (_k, v) = entries.remove(i);
                proof {
                    assert forall|a: int, b: int|
                        0 <= a < entries@.len() && 0 <= b < entries@.len() && a != b
                            implies #[trigger] entries@[a].0@ != #[trigger] entries@[b].0@ by {
                        let a2 = if a < i { a } else { a + 1 };
                        let b2 = if b < i { b } else { b + 1 };
                        assert(old_self.entries@[a2].0@ != old_self.entries@[b2].0@);
                    }
                }
                self.entries = entries;
                proof {
                    let new_self = *self;
                    let k = key@;
                    assert forall|q: Seq<char>| #[trigger] new_self@.dom().contains(q) <==> old_self@.remove(k).dom().contains(q) by {
                        if new_self.has_key_at(q) {
                            let j = new_self.index_of(q);
                            let j2 = if j < i { j } else { j + 1 };
                            assert(old_self.entries@[j2].0@ == q);
                            assert(q != k);
                        }
                        if old_self.has_key_at(q) && q != k {
                            let j = old_self.index_of(q);
                            assert(j != i);
                            let j1 = if j < i { j } else { j - 1 };
                            assert(new_self.entries@[j1].0@ == q);
                        }
                    }
                    assert forall|q: Seq<char>| #[trigger] new_self@.dom().contains(q) implies new_self@[q]
                        == old_self@.remove(k)[q] by {
                        let j = new_self.index_of(q);
                        new_self.lemma_index(j);
                        let j2 = if j < i { j } else { j + 1 };
                        old_self.lemma_index(j2);
                    }
                    assert(new_self@ =~= old_self@.remove(k));
                }
                Some(v)
            },
        }
    }
}

} // verus!
