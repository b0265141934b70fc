//! A small table keyed by texts.

use vstd::prelude::*;
use vstd::string::*;

verus! {

/// A table from texts to values in which no text stands twice.
pub struct Table<V> {
    keys: Vec<String>,
    values: Vec<V>,
}

/// `i` is the place of `key` among the keys.
pub open spec fn is_place_of(keys: Seq<String>, key: Seq<char>, i: int) -> bool {
    0 <= i < keys.len() && keys[i]@ == key
}

/// `key` stands among the keys.
pub open spec fn has_key(keys: Seq<String>, key: Seq<char>) -> bool {
    exists|i: int| is_place_of(keys, key, i)
}

/// The place of `key` among the keys.
pub open spec fn place_of(keys: Seq<String>, key: Seq<char>) -> int {
    choose|i: int| is_place_of(keys, key, i)
}

/// No text stands twice among the keys.
pub open spec fn distinct_keys(keys: Seq<String>) -> bool {
    forall|i: int, j: int|
        0 <= i < keys.len() && 0 <= j < keys.len() && i != j ==> keys[i]@ != keys[j]@
}

/// Among distinct keys a key has one place.
pub proof fn lemma_place_unique(keys: Seq<String>, key: Seq<char>, i: int)
    requires
        distinct_keys(keys),
        is_place_of(keys, key, i),
    ensures
        place_of(keys, key) == i,
        has_key(keys, key),
{
    let j = place_of(keys, key);
    assert(is_place_of(keys, key, j));
    if i != j {
        assert(keys[i]@ != keys[j]@);
    }
}

impl<V> Table<V> {
    /// The table holds a value for each key, and no key twice.
    pub closed spec fn wf(&self) -> bool {
        self.keys.len() == self.values.len() && distinct_keys(self.keys@)
    }

    /// The table as a map from texts to values.
    pub closed spec fn view(&self) -> Map<Seq<char>, V> {
        Map::new(
            |k: Seq<char>| has_key(self.keys@, k),
            |k: Seq<char>| self.values@[place_of(self.keys@, k)],
        )
    }

    /// The values in the order in which the table holds them.
    pub closed spec fn listed(&self) -> Seq<V> {
        self.values@
    }

    /// A table without entries.
    pub fn new() -> (t: Table<V>)
        ensures
            t.wf(),
            t@ == Map::<Seq<char>, V>::empty(),
    {
        let t = Table { keys: Vec::new(), values: Vec::new() };
        assert(t@ =~= Map::<Seq<char>, V>::empty());
        t
    }

    fn position(&self, key: &str) -> (r: Option<usize>)
        requires
            self.wf(),
        ensures
            match r {
                Some(i) => is_place_of(self.keys@, key@, i as int) && place_of(self.keys@, key@)
                    == i && i < self.values.len(),
                None => !has_key(self.keys@, key@),
            },
    {
        let wanted = key.to_owned();
        let mut i: usize = 0;
        while i < self.keys.len()
            invariant
                self.wf(),
                i <= self.keys.len(),
                wanted@ == key@,
                forall|j: int| 0 <= j < i ==> self.keys@[j]@ != key@,
            decreases self.keys.len() - i,
        {
            if self.keys[i] == wanted {
                proof {
                    lemma_place_unique(self.keys@, key@, i as int);
                }
                return Some(i);
            }
            i += 1;
        }
        None
    }

    /// The number of entries.
    pub fn len(&self) -> (n: usize)
        requires
            self.wf(),
        ensures
            n == self.listed().len(),
    {
        self.values.len()
    }

    /// Whether the table holds a value for the key.
    pub fn contains_key(&self, key: &str) -> (r: bool)
        requires
            self.wf(),
        ensures
            r == self@.dom().contains(key@),
    {
        self.position(key).is_some()
    }

    /// The value for the key.
    pub fn get(&self, key: &str) -> (r: Option<&V>)
        requires
            self.wf(),
        ensures
            match r {
                Some(v) => self@.dom().contains(key@) && *v == self@[key@],
                None => !self@.dom().contains(key@),
            },
    {
        match self.position(key) {
            Some(i) => Some(&self.values[i]),
            None => None,
        }
    }

    /// The value at a place in the table's own order.
    pub fn value_at(&self, i: usize) -> (v: &V)
        requires
            self.wf(),
            i < self.listed().len(),
        ensures
            *v == self.listed()[i as int],
    {
        &self.values[i]
    }

    /// The keys in the order in which the table holds them.
    pub closed spec fn listed_keys(&self) -> Seq<Seq<char>> {
        self.keys@.map_values(|k: String| k@)
    }

    /// The table's own order lists each entry of the map once: the keys are
    /// distinct, each listed value is the value of the key listed at its
    /// place, and each key of the map is listed.
    pub proof fn lemma_listed_values(&self)
        requires
            self.wf(),
        ensures
            self.listed_keys().len() == self.listed().len(),
            self.listed_keys().no_duplicates(),
            forall|i: int|
                0 <= i < self.listed().len() ==> self@.dom().contains(
                    #[trigger] self.listed_keys()[i],
                ) && self@[self.listed_keys()[i]] == self.listed()[i],
            forall|k: Seq<char>| #[trigger]
                self@.dom().contains(k) ==> self.listed_keys().contains(k),
    {
        assert forall|i: int| 0 <= i < self.listed().len() implies self@.dom().contains(
            #[trigger] self.listed_keys()[i],
        ) && self@[self.listed_keys()[i]] == self.listed()[i] by {
            let k = self.keys@[i]@;
            lemma_place_unique(self.keys@, k, i);
        }
        assert forall|k: Seq<char>| #[trigger] self@.dom().contains(k) implies self.listed_keys().contains(
            k,
        ) by {
            let i = place_of(self.keys@, k);
            assert(is_place_of(self.keys@, k, i));
            assert(self.listed_keys()[i] == k);
        }
    }

    /// Puts a value under a key, in place of the value that the key had.
    pub fn insert(&mut self, key: String, value: V)
        requires
            old(self).wf(),
        ensures
            final(self).wf(),
            final(self)@ == old(self)@.insert(key@, value),
    {
        let ghost before = *self;
        match self.position(key.as_str()) {
            Some(i) => {
                self.values.set(i, value);
                assert(self@ =~= before@.insert(key@, value)) by {
                    assert forall|k: Seq<char>| has_key(self.keys@, k) implies #[trigger] self@[k]
                        == before@.insert(key@, value)[k] by {
                        if k != key@ {
                            assert(place_of(self.keys@, k) != i);
                        }
                    }
                }
            },
            None => {
                self.keys.push(key);
                self.values.push(value);
                let ghost n = before.keys@.len() as int;
                assert(is_place_of(self.keys@, key@, n));
                assert(distinct_keys(self.keys@)) by {
                    assert forall|a: int, b: int|
                        0 <= a < self.keys@.len() && 0 <= b < self.keys@.len() && a
                            != b implies self.keys@[a]@ != self.keys@[b]@ by {
                        if a < n && b < n {
                            assert(self.keys@[a] == before.keys@[a]);
                            assert(self.keys@[b] == before.keys@[b]);
                        } else if a < n {
                            assert(!is_place_of(before.keys@, key@, a));
                        } else {
                            assert(!is_place_of(before.keys@, key@, b));
                        }
                    }
                }
                assert(self@ =~= before@.insert(key@, value)) by {
                    assert forall|k: Seq<char>| has_key(self.keys@, k) == (has_key(
                        before.keys@,
                        k,
                    ) || k == key@) by {
                        if has_key(self.keys@, k) {
                            let i = place_of(self.keys@, k);
                            if i < n {
                                assert(is_place_of(before.keys@, k, i));
                            }
                        }
                        if has_key(before.keys@, k) {
                            let i = place_of(before.keys@, k);
                            assert(is_place_of(self.keys@, k, i));
                        }
                    }
                    assert forall|k: Seq<char>| has_key(self.keys@, k) implies #[trigger] self@[k]
                        == before@.insert(key@, value)[k] by {
                        let i = place_of(self.keys@, k);
                        if k == key@ {
                            assert(i == n);
                        } else {
                            assert(i < n);
                            assert(is_place_of(before.keys@, k, i));
                            let j = place_of(before.keys@, k);
                            assert(is_place_of(before.keys@, k, j));
                            assert(i == j);
                        }
                    }
                }
            },
        }
    }

    /// Takes the entry of a key out of the table.
    pub fn remove(&mut self, key: &str) -> (r: Option<V>)
        requires
            old(self).wf(),
        ensures
            final(self).wf(),
            final(self)@ == old(self)@.remove(key@),
            match r {
                Some(v) => old(self)@.dom().contains(key@) && v == old(self)@[key@],
                None => !old(self)@.dom().contains(key@),
            },
    {
        let ghost before = *self;
        match self.position(key) {
            Some(i) => {
                self.keys.remove(i);
                let v = self.values.remove(i);
                assert(distinct_keys(self.keys@)) by {
                    assert forall|a: int, b: int|
                        0 <= a < self.keys@.len() && 0 <= b < self.keys@.len() && a
                            != b implies self.keys@[a]@ != self.keys@[b]@ by {
                        let a0 = if a < i { a } else { a + 1 };
                        let b0 = if b < i { b } else { b + 1 };
                        assert(self.keys@[a] == before.keys@[a0]);
                        assert(self.keys@[b] == before.keys@[b0]);
                    }
                }
                assert(self@ =~= before@.remove(key@)) by {
                    assert forall|k: Seq<char>| has_key(self.keys@, k) == (has_key(
                        before.keys@,
                        k,
                    ) && k != key@) by {
                        if has_key(self.keys@, k) {
                            let a = place_of(self.keys@, k);
                            let a0 = if a < i { a } else { a + 1 };
                            assert(self.keys@[a] == before.keys@[a0]);
                            assert(is_place_of(before.keys@, k, a0));
                        }
                        if has_key(before.keys@, k) && k != key@ {
                            let a0 = place_of(before.keys@, k);
                            let a = if a0 < i { a0 } else { a0 - 1 };
                            assert(self.keys@[a] == before.keys@[a0]);
                            assert(is_place_of(self.keys@, k, a));
                        }
                    }
                    assert forall|k: Seq<char>| has_key(self.keys@, k) implies #[trigger] self@[k]
                        == before@.remove(key@)[k] by {
                        let a = place_of(self.keys@, k);
                        let a0 = if a < i { a } else { a + 1 };
                        assert(self.keys@[a] == before.keys@[a0]);
                        assert(is_place_of(before.keys@, k, a0));
                        let j = place_of(before.keys@, k);
                        assert(is_place_of(before.keys@, k, j));
                        assert(j == a0);
                        assert(self.values@[a] == before.values@[a0]);
                    }
                }
                Some(v)
            },
            None => {
                assert(self@ =~= before@.remove(key@));
                None
            },
        }
    }
}

} // verus!
