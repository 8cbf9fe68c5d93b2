//! A map from string keys to values, held as a list of distinct keys.
use vstd::prelude::*;

verus! {

/// A map from `String` keys to values of type `V`.
///
/// Its view is a `Map` from the keys' characters to the values; no key is
/// held twice.
pub struct StrMap<V> {
    entries: Vec<(String, V)>,
    contents: Ghost<Map<Seq<char>, V>>,
}

impl<V> StrMap<V> {
    #[verifier::type_invariant]
    closed spec fn inv(self) -> bool {
        Self::wf_parts(self.entries@, self.contents@)
    }

    closed spec fn wf_parts(e: Seq<(String, V)>, m: Map<Seq<char>, V>) -> bool {
        &&& forall|i: int, j: int|
            0 <= i < e.len() && 0 <= j < e.len() && i != j ==> #[trigger] e[i].0@ != #[trigger] e[j].0@
        &&& forall|i: int|
            0 <= i < e.len() ==> m.contains_key(#[trigger] e[i].0@) && m[e[i].0@] == e[i].1
        &&& forall|k: Seq<char>|
            #[trigger] m.contains_key(k) ==> exists|i: int| 0 <= i < e.len() && e[i].0@ == k
        &&& m.dom().finite()
        &&& m.dom().len() == e.len()
    }

    /// The key-value pairs, as a map from the keys' characters.
    pub closed spec fn view(&self) -> Map<Seq<char>, V> {
        self.contents@
    }

    /// An empty map.
    pub fn new() -> (r: Self)
        ensures
            r@ == Map::<Seq<char>, V>::empty(),
    {
        StrMap { entries: Vec::new(), contents: Ghost(Map::empty()) }
    }

    /// The position of `key` among the entries, if it is held.
    fn find(&self, key: &str) -> (r: Option<usize>)
        ensures
            match r {
                Some(i) => i < self.entries@.len() && self.entries@[i as int].0@ == key@,
                None => !self@.contains_key(key@),
            },
    {
        proof {
            use_type_invariant(self);
        }
        let target = key.to_owned();
        let mut i: usize = 0;
        while i < self.entries.len()
            invariant
                i <= self.entries@.len(),
                target@ == key@,
                forall|j: int| 0 <= j < i ==> self.entries@[j].0@ != key@,
            decreases self.entries.len() - i,
        {
            if self.entries[i].0 == target {
                return Some(i);
            }
            i += 1;
        }
        None
    }

    /// The value held for `key`.
    pub fn get(&self, key: &str) -> (r: Option<&V>)
        ensures
            r == (if self@.contains_key(key@) { Some(&self@[key@]) } else { None }),
    {
        proof {
            use_type_invariant(self);
        }
        match self.find(key) {
            Some(i) => Some(&self.entries[i].1),
            None => None,
        }
    }

    /// Whether `key` is held.
    pub fn contains_key(&self, key: &str) -> (r: bool)
        ensures
            r == self@.contains_key(key@),
    {
        proof {
            use_type_invariant(self);
        }
        self.find(key).is_some()
    }

    /// Holds `value` for `key`, replacing what was held for it.
    pub fn insert(&mut self, key: String, value: V)
        ensures
            final(self)@ == old(self)@.insert(key@, value),
    {
        proof {
            use_type_invariant(&*self);
        }
        let ghost k = key@;
        let ghost e0 = self.entries@;
        let ghost m0 = self.contents@;
        match self.find(key.as_str()) {
            Some(i) => {
                let ghost new_m = m0.insert(k, value);
                proof {
                    assert(m0.contains_key(k));
                    assert(new_m.dom() =~= m0.dom());
                }
                let mut entries = self.take_entries();
                entries.set(i, (key, value));
                proof {
                    let e = entries@;
                    assert forall|j: int| 0 <= j < e.len() implies new_m.contains_key(
                        #[trigger] e[j].0@,
                    ) && new_m[e[j].0@] == e[j].1 by {
                        if j != i {
                            assert(e[j] == e0[j]);
                        }
                    }
                    assert forall|q: Seq<char>| #[trigger] new_m.contains_key(q) implies exists|
                        j: int,
                    | 0 <= j < e.len() && e[j].0@ == q by {
                        if q != k {
                            let j = choose|j: int| 0 <= j < e0.len() && e0[j].0@ == q;
                            assert(e[j] == e0[j]);
                        } else {
                            assert(e[i as int].0@ == q);
                        }
                    }
                    assert forall|a: int, b: int|
                        0 <= a < e.len() && 0 <= b < e.len() && a != b implies #[trigger] e[a].0@
                        != #[trigger] e[b].0@ by {
                        if a != i && b != i {
                            assert(e[a] == e0[a] && e[b] == e0[b]);
                        } else if a == i {
                            assert(e[b] == e0[b]);
                            assert(e0[i as int].0@ == k);
                        } else {
                            assert(e[a] == e0[a]);
                            assert(e0[i as int].0@ == k);
                        }
                    }
                }
                assert(Self::wf_parts(entries@, new_m));
                *self = StrMap { entries, contents: Ghost(new_m) };
            },
            None => {
                let ghost new_m = m0.insert(k, value);
                let mut entries = self.take_entries();
                entries.push((key, value));
                proof {
                    let e = entries@;
                    assert(new_m.dom() =~= m0.dom().insert(k));
                    assert forall|j: int| 0 <= j < e.len() implies new_m.contains_key(
                        #[trigger] e[j].0@,
                    ) && new_m[e[j].0@] == e[j].1 by {
                        if j < e0.len() {
                            assert(e[j] == e0[j]);
                            assert(e0[j].0@ != k);
                        }
                    }
                    assert forall|q: Seq<char>| #[trigger] new_m.contains_key(q) implies exists|
                        j: int,
                    | 0 <= j < e.len() && e[j].0@ == q by {
                        if q != k {
                            let j = choose|j: int| 0 <= j < e0.len() && e0[j].0@ == q;
                            assert(e[j] == e0[j]);
                        } else {
                            assert(e[e0.len() as int].0@ == q);
                        }
                    }
                    assert forall|a: int, b: int|
                        0 <= a < e.len() && 0 <= b < e.len() && a != b implies #[trigger] e[a].0@
                        != #[trigger] e[b].0@ by {
                        if a < e0.len() && b < e0.len() {
                            assert(e[a] == e0[a] && e[b] == e0[b]);
                        } else if a < e0.len() {
                            assert(e[a] == e0[a]);
                            assert(m0.contains_key(e0[a].0@));
                        } else {
                            assert(e[b] == e0[b]);
                            assert(m0.contains_key(e0[b].0@));
                        }
                    }
                }
                assert(Self::wf_parts(entries@, new_m));
                *self = StrMap { entries, contents: Ghost(new_m) };
            },
        }
    }

    /// Empties the map, giving back its entries.
    fn take_entries(&mut self) -> (r: Vec<(String, V)>)
        ensures
            r@ == old(self).entries@,
            final(self)@ == Map::<Seq<char>, V>::empty(),
    {
        let mut tmp = StrMap::new();
        std::mem::swap(self, &mut tmp);
        let StrMap { entries, contents: _ } = tmp;
        entries
    }

    /// Removes `key`, giving back the value held for it.
    pub fn remove(&mut self, key: &str) -> (r: Option<V>)
        ensures
            final(self)@ == old(self)@.remove(key@),
            r == (if old(self)@.contains_key(key@) { Some(old(self)@[key@]) } else { None }),
    {
        proof {
            use_type_invariant(&*self);
        }
        let ghost k = key@;
        let ghost e0 = self.entries@;
        let ghost m0 = self.contents@;
        match self.find(key) {
            None => {
                assert(m0.remove(k) =~= m0);
                None
            },
            Some(i) => {
                let ghost new_m = m0.remove(k);
                let mut entries = self.take_entries();
                let (_, v) = entries.remove(i);
                proof {
                    let e = entries@;
                    assert(m0.contains_key(k));
                    assert forall|j: int| 0 <= j < e.len() implies new_m.contains_key(
                        #[trigger] e[j].0@,
                    ) && new_m[e[j].0@] == e[j].1 by {
                        if j < i {
                            assert(e[j] == e0[j]);
                        } else {
                            assert(e[j] == e0[j + 1]);
                        }
                    }
                    assert forall|q: Seq<char>| #[trigger] new_m.contains_key(q) implies exists|
                        j: int,
                    | 0 <= j < e.len() && e[j].0@ == q by {
                        let j = choose|j: int| 0 <= j < e0.len() && e0[j].0@ == q;
                        assert(j != i);
                        if j < i {
                            assert(e[j] == e0[j]);
                        } else {
                            assert(e[j - 1] == e0[j]);
                        }
                    }
                    assert forall|a: int, b: int|
                        0 <= a < e.len() && 0 <= b < e.len() && a != b implies #[trigger] e[a].0@
                        != #[trigger] e[b].0@ by {
                        let a0 = if a < i { a } else { a + 1 };
                        let b0 = if b < i { b } else { b + 1 };
                        assert(e[a] == e0[a0] && e[b] == e0[b0]);
                    }
                }
                assert(Self::wf_parts(entries@, new_m));
                *self = StrMap { entries, contents: Ghost(new_m) };
                Some(v)
            },
        }
    }

    /// Whether nothing is held.
    pub fn is_empty(&self) -> (r: bool)
        ensures
            r == (self@.dom().len() == 0),
    {
        proof {
            use_type_invariant(self);
        }
        self.entries.len() == 0
    }

    /// The number of keys held.
    pub fn len(&self) -> (r: usize)
        ensures
            r == self@.dom().len(),
    {
        proof {
            use_type_invariant(self);
        }
        self.entries.len()
    }

    /// All keys held, each once.
    pub fn keys(&self) -> (r: Vec<String>)
        ensures
            r@.len() == self@.dom().len(),
            forall|i: int| 0 <= i < r@.len() ==> self@.contains_key(#[trigger] r@[i]@),
            forall|k: Seq<char>| #[trigger] self@.contains_key(k) ==> exists|i: int| 0 <= i < r@.len() && r@[i]@ == k,
            forall|i: int, j: int|
                0 <= i < r@.len() && 0 <= j < r@.len() && i != j ==> #[trigger] r@[i]@ != #[trigger] r@[j]@,
    {
        proof {
            use_type_invariant(self);
        }
        let mut r: Vec<String> = Vec::new();
        let mut i: usize = 0;
        while i < self.entries.len()
            invariant
                i <= self.entries@.len(),
                r@.len() == i,
                forall|j: int| 0 <= j < i ==> #[trigger] r@[j]@ == self.entries@[j].0@,
            decreases self.entries.len() - i,
        {
            r.push(self.entries[i].0.clone());
            i += 1;
        }
        proof {
            let e = self.entries@;
            assert forall|k: Seq<char>| #[trigger] self@.contains_key(k) implies exists|j: int|
                0 <= j < r@.len() && r@[j]@ == k by {
                let j = choose|j: int| 0 <= j < e.len() && e[j].0@ == k;
                assert(r@[j]@ == k);
            }
            assert forall|a: int, b: int|
                0 <= a < r@.len() && 0 <= b < r@.len() && a != b implies #[trigger] r@[a]@
                != #[trigger] r@[b]@ by {
                assert(r@[a]@ == e[a].0@ && r@[b]@ == e[b].0@);
            }
            assert forall|a: int| 0 <= a < r@.len() implies self@.contains_key(#[trigger] r@[a]@) by {
                assert(r@[a]@ == e[a].0@);
            }
        }
        r
    }
}

impl<V: Clone> StrMap<V> {
    /// A copy of the map, each value cloned.
    pub fn clone_map(&self) -> (r: Self)
        ensures
            r@.dom() == self@.dom(),
            forall|k: Seq<char>| #[trigger] self@.contains_key(k) ==> vstd::pervasive::cloned(self@[k], r@[k]),
    {
        proof {
            use_type_invariant(self);
        }
        let mut entries: Vec<(String, V)> = Vec::new();
        let mut i: usize = 0;
        let ghost mut m: Map<Seq<char>, V> = Map::empty();
        while i < self.entries.len()
            invariant
                i <= self.entries@.len(),
                entries@.len() == i,
                forall|j: int| 0 <= j < i ==> #[trigger] entries@[j].0@ == self.entries@[j].0@
                    && vstd::pervasive::cloned(self.entries@[j].1, entries@[j].1),
            decreases self.entries.len() - i,
        {
            let v = self.entries[i].1.clone();
            entries.push((self.entries[i].0.clone(), v));
            i += 1;
        }
        let ghost e = entries@;
        let ghost e0 = self.entries@;
        let ghost cm = Map::new(
            |k: Seq<char>| self@.contains_key(k),
            |k: Seq<char>| e[choose|j: int| 0 <= j < e.len() && e[j].0@ == k].1,
        );
        proof {
            assert(cm.dom() =~= self@.dom());
            assert forall|j: int| 0 <= j < e.len() implies cm.contains_key(#[trigger] e[j].0@)
                && cm[e[j].0@] == e[j].1 by {
                assert(e[j].0@ == e0[j].0@);
                let c = choose|c: int| 0 <= c < e.len() && e[c].0@ == e[j].0@;
                assert(e[c].0@ == e0[c].0@);
                if c != j {
                    assert(e0[c].0@ != e0[j].0@);
                }
            }
            assert forall|q: Seq<char>| #[trigger] cm.contains_key(q) implies exists|j: int|
                0 <= j < e.len() && e[j].0@ == q by {
                let j = choose|j: int| 0 <= j < e0.len() && e0[j].0@ == q;
                assert(e[j].0@ == q);
            }
            assert forall|a: int, b: int|
                0 <= a < e.len() && 0 <= b < e.len() && a != b implies #[trigger] e[a].0@
                != #[trigger] e[b].0@ by {
                assert(e[a].0@ == e0[a].0@ && e[b].0@ == e0[b].0@);
            }
            assert forall|k: Seq<char>| #[trigger] self@.contains_key(k) implies vstd::pervasive::cloned(
                self@[k],
                cm[k],
            ) by {
                let j = choose|j: int| 0 <= j < e0.len() && e0[j].0@ == k;
                assert(e[j].0@ == k);
                assert(cm.contains_key(e[j].0@));
            }
        }
        assert(Self::wf_parts(entries@, cm));
        StrMap { entries, contents: Ghost(cm) }
    }
}

} // verus!
