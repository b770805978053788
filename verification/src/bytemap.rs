//! A storage map keyed by byte strings (encoded storage keys).
use vstd::prelude::*;

verus! {

/// Whether two byte strings are equal.
pub fn bytes_equal(a: &[u8], b: &[u8]) -> (r: bool)
    ensures
        r == (a@ == b@),
{
    if a.len() != b.len() {
        return false;
    }
    let mut i: usize = 0;
    while i < a.len()
        invariant
            a@.len() == b@.len(),
            i <= a@.len(),
            forall|k: int| 0 <= k < i ==> a@[k] == b@[k],
        decreases a.len() - i,
    {
        if a[i] != b[i] {
            return false;
        }
        i = i + 1;
    }
    assert(a@ =~= b@);
    true
}

/// Copies a byte string.
pub fn copy_bytes(v: &Vec<u8>) -> (r: Vec<u8>)
    ensures
        r@ == v@,
{
    let mut r: Vec<u8> = Vec::new();
    let mut i: usize = 0;
    while i < v.len()
        invariant
            i <= v.len(),
            r@ == v@.subrange(0, i as int),
        decreases v.len() - i,
    {
        r.push(v[i]);
        i = i + 1;
    }
    r
}

/// Mapping values commutes with inserting an entry.
pub proof fn lemma_map_values_insert<K, V, W>(m: Map<K, V>, k: K, v: V, f: spec_fn(V) -> W)
    ensures
        m.insert(k, v).map_values(f) == m.map_values(f).insert(k, f(v)),
{
    assert(m.insert(k, v).map_values(f) =~= m.map_values(f).insert(k, f(v)));
}

/// Mapping values commutes with removing an entry.
pub proof fn lemma_map_values_remove<K, V, W>(m: Map<K, V>, k: K, f: spec_fn(V) -> W)
    ensures
        m.remove(k).map_values(f) == m.map_values(f).remove(k),
{
    assert(m.remove(k).map_values(f) =~= m.map_values(f).remove(k));
}

/// Mapping a sequence commutes with pushing an element.
pub proof fn lemma_seq_map_values_push<V, W>(s: Seq<V>, v: V, f: spec_fn(V) -> W)
    ensures
        s.push(v).map_values(f) == s.map_values(f).push(f(v)),
{
    assert(s.push(v).map_values(f) =~= s.map_values(f).push(f(v)));
}

/// Mapping a sequence commutes with removing an element.
pub proof fn lemma_seq_map_values_remove<V, W>(s: Seq<V>, i: int, f: spec_fn(V) -> W)
    requires
        0 <= i < s.len(),
    ensures
        s.remove(i).map_values(f) == s.map_values(f).remove(i),
{
    assert(s.remove(i).map_values(f) =~= s.map_values(f).remove(i));
}

/// Entries keyed by byte strings, each key at most once.
pub struct ByteMap<V> {
    entries: Vec<(Vec<u8>, V)>,
}

/// Whether entry `i` of `e` has key `k`.
pub open spec fn has_key_at<V>(e: Seq<(Vec<u8>, V)>, i: int, k: Seq<u8>) -> bool {
    0 <= i < e.len() && e[i].0@ == k
}

impl<V> ByteMap<V> {
    #[verifier::type_invariant]
    closed spec fn keys_unique(self) -> bool {
        forall|i: int, j: int|
            0 <= i < self.entries@.len() && 0 <= j < self.entries@.len() && i != j
                ==> #[trigger] self.entries@[i].0@ != #[trigger] self.entries@[j].0@
    }

    closed spec fn index_of(self, k: Seq<u8>) -> int {
        choose|i: int| has_key_at(self.entries@, i, k)
    }

    /// The map from keys to values.
    pub closed spec fn view(self) -> Map<Seq<u8>, V> {
        Map::new(
            |k: Seq<u8>| exists|i: int| has_key_at(self.entries@, i, k),
            |k: Seq<u8>| self.entries@[self.index_of(k)].1,
        )
    }

    proof fn lemma_at(self, i: int)
        requires
            self.keys_unique(),
            0 <= i < self.entries@.len(),
        ensures
            self.view().contains_key(self.entries@[i].0@),
            self.view()[self.entries@[i].0@] == self.entries@[i].1,
            self.index_of(self.entries@[i].0@) == i,
    {
        let k = self.entries@[i].0@;
        assert(has_key_at(self.entries@, i, k));
        let j = self.index_of(k);
        if j != i {
            assert(self.entries@[i].0@ != self.entries@[j].0@);
        }
    }

    /// An empty map.
    pub fn new() -> (r: ByteMap<V>)
        ensures
            r.view() == Map::<Seq<u8>, V>::empty(),
    {
        let r = ByteMap { entries: Vec::new() };
        assert(r.view() =~= Map::<Seq<u8>, V>::empty());
        r
    }

    fn find(&self, k: &[u8]) -> (r: Option<usize>)
        ensures
            match r {
                Some(i) => i < self.entries@.len() && self.entries@[i as int].0@ == k@,
                None => !self.view().contains_key(k@),
            },
    {
        let mut i: usize = 0;
        while i < self.entries.len()
            invariant
                i <= self.entries@.len(),
                forall|j: int| 0 <= j < i ==> self.entries@[j].0@ != k@,
            decreases self.entries.len() - i,
        {
            if bytes_equal(self.entries[i].0.as_slice(), k) {
                return Some(i);
            }
            i = i + 1;
        }
        None
    }

    /// Whether `k` has an entry.
    pub fn contains_key(&self, k: &[u8]) -> (r: bool)
        ensures
            r == self.view().contains_key(k@),
    {
        proof { use_type_invariant(self); }
        match self.find(k) {
            Some(i) => {
                proof { self.lemma_at(i as int); }
                true
            },
            None => false,
        }
    }

    /// The value under `k`, if any.
    pub fn get(&self, k: &[u8]) -> (r: Option<&V>)
        ensures
            match r {
                Some(v) => self.view().contains_key(k@) && *v == self.view()[k@],
                None => !self.view().contains_key(k@),
            },
    {
        proof { use_type_invariant(self); }
        match self.find(k) {
            Some(i) => {
                proof { self.lemma_at(i as int); }
                Some(&self.entries[i].1)
            },
            None => None,
        }
    }

    /// Stores `v` under `k`.
    pub fn insert(&mut self, k: Vec<u8>, v: V)
        ensures
            final(self).view() == old(self).view().insert(k@, v),
    {
        proof { use_type_invariant(&*self); }
        let ghost old_self = *self;
        match self.find(k.as_slice()) {
            Some(i) => {
                let ghost kk = k@;
                let mut entries: Vec<(Vec<u8>, V)> = Vec::new();
                std::mem::swap(&mut entries, &mut self.entries);
                entries.set(i, (k, v));
                proof {
                    assert forall|a: int, b: int|
                        0 <= a < entries@.len() && 0 <= b < entries@.len() && a != b
                        implies #[trigger] entries@[a].0@ != #[trigger] entries@[b].0@ by {
                        assert(old_self.entries@[a].0@ != old_self.entries@[b].0@);
                    }
                }
                self.entries = entries;
                proof {
                    assert forall|j: int| 0 <= j < self.entries@.len() && j != i
                        implies self.entries@[j] == old_self.entries@[j] by {}
                    assert(self.keys_unique()) by {
                        assert forall|a: int, b: int|
                            0 <= a < self.entries@.len() && 0 <= b < self.entries@.len() && a != b
                            implies #[trigger] self.entries@[a].0@ != #[trigger] self.entries@[b].0@ by {
                            assert(old_self.entries@[a].0@ != old_self.entries@[b].0@);
                        }
                    }
                    assert forall|k2: Seq<u8>| #[trigger] self.view().contains_key(k2)
                        == old_self.view().insert(kk, v).contains_key(k2) by {
                        if self.view().contains_key(k2) {
                            let j = choose|j: int| has_key_at(self.entries@, j, k2);
                            if j != i {
                                assert(has_key_at(old_self.entries@, j, k2));
                            }
                        }
                        if old_self.view().contains_key(k2) {
                            let j = choose|j: int| has_key_at(old_self.entries@, j, k2);
                            assert(has_key_at(self.entries@, j, k2));
                        }
                        if k2 == kk {
                            assert(has_key_at(self.entries@, i as int, k2));
                        }
                    }
                    assert forall|k2: Seq<u8>| #[trigger] self.view().contains_key(k2)
                        implies self.view()[k2] == old_self.view().insert(kk, v)[k2] by {
                        let j = choose|j: int| has_key_at(self.entries@, j, k2);
                        self.lemma_at(j);
                        if j != i {
                            old_self.lemma_at(j);
                        }
                    }
                    assert(self.view() =~= old_self.view().insert(kk, v));
                }
            },
            None => {
                let ghost kk = k@;
                let mut entries: Vec<(Vec<u8>, V)> = Vec::new();
                std::mem::swap(&mut entries, &mut self.entries);
                entries.push((k, v));
                proof {
                    let n = old_self.entries@.len() as int;
                    assert forall|a: int, b: int|
                        0 <= a < entries@.len() && 0 <= b < entries@.len() && a != b
                        implies #[trigger] entries@[a].0@ != #[trigger] entries@[b].0@ by {
                        if a == n {
                            assert(!has_key_at(old_self.entries@, b, kk));
                        } else if b == n {
                            assert(!has_key_at(old_self.entries@, a, kk));
                        } else {
                            assert(old_self.entries@[a].0@ != old_self.entries@[b].0@);
                        }
                    }
                }
                self.entries = entries;
                proof {
                    let n = old_self.entries@.len() as int;
                    assert(self.keys_unique()) by {
                        assert forall|a: int, b: int|
                            0 <= a < self.entries@.len() && 0 <= b < self.entries@.len() && a != b
                            implies #[trigger] self.entries@[a].0@ != #[trigger] self.entries@[b].0@ by {
                            if a == n {
                                assert(!has_key_at(old_self.entries@, b, kk));
                            } else if b == n {
                                assert(!has_key_at(old_self.entries@, a, kk));
                            } else {
                                assert(old_self.entries@[a].0@ != old_self.entries@[b].0@);
                            }
                        }
                    }
                    assert forall|k2: Seq<u8>| #[trigger] self.view().contains_key(k2)
                        == old_self.view().insert(kk, v).contains_key(k2) by {
                        if self.view().contains_key(k2) {
                            let j = choose|j: int| has_key_at(self.entries@, j, k2);
                            if j != n {
                                assert(has_key_at(old_self.entries@, j, k2));
                            }
                        }
                        if old_self.view().contains_key(k2) {
                            let j = choose|j: int| has_key_at(old_self.entries@, j, k2);
                            assert(has_key_at(self.entries@, j, k2));
                        }
                        if k2 == kk {
                            assert(has_key_at(self.entries@, n, k2));
                        }
                    }
                    assert forall|k2: Seq<u8>| #[trigger] self.view().contains_key(k2)
                        implies self.view()[k2] == old_self.view().insert(kk, v)[k2] by {
                        let j = choose|j: int| has_key_at(self.entries@, j, k2);
                        self.lemma_at(j);
                        if j != n {
                            old_self.lemma_at(j);
                        }
                    }
                    assert(self.view() =~= old_self.view().insert(kk, v));
                }
            },
        }
    }

    /// Removes the entry under `k`, if any.
    pub fn remove(&mut self, k: &[u8])
        ensures
            final(self).view() == old(self).view().remove(k@),
    {
        proof { use_type_invariant(&*self); }
        let ghost old_self = *self;
        match self.find(k) {
            Some(i) => {
                let mut entries: Vec<(Vec<u8>, V)> = Vec::new();
                std::mem::swap(&mut entries, &mut self.entries);
                entries.remove(i);
                proof {
                    let ii = i as int;
                    assert forall|a: int, b: int|
                        0 <= a < entries@.len() && 0 <= b < entries@.len() && a != b
                        implies #[trigger] entries@[a].0@ != #[trigger] entries@[b].0@ by {
                        let a0 = if a < ii { a } else { a + 1 };
                        let b0 = if b < ii { b } else { b + 1 };
                        assert(entries@[a] == old_self.entries@[a0]);
                        assert(entries@[b] == old_self.entries@[b0]);
                        assert(old_self.entries@[a0].0@ != old_self.entries@[b0].0@);
                    }
                }
                self.entries = entries;
                proof {
                    let ii = i as int;
                    assert forall|j: int| 0 <= j < self.entries@.len()
                        implies #[trigger] self.entries@[j] == old_self.entries@[if j < ii { j } else { j + 1 }] by {}
                    assert(self.keys_unique()) by {
                        assert forall|a: int, b: int|
                            0 <= a < self.entries@.len() && 0 <= b < self.entries@.len() && a != b
                            implies #[trigger] self.entries@[a].0@ != #[trigger] self.entries@[b].0@ by {
                            let a0 = if a < ii { a } else { a + 1 };
                            let b0 = if b < ii { b } else { b + 1 };
                            assert(self.entries@[a] == old_self.entries@[a0]);
                            assert(self.entries@[b] == old_self.entries@[b0]);
                            assert(old_self.entries@[a0].0@ != old_self.entries@[b0].0@);
                        }
                    }
                    assert forall|k2: Seq<u8>| #[trigger] self.view().contains_key(k2)
                        == old_self.view().remove(k@).contains_key(k2) by {
                        if self.view().contains_key(k2) {
                            let j = choose|j: int| has_key_at(self.entries@, j, k2);
                            let j0 = if j < ii { j } else { j + 1 };
                            assert(self.entries@[j] == old_self.entries@[j0]);
                            assert(has_key_at(old_self.entries@, j0, k2));
                            assert(old_self.entries@[j0].0@ != old_self.entries@[ii].0@);
                        }
                        if old_self.view().contains_key(k2) && k2 != k@ {
                            let j0 = choose|j: int| has_key_at(old_self.entries@, j, k2);
                            let j = if j0 < ii { j0 } else { j0 - 1 };
                            assert(j0 != ii);
                            assert(self.entries@[j] == old_self.entries@[j0]);
                            assert(has_key_at(self.entries@, j, k2));
                        }
                    }
                    assert forall|k2: Seq<u8>| #[trigger] self.view().contains_key(k2)
                        implies self.view()[k2] == old_self.view().remove(k@)[k2] by {
                        let j = choose|j: int| has_key_at(self.entries@, j, k2);
                        self.lemma_at(j);
                        let j0 = if j < ii { j } else { j + 1 };
                        assert(self.entries@[j] == old_self.entries@[j0]);
                        old_self.lemma_at(j0);
                    }
                    assert(self.view() =~= old_self.view().remove(k@));
                }
            },
            None => {
                proof {
                    assert(old_self.view().remove(k@) =~= old_self.view());
                }
            },
        }
    }
}

impl ByteMap<[u8; 16]> {
    /// Whether some entry holds the 16-byte value `v`.
    pub fn has_value(&self, v: &[u8; 16]) -> (r: bool)
        ensures
            r == exists|k: Seq<u8>| #[trigger] self.view().contains_key(k) && self.view()[k]@ == v@,
    {
        proof { use_type_invariant(self); }
        let mut i: usize = 0;
        while i < self.entries.len()
            invariant
                i <= self.entries@.len(),
                self.keys_unique(),
                forall|j: int| 0 <= j < i ==> self.entries@[j].1@ != v@,
            decreases self.entries.len() - i,
        {
            if bytes_equal(self.entries[i].1.as_slice(), v.as_slice()) {
                proof {
                    self.lemma_at(i as int);
                    let k = self.entries@[i as int].0@;
                    assert(self.view().contains_key(k) && self.view()[k]@ == v@);
                }
                return true;
            }
            i = i + 1;
        }
        proof {
            assert forall|k: Seq<u8>| #[trigger] self.view().contains_key(k) implies self.view()[k]@ != v@ by {
                let j = choose|j: int| has_key_at(self.entries@, j, k);
                self.lemma_at(j);
            }
        }
        false
    }
}

} // verus!
