//! A finite map kept as a list of key/value entries with distinct keys.
//!
//! Pallet storage maps are held in these maps; a map's view is a `Map` from
//! the views of its keys to the views of its values.

use vstd::prelude::*;

verus! {

/// Keys of an `AssocMap`: compared and copied by their views.
pub trait MapKey: View + Sized {
    fn key_eq(&self, other: &Self) -> (r: bool)
        ensures
            r == (self@ == other@),
    ;

    fn key_copy(&self) -> (r: Self)
        ensures
            r@ == self@,
    ;
}

impl MapKey for u64 {
    fn key_eq(&self, other: &Self) -> (r: bool) {
        *self == *other
    }

    fn key_copy(&self) -> (r: Self) {
        *self
    }
}

impl MapKey for u32 {
    fn key_eq(&self, other: &Self) -> (r: bool) {
        *self == *other
    }

    fn key_copy(&self) -> (r: Self) {
        *self
    }
}

impl MapKey for (u32, u32) {
    fn key_eq(&self, other: &Self) -> (r: bool) {
        self.0 == other.0 && self.1 == other.1
    }

    fn key_copy(&self) -> (r: Self) {
        (self.0, self.1)
    }
}

/// Equality of two 32-byte identifiers.
pub fn id_eq(a: &[u8; 32], b: &[u8; 32]) -> (r: bool)
    ensures
        r == (a@ == b@),
{
    let mut i: usize = 0;
    while i < 32
        invariant
            0 <= i <= 32,
            a@.len() == 32,
            b@.len() == 32,
            forall|j: int| 0 <= j < i ==> a@[j] == b@[j],
        decreases 32 - i,
    {
        if a[i] != b[i] {
            return false;
        }
        i = i + 1;
    }
    assert(a@ =~= b@);
    true
}

impl MapKey for [u8; 32] {
    fn key_eq(&self, other: &Self) -> (r: bool) {
        id_eq(self, other)
    }

    fn key_copy(&self) -> (r: Self) {
        *self
    }
}

/// Values that can be copied with the same view.
pub trait CopyView: View + Sized {
    fn copy_view(&self) -> (r: Self)
        ensures
            r@ == self@,
    ;
}

impl CopyView for bool {
    fn copy_view(&self) -> (r: Self) {
        *self
    }
}

impl CopyView for u32 {
    fn copy_view(&self) -> (r: Self) {
        *self
    }
}

/// A finite map stored as a list of entries whose keys are pairwise distinct.
pub struct AssocMap<K, V> {
    entries: Vec<(K, V)>,
}

impl<K: MapKey, V: View> AssocMap<K, V> {
    /// No key occurs twice.
    pub closed spec fn wf(&self) -> bool {
        forall|i: int, j: int|
            #![trigger self.entries@[i], self.entries@[j]]
            0 <= i < self.entries@.len() && 0 <= j < self.entries@.len() && i != j
                ==> self.entries@[i].0@ != self.entries@[j].0@
    }

    spec fn has(&self, k: K::V) -> bool {
        exists|i: int| 0 <= i < self.entries@.len() && self.entries@[i].0@ == k
    }

    spec fn pos(&self, k: K::V) -> int {
        choose|i: int| 0 <= i < self.entries@.len() && self.entries@[i].0@ == k
    }

    pub closed spec fn map_view(&self) -> Map<K::V, V::V> {
        Map::new(|k: K::V| self.has(k), |k: K::V| self.entries@[self.pos(k)].1@)
    }

    proof fn lemma_pos(&self, i: int)
        requires
            self.wf(),
            0 <= i < self.entries@.len(),
        ensures
            self.has(self.entries@[i].0@),
            self.pos(self.entries@[i].0@) == i,
            self@.contains_key(self.entries@[i].0@),
            self@[self.entries@[i].0@] == self.entries@[i].1@,
    {
        let k = self.entries@[i].0@;
        assert(self.has(k));
        let j = self.pos(k);
        if j != i {
            assert(self.entries@[i].0@ != self.entries@[j].0@);
        }
    }

    /// The empty map.
    pub fn new() -> (m: Self)
        ensures
            m.wf(),
            m@ == Map::<K::V, V::V>::empty(),
    {
        let m = AssocMap { entries: Vec::new() };
        assert(m@ =~= Map::<K::V, V::V>::empty());
        m
    }

    fn find(&self, k: &K) -> (r: Option<usize>)
        requires
            self.wf(),
        ensures
            match r {
                Some(i) => i < self.entries@.len() && self.entries@[i as int].0@ == k@,
                None => !self@.contains_key(k@),
            },
    {
        let mut i: usize = 0;
        while i < self.entries.len()
            invariant
                0 <= i <= self.entries@.len(),
                forall|j: int| 0 <= j < i ==> self.entries@[j].0@ != k@,
            decreases self.entries@.len() - i,
        {
            if self.entries[i].0.key_eq(k) {
                return Some(i);
            }
            i = i + 1;
        }
        None
    }

    /// Whether the key is present.
    pub fn contains_key(&self, k: &K) -> (r: bool)
        requires
            self.wf(),
        ensures
            r == self@.contains_key(k@),
    {
        match self.find(k) {
            Some(i) => {
                proof {
                    self.lemma_pos(i as int);
                }
                true
            },
            None => false,
        }
    }

    /// The value stored under the key, if any.
    pub fn get(&self, k: &K) -> (r: Option<&V>)
        requires
            self.wf(),
        ensures
            match r {
                Some(v) => self@.contains_key(k@) && v@ == self@[k@],
                None => !self@.contains_key(k@),
            },
    {
        match self.find(k) {
            Some(i) => {
                proof {
                    self.lemma_pos(i as int);
                }
                Some(&self.entries[i].1)
            },
            None => None,
        }
    }

    /// Stores the value under the key, replacing any value stored there.
    pub fn insert(&mut self, k: K, v: V)
        requires
            old(self).wf(),
        ensures
            final(self).wf(),
            final(self)@ == old(self)@.insert(k@, v@),
    {
        let ghost kv = k@;
        let ghost vv = v@;
        match self.find(&k) {
            Some(i) => {
                self.entries.set(i, (k, v));
                proof {
                    let o = old(self);
                    assert(self.wf()) by {
                        assert forall|a: int, b: int|
                            0 <= a < self.entries@.len() && 0 <= b < self.entries@.len() && a != b
                            implies #[trigger] self.entries@[a].0@ != #[trigger] self.entries@[b].0@ by {
                            assert(o.entries@[a].0@ != o.entries@[b].0@);
                        }
                    }
                    assert forall|key: K::V| #[trigger] self@.contains_key(key) == o@.insert(kv, vv).contains_key(key) by {
                        if o.has(key) {
                            let j = o.pos(key);
                            o.lemma_pos(j);
                            if j != i {
                                self.lemma_pos(j);
                            } else {
                                self.lemma_pos(i as int);
                            }
                        }
                        if self.has(key) {
                            let j = self.pos(key);
                            self.lemma_pos(j);
                            if j != i {
                                o.lemma_pos(j);
                            }
                        }
                    }
                    assert forall|key: K::V| #[trigger] self@.contains_key(key) implies self@[key] == o@.insert(kv, vv)[key] by {
                        let j = self.pos(key);
                        self.lemma_pos(j);
                        if j != i {
                            o.lemma_pos(j);
                        }
                    }
                    assert(self@ =~= o@.insert(kv, vv));
                }
            },
            None => {
                self.entries.push((k, v));
                proof {
                    let o = old(self);
                    let n = o.entries@.len() as int;
                    assert(self.wf()) by {
                        assert forall|a: int, b: int|
                            0 <= a < self.entries@.len() && 0 <= b < self.entries@.len() && a != b
                            implies #[trigger] self.entries@[a].0@ != #[trigger] self.entries@[b].0@ by {
                            if a < n && b < n {
                                assert(o.entries@[a].0@ != o.entries@[b].0@);
                            } else if a < n {
                                o.lemma_pos(a);
                            } else {
                                o.lemma_pos(b);
                            }
                        }
                    }
                    assert forall|key: K::V| #[trigger] self@.contains_key(key) == o@.insert(kv, vv).contains_key(key) by {
                        if o.has(key) {
                            let j = o.pos(key);
                            o.lemma_pos(j);
                            self.lemma_pos(j);
                        }
                        if key == kv {
                            self.lemma_pos(n);
                        }
                        if self.has(key) {
                            let j = self.pos(key);
                            self.lemma_pos(j);
                            if j < n {
                                o.lemma_pos(j);
                            }
                        }
                    }
                    assert forall|key: K::V| #[trigger] self@.contains_key(key) implies self@[key] == o@.insert(kv, vv)[key] by {
                        let j = self.pos(key);
                        self.lemma_pos(j);
                        if j < n {
                            o.lemma_pos(j);
                        }
                    }
                    assert(self@ =~= o@.insert(kv, vv));
                }
            },
        }
    }

    /// Removes the key, handing back the value that was stored under it.
    pub fn remove(&mut self, k: &K) -> (r: Option<V>)
        requires
            old(self).wf(),
        ensures
            final(self).wf(),
            final(self)@ == old(self)@.remove(k@),
            match r {
                Some(v) => old(self)@.contains_key(k@) && v@ == old(self)@[k@],
                None => !old(self)@.contains_key(k@),
            },
    {
        let ghost kv = k@;
        match self.find(k) {
            Some(i) => {
                proof {
                    self.lemma_pos(i as int);
                }
                let (_key, v) = self.entries.remove(i);
                proof {
                    let o = old(self);
                    let ii = i as int;
                    assert(self.wf()) by {
                        assert forall|a: int, b: int|
                            0 <= a < self.entries@.len() && 0 <= b < self.entries@.len() && a != b
                            implies #[trigger] self.entries@[a].0@ != #[trigger] self.entries@[b].0@ by {
                            let oa = if a < ii { a } else { a + 1 };
                            let ob = if b < ii { b } else { b + 1 };
                            assert(o.entries@[oa].0@ != o.entries@[ob].0@);
                        }
                    }
                    assert forall|key: K::V| #[trigger] self@.contains_key(key) == o@.remove(kv).contains_key(key) by {
                        if o.has(key) && key != kv {
                            let j = o.pos(key);
                            o.lemma_pos(j);
                            let nj = if j < ii { j } else { j - 1 };
                            self.lemma_pos(nj);
                        }
                        if self.has(key) {
                            let j = self.pos(key);
                            self.lemma_pos(j);
                            let oj = if j < ii { j } else { j + 1 };
                            o.lemma_pos(oj);
                        }
                    }
                    assert forall|key: K::V| #[trigger] self@.contains_key(key) implies self@[key] == o@.remove(kv)[key] by {
                        let j = self.pos(key);
                        self.lemma_pos(j);
                        let oj = if j < ii { j } else { j + 1 };
                        o.lemma_pos(oj);
                    }
                    assert(self@ =~= o@.remove(kv));
                }
                Some(v)
            },
            None => {
                proof {
                    assert(self@ =~= old(self)@.remove(kv));
                }
                None
            },
        }
    }
}

impl<K: MapKey, V: CopyView> AssocMap<K, V> {
    /// A copy of the map.
    pub fn duplicate(&self) -> (r: Self)
        requires
            self.wf(),
        ensures
            r.wf(),
            r@ == self@,
    {
        let mut entries: Vec<(K, V)> = Vec::new();
        let mut i: usize = 0;
        while i < self.entries.len()
            invariant
                0 <= i <= self.entries@.len(),
                entries@.len() == i,
                forall|j: int|
                    0 <= j < i ==> #[trigger] entries@[j].0@ == self.entries@[j].0@
                        && entries@[j].1@ == self.entries@[j].1@,
            decreases self.entries@.len() - i,
        {
            let k = self.entries[i].0.key_copy();
            let v = self.entries[i].1.copy_view();
            entries.push((k, v));
            i = i + 1;
        }
        let r = AssocMap { entries };
        proof {
            assert(r.wf()) by {
                assert forall|a: int, b: int|
                    0 <= a < r.entries@.len() && 0 <= b < r.entries@.len() && a != b
                    implies #[trigger] r.entries@[a].0@ != #[trigger] r.entries@[b].0@ by {
                    assert(self.entries@[a].0@ != self.entries@[b].0@);
                }
            }
            assert forall|key: K::V| #[trigger] r@.contains_key(key) == self@.contains_key(key) by {
                if self.has(key) {
                    let j = self.pos(key);
                    self.lemma_pos(j);
                    r.lemma_pos(j);
                }
                if r.has(key) {
                    let j = r.pos(key);
                    r.lemma_pos(j);
                    self.lemma_pos(j);
                }
            }
            assert forall|key: K::V| #[trigger] r@.contains_key(key) implies r@[key] == self@[key] by {
                let j = r.pos(key);
                r.lemma_pos(j);
                self.lemma_pos(j);
            }
            assert(r@ =~= self@);
        }
        r
    }
}

impl<K: MapKey, V: View> View for AssocMap<K, V> {
    type V = Map<K::V, V::V>;

    open spec fn view(&self) -> Map<K::V, V::V> {
        self.map_view()
    }
}

} // verus!
