//! A finite map from keys to values, kept as a list of entries.

use vstd::prelude::*;

verus! {

/// A value that can name an entry of a [`Table`].
pub trait Key: Sized {
    /// Whether two keys name the same entry.
    fn same(&self, other: &Self) -> (r: bool)
        ensures
            r == (*self == *other),
    ;
}

impl Key for u64 {
    fn same(&self, other: &Self) -> (r: bool) {
        *self == *other
    }
}

impl<A: Key, B: Key> Key for (A, B) {
    fn same(&self, other: &Self) -> (r: bool) {
        self.0.same(&other.0) && self.1.same(&other.1)
    }
}

/// A map whose entries stand in a list, at most one for each key.
pub struct Table<K, V> {
    entries: Vec<(K, V)>,
}

spec fn holds<K, V>(entries: Seq<(K, V)>, key: K) -> bool {
    exists|i: int| 0 <= i < entries.len() && (#[trigger] entries[i]).0 == key
}

spec fn position<K, V>(entries: Seq<(K, V)>, key: K) -> int {
    choose|i: int| 0 <= i < entries.len() && (#[trigger] entries[i]).0 == key
}

spec fn distinct<K, V>(entries: Seq<(K, V)>) -> bool {
    forall|i: int, j: int|
        0 <= i < entries.len() && 0 <= j < entries.len() && i != j ==> (#[trigger] entries[i]).0
            != (#[trigger] entries[j]).0
}

impl<K, V> Table<K, V> {
    #[verifier::type_invariant]
    spec fn keys_are_distinct(self) -> bool {
        distinct(self.entries@)
    }
}

impl<K, V> View for Table<K, V> {
    type V = Map<K, V>;

    closed spec fn view(&self) -> Map<K, V> {
        Map::new(
            |key: K| holds(self.entries@, key),
            |key: K| self.entries@[position(self.entries@, key)].1,
        )
    }
}

impl<K: Key, V> Table<K, V> {
    /// The table without entries.
    pub fn new() -> (table: Self)
        ensures
            table@ == Map::<K, V>::empty(),
    {
        let table = Table { entries: Vec::new() };
        assert(table@ =~= Map::<K, V>::empty());
        table
    }

    /// Where the entry of `key` stands, if there is one.
    fn find(entries: &Vec<(K, V)>, key: &K) -> (at: Option<usize>)
        ensures
            match at {
                Some(i) => i < entries.len() && entries@[i as int].0 == *key,
                None => !holds(entries@, *key),
            },
    {
        let mut i: usize = 0;
        while i < entries.len()
            invariant
                i <= entries.len(),
                forall|j: int| 0 <= j < i ==> (#[trigger] entries@[j]).0 != *key,
            decreases entries.len() - i,
        {
            if entries[i].0.same(key) {
                return Some(i);
            }
            i += 1;
        }
        None
    }

    /// The value that `key` is mapped to.
    pub fn get(&self, key: K) -> (value: Option<&V>)
        ensures
            match value {
                Some(v) => self@.contains_key(key) && self@[key] == *v,
                None => !self@.contains_key(key),
            },
    {
        proof {
            use_type_invariant(self);
        }
        match Self::find(&self.entries, &key) {
            Some(i) => {
                assert(holds(self.entries@, key));
                assert(position(self.entries@, key) == i);
                Some(&self.entries[i].1)
            },
            None => None,
        }
    }

    /// Maps `key` to `value`, in place of what it was mapped to.
    pub fn set(&mut self, key: K, value: V)
        ensures
            final(self)@ == old(self)@.insert(key, value),
    {
        proof {
            use_type_invariant(&*self);
        }
        let ghost before = self.entries@;
        let mut entries: Vec<(K, V)> = Vec::new();
        core::mem::swap(&mut entries, &mut self.entries);
        match Self::find(&entries, &key) {
            Some(i) => {
                entries.set(i, (key, value));
                assert(entries@[i as int].0 == key);
                assert forall|k: K| holds(entries@, k) == holds(before, k) by {
                    if holds(before, k) {
                        let p = position(before, k);
                        assert(entries@[p].0 == k);
                    }
                    if holds(entries@, k) {
                        let p = position(entries@, k);
                        assert(before[p].0 == k);
                    }
                }
                assert(distinct(entries@)) by {
                    assert forall|a: int, b: int|
                        0 <= a < entries@.len() && 0 <= b < entries@.len() && a != b implies (
                    #[trigger] entries@[a]).0 != (#[trigger] entries@[b]).0 by {
                        assert(before[a].0 != before[b].0);
                    }
                }
                assert forall|k: K| holds(entries@, k) && k != key implies entries@[position(
                    entries@,
                    k,
                )] == before[position(before, k)] by {
                    let p = position(entries@, k);
                    let q = position(before, k);
                    assert(before[p].0 == k);
                    assert(before[q].0 == k);
                    assert(p == q);
                }
                assert(position(entries@, key) == i) by {
                    assert(holds(entries@, key));
                    let p = position(entries@, key);
                    assert(entries@[p].0 == key);
                }
            },
            None => {
                entries.push((key, value));
                let ghost last = before.len() as int;
                assert(entries@[last].0 == key);
                assert forall|k: K| holds(entries@, k) == (k == key || holds(before, k)) by {
                    if holds(before, k) {
                        let p = position(before, k);
                        assert(entries@[p].0 == k);
                    }
                    if holds(entries@, k) && k != key {
                        let p = position(entries@, k);
                        assert(entries@[p].0 == k);
                        assert(before[p].0 == k);
                    }
                }
                assert(distinct(entries@)) by {
                    assert forall|a: int, b: int|
                        0 <= a < entries@.len() && 0 <= b < entries@.len() && a != b implies (
                    #[trigger] entries@[a]).0 != (#[trigger] entries@[b]).0 by {
                        if a < last && b < last {
                            assert(before[a].0 != before[b].0);
                        } else if a < last {
                            assert(before[a].0 != key);
                        } else {
                            assert(before[b].0 != key);
                        }
                    }
                }
                assert forall|k: K| holds(before, k) implies entries@[position(entries@, k)]
                    == before[position(before, k)] by {
                    let p = position(entries@, k);
                    let q = position(before, k);
                    assert(entries@[q].0 == k);
                    assert(entries@[p].0 == k);
                    assert(p == q);
                }
                assert(position(entries@, key) == last) by {
                    let p = position(entries@, key);
                    assert(entries@[p].0 == key);
                }
            },
        }
        self.entries = entries;
        assert(self@ =~= old(self)@.insert(key, value));
    }

    /// Removes the entry of `key`, if there is one.
    pub fn remove(&mut self, key: K)
        ensures
            final(self)@ == old(self)@.remove(key),
    {
        proof {
            use_type_invariant(&*self);
        }
        let ghost before = self.entries@;
        let mut entries: Vec<(K, V)> = Vec::new();
        core::mem::swap(&mut entries, &mut self.entries);
        if let Some(i) = Self::find(&entries, &key) {
            let _ = entries.remove(i);
            assert forall|k: K| holds(entries@, k) == (k != key && holds(before, k)) by {
                if holds(before, k) && k != key {
                    let p = position(before, k);
                    assert(before[p].0 == k);
                    if p < i {
                        assert(entries@[p].0 == k);
                    } else {
                        assert(entries@[p - 1].0 == k);
                    }
                }
                if holds(entries@, k) {
                    let p = position(entries@, k);
                    assert(entries@[p].0 == k);
                    let q = if p < i {
                        p
                    } else {
                        p + 1
                    };
                    assert(before[q].0 == k);
                    assert(before[i as int].0 == key);
                }
            }
            assert(distinct(entries@)) by {
                assert forall|a: int, b: int|
                    0 <= a < entries@.len() && 0 <= b < entries@.len() && a != b implies (
                #[trigger] entries@[a]).0 != (#[trigger] entries@[b]).0 by {
                    let p = if a < i {
                        a
                    } else {
                        a + 1
                    };
                    let q = if b < i {
                        b
                    } else {
                        b + 1
                    };
                    assert(before[p].0 != before[q].0);
                }
            }
            assert forall|k: K| holds(entries@, k) implies entries@[position(entries@, k)]
                == before[position(before, k)] by {
                let p = position(entries@, k);
                let q = position(before, k);
                assert(entries@[p].0 == k);
                let p2 = if p < i {
                    p
                } else {
                    p + 1
                };
                assert(before[p2].0 == k);
                assert(before[q].0 == k);
                assert(p2 == q);
            }
        }
        self.entries = entries;
        assert(self@ =~= old(self)@.remove(key));
    }
}

} // verus!
