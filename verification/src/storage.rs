//! A small associative table keyed by account identifiers.

use vstd::prelude::*;

verus! {

/// What an account identifier must offer: a mathematical view, a test for
/// equal views, and a way to make another identifier with the same view.
pub trait AccountKey: View + Sized {
    /// Whether the two identifiers name the same account.
    fn same(&self, other: &Self) -> (r: bool)
        ensures
            r == (self@ == other@),
    ;

    /// A second identifier for the same account.
    fn duplicate(&self) -> (r: Self)
        ensures
            r@ == self@,
    ;
}

impl AccountKey for String {
    fn same(&self, other: &Self) -> (r: bool) {
        *self == *other
    }

    fn duplicate(&self) -> (r: Self) {
        self.clone()
    }
}

/// Whether no two entries of `s` carry the same key.
pub open spec fn distinct_keys<K: View, V>(s: Seq<(K, V)>) -> bool {
    forall|i: int, j: int| 0 <= i < j < s.len() ==> (#[trigger] s[i]).0@ != (#[trigger] s[j]).0@
}

/// Whether some entry of `s` carries the key `k`.
pub open spec fn has_key<K: View, V>(s: Seq<(K, V)>, k: K::V) -> bool {
    exists|i: int| 0 <= i < s.len() && (#[trigger] s[i]).0@ == k
}

/// The index of an entry of `s` that carries the key `k`.
pub open spec fn index_of<K: View, V>(s: Seq<(K, V)>, k: K::V) -> int {
    choose|i: int| 0 <= i < s.len() && (#[trigger] s[i]).0@ == k
}

/// The map that the entries `s` stand for.
pub open spec fn entries_map<K: View, V>(s: Seq<(K, V)>) -> Map<K::V, V> {
    Map::new(|k: K::V| has_key(s, k), |k: K::V| s[index_of(s, k)].1)
}

/// A map from account identifiers to values, with one entry per account
/// that was ever written.
#[derive(Debug)]
pub struct Table<K: AccountKey, V> {
    entries: Vec<(K, V)>,
}

impl<K: AccountKey, V> View for Table<K, V> {
    type V = Map<K::V, V>;

    closed spec fn view(&self) -> Map<K::V, V> {
        entries_map(self.entries@)
    }
}

impl<K: AccountKey, V> Table<K, V> {
    #[verifier::type_invariant]
    spec fn well_formed(&self) -> bool {
        distinct_keys(self.entries@)
    }

    /// The empty table.
    pub fn new() -> (t: Self)
        ensures
            t@ == Map::<K::V, V>::empty(),
    {
        let t = Table { entries: Vec::new() };
        assert(t@ =~= Map::<K::V, V>::empty());
        t
    }

    /// Where the entry for `k` stands, if there is one.
    fn position(&self, k: &K) -> (r: Option<usize>)
        ensures
            match r {
                Some(i) => i < self.entries@.len() && self.entries@[i as int].0@ == k@,
                None => !has_key(self.entries@, k@),
            },
    {
        let mut i: usize = 0;
        while i < self.entries.len()
            invariant
                i <= self.entries@.len(),
                forall|j: int| 0 <= j < i ==> (#[trigger] self.entries@[j]).0@ != k@,
            decreases self.entries@.len() - i,
        {
            if self.entries[i].0.same(k) {
                return Some(i);
            }
            i += 1;
        }
        None
    }

    /// The value stored for `k`, if one was ever written.
    pub fn get(&self, k: &K) -> (r: Option<&V>)
        ensures
            match r {
                Some(v) => self@.contains_key(k@) && *v == self@[k@],
                None => !self@.contains_key(k@),
            },
    {
        proof {
            use_type_invariant(self);
        }
        match self.position(k) {
            Some(i) => {
                assert(has_key(self.entries@, k@));
                Some(&self.entries[i].1)
            },
            None => None,
        }
    }

    /// Writes `v` for `k`, over the value that was there if there was one.
    pub fn insert(&mut self, k: K, v: V)
        ensures
            final(self)@ == old(self)@.insert(k@, v),
    {
        proof {
            use_type_invariant(&*self);
        }
        let ghost before = self.entries@;
        let ghost key = k@;
        let found = self.position(&k);
        let mut entries: Vec<(K, V)> = Vec::new();
        core::mem::swap(&mut self.entries, &mut entries);
        match found {
            Some(i) => {
                entries.set(i, (k, v));
                proof {
                    let after = entries@;
                    assert(after[i as int].0@ == key);
                    assert forall|q: K::V| has_key(after, q) <==> has_key(before, q) || q == key by {
                        if has_key(before, q) {
                            let j = index_of(before, q);
                            assert(after[j].0@ == q);
                        }
                        if has_key(after, q) {
                            let j = index_of(after, q);
                            assert(before[j].0@ == after[j].0@);
                        }
                    }
                    assert forall|q: K::V| has_key(after, q) implies entries_map(after)[q]
                        == entries_map(before).insert(key, v)[q] by {
                        let j = index_of(after, q);
                        if q != key {
                            let j0 = index_of(before, q);
                            assert(before[j].0@ == q);
                            assert(j == j0);
                        } else {
                            assert(j == i);
                        }
                    }
                    assert(entries_map(after) =~= entries_map(before).insert(key, v));
                }
            },
            None => {
                entries.push((k, v));
                proof {
                    let after = entries@;
                    let n = before.len() as int;
                    assert(after[n].0@ == key);
                    assert forall|q: K::V| has_key(after, q) <==> has_key(before, q) || q == key by {
                        if has_key(before, q) {
                            let j = index_of(before, q);
                            assert(after[j].0@ == q);
                        }
                        if has_key(after, q) {
                            let j = index_of(after, q);
                            if j < n {
                                assert(before[j].0@ == q);
                            }
                        }
                    }
                    assert forall|q: K::V| has_key(after, q) implies entries_map(after)[q]
                        == entries_map(before).insert(key, v)[q] by {
                        let j = index_of(after, q);
                        if q != key {
                            let j0 = index_of(before, q);
                            assert(after[j0].0@ == q);
                            assert(j == j0);
                        } else {
                            assert(j == n);
                        }
                    }
                    assert(entries_map(after) =~= entries_map(before).insert(key, v));
                }
            },
        }
        core::mem::swap(&mut self.entries, &mut entries);
    }
}

} // verus!
