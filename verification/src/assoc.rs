//! A small association map, used for the per-function and per-block tables
//! of the fixpoint analysis. Later entries for a key shadow earlier ones.
//!
//! These tables are keyed by (function, stage) pairs. A `HashMap` keyed by
//! such a struct has no specification that Verus can use to prove even a
//! single insertion, so the tables are a vector of entries whose view as a
//! `Map` is proved exactly for every operation.

use vstd::prelude::*;

verus! {

/// A key that can be compared at run time.
pub trait MapKey: Copy {
    fn same(&self, other: &Self) -> (r: bool)
        ensures
            r == (*self == *other),
    ;
}

impl MapKey for u64 {
    fn same(&self, other: &Self) -> (r: bool) {
        *self == *other
    }
}

/// The map that a list of entries stands for: later entries win.
pub open spec fn map_of<K, T>(s: Seq<(K, T)>) -> Map<K, T>
    decreases s.len(),
{
    if s.len() == 0 {
        Map::empty()
    } else {
        map_of(s.drop_last()).insert(s.last().0, s.last().1)
    }
}

/// `i` is the last entry of `s` with key `k`.
pub open spec fn last_with_key<K, T>(s: Seq<(K, T)>, i: int, k: K) -> bool {
    &&& 0 <= i < s.len()
    &&& s[i].0 == k
    &&& forall|j: int| i < j < s.len() ==> #[trigger] s[j].0 != k
}

proof fn lemma_map_of_absent<K, T>(s: Seq<(K, T)>, k: K)
    requires
        forall|j: int| 0 <= j < s.len() ==> #[trigger] s[j].0 != k,
    ensures
        !map_of(s).contains_key(k),
    decreases s.len(),
{
    if s.len() > 0 {
        lemma_map_of_absent(s.drop_last(), k);
    }
}

proof fn lemma_map_of_last<K, T>(s: Seq<(K, T)>, i: int, k: K)
    requires
        last_with_key(s, i, k),
    ensures
        map_of(s).contains_key(k),
        map_of(s)[k] == s[i].1,
    decreases s.len(),
{
    if i < s.len() - 1 {
        assert(s.last().0 != k);
        assert(last_with_key(s.drop_last(), i, k));
        lemma_map_of_last(s.drop_last(), i, k);
    }
}

proof fn lemma_map_of_update<K, T>(s: Seq<(K, T)>, i: int, k: K, v: T)
    requires
        last_with_key(s, i, k),
    ensures
        map_of(s.update(i, (k, v))) =~= map_of(s).insert(k, v),
    decreases s.len(),
{
    if i == s.len() - 1 {
        assert(s.update(i, (k, v)).drop_last() =~= s.drop_last());
    } else {
        let t = s.update(i, (k, v));
        assert(t.drop_last() =~= s.drop_last().update(i, (k, v)));
        assert(s.last().0 != k);
        assert(last_with_key(s.drop_last(), i, k));
        lemma_map_of_update(s.drop_last(), i, k, v);
    }
}

pub struct AssocMap<K, T> {
    pub entries: Vec<(K, T)>,
}

impl<K: MapKey, T> AssocMap<K, T> {
    pub open spec fn view(&self) -> Map<K, T> {
        map_of(self.entries@)
    }

    pub fn new() -> (r: AssocMap<K, T>)
        ensures
            r.view() == Map::<K, T>::empty(),
    {
        AssocMap { entries: Vec::new() }
    }

    /// The position of the entry for `k` that the map reads.
    fn find(&self, k: &K) -> (r: Option<usize>)
        ensures
            r matches Some(i) ==> last_with_key(self.entries@, i as int, *k),
            r is None ==> forall|j: int|
                0 <= j < self.entries@.len() ==> #[trigger] self.entries@[j].0 != *k,
    {
        let mut i = self.entries.len();
        while i > 0
            invariant
                0 <= i <= self.entries@.len(),
                forall|j: int| i <= j < self.entries@.len() ==> #[trigger] self.entries@[j].0 != *k,
            decreases i,
        {
            i = i - 1;
            if self.entries[i].0.same(k) {
                return Some(i);
            }
        }
        None
    }

    pub fn get(&self, k: &K) -> (r: Option<&T>)
        ensures
            r == (if self.view().contains_key(*k) {
                Some(&self.view()[*k])
            } else {
                None
            }),
    {
        match self.find(k) {
            Some(i) => {
                proof {
                    lemma_map_of_last(self.entries@, i as int, *k);
                }
                Some(&self.entries[i].1)
            },
            None => {
                proof {
                    lemma_map_of_absent(self.entries@, *k);
                }
                None
            },
        }
    }

    pub fn insert(&mut self, k: K, v: T)
        ensures
            final(self).view() == old(self).view().insert(k, v),
    {
        match self.find(&k) {
            Some(i) => {
                proof {
                    lemma_map_of_update(self.entries@, i as int, k, v);
                }
                self.entries.set(i, (k, v));
            },
            None => {
                self.entries.push((k, v));
                proof {
                    assert(self.entries@.drop_last() =~= old(self).entries@);
                }
            },
        }
    }

    /// Puts `v` in place of the value of `k` and hands back the value it
    /// had; leaves the map unchanged when `k` has no value.
    pub fn replace(&mut self, k: &K, v: T) -> (r: Option<T>)
        ensures
            old(self).view().contains_key(*k) ==> r == Some(old(self).view()[*k]) && final(self).view() == old(self).view().insert(*k, v),
            !old(self).view().contains_key(*k) ==> r is None && final(self).view() == old(self).view(),
    {
        match self.find(k) {
            Some(i) => {
                proof {
                    lemma_map_of_last(self.entries@, i as int, *k);
                    lemma_map_of_update(self.entries@, i as int, *k, v);
                }
                let mut pair = (*k, v);
                self.entries.set_and_swap(i, &mut pair);
                Some(pair.1)
            },
            None => {
                proof {
                    lemma_map_of_absent(self.entries@, *k);
                }
                None
            },
        }
    }
}

} // verus!
