//! A dense map keyed by small integer identifiers.
use vstd::prelude::*;

verus! {

/// A map from dense integer keys to values, stored as a vector with a slot per key.
#[derive(Clone, Debug, PartialEq, Eq)]
pub struct IndexMap<V> {
    values: Vec<Option<V>>,
}

impl<V> View for IndexMap<V> {
    type V = Map<usize, V>;

    closed spec fn view(&self) -> Map<usize, V> {
        Map::new(
            |k: usize| k < self.values@.len() && self.values@[k as int] is Some,
            |k: usize| self.values@[k as int]->Some_0,
        )
    }
}

/// The present entries among the first `n` slots, in increasing order of key.
spec fn entries_upto<V>(values: Seq<Option<V>>, n: nat) -> Seq<(usize, V)>
    decreases n,
{
    if n == 0 {
        Seq::empty()
    } else {
        let before = entries_upto(values, (n - 1) as nat);
        match values[n - 1] {
            Some(v) => before.push(((n - 1) as usize, v)),
            None => before,
        }
    }
}

impl<V> IndexMap<V> {
    /// The entries in increasing order of key.
    pub closed spec fn entries(&self) -> Seq<(usize, V)> {
        entries_upto(self.values@, self.values@.len())
    }

    pub fn new() -> (r: IndexMap<V>)
        ensures
            r@ == Map::<usize, V>::empty(),
    {
        let r = IndexMap { values: Vec::new() };
        assert(r@ =~= Map::<usize, V>::empty());
        r
    }

    pub fn contains_key(&self, key: usize) -> (r: bool)
        ensures
            r == self@.contains_key(key),
    {
        key < self.values.len() && self.values[key].is_some()
    }

    pub fn get(&self, key: usize) -> (r: Option<&V>)
        ensures
            r is Some <==> self@.contains_key(key),
            r is Some ==> *r->Some_0 == self@[key],
    {
        if key < self.values.len() {
            self.values[key].as_ref()
        } else {
            None
        }
    }

    /// The value under a key that is present, to be changed in place.
    pub fn get_mut(&mut self, key: usize) -> (r: &mut V)
        requires
            old(self)@.contains_key(key),
        ensures
            *r == old(self)@[key],
            final(self)@ == old(self)@.insert(key, *final(r)),
    {
        match &mut self.values[key] {
            Some(v) => v,
            None => unreached(),
        }
    }

    /// Inserts `value` under `key`, replacing any value there.
    pub fn insert(&mut self, key: usize, value: V)
        ensures
            final(self)@ == old(self)@.insert(key, value),
    {
        while self.values.len() <= key
            invariant
                self@ == old(self)@,
            decreases key + 1 - self.values@.len(),
        {
            let ghost before = self.values@;
            self.values.push(None);
            assert(self@ =~= old(self)@) by {
                assert(forall|k: int| 0 <= k < before.len() ==> self.values@[k] == before[k]);
            }
        }
        self.values.set(key, Some(value));
        assert(self@ =~= old(self)@.insert(key, value));
    }

    /// Removes every entry.
    pub fn clear(&mut self)
        ensures
            final(self)@ == Map::<usize, V>::empty(),
    {
        self.values.clear();
        assert(self@ =~= Map::<usize, V>::empty());
    }

    /// The entries in increasing order of key.
    pub fn iter(&self) -> (r: Vec<(usize, &V)>)
        ensures
            forall|j: int| 0 <= j < r@.len() ==> self@.contains_key(#[trigger] r@[j].0) && *r@[j].1
                == self@[r@[j].0],
            forall|j: int, l: int| 0 <= j < l < r@.len() ==> r@[j].0 < r@[l].0,
            forall|k: usize| #[trigger] self@.contains_key(k) ==> exists|j: int| 0 <= j < r@.len() && r@[j].0 == k,
            r@.len() == self.entries().len(),
            forall|j: int|
                0 <= j < r@.len() ==> (#[trigger] r@[j]).0 == self.entries()[j].0 && *r@[j].1
                    == self.entries()[j].1,
    {
        let mut out: Vec<(usize, &V)> = Vec::new();
        let mut i: usize = 0;
        while i < self.values.len()
            invariant
                i <= self.values@.len(),
                forall|j: int| 0 <= j < out@.len() ==> self@.contains_key(#[trigger] out@[j].0) && *out@[j].1
                    == self@[out@[j].0] && out@[j].0 < i,
                forall|j: int, l: int| 0 <= j < l < out@.len() ==> out@[j].0 < out@[l].0,
                forall|k: usize| #[trigger] self@.contains_key(k) && k < i ==> exists|j: int| 0 <= j < out@.len() && out@[j].0 == k,
                out@.len() == entries_upto(self.values@, i as nat).len(),
                forall|j: int|
                    0 <= j < out@.len() ==> (#[trigger] out@[j]).0 == entries_upto(self.values@, i as nat)[j].0 && *out@[j].1
                        == entries_upto(self.values@, i as nat)[j].1,
            decreases self.values@.len() - i,
        {
            let ghost before = out@;
            match &self.values[i] {
                Some(v) => {
                    out.push((i, v));
                },
                None => {},
            }
            assert forall|k: usize| #[trigger] self@.contains_key(k) && k < i + 1 implies exists|
                j: int,
            | 0 <= j < out@.len() && out@[j].0 == k by {
                if k == i {
                    assert(out@[out@.len() - 1].0 == k);
                } else {
                    let j = choose|j: int| 0 <= j < before.len() && before[j].0 == k;
                    assert(out@[j] == before[j]);
                }
            }
            i = i + 1;
        }
        out
    }
}

} // verus!
