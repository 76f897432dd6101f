//! A small map keyed by strings, kept as a list in insertion order.
//!
//! Its contents are stated over the keys' character sequences, so a lookup with
//! an equal string finds the entry whichever `String` value was inserted.

use vstd::prelude::*;

verus! {

/// A map from strings to `V` in which no key occurs twice and entries keep the
/// order in which their keys were first inserted.
#[derive(Debug)]
pub struct StrMap<V> {
    keys: Vec<String>,
    vals: Vec<V>,
}

/// The position of `k` in `keys`, if it occurs there.
pub open spec fn position_of(keys: Seq<Seq<char>>, k: Seq<char>) -> Option<int> {
    if exists|i: int| 0 <= i < keys.len() && keys[i] == k {
        Some(choose|i: int| 0 <= i < keys.len() && keys[i] == k)
    } else {
        None
    }
}

/// A list of keys and the list of their values, after `k` is given the value
/// `v`: a key that is there keeps its place, a new one goes to the end.
pub open spec fn assoc_put<V>(keys: Seq<Seq<char>>, vals: Seq<V>, k: Seq<char>, v: V) -> (
    Seq<Seq<char>>,
    Seq<V>,
) {
    match position_of(keys, k) {
        Some(i) => (keys, vals.update(i, v)),
        None => (keys.push(k), vals.push(v)),
    }
}

/// No element of `keys` occurs twice.
pub open spec fn distinct(keys: Seq<Seq<char>>) -> bool {
    forall|i: int, j: int| 0 <= i < j < keys.len() ==> keys[i] != keys[j]
}

impl<V> StrMap<V> {
    /// The keys, in order, as character sequences.
    pub closed spec fn spec_keys(&self) -> Seq<Seq<char>> {
        Seq::new(self.keys@.len(), |i: int| self.keys@[i]@)
    }

    /// The values, in the order of their keys.
    pub closed spec fn spec_vals(&self) -> Seq<V> {
        self.vals@
    }

    /// The invariant: one value per key, and no key twice.
    pub open spec fn wf(&self) -> bool {
        &&& self.spec_keys().len() == self.spec_vals().len()
        &&& distinct(self.spec_keys())
    }

    pub open spec fn spec_len(&self) -> nat {
        self.spec_keys().len()
    }

    /// The keys and the values, each list in the order of insertion.
    pub open spec fn entries(&self) -> (Seq<Seq<char>>, Seq<V>) {
        (self.spec_keys(), self.spec_vals())
    }

    pub open spec fn contains(&self, k: Seq<char>) -> bool {
        self.spec_keys().contains(k)
    }

    /// The value stored under `k`.
    pub open spec fn spec_get(&self, k: Seq<char>) -> Option<V> {
        value_of(self.spec_keys(), self.spec_vals(), k)
    }

    /// The keys as a set.
    pub open spec fn dom(&self) -> Set<Seq<char>> {
        self.spec_keys().to_set()
    }

    /// The contents as a map, without the order of insertion.
    pub open spec fn to_map(&self) -> Map<Seq<char>, V> {
        Map::new(|k: Seq<char>| self.contains(k), |k: Seq<char>| self.spec_get(k)->0)
    }

    pub fn new() -> (m: Self)
        ensures
            m.wf(),
            m.spec_keys() == Seq::<Seq<char>>::empty(),
            m.spec_vals() == Seq::<V>::empty(),
    {
        let m = StrMap { keys: Vec::new(), vals: Vec::new() };
        assert(m.spec_keys() =~= Seq::<Seq<char>>::empty());
        m
    }

    pub fn len(&self) -> (n: usize)
        requires
            self.wf(),
        ensures
            n == self.spec_len(),
    {
        self.keys.len()
    }

    /// Where `k` is stored.
    pub fn index_of(&self, k: &String) -> (found: Option<usize>)
        requires
            self.wf(),
        ensures
            found matches Some(i) ==> i < self.spec_len() && self.spec_keys()[i as int] == k@,
            found is None ==> !self.contains(k@),
            found == match position_of(self.spec_keys(), k@) {
                Some(i) => Some(i as usize),
                None => None,
            },
    {
        let mut i: usize = 0;
        while i < self.keys.len()
            invariant
                self.wf(),
                i <= self.keys.len(),
                self.spec_keys().len() == self.keys.len(),
                forall|j: int| 0 <= j < i ==> self.spec_keys()[j] != k@,
            decreases self.keys.len() - i,
        {
            if self.keys[i] == *k {
                proof {
                    lemma_position_unique(self.spec_keys(), i as int);
                }
                return Some(i);
            }
            i += 1;
        }
        None
    }

    pub fn contains_key(&self, k: &String) -> (r: bool)
        requires
            self.wf(),
        ensures
            r == self.contains(k@),
    {
        self.index_of(k).is_some()
    }

    /// The value stored under `k`.
    pub fn get(&self, k: &String) -> (found: Option<&V>)
        requires
            self.wf(),
        ensures
            found is Some <==> self.contains(k@),
            match found {
                Some(v) => self.spec_get(k@) == Some(*v),
                None => self.spec_get(k@) is None,
            },
    {
        match self.index_of(k) {
            Some(i) => Some(&self.vals[i]),
            None => None,
        }
    }

    /// The key at position `i`.
    pub fn key_at(&self, i: usize) -> (k: &String)
        requires
            self.wf(),
            i < self.spec_len(),
        ensures
            k@ == self.spec_keys()[i as int],
    {
        &self.keys[i]
    }

    /// The value at position `i`.
    pub fn val_at(&self, i: usize) -> (v: &V)
        requires
            self.wf(),
            i < self.spec_len(),
        ensures
            *v == self.spec_vals()[i as int],
    {
        &self.vals[i]
    }

    /// The value at position `i`, to be changed in place.
    pub fn val_at_mut(&mut self, i: usize) -> (v: &mut V)
        requires
            old(self).wf(),
            i < old(self).spec_len(),
        ensures
            *v == old(self).spec_vals()[i as int],
            final(self).spec_keys() == old(self).spec_keys(),
            final(self).spec_vals() == old(self).spec_vals().update(i as int, *final(v)),
            final(self).wf(),
            final(self).spec_get(old(self).spec_keys()[i as int]) == Some(*final(v)),
            forall|k2: Seq<char>|
                k2 != old(self).spec_keys()[i as int] ==> #[trigger] final(self).spec_get(k2)
                    == old(self).spec_get(k2),
    {
        proof {
            let keys = self.spec_keys();
            let vals = self.spec_vals();
            assert forall|x: V|
                value_of(keys, vals.update(i as int, x), keys[i as int]) == Some(x) && (forall|
                    k2: Seq<char>,
                |
                    k2 != keys[i as int] ==> #[trigger] value_of(
                        keys,
                        vals.update(i as int, x),
                        k2,
                    ) == value_of(keys, vals, k2)) by {
                lemma_update_value(keys, vals, i as int, x);
            }
        }
        &mut self.vals[i]
    }

    /// Puts `v` at position `i` and gives back what was there.
    pub fn replace_at(&mut self, i: usize, v: V) -> (prev: V)
        requires
            old(self).wf(),
            i < old(self).spec_len(),
        ensures
            final(self).wf(),
            prev == old(self).spec_vals()[i as int],
            final(self).spec_keys() == old(self).spec_keys(),
            final(self).spec_vals() == old(self).spec_vals().update(i as int, v),
    {
        let mut v = v;
        let slot = &mut self.vals[i];
        std::mem::swap(slot, &mut v);
        v
    }

    /// Stores `v` under `k`. A key already present keeps its position and gives
    /// its old value back; a new key goes to the end.
    pub fn insert(&mut self, k: String, v: V) -> (prev: Option<V>)
        requires
            old(self).wf(),
        ensures
            final(self).wf(),
            prev == old(self).spec_get(k@),
            final(self).entries() == assoc_put(old(self).spec_keys(), old(self).spec_vals(), k@, v),
            final(self).spec_get(k@) == Some(v),
            forall|k2: Seq<char>| #[trigger]
                final(self).contains(k2) <==> old(self).contains(k2) || k2 == k@,
            forall|k2: Seq<char>|
                k2 != k@ ==> #[trigger] final(self).spec_get(k2) == old(self).spec_get(k2),
            final(self).to_map() == old(self).to_map().insert(k@, v),
    {
        let ghost v0 = v;
        match self.index_of(&k) {
            Some(i) => {
                let mut v = v;
                let slot = &mut self.vals[i];
                std::mem::swap(slot, &mut v);
                proof {
                    lemma_update_value(
                        old(self).spec_keys(),
                        old(self).spec_vals(),
                        i as int,
                        v0,
                    );
                    assert(self.to_map() =~= old(self).to_map().insert(k@, v0));
                }
                Some(v)
            },
            None => {
                self.keys.push(k);
                self.vals.push(v);
                assert(self.spec_keys() =~= old(self).spec_keys().push(k@));
                proof {
                    lemma_push_entry(old(self).spec_keys(), old(self).spec_vals(), k@, v0);
                    assert(self.to_map() =~= old(self).to_map().insert(k@, v0));
                }
                None
            },
        }
    }

    /// Takes the entry at position `i` out; the entries behind it move up.
    pub fn remove_at(&mut self, i: usize) -> (entry: (String, V))
        requires
            old(self).wf(),
            i < old(self).spec_len(),
        ensures
            final(self).wf(),
            entry.0@ == old(self).spec_keys()[i as int],
            entry.1 == old(self).spec_vals()[i as int],
            final(self).spec_keys() == old(self).spec_keys().remove(i as int),
            final(self).spec_vals() == old(self).spec_vals().remove(i as int),
    {
        let k = self.keys.remove(i);
        let v = self.vals.remove(i);
        assert(self.spec_keys() =~= old(self).spec_keys().remove(i as int));
        (k, v)
    }

    /// Takes the entry under `k` out, if there is one.
    pub fn remove(&mut self, k: &String) -> (prev: Option<V>)
        requires
            old(self).wf(),
        ensures
            final(self).wf(),
            prev == old(self).spec_get(k@),
            !final(self).contains(k@),
            match position_of(old(self).spec_keys(), k@) {
                Some(i) => {
                    &&& final(self).spec_keys() == old(self).spec_keys().remove(i)
                    &&& final(self).spec_vals() == old(self).spec_vals().remove(i)
                },
                None => {
                    &&& final(self).spec_keys() == old(self).spec_keys()
                    &&& final(self).spec_vals() == old(self).spec_vals()
                },
            },
            forall|k2: Seq<char>|
                k2 != k@ ==> (#[trigger] final(self).contains(k2) <==> old(self).contains(k2)),
            forall|k2: Seq<char>|
                k2 != k@ ==> #[trigger] final(self).spec_get(k2) == old(self).spec_get(k2),
            final(self).to_map() == old(self).to_map().remove(k@),
    {
        match self.index_of(k) {
            Some(i) => {
                let (_, v) = self.remove_at(i);
                proof {
                    lemma_remove_distinct(old(self).spec_keys(), i as int);
                    lemma_remove_entry(old(self).spec_keys(), old(self).spec_vals(), i as int);
                    assert(self.to_map() =~= old(self).to_map().remove(k@));
                }
                Some(v)
            },
            None => {
                assert(self.to_map() =~= old(self).to_map().remove(k@));
                None
            },
        }
    }
}

/// The value that a key list and a value list of the same length pair with `k`.
pub open spec fn value_of<V>(keys: Seq<Seq<char>>, vals: Seq<V>, k: Seq<char>) -> Option<V> {
    match position_of(keys, k) {
        Some(i) => Some(vals[i]),
        None => None,
    }
}

/// Replacing the value at one position changes the value of that key alone.
pub proof fn lemma_update_value<V>(keys: Seq<Seq<char>>, vals: Seq<V>, i: int, v: V)
    requires
        distinct(keys),
        keys.len() == vals.len(),
        0 <= i < keys.len(),
    ensures
        value_of(keys, vals.update(i, v), keys[i]) == Some(v),
        forall|k2: Seq<char>|
            k2 != keys[i] ==> #[trigger] value_of(keys, vals.update(i, v), k2) == value_of(
                keys,
                vals,
                k2,
            ),
{
    lemma_position_unique(keys, i);
    assert forall|k2: Seq<char>| k2 != keys[i] implies #[trigger] value_of(
        keys,
        vals.update(i, v),
        k2,
    ) == value_of(keys, vals, k2) by {
        match position_of(keys, k2) {
            Some(j) => {
                assert(j != i);
            },
            None => {},
        }
    }
}

/// Appending a new key adds it with its value and changes no other key.
pub proof fn lemma_push_entry<V>(keys: Seq<Seq<char>>, vals: Seq<V>, k: Seq<char>, v: V)
    requires
        distinct(keys),
        keys.len() == vals.len(),
        !keys.contains(k),
    ensures
        distinct(keys.push(k)),
        value_of(keys.push(k), vals.push(v), k) == Some(v),
        forall|k2: Seq<char>| #[trigger] keys.push(k).contains(k2) <==> keys.contains(k2) || k2 == k,
        forall|k2: Seq<char>|
            k2 != k ==> #[trigger] value_of(keys.push(k), vals.push(v), k2) == value_of(
                keys,
                vals,
                k2,
            ),
{
    let keys2 = keys.push(k);
    let n = keys.len() as int;
    assert(keys2[n] == k);
    assert forall|i: int, j: int| 0 <= i < j < keys2.len() implies keys2[i] != keys2[j] by {
        if j == n {
            assert(keys[i] == keys2[i]);
            if keys2[i] == k {
                assert(keys.contains(k));
            }
        }
    }
    lemma_position_unique(keys2, n);
    assert forall|k2: Seq<char>| #[trigger] keys2.contains(k2) <==> keys.contains(k2) || k2
        == k by {
        if keys.contains(k2) {
            let j = choose|j: int| 0 <= j < keys.len() && keys[j] == k2;
            assert(keys2[j] == k2);
        }
        if keys2.contains(k2) && k2 != k {
            let j = choose|j: int| 0 <= j < keys2.len() && keys2[j] == k2;
            assert(keys[j] == k2);
        }
    }
    assert forall|k2: Seq<char>| k2 != k implies #[trigger] value_of(keys2, vals.push(v), k2)
        == value_of(keys, vals, k2) by {
        if keys.contains(k2) {
            let j = choose|j: int| 0 <= j < keys.len() && keys[j] == k2;
            assert(keys2[j] == k2);
            lemma_position_unique(keys2, j);
            lemma_position_unique(keys, j);
        } else {
            assert(!keys2.contains(k2));
        }
    }
}

/// Removing one entry changes no other key.
pub proof fn lemma_remove_entry<V>(keys: Seq<Seq<char>>, vals: Seq<V>, i: int)
    requires
        distinct(keys),
        keys.len() == vals.len(),
        0 <= i < keys.len(),
    ensures
        forall|k2: Seq<char>|
            k2 != keys[i] ==> #[trigger] value_of(keys.remove(i), vals.remove(i), k2) == value_of(
                keys,
                vals,
                k2,
            ),
{
    lemma_remove_distinct(keys, i);
    let keys2 = keys.remove(i);
    assert forall|k2: Seq<char>| k2 != keys[i] implies #[trigger] value_of(
        keys2,
        vals.remove(i),
        k2,
    ) == value_of(keys, vals, k2) by {
        if keys.contains(k2) {
            let j = choose|j: int| 0 <= j < keys.len() && keys[j] == k2;
            lemma_position_unique(keys, j);
            if j < i {
                assert(keys2[j] == k2);
                lemma_position_unique(keys2, j);
            } else {
                assert(keys2[j - 1] == k2);
                lemma_position_unique(keys2, j - 1);
            }
        } else {
            assert(!keys2.contains(k2));
        }
    }
}

/// In a list without repeats, the position of an element is its only position.
pub proof fn lemma_position_unique(keys: Seq<Seq<char>>, i: int)
    requires
        distinct(keys),
        0 <= i < keys.len(),
    ensures
        position_of(keys, keys[i]) == Some(i),
{
}

/// Removing an element from a list without repeats removes it altogether.
pub proof fn lemma_remove_distinct(keys: Seq<Seq<char>>, i: int)
    requires
        distinct(keys),
        0 <= i < keys.len(),
    ensures
        distinct(keys.remove(i)),
        !keys.remove(i).contains(keys[i]),
        forall|k: Seq<char>| k != keys[i] ==> (keys.remove(i).contains(k) <==> keys.contains(k)),
{
    let r = keys.remove(i);
    assert forall|k: Seq<char>| k != keys[i] && keys.contains(k) implies r.contains(k) by {
        let j = choose|j: int| 0 <= j < keys.len() && keys[j] == k;
        if j < i {
            assert(r[j] == k);
        } else {
            assert(r[j - 1] == k);
        }
    }
}

} // verus!
