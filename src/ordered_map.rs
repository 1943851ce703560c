//! A string-keyed map that remembers the order in which its keys were inserted.
use vstd::prelude::*;

verus! {

/// Keys in insertion order, each with its value. Well-formed maps hold each key
/// once; the position of a key is the order in which it was first inserted.
#[derive(Debug, Clone, PartialEq)]
pub struct OrderedMap<V> {
    pub entries: Vec<(String, V)>,
}

impl<V> OrderedMap<V> {
    /// The keys, in order.
    pub open spec fn keys(&self) -> Seq<Seq<char>> {
        self.entries@.map_values(|e: (String, V)| e.0@)
    }

    pub open spec fn wf(&self) -> bool {
        self.keys().no_duplicates()
    }

    pub open spec fn contains(&self, k: Seq<char>) -> bool {
        self.keys().contains(k)
    }

    /// The keys after inserting `k`: unchanged if present, else `k` at the end.
    pub open spec fn add_key(keys: Seq<Seq<char>>, k: Seq<char>) -> Seq<Seq<char>> {
        if keys.contains(k) {
            keys
        } else {
            keys.push(k)
        }
    }

    pub fn new() -> (r: Self)
        ensures
            r.entries@ == Seq::<(String, V)>::empty(),
            r.wf(),
    {
        OrderedMap { entries: Vec::new() }
    }

    pub fn len(&self) -> (r: usize)
        ensures
            r == self.entries@.len(),
    {
        self.entries.len()
    }

    /// The position of `key`, if the map holds it.
    pub fn position(&self, key: &str) -> (r: Option<usize>)
        ensures
            match r {
                Some(i) => i < self.entries@.len() && self.keys()[i as int] == key@,
                None => !self.contains(key@),
            },
    {
        let mut i: usize = 0;
        while i < self.entries.len()
            invariant
                i <= self.entries@.len(),
                forall|j: int| 0 <= j < i ==> self.keys()[j] != key@,
            decreases self.entries@.len() - i,
        {
            if str_eq(self.entries[i].0.as_str(), key) {
                return Some(i);
            }
            i = i + 1;
        }
        proof {
            assert forall|j: int| 0 <= j < self.keys().len() implies self.keys()[j] != key@ by {}
        }
        None
    }

    pub fn contains_key(&self, key: &str) -> (r: bool)
        ensures
            r == self.contains(key@),
    {
        self.position(key).is_some()
    }

    /// Inserts `value` under `key`. A key already present keeps its position and
    /// gets the new value; a new key goes to the end.
    pub fn insert(&mut self, key: String, value: V)
        requires
            old(self).wf(),
        ensures
            final(self).wf(),
            final(self).keys() == Self::add_key(old(self).keys(), key@),
            final(self).entries@.contains((key, value)),
            old(self).contains(key@) ==> exists|i: int|
                0 <= i < old(self).entries@.len() && old(self).keys()[i] == key@
                    && final(self).entries@ == old(self).entries@.update(i, (key, value)),
            !old(self).contains(key@) ==> final(self).entries@ == old(self).entries@.push(
                (key, value),
            ),
    {
        match self.position(key.as_str()) {
            Some(i) => {
                let ghost before = self.entries@;
                self.entries.remove(i);
                self.entries.insert(i, (key, value));
                assert(self.entries@ =~= before.update(i as int, (key, value)));
                assert(self.entries@[i as int] == (key, value));
                assert(self.keys() =~= old(self).keys().update(i as int, key@));
                proof {
                    assert forall|a: int, b: int|
                        0 <= a < b < self.keys().len() implies self.keys()[a] != self.keys()[b] by {
                        if a != i && b != i {
                            assert(old(self).keys()[a] != old(self).keys()[b]);
                        } else if a == i {
                            assert(old(self).keys()[b] != old(self).keys()[a]);
                        } else {
                            assert(old(self).keys()[a] != old(self).keys()[b]);
                        }
                    }
                }
            },
            None => {
                self.entries.push((key, value));
                assert(self.entries@[self.entries@.len() - 1] == (key, value));
                assert(self.keys() =~= old(self).keys().push(key@));
                proof {
                    assert forall|a: int, b: int|
                        0 <= a < b < self.keys().len() implies self.keys()[a] != self.keys()[b] by {
                        if b == self.keys().len() - 1 {
                            assert(old(self).keys().contains(old(self).keys()[a]));
                        }
                    }
                }
            },
        }
    }
}

/// Character-wise equality of two string slices.
pub fn str_eq(a: &str, b: &str) -> (r: bool)
    ensures
        r == (a@ == b@),
{
    let n = a.unicode_len();
    if n != b.unicode_len() {
        return false;
    }
    let mut i: usize = 0;
    while i < n
        invariant
            n == a@.len() == b@.len(),
            i <= n,
            forall|j: int| 0 <= j < i ==> a@[j] == b@[j],
        decreases n - i,
    {
        if a.get_char(i) != b.get_char(i) {
            return false;
        }
        i = i + 1;
    }
    assert(a@ =~= b@);
    true
}

} // verus!
