//! A map of string keys to string values, used for options passed around with connections.
use vstd::prelude::*;

use crate::text::str_eq;

verus! {

broadcast use vstd::string::group_string_axioms;

/// A map of string keys to string values; each key occurs once, and entries keep the order in
/// which their keys were first inserted.
#[derive(Clone, Debug, Default)]
pub struct StringMap {
    entries: Vec<(String, String)>,
}

impl StringMap {
    /// Whether no key occurs twice among the entries; every map built by `new` and `insert` is
    /// so.
    pub open spec fn keys_unique(self) -> bool {
        forall|i: int, j: int|
            0 <= i < j < self.pairs().len() ==> self.pairs()[i].0 != self.pairs()[j].0
    }

    /// The entries of the map in order, as pairs of texts.
    pub closed spec fn pairs(self) -> Seq<(Seq<char>, Seq<char>)> {
        self.entries@.map_values(|e: (String, String)| (e.0@, e.1@))
    }

    /// Creates an empty map.
    pub fn new() -> (r: Self)
        ensures
            r.pairs() == Seq::<(Seq<char>, Seq<char>)>::empty(),
            r.keys_unique(),
    {
        let r = StringMap { entries: Vec::new() };
        proof {
            assert(r.pairs() =~= Seq::<(Seq<char>, Seq<char>)>::empty());
        }
        r
    }

    /// Number of entries.
    pub fn len(&self) -> (r: usize)
        ensures
            r == self.pairs().len(),
    {
        self.entries.len()
    }

    /// Whether the map has no entry.
    pub fn is_empty(&self) -> (r: bool)
        ensures
            r == (self.pairs().len() == 0),
    {
        self.entries.len() == 0
    }

    /// Position of the entry with the given key, if any.
    fn position(&self, key: &str) -> (r: Option<usize>)
        ensures
            match r {
                Some(i) => i < self.pairs().len() && self.pairs()[i as int].0 == key@,
                None => forall|i: int| 0 <= i < self.pairs().len() ==> self.pairs()[i].0 != key@,
            },
    {
        let mut i: usize = 0;
        while i < self.entries.len()
            invariant
                i <= self.entries@.len(),
                forall|j: int| 0 <= j < i ==> self.pairs()[j].0 != key@,
            decreases self.entries@.len() - i,
        {
            if str_eq(self.entries[i].0.as_str(), key) {
                return Some(i);
            }
            i = i + 1;
        }
        None
    }

    /// The value stored under the key, if any.
    pub fn get(&self, key: &str) -> (r: Option<&String>)
        ensures
            match r {
                Some(v) => exists|i: int|
                    0 <= i < self.pairs().len() && self.pairs()[i] == (key@, v@),
                None => forall|i: int| 0 <= i < self.pairs().len() ==> self.pairs()[i].0 != key@,
            },
    {
        match self.position(key) {
            Some(i) => Some(&self.entries[i].1),
            None => None,
        }
    }

    /// Stores the value under the key, replacing the value it had; returns the replaced value.
    pub fn insert(&mut self, key: String, value: String) -> (r: Option<String>)
        ensures
            match r {
                Some(old_v) => exists|i: int|
                    0 <= i < old(self).pairs().len() && old(self).pairs()[i] == (key@, old_v@)
                        && final(self).pairs() == old(self).pairs().update(i, (key@, value@)),
                None => (forall|i: int|
                    0 <= i < old(self).pairs().len() ==> old(self).pairs()[i].0 != key@)
                    && final(self).pairs() == old(self).pairs().push((key@, value@)),
            },
            old(self).keys_unique() ==> final(self).keys_unique(),
            final(self).pairs().contains((key@, value@)),
            forall|p: (Seq<char>, Seq<char>)|
                old(self).pairs().contains(p) && p.0 != key@ ==> #[trigger] final(self).pairs().contains(p),
    {
        match self.position(key.as_str()) {
            Some(i) => {
                let old_value = self.entries[i].1.clone();
                self.entries.set(i, (key, value));
                proof {
                    assert(self.pairs() =~= old(self).pairs().update(i as int, (key@, value@)));
                    assert(self.pairs()[i as int] == (key@, value@));
                    assert forall|p: (Seq<char>, Seq<char>)|
                        old(self).pairs().contains(p) && p.0 != key@ implies #[trigger] self.pairs().contains(p) by {
                        let j = choose|j: int| 0 <= j < old(self).pairs().len() && old(self).pairs()[j] == p;
                        assert(self.pairs()[j] == p);
                    }
                }
                Some(old_value)
            },
            None => {
                self.entries.push((key, value));
                proof {
                    assert(self.pairs() =~= old(self).pairs().push((key@, value@)));
                    assert(self.pairs()[old(self).pairs().len() as int] == (key@, value@));
                    assert forall|p: (Seq<char>, Seq<char>)|
                        old(self).pairs().contains(p) && p.0 != key@ implies #[trigger] self.pairs().contains(p) by {
                        let j = choose|j: int| 0 <= j < old(self).pairs().len() && old(self).pairs()[j] == p;
                        assert(self.pairs()[j] == p);
                    }
                }
                None
            },
        }
    }

    /// A copy of the map with the same entries.
    pub fn clone_map(&self) -> (r: Self)
        ensures
            r.pairs() == self.pairs(),
    {
        let mut entries: Vec<(String, String)> = Vec::new();
        let mut i: usize = 0;
        while i < self.entries.len()
            invariant
                i <= self.entries@.len(),
                entries@.len() == i,
                entries@.map_values(|e: (String, String)| (e.0@, e.1@)) == self.pairs().subrange(
                    0,
                    i as int,
                ),
            decreases self.entries@.len() - i,
        {
            let k = self.entries[i].0.clone();
            let v = self.entries[i].1.clone();
            let ghost prev = entries@;
            entries.push((k, v));
            proof {
                let mapped = entries@.map_values(|e: (String, String)| (e.0@, e.1@));
                let want = self.pairs().subrange(0, i + 1);
                assert forall|j: int| 0 <= j < i + 1 implies mapped[j] == want[j] by {
                    if j < i {
                        assert(entries@[j] == prev[j]);
                        assert(prev.map_values(|e: (String, String)| (e.0@, e.1@))[j] == self.pairs().subrange(0, i as int)[j]);
                    }
                }
                assert(mapped =~= want);
            }
            i = i + 1;
        }
        proof {
            assert(self.pairs().subrange(0, i as int) =~= self.pairs());
        }
        StringMap { entries }
    }

    /// The entries in order, as pairs of key and value.
    pub fn entries(&self) -> (r: &Vec<(String, String)>)
        ensures
            r@.map_values(|e: (String, String)| (e.0@, e.1@)) == self.pairs(),
    {
        &self.entries
    }
}

} // verus!
