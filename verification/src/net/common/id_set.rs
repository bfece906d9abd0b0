//! A set of numeric ids, kept in the order they were added.
use vstd::prelude::*;

verus! {

/// A set of ids; each id is held once.
pub struct IdSet {
    ids: Vec<u32>,
}

impl View for IdSet {
    type V = Set<u32>;

    closed spec fn view(&self) -> Set<u32> {
        Set::new(|c: u32| self.ids@.contains(c))
    }
}

impl IdSet {
    /// No id is held twice.
    pub closed spec fn wf(&self) -> bool {
        self.ids@.no_duplicates()
    }

    /// An empty set.
    pub fn new() -> (r: Self)
        ensures
            r.wf(),
            r@ == Set::<u32>::empty(),
    {
        let r = IdSet { ids: Vec::new() };
        assert(r@ =~= Set::<u32>::empty());
        r
    }

    /// Position of an id in the set.
    fn find(&self, id: u32) -> (r: Option<usize>)
        ensures
            match r {
                Some(i) => i < self.ids@.len() && self.ids@[i as int] == id,
                None => !self.ids@.contains(id),
            },
    {
        let mut i: usize = 0;
        while i < self.ids.len()
            invariant
                i <= self.ids@.len(),
                forall|j: int| 0 <= j < i ==> self.ids@[j] != id,
            decreases self.ids@.len() - i,
        {
            if self.ids[i] == id {
                return Some(i);
            }
            i = i + 1;
        }
        None
    }

    /// Whether an id is in the set.
    pub fn contains(&self, id: u32) -> (r: bool)
        ensures
            r == self@.contains(id),
    {
        match self.find(id) {
            Some(_) => true,
            None => false,
        }
    }

    /// Adds an id; adding it again changes nothing.
    pub fn insert(&mut self, id: u32)
        requires
            old(self).wf(),
        ensures
            final(self).wf(),
            final(self)@ == old(self)@.insert(id),
    {
        let ghost before = self.ids@;
        match self.find(id) {
            Some(_) => {
                assert(self@ =~= old(self)@.insert(id));
            },
            None => {
                self.ids.push(id);
                assert forall|c: u32| #[trigger] self.ids@.contains(c) <==> (before.contains(c)
                    || c == id) by {
                    if self.ids@.contains(c) {
                        let j = choose|j: int| 0 <= j < self.ids@.len() && self.ids@[j] == c;
                        if j < before.len() {
                            assert(before[j] == c);
                        }
                    }
                    if before.contains(c) {
                        let j = choose|j: int| 0 <= j < before.len() && before[j] == c;
                        assert(self.ids@[j] == c);
                    }
                    if c == id {
                        assert(self.ids@[before.len() as int] == c);
                    }
                }
                assert(self@ =~= old(self)@.insert(id));
            },
        }
    }

    /// Takes an id out of the set; says whether it was there.
    pub fn remove(&mut self, id: u32) -> (r: bool)
        requires
            old(self).wf(),
        ensures
            final(self).wf(),
            final(self)@ == old(self)@.remove(id),
            r == old(self)@.contains(id),
    {
        let ghost before = self.ids@;
        match self.find(id) {
            Some(i) => {
                self.ids.remove(i);
                assert forall|c: u32| #[trigger] self.ids@.contains(c) <==> (before.contains(c) && c
                    != id) by {
                    if self.ids@.contains(c) {
                        let j = choose|j: int| 0 <= j < self.ids@.len() && self.ids@[j] == c;
                        if j < i {
                            assert(before[j] == c);
                        } else {
                            assert(before[j + 1] == c);
                        }
                    }
                    if before.contains(c) && c != id {
                        let j = choose|j: int| 0 <= j < before.len() && before[j] == c;
                        if j < i {
                            assert(self.ids@[j] == c);
                        } else {
                            assert(j != i);
                            assert(self.ids@[j - 1] == c);
                        }
                    }
                }
                assert(self@ =~= old(self)@.remove(id));
                assert(before[i as int] == id);
                true
            },
            None => {
                assert(self@ =~= old(self)@.remove(id));
                false
            },
        }
    }

    /// The ids in the set, each once.
    pub fn to_vec(&self) -> (r: Vec<u32>)
        requires
            self.wf(),
        ensures
            r@.no_duplicates(),
            r@.to_set() == self@,
            r@.len() == self@.len(),
    {
        let r = self.ids.clone();
        assert(r@ == self.ids@);
        assert(r@.to_set() =~= self@);
        proof {
            r@.unique_seq_to_set();
        }
        r
    }
}

} // verus!
