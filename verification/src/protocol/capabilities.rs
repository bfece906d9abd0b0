//! Capabilities of a server, and sets of them. A capability is told apart from another by its
//! kind alone, without regard to ASCII case.
use vstd::prelude::*;

use crate::text::{
    eq_ignore_case, lemma_lex_irreflexive, lemma_lex_total, lemma_lex_trans, lex_less, lex_lt,
    lower_seq, str_eq_ignore_ascii_case, to_ascii_lowercase,
};

verus! {

broadcast use vstd::string::group_string_axioms;

/// Capability tied to a server. A capability is equivalent based on its kind and not description.
#[derive(Clone, Debug)]
pub struct Capability {
    /// Label describing the kind of capability
    pub kind: String,
    /// Information about the capability
    pub description: String,
}

/// The key a capability is compared by: its kind with ASCII letters in lowercase.
pub open spec fn cap_key(c: Capability) -> Seq<char> {
    lower_seq(c.kind@)
}

impl PartialEq for Capability {
    fn eq(&self, other: &Self) -> (r: bool) {
        str_eq_ignore_ascii_case(self.kind.as_str(), other.kind.as_str())
    }
}

impl vstd::std_specs::cmp::PartialEqSpecImpl for Capability {
    open spec fn obeys_eq_spec() -> bool {
        true
    }

    open spec fn eq_spec(&self, other: &Capability) -> bool {
        eq_ignore_case(self.kind@, other.kind@)
    }
}

impl Eq for Capability {}

/// A copy of a capability.
fn dup(c: &Capability) -> (r: Capability)
    ensures
        r == *c,
{
    Capability { kind: c.kind.clone(), description: c.description.clone() }
}

/// Set of supported capabilities for a server: no two of them have the same kind, without
/// regard to ASCII case.
#[derive(Clone, Debug)]
pub struct Capabilities {
    caps: Vec<Capability>,
}

/// Whether no two capabilities have the same key.
pub open spec fn keys_distinct(s: Seq<Capability>) -> bool {
    forall|i: int, j: int| 0 <= i < j < s.len() ==> cap_key(s[i]) != cap_key(s[j])
}

/// Whether the capabilities are in increasing order of their keys.
pub open spec fn sorted_by_key(s: Seq<Capability>) -> bool {
    forall|i: int, j: int| 0 <= i < j < s.len() ==> lex_lt(cap_key(s[i]), cap_key(s[j]))
}

impl Capabilities {
    /// The capabilities of the set, in the order they were added.
    pub closed spec fn items(&self) -> Seq<Capability> {
        self.caps@
    }

    /// Whether the set is consistent: no two capabilities have the same kind.
    pub closed spec fn wf(&self) -> bool {
        keys_distinct(self.caps@)
    }

    /// Whether the set holds a capability of the kind.
    pub open spec fn has_kind(&self, kind: Seq<char>) -> bool {
        exists|i: int| 0 <= i < self.items().len() && cap_key(self.items()[i]) == lower_seq(kind)
    }

    /// Return empty set of capabilities
    pub fn none() -> (r: Self)
        ensures
            r.wf(),
            r.items() == Seq::<Capability>::empty(),
    {
        let r = Capabilities { caps: Vec::new() };
        assert(r.items() =~= Seq::<Capability>::empty());
        r
    }

    /// Number of capabilities.
    pub fn len(&self) -> (r: usize)
        ensures
            r == self.items().len(),
    {
        self.caps.len()
    }

    fn find(&self, kind: &str) -> (r: Option<usize>)
        ensures
            match r {
                Some(i) => i < self.items().len() && cap_key(self.items()[i as int]) == lower_seq(kind@),
                None => !self.has_kind(kind@),
            },
    {
        let mut i: usize = 0;
        while i < self.caps.len()
            invariant
                i <= self.caps@.len(),
                forall|j: int| 0 <= j < i ==> cap_key(self.caps@[j]) != lower_seq(kind@),
            decreases self.caps@.len() - i,
        {
            if str_eq_ignore_ascii_case(self.caps[i].kind.as_str(), kind) {
                return Some(i);
            }
            i = i + 1;
        }
        None
    }

    /// Returns true if the capability with described kind is included
    pub fn contains(&self, kind: &str) -> (r: bool)
        ensures
            r == self.has_kind(kind@),
    {
        self.find(kind).is_some()
    }

    /// Adds the specified capability to the set of capabilities
    ///
    /// * If the set did not have this capability, returns `true`
    /// * If the set did have this capability, returns `false` and the set is unchanged
    pub fn insert(&mut self, cap: Capability) -> (r: bool)
        ensures
            r == !old(self).has_kind(cap.kind@),
            r ==> final(self).items() == old(self).items().push(cap),
            !r ==> final(self).items() == old(self).items(),
            old(self).wf() ==> final(self).wf(),
    {
        if self.contains(cap.kind.as_str()) {
            false
        } else {
            self.caps.push(cap);
            proof {
                assert forall|i: int, j: int| 0 <= i < j < self.caps@.len() && old(self).wf() implies cap_key(
                    self.caps@[i],
                ) != cap_key(self.caps@[j]) by {
                    if j == self.caps@.len() - 1 {
                        assert(self.caps@[i] == old(self).caps@[i]);
                        assert(self.caps@[j] == cap);
                        assert(old(self).items()[i] == old(self).caps@[i]);
                        assert(cap_key(old(self).items()[i]) != lower_seq(cap.kind@));
                    } else {
                        assert(self.caps@[i] == old(self).caps@[i]);
                        assert(self.caps@[j] == old(self).caps@[j]);
                    }
                }
            }
            true
        }
    }

    /// Removes the capability with the described kind, returning the capability
    pub fn take(&mut self, kind: &str) -> (r: Option<Capability>)
        ensures
            match r {
                Some(c) => exists|i: int|
                    0 <= i < old(self).items().len() && old(self).items()[i] == c && cap_key(c)
                        == lower_seq(kind@) && final(self).items() == old(self).items().remove(i),
                None => !old(self).has_kind(kind@) && final(self).items() == old(self).items(),
            },
            old(self).wf() ==> final(self).wf(),
            old(self).wf() ==> !final(self).has_kind(kind@),
    {
        match self.find(kind) {
            Some(i) => {
                let c = self.caps.remove(i);
                proof {
                    let o = old(self).caps@;
                    let t = self.caps@;
                    assert forall|a: int, b: int| 0 <= a < b < t.len() && old(self).wf() implies cap_key(t[a])
                        != cap_key(t[b]) by {
                        let a2 = if a < i { a } else { a + 1 };
                        let b2 = if b < i { b } else { b + 1 };
                        assert(t[a] == o[a2]);
                        assert(t[b] == o[b2]);
                    }
                    if old(self).wf() && self.has_kind(kind@) {
                        let a = choose|a: int| 0 <= a < t.len() && cap_key(t[a]) == lower_seq(kind@);
                        let a2 = if a < i { a } else { a + 1 };
                        assert(t[a] == o[a2]);
                    }
                }
                Some(c)
            },
            None => None,
        }
    }

    /// Removes the capability with the described kind, returning true if it existed
    pub fn remove(&mut self, kind: &str) -> (r: bool)
        ensures
            r == old(self).has_kind(kind@),
            !r ==> final(self).items() == old(self).items(),
            r ==> exists|i: int|
                0 <= i < old(self).items().len() && cap_key(old(self).items()[i]) == lower_seq(kind@)
                    && final(self).items() == old(self).items().remove(i),
            old(self).wf() ==> final(self).wf(),
            old(self).wf() ==> !final(self).has_kind(kind@),
    {
        self.take(kind).is_some()
    }

    /// Converts into vec of capabilities sorted by kind, without regard to ASCII case.
    pub fn into_sorted_vec(self) -> (r: Vec<Capability>)
        requires
            self.wf(),
        ensures
            sorted_by_key(r@),
            r@.len() == self.items().len(),
            forall|c: Capability| r@.contains(c) <==> self.items().contains(c),
    {
        let mut rest = self.caps;
        let ghost all = rest@;
        let mut out: Vec<Capability> = Vec::new();
        while rest.len() > 0
            invariant
                keys_distinct(all),
                sorted_by_key(out@),
                out@.len() + rest@.len() == all.len(),
                forall|c: Capability| all.contains(c) <==> (out@.contains(c) || rest@.contains(c)),
                forall|c: Capability| out@.contains(c) ==> all.contains(c),
                forall|c: Capability| rest@.contains(c) ==> all.contains(c),
                forall|x: Capability, y: Capability|
                    out@.contains(x) && rest@.contains(y) ==> cap_key(x) != cap_key(y),
                forall|a: int, b: int| 0 <= a < b < rest@.len() ==> cap_key(rest@[a]) != cap_key(rest@[b]),
            decreases rest@.len(),
        {
            let ghost rest0 = rest@;
            let ghost out0 = out@;
            let c = rest.pop().unwrap();
            proof {
                assert(rest0 == rest@.push(c));
                assert(rest0.contains(c)) by {
                    assert(rest0[rest0.len() - 1] == c);
                }
            }
            let key = to_ascii_lowercase(c.kind.as_str());
            let mut pos: usize = 0;
            let mut searching = true;
            while searching && pos < out.len()
                invariant
                    out@ == out0,
                    pos <= out@.len(),
                    key@ == cap_key(c),
                    forall|j: int| 0 <= j < pos ==> lex_lt(cap_key(out@[j]), cap_key(c)),
                    !searching ==> pos < out@.len() && !lex_lt(cap_key(out@[pos as int]), cap_key(c)),
                decreases out@.len() - pos + (if searching { 1int } else { 0int }),
            {
                let k = to_ascii_lowercase(out[pos].kind.as_str());
                if lex_less(k.as_str(), key.as_str()) {
                    pos = pos + 1;
                } else {
                    searching = false;
                }
            }
            proof {
                assert forall|j: int| pos <= j < out0.len() implies lex_lt(cap_key(c), cap_key(out0[j])) by {
                    assert(out0.contains(out0[j]));
                    assert(cap_key(out0[j]) != cap_key(c));
                    if pos < out0.len() {
                        assert(!lex_lt(cap_key(out0[pos as int]), cap_key(c)));
                        assert(out0.contains(out0[pos as int]));
                        assert(cap_key(out0[pos as int]) != cap_key(c));
                        lemma_lex_total(cap_key(out0[pos as int]), cap_key(c));
                        if j > pos {
                            lemma_lex_trans(cap_key(c), cap_key(out0[pos as int]), cap_key(out0[j]));
                        }
                    }
                }
            }
            out.insert(pos, c);
            proof {
                let o = out@;
                assert(o == out0.insert(pos as int, c));
                assert forall|a: int, b: int| 0 <= a < b < o.len() implies lex_lt(cap_key(o[a]), cap_key(o[b])) by {
                    if a < pos && b < pos {
                        assert(o[a] == out0[a] && o[b] == out0[b]);
                    } else if a < pos && b == pos {
                        assert(o[a] == out0[a]);
                    } else if a < pos {
                        assert(o[a] == out0[a] && o[b] == out0[b - 1]);
                        lemma_lex_trans(cap_key(out0[a]), cap_key(c), cap_key(out0[b - 1]));
                    } else if a == pos {
                        assert(o[b] == out0[b - 1]);
                    } else {
                        assert(o[a] == out0[a - 1] && o[b] == out0[b - 1]);
                    }
                }
                assert forall|x: Capability| o.contains(x) <==> (out0.contains(x) || x == c) by {
                    if o.contains(x) {
                        let k = choose|k: int| 0 <= k < o.len() && o[k] == x;
                        if k < pos {
                            assert(out0[k] == x);
                        } else if k > pos {
                            assert(out0[k - 1] == x);
                        }
                    }
                    if out0.contains(x) {
                        let k = choose|k: int| 0 <= k < out0.len() && out0[k] == x;
                        if k < pos {
                            assert(o[k] == x);
                        } else {
                            assert(o[k + 1] == x);
                        }
                    }
                    if x == c {
                        assert(o[pos as int] == c);
                    }
                }
                assert forall|x: Capability| rest@.contains(x) ==> rest0.contains(x) by {
                    if rest@.contains(x) {
                        let k = choose|k: int| 0 <= k < rest@.len() && rest@[k] == x;
                        assert(rest0[k] == x);
                    }
                }
                assert forall|x: Capability, y: Capability| o.contains(x) && rest@.contains(y) implies cap_key(x)
                    != cap_key(y) by {
                    let k = choose|k: int| 0 <= k < rest@.len() && rest@[k] == y;
                    assert(rest0[k] == y);
                    if x == c {
                        assert(rest0[rest0.len() - 1] == c);
                        assert(k < rest0.len() - 1);
                    }
                }
                assert forall|c2: Capability| all.contains(c2) <==> (o.contains(c2) || rest@.contains(c2)) by {
                    if rest0.contains(c2) && c2 != c {
                        let k = choose|k: int| 0 <= k < rest0.len() && rest0[k] == c2;
                        assert(k < rest0.len() - 1);
                        assert(rest@[k] == c2);
                    }
                }
                assert forall|a: int, b: int| 0 <= a < b < rest@.len() implies cap_key(rest@[a]) != cap_key(rest@[b]) by {
                    assert(rest@[a] == rest0[a] && rest@[b] == rest0[b]);
                }
            }
        }
        proof {
            assert forall|c: Capability| out@.contains(c) <==> all.contains(c) by {}
        }
        out
    }
}

/// Whether some capability of the list has the given key.
pub open spec fn has_key(s: Seq<Capability>, key: Seq<char>) -> bool {
    exists|i: int| 0 <= i < s.len() && cap_key(s[i]) == key
}

/// The capabilities of `s` whose kind is among those of `other` (`keep`), or is not (`!keep`),
/// in their order in `s`.
pub open spec fn select(s: Seq<Capability>, other: Seq<Capability>, keep: bool) -> Seq<
    Capability,
> {
    s.filter(|c: Capability| has_key(other, cap_key(c)) == keep)
}

/// The capabilities whose kind both lists hold: those of the shorter list (of `a` when both are
/// as long).
pub open spec fn intersection_of(a: Seq<Capability>, b: Seq<Capability>) -> Seq<Capability> {
    if a.len() <= b.len() {
        select(a, b, true)
    } else {
        select(b, a, true)
    }
}

/// The capabilities of `a`, then those of `b` whose kind `a` does not hold.
pub open spec fn union_of(a: Seq<Capability>, b: Seq<Capability>) -> Seq<Capability> {
    a + select(b, a, false)
}

/// The capabilities of `a` whose kind `b` does not hold, then those of `b` whose kind `a` does
/// not hold.
pub open spec fn symmetric_difference_of(a: Seq<Capability>, b: Seq<Capability>) -> Seq<
    Capability,
> {
    select(a, b, false) + select(b, a, false)
}

/// Selecting from no capabilities gives none; selecting against no capabilities keeps every one
/// when keeping those whose kind is absent, and none when keeping those whose kind is present.
proof fn lemma_select_empty(s: Seq<Capability>, keep: bool)
    ensures
        select(Seq::<Capability>::empty(), s, keep) == Seq::<Capability>::empty(),
        select(s, Seq::<Capability>::empty(), false) == s,
        select(s, Seq::<Capability>::empty(), true) == Seq::<Capability>::empty(),
    decreases s.len(),
{
    reveal(Seq::filter);
    let e = Seq::<Capability>::empty();
    assert(select(e, s, keep) =~= e);
    if s.len() > 0 {
        lemma_select_empty(s.drop_last(), keep);
        assert(!has_key(e, cap_key(s.last())));
        assert(s.drop_last().push(s.last()) =~= s);
    } else {
        assert(select(s, e, false) =~= s);
        assert(select(s, e, true) =~= e);
    }
}

/// The empty set of capabilities (what `Capabilities::none` gives) holds no kind, is the
/// identity of union and of symmetric difference, and absorbs intersection, on either side.
pub proof fn lemma_none_laws(c: Capabilities, n: Capabilities)
    requires
        n.items() == Seq::<Capability>::empty(),
    ensures
        forall|kind: Seq<char>| !n.has_kind(kind),
        n.items().len() == 0,
        union_of(c.items(), n.items()) == c.items(),
        union_of(n.items(), c.items()) == c.items(),
        intersection_of(c.items(), n.items()) == n.items(),
        intersection_of(n.items(), c.items()) == n.items(),
        symmetric_difference_of(c.items(), n.items()) == c.items(),
        symmetric_difference_of(n.items(), c.items()) == c.items(),
{
    let e = Seq::<Capability>::empty();
    lemma_select_empty(c.items(), true);
    lemma_select_empty(c.items(), false);
    assert(c.items() + e =~= c.items());
    assert(e + c.items() =~= c.items());
}

/// A filter of capabilities with distinct kinds has distinct kinds, and takes only capabilities
/// of the list.
proof fn lemma_select(s: Seq<Capability>, other: Seq<Capability>, keep: bool)
    requires
        keys_distinct(s),
    ensures
        keys_distinct(select(s, other, keep)),
        forall|c: Capability| #[trigger] select(s, other, keep).contains(c) ==> s.contains(c)
            && has_key(other, cap_key(c)) == keep,
    decreases s.len(),
{
    let p = |c: Capability| has_key(other, cap_key(c)) == keep;
    reveal(Seq::filter);
    if s.len() > 0 {
        let init = s.drop_last();
        assert(keys_distinct(init)) by {
            assert forall|i: int, j: int| 0 <= i < j < init.len() implies cap_key(init[i])
                != cap_key(init[j]) by {
                assert(init[i] == s[i] && init[j] == s[j]);
            }
        }
        lemma_select(init, other, keep);
        let f = select(init, other, keep);
        assert(select(s, other, keep) == if p(s.last()) {
            f.push(s.last())
        } else {
            f
        });
        assert forall|c: Capability| #[trigger] f.contains(c) implies cap_key(c) != cap_key(
            s.last(),
        ) by {
            let k = choose|k: int| 0 <= k < init.len() && init[k] == c;
            assert(s[k] == c);
        }
        assert forall|c: Capability| #[trigger] f.contains(c) implies s.contains(c) by {
            let k = choose|k: int| 0 <= k < init.len() && init[k] == c;
            assert(s[k] == c);
        }
        if p(s.last()) {
            let g = f.push(s.last());
            assert forall|i: int, j: int| 0 <= i < j < g.len() implies cap_key(g[i]) != cap_key(
                g[j],
            ) by {
                if j == g.len() - 1 {
                    assert(f.contains(g[i]));
                }
            }
            assert forall|c: Capability| #[trigger] g.contains(c) implies s.contains(c) && has_key(
                other,
                cap_key(c),
            ) == keep by {
                let k = choose|k: int| 0 <= k < g.len() && g[k] == c;
                if k == g.len() - 1 {
                    assert(s[s.len() - 1] == c);
                } else {
                    assert(f.contains(c));
                }
            }
        }
    }
}

impl Capabilities {
    /// Copies of the capabilities of `src` whose kind is among those of `other` (`keep`), or is
    /// not (`!keep`).
    fn select_from(src: &Vec<Capability>, other: &Capabilities, keep: bool) -> (r: Vec<
        Capability,
    >)
        ensures
            r@ == select(src@, other.items(), keep),
    {
        let mut r: Vec<Capability> = Vec::new();
        let mut i: usize = 0;
        while i < src.len()
            invariant
                i <= src@.len(),
                r@ == select(src@.subrange(0, i as int), other.items(), keep),
            decreases src@.len() - i,
        {
            let c = &src[i];
            let present = other.contains(c.kind.as_str());
            proof {
                let p = |c: Capability| has_key(other.items(), cap_key(c)) == keep;
                assert(src@.subrange(0, i + 1) =~= src@.subrange(0, i as int).push(src@[i as int]));
                src@.subrange(0, i as int).lemma_filter_push(src@[i as int], p);
                assert(present == has_key(other.items(), cap_key(*c)));
            }
            if present == keep {
                r.push(dup(c));
            }
            i = i + 1;
        }
        proof {
            assert(src@.subrange(0, i as int) =~= src@);
        }
        r
    }

    /// The capabilities whose kind both sets hold: those of the smaller set (of `self` when
    /// both have as many).
    pub fn intersection(&self, other: &Capabilities) -> (r: Capabilities)
        ensures
            r.items() == intersection_of(self.items(), other.items()),
            self.wf() && other.wf() ==> r.wf(),
    {
        proof {
            if self.wf() {
                lemma_select(self.caps@, other.caps@, true);
            }
            if other.wf() {
                lemma_select(other.caps@, self.caps@, true);
            }
        }
        if self.caps.len() <= other.caps.len() {
            Capabilities { caps: Capabilities::select_from(&self.caps, other, true) }
        } else {
            Capabilities { caps: Capabilities::select_from(&other.caps, self, true) }
        }
    }

    /// The capabilities of `self`, then those of `other` whose kind `self` does not hold.
    pub fn union(&self, other: &Capabilities) -> (r: Capabilities)
        ensures
            r.items() == union_of(self.items(), other.items()),
            self.wf() && other.wf() ==> r.wf(),
    {
        let mut caps: Vec<Capability> = Vec::new();
        let mut i: usize = 0;
        while i < self.caps.len()
            invariant
                i <= self.caps@.len(),
                caps@ == self.caps@.subrange(0, i as int),
            decreases self.caps@.len() - i,
        {
            caps.push(dup(&self.caps[i]));
            proof {
                assert(caps@ =~= self.caps@.subrange(0, i + 1));
            }
            i = i + 1;
        }
        proof {
            assert(self.caps@.subrange(0, i as int) =~= self.caps@);
        }
        let mut rest = Capabilities::select_from(&other.caps, self, false);
        caps.append(&mut rest);
        proof {
            if self.wf() && other.wf() {
                lemma_select(other.caps@, self.caps@, false);
                lemma_distinct_concat(self.caps@, select(other.caps@, self.caps@, false));
            }
        }
        Capabilities { caps }
    }

    /// The capabilities of `self` whose kind `other` does not hold, then those of `other` whose
    /// kind `self` does not hold.
    pub fn symmetric_difference(&self, other: &Capabilities) -> (r: Capabilities)
        ensures
            r.items() == symmetric_difference_of(self.items(), other.items()),
            self.wf() && other.wf() ==> r.wf(),
    {
        let mut caps = Capabilities::select_from(&self.caps, other, false);
        let mut rest = Capabilities::select_from(&other.caps, self, false);
        caps.append(&mut rest);
        proof {
            if self.wf() && other.wf() {
                lemma_select(self.caps@, other.caps@, false);
                lemma_select(other.caps@, self.caps@, false);
                let a = select(self.caps@, other.caps@, false);
                let b = select(other.caps@, self.caps@, false);
                assert forall|c: Capability| #[trigger] b.contains(c) implies !has_key(
                    a,
                    cap_key(c),
                ) by {
                    if has_key(a, cap_key(c)) {
                        let k = choose|k: int| 0 <= k < a.len() && cap_key(a[k]) == cap_key(c);
                        assert(a.contains(a[k]));
                        let j = choose|j: int| 0 <= j < self.caps@.len() && self.caps@[j] == a[k];
                        assert(cap_key(self.caps@[j]) == cap_key(c));
                    }
                }
                lemma_distinct_concat(a, b);
            }
        }
        Capabilities { caps }
    }
}

/// Two lists with distinct kinds, the second of which holds no kind of the first, make one list
/// with distinct kinds.
proof fn lemma_distinct_concat(a: Seq<Capability>, b: Seq<Capability>)
    requires
        keys_distinct(a),
        keys_distinct(b),
        forall|c: Capability| #[trigger] b.contains(c) ==> !has_key(a, cap_key(c)),
    ensures
        keys_distinct(a + b),
{
    let s = a + b;
    assert forall|i: int, j: int| 0 <= i < j < s.len() implies cap_key(s[i]) != cap_key(s[j]) by {
        if j >= a.len() && i < a.len() {
            assert(s[j] == b[j - a.len()]);
            assert(b.contains(b[j - a.len()]));
            assert(s[i] == a[i]);
        } else if i >= a.len() {
            assert(s[i] == b[i - a.len()] && s[j] == b[j - a.len()]);
        } else {
            assert(s[i] == a[i] && s[j] == a[j]);
        }
    }
}

/// The capabilities of a list, keeping the first of each kind, in order.
pub open spec fn first_of_each(s: Seq<Capability>) -> Seq<Capability>
    decreases s.len(),
{
    if s.len() == 0 {
        Seq::empty()
    } else {
        let f = first_of_each(s.drop_last());
        if has_key(f, cap_key(s.last())) {
            f
        } else {
            f.push(s.last())
        }
    }
}

impl Capabilities {
    /// The set `self` with `cap` added when it holds no capability of that kind.
    pub fn with(&self, cap: Capability) -> (r: Capabilities)
        ensures
            r.items() == self.items() + select(seq![cap], self.items(), false),
            self.wf() ==> r.wf(),
    {
        let mut r = self.union(&Capabilities::none());
        proof {
            assert(select(Seq::<Capability>::empty(), self.items(), false) =~= Seq::<
                Capability,
            >::empty()) by {
                reveal(Seq::filter);
            }
            assert(r.items() =~= self.items());
            let p = |c: Capability| has_key(self.items(), cap_key(c)) == false;
            Seq::<Capability>::empty().lemma_filter_push(cap, p);
            assert(seq![cap] =~= Seq::<Capability>::empty().push(cap));
            assert(Seq::<Capability>::empty().filter(p) =~= Seq::<Capability>::empty()) by {
                reveal(Seq::filter);
            }
            assert(self.has_kind(cap.kind@) == has_key(self.items(), cap_key(cap)));
        }
        if r.insert(cap) {
            proof {
                assert(r.items() =~= self.items() + seq![cap]);
            }
        } else {
            proof {
                assert(r.items() =~= self.items() + Seq::<Capability>::empty());
            }
        }
        r
    }

    /// The set of the capabilities of a list, keeping the first of each kind.
    pub fn from_iter(caps: Vec<Capability>) -> (r: Capabilities)
        ensures
            r.items() == first_of_each(caps@),
            r.wf(),
    {
        let mut r = Capabilities::none();
        let mut i: usize = 0;
        while i < caps.len()
            invariant
                i <= caps@.len(),
                r.wf(),
                r.items() == first_of_each(caps@.subrange(0, i as int)),
            decreases caps@.len() - i,
        {
            let c = dup(&caps[i]);
            proof {
                let s = caps@.subrange(0, i + 1);
                assert(s.drop_last() =~= caps@.subrange(0, i as int));
                assert(s.last() == caps@[i as int]);
                assert(r.has_kind(c.kind@) == has_key(r.items(), cap_key(c)));
            }
            r.insert(c);
            i = i + 1;
        }
        proof {
            assert(caps@.subrange(0, i as int) =~= caps@);
        }
        r
    }
}

impl<'a> core::ops::BitAnd for &'a Capabilities {
    type Output = Capabilities;

    fn bitand(self, rhs: &'a Capabilities) -> (r: Capabilities)
        ensures
            r.items() == intersection_of(self.items(), rhs.items()),
    {
        self.intersection(rhs)
    }
}

impl<'a> vstd::std_specs::ops::BitAndSpecImpl for &'a Capabilities {
    /// The result is described by the `ensures` of `bitand`.
    open spec fn obeys_bitand_spec() -> bool {
        false
    }

    open spec fn bitand_req(self, rhs: &'a Capabilities) -> bool {
        true
    }

    open spec fn bitand_spec(self, rhs: &'a Capabilities) -> Capabilities {
        choose|c: Capabilities| c.items() == self.items()
    }
}

impl<'a> core::ops::BitOr for &'a Capabilities {
    type Output = Capabilities;

    fn bitor(self, rhs: &'a Capabilities) -> (r: Capabilities)
        ensures
            r.items() == union_of(self.items(), rhs.items()),
    {
        self.union(rhs)
    }
}

impl<'a> vstd::std_specs::ops::BitOrSpecImpl for &'a Capabilities {
    /// The result is described by the `ensures` of `bitor`.
    open spec fn obeys_bitor_spec() -> bool {
        false
    }

    open spec fn bitor_req(self, rhs: &'a Capabilities) -> bool {
        true
    }

    open spec fn bitor_spec(self, rhs: &'a Capabilities) -> Capabilities {
        choose|c: Capabilities| c.items() == self.items()
    }
}

impl<'a> core::ops::BitOr<Capability> for &'a Capabilities {
    type Output = Capabilities;

    fn bitor(self, rhs: Capability) -> (r: Capabilities)
        ensures
            r.items() == self.items() + select(seq![rhs], self.items(), false),
    {
        self.with(rhs)
    }
}

impl<'a> vstd::std_specs::ops::BitOrSpecImpl<Capability> for &'a Capabilities {
    /// The result is described by the `ensures` of `bitor`.
    open spec fn obeys_bitor_spec() -> bool {
        false
    }

    open spec fn bitor_req(self, rhs: Capability) -> bool {
        true
    }

    open spec fn bitor_spec(self, rhs: Capability) -> Capabilities {
        choose|c: Capabilities| c.items() == self.items()
    }
}

impl<'a> core::ops::BitXor for &'a Capabilities {
    type Output = Capabilities;

    fn bitxor(self, rhs: &'a Capabilities) -> (r: Capabilities)
        ensures
            r.items() == symmetric_difference_of(self.items(), rhs.items()),
    {
        self.symmetric_difference(rhs)
    }
}

impl<'a> vstd::std_specs::ops::BitXorSpecImpl for &'a Capabilities {
    /// The result is described by the `ensures` of `bitxor`.
    open spec fn obeys_bitxor_spec() -> bool {
        false
    }

    open spec fn bitxor_req(self, rhs: &'a Capabilities) -> bool {
        true
    }

    open spec fn bitxor_spec(self, rhs: &'a Capabilities) -> Capabilities {
        choose|c: Capabilities| c.items() == self.items()
    }
}

} // verus!
