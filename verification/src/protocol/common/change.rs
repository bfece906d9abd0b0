//! Changes to paths on the filesystem, the kinds of change, and sets of kinds.
use vstd::prelude::*;

use crate::bitset::{
    bit_positions, has_bit, lemma_bit_and_not, lemma_bit_or, lemma_bit_positions, lemma_bit_single,
    lemma_bit_zero, lemma_bits_determine, test_bit,
};
use crate::text::{
    copy_str, first_index_of, has_char, is_ws, join_on, lemma_first_index_of, lemma_join_push,
    lemma_split_join, lemma_trim_plain, push_char, push_str, split_on, split_once, str_eq, trim,
    trim_spec,
};
use crate::std_types::PathBuf;

verus! {

broadcast use vstd::string::group_string_axioms;

/// Change to a path on the filesystem.
#[derive(Clone, Debug, PartialEq, Eq)]
pub struct Change {
    /// Unix timestamp (in seconds) when the server was notified of this change (not when the
    /// change occurred)
    pub timestamp: u64,
    /// Label describing the kind of change
    pub kind: ChangeKind,
    /// Path that was changed
    pub path: PathBuf,
    /// Additional details associated with the change
    pub details: ChangeDetails,
}

/// Optional details about a change.
#[derive(Clone, Debug, Default, PartialEq, Eq)]
pub struct ChangeDetails {
    /// Clarity on type of attribute change that occurred (for kind == attribute).
    pub attribute: Option<ChangeDetailsAttribute>,
    /// When event is renaming, this will be populated with the resulting name
    /// when we know both the old and new names (for kind == rename)
    pub renamed: Option<PathBuf>,
    /// Unix timestamps (in seconds) related to the change.
    pub timestamp: Option<u64>,
    /// Optional information about the change that is typically platform-specific.
    pub extra: Option<String>,
}

impl ChangeDetails {
    /// Returns true if no details are contained within.
    pub fn is_empty(&self) -> (r: bool)
        ensures
            r == (self.attribute is None && self.renamed is None && self.timestamp is None
                && self.extra is None),
    {
        self.attribute.is_none() && self.renamed.is_none() && self.timestamp.is_none()
            && self.extra.is_none()
    }
}

/// Specific details about modification
#[derive(Copy, Clone, Debug, Hash, PartialEq, Eq)]
pub enum ChangeDetailsAttribute {
    Ownership,
    Permissions,
    Timestamp,
}

/// Represents a label attached to a [`Change`] that describes the kind of change.
///
/// This mirrors events seen from `incron`.
#[derive(Copy, Clone, Debug, Hash, PartialEq, Eq, Structural, PartialOrd, Ord)]
pub enum ChangeKind {
    /// A file was read
    Access,
    /// A file's or directory's attributes were changed
    Attribute,
    /// A file open for writing was closed
    CloseWrite,
    /// A file not open for writing was closed
    CloseNoWrite,
    /// A file, directory, or something else was created within a watched directory
    Create,
    /// A file, directory, or something else was deleted
    Delete,
    /// A file's content was modified
    Modify,
    /// A file was opened
    Open,
    /// A file, directory, or something else was renamed in some way
    Rename,
    /// Catch-all for any other change
    Unknown,
}

/// Number of kinds of change.
pub const KIND_COUNT: u32 = 10;

/// Position of a kind in declaration order, which is also the order of `Ord`.
pub open spec fn kind_index(k: ChangeKind) -> nat {
    match k {
        ChangeKind::Access => 0,
        ChangeKind::Attribute => 1,
        ChangeKind::CloseWrite => 2,
        ChangeKind::CloseNoWrite => 3,
        ChangeKind::Create => 4,
        ChangeKind::Delete => 5,
        ChangeKind::Modify => 6,
        ChangeKind::Open => 7,
        ChangeKind::Rename => 8,
        ChangeKind::Unknown => 9,
    }
}

/// The kind at a position in declaration order.
pub open spec fn kind_at(i: nat) -> ChangeKind {
    if i == 0 {
        ChangeKind::Access
    } else if i == 1 {
        ChangeKind::Attribute
    } else if i == 2 {
        ChangeKind::CloseWrite
    } else if i == 3 {
        ChangeKind::CloseNoWrite
    } else if i == 4 {
        ChangeKind::Create
    } else if i == 5 {
        ChangeKind::Delete
    } else if i == 6 {
        ChangeKind::Modify
    } else if i == 7 {
        ChangeKind::Open
    } else if i == 8 {
        ChangeKind::Rename
    } else {
        ChangeKind::Unknown
    }
}

/// The snake-case name of a kind, as it is displayed and parsed.
pub open spec fn kind_name(k: ChangeKind) -> Seq<char> {
    match k {
        ChangeKind::Access => "access"@,
        ChangeKind::Attribute => "attribute"@,
        ChangeKind::CloseWrite => "close_write"@,
        ChangeKind::CloseNoWrite => "close_no_write"@,
        ChangeKind::Create => "create"@,
        ChangeKind::Delete => "delete"@,
        ChangeKind::Modify => "modify"@,
        ChangeKind::Open => "open"@,
        ChangeKind::Rename => "rename"@,
        ChangeKind::Unknown => "unknown"@,
    }
}

/// Declaration positions listed in the order of the kinds' names.
pub open spec fn name_order() -> Seq<nat> {
    seq![0, 1, 3, 2, 4, 5, 6, 7, 8, 9]
}

/// Alphabetical position of the name of the kind at declaration position `i`.
pub open spec fn name_pos(i: nat) -> int {
    if i == 2 {
        3
    } else if i == 3 {
        2
    } else {
        i as int
    }
}

proof fn lemma_name_pos(i: nat)
    requires
        i < 10,
    ensures
        0 <= name_pos(i) < 10,
        name_order()[name_pos(i)] == i,
{
}

proof fn lemma_kind_index(k: ChangeKind)
    ensures
        kind_index(k) < 10,
        kind_at(kind_index(k)) == k,
{
}

proof fn lemma_kind_at(i: nat)
    requires
        i < 10,
    ensures
        kind_index(kind_at(i)) == i,
{
}

impl ChangeKind {
    /// Position of this kind in declaration order.
    pub fn index(&self) -> (r: u32)
        ensures
            r as nat == kind_index(*self),
    {
        match self {
            ChangeKind::Access => 0,
            ChangeKind::Attribute => 1,
            ChangeKind::CloseWrite => 2,
            ChangeKind::CloseNoWrite => 3,
            ChangeKind::Create => 4,
            ChangeKind::Delete => 5,
            ChangeKind::Modify => 6,
            ChangeKind::Open => 7,
            ChangeKind::Rename => 8,
            ChangeKind::Unknown => 9,
        }
    }

    /// The kind at a position in declaration order.
    pub fn from_index(i: u32) -> (r: ChangeKind)
        requires
            i < 10,
        ensures
            r == kind_at(i as nat),
    {
        if i == 0 {
            ChangeKind::Access
        } else if i == 1 {
            ChangeKind::Attribute
        } else if i == 2 {
            ChangeKind::CloseWrite
        } else if i == 3 {
            ChangeKind::CloseNoWrite
        } else if i == 4 {
            ChangeKind::Create
        } else if i == 5 {
            ChangeKind::Delete
        } else if i == 6 {
            ChangeKind::Modify
        } else if i == 7 {
            ChangeKind::Open
        } else if i == 8 {
            ChangeKind::Rename
        } else {
            ChangeKind::Unknown
        }
    }

    /// The snake-case name of this kind.
    pub fn name(&self) -> (r: &'static str)
        ensures
            r@ == kind_name(*self),
    {
        match self {
            ChangeKind::Access => "access",
            ChangeKind::Attribute => "attribute",
            ChangeKind::CloseWrite => "close_write",
            ChangeKind::CloseNoWrite => "close_no_write",
            ChangeKind::Create => "create",
            ChangeKind::Delete => "delete",
            ChangeKind::Modify => "modify",
            ChangeKind::Open => "open",
            ChangeKind::Rename => "rename",
            ChangeKind::Unknown => "unknown",
        }
    }

    /// The snake-case name of this kind, as a new string.
    pub fn to_string(&self) -> (r: String)
        ensures
            r@ == kind_name(*self),
    {
        copy_str(self.name())
    }

    /// Parses a kind from its snake-case name.
    pub fn from_name(s: &str) -> (r: Option<ChangeKind>)
        ensures
            match r {
                Some(k) => s@ == kind_name(k),
                None => forall|k: ChangeKind| s@ != #[trigger] kind_name(k),
            },
    {
        let mut i: u32 = 0;
        while i < 10
            invariant
                i <= 10,
                forall|j: nat| j < i ==> s@ != #[trigger] kind_name(kind_at(j)),
            decreases 10 - i,
        {
            let k = ChangeKind::from_index(i);
            if str_eq(s, k.name()) {
                return Some(k);
            }
            i = i + 1;
        }
        proof {
            assert forall|k: ChangeKind| s@ != #[trigger] kind_name(k) by {
                lemma_kind_index(k);
                assert(s@ != kind_name(kind_at(kind_index(k))));
            }
        }
        None
    }

    /// Returns a list of all variants as str names
    pub fn variants() -> (r: Vec<&'static str>)
        ensures
            r@.len() == 10,
            forall|i: int| 0 <= i < 10 ==> (#[trigger] r@[i])@ == kind_name(kind_at(i as nat)),
    {
        let mut r: Vec<&'static str> = Vec::new();
        let mut i: u32 = 0;
        while i < 10
            invariant
                i <= 10,
                r@.len() == i,
                forall|j: int| 0 <= j < i ==> (#[trigger] r@[j])@ == kind_name(kind_at(j as nat)),
            decreases 10 - i,
        {
            r.push(ChangeKind::from_index(i).name());
            i = i + 1;
        }
        r
    }

    /// Returns a list of all variants as a vec
    pub fn all() -> (r: Vec<ChangeKind>)
        ensures
            r@ == bit_positions(0x3ff, 10).map_values(|i: nat| kind_at(i)),
            r@.len() == 10,
            forall|i: int| 0 <= i < 10 ==> r@[i] == kind_at(i as nat),
    {
        let set = ChangeKindSet::all();
        let r = set.into_sorted_vec();
        proof {
            lemma_all_positions();
            assert forall|i: int| 0 <= i < 10 implies r@[i] == kind_at(i as nat) by {
                assert(bit_positions(0x3ff, 10)[i] == i as nat);
            }
        }
        r
    }

    /// Returns true if kind is part of the access family.
    pub fn is_access(&self) -> (r: bool)
        ensures
            r == self.is_access_spec(),
    {
        match self {
            ChangeKind::Access | ChangeKind::CloseWrite | ChangeKind::CloseNoWrite
            | ChangeKind::Open => true,
            _ => false,
        }
    }

    /// Returns true if kind is part of the create family.
    pub fn is_create(&self) -> (r: bool)
        ensures
            r == (*self == ChangeKind::Create),
    {
        match self {
            ChangeKind::Create => true,
            _ => false,
        }
    }

    /// Returns true if kind is part of the delete family.
    pub fn is_delete(&self) -> (r: bool)
        ensures
            r == (*self == ChangeKind::Delete),
    {
        match self {
            ChangeKind::Delete => true,
            _ => false,
        }
    }

    /// Whether the kind is of the access family.
    pub open spec fn is_access_spec(&self) -> bool {
        matches!(
            *self,
            ChangeKind::Access | ChangeKind::CloseWrite | ChangeKind::CloseNoWrite
                | ChangeKind::Open
        )
    }

    /// Whether the kind is the opening of a file.
    pub open spec fn is_open_spec(&self) -> bool {
        *self == ChangeKind::Open
    }

    /// Whether the kind is the closing of a file, after writing or not.
    pub open spec fn is_close_spec(&self) -> bool {
        *self == ChangeKind::CloseWrite || *self == ChangeKind::CloseNoWrite
    }

    /// Whether the kind is of the modify family: attributes or contents.
    pub open spec fn is_modify_spec(&self) -> bool {
        *self == ChangeKind::Attribute || *self == ChangeKind::Modify
    }

    /// Returns true if kind is part of the modify family.
    pub fn is_modify(&self) -> (r: bool)
        ensures
            r == self.is_modify_spec(),
    {
        match self {
            ChangeKind::Attribute | ChangeKind::Modify => true,
            _ => false,
        }
    }

    /// Returns true if kind is part of the rename family.
    pub fn is_rename(&self) -> (r: bool)
        ensures
            r == (*self == ChangeKind::Rename),
    {
        match self {
            ChangeKind::Rename => true,
            _ => false,
        }
    }

    /// Returns true if kind is unknown.
    pub fn is_unknown(&self) -> (r: bool)
        ensures
            r == (*self == ChangeKind::Unknown),
    {
        match self {
            ChangeKind::Unknown => true,
            _ => false,
        }
    }
}

proof fn lemma_all_positions()
    ensures
        bit_positions(0x3ff, 10) == seq![0nat, 1, 2, 3, 4, 5, 6, 7, 8, 9],
{
    assert forall|i: u32| i < 10 implies ((0x3ffu32 >> i) & 1 == 1) by {
        assert(i < 10 ==> ((0x3ffu32 >> i) & 1 == 1)) by (bit_vector);
    }
    reveal_with_fuel(bit_positions, 11);
    assert(has_bit(0x3ff, 0));
    assert(has_bit(0x3ff, 1));
    assert(has_bit(0x3ff, 2));
    assert(has_bit(0x3ff, 3));
    assert(has_bit(0x3ff, 4));
    assert(has_bit(0x3ff, 5));
    assert(has_bit(0x3ff, 6));
    assert(has_bit(0x3ff, 7));
    assert(has_bit(0x3ff, 8));
    assert(has_bit(0x3ff, 9));
}

/// Represents a distinct set of different change kinds
#[derive(Copy, Clone, Debug, Hash, PartialEq, Eq, Structural)]
pub struct ChangeKindSet {
    mask: u32,
}

/// Error returned when a word does not name any kind of change.
#[derive(Copy, Clone, Debug, PartialEq, Eq, Structural)]
pub enum ParseKindError {
    /// No kind of change has this name
    VariantNotFound,
}

impl View for ChangeKindSet {
    type V = Set<ChangeKind>;

    closed spec fn view(&self) -> Set<ChangeKind> {
        Set::new(|k: ChangeKind| has_bit(self.mask, kind_index(k)))
    }
}

/// The kinds whose bits are set in `mask`, in declaration order.
pub open spec fn kinds_of(mask: u32) -> Seq<ChangeKind> {
    bit_positions(mask, 10).map_values(|i: nat| kind_at(i))
}

/// The names of the kinds whose bits are set in `mask`, among the first `j` names in
/// alphabetical order.
pub open spec fn names_upto(mask: u32, j: nat) -> Seq<Seq<char>>
    decreases j,
{
    if j == 0 {
        Seq::empty()
    } else {
        let i = name_order()[j - 1];
        if has_bit(mask, i) {
            names_upto(mask, (j - 1) as nat).push(kind_name(kind_at(i)))
        } else {
            names_upto(mask, (j - 1) as nat)
        }
    }
}

/// The names of the kinds whose bits are set in `mask`, in alphabetical order.
pub open spec fn names_of(mask: u32) -> Seq<Seq<char>> {
    names_upto(mask, 10)
}

/// Whether a word names some kind of change.
pub open spec fn is_kind_name(w: Seq<char>) -> bool {
    exists|k: ChangeKind| kind_name(k) == w
}

/// Whether every word, once trimmed, names a kind of change.
pub open spec fn words_valid(ws: Seq<Seq<char>>) -> bool {
    forall|i: int| 0 <= i < ws.len() ==> is_kind_name(trim_spec(#[trigger] ws[i]))
}

/// The kinds named by the trimmed words.
pub open spec fn kinds_named(ws: Seq<Seq<char>>) -> Set<ChangeKind> {
    Set::new(|k: ChangeKind| exists|i: int| 0 <= i < ws.len() && trim_spec(#[trigger] ws[i]) == kind_name(k))
}

/// Facts about the name of a kind: it is not empty, holds no comma and no whitespace at its ends.
pub proof fn lemma_kind_name(k: ChangeKind)
    ensures
        kind_name(k).len() > 0,
        !has_char(kind_name(k), ','),
        !is_ws(kind_name(k)[0]),
        !is_ws(kind_name(k).last()),
        trim_spec(kind_name(k)) == kind_name(k),
{
    reveal_strlit("access");
    reveal_strlit("attribute");
    reveal_strlit("close_write");
    reveal_strlit("close_no_write");
    reveal_strlit("create");
    reveal_strlit("delete");
    reveal_strlit("modify");
    reveal_strlit("open");
    reveal_strlit("rename");
    reveal_strlit("unknown");
    lemma_trim_plain(kind_name(k));
}

/// No two kinds share a name.
pub proof fn lemma_kind_name_injective(a: ChangeKind, b: ChangeKind)
    requires
        kind_name(a) == kind_name(b),
    ensures
        a == b,
{
    reveal_strlit("access");
    reveal_strlit("attribute");
    reveal_strlit("close_write");
    reveal_strlit("close_no_write");
    reveal_strlit("create");
    reveal_strlit("delete");
    reveal_strlit("modify");
    reveal_strlit("open");
    reveal_strlit("rename");
    reveal_strlit("unknown");
    assert(kind_of_name_key(kind_name(a).len(), kind_name(a)[0]) == a);
    assert(kind_of_name_key(kind_name(b).len(), kind_name(b)[0]) == b);
}

/// The kind whose name has the given length and first character.
spec fn kind_of_name_key(len: nat, first: char) -> ChangeKind {
    if len == 9 {
        ChangeKind::Attribute
    } else if len == 11 {
        ChangeKind::CloseWrite
    } else if len == 14 {
        ChangeKind::CloseNoWrite
    } else if len == 4 {
        ChangeKind::Open
    } else if len == 7 {
        ChangeKind::Unknown
    } else if first == 'a' {
        ChangeKind::Access
    } else if first == 'c' {
        ChangeKind::Create
    } else if first == 'd' {
        ChangeKind::Delete
    } else if first == 'm' {
        ChangeKind::Modify
    } else {
        ChangeKind::Rename
    }
}

/// Membership in `names_upto`: the names of the kinds among the first `j` in name order
/// whose bit is set.
proof fn lemma_names_upto(mask: u32, j: nat)
    requires
        j <= 10,
    ensures
        forall|w: Seq<char>| #[trigger] names_upto(mask, j).contains(w) <==> exists|p: int|
            0 <= p < j && has_bit(mask, name_order()[p]) && w == kind_name(
                kind_at(name_order()[p]),
            ),
    decreases j,
{
    if j > 0 {
        lemma_names_upto(mask, (j - 1) as nat);
        let prev = names_upto(mask, (j - 1) as nat);
        let cur = names_upto(mask, j);
        let i = name_order()[j - 1];
        assert forall|w: Seq<char>| #[trigger] cur.contains(w) <==> exists|p: int|
            0 <= p < j && has_bit(mask, name_order()[p]) && w == kind_name(
                kind_at(name_order()[p]),
            ) by {
            if has_bit(mask, i) {
                assert(cur == prev.push(kind_name(kind_at(i))));
                if cur.contains(w) {
                    let a = choose|a: int| 0 <= a < cur.len() && cur[a] == w;
                    if a < prev.len() {
                        assert(prev.contains(w));
                    } else {
                        assert(w == kind_name(kind_at(i)));
                    }
                }
                if exists|p: int|
                    0 <= p < j && has_bit(mask, name_order()[p]) && w == kind_name(
                        kind_at(name_order()[p]),
                    ) {
                    let p = choose|p: int|
                        0 <= p < j && has_bit(mask, name_order()[p]) && w == kind_name(
                            kind_at(name_order()[p]),
                        );
                    if p < j - 1 {
                        assert(prev.contains(w));
                        let a = choose|a: int| 0 <= a < prev.len() && prev[a] == w;
                        assert(cur[a] == w);
                    } else {
                        assert(cur[prev.len() as int] == w);
                    }
                }
            } else {
                if exists|p: int|
                    0 <= p < j && has_bit(mask, name_order()[p]) && w == kind_name(
                        kind_at(name_order()[p]),
                    ) {
                    let p = choose|p: int|
                        0 <= p < j && has_bit(mask, name_order()[p]) && w == kind_name(
                            kind_at(name_order()[p]),
                        );
                    assert(p != j - 1);
                }
            }
        }
    }
}

/// Position in declaration order of the kind whose name comes `j`-th alphabetically.
fn name_order_at(j: u32) -> (r: u32)
    requires
        j < 10,
    ensures
        r as nat == name_order()[j as int],
        r < 10,
{
    if j == 2 {
        3
    } else if j == 3 {
        2
    } else {
        j
    }
}

impl ChangeKindSet {
    #[verifier::type_invariant]
    spec fn inv(self) -> bool {
        self.mask < 1024
    }

    /// The bits of the set; only the ten lowest can be set.
    pub closed spec fn bits(self) -> u32 {
        self.mask
    }

    /// The kinds in the set, in declaration order.
    pub closed spec fn sorted(self) -> Seq<ChangeKind> {
        kinds_of(self.mask)
    }

    /// The names of the kinds in the set, in alphabetical order.
    pub closed spec fn sorted_names(self) -> Seq<Seq<char>> {
        names_of(self.mask)
    }

    /// Facts relating the kinds in declaration order to the view.
    pub proof fn lemma_sorted(self)
        ensures
            forall|k: ChangeKind| #[trigger] self.sorted().contains(k) <==> self@.contains(k),
            self.sorted().no_duplicates(),
            self.sorted().to_set() == self@,
            self@.finite(),
            self@.len() == self.sorted().len(),
            forall|a: int, b: int|
                0 <= a < b < self.sorted().len() ==> kind_index(self.sorted()[a]) < kind_index(
                    self.sorted()[b],
                ),
    {
        let p = bit_positions(self.mask, 10);
        lemma_bit_positions(self.mask, 10);
        let s = self.sorted();
        assert forall|a: int| 0 <= a < s.len() implies kind_index(#[trigger] s[a]) == p[a] by {
            lemma_kind_at(p[a]);
        }
        assert forall|k: ChangeKind| #[trigger] s.contains(k) <==> self@.contains(k) by {
            lemma_kind_index(k);
            if s.contains(k) {
                let a = choose|a: int| 0 <= a < s.len() && s[a] == k;
                assert(p.contains(p[a]));
            }
            if self@.contains(k) {
                assert(p.contains(kind_index(k)));
                let a = choose|a: int| 0 <= a < p.len() && p[a] == kind_index(k);
                assert(s[a] == k);
            }
        }
        assert forall|a: int, b: int| 0 <= a < s.len() && 0 <= b < s.len() && a != b implies s[a]
            != s[b] by {
            assert(kind_index(s[a]) == p[a]);
            assert(kind_index(s[b]) == p[b]);
        }
        assert(s.no_duplicates());
        assert(s.to_set() =~= self@);
        s.unique_seq_to_set();
    }

    /// Produces a set from the given kinds.
    pub fn new(set: Vec<ChangeKind>) -> (r: Self)
        ensures
            r@ == set@.to_set(),
            r.wf(),
    {
        let mut r = ChangeKindSet::empty();
        let mut i: usize = 0;
        while i < set.len()
            invariant
                i <= set@.len(),
                r@ == set@.subrange(0, i as int).to_set(),
                r.wf(),
            decreases set@.len() - i,
        {
            r.insert(set[i]);
            assert(set@.subrange(0, i + 1) == set@.subrange(0, i as int).push(set@[i as int]));
            proof {
                set@.subrange(0, i as int).lemma_push_to_set_commute(set@[i as int]);
            }
            i = i + 1;
        }
        assert(set@.subrange(0, set@.len() as int) == set@);
        r
    }

    /// Produces an empty set of [`ChangeKind`]
    pub fn empty() -> (r: Self)
        ensures
            r@ == Set::<ChangeKind>::empty(),
            r.wf(),
    {
        let r = ChangeKindSet { mask: 0 };
        proof {
            assert forall|k: ChangeKind| !r@.contains(k) by {
                lemma_kind_index(k);
                lemma_bit_zero(kind_index(k) as u32);
            }
            assert(r@ =~= Set::<ChangeKind>::empty());
        }
        r
    }

    /// Produces a set of all [`ChangeKind`]
    pub fn all() -> (r: Self)
        ensures
            r@ == Set::<ChangeKind>::full(),
            r.bits() == 0x3ff,
            r.wf(),
            r.sorted().len() == 10,
    {
        let r = ChangeKindSet { mask: 0x3ff };
        proof {
            assert forall|k: ChangeKind| r@.contains(k) by {
                lemma_kind_index(k);
                let i = kind_index(k) as u32;
                assert(i < 10 ==> ((0x3ffu32 >> i) & 1 == 1)) by (bit_vector);
            }
            assert(r@ =~= Set::<ChangeKind>::full());
            lemma_all_positions();
        }
        r
    }

    /// Returns true if the kind is in the set.
    pub fn contains(&self, kind: &ChangeKind) -> (r: bool)
        ensures
            r == self@.contains(*kind),
    {
        proof {
            lemma_kind_index(*kind);
        }
        test_bit(self.mask, kind.index())
    }

    /// Adds a kind to the set, returning true if it was not already there.
    pub fn insert(&mut self, kind: ChangeKind) -> (r: bool)
        ensures
            final(self)@ == old(self)@.insert(kind),
            r == !old(self)@.contains(kind),
            final(self).wf(),
    {
        proof {
            use_type_invariant(&*self);
            lemma_kind_index(kind);
        }
        let i = kind.index();
        let present = test_bit(self.mask, i);
        let m = self.mask | (1u32 << i);
        proof {
            let old_m = self.mask;
            assert(old_m < 1024 && i < 10 ==> (old_m | (1u32 << i)) < 1024) by (bit_vector);
            assert forall|k: ChangeKind| has_bit(m, kind_index(k)) == (has_bit(old_m, kind_index(k))
                || k == kind) by {
                lemma_kind_index(k);
                lemma_bit_or(old_m, 1u32 << i, kind_index(k) as u32);
                lemma_bit_single(i, kind_index(k) as u32);
            }
        }
        *self = ChangeKindSet { mask: m };
        proof {
            assert(self@ =~= old(self)@.insert(kind));
        }
        !present
    }

    /// Removes a kind from the set, returning true if it was there.
    pub fn remove(&mut self, kind: &ChangeKind) -> (r: bool)
        ensures
            final(self)@ == old(self)@.remove(*kind),
            r == old(self)@.contains(*kind),
            final(self).wf(),
    {
        proof {
            use_type_invariant(&*self);
            lemma_kind_index(*kind);
        }
        let i = kind.index();
        let present = test_bit(self.mask, i);
        let m = self.mask & !(1u32 << i);
        proof {
            let old_m = self.mask;
            assert(old_m < 1024 ==> (old_m & !(1u32 << i)) < 1024) by (bit_vector);
            assert forall|k: ChangeKind| has_bit(m, kind_index(k)) == (has_bit(old_m, kind_index(k))
                && k != *kind) by {
                lemma_kind_index(k);
                lemma_bit_and_not(old_m, 1u32 << i, kind_index(k) as u32);
                lemma_bit_single(i, kind_index(k) as u32);
            }
        }
        *self = ChangeKindSet { mask: m };
        proof {
            assert(self@ =~= old(self)@.remove(*kind));
        }
        present
    }

    /// Number of kinds in the set.
    pub fn len(&self) -> (r: usize)
        ensures
            r == self@.len(),
    {
        let v = self.into_sorted_vec();
        proof {
            self.lemma_sorted();
        }
        v.len()
    }

    /// Returns true if the set holds no kind.
    pub fn is_empty(&self) -> (r: bool)
        ensures
            r == (self@ == Set::<ChangeKind>::empty()),
    {
        let n = self.len();
        proof {
            self.lemma_sorted();
            if n == 0 {
                assert(self@ =~= Set::<ChangeKind>::empty());
            } else {
                assert(self@.len() > 0);
            }
        }
        n == 0
    }

    /// Returns the kinds of the set sorted in declaration order.
    pub fn into_sorted_vec(&self) -> (r: Vec<ChangeKind>)
        ensures
            r@ == self.sorted(),
    {
        let mut v: Vec<ChangeKind> = Vec::new();
        let mut i: u32 = 0;
        while i < 10
            invariant
                i <= 10,
                v@ == bit_positions(self.mask, i as nat).map_values(|j: nat| kind_at(j)),
            decreases 10 - i,
        {
            if test_bit(self.mask, i) {
                v.push(ChangeKind::from_index(i));
            }
            proof {
                let p = bit_positions(self.mask, i as nat);
                let q = bit_positions(self.mask, (i + 1) as nat);
                if has_bit(self.mask, i as nat) {
                    assert(q == p.push(i as nat));
                    assert(q.map_values(|j: nat| kind_at(j)) =~= p.map_values(|j: nat| kind_at(j)).push(
                        kind_at(i as nat),
                    ));
                } else {
                    assert(q == p);
                }
            }
            i = i + 1;
        }
        v
    }

    /// The set holding the kinds of both sets.
    pub fn union(self, other: ChangeKindSet) -> (r: ChangeKindSet)
        ensures
            r@ == self@.union(other@),
            r.bits() == self.bits() | other.bits(),
            r.wf(),
    {
        proof {
            use_type_invariant(&self);
            use_type_invariant(&other);
        }
        let m = self.mask | other.mask;
        proof {
            let a = self.mask;
            let b = other.mask;
            assert(a < 1024 && b < 1024 ==> (a | b) < 1024) by (bit_vector);
            assert forall|k: ChangeKind| has_bit(m, kind_index(k)) == (has_bit(a, kind_index(k))
                || has_bit(b, kind_index(k))) by {
                lemma_kind_index(k);
                lemma_bit_or(a, b, kind_index(k) as u32);
            }
        }
        let r = ChangeKindSet { mask: m };
        proof {
            assert(r@ =~= self@.union(other@));
        }
        r
    }

    /// The set holding the kinds of `self` that are not in `other`.
    pub fn difference(self, other: ChangeKindSet) -> (r: ChangeKindSet)
        ensures
            r@ == self@.difference(other@),
            r.bits() == self.bits() & !other.bits(),
            r.wf(),
    {
        proof {
            use_type_invariant(&self);
        }
        let m = self.mask & !other.mask;
        proof {
            let a = self.mask;
            let b = other.mask;
            assert(a < 1024 ==> (a & !b) < 1024) by (bit_vector);
            assert forall|k: ChangeKind| has_bit(m, kind_index(k)) == (has_bit(a, kind_index(k))
                && !has_bit(b, kind_index(k))) by {
                lemma_kind_index(k);
                lemma_bit_and_not(a, b, kind_index(k) as u32);
            }
        }
        let r = ChangeKindSet { mask: m };
        proof {
            assert(r@ =~= self@.difference(other@));
        }
        r
    }

    /// The set with one more kind.
    pub fn with(self, kind: ChangeKind) -> (r: ChangeKindSet)
        ensures
            r@ == self@.insert(kind),
            r.wf(),
    {
        let mut r = self;
        r.insert(kind);
        r
    }

    /// The text of the set: the names of its kinds in alphabetical order, separated by commas.
    pub closed spec fn text(self) -> Seq<char> {
        join_on(names_of(self.mask), ',')
    }

    /// Outputs a comma-separated series of kind names, sorted such that this will always be
    /// consistent output.
    pub fn to_string(&self) -> (r: String)
        ensures
            r@ == self.text(),
    {
        let mut s = String::new();
        let mut first = true;
        let mut j: u32 = 0;
        while j < 10
            invariant
                j <= 10,
                s@ == join_on(names_upto(self.mask, j as nat), ','),
                first == (names_upto(self.mask, j as nat).len() == 0),
            decreases 10 - j,
        {
            let i = name_order_at(j);
            if test_bit(self.mask, i) {
                let kind = ChangeKind::from_index(i);
                let ghost before = names_upto(self.mask, j as nat);
                if !first {
                    push_char(&mut s, ',');
                }
                push_str(&mut s, kind.name());
                proof {
                    let w = kind_name(kind_at(i as nat));
                    assert(names_upto(self.mask, (j + 1) as nat) == before.push(w));
                    if before.len() == 0 {
                        assert(before.push(w) == seq![w]);
                        assert(s@ == w);
                    } else {
                        lemma_join_push(before, w, ',');
                    }
                }
                first = false;
            }
            j = j + 1;
        }
        s
    }

    /// Parses a comma-separated series of kind names; whitespace around each name is ignored.
    pub fn parse(s: &str) -> (r: Result<ChangeKindSet, ParseKindError>)
        ensures
            match r {
                Ok(set) => words_valid(split_on(s@, ',')) && set@ == kinds_named(
                    split_on(s@, ','),
                ) && set.wf(),
                Err(e) => !words_valid(split_on(s@, ',')) && e == ParseKindError::VariantNotFound,
            },
    {
        let mut set = ChangeKindSet::empty();
        let mut rest: &str = s;
        let mut more = true;
        let ghost mut done: Seq<Seq<char>> = Seq::empty();
        while more
            invariant
                more ==> split_on(s@, ',') == done + split_on(rest@, ','),
                !more ==> split_on(s@, ',') == done,
                words_valid(done),
                set@ == kinds_named(done),
                set.wf(),
            decreases rest@.len() + (if more { 1int } else { 0int }),
        {
            let ghost whole = rest@;
            let word: &str;
            match split_once(rest, ',') {
                Some((a, b)) => {
                    proof {
                        lemma_first_index_of(whole, ',');
                        assert(split_on(whole, ',') == seq![a@] + split_on(b@, ','));
                    }
                    word = a;
                    rest = b;
                },
                None => {
                    proof {
                        assert(split_on(whole, ',') == seq![whole]);
                    }
                    word = rest;
                    more = false;
                },
            }
            let t = trim(word);
            let ghost next = done.push(word@);
            match ChangeKind::from_name(t) {
                Some(k) => {
                    set.insert(k);
                    proof {
                        assert forall|i: int| 0 <= i < next.len() implies is_kind_name(
                            trim_spec(#[trigger] next[i]),
                        ) by {
                            if i < done.len() {
                                assert(next[i] == done[i]);
                            } else {
                                assert(kind_name(k) == trim_spec(next[i]));
                            }
                        }
                        assert forall|c: ChangeKind| #[trigger] set@.contains(c) == kinds_named(
                            next,
                        ).contains(c) by {
                            if set@.contains(c) {
                                if c == k {
                                    assert(trim_spec(next[done.len() as int]) == kind_name(c));
                                } else {
                                    let i = choose|i: int|
                                        0 <= i < done.len() && trim_spec(#[trigger] done[i])
                                            == kind_name(c);
                                    assert(next[i] == done[i]);
                                }
                            }
                            if kinds_named(next).contains(c) {
                                let i = choose|i: int|
                                    0 <= i < next.len() && trim_spec(#[trigger] next[i]) == kind_name(
                                        c,
                                    );
                                if i < done.len() {
                                    assert(next[i] == done[i]);
                                    assert(kinds_named(done).contains(c));
                                } else {
                                    lemma_kind_name_injective(c, k);
                                }
                            }
                        }
                        assert(set@ =~= kinds_named(next));
                        assert(done + seq![word@] == next);
                        assert(next + split_on(rest@, ',') == done + (seq![word@] + split_on(
                            rest@,
                            ',',
                        )));
                        proof_done_step(done, word@);
                    }
                    proof {
                        done = next;
                    }
                },
                None => {
                    proof {
                        let ws = split_on(s@, ',');
                        let idx = done.len() as int;
                        assert(ws[idx] == word@);
                        assert(!is_kind_name(trim_spec(ws[idx])));
                    }
                    return Err(ParseKindError::VariantNotFound);
                },
            }
        }
        Ok(set)
    }
}

impl ChangeKindSet {
    /// Whether the value is one the library builds: no bit above the ten kinds is set.
    pub closed spec fn wf(self) -> bool {
        self.mask < 1024
    }
}

/// The well-formed set holding exactly the kinds of `s`.
pub closed spec fn of_set(s: Set<ChangeKind>) -> ChangeKindSet {
    choose|r: ChangeKindSet| r.mask < 1024 && r@ == s
}

/// A well-formed set is the one that `of_set` picks for its kinds.
proof fn lemma_of_set(r: ChangeKindSet)
    requires
        r.mask < 1024,
    ensures
        of_set(r@) == r,
{
    let c = of_set(r@);
    assert(c.mask < 1024 && c@ == r@);
    assert forall|i: nat| i < 10 implies (has_bit(c.mask, i) <==> has_bit(r.mask, i)) by {
        lemma_kind_at(i);
        assert(c@.contains(kind_at(i)) == r@.contains(kind_at(i)));
    }
    let a = c.mask;
    let b = r.mask;
    assert(a >> 10u32 == 0 && b >> 10u32 == 0) by (bit_vector)
        requires
            a < 1024,
            b < 1024,
    ;
    lemma_bits_determine(a, b, 10);
}

/// Two well-formed sets with the same kinds are the same value, and so have the same text.
pub proof fn lemma_same_kinds_same_set(a: ChangeKindSet, b: ChangeKindSet)
    requires
        a.wf(),
        b.wf(),
        a@ == b@,
    ensures
        a == b,
        a.text() == b.text(),
{
    lemma_of_set(a);
    lemma_of_set(b);
}

impl core::ops::BitOr for ChangeKind {
    type Output = ChangeKindSet;

    fn bitor(self, rhs: ChangeKind) -> (r: ChangeKindSet)
        ensures
            r@ == set![self, rhs],
    {
        let mut set = ChangeKindSet::empty();
        set.insert(self);
        set.insert(rhs);
        proof {
            use_type_invariant(&set);
            assert(set@ =~= set![self, rhs]);
            lemma_of_set(set);
        }
        set
    }
}

impl vstd::std_specs::ops::BitOrSpecImpl for ChangeKind {
    open spec fn obeys_bitor_spec() -> bool {
        true
    }

    open spec fn bitor_req(self, rhs: ChangeKind) -> bool {
        true
    }

    open spec fn bitor_spec(self, rhs: ChangeKind) -> ChangeKindSet {
        of_set(set![self, rhs])
    }
}

impl core::ops::BitOr<ChangeKindSet> for ChangeKindSet {
    type Output = ChangeKindSet;

    fn bitor(self, rhs: ChangeKindSet) -> (r: ChangeKindSet)
        ensures
            r@ == self@.union(rhs@),
    {
        let r = self.union(rhs);
        proof {
            use_type_invariant(&r);
            lemma_of_set(r);
        }
        r
    }
}

impl vstd::std_specs::ops::BitOrSpecImpl<ChangeKindSet> for ChangeKindSet {
    open spec fn obeys_bitor_spec() -> bool {
        true
    }

    open spec fn bitor_req(self, rhs: ChangeKindSet) -> bool {
        true
    }

    open spec fn bitor_spec(self, rhs: ChangeKindSet) -> ChangeKindSet {
        of_set(self@.union(rhs@))
    }
}

impl core::ops::BitOr<ChangeKind> for ChangeKindSet {
    type Output = ChangeKindSet;

    fn bitor(self, rhs: ChangeKind) -> (r: ChangeKindSet)
        ensures
            r@ == self@.insert(rhs),
    {
        let r = self.with(rhs);
        proof {
            use_type_invariant(&r);
            lemma_of_set(r);
        }
        r
    }
}

impl vstd::std_specs::ops::BitOrSpecImpl<ChangeKind> for ChangeKindSet {
    open spec fn obeys_bitor_spec() -> bool {
        true
    }

    open spec fn bitor_req(self, rhs: ChangeKind) -> bool {
        true
    }

    open spec fn bitor_spec(self, rhs: ChangeKind) -> ChangeKindSet {
        of_set(self@.insert(rhs))
    }
}

impl core::ops::BitOr<ChangeKindSet> for ChangeKind {
    type Output = ChangeKindSet;

    fn bitor(self, rhs: ChangeKindSet) -> (r: ChangeKindSet)
        ensures
            r@ == rhs@.insert(self),
    {
        let r = rhs.with(self);
        proof {
            use_type_invariant(&r);
            lemma_of_set(r);
        }
        r
    }
}

impl vstd::std_specs::ops::BitOrSpecImpl<ChangeKindSet> for ChangeKind {
    open spec fn obeys_bitor_spec() -> bool {
        true
    }

    open spec fn bitor_req(self, rhs: ChangeKindSet) -> bool {
        true
    }

    open spec fn bitor_spec(self, rhs: ChangeKindSet) -> ChangeKindSet {
        of_set(rhs@.insert(self))
    }
}

impl core::ops::Sub<ChangeKindSet> for ChangeKindSet {
    type Output = ChangeKindSet;

    fn sub(self, other: ChangeKindSet) -> (r: ChangeKindSet)
        ensures
            r@ == self@.difference(other@),
    {
        let r = self.difference(other);
        proof {
            use_type_invariant(&r);
            lemma_of_set(r);
        }
        r
    }
}

impl vstd::std_specs::ops::SubSpecImpl<ChangeKindSet> for ChangeKindSet {
    open spec fn obeys_sub_spec() -> bool {
        true
    }

    open spec fn sub_req(self, other: ChangeKindSet) -> bool {
        true
    }

    open spec fn sub_spec(self, other: ChangeKindSet) -> ChangeKindSet {
        of_set(self@.difference(other@))
    }
}

impl<'a> core::ops::Sub<&'a ChangeKindSet> for &'a ChangeKindSet {
    type Output = ChangeKindSet;

    fn sub(self, other: &'a ChangeKindSet) -> (r: ChangeKindSet)
        ensures
            r@ == self@.difference(other@),
    {
        let r = (*self).difference(*other);
        proof {
            use_type_invariant(&r);
            lemma_of_set(r);
        }
        r
    }
}

impl<'a> vstd::std_specs::ops::SubSpecImpl<&'a ChangeKindSet> for &'a ChangeKindSet {
    open spec fn obeys_sub_spec() -> bool {
        true
    }

    open spec fn sub_req(self, other: &'a ChangeKindSet) -> bool {
        true
    }

    open spec fn sub_spec(self, other: &'a ChangeKindSet) -> ChangeKindSet {
        of_set(self@.difference(other@))
    }
}

impl From<ChangeKind> for ChangeKindSet {
    fn from(change_kind: ChangeKind) -> (r: ChangeKindSet)
        ensures
            r@ == set![change_kind],
    {
        let mut set = ChangeKindSet::empty();
        set.insert(change_kind);
        proof {
            use_type_invariant(&set);
            assert(set@ =~= set![change_kind]);
            lemma_of_set(set);
        }
        set
    }
}

impl vstd::std_specs::convert::FromSpecImpl<ChangeKind> for ChangeKindSet {
    open spec fn obeys_from_spec() -> bool {
        true
    }

    open spec fn from_spec(change_kind: ChangeKind) -> ChangeKindSet {
        of_set(set![change_kind])
    }
}

impl From<Vec<ChangeKind>> for ChangeKindSet {
    fn from(changes: Vec<ChangeKind>) -> (r: ChangeKindSet)
        ensures
            r@ == changes@.to_set(),
    {
        let set = ChangeKindSet::new(changes);
        proof {
            use_type_invariant(&set);
            lemma_of_set(set);
        }
        set
    }
}

impl vstd::std_specs::convert::FromSpecImpl<Vec<ChangeKind>> for ChangeKindSet {
    open spec fn obeys_from_spec() -> bool {
        true
    }

    open spec fn from_spec(changes: Vec<ChangeKind>) -> ChangeKindSet {
        of_set(changes@.to_set())
    }
}

impl core::str::FromStr for ChangeKindSet {
    type Err = ParseKindError;

    fn from_str(s: &str) -> (r: Result<ChangeKindSet, ParseKindError>)
        ensures
            match r {
                Ok(set) => words_valid(split_on(s@, ',')) && set@ == kinds_named(
                    split_on(s@, ','),
                ) && set.wf(),
                Err(e) => !words_valid(split_on(s@, ',')) && e == ParseKindError::VariantNotFound,
            },
    {
        ChangeKindSet::parse(s)
    }
}

impl core::str::FromStr for ChangeKind {
    type Err = ParseKindError;

    fn from_str(s: &str) -> (r: Result<ChangeKind, ParseKindError>)
        ensures
            match r {
                Ok(k) => s@ == kind_name(k),
                Err(e) => e == ParseKindError::VariantNotFound && forall|k: ChangeKind| s@
                    != #[trigger] kind_name(k),
            },
    {
        match ChangeKind::from_name(s) {
            Some(k) => Ok(k),
            None => Err(ParseKindError::VariantNotFound),
        }
    }
}

impl Default for ChangeKindSet {
    fn default() -> (r: ChangeKindSet)
        ensures
            r@ == Set::<ChangeKind>::empty(),
    {
        ChangeKindSet::empty()
    }
}

proof fn proof_done_step(done: Seq<Seq<char>>, w: Seq<char>)
    ensures
        done.push(w) == done + seq![w],
{
    assert(done.push(w) =~= done + seq![w]);
}

/// Parsing the text of a set that holds at least one kind gives back the same kinds: every
/// word of the text names a kind, and the kinds named are those of the set.
pub proof fn lemma_parse_text(set: ChangeKindSet)
    requires
        set@ != Set::<ChangeKind>::empty(),
    ensures
        words_valid(split_on(set.text(), ',')),
        kinds_named(split_on(set.text(), ',')) == set@,
{
    let names = names_of(set.mask);
    lemma_names_upto(set.mask, 10);
    assert forall|i: int| 0 <= i < names.len() implies !has_char(#[trigger] names[i], ',')
        && trim_spec(names[i]) == names[i] && is_kind_name(names[i]) by {
        assert(names.contains(names[i]));
        let p = choose|p: int|
            0 <= p < 10 && has_bit(set.mask, name_order()[p]) && names[i] == kind_name(
                kind_at(name_order()[p]),
            );
        lemma_kind_name(kind_at(name_order()[p]));
    }
    assert(exists|k: ChangeKind| set@.contains(k)) by {
        if !(exists|k: ChangeKind| set@.contains(k)) {
            assert(set@ =~= Set::<ChangeKind>::empty());
        }
    }
    let k0 = choose|k: ChangeKind| set@.contains(k);
    assert(names.len() >= 1) by {
        lemma_kind_index(k0);
        let p = name_pos(kind_index(k0));
        lemma_name_pos(kind_index(k0));
        assert(name_order()[p] == kind_index(k0));
        assert(names.contains(kind_name(kind_at(name_order()[p]))));
    }
    lemma_split_join(names, ',');
    assert forall|k: ChangeKind| #[trigger] kinds_named(names).contains(k) == set@.contains(k) by {
        lemma_kind_index(k);
        if kinds_named(names).contains(k) {
            let i = choose|i: int| 0 <= i < names.len() && trim_spec(#[trigger] names[i]) == kind_name(k);
            assert(names.contains(names[i]));
            let p = choose|p: int|
                0 <= p < 10 && has_bit(set.mask, name_order()[p]) && names[i] == kind_name(
                    kind_at(name_order()[p]),
                );
            lemma_kind_name_injective(k, kind_at(name_order()[p]));
            lemma_kind_at(name_order()[p]);
        }
        if set@.contains(k) {
            let p = name_pos(kind_index(k));
            lemma_name_pos(kind_index(k));
            assert(name_order()[p] == kind_index(k));
            assert(names.contains(kind_name(k)));
            let i = choose|i: int| 0 <= i < names.len() && names[i] == kind_name(k);
            assert(trim_spec(names[i]) == kind_name(k));
        }
    }
    assert(kinds_named(names) =~= set@);
}

/// The number of the families (access, create, delete, modify, rename, unknown) a kind is in.
pub open spec fn family_count(k: ChangeKind) -> int {
    (if k.is_access_spec() {
        1int
    } else {
        0
    }) + (if k == ChangeKind::Create {
        1int
    } else {
        0
    }) + (if k == ChangeKind::Delete {
        1int
    } else {
        0
    }) + (if k.is_modify_spec() {
        1int
    } else {
        0
    }) + (if k == ChangeKind::Rename {
        1int
    } else {
        0
    }) + (if k == ChangeKind::Unknown {
        1int
    } else {
        0
    })
}

/// The access kinds are exactly the opening, the two closings and plain access; no kind both
/// opens and closes; and every kind is in exactly one of the families access, create, delete,
/// modify, rename and unknown.
pub proof fn lemma_kind_families(k: ChangeKind)
    ensures
        k.is_access_spec() == (k.is_open_spec() || k.is_close_spec() || k == ChangeKind::Access),
        !(k.is_open_spec() && k.is_close_spec()),
        family_count(k) == 1,
{
}

} // verus!
