//! Character-level helpers shared by the protocol and manager modules: ASCII case folding,
//! whitespace trimming, splitting at a separator and decimal numbers.
use vstd::prelude::*;

verus! {

/// ASCII lowercase of a single character; every other character is left unchanged.
pub open spec fn ascii_lower(c: char) -> char {
    if 'A' <= c && c <= 'Z' {
        ((c as u32) + 32) as char
    } else {
        c
    }
}

/// ASCII lowercase of a whole character sequence.
pub open spec fn lower_seq(s: Seq<char>) -> Seq<char> {
    Seq::new(s.len(), |i: int| ascii_lower(s[i]))
}

/// Whether two character sequences are equal when ASCII letters are compared without case.
pub open spec fn eq_ignore_case(a: Seq<char>, b: Seq<char>) -> bool {
    lower_seq(a) == lower_seq(b)
}

/// Appends one character to a string.
///
/// Trusted wrapper of `String::push`: the contract claims that the string's characters are the
/// old ones followed by `c`.
#[verifier::external_body]
pub(crate) fn push_char(s: &mut String, c: char)
    ensures
        final(s)@ == old(s)@.push(c),
{
    s.push(c);
}

/// Appends all characters of `other` to `s`.
pub fn push_str(s: &mut String, other: &str)
    ensures
        final(s)@ == old(s)@ + other@,
{
    s.append(other);
}

/// Copies a string slice into a new string.
pub fn copy_str(s: &str) -> (r: String)
    ensures
        r@ == s@,
{
    let mut r = String::new();
    push_str(&mut r, s);
    assert(r@ == Seq::<char>::empty() + s@);
    r
}

/// ASCII lowercase of one character.
pub fn to_ascii_lower(c: char) -> (r: char)
    ensures
        r == ascii_lower(c),
{
    if 'A' <= c && c <= 'Z' {
        let v: u8 = (c as u8) + 32;
        (v as char)
    } else {
        c
    }
}

/// Returns a copy of `s` whose ASCII letters are all lowercase.
pub fn to_ascii_lowercase(s: &str) -> (r: String)
    ensures
        r@ == lower_seq(s@),
{
    let n = s.unicode_len();
    let mut r = String::new();
    let mut i: usize = 0;
    while i < n
        invariant
            n == s@.len(),
            i <= n,
            r@ == lower_seq(s@.subrange(0, i as int)),
        decreases n - i,
    {
        let c = s.get_char(i);
        push_char(&mut r, to_ascii_lower(c));
        i = i + 1;
        assert(lower_seq(s@.subrange(0, i as int)) == lower_seq(s@.subrange(0, (i - 1) as int)).push(
            ascii_lower(c),
        ));
    }
    assert(s@.subrange(0, n as int) == s@);
    r
}

/// Compares two strings, treating ASCII letters without regard to case.
pub fn str_eq_ignore_ascii_case(a: &str, b: &str) -> (r: bool)
    ensures
        r == eq_ignore_case(a@, b@),
{
    let n = a.unicode_len();
    let m = b.unicode_len();
    if n != m {
        assert(lower_seq(a@).len() != lower_seq(b@).len());
        return false;
    }
    let mut i: usize = 0;
    while i < n
        invariant
            n == a@.len(),
            m == b@.len(),
            n == m,
            i <= n,
            forall|j: int| 0 <= j < i ==> ascii_lower(a@[j]) == ascii_lower(b@[j]),
        decreases n - i,
    {
        let x = to_ascii_lower(a.get_char(i));
        let y = to_ascii_lower(b.get_char(i));
        if x != y {
            assert(lower_seq(a@)[i as int] != lower_seq(b@)[i as int]);
            return false;
        }
        i = i + 1;
    }
    assert(lower_seq(a@) =~= lower_seq(b@));
    true
}

/// Compares two strings character by character.
pub fn str_eq(a: &str, b: &str) -> (r: bool)
    ensures
        r == (a@ == b@),
{
    let n = a.unicode_len();
    let m = b.unicode_len();
    if n != m {
        return false;
    }
    let mut i: usize = 0;
    while i < n
        invariant
            n == a@.len(),
            m == b@.len(),
            n == m,
            i <= n,
            forall|j: int| 0 <= j < i ==> a@[j] == b@[j],
        decreases n - i,
    {
        if a.get_char(i) != b.get_char(i) {
            return false;
        }
        i = i + 1;
    }
    assert(a@ =~= b@);
    true
}

/// Index of the first occurrence of `c` in `s`, if any.
pub open spec fn first_index_of(s: Seq<char>, c: char) -> Option<int>
    decreases s.len(),
{
    if s.len() == 0 {
        None
    } else if s[0] == c {
        Some(0)
    } else {
        match first_index_of(s.drop_first(), c) {
            Some(i) => Some(i + 1),
            None => None,
        }
    }
}

/// `first_index_of` finds the first position holding `c`, and none before it holds `c`.
pub proof fn lemma_first_index_of(s: Seq<char>, c: char)
    ensures
        match first_index_of(s, c) {
            Some(i) => 0 <= i < s.len() && s[i] == c && forall|j: int| 0 <= j < i ==> s[j] != c,
            None => forall|j: int| 0 <= j < s.len() ==> s[j] != c,
        },
    decreases s.len(),
{
    if s.len() > 0 && s[0] != c {
        lemma_first_index_of(s.drop_first(), c);
        match first_index_of(s.drop_first(), c) {
            Some(i) => {
                assert forall|j: int| 0 <= j < i + 1 implies s[j] != c by {
                    if j > 0 {
                        assert(s[j] == s.drop_first()[j - 1]);
                    }
                }
            },
            None => {
                assert forall|j: int| 0 <= j < s.len() implies s[j] != c by {
                    if j > 0 {
                        assert(s[j] == s.drop_first()[j - 1]);
                    }
                }
            },
        }
    }
}

/// Characterisation of `first_index_of` by the first position.
pub proof fn lemma_first_index_of_unique(s: Seq<char>, c: char, k: int)
    requires
        0 <= k < s.len(),
        s[k] == c,
        forall|j: int| 0 <= j < k ==> s[j] != c,
    ensures
        first_index_of(s, c) == Some(k),
{
    lemma_first_index_of(s, c);
    match first_index_of(s, c) {
        Some(i) => {
            if i < k {
                assert(s[i] != c);
            } else if i > k {
                assert(s[k] != c);
            }
        },
        None => {
            assert(s[k] != c);
        },
    }
}

/// Splitting a sequence at the first occurrence of `c`: the parts before and after it.
pub open spec fn split_once_spec(s: Seq<char>, c: char) -> Option<(Seq<char>, Seq<char>)> {
    match first_index_of(s, c) {
        Some(i) => Some((s.subrange(0, i), s.subrange(i + 1, s.len() as int))),
        None => None,
    }
}

/// Position of the first occurrence of `c` in `s`.
pub fn find_char(s: &str, c: char) -> (r: Option<usize>)
    ensures
        match r {
            Some(i) => first_index_of(s@, c) == Some(i as int),
            None => first_index_of(s@, c) is None,
        },
{
    proof {
        lemma_first_index_of(s@, c);
    }
    let n = s.unicode_len();
    let mut i: usize = 0;
    while i < n
        invariant
            n == s@.len(),
            i <= n,
            forall|j: int| 0 <= j < i ==> s@[j] != c,
        decreases n - i,
    {
        if s.get_char(i) == c {
            proof {
                lemma_first_index_of_unique(s@, c, i as int);
            }
            return Some(i);
        }
        i = i + 1;
    }
    None
}

/// Splits `s` at the first occurrence of `c`, returning the parts before and after it.
pub fn split_once<'a>(s: &'a str, c: char) -> (r: Option<(&'a str, &'a str)>)
    ensures
        match r {
            Some((a, b)) => split_once_spec(s@, c) == Some((a@, b@)),
            None => split_once_spec(s@, c) is None,
        },
{
    match find_char(s, c) {
        Some(i) => {
            proof {
                lemma_first_index_of(s@, c);
            }
            let n = s.unicode_len();
            let a = s.substring_char(0, i);
            let b = s.substring_char(i + 1, n);
            Some((a, b))
        },
        None => None,
    }
}

/// The first position at or after `i` where `p` occurs in `s`.
pub open spec fn find_from(s: Seq<char>, p: Seq<char>, i: int) -> Option<int>
    decreases s.len() + 1 - i,
{
    if i < 0 || i + p.len() > s.len() {
        None
    } else if s.subrange(i, i + p.len()) == p {
        Some(i)
    } else {
        find_from(s, p, i + 1)
    }
}

/// Splitting a sequence at the first occurrence of the pattern `p`: the parts before and after
/// it.
pub open spec fn split_once_str_spec(s: Seq<char>, p: Seq<char>) -> Option<(Seq<char>, Seq<char>)> {
    match find_from(s, p, 0) {
        Some(i) => Some((s.subrange(0, i), s.subrange(i + p.len(), s.len() as int))),
        None => None,
    }
}

/// Whether `p` occurs in `s` at position `i`.
fn occurs_at(s: &str, p: &str, i: usize) -> (r: bool)
    requires
        i + p@.len() <= s@.len(),
    ensures
        r == (s@.subrange(i as int, i + p@.len()) == p@),
{
    let m = p.unicode_len();
    let n = s.unicode_len();
    let mut j: usize = 0;
    while j < m
        invariant
            m == p@.len(),
            n == s@.len(),
            i + m <= s@.len(),
            j <= m,
            forall|k: int| 0 <= k < j ==> s@[i + k] == p@[k],
        decreases m - j,
    {
        if s.get_char(i + j) != p.get_char(j) {
            proof {
                assert(s@.subrange(i as int, i + p@.len())[j as int] != p@[j as int]);
            }
            return false;
        }
        j = j + 1;
    }
    proof {
        assert(s@.subrange(i as int, i + p@.len()) =~= p@);
    }
    true
}

/// Splits `s` at the first occurrence of the pattern `p`, returning the parts before and after
/// it.
pub fn split_once_str<'a>(s: &'a str, p: &str) -> (r: Option<(&'a str, &'a str)>)
    ensures
        match r {
            Some((a, b)) => split_once_str_spec(s@, p@) == Some((a@, b@)),
            None => split_once_str_spec(s@, p@) is None,
        },
{
    let n = s.unicode_len();
    let m = p.unicode_len();
    if m == 0 {
        proof {
            assert(s@.subrange(0, 0) =~= p@);
        }
        return Some((s.substring_char(0, 0), s.substring_char(0, n)));
    }
    let mut i: usize = 0;
    while m <= n && i <= n - m
        invariant
            m >= 1,
            n == s@.len(),
            m == p@.len(),
            find_from(s@, p@, 0) == find_from(s@, p@, i as int),
        decreases n - i + 1,
    {
        if occurs_at(s, p, i) {
            let a = s.substring_char(0, i);
            let b = s.substring_char(i + m, n);
            return Some((a, b));
        }
        i = i + 1;
    }
    None
}

/// Whether `a` comes strictly before `b` in the order of strings: by characters, and a proper
/// prefix first.
pub open spec fn lex_lt(a: Seq<char>, b: Seq<char>) -> bool
    decreases a.len(),
{
    if a.len() == 0 {
        b.len() > 0
    } else if b.len() == 0 {
        false
    } else if a[0] != b[0] {
        (a[0] as int) < (b[0] as int)
    } else {
        lex_lt(a.drop_first(), b.drop_first())
    }
}

/// The order of strings is transitive.
pub proof fn lemma_lex_trans(a: Seq<char>, b: Seq<char>, c: Seq<char>)
    requires
        lex_lt(a, b),
        lex_lt(b, c),
    ensures
        lex_lt(a, c),
    decreases a.len(),
{
    if a.len() > 0 && b.len() > 0 && c.len() > 0 && a[0] == b[0] && b[0] == c[0] {
        lemma_lex_trans(a.drop_first(), b.drop_first(), c.drop_first());
    }
}

/// The order of strings is strict.
pub proof fn lemma_lex_irreflexive(a: Seq<char>)
    ensures
        !lex_lt(a, a),
    decreases a.len(),
{
    if a.len() > 0 {
        lemma_lex_irreflexive(a.drop_first());
    }
}

/// Of two different strings, one comes before the other.
pub proof fn lemma_lex_total(a: Seq<char>, b: Seq<char>)
    requires
        a != b,
    ensures
        lex_lt(a, b) || lex_lt(b, a),
    decreases a.len(),
{
    if a.len() == 0 {
        if b.len() == 0 {
            assert(a =~= b);
        }
    } else if b.len() == 0 {
        assert(lex_lt(b, a));
    } else if a[0] != b[0] {
        assert((a[0] as int) != (b[0] as int));
    } else {
        assert(a.drop_first().len() == a.len() - 1);
        assert(b.drop_first().len() == b.len() - 1);
        if a.drop_first() == b.drop_first() {
            assert(a.len() == b.len());
            assert(a =~= b) by {
                assert forall|i: int| 0 <= i < a.len() implies a[i] == b[i] by {
                    if i > 0 {
                        assert(a[i] == a.drop_first()[i - 1]);
                        assert(b[i] == b.drop_first()[i - 1]);
                    }
                }
            }
        }
        lemma_lex_total(a.drop_first(), b.drop_first());
    }
}

/// Whether `a` comes strictly before `b`.
pub fn lex_less(a: &str, b: &str) -> (r: bool)
    ensures
        r == lex_lt(a@, b@),
{
    let n = a.unicode_len();
    let m = b.unicode_len();
    let mut i: usize = 0;
    proof {
        assert(a@.skip(0) =~= a@);
        assert(b@.skip(0) =~= b@);
    }
    while i < n && i < m
        invariant
            n == a@.len(),
            m == b@.len(),
            i <= n,
            i <= m,
            lex_lt(a@, b@) == lex_lt(a@.skip(i as int), b@.skip(i as int)),
        decreases n - i,
    {
        let x = a.get_char(i);
        let y = b.get_char(i);
        if x != y {
            proof {
                assert(a@.skip(i as int)[0] == x);
                assert(b@.skip(i as int)[0] == y);
            }
            return (x as u32) < (y as u32);
        }
        proof {
            assert(a@.skip(i as int).drop_first() =~= a@.skip(i + 1));
            assert(b@.skip(i as int).drop_first() =~= b@.skip(i + 1));
        }
        i = i + 1;
    }
    proof {
        assert(a@.skip(i as int).len() == n - i);
        assert(b@.skip(i as int).len() == m - i);
    }
    i == n && i < m
}

/// Unicode `White_Space` characters, as `char::is_whitespace` classifies them.
pub open spec fn is_ws(c: char) -> bool {
    ||| ('\u{9}' <= c && c <= '\u{d}')
    ||| c == ' '
    ||| c == '\u{85}'
    ||| c == '\u{a0}'
    ||| c == '\u{1680}'
    ||| ('\u{2000}' <= c && c <= '\u{200a}')
    ||| c == '\u{2028}'
    ||| c == '\u{2029}'
    ||| c == '\u{202f}'
    ||| c == '\u{205f}'
    ||| c == '\u{3000}'
}

/// Whether one character is whitespace.
pub fn char_is_ws(c: char) -> (r: bool)
    ensures
        r == is_ws(c),
{
    ('\u{9}' <= c && c <= '\u{d}') || c == ' ' || c == '\u{85}' || c == '\u{a0}' || c
        == '\u{1680}' || ('\u{2000}' <= c && c <= '\u{200a}') || c == '\u{2028}' || c
        == '\u{2029}' || c == '\u{202f}' || c == '\u{205f}' || c == '\u{3000}'
}

/// Number of leading whitespace characters of `s`.
pub open spec fn leading_ws(s: Seq<char>) -> nat
    decreases s.len(),
{
    if s.len() > 0 && is_ws(s[0]) {
        1 + leading_ws(s.drop_first())
    } else {
        0
    }
}

/// Number of trailing whitespace characters of `s`.
pub open spec fn trailing_ws(s: Seq<char>) -> nat
    decreases s.len(),
{
    if s.len() > 0 && is_ws(s.last()) {
        1 + trailing_ws(s.drop_last())
    } else {
        0
    }
}

/// `s` without its leading and trailing whitespace, as `str::trim` returns it.
pub open spec fn trim_spec(s: Seq<char>) -> Seq<char> {
    let l = leading_ws(s);
    if l == s.len() {
        Seq::empty()
    } else {
        s.subrange(l as int, s.len() - trailing_ws(s))
    }
}

proof fn lemma_leading_ws(s: Seq<char>)
    ensures
        leading_ws(s) <= s.len(),
        forall|j: int| 0 <= j < leading_ws(s) ==> is_ws(s[j]),
        leading_ws(s) < s.len() ==> !is_ws(s[leading_ws(s) as int]),
    decreases s.len(),
{
    if s.len() > 0 && is_ws(s[0]) {
        lemma_leading_ws(s.drop_first());
        assert forall|j: int| 0 <= j < leading_ws(s) implies is_ws(s[j]) by {
            if j > 0 {
                assert(s[j] == s.drop_first()[j - 1]);
            }
        }
        if leading_ws(s) < s.len() {
            assert(s[leading_ws(s) as int] == s.drop_first()[leading_ws(s.drop_first()) as int]);
        }
    }
}

proof fn lemma_leading_ws_unique(s: Seq<char>, k: int)
    requires
        0 <= k <= s.len(),
        forall|j: int| 0 <= j < k ==> is_ws(s[j]),
        k < s.len() ==> !is_ws(s[k]),
    ensures
        leading_ws(s) == k,
    decreases s.len(),
{
    if k > 0 {
        assert forall|j: int| 0 <= j < k - 1 implies is_ws(s.drop_first()[j]) by {
            assert(s.drop_first()[j] == s[j + 1]);
        }
        if k - 1 < s.len() - 1 {
            assert(s.drop_first()[k - 1] == s[k]);
        }
        lemma_leading_ws_unique(s.drop_first(), k - 1);
    }
}

proof fn lemma_trailing_ws_unique(s: Seq<char>, k: int)
    requires
        0 <= k <= s.len(),
        forall|j: int| s.len() - k <= j < s.len() ==> is_ws(s[j]),
        k < s.len() ==> !is_ws(s[s.len() - k - 1]),
    ensures
        trailing_ws(s) == k,
    decreases s.len(),
{
    if k > 0 {
        let t = s.drop_last();
        assert forall|j: int| t.len() - (k - 1) <= j < t.len() implies is_ws(t[j]) by {
            assert(t[j] == s[j]);
        }
        if k - 1 < t.len() {
            assert(t[t.len() - (k - 1) - 1] == s[s.len() - k - 1]);
        }
        lemma_trailing_ws_unique(t, k - 1);
    }
}

/// A sequence that neither starts nor ends with whitespace is its own trim.
pub proof fn lemma_trim_plain(s: Seq<char>)
    requires
        s.len() > 0,
        !is_ws(s[0]),
        !is_ws(s.last()),
    ensures
        trim_spec(s) == s,
{
    lemma_leading_ws_unique(s, 0);
    lemma_trailing_ws_unique(s, 0);
    assert(s.subrange(0, s.len() as int) == s);
}

/// Removes leading and trailing whitespace.
pub fn trim<'a>(s: &'a str) -> (r: &'a str)
    ensures
        r@ == trim_spec(s@),
{
    let n = s.unicode_len();
    let mut lo: usize = 0;
    while lo < n && char_is_ws(s.get_char(lo))
        invariant
            n == s@.len(),
            lo <= n,
            forall|j: int| 0 <= j < lo ==> is_ws(s@[j]),
        decreases n - lo,
    {
        lo = lo + 1;
    }
    proof {
        lemma_leading_ws_unique(s@, lo as int);
    }
    if lo == n {
        return s.substring_char(0, 0);
    }
    let mut hi: usize = n;
    while hi > lo && char_is_ws(s.get_char(hi - 1))
        invariant
            n == s@.len(),
            lo < n,
            !is_ws(s@[lo as int]),
            lo <= hi <= n,
            forall|j: int| hi <= j < n ==> is_ws(s@[j]),
        decreases hi,
    {
        hi = hi - 1;
    }
    proof {
        assert(hi > lo) by {
            if hi == lo {
                assert(!is_ws(s@[lo as int]));
            }
        }
        lemma_trailing_ws_unique(s@, (n - hi) as int);
    }
    s.substring_char(lo, hi)
}

/// Whether `c` is an ASCII decimal digit.
pub open spec fn is_digit(c: char) -> bool {
    '0' <= c && c <= '9'
}

/// Value of a decimal digit character.
pub open spec fn digit_value(c: char) -> nat {
    ((c as u32) - ('0' as u32)) as nat
}

/// The digit character for a value below ten.
pub open spec fn digit_char(d: nat) -> char {
    ((d + ('0' as u32)) as u32) as char
}

/// Value of a sequence of decimal digits, most significant first.
pub open spec fn digits_value(s: Seq<char>) -> nat
    decreases s.len(),
{
    if s.len() == 0 {
        0
    } else {
        digits_value(s.drop_last()) * 10 + digit_value(s.last())
    }
}

/// Whether every character of `s` is a decimal digit.
pub open spec fn all_digits(s: Seq<char>) -> bool {
    forall|i: int| 0 <= i < s.len() ==> is_digit(#[trigger] s[i])
}

/// Decimal representation of `n`, without leading zeros (as `Display` for integers writes it).
pub open spec fn decimal(n: nat) -> Seq<char>
    decreases n,
{
    if n < 10 {
        seq![digit_char(n)]
    } else {
        decimal(n / 10).push(digit_char(n % 10))
    }
}

/// What `str::parse::<u32>` accepts: an optional `+`, then one or more decimal digits whose value
/// fits in a `u32`.
pub open spec fn parse_u32_spec(s: Seq<char>) -> Option<u32> {
    let body = if s.len() > 0 && s[0] == '+' {
        s.drop_first()
    } else {
        s
    };
    if body.len() > 0 && all_digits(body) && digits_value(body) <= u32::MAX {
        Some(digits_value(body) as u32)
    } else {
        None
    }
}

/// The decimal representation consists of digits and denotes `n`.
pub proof fn lemma_decimal(n: nat)
    ensures
        decimal(n).len() > 0,
        all_digits(decimal(n)),
        digits_value(decimal(n)) == n,
        decimal(n)[0] != '+',
    decreases n,
{
    if n < 10 {
        assert(decimal(n).drop_last() == Seq::<char>::empty());
        assert(digits_value(Seq::<char>::empty()) == 0);
        assert(digit_value(digit_char(n)) == n);
    } else {
        lemma_decimal(n / 10);
        let d = decimal(n);
        assert(digit_value(digit_char(n % 10)) == n % 10);
        assert(n == (n / 10) * 10 + n % 10);
        assert(d.drop_last() == decimal(n / 10));
        assert forall|i: int| 0 <= i < d.len() implies is_digit(#[trigger] d[i]) by {
            if i < d.len() - 1 {
                assert(d[i] == decimal(n / 10)[i]);
            }
        }
        assert(d[0] == decimal(n / 10)[0]);
    }
}

/// Parsing the decimal representation of a `u32` gives the number back.
pub proof fn lemma_parse_decimal(n: u32)
    ensures
        parse_u32_spec(decimal(n as nat)) == Some(n),
{
    lemma_decimal(n as nat);
}

/// Formats `n` in decimal.
pub fn format_u32(n: u32) -> (r: String)
    ensures
        r@ == decimal(n as nat),
{
    let mut digits: Vec<char> = Vec::new();
    let mut m: u32 = n;
    // digits holds the representation of n % 10^k reversed, m = n / 10^k
    while m >= 10
        invariant
            decimal(n as nat) == decimal(m as nat) + digits@.reverse(),
        decreases m,
    {
        let d: u32 = m % 10;
        let c: char = ((d as u8) + 48) as char;
        assert(c == digit_char(d as nat));
        let ghost old_digits = digits@;
        assert(decimal(m as nat) == decimal((m / 10) as nat).push(digit_char((m % 10) as nat)));
        digits.push(c);
        assert(digits@.reverse() == seq![c] + old_digits.reverse());
        m = m / 10;
    }
    let c: char = ((m as u8) + 48) as char;
    assert(c == digit_char(m as nat));
    let mut r = String::new();
    push_char(&mut r, c);
    let mut i: usize = digits.len();
    while i > 0
        invariant
            i <= digits@.len(),
            decimal(n as nat) == seq![c] + digits@.reverse(),
            r@ == seq![c] + digits@.reverse().subrange(0, (digits@.len() - i) as int),
        decreases i,
    {
        i = i - 1;
        let d = digits[i];
        push_char(&mut r, d);
        assert(digits@.reverse().subrange(0, (digits@.len() - i) as int)
            == digits@.reverse().subrange(0, (digits@.len() - i - 1) as int).push(d));
    }
    assert(digits@.reverse().subrange(0, digits@.len() as int) == digits@.reverse());
    r
}

/// Parses a `u32` the way `str::parse::<u32>` does.
pub fn parse_u32(s: &str) -> (r: Option<u32>)
    ensures
        r == parse_u32_spec(s@),
{
    let n = s.unicode_len();
    let mut start: usize = 0;
    if n > 0 && s.get_char(0) == '+' {
        start = 1;
    }
    let ghost body = if s@.len() > 0 && s@[0] == '+' {
        s@.drop_first()
    } else {
        s@
    };
    assert(body == s@.subrange(start as int, n as int));
    if start == n {
        assert(body.len() == 0);
        return None;
    }
    let mut v: u64 = 0;
    let mut i: usize = start;
    while i < n
        invariant
            n == s@.len(),
            start <= i <= n,
            body == s@.subrange(start as int, n as int),
            body == (if s@.len() > 0 && s@[0] == '+' {
                s@.drop_first()
            } else {
                s@
            }),
            all_digits(s@.subrange(start as int, i as int)),
            v == digits_value(s@.subrange(start as int, i as int)),
            v <= u32::MAX,
        decreases n - i,
    {
        let c = s.get_char(i);
        let ghost prefix = s@.subrange(start as int, i as int);
        let ghost next = s@.subrange(start as int, i + 1);
        assert(next.drop_last() == prefix);
        assert(next.last() == c);
        if !('0' <= c && c <= '9') {
            assert(!all_digits(body)) by {
                assert(body[i - start] == c);
            }
            return None;
        }
        let d: u64 = ((c as u32) - 48) as u64;
        v = v * 10 + d;
        assert(all_digits(next)) by {
            assert forall|j: int| 0 <= j < next.len() implies is_digit(#[trigger] next[j]) by {
                if j < prefix.len() {
                    assert(next[j] == prefix[j]);
                }
            }
        }
        if v > 0xffff_ffff {
            assert(!(digits_value(body) <= u32::MAX)) by {
                assert(body.subrange(0, (i + 1 - start) as int) == next);
                lemma_digits_prefix_bound(body, (i + 1 - start) as int);
            }
            return None;
        }
        i = i + 1;
    }
    Some(v as u32)
}

/// The value of a digit sequence is at least the value of any of its prefixes.
proof fn lemma_digits_prefix_bound(s: Seq<char>, k: int)
    requires
        0 <= k <= s.len(),
    ensures
        digits_value(s) >= digits_value(s.subrange(0, k)),
    decreases s.len() - k,
{
    if k < s.len() {
        lemma_digits_prefix_bound(s, k + 1);
        let p = s.subrange(0, k + 1);
        assert(p.drop_last() == s.subrange(0, k));
    } else {
        assert(s.subrange(0, k) == s);
    }
}

/// The pieces of `s` between occurrences of `sep` (as `str::split` yields them).
pub open spec fn split_on(s: Seq<char>, sep: char) -> Seq<Seq<char>>
    decreases s.len(),
{
    match first_index_of(s, sep) {
        Some(i) => {
            if 0 <= i < s.len() {
                seq![s.subrange(0, i)] + split_on(s.subrange(i + 1, s.len() as int), sep)
            } else {
                seq![s]
            }
        },
        None => seq![s],
    }
}

/// The words joined with `sep` between consecutive ones.
pub open spec fn join_on(ws: Seq<Seq<char>>, sep: char) -> Seq<char>
    decreases ws.len(),
{
    if ws.len() == 0 {
        Seq::empty()
    } else if ws.len() == 1 {
        ws[0]
    } else {
        ws[0] + seq![sep] + join_on(ws.drop_first(), sep)
    }
}

/// Whether `c` occurs in `s`.
pub open spec fn has_char(s: Seq<char>, c: char) -> bool {
    exists|i: int| 0 <= i < s.len() && s[i] == c
}

/// Appending a word to a non-empty list of words appends the separator and the word.
pub proof fn lemma_join_push(ws: Seq<Seq<char>>, w: Seq<char>, sep: char)
    requires
        ws.len() >= 1,
    ensures
        join_on(ws.push(w), sep) == join_on(ws, sep) + seq![sep] + w,
    decreases ws.len(),
{
    let p = ws.push(w);
    assert(p[0] == ws[0]);
    if ws.len() == 1 {
        assert(p.drop_first() == seq![w]);
        assert(join_on(p.drop_first(), sep) == w);
    } else {
        assert(p.drop_first() == ws.drop_first().push(w));
        lemma_join_push(ws.drop_first(), w, sep);
        let r = join_on(ws.drop_first(), sep);
        assert(ws[0] + seq![sep] + (r + seq![sep] + w) == (ws[0] + seq![sep] + r) + seq![sep] + w);
    }
}

/// Splitting words joined with a separator that none of them holds gives the words back.
pub proof fn lemma_split_join(ws: Seq<Seq<char>>, sep: char)
    requires
        ws.len() >= 1,
        forall|i: int| 0 <= i < ws.len() ==> !has_char(#[trigger] ws[i], sep),
    ensures
        split_on(join_on(ws, sep), sep) == ws,
    decreases ws.len(),
{
    let w0 = ws[0];
    if ws.len() == 1 {
        lemma_first_index_of(w0, sep);
        if first_index_of(w0, sep) is Some {
            let i = first_index_of(w0, sep)->0;
            assert(w0[i] == sep);
        }
        assert(split_on(w0, sep) == seq![w0]);
    } else {
        let rest = ws.drop_first();
        assert forall|i: int| 0 <= i < rest.len() implies !has_char(#[trigger] rest[i], sep) by {
            assert(rest[i] == ws[i + 1]);
        }
        lemma_split_join(rest, sep);
        let j = join_on(ws, sep);
        assert(j == w0 + seq![sep] + join_on(rest, sep));
        assert(forall|k: int| 0 <= k < w0.len() ==> j[k] == w0[k]);
        assert forall|k: int| 0 <= k < w0.len() implies w0[k] != sep by { assert(!has_char(ws[0], sep)); }
        assert(j[w0.len() as int] == sep);
        lemma_first_index_of_unique(j, sep, w0.len() as int);
        assert(j.subrange(0, w0.len() as int) == w0);
        assert(j.subrange((w0.len() + 1) as int, j.len() as int) == join_on(rest, sep));
        assert(split_on(j, sep) == seq![w0] + rest);
        assert(seq![w0] + rest == ws);
    }
}

} // verus!
