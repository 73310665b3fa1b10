//! Character-level helpers shared by the request rules: views of strings as
//! character sequences, whitespace trimming, prefixes and decimal rendering.

use vstd::prelude::*;

verus! {

/// `String::push`: appends one character.
#[verifier::external_body]
pub(crate) fn push_char(s: &mut String, c: char)
    ensures
        final(s)@ == old(s)@.push(c),
{
    s.push(c);
}

/// The characters of `s`, in order.
pub fn chars_of(s: &str) -> (v: Vec<char>)
    ensures
        v@ == s@,
{
    let n = s.unicode_len();
    let mut v: Vec<char> = Vec::new();
    let mut i: usize = 0;
    while i < n
        invariant
            n == s@.len(),
            i <= n,
            v@ == s@.subrange(0, i as int),
        decreases n - i,
    {
        let c = s.get_char(i);
        v.push(c);
        i = i + 1;
    }
    v
}

/// A string holding exactly the characters `cs[from..to]`.
pub fn string_from_chars(cs: &Vec<char>, from: usize, to: usize) -> (s: String)
    requires
        from <= to <= cs@.len(),
    ensures
        s@ == cs@.subrange(from as int, to as int),
{
    let mut s = String::new();
    let mut i = from;
    while i < to
        invariant
            from <= i <= to,
            to <= cs@.len(),
            s@ == cs@.subrange(from as int, i as int),
        decreases to - i,
    {
        push_char(&mut s, cs[i]);
        i = i + 1;
    }
    s
}

/// `p` is a prefix of `s`.
pub open spec fn has_prefix(s: Seq<char>, p: Seq<char>) -> bool {
    p.len() <= s.len() && s.subrange(0, p.len() as int) == p
}

/// Decides `has_prefix(s@, p@)`.
pub fn starts_with(s: &Vec<char>, p: &str) -> (b: bool)
    ensures
        b == has_prefix(s@, p@),
{
    let m = p.unicode_len();
    if m > s.len() {
        return false;
    }
    let mut i: usize = 0;
    while i < m
        invariant
            m == p@.len(),
            m <= s@.len(),
            i <= m,
            forall|j: int| 0 <= j < i ==> s@[j] == p@[j],
        decreases m - i,
    {
        if s[i] != p.get_char(i) {
            assert(s@.subrange(0, m as int)[i as int] != p@[i as int]);
            return false;
        }
        i = i + 1;
    }
    assert(s@.subrange(0, m as int) =~= p@);
    true
}

/// The characters that `char::is_whitespace` accepts (Unicode White_Space).
pub open spec fn is_space(c: char) -> bool {
    ||| c == '\t' || c == '\n' || c == '\u{0B}' || c == '\u{0C}' || c == '\r' || c == ' '
    ||| c == '\u{85}' || c == '\u{A0}' || c == '\u{1680}'
    ||| ('\u{2000}' <= c && c <= '\u{200A}')
    ||| c == '\u{2028}' || c == '\u{2029}' || c == '\u{202F}' || c == '\u{205F}' || c == '\u{3000}'
}

/// Decides `is_space(c)`.
pub fn is_space_char(c: char) -> (b: bool)
    ensures
        b == is_space(c),
{
    c == '\t' || c == '\n' || c == '\u{0B}' || c == '\u{0C}' || c == '\r' || c == ' '
        || c == '\u{85}' || c == '\u{A0}' || c == '\u{1680}'
        || ('\u{2000}' <= c && c <= '\u{200A}')
        || c == '\u{2028}' || c == '\u{2029}' || c == '\u{202F}' || c == '\u{205F}'
        || c == '\u{3000}'
}

/// Number of leading whitespace characters of `s`.
pub open spec fn lead_space(s: Seq<char>) -> int
    decreases s.len(),
{
    if s.len() > 0 && is_space(s[0]) {
        1 + lead_space(s.drop_first())
    } else {
        0
    }
}

/// Number of trailing whitespace characters of `s`.
pub open spec fn trail_space(s: Seq<char>) -> int
    decreases s.len(),
{
    if s.len() > 0 && is_space(s.last()) {
        1 + trail_space(s.drop_last())
    } else {
        0
    }
}

/// `s` with leading and trailing whitespace removed, as `str::trim` does.
pub open spec fn trimmed(s: Seq<char>) -> Seq<char> {
    let a = lead_space(s);
    if a == s.len() {
        Seq::empty()
    } else {
        s.subrange(a, s.len() - trail_space(s))
    }
}


/// Facts about the leading-whitespace count.
pub proof fn lemma_lead_space(s: Seq<char>)
    ensures
        0 <= lead_space(s) <= s.len(),
        forall|j: int| 0 <= j < lead_space(s) ==> is_space(#[trigger] s[j]),
        lead_space(s) < s.len() ==> !is_space(s[lead_space(s)]),
    decreases s.len(),
{
    if s.len() > 0 && is_space(s[0]) {
        lemma_lead_space(s.drop_first());
        assert forall|j: int| 0 <= j < lead_space(s) implies is_space(#[trigger] s[j]) by {
            if j > 0 {
                assert(s[j] == s.drop_first()[j - 1]);
            }
        }
        if lead_space(s) < s.len() {
            assert(s[lead_space(s)] == s.drop_first()[lead_space(s.drop_first())]);
        }
    }
}

/// Facts about the trailing-whitespace count.
pub proof fn lemma_trail_space(s: Seq<char>)
    ensures
        0 <= trail_space(s) <= s.len(),
        forall|j: int| 0 <= j < trail_space(s) ==> is_space(#[trigger] s[s.len() - 1 - j]),
        trail_space(s) < s.len() ==> !is_space(s[s.len() - 1 - trail_space(s)]),
    decreases s.len(),
{
    if s.len() > 0 && is_space(s.last()) {
        let t = s.drop_last();
        lemma_trail_space(t);
        assert forall|j: int| 0 <= j < trail_space(s) implies is_space(
            #[trigger] s[s.len() - 1 - j],
        ) by {
            if j > 0 {
                assert(s[s.len() - 1 - j] == t[t.len() - 1 - (j - 1)]);
            }
        }
        if trail_space(s) < s.len() {
            assert(s[s.len() - 1 - trail_space(s)] == t[t.len() - 1 - trail_space(t)]);
        }
    }
}

/// When some character is not whitespace, the leading and trailing runs do
/// not meet.
pub proof fn lemma_spaces_disjoint(s: Seq<char>)
    requires
        lead_space(s) < s.len(),
    ensures
        lead_space(s) + trail_space(s) < s.len(),
{
    lemma_lead_space(s);
    lemma_trail_space(s);
    let a = lead_space(s);
    if a + trail_space(s) >= s.len() {
        let j = s.len() - 1 - a;
        assert(0 <= j < trail_space(s));
        assert(is_space(s[s.len() - 1 - j]));
    }
}

/// Bounds `(a, b)` such that `s[a..b]` is `s` trimmed of whitespace.
pub fn trim_bounds(s: &Vec<char>) -> (r: (usize, usize))
    ensures
        r.0 <= r.1 <= s@.len(),
        s@.subrange(r.0 as int, r.1 as int) == trimmed(s@),
{
    proof {
        lemma_lead_space(s@);
        lemma_trail_space(s@);
    }
    let n = s.len();
    let mut a: usize = 0;
    while a < n && is_space_char(s[a])
        invariant
            n == s@.len(),
            a <= n,
            a <= lead_space(s@),
            0 <= lead_space(s@) <= s@.len(),
            forall|j: int| 0 <= j < lead_space(s@) ==> is_space(#[trigger] s@[j]),
            lead_space(s@) < s@.len() ==> !is_space(s@[lead_space(s@)]),
        decreases n - a,
    {
        a = a + 1;
    }
    assert(a == lead_space(s@));
    if a == n {
        return (n, n);
    }
    proof {
        lemma_spaces_disjoint(s@);
    }
    let mut b: usize = 0;
    while is_space_char(s[n - 1 - b])
        invariant
            n == s@.len(),
            a < n,
            a == lead_space(s@),
            b <= trail_space(s@),
            lead_space(s@) + trail_space(s@) < s@.len(),
            0 <= trail_space(s@) <= s@.len(),
            forall|j: int| 0 <= j < trail_space(s@) ==> is_space(#[trigger] s@[s@.len() - 1 - j]),
            trail_space(s@) < s@.len() ==> !is_space(s@[s@.len() - 1 - trail_space(s@)]),
        decreases n - b,
    {
        b = b + 1;
    }
    assert(b == trail_space(s@));
    (a, n - b)
}

/// Trimming is idempotent: a trimmed string has nothing left to trim.
pub proof fn law_trim_idempotent(s: Seq<char>)
    ensures
        trimmed(trimmed(s)) == trimmed(s),
{
    lemma_lead_space(s);
    lemma_trail_space(s);
    let t = trimmed(s);
    if lead_space(s) == s.len() {
        assert(lead_space(t) == 0);
    } else {
        lemma_spaces_disjoint(s);
        let a = lead_space(s);
        let z = s.len() - trail_space(s);
        assert(t[0] == s[a]);
        assert(t.len() > 0);
        assert(lead_space(t) == 0);
        assert(t.last() == s[s.len() - 1 - trail_space(s)]);
        assert(trail_space(t) == 0);
        assert(t.subrange(0, t.len() as int) =~= t);
    }
}

} // verus!

verus! {

/// Decides `s@ == t@`.
pub fn equals(s: &Vec<char>, t: &str) -> (b: bool)
    ensures
        b == (s@ == t@),
{
    let n = t.unicode_len();
    if n != s.len() {
        return false;
    }
    let mut i: usize = 0;
    while i < n
        invariant
            n == t@.len(),
            n == s@.len(),
            i <= n,
            forall|j: int| 0 <= j < i ==> s@[j] == t@[j],
        decreases n - i,
    {
        if s[i] != t.get_char(i) {
            return false;
        }
        i = i + 1;
    }
    assert(s@ =~= t@);
    true
}

} // verus!
