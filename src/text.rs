//! Character-level helpers on text: blank checks, prefixes, substring search,
//! `*` wildcard matching and decimal rendering.
use vstd::prelude::*;

verus! {

/// Characters with the Unicode `White_Space` property.
pub open spec fn whitespace(c: char) -> bool {
    ||| ('\u{9}' <= c && c <= '\u{d}')
    ||| c == ' '
    ||| c == '\u{85}'
    ||| c == '\u{a0}'
    ||| c == '\u{1680}'
    ||| ('\u{2000}' <= c && c <= '\u{200a}')
    ||| c == '\u{2028}'
    ||| c == '\u{2029}'
    ||| c == '\u{202f}'
    ||| c == '\u{205f}'
    ||| c == '\u{3000}'
}

/// Text that is empty or made of whitespace only (empty once trimmed).
pub open spec fn blank(s: Seq<char>) -> bool {
    forall|i: int| 0 <= i < s.len() ==> whitespace(#[trigger] s[i])
}

/// `p` is a prefix of `s`.
pub open spec fn has_prefix(s: Seq<char>, p: Seq<char>) -> bool {
    p.len() <= s.len() && s.subrange(0, p.len() as int) == p
}

/// `n` occurs in `s` as a contiguous run of characters.
pub open spec fn occurs_in(s: Seq<char>, n: Seq<char>) -> bool {
    exists|i: int| 0 <= i && i + n.len() <= s.len() && #[trigger] s.subrange(i, i + n.len()) == n
}

/// Pattern matching where `*` stands for any run of characters (possibly empty)
/// and every other character stands for itself.
pub open spec fn glob(p: Seq<char>, s: Seq<char>) -> bool
    decreases p.len() + s.len(),
{
    if p.len() == 0 {
        s.len() == 0
    } else if p[0] == '*' {
        glob(p.drop_first(), s) || (s.len() > 0 && glob(p, s.drop_first()))
    } else {
        s.len() > 0 && s[0] == p[0] && glob(p.drop_first(), s.drop_first())
    }
}

pub open spec fn digit_char(d: nat) -> char {
    if d == 0 { '0' }
    else if d == 1 { '1' }
    else if d == 2 { '2' }
    else if d == 3 { '3' }
    else if d == 4 { '4' }
    else if d == 5 { '5' }
    else if d == 6 { '6' }
    else if d == 7 { '7' }
    else if d == 8 { '8' }
    else { '9' }
}

/// Decimal digits of `n`, most significant first, without leading zeros.
pub open spec fn decimal(n: nat) -> Seq<char>
    decreases n,
{
    if n < 10 {
        seq![digit_char(n)]
    } else {
        decimal(n / 10).push(digit_char(n % 10))
    }
}

pub fn is_whitespace_char(c: char) -> (r: bool)
    ensures
        r == whitespace(c),
{
    ('\u{9}' <= c && c <= '\u{d}') || c == ' ' || c == '\u{85}' || c == '\u{a0}'
        || c == '\u{1680}' || ('\u{2000}' <= c && c <= '\u{200a}') || c == '\u{2028}'
        || c == '\u{2029}' || c == '\u{202f}' || c == '\u{205f}' || c == '\u{3000}'
}

/// The characters of `s`, one element each.
pub fn chars_of(s: &str) -> (r: Vec<char>)
    ensures
        r@ == s@,
{
    let n = s.unicode_len();
    let mut r: Vec<char> = Vec::new();
    let mut i: usize = 0;
    while i < n
        invariant
            n == s@.len(),
            i <= n,
            r@ == s@.subrange(0, i as int),
        decreases n - i,
    {
        r.push(s.get_char(i));
        i = i + 1;
    }
    assert(r@ =~= s@);
    r
}

/// True when `s` is empty or holds whitespace only.
pub fn is_blank(s: &str) -> (r: bool)
    ensures
        r == blank(s@),
{
    let n = s.unicode_len();
    let mut i: usize = 0;
    while i < n
        invariant
            n == s@.len(),
            i <= n,
            forall|j: int| 0 <= j < i ==> whitespace(#[trigger] s@[j]),
        decreases n - i,
    {
        if !is_whitespace_char(s.get_char(i)) {
            return false;
        }
        i = i + 1;
    }
    true
}

/// Character-wise equality of two texts.
pub fn same_text(a: &str, b: &str) -> (r: bool)
    ensures
        r == (a@ == b@),
{
    let n = a.unicode_len();
    if n != b.unicode_len() {
        return false;
    }
    let mut i: usize = 0;
    while i < n
        invariant
            n == a@.len(),
            n == b@.len(),
            i <= n,
            forall|j: int| 0 <= j < i ==> a@[j] == b@[j],
        decreases n - i,
    {
        if a.get_char(i) != b.get_char(i) {
            return false;
        }
        i = i + 1;
    }
    assert(a@ =~= b@);
    true
}

/// `s` with the prefix `p` removed, when `s` starts with `p`.
pub fn strip_prefix_text(s: &str, p: &str) -> (r: Option<String>)
    ensures
        r is Some <==> has_prefix(s@, p@),
        r matches Some(t) ==> t@ == s@.subrange(p@.len() as int, s@.len() as int),
{
    let n = s.unicode_len();
    let m = p.unicode_len();
    if m > n {
        return None;
    }
    let mut i: usize = 0;
    while i < m
        invariant
            n == s@.len(),
            m == p@.len(),
            m <= n,
            i <= m,
            forall|j: int| 0 <= j < i ==> s@[j] == p@[j],
        decreases m - i,
    {
        if s.get_char(i) != p.get_char(i) {
            assert(s@.subrange(0, m as int)[i as int] != p@[i as int]);
            return None;
        }
        i = i + 1;
    }
    assert(s@.subrange(0, m as int) =~= p@);
    let rest = s.substring_char(m, n);
    Some(rest.to_string())
}

/// Whether the characters of `n` occur contiguously in `s` starting at `start`.
fn occurs_at(s: &Vec<char>, n: &Vec<char>, start: usize) -> (r: bool)
    requires
        start + n@.len() <= s@.len(),
    ensures
        r == (s@.subrange(start as int, start + n@.len()) == n@),
{
    let sl = s.len();
    let mut j: usize = 0;
    while j < n.len()
        invariant
            sl == s@.len(),
            start + n@.len() <= s@.len(),
            j <= n@.len(),
            forall|k: int| 0 <= k < j ==> s@[start + k] == n@[k],
        decreases n@.len() - j,
    {
        assert(start + j < s@.len());
        if s[start + j] != n[j] {
            assert(s@.subrange(start as int, start + n@.len())[j as int] != n@[j as int]);
            return false;
        }
        j = j + 1;
    }
    assert(s@.subrange(start as int, start + n@.len()) =~= n@);
    true
}

/// Substring search: whether `needle` occurs in `haystack`.
pub fn contains_text(haystack: &str, needle: &str) -> (r: bool)
    ensures
        r == occurs_in(haystack@, needle@),
{
    let s = chars_of(haystack);
    let n = chars_of(needle);
    if n.len() > s.len() {
        return false;
    }
    let last = s.len() - n.len();
    let mut i: usize = 0;
    loop
        invariant
            s@ == haystack@,
            n@ == needle@,
            last == s@.len() - n@.len(),
            n@.len() <= s@.len(),
            i <= last,
            forall|k: int| 0 <= k < i ==> #[trigger] s@.subrange(k, k + n@.len()) != n@,
        ensures
            forall|k: int| 0 <= k <= last ==> #[trigger] s@.subrange(k, k + n@.len()) != n@,
        decreases last - i,
    {
        if occurs_at(&s, &n, i) {
            return true;
        }
        if i == last {
            break;
        }
        i = i + 1;
    }
    assert forall|k: int| 0 <= k && k + n@.len() <= s@.len() implies #[trigger] s@.subrange(
        k,
        k + n@.len(),
    ) != n@ by {
        assert(k <= last);
    }
    false
}

fn glob_from(p: &Vec<char>, pi: usize, s: &Vec<char>, si: usize) -> (r: bool)
    requires
        pi <= p@.len(),
        si <= s@.len(),
    ensures
        r == glob(p@.subrange(pi as int, p@.len() as int), s@.subrange(si as int, s@.len() as int)),
    decreases (p@.len() - pi) + (s@.len() - si),
{
    let ghost ps = p@.subrange(pi as int, p@.len() as int);
    let ghost ss = s@.subrange(si as int, s@.len() as int);
    if pi == p.len() {
        return si == s.len();
    }
    assert(ps.drop_first() =~= p@.subrange(pi + 1, p@.len() as int));
    if si < s.len() {
        assert(ss.drop_first() =~= s@.subrange(si + 1, s@.len() as int));
    }
    if p[pi] == '*' {
        if glob_from(p, pi + 1, s, si) {
            return true;
        }
        si < s.len() && glob_from(p, pi, s, si + 1)
    } else {
        si < s.len() && s[si] == p[pi] && glob_from(p, pi + 1, s, si + 1)
    }
}

/// Whether `text` matches `pattern`, where `*` matches any run of characters.
pub fn glob_match(pattern: &str, text: &str) -> (r: bool)
    ensures
        r == glob(pattern@, text@),
{
    let p = chars_of(pattern);
    let s = chars_of(text);
    assert(p@.subrange(0, p@.len() as int) =~= p@);
    assert(s@.subrange(0, s@.len() as int) =~= s@);
    glob_from(&p, 0, &s, 0)
}

/// Relies on the standard `Display` of `u64` (through `to_string`): plain
/// decimal digits, no sign, no separators, no leading zeros.
#[verifier::external_body]
pub(crate) fn decimal_text(n: u64) -> (r: String)
    ensures
        r@ == decimal(n as nat),
{
    n.to_string()
}

} // verus!
