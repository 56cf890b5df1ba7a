//! Character-level helpers: Unicode white space, ASCII case folding and trimming.

use vstd::prelude::*;

verus! {

/// The characters that carry the Unicode `White_Space` property.
pub open spec fn is_white_space(c: char) -> bool {
    ||| ('\u{9}' <= c && c <= '\u{d}')
    ||| c == ' '
    ||| c == '\u{85}'
    ||| c == '\u{a0}'
    ||| c == '\u{1680}'
    ||| ('\u{2000}' <= c && c <= '\u{200a}')
    ||| c == '\u{2028}'
    ||| c == '\u{2029}'
    ||| c == '\u{202f}'
    ||| c == '\u{205f}'
    ||| c == '\u{3000}'
}

/// ASCII lower-casing of one character: `A`..`Z` become `a`..`z`, the rest is unchanged.
pub open spec fn ascii_lower_char(c: char) -> char {
    if 'A' <= c && c <= 'Z' {
        ((c as u32) + 32) as char
    } else {
        c
    }
}

/// ASCII lower-casing of a whole character sequence.
pub open spec fn ascii_lower(s: Seq<char>) -> Seq<char> {
    s.map_values(|c: char| ascii_lower_char(c))
}

/// `s` without its leading white space.
pub open spec fn trim_start(s: Seq<char>) -> Seq<char>
    decreases s.len(),
{
    if s.len() > 0 && is_white_space(s[0]) {
        trim_start(s.drop_first())
    } else {
        s
    }
}

/// `s` without its trailing white space.
pub open spec fn trim_end(s: Seq<char>) -> Seq<char>
    decreases s.len(),
{
    if s.len() > 0 && is_white_space(s.last()) {
        trim_end(s.drop_last())
    } else {
        s
    }
}

/// `s` without leading and trailing white space.
pub open spec fn trim(s: Seq<char>) -> Seq<char> {
    trim_end(trim_start(s))
}

/// Whether `c` has the Unicode `White_Space` property.
pub fn is_whitespace(c: char) -> (b: bool)
    ensures
        b == is_white_space(c),
{
    ('\u{9}' <= c && c <= '\u{d}') || c == ' ' || c == '\u{85}' || c == '\u{a0}' || c == '\u{1680}'
        || ('\u{2000}' <= c && c <= '\u{200a}') || c == '\u{2028}' || c == '\u{2029}'
        || c == '\u{202f}' || c == '\u{205f}' || c == '\u{3000}'
}

/// ASCII lower-casing of one character.
pub fn to_ascii_lower(c: char) -> (r: char)
    ensures
        r == ascii_lower_char(c),
{
    if 'A' <= c && c <= 'Z' {
        let u: u8 = (c as u8) + 32;
        u as char
    } else {
        c
    }
}

/// The characters of `s`, in order.
pub fn chars_of(s: &str) -> (v: Vec<char>)
    ensures
        v@ == s@,
{
    let mut v: Vec<char> = Vec::new();
    for c in it: s.chars()
        invariant
            v@ == it.seq().take(it.index() as int),
    {
        v.push(c);
    }
    v
}

/// The characters of `s` after ASCII lower-casing and trimming white space at both ends.
pub fn lower_trimmed(s: &str) -> (v: Vec<char>)
    ensures
        v@ == trim(ascii_lower(s@)),
{
    let chars = chars_of(s);
    let n = chars.len();
    let mut lowered: Vec<char> = Vec::new();
    for i in 0..n
        invariant
            n == chars@.len(),
            chars@ == s@,
            lowered@ == ascii_lower(s@).take(i as int),
    {
        lowered.push(to_ascii_lower(chars[i]));
        assert(lowered@ =~= ascii_lower(s@).take(i + 1));
    }
    assert(lowered@ =~= ascii_lower(s@));
    trimmed(&lowered)
}

/// `v` without leading white space.
pub fn trimmed_start(v: &Vec<char>) -> (r: Vec<char>)
    ensures
        r@ == trim_start(v@),
{
    let n = v.len();
    let mut lo: usize = 0;
    assert(v@.subrange(0, n as int) =~= v@);
    while lo < n && is_whitespace(v[lo])
        invariant
            n == v@.len(),
            lo <= n,
            trim_start(v@) == trim_start(v@.subrange(lo as int, n as int)),
        decreases n - lo,
    {
        assert(v@.subrange(lo as int, n as int).drop_first() =~= v@.subrange(lo + 1, n as int));
        lo = lo + 1;
    }
    let ghost mid = v@.subrange(lo as int, n as int);
    assert(trim_start(mid) == mid) by {
        if mid.len() > 0 {
            assert(mid[0] == v@[lo as int]);
        }
    }
    let mut r: Vec<char> = Vec::new();
    for i in lo..n
        invariant
            n == v@.len(),
            lo <= n,
            r@ == v@.subrange(lo as int, i as int),
    {
        r.push(v[i]);
        assert(r@ =~= v@.subrange(lo as int, i + 1));
    }
    r
}

/// `v` without trailing white space.
pub fn trimmed_end(v: &Vec<char>) -> (r: Vec<char>)
    ensures
        r@ == trim_end(v@),
{
    let n = v.len();
    let mut hi: usize = n;
    assert(v@.subrange(0, n as int) =~= v@);
    while hi > 0 && is_whitespace(v[hi - 1])
        invariant
            n == v@.len(),
            hi <= n,
            trim_end(v@) == trim_end(v@.subrange(0, hi as int)),
        decreases hi,
    {
        assert(v@.subrange(0, hi as int).drop_last() =~= v@.subrange(0, hi - 1));
        hi = hi - 1;
    }
    let mut r: Vec<char> = Vec::new();
    for i in 0..hi
        invariant
            hi <= n,
            n == v@.len(),
            r@ == v@.subrange(0, i as int),
    {
        r.push(v[i]);
        assert(r@ =~= v@.subrange(0, i + 1));
    }
    assert(trim_end(v@.subrange(0, hi as int)) == v@.subrange(0, hi as int)) by {
        let t = v@.subrange(0, hi as int);
        if t.len() > 0 {
            assert(t.last() == v@[hi - 1]);
        }
    }
    r
}

/// `v` without leading and trailing white space.
pub fn trimmed(v: &Vec<char>) -> (r: Vec<char>)
    ensures
        r@ == trim(v@),
{
    let s = trimmed_start(v);
    trimmed_end(&s)
}

/// Whether the characters in `v` begin with the characters of `lit`.
pub fn starts_with_lit(v: &Vec<char>, lit: &str) -> (b: bool)
    ensures
        b == (lit@.len() <= v@.len() && v@.subrange(0, lit@.len() as int) == lit@),
{
    let n = lit.unicode_len();
    if n > v.len() {
        return false;
    }
    for i in 0..n
        invariant
            n == lit@.len(),
            n <= v@.len(),
            forall|j: int| 0 <= j < i ==> v@[j] == lit@[j],
    {
        if lit.get_char(i) != v[i] {
            assert(v@.subrange(0, n as int)[i as int] != lit@[i as int]);
            return false;
        }
    }
    assert(v@.subrange(0, n as int) =~= lit@);
    true
}

/// Whether the characters in `v` spell exactly `lit`.
pub fn chars_eq(v: &Vec<char>, lit: &str) -> (b: bool)
    ensures
        b == (v@ == lit@),
{
    let n = lit.unicode_len();
    if n != v.len() {
        return false;
    }
    for i in 0..n
        invariant
            n == lit@.len(),
            n == v@.len(),
            forall|j: int| 0 <= j < i ==> v@[j] == lit@[j],
    {
        if lit.get_char(i) != v[i] {
            return false;
        }
    }
    assert(v@ =~= lit@);
    true
}

} // verus!
