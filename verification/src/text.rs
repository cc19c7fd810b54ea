//! Comparisons and searches on text, and how `Debug` quotes a string.
use vstd::prelude::*;

verus! {

/// `p` begins `s`.
pub open spec fn has_prefix(s: Seq<char>, p: Seq<char>) -> bool {
    p.len() <= s.len() && s.take(p.len() as int) == p
}

/// `q` ends `s`.
pub open spec fn has_suffix(s: Seq<char>, q: Seq<char>) -> bool {
    q.len() <= s.len() && s.skip(s.len() - q.len()) == q
}

/// Whether `s` begins with `p`, as `str::starts_with` tells.
pub fn starts_with(s: &str, p: &str) -> (r: bool)
    ensures
        r == has_prefix(s@, p@),
{
    let n = s.unicode_len();
    let m = p.unicode_len();
    if m > n {
        return false;
    }
    let mut i: usize = 0;
    while i < m
        invariant
            i <= m <= n,
            n == s@.len(),
            m == p@.len(),
            forall|j: int| 0 <= j < i ==> s@[j] == p@[j],
        decreases m - i,
    {
        if s.get_char(i) != p.get_char(i) {
            assert(s@.take(m as int)[i as int] != p@[i as int]);
            return false;
        }
        i = i + 1;
    }
    assert(s@.take(m as int) =~= p@);
    true
}

/// Whether `s` ends with `q`, as `str::ends_with` tells.
pub fn ends_with(s: &str, q: &str) -> (r: bool)
    ensures
        r == has_suffix(s@, q@),
{
    let n = s.unicode_len();
    let m = q.unicode_len();
    if m > n {
        return false;
    }
    let off = n - m;
    let mut i: usize = 0;
    while i < m
        invariant
            i <= m <= n,
            off == n - m,
            n == s@.len(),
            m == q@.len(),
            forall|j: int| 0 <= j < i ==> s@[off + j] == q@[j],
        decreases m - i,
    {
        if s.get_char(off + i) != q.get_char(i) {
            assert(s@.skip(off as int)[i as int] != q@[i as int]);
            return false;
        }
        i = i + 1;
    }
    assert(s@.skip(off as int) =~= q@);
    true
}

/// Whether `c` occurs in `s` between positions `from` and `to`.
pub fn contains_char_between(s: &str, c: char, from: usize, to: usize) -> (r: bool)
    requires
        from <= to <= s@.len(),
    ensures
        r == s@.subrange(from as int, to as int).contains(c),
{
    let mut i: usize = from;
    while i < to
        invariant
            from <= i <= to <= s@.len(),
            forall|j: int| from <= j < i ==> s@[j] != c,
        decreases to - i,
    {
        if s.get_char(i) == c {
            assert(s@.subrange(from as int, to as int)[i - from] == c);
            return true;
        }
        i = i + 1;
    }
    assert forall|j: int| 0 <= j < to - from implies s@.subrange(from as int, to as int)[j] != c by {
        assert(s@.subrange(from as int, to as int)[j] == s@[from + j]);
    }
    false
}

/// Whether `a` and `b` hold the same text.
pub fn str_eq(a: &str, b: &str) -> (r: bool)
    ensures
        r == (a@ == b@),
{
    let n = a.unicode_len();
    if n != b.unicode_len() {
        return false;
    }
    let mut i: usize = 0;
    while i < n
        invariant
            i <= n,
            n == a@.len(),
            n == b@.len(),
            forall|j: int| 0 <= j < i ==> a@[j] == b@[j],
        decreases n - i,
    {
        if a.get_char(i) != b.get_char(i) {
            return false;
        }
        i = i + 1;
    }
    assert(a@ =~= b@);
    true
}

/// The text that `Debug` writes for the string `s`: `s` between double
/// quotes, with the characters escaped that `char::escape_debug` escapes.
pub uninterp spec fn debug_text(s: Seq<char>) -> Seq<char>;

/// `format!("{:?}", s)`, the `Debug` text of a string; its result is named
/// by `debug_text` and nothing more is claimed of it.
#[verifier::external_body]
pub(crate) fn debug_quoted(s: &str) -> (r: String)
    ensures
        r@ == debug_text(s@),
{
    format!("{:?}", s)
}

} // verus!
