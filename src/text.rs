//! Character-level helpers shared by the resolver, the classifier and the cache.
use vstd::prelude::*;

verus! {

/// The text that `str::to_lowercase` gives for `s`.
pub uninterp spec fn lower_of(s: Seq<char>) -> Seq<char>;

/// Relies on `str::to_lowercase`: the result depends on the characters alone.
#[verifier::external_body]
pub(crate) fn lowercase(s: &str) -> (r: String)
    ensures
        r@ == lower_of(s@),
{
    s.to_lowercase()
}

/// The characters of `s`, one per element.
pub fn chars_of(s: &str) -> (v: Vec<char>)
    ensures
        v@ == s@,
{
    let n = s.unicode_len();
    let mut v: Vec<char> = Vec::new();
    let mut i: usize = 0;
    while i < n
        invariant
            n == s@.len(),
            i <= n,
            v@ == s@.subrange(0, i as int),
        decreases n - i,
    {
        v.push(s.get_char(i));
        i = i + 1;
        assert(v@ =~= s@.subrange(0, i as int));
    }
    assert(v@ =~= s@);
    v
}

/// Relies on `String::from_iter` over chars: the string holds exactly those chars, in order.
#[verifier::external_body]
pub(crate) fn string_of(v: &[char]) -> (s: String)
    ensures
        s@ == v@,
{
    String::from_iter(v.iter())
}

/// Whether `lit` occurs in `v` starting at index `at`.
pub fn occurs_at(v: &[char], at: usize, lit: &str) -> (r: bool)
    requires
        at <= v@.len(),
    ensures
        r == (at + lit@.len() <= v@.len() && v@.subrange(at as int, at + lit@.len()) == lit@),
{
    let n = lit.unicode_len();
    if n > v.len() - at {
        return false;
    }
    let mut i: usize = 0;
    while i < n
        invariant
            n == lit@.len(),
            at + n <= v.len(),
            i <= n,
            v@.subrange(at as int, at + i) == lit@.subrange(0, i as int),
        decreases n - i,
    {
        if v[at + i] != lit.get_char(i) {
            assert(v@.subrange(at as int, at + n)[i as int] != lit@[i as int]);
            return false;
        }
        i = i + 1;
        assert(v@.subrange(at as int, at + i) =~= lit@.subrange(0, i as int));
    }
    assert(lit@.subrange(0, n as int) =~= lit@);
    true
}

/// Whether the whole of `v[lo..hi]` equals `lit`.
pub fn range_is(v: &[char], lo: usize, hi: usize, lit: &str) -> (r: bool)
    requires
        lo <= hi <= v@.len(),
    ensures
        r == (v@.subrange(lo as int, hi as int) == lit@),
{
    if hi - lo != lit.unicode_len() {
        assert(v@.subrange(lo as int, hi as int).len() != lit@.len());
        return false;
    }
    occurs_at(v, lo, lit)
}

} // verus!
