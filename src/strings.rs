//! String helpers: trimming, lower-casing and comparison.
use vstd::prelude::*;
use vstd::string::StrSliceExecFns;

verus! {

/// What `str::trim` leaves of a text.
pub uninterp spec fn trim_of(s: Seq<char>) -> Seq<char>;

/// What `str::to_lowercase` makes of a text.
pub uninterp spec fn lower_of(s: Seq<char>) -> Seq<char>;

/// A character with the Unicode `White_Space` property, which `char::is_whitespace`
/// and `str::trim` go by.
pub open spec fn is_white_space(c: char) -> bool {
    let v = c as u32;
    ||| 0x09 <= v <= 0x0D
    ||| v == 0x20
    ||| v == 0x85
    ||| v == 0xA0
    ||| v == 0x1680
    ||| 0x2000 <= v <= 0x200A
    ||| v == 0x2028
    ||| v == 0x2029
    ||| v == 0x202F
    ||| v == 0x205F
    ||| v == 0x3000
}

/// `r` is a contiguous part of `s`.
pub open spec fn is_infix(r: Seq<char>, s: Seq<char>) -> bool {
    exists|a: int, b: int| 0 <= a <= b <= s.len() && r == #[trigger] s.subrange(a, b)
}

/// Relies on `str::trim`: a subslice of the text, without its leading and
/// trailing `White_Space` characters.
#[verifier::external_body]
pub(crate) fn trim_str(s: &str) -> (r: &str)
    ensures
        r@ == trim_of(s@),
        is_infix(r@, s@),
        r@.len() > 0 ==> !is_white_space(r@[0]) && !is_white_space(r@.last()),
        (forall|i: int| 0 <= i < s@.len() ==> is_white_space(#[trigger] s@[i])) ==> r@.len() == 0,
{
    s.trim()
}

/// Relies on `str::to_lowercase`: the lower-case form of the text.
#[verifier::external_body]
pub(crate) fn lowercase(s: &str) -> (r: String)
    ensures
        r@ == lower_of(s@),
        s@.len() == 0 ==> r@.len() == 0,
{
    s.to_lowercase()
}

/// Whether two texts hold the same characters.
pub fn str_equals(a: &str, b: &str) -> (r: bool)
    ensures
        r == (a@ == b@),
{
    let n = a.unicode_len();
    if n != b.unicode_len() {
        return false;
    }
    let mut i: usize = 0;
    while i < n
        invariant
            n == a@.len(),
            n == b@.len(),
            i <= n,
            a@.subrange(0, i as int) == b@.subrange(0, i as int),
        decreases n - i,
    {
        if a.get_char(i) != b.get_char(i) {
            assert(a@[i as int] != b@[i as int]);
            return false;
        }
        assert(a@.subrange(0, i + 1) == a@.subrange(0, i as int).push(a@[i as int]));
        assert(b@.subrange(0, i + 1) == b@.subrange(0, i as int).push(b@[i as int]));
        i = i + 1;
    }
    assert(a@.subrange(0, n as int) == a@);
    assert(b@.subrange(0, n as int) == b@);
    true
}

} // verus!
