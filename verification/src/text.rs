//! Text helpers shared by validation, error messages and header display.

use vstd::prelude::*;
use vstd::utf8::*;

verus! {

/// The characters with the Unicode `White_Space` property.
pub open spec fn white_space(c: char) -> bool {
    let n = c as int;
    ||| 0x9 <= n <= 0xd
    ||| n == 0x20
    ||| n == 0x85
    ||| n == 0xa0
    ||| n == 0x1680
    ||| 0x2000 <= n <= 0x200a
    ||| n == 0x2028
    ||| n == 0x2029
    ||| n == 0x202f
    ||| n == 0x205f
    ||| n == 0x3000
}

/// Whether the text holds nothing but white space.
pub open spec fn blank(s: Seq<char>) -> bool {
    forall|i: int| 0 <= i < s.len() ==> white_space(#[trigger] s[i])
}

/// Whether `t` is `s[a..b]`, where only white space stands outside that range and `t` neither
/// starts nor ends with white space.
pub open spec fn trims_to(s: Seq<char>, t: Seq<char>, a: int, b: int) -> bool {
    &&& 0 <= a <= b <= s.len()
    &&& t == s.subrange(a, b)
    &&& blank(s.subrange(0, a))
    &&& blank(s.subrange(b, s.len() as int))
    &&& t.len() > 0 ==> !white_space(t[0]) && !white_space(t.last())
}

/// Calls `str::trim`, which removes leading and trailing white space, as the Unicode
/// `White_Space` property defines it, and keeps everything in between.
#[verifier::external_body]
fn trim(s: &str) -> (t: &str)
    ensures
        exists|a: int, b: int| trims_to(s@, t@, a, b),
{
    s.trim()
}

/// Calls `str::starts_with` with a string pattern: whether `s` begins with the characters of
/// `prefix`.
#[verifier::external_body]
pub(crate) fn starts_with(s: &str, prefix: &str) -> (found: bool)
    ensures
        found == prefix@.is_prefix_of(s@),
{
    s.starts_with(prefix)
}

/// What `String::from_utf8_lossy` makes of a byte sequence.
pub uninterp spec fn utf8_lossy(bytes: Seq<u8>) -> Seq<char>;

/// Calls `String::from_utf8_lossy`. Valid UTF-8 is decoded as it stands; how malformed parts are
/// replaced is left to the name `utf8_lossy`.
#[verifier::external_body]
pub(crate) fn from_utf8_lossy(bytes: &[u8]) -> (text: String)
    ensures
        text@ == utf8_lossy(bytes@),
        valid_utf8(bytes@) ==> text@ == decode_utf8(bytes@),
{
    String::from_utf8_lossy(bytes).into_owned()
}

/// Whether a configuration value counts as empty: it has no character besides white space.
pub fn is_blank(s: &str) -> (b: bool)
    ensures
        b == blank(s@),
{
    let t = trim(s);
    proof {
        let (a, b) = choose|a: int, b: int| trims_to(s@, t@, a, b);
        if t@.len() == 0 {
            assert forall|i: int| 0 <= i < s@.len() implies white_space(#[trigger] s@[i]) by {
                if i < a {
                    assert(s@.subrange(0, a)[i] == s@[i]);
                } else {
                    assert(s@.subrange(b, s@.len() as int)[i - b] == s@[i]);
                }
            }
        } else {
            assert(t@[0] == s@[a]);
        }
    }
    t.is_empty()
}

/// Joins two pieces of text.
pub(crate) fn join(first: &str, second: &str) -> (text: String)
    ensures
        text@ == first@ + second@,
{
    let mut text = first.to_owned();
    text.append(second);
    text
}

/// Whether two texts are the same.
pub(crate) fn same_text(a: &str, b: &str) -> (same: bool)
    ensures
        same == (a@ == b@),
{
    a.to_owned() == b.to_owned()
}

/// Whether two byte slices hold the same bytes.
pub(crate) fn same_bytes(a: &[u8], b: &[u8]) -> (same: bool)
    ensures
        same == (a@ == b@),
{
    if a.len() != b.len() {
        return false;
    }
    let mut i: usize = 0;
    while i < a.len()
        invariant
            a@.len() == b@.len(),
            i <= a@.len(),
            forall|j: int| 0 <= j < i ==> a@[j] == b@[j],
        decreases a@.len() - i,
    {
        if a[i] != b[i] {
            return false;
        }
        i += 1;
    }
    assert(a@ =~= b@);
    true
}

} // verus!
