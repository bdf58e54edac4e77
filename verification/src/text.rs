//! Text handling shared by the probes: decoding captured bytes and stripping
//! surrounding whitespace.

use vstd::prelude::*;
use vstd::string::StringSliceAdditionalSpecFns;
use vstd::utf8::valid_utf8;

verus! {

/// The error `core::str::from_utf8` reports for bytes that are not UTF-8.
/// Nothing is known of its contents.
#[verifier::external_type_specification]
#[verifier::external_body]
pub struct ExUtf8Error(core::str::Utf8Error);

/// `core::str::from_utf8` accepts exactly the byte strings that are well-formed
/// UTF-8, and the text it returns is made of the very bytes it was given.
pub assume_specification[ core::str::from_utf8 ](v: &[u8]) -> (r: Result<
    &str,
    core::str::Utf8Error,
>)
    ensures
        r is Ok <==> valid_utf8(v@),
        r matches Ok(s) ==> s.spec_bytes() == v@,
;

/// Whether `c` has the Unicode `White_Space` property, the notion of
/// whitespace that `str::trim` strips.
pub uninterp spec fn white_space(c: char) -> bool;

/// `s` without its longest prefix of characters that `strip` accepts.
pub open spec fn trim_start_matches(s: Seq<char>, strip: spec_fn(char) -> bool) -> Seq<char>
    decreases s.len(),
{
    if s.len() > 0 && strip(s.first()) {
        trim_start_matches(s.drop_first(), strip)
    } else {
        s
    }
}

/// `s` without its longest suffix of characters that `strip` accepts.
pub open spec fn trim_end_matches(s: Seq<char>, strip: spec_fn(char) -> bool) -> Seq<char>
    decreases s.len(),
{
    if s.len() > 0 && strip(s.last()) {
        trim_end_matches(s.drop_last(), strip)
    } else {
        s
    }
}

/// `s` without the characters that `strip` accepts at either end.
pub open spec fn trim_matches(s: Seq<char>, strip: spec_fn(char) -> bool) -> Seq<char> {
    trim_end_matches(trim_start_matches(s, strip), strip)
}

/// `s` with leading and trailing whitespace removed.
pub open spec fn trimmed(s: Seq<char>) -> Seq<char> {
    trim_matches(s, |c: char| white_space(c))
}

/// `str::trim` returns the slice left after removing leading and trailing
/// characters that have the `White_Space` property.
pub assume_specification[ str::trim ](s: &str) -> (r: &str)
    ensures
        r@ == trim_matches(s@, |c: char| white_space(c)),
;

/// Whether `needle` is one of `haystack`'s entries.
pub fn contains(haystack: &Vec<String>, needle: &String) -> (r: bool)
    ensures
        r == haystack.deep_view().to_set().contains(needle@),
{
    let mut i: usize = 0;
    while i < haystack.len()
        invariant
            i <= haystack.len(),
            forall|j: int| 0 <= j < i ==> haystack[j]@ != needle@,
        decreases haystack.len() - i,
    {
        if haystack[i] == *needle {
            assert(haystack.deep_view()[i as int] == needle@);
            return true;
        }
        i += 1;
    }
    false
}

} // verus!
