//! Field normalization: an optional textual field whose value is empty or
//! whitespace-only is stored as absent; any other value passes through
//! unchanged.

use vstd::prelude::*;
use vstd::string::StrSliceExecFns;

verus! {

/// The view of an optional string slice: absent stays absent, a present value
/// is seen as its character sequence.
pub open spec fn opt_view(s: Option<&str>) -> Option<Seq<char>> {
    match s {
        Option::None => Option::None,
        Option::Some(t) => Option::Some(t@),
    }
}

/// Whether `c` has the Unicode `White_Space` property, the set of characters
/// that leading/trailing trimming removes.
pub open spec fn is_space_char(c: char) -> bool {
    let u = c as u32;
    (0x09 <= u && u <= 0x0D) || u == 0x20 || u == 0x85 || u == 0xA0 || u == 0x1680 || (0x2000
        <= u && u <= 0x200A) || u == 0x2028 || u == 0x2029 || u == 0x202F || u == 0x205F || u
        == 0x3000
}

/// Whether `s` is empty or consists of whitespace only, i.e. trimming it
/// leaves nothing.
pub open spec fn is_blank(s: Seq<char>) -> bool {
    forall|i: int| 0 <= i < s.len() ==> is_space_char(#[trigger] s[i])
}

/// What normalization does to an optional field: an absent, empty or
/// whitespace-only value becomes absent; anything else is kept unchanged.
pub open spec fn normalize_spec(s: Option<Seq<char>>) -> Option<Seq<char>> {
    match s {
        Option::None => Option::None,
        Option::Some(t) => if is_blank(t) {
            Option::None
        } else {
            Option::Some(t)
        },
    }
}

/// Normalization is idempotent: applying it twice gives the same result as
/// applying it once.
pub proof fn lemma_normalize_idempotent(s: Option<Seq<char>>)
    ensures
        normalize_spec(normalize_spec(s)) == normalize_spec(s),
{
}

fn char_is_space(c: char) -> (r: bool)
    ensures
        r == is_space_char(c),
{
    let u = c as u32;
    (0x09 <= u && u <= 0x0D) || u == 0x20 || u == 0x85 || u == 0xA0 || u == 0x1680 || (0x2000
        <= u && u <= 0x200A) || u == 0x2028 || u == 0x2029 || u == 0x202F || u == 0x205F || u
        == 0x3000
}

/// Whether trimming leading and trailing whitespace from `s` leaves the empty
/// string.
pub fn str_is_blank(s: &str) -> (r: bool)
    ensures
        r == is_blank(s@),
{
    let len = s.unicode_len();
    let mut i: usize = 0;
    while i < len
        invariant
            0 <= i <= len,
            len == s@.len(),
            forall|j: int| 0 <= j < i ==> is_space_char(#[trigger] s@[j]),
        decreases len - i,
    {
        if !char_is_space(s.get_char(i)) {
            return false;
        }
        i += 1;
    }
    true
}

/// Converts an empty or whitespace-only value to absent; any other value is
/// returned unchanged, untrimmed.
pub fn empty_string_to_null<'a>(string: Option<&'a str>) -> (r: Option<&'a str>)
    ensures
        opt_view(r) == normalize_spec(opt_view(string)),
        r is Some ==> r == string,
{
    match string {
        Option::None => Option::None,
        Option::Some(t) => if str_is_blank(t) {
            Option::None
        } else {
            Option::Some(t)
        },
    }
}

} // verus!
