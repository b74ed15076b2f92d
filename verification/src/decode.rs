//! Percent-decoding of path-encoded field values. Decoding is lossy-tolerant:
//! a malformed percent sequence passes through and invalid UTF-8 is replaced,
//! so no request is ever rejected for a bad encoding.

use vstd::prelude::*;

verus! {

/// The characters that percent-decoding `s` lossily yields: every `%` that
/// two hexadecimal digits follow becomes the byte they denote, and byte
/// sequences that are not well-formed UTF-8 become replacement characters.
pub uninterp spec fn percent_decoded(s: Seq<char>) -> Seq<char>;

/// Relies on `percent_encoding::percent_decode_str` and
/// `PercentDecode::decode_utf8_lossy`: the result depends on the input
/// characters alone, decoding never fails, and an input without `%` is
/// returned unchanged (it holds no percent sequence, and a `&str` is already
/// well-formed UTF-8).
#[verifier::external_body]
pub(crate) fn percent_decode_lossy(s: &str) -> (r: String)
    ensures
        r@ == percent_decoded(s@),
        !s@.contains('%') ==> r@ == s@,
{
    percent_encoding::percent_decode_str(s).decode_utf8_lossy().into_owned()
}

} // verus!
