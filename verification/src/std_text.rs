//! Contracts for the handful of standard-library text functions that the
//! decoders call. Nothing in this file is proved: each item states what the
//! standard library documents.

use vstd::prelude::*;
use vstd::utf8::{decode_utf8, valid_utf8};

verus! {

/// `PartialEq::eq` of `str`: two string slices are equal exactly when they
/// hold the same characters.
pub assume_specification[ <str as PartialEq>::eq ](a: &str, b: &str) -> (equal: bool)
    ensures
        equal == (a@ == b@),
;

/// `String::push` appends one character to the end of the string.
pub assume_specification[ String::push ](s: &mut String, ch: char)
    ensures
        final(s)@ == old(s)@.push(ch),
;

/// True for the code points that are Unicode scalar values: everything up to
/// U+10FFFF except the surrogate range.
pub open spec fn is_scalar_value(code: u32) -> bool {
    code < 0xD800 || (0xE000 <= code && code <= 0x10FFFF)
}

/// `char::from_u32` yields the character with the given code point when the
/// code point is a Unicode scalar value, and `None` otherwise.
pub assume_specification[ char::from_u32 ](code: u32) -> (ch: Option<char>)
    ensures
        ch == (if is_scalar_value(code) {
            Some(code as char)
        } else {
            None::<char>
        }),
;

/// The text that `String::from_utf8_lossy` produces for a byte sequence:
/// well-formed UTF-8 decodes to its characters and each malformed sequence is
/// replaced by U+FFFD.
pub uninterp spec fn utf8_lossy_text(bytes: Seq<u8>) -> Seq<char>;

/// Calls `String::from_utf8_lossy` and takes ownership of the result. The
/// outcome depends on the bytes alone; on well-formed UTF-8 nothing is
/// replaced, so the result is the decoded text.
#[verifier::external_body]
pub(crate) fn utf8_lossy_string(bytes: &[u8]) -> (text: String)
    ensures
        text@ == utf8_lossy_text(bytes@),
        valid_utf8(bytes@) ==> text@ == decode_utf8(bytes@),
{
    String::from_utf8_lossy(bytes).into_owned()
}

} // verus!
