//! Text that the standard library makes.

use vstd::prelude::*;
use vstd::utf8::{encode_utf8, valid_utf8};

verus! {

/// Calls `std::str::from_utf8`: the result is a string exactly when the bytes
/// are valid UTF-8, and that string's encoding is those bytes.
#[verifier::external_body]
pub(crate) fn utf8_text(bytes: &[u8]) -> (text: Option<&str>)
    ensures
        text is Some <==> valid_utf8(bytes@),
        text matches Some(s) ==> encode_utf8(s@) == bytes@,
{
    std::str::from_utf8(bytes).ok()
}

/// Calls `<Box<str> as From<&str>>::from`: a box with the same text.
#[verifier::external_body]
pub(crate) fn boxed(text: &str) -> (r: Box<str>)
    ensures
        r@ == text@,
{
    Box::from(text)
}

} // verus!
