//! Bytes of drawn glyphs as text.

use vstd::prelude::*;
use vstd::utf8::{decode_utf8, valid_utf8};

verus! {

/// The text that lossy UTF-8 decoding makes of `bytes`: the characters
/// they encode, with U+FFFD in place of each malformed part.
pub uninterp spec fn lossy_text(bytes: Seq<u8>) -> Seq<char>;

/// The text that drawn bytes stand for. Well-formed UTF-8 stands for the
/// characters it encodes. Anything else is decoded with replacements: no
/// byte sequence is without a text.
pub open spec fn decoded(bytes: Seq<u8>) -> Seq<char> {
    if valid_utf8(bytes) {
        decode_utf8(bytes)
    } else {
        lossy_text(bytes)
    }
}

/// Calls `String::from_utf8_lossy`. Trusted: the result depends on the
/// bytes alone, and for well-formed UTF-8 it is the string that the bytes
/// encode, unchanged.
#[verifier::external_body]
fn from_utf8_lossy(bytes: &[u8]) -> (text: String)
    ensures
        text@ == lossy_text(bytes@),
        valid_utf8(bytes@) ==> text@ == decode_utf8(bytes@),
{
    String::from_utf8_lossy(bytes).into_owned()
}

/// Decodes drawn bytes as text. It never fails: what is not well-formed
/// UTF-8 is replaced, and what is well-formed is kept as it is.
pub fn decode_text(bytes: &[u8]) -> (text: String)
    ensures
        text@ == decoded(bytes@),
{
    from_utf8_lossy(bytes)
}

} // verus!
