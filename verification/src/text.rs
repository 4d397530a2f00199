//! Captured bytes as text.

use vstd::prelude::*;
use vstd::utf8::*;

verus! {

/// `std::str::from_utf8`: the bytes are accepted exactly when they are
/// well-formed UTF-8, and the text handed out is then the one whose
/// encoding they are. Verus takes this on trust, as the standard library
/// documents it.
#[verifier::external_body]
fn from_utf8<'a>(bytes: &'a [u8]) -> (text: Option<&'a str>)
    ensures
        text is Some <==> valid_utf8(bytes@),
        text matches Some(s) ==> encode_utf8(s@) == bytes@,
{
    match std::str::from_utf8(bytes) {
        Ok(s) => Some(s),
        Err(_) => None,
    }
}

/// The text that `bytes` encode in UTF-8, where they encode one.
pub open spec fn spec_decode(bytes: Seq<u8>) -> Option<Seq<char>> {
    if valid_utf8(bytes) {
        Some(decode_utf8(bytes))
    } else {
        None
    }
}

/// Reads `bytes` as UTF-8. Every byte counts: nothing is trimmed, and one
/// ill-formed sequence anywhere makes the whole undecodable.
pub fn decode(bytes: &[u8]) -> (text: Option<String>)
    ensures
        match text {
            Some(s) => spec_decode(bytes@) == Some(s@),
            None => spec_decode(bytes@) is None,
        },
{
    match from_utf8(bytes) {
        Some(s) => {
            proof {
                encode_utf8_decode_utf8(s@);
            }
            Some(s.to_owned())
        },
        None => None,
    }
}

} // verus!
