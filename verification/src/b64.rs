//! Trusted boundary to the `base64` crate (standard alphabet, with padding),
//! which encodes every segment of the wire format.

use vstd::prelude::*;

verus! {

/// The standard base64 encoding (with padding) of a byte string.
pub uninterp spec fn b64_of(b: Seq<u8>) -> Seq<char>;

/// What standard base64 decoding (with padding) accepts and returns: `None`
/// stands for a decode error.
pub uninterp spec fn b64_decode_of(s: Seq<char>) -> Option<Seq<u8>>;

/// True of the characters the standard base64 alphabet (with padding) uses.
pub open spec fn is_b64_char(c: char) -> bool {
    ('A' <= c <= 'Z') || ('a' <= c <= 'z') || ('0' <= c <= '9') || c == '+' || c == '/' || c == '='
}

/// Relies on base64::encode: standard alphabet with padding, four characters
/// for every three bytes, inverted exactly by base64::decode.
#[verifier::external_body]
pub fn b64_encode(b: &[u8]) -> (r: String)
    ensures
        r@ == b64_of(b@),
        r@.len() == ((b@.len() + 2) / 3) * 4,
        forall|i: int| 0 <= i < r@.len() ==> is_b64_char(#[trigger] r@[i]),
        b64_decode_of(r@) == Some(b@),
{
    base64::encode(b)
}

/// Relies on base64::decode: standard alphabet with padding, rejecting any
/// malformed input with an error.
#[verifier::external_body]
pub fn b64_decode(s: &str) -> (r: Option<Vec<u8>>)
    ensures
        r is Some <==> b64_decode_of(s@) is Some,
        r is Some ==> r->0@ == b64_decode_of(s@)->0,
{
    base64::decode(s).ok()
}

} // verus!
