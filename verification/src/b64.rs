//! Trusted boundary around the `base64` crate and UTF-8 string conversion.
//!
//! Tokens and legacy credentials carry arbitrary bytes inside textual
//! headers, so the library encodes them with standard base64. The encoding
//! itself is done by the `base64` crate; its results are named by the
//! uninterpreted functions below, and everything that is proved about tokens
//! rests on the contracts of the three wrappers in this module.

use vstd::prelude::*;
use vstd::utf8::{decode_utf8, encode_utf8, valid_utf8};

verus! {

/// The standard base64 encoding (with padding) of a byte sequence, as
/// produced by `base64::encode`.
pub uninterp spec fn b64_of(bytes: Seq<u8>) -> Seq<char>;

/// The result of `base64::decode` on a character sequence: the decoded bytes
/// where the input is well-formed standard base64, `None` otherwise.
pub uninterp spec fn b64_decode_of(text: Seq<char>) -> Option<Seq<u8>>;

/// Relies on `base64::encode`: standard-alphabet, padded base64 of the input
/// bytes. The result depends on the input bytes alone. The only panic in
/// `encode_config` is an overflow computing the output size, which no slice
/// that fits in memory can reach.
#[verifier::external_body]
pub fn b64_encode(data: &[u8]) -> (r: String)
    ensures
        r@ == b64_of(data@),
{
    base64::encode(data)
}

/// Relies on `base64::decode`: decoding is a function of the input text
/// alone, and decoding an encoder output returns exactly the encoded bytes
/// (`decode_config` inverts `encode_config` for the same standard config).
#[verifier::external_body]
pub fn b64_decode(text: &str) -> (r: Option<Vec<u8>>)
    ensures
        r is Some <==> b64_decode_of(text@) is Some,
        r is Some ==> (r->0)@ == b64_decode_of(text@)->0,
        forall|b: Seq<u8>| text@ == b64_of(b) ==> r is Some && (r->0)@ == b,
{
    base64::decode(text).ok()
}

/// Relies on `String::from_utf8`: it succeeds exactly on valid UTF-8 and
/// returns the string whose byte encoding is the input, which vstd models
/// with `encode_utf8` / `decode_utf8`.
#[verifier::external_body]
pub fn bytes_to_string(bytes: Vec<u8>) -> (r: Option<String>)
    ensures
        r is Some <==> valid_utf8(bytes@),
        r is Some ==> (r->0)@ == decode_utf8(bytes@) && encode_utf8((r->0)@) == bytes@,
{
    String::from_utf8(bytes).ok()
}

} // verus!
