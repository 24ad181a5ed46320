//! Trusted boundaries to the text codecs the pipeline leans on: base64 and
//! base58 decoding from outside crates, and UTF-8 decoding from std.
//!
//! Each decoder's result is a function of its input characters alone, so the
//! base64 and base58 results are given names that the rest of the crate's
//! contracts speak of. UTF-8 decoding is stated exactly against vstd's model.

use base64::Engine as _;
use vstd::prelude::*;
use vstd::utf8::decode_utf8;
use vstd::utf8::valid_utf8;

verus! {

/// What the standard-alphabet base64 decoder returns on `s`: the decoded
/// bytes, or nothing when `s` is not well-formed padded base64.
pub uninterp spec fn base64_decoded(s: Seq<char>) -> Option<Seq<u8>>;

/// What the bitcoin-alphabet base58 decoder returns on `s`: the decoded
/// bytes, or nothing when `s` holds a character outside the alphabet.
pub uninterp spec fn base58_decoded(s: Seq<char>) -> Option<Seq<u8>>;

/// Relies on base64's `Engine::decode` on the `general_purpose::STANDARD`
/// engine: the result depends on the input characters alone.
#[verifier::external_body]
pub(crate) fn base64_decode(s: &str) -> (r: Option<Vec<u8>>)
    ensures
        r matches Some(v) ==> base64_decoded(s@) == Some(v@),
        r is None ==> base64_decoded(s@) is None,
{
    match base64::engine::general_purpose::STANDARD.decode(s) {
        Ok(v) => Some(v),
        Err(_) => None,
    }
}

/// Relies on bs58's `decode(..).into_vec()` with the default (bitcoin)
/// alphabet: the result depends on the input characters alone.
#[verifier::external_body]
pub(crate) fn base58_decode(s: &str) -> (r: Option<Vec<u8>>)
    ensures
        r matches Some(v) ==> base58_decoded(s@) == Some(v@),
        r is None ==> base58_decoded(s@) is None,
{
    match bs58::decode(s).into_vec() {
        Ok(v) => Some(v),
        Err(_) => None,
    }
}

/// Relies on std's `String::from_utf8`: it succeeds exactly on valid UTF-8
/// and returns the decoded characters, as modeled by vstd's UTF-8 spec.
#[verifier::external_body]
pub(crate) fn utf8_to_string(bytes: Vec<u8>) -> (r: Option<String>)
    ensures
        r is Some <==> valid_utf8(bytes@),
        r matches Some(s) ==> s@ == decode_utf8(bytes@),
{
    match String::from_utf8(bytes) {
        Ok(s) => Some(s),
        Err(_) => None,
    }
}

} // verus!
