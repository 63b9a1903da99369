//! Base58 and base64 codec work, delegated to the codec crates.
//!
//! The encodings themselves are not re-derived here: each is named by an
//! uninterpreted spec function, and the trusted wrappers state how encoding
//! and decoding relate.

use vstd::prelude::*;
use vstd::utf8::encode_utf8;

verus! {

/// The base58 (Bitcoin alphabet) encoding of a byte string.
pub uninterp spec fn base58_of(bytes: Seq<u8>) -> Seq<char>;

/// What base58 decoding yields on a string: `None` exactly on strings that
/// are not valid base58.
pub uninterp spec fn base58_decoded(s: Seq<char>) -> Option<Seq<u8>>;

/// The standard (padded) base64 encoding of a byte string.
pub uninterp spec fn base64_of(bytes: Seq<u8>) -> Seq<char>;

/// What standard base64 decoding yields on a string: `None` exactly on
/// strings that are not valid padded base64.
pub uninterp spec fn base64_decoded(s: Seq<char>) -> Option<Seq<u8>>;

/// Relies on `bs58::encode(..).into_string()` (bs58 0.4): the output is empty
/// exactly for empty input, `bs58::decode` of the output gives the input
/// back, the output is ASCII (one byte per character), and 32 bytes encode to
/// at most 44 characters.
#[verifier::external_body]
pub(crate) fn base58_encode(bytes: &[u8]) -> (r: String)
    ensures
        r@ == base58_of(bytes@),
        base58_decoded(r@) == Some(bytes@),
        (r@.len() == 0) == (bytes@.len() == 0),
        encode_utf8(r@).len() == r@.len(),
        bytes@.len() == 32 ==> r@.len() <= 44,
{
    bs58::encode(bytes).into_string()
}

/// Relies on `bs58::decode(..).into_vec()` (bs58 0.4): it fails exactly on
/// input that is not valid base58.
#[verifier::external_body]
pub(crate) fn base58_decode(s: &str) -> (r: Result<Vec<u8>, String>)
    ensures
        match r {
            Ok(v) => base58_decoded(s@) == Some(v@),
            Err(_) => base58_decoded(s@) is None,
        },
{
    match bs58::decode(s).into_vec() {
        Ok(v) => Ok(v),
        Err(e) => Err(e.to_string()),
    }
}

/// Relies on `base64::engine::general_purpose::STANDARD.encode` (base64 0.22):
/// the padded output holds four characters for every started group of three
/// input bytes, and decoding the output gives the input back.
#[verifier::external_body]
pub(crate) fn base64_encode(bytes: &[u8]) -> (r: String)
    ensures
        r@ == base64_of(bytes@),
        base64_decoded(r@) == Some(bytes@),
        r@.len() == 4 * ((bytes@.len() + 2) / 3),
{
    base64::Engine::encode(&base64::engine::general_purpose::STANDARD, bytes)
}

/// Relies on `base64::engine::general_purpose::STANDARD.decode` (base64 0.22):
/// it fails exactly on input that is not valid padded base64.
#[verifier::external_body]
pub(crate) fn base64_decode(s: &str) -> (r: Result<Vec<u8>, String>)
    ensures
        match r {
            Ok(v) => base64_decoded(s@) == Some(v@),
            Err(_) => base64_decoded(s@) is None,
        },
{
    match base64::Engine::decode(&base64::engine::general_purpose::STANDARD, s) {
        Ok(v) => Ok(v),
        Err(e) => Err(e.to_string()),
    }
}

} // verus!
