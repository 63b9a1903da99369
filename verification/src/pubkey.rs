//! Parsing of base58-encoded Solana public keys, delegated to the SDK.

use vstd::prelude::*;
use vstd::utf8::encode_utf8;
use crate::codec::{base58_decoded, base58_of};

verus! {

/// Whether a string is a well-formed base58 Solana public key: at most 44
/// bytes long and decoding to exactly 32 bytes. This is what the SDK's
/// pubkey parser accepts.
pub open spec fn pubkey_str_decodes(s: Seq<char>) -> bool {
    &&& encode_utf8(s).len() <= 44
    &&& match base58_decoded(s) {
        Some(b) => b.len() == 32,
        None => false,
    }
}

/// The 32 bytes a well-formed public-key string decodes to.
pub open spec fn decoded_pubkey(s: Seq<char>) -> Seq<u8> {
    match base58_decoded(s) {
        Some(b) => b,
        None => Seq::empty(),
    }
}

/// Relies on `solana_sdk::pubkey::Pubkey::from_str` and `Pubkey::to_bytes`
/// (solana-sdk 1.18): parsing succeeds exactly on strings of at most 44 bytes
/// that are base58 encodings of exactly 32 bytes, and yields those bytes. The
/// strings base58 decoding accepts are canonical (bs58 0.4 maps leading `1`s
/// to leading zero bytes one for one and the remaining digits to the minimal
/// representation of their value), so encoding the bytes gives the string
/// back.
#[verifier::external_body]
pub(crate) fn parse_pubkey_bytes(s: &str) -> (r: Option<Vec<u8>>)
    ensures
        match r {
            Some(b) => pubkey_str_decodes(s@) && b@.len() == 32 && base58_decoded(s@) == Some(b@)
                && base58_of(b@) == s@,
            None => !pubkey_str_decodes(s@),
        },
{
    match <solana_sdk::pubkey::Pubkey as std::str::FromStr>::from_str(s) {
        Ok(pk) => Some(pk.to_bytes().to_vec()),
        Err(_) => None,
    }
}

} // verus!
