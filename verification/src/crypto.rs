//! Ed25519 keypair generation, signing and verification, delegated to the
//! blockchain SDK and the Ed25519 crate.
//!
//! The cryptography is not re-derived here. Signing is deterministic, so the
//! signature bytes are named by an uninterpreted spec function of the keypair
//! and the message; what verification accepts is named the same way.

use vstd::prelude::*;

verus! {

/// Whether 64 bytes form a keypair that the SDK accepts: the second half must
/// be the public key derived from the first half.
pub uninterp spec fn keypair_valid(kp: Seq<u8>) -> bool;

/// The Ed25519 signature of a message under a keypair. Ed25519 signing is
/// deterministic, so this is a function of the two.
pub uninterp spec fn ed25519_signature_of(kp: Seq<u8>, msg: Seq<u8>) -> Seq<u8>;

/// Whether 32 bytes are a public key the Ed25519 verifier accepts: a valid
/// compressed curve point.
pub uninterp spec fn ed25519_pubkey_valid(pk: Seq<u8>) -> bool;

/// Whether an Ed25519 verification of the signature over the message under
/// the public key succeeds.
pub uninterp spec fn ed25519_verifies(pk: Seq<u8>, msg: Seq<u8>, sig: Seq<u8>) -> bool;

/// Whether bytes pass the Ed25519 crate's signature parser: 64 bytes whose
/// scalar half is at least partially reduced (the top three bits of the last
/// byte unset).
pub open spec fn ed25519_sig_wf(sig: Seq<u8>) -> bool {
    sig.len() == 64 && sig[63] & 0xe0 == 0
}

/// Which input the Ed25519 verifier rejected before verification could run.
#[derive(Debug, Clone)]
pub(crate) enum VerifyRejection {
    PublicKey,
    Signature,
}

/// Relies on `solana_sdk::signature::Keypair::new` and `Keypair::to_bytes`
/// (solana-sdk 1.18): a freshly generated keypair serialises to 64 bytes,
/// secret half first, that `Keypair::from_bytes` accepts; its public half is
/// a valid curve point.
#[verifier::external_body]
pub(crate) fn generate_keypair_bytes() -> (r: Vec<u8>)
    ensures
        r@.len() == 64,
        keypair_valid(r@),
        ed25519_pubkey_valid(r@.subrange(32, 64)),
{
    solana_sdk::signature::Keypair::new().to_bytes().to_vec()
}

/// Relies on `solana_sdk::signature::Keypair::from_bytes` and
/// `Signer::sign_message` (solana-sdk 1.18, over ed25519-dalek 1.0):
/// `from_bytes` accepts exactly the 64-byte strings whose second half is the
/// valid public key derived from the first half; signing is deterministic and
/// produces a 64-byte, partially reduced signature that verifies over the
/// message under that public key.
#[verifier::external_body]
pub(crate) fn sign_message_bytes(kp: &[u8], msg: &[u8]) -> (r: Option<Vec<u8>>)
    ensures
        match r {
            Some(sig) => keypair_valid(kp@) && kp@.len() == 64
                && ed25519_pubkey_valid(kp@.subrange(32, 64))
                && sig@ == ed25519_signature_of(kp@, msg@)
                && ed25519_sig_wf(sig@)
                && ed25519_verifies(kp@.subrange(32, 64), msg@, sig@),
            None => !keypair_valid(kp@),
        },
{
    match solana_sdk::signature::Keypair::from_bytes(kp) {
        Ok(keypair) => {
            let sig = solana_sdk::signer::Signer::sign_message(&keypair, msg);
            Some(sig.as_ref().to_vec())
        }
        Err(_) => None,
    }
}

/// Relies on `ed25519_dalek::PublicKey::from_bytes`, `Signature::from_bytes`
/// and `Verifier::verify` (ed25519-dalek 1.0): the key parser accepts exactly
/// the valid 32-byte compressed points, the signature parser accepts exactly
/// the partially reduced 64-byte strings, and the verification outcome is a
/// function of key, message and signature bytes.
#[verifier::external_body]
pub(crate) fn dalek_verify_bytes(pk: &[u8], msg: &[u8], sig: &[u8]) -> (r: Result<
    bool,
    VerifyRejection,
>)
    requires
        sig@.len() == 64,
    ensures
        match r {
            Ok(valid) => ed25519_pubkey_valid(pk@) && ed25519_sig_wf(sig@) && valid
                == ed25519_verifies(pk@, msg@, sig@),
            Err(rej) => match rej {
                VerifyRejection::PublicKey => !ed25519_pubkey_valid(pk@),
                VerifyRejection::Signature => ed25519_pubkey_valid(pk@) && !ed25519_sig_wf(sig@),
            },
        },
{
    let pubkey = match ed25519_dalek::PublicKey::from_bytes(pk) {
        Ok(p) => p,
        Err(_) => return Err(VerifyRejection::PublicKey),
    };
    let signature = match ed25519_dalek::Signature::from_bytes(sig) {
        Ok(s) => s,
        Err(_) => return Err(VerifyRejection::Signature),
    };
    Ok(ed25519_dalek::Verifier::verify(&pubkey, msg, &signature).is_ok())
}

} // verus!
