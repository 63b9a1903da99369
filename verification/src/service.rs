//! The Solana service: keypair generation, token-instruction construction,
//! and message signing and verification.

use vstd::prelude::*;
use vstd::slice::slice_subrange;
use vstd::utf8::encode_utf8;
use crate::codec::{
    base58_of, base58_decoded, base64_of, base64_decoded, base58_encode, base58_decode,
    base64_encode, base64_decode,
};
use crate::crypto::{
    keypair_valid, ed25519_signature_of, ed25519_pubkey_valid, ed25519_verifies, ed25519_sig_wf,
    generate_keypair_bytes, sign_message_bytes, dalek_verify_bytes, VerifyRejection,
};
use crate::errors::AppError;
use crate::models::{
    KeypairResponse, TokenInstructionResponse, SignMessageResponse, VerifyMessageResponse,
};
use crate::pubkey::{pubkey_str_decodes, decoded_pubkey, parse_pubkey_bytes};
use crate::token::{
    spl_token_id_str, rent_sysvar_id_str, initialize_mint_data, mint_to_data, RawInstruction,
    spl_initialize_mint, spl_mint_to,
};

verus! {

/// Whether a string is a well-formed base58 Solana secret key: it must decode
/// to exactly 64 bytes.
pub open spec fn secret_key_str_wf(s: Seq<char>) -> bool {
    match base58_decoded(s) {
        Some(b) => b.len() == 64,
        None => false,
    }
}

/// What a keypair response holds: the base58 encodings of some valid 64-byte
/// keypair and of its public half, both non-empty, decoding back to those
/// bytes; the public-key string is a well-formed public key whose bytes the
/// Ed25519 verifier accepts.
pub open spec fn keypair_response_ok(r: KeypairResponse) -> bool {
    &&& exists|kp: Seq<u8>|
        {
            &&& #[trigger] keypair_valid(kp)
            &&& kp.len() == 64
            &&& r.secret_key@ == base58_of(kp)
            &&& base58_decoded(r.secret_key@) == Some(kp)
            &&& r.public_key@ == base58_of(kp.subrange(32, 64))
            &&& base58_decoded(r.public_key@) == Some(kp.subrange(32, 64))
            &&& ed25519_pubkey_valid(kp.subrange(32, 64))
        }
    &&& pubkey_str_decodes(r.public_key@)
    &&& r.public_key@.len() > 0
    &&& r.secret_key@.len() > 0
}

/// What a successful create-token response holds for the given authority and
/// mint strings: the token program id, the writable mint account (under the
/// caller's own mint string, which is canonical) and the read-only rent
/// sysvar, and the non-empty base64 of the packed initialize-mint data,
/// decoding back to it.
pub open spec fn create_token_response_ok(
    resp: TokenInstructionResponse,
    authority: Seq<char>,
    mint: Seq<char>,
    decimals: u8,
) -> bool {
    &&& pubkey_str_decodes(authority)
    &&& pubkey_str_decodes(mint)
    &&& resp.program_id@ == spl_token_id_str()
    &&& resp.accounts@.len() == 2
    &&& resp.accounts@[0].pubkey@ == mint
    &&& resp.accounts@[0].is_signer == false
    &&& resp.accounts@[0].is_writable == true
    &&& resp.accounts@[1].pubkey@ == rent_sysvar_id_str()
    &&& resp.accounts@[1].is_signer == false
    &&& resp.accounts@[1].is_writable == false
    &&& resp.instruction_data@ == base64_of(
        initialize_mint_data(decoded_pubkey(authority), decimals),
    )
    &&& base64_decoded(resp.instruction_data@) == Some(
        initialize_mint_data(decoded_pubkey(authority), decimals),
    )
    &&& resp.instruction_data@.len() > 0
}

/// Which error create-token fails with: the first of the two key strings that
/// is not a well-formed public key, reported as that string.
pub open spec fn create_token_err(e: AppError, authority: Seq<char>, mint: Seq<char>) -> bool {
    ||| {
        &&& !pubkey_str_decodes(authority)
        &&& (e matches AppError::InvalidPublicKey(m) && m@ == authority)
    }
    ||| {
        &&& pubkey_str_decodes(authority)
        &&& !pubkey_str_decodes(mint)
        &&& (e matches AppError::InvalidPublicKey(m) && m@ == mint)
    }
}

/// What a successful mint-token response holds for the given mint,
/// destination and authority strings: the token program id, the writable mint
/// and destination and the authority as sole signer (each under the caller's
/// own string, which is canonical), and the non-empty base64 of the packed
/// mint-to data, decoding back to it.
pub open spec fn mint_token_response_ok(
    resp: TokenInstructionResponse,
    mint: Seq<char>,
    destination: Seq<char>,
    authority: Seq<char>,
    amount: u64,
) -> bool {
    &&& pubkey_str_decodes(mint)
    &&& pubkey_str_decodes(destination)
    &&& pubkey_str_decodes(authority)
    &&& resp.program_id@ == spl_token_id_str()
    &&& resp.accounts@.len() == 3
    &&& resp.accounts@[0].pubkey@ == mint
    &&& resp.accounts@[0].is_signer == false
    &&& resp.accounts@[0].is_writable == true
    &&& resp.accounts@[1].pubkey@ == destination
    &&& resp.accounts@[1].is_signer == false
    &&& resp.accounts@[1].is_writable == true
    &&& resp.accounts@[2].pubkey@ == authority
    &&& resp.accounts@[2].is_signer == true
    &&& resp.accounts@[2].is_writable == false
    &&& resp.instruction_data@ == base64_of(mint_to_data(amount))
    &&& base64_decoded(resp.instruction_data@) == Some(mint_to_data(amount))
    &&& resp.instruction_data@.len() > 0
}

/// Which error mint-token fails with: the first of the three key strings that
/// is not a well-formed public key, reported as that string.
pub open spec fn mint_token_err(
    e: AppError,
    mint: Seq<char>,
    destination: Seq<char>,
    authority: Seq<char>,
) -> bool {
    ||| {
        &&& !pubkey_str_decodes(mint)
        &&& (e matches AppError::InvalidPublicKey(m) && m@ == mint)
    }
    ||| {
        &&& pubkey_str_decodes(mint)
        &&& !pubkey_str_decodes(destination)
        &&& (e matches AppError::InvalidPublicKey(m) && m@ == destination)
    }
    ||| {
        &&& pubkey_str_decodes(mint)
        &&& pubkey_str_decodes(destination)
        &&& !pubkey_str_decodes(authority)
        &&& (e matches AppError::InvalidPublicKey(m) && m@ == authority)
    }
}

/// What a successful sign response holds for the given message and secret:
/// the base64 of the deterministic signature under the decoded keypair, the
/// base58 of the keypair's public half, and the message itself. The signature
/// bytes are 64 and well-formed, both encodings decode back, the public-key
/// string is a well-formed public key whose bytes the Ed25519 verifier
/// accepts, and the signature verifies over the message under them.
pub open spec fn sign_response_ok(
    resp: SignMessageResponse,
    message: Seq<char>,
    secret: Seq<char>,
) -> bool {
    match base58_decoded(secret) {
        Some(kp) => {
            &&& keypair_valid(kp)
            &&& kp.len() == 64
            &&& resp.signature@ == base64_of(ed25519_signature_of(kp, encode_utf8(message)))
            &&& base64_decoded(resp.signature@) == Some(
                ed25519_signature_of(kp, encode_utf8(message)),
            )
            &&& ed25519_sig_wf(ed25519_signature_of(kp, encode_utf8(message)))
            &&& resp.public_key@ == base58_of(kp.subrange(32, 64))
            &&& base58_decoded(resp.public_key@) == Some(kp.subrange(32, 64))
            &&& pubkey_str_decodes(resp.public_key@)
            &&& ed25519_pubkey_valid(kp.subrange(32, 64))
            &&& resp.message@ == message
            &&& ed25519_verifies(
                kp.subrange(32, 64),
                encode_utf8(message),
                ed25519_signature_of(kp, encode_utf8(message)),
            )
        },
        None => false,
    }
}

/// Which error signing fails with: the secret is not base58, or its bytes are
/// not a keypair the SDK accepts.
pub open spec fn sign_message_err(e: AppError, secret: Seq<char>) -> bool {
    ||| {
        &&& base58_decoded(secret) is None
        &&& e matches AppError::Base58DecodeError(_)
    }
    ||| {
        &&& match base58_decoded(secret) {
            Some(kp) => !keypair_valid(kp),
            None => false,
        }
        &&& (e matches AppError::InvalidSecretKey(m) && m@ == "Invalid secret key format"@)
    }
}

/// What a successful verify response holds for the given message, signature
/// and public key strings: all three parse, and `valid` is exactly the
/// verification outcome.
pub open spec fn verify_response_ok(
    resp: VerifyMessageResponse,
    message: Seq<char>,
    signature_b64: Seq<char>,
    public_key: Seq<char>,
) -> bool {
    match base64_decoded(signature_b64) {
        Some(sig) => {
            &&& pubkey_str_decodes(public_key)
            &&& ed25519_pubkey_valid(decoded_pubkey(public_key))
            &&& ed25519_sig_wf(sig)
            &&& resp.valid == ed25519_verifies(
                decoded_pubkey(public_key),
                encode_utf8(message),
                sig,
            )
        },
        None => false,
    }
}

/// Which error verification fails with, in the order the inputs are checked:
/// the signature is not base64; the public key string is not well-formed; the
/// signature is not 64 bytes; the public key bytes are not a valid curve
/// point; the signature bytes are rejected by the signature parser.
pub open spec fn verify_message_err(
    e: AppError,
    signature_b64: Seq<char>,
    public_key: Seq<char>,
) -> bool {
    ||| {
        &&& base64_decoded(signature_b64) is None
        &&& e matches AppError::Base64DecodeError(_)
    }
    ||| {
        &&& base64_decoded(signature_b64) is Some
        &&& !pubkey_str_decodes(public_key)
        &&& (e matches AppError::InvalidPublicKey(m) && m@ == public_key)
    }
    ||| {
        &&& match base64_decoded(signature_b64) {
            Some(sig) => sig.len() != 64,
            None => false,
        }
        &&& pubkey_str_decodes(public_key)
        &&& (e matches AppError::InvalidSignature(m) && m@ == "Invalid signature format"@)
    }
    ||| {
        &&& match base64_decoded(signature_b64) {
            Some(sig) => sig.len() == 64,
            None => false,
        }
        &&& pubkey_str_decodes(public_key)
        &&& !ed25519_pubkey_valid(decoded_pubkey(public_key))
        &&& (e matches AppError::InvalidPublicKey(m) && m@
            == "Invalid public key for verification"@)
    }
    ||| {
        &&& match base64_decoded(signature_b64) {
            Some(sig) => sig.len() == 64 && !ed25519_sig_wf(sig),
            None => false,
        }
        &&& pubkey_str_decodes(public_key)
        &&& ed25519_pubkey_valid(decoded_pubkey(public_key))
        &&& (e matches AppError::InvalidSignature(m) && m@ == "Invalid signature format"@)
    }
}

/// The stateless service behind the gateway's endpoints.
pub struct SolanaService;

impl SolanaService {
    /// Creates a new service instance.
    pub fn new() -> (r: Self) {
        SolanaService
    }

    /// Generates a new keypair and returns its public key and its full
    /// 64-byte secret, both in base58.
    pub fn generate_keypair(&self) -> (r: Result<KeypairResponse, AppError>)
        ensures
            r is Ok,
            match r {
                Ok(kr) => keypair_response_ok(kr),
                Err(_) => true,
            },
    {
        let kp = generate_keypair_bytes();
        let public_key = base58_encode(slice_subrange(kp.as_slice(), 32, 64));
        let secret_key = base58_encode(kp.as_slice());
        Ok(KeypairResponse { public_key, secret_key })
    }

    /// Builds the SPL initialize-mint instruction for the given mint and
    /// authority, with the authority doubling as freeze authority.
    pub fn create_token_mint(&self, mint_authority: &str, mint: &str, decimals: u8) -> (r: Result<
        TokenInstructionResponse,
        AppError,
    >)
        ensures
            match r {
                Ok(resp) => create_token_response_ok(resp, mint_authority@, mint@, decimals),
                Err(e) => create_token_err(e, mint_authority@, mint@),
            },
            r is Ok <==> pubkey_str_decodes(mint_authority@) && pubkey_str_decodes(mint@),
    {
        let authority_bytes = match parse_pubkey_bytes(mint_authority) {
            Some(b) => b,
            None => {
                return Err(AppError::InvalidPublicKey(mint_authority.to_owned()));
            },
        };
        let mint_bytes = match parse_pubkey_bytes(mint) {
            Some(b) => b,
            None => {
                return Err(AppError::InvalidPublicKey(mint.to_owned()));
            },
        };
        let instruction = match spl_initialize_mint(
            mint_bytes.as_slice(),
            authority_bytes.as_slice(),
            decimals,
        ) {
            Ok(ins) => ins,
            Err(m) => {
                return Err(AppError::TokenOperationFailed(m));
            },
        };
        self.instruction_to_response(instruction)
    }

    /// Builds the SPL mint-to instruction for the given mint, destination and
    /// authority, with no multisig signers.
    pub fn mint_token(&self, mint: &str, destination: &str, authority: &str, amount: u64) -> (r:
        Result<TokenInstructionResponse, AppError>)
        ensures
            match r {
                Ok(resp) => mint_token_response_ok(resp, mint@, destination@, authority@, amount),
                Err(e) => mint_token_err(e, mint@, destination@, authority@),
            },
            r is Ok <==> pubkey_str_decodes(mint@) && pubkey_str_decodes(destination@)
                && pubkey_str_decodes(authority@),
    {
        let mint_bytes = match parse_pubkey_bytes(mint) {
            Some(b) => b,
            None => {
                return Err(AppError::InvalidPublicKey(mint.to_owned()));
            },
        };
        let destination_bytes = match parse_pubkey_bytes(destination) {
            Some(b) => b,
            None => {
                return Err(AppError::InvalidPublicKey(destination.to_owned()));
            },
        };
        let authority_bytes = match parse_pubkey_bytes(authority) {
            Some(b) => b,
            None => {
                return Err(AppError::InvalidPublicKey(authority.to_owned()));
            },
        };
        let instruction = match spl_mint_to(
            mint_bytes.as_slice(),
            destination_bytes.as_slice(),
            authority_bytes.as_slice(),
            amount,
        ) {
            Ok(ins) => ins,
            Err(m) => {
                return Err(AppError::TokenOperationFailed(m));
            },
        };
        self.instruction_to_response(instruction)
    }

    /// Signs a message with the given base58 secret key and returns the
    /// signature in base64, with the signer's public key in base58.
    pub fn sign_message(&self, message: &str, secret_key: &str) -> (r: Result<
        SignMessageResponse,
        AppError,
    >)
        ensures
            match r {
                Ok(resp) => sign_response_ok(resp, message@, secret_key@),
                Err(e) => sign_message_err(e, secret_key@),
            },
            r is Ok <==> match base58_decoded(secret_key@) {
                Some(kp) => keypair_valid(kp),
                None => false,
            },
    {
        let secret_bytes = match base58_decode(secret_key) {
            Ok(v) => v,
            Err(m) => {
                return Err(AppError::Base58DecodeError(m));
            },
        };
        let signature = match sign_message_bytes(secret_bytes.as_slice(), message.as_bytes()) {
            Some(s) => s,
            None => {
                return Err(AppError::InvalidSecretKey("Invalid secret key format".to_owned()));
            },
        };
        let signature_base64 = base64_encode(signature.as_slice());
        let public_key = base58_encode(slice_subrange(secret_bytes.as_slice(), 32, 64));
        Ok(
            SignMessageResponse {
                signature: signature_base64,
                public_key,
                message: message.to_owned(),
            },
        )
    }

    /// Verifies a base64 signature over a message under a base58 public key.
    pub fn verify_message(&self, message: &str, signature_base64: &str, public_key: &str) -> (r:
        Result<VerifyMessageResponse, AppError>)
        ensures
            match r {
                Ok(resp) => verify_response_ok(resp, message@, signature_base64@, public_key@),
                Err(e) => verify_message_err(e, signature_base64@, public_key@),
            },
    {
        let signature_bytes = match base64_decode(signature_base64) {
            Ok(v) => v,
            Err(m) => {
                return Err(AppError::Base64DecodeError(m));
            },
        };
        let pubkey_bytes = match parse_pubkey_bytes(public_key) {
            Some(b) => b,
            None => {
                return Err(AppError::InvalidPublicKey(public_key.to_owned()));
            },
        };
        if signature_bytes.len() != 64 {
            return Err(AppError::InvalidSignature("Invalid signature format".to_owned()));
        }
        let valid = match dalek_verify_bytes(
            pubkey_bytes.as_slice(),
            message.as_bytes(),
            signature_bytes.as_slice(),
        ) {
            Ok(b) => b,
            Err(rej) => match rej {
                VerifyRejection::PublicKey => {
                    return Err(
                        AppError::InvalidPublicKey("Invalid public key for verification".to_owned()),
                    );
                },
                VerifyRejection::Signature => {
                    return Err(
                        AppError::InvalidSignature("Invalid signature format".to_owned()),
                    );
                },
            },
        };
        Ok(VerifyMessageResponse { valid })
    }

    /// Whether a string is a well-formed base58 Solana public key.
    pub fn is_valid_pubkey(&self, pubkey_str: &str) -> (r: bool)
        ensures
            r == pubkey_str_decodes(pubkey_str@),
    {
        parse_pubkey_bytes(pubkey_str).is_some()
    }

    /// Whether a string is a well-formed base58 Solana secret key: base58
    /// decoding to exactly 64 bytes.
    pub fn is_valid_secret_key(&self, secret_key_str: &str) -> (r: bool)
        ensures
            r == secret_key_str_wf(secret_key_str@),
    {
        match base58_decode(secret_key_str) {
            Ok(bytes) => bytes.len() == 64,
            Err(_) => false,
        }
    }

    /// Converts an instruction as the token crate built it into the wire
    /// response, encoding the instruction data in base64.
    fn instruction_to_response(&self, instruction: RawInstruction) -> (r: Result<
        TokenInstructionResponse,
        AppError,
    >)
        ensures
            r is Ok,
            match r {
                Ok(resp) => {
                    &&& resp.program_id@ == instruction.program_id@
                    &&& resp.accounts@ == instruction.accounts@
                    &&& resp.instruction_data@ == base64_of(instruction.data@)
                    &&& base64_decoded(resp.instruction_data@) == Some(instruction.data@)
                    &&& resp.instruction_data@.len() == 4 * ((instruction.data@.len() + 2) / 3)
                },
                Err(_) => true,
            },
    {
        let instruction_data = base64_encode(instruction.data.as_slice());
        Ok(
            TokenInstructionResponse {
                program_id: instruction.program_id,
                accounts: instruction.accounts,
                instruction_data,
            },
        )
    }
}

impl Default for SolanaService {
    /// A fresh service instance.
    fn default() -> (r: Self)
        ensures
            r == (SolanaService {  }),
    {
        Self::new()
    }
}

} // verus!
