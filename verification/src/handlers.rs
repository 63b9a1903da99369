//! Per-endpoint request validation and delegation to the service.
//!
//! Each handler checks the shallow preconditions the endpoint demands (fields
//! present, keys well-formed), then hands the request to the service and
//! wraps the outcome in the response envelope. The HTTP layer around these
//! handlers only parses and serialises JSON.

use vstd::prelude::*;
use vstd::string::StringExecFns;
use crate::codec::base58_decoded;
use crate::crypto::keypair_valid;
use crate::errors::AppError;
use crate::models::{
    ApiResponse, KeypairResponse, CreateTokenRequest, MintTokenRequest, TokenInstructionResponse,
    SignMessageRequest, SignMessageResponse, VerifyMessageRequest, VerifyMessageResponse,
};
use crate::pubkey::pubkey_str_decodes;
use crate::service::{
    SolanaService, keypair_response_ok, create_token_response_ok, mint_token_response_ok,
    sign_response_ok, verify_response_ok, verify_message_err,
    secret_key_str_wf,
};

verus! {

/// Which error the create-token endpoint fails with, in the order the checks
/// run: a missing field first, then the first key string that is not a
/// well-formed public key.
pub open spec fn create_token_handler_err(
    e: AppError,
    mint_authority: Seq<char>,
    mint: Seq<char>,
) -> bool {
    ||| {
        &&& mint_authority.len() == 0
        &&& (e matches AppError::ValidationError(m) && m@ == "mintAuthority is required"@)
    }
    ||| {
        &&& mint_authority.len() > 0
        &&& mint.len() == 0
        &&& (e matches AppError::ValidationError(m) && m@ == "mint is required"@)
    }
    ||| {
        &&& mint_authority.len() > 0
        &&& mint.len() > 0
        &&& !pubkey_str_decodes(mint_authority)
        &&& (e matches AppError::InvalidPublicKey(m) && m@ == "Invalid mintAuthority: "@
            + mint_authority)
    }
    ||| {
        &&& mint_authority.len() > 0
        &&& mint.len() > 0
        &&& pubkey_str_decodes(mint_authority)
        &&& !pubkey_str_decodes(mint)
        &&& (e matches AppError::InvalidPublicKey(m) && m@ == "Invalid mint: "@ + mint)
    }
}

/// Which error the mint-token endpoint fails with, in the order the checks
/// run: a missing field, a zero amount, then the first key string that is not
/// a well-formed public key.
pub open spec fn mint_token_handler_err(
    e: AppError,
    mint: Seq<char>,
    destination: Seq<char>,
    authority: Seq<char>,
    amount: u64,
) -> bool {
    ||| {
        &&& mint.len() == 0
        &&& (e matches AppError::ValidationError(m) && m@ == "mint is required"@)
    }
    ||| {
        &&& mint.len() > 0
        &&& destination.len() == 0
        &&& (e matches AppError::ValidationError(m) && m@ == "destination is required"@)
    }
    ||| {
        &&& mint.len() > 0
        &&& destination.len() > 0
        &&& authority.len() == 0
        &&& (e matches AppError::ValidationError(m) && m@ == "authority is required"@)
    }
    ||| {
        &&& mint.len() > 0
        &&& destination.len() > 0
        &&& authority.len() > 0
        &&& amount == 0
        &&& (e matches AppError::ValidationError(m) && m@ == "amount must be greater than 0"@)
    }
    ||| {
        &&& mint.len() > 0
        &&& destination.len() > 0
        &&& authority.len() > 0
        &&& amount > 0
        &&& !pubkey_str_decodes(mint)
        &&& (e matches AppError::InvalidPublicKey(m) && m@ == "Invalid mint: "@ + mint)
    }
    ||| {
        &&& mint.len() > 0
        &&& destination.len() > 0
        &&& authority.len() > 0
        &&& amount > 0
        &&& pubkey_str_decodes(mint)
        &&& !pubkey_str_decodes(destination)
        &&& (e matches AppError::InvalidPublicKey(m) && m@ == "Invalid destination: "@
            + destination)
    }
    ||| {
        &&& mint.len() > 0
        &&& destination.len() > 0
        &&& authority.len() > 0
        &&& amount > 0
        &&& pubkey_str_decodes(mint)
        &&& pubkey_str_decodes(destination)
        &&& !pubkey_str_decodes(authority)
        &&& (e matches AppError::InvalidPublicKey(m) && m@ == "Invalid authority: "@ + authority)
    }
}

/// Which error the sign-message endpoint fails with, in the order the checks
/// run: a missing field, then a secret that does not decode to 64 bytes that
/// form a keypair.
pub open spec fn sign_message_handler_err(e: AppError, message: Seq<char>, secret: Seq<char>) -> bool {
    ||| {
        &&& message.len() == 0
        &&& (e matches AppError::ValidationError(m) && m@ == "message is required"@)
    }
    ||| {
        &&& message.len() > 0
        &&& secret.len() == 0
        &&& (e matches AppError::ValidationError(m) && m@ == "secret is required"@)
    }
    ||| {
        &&& message.len() > 0
        &&& secret.len() > 0
        &&& !(secret_key_str_wf(secret) && match base58_decoded(secret) {
            Some(kp) => keypair_valid(kp),
            None => false,
        })
        &&& (e matches AppError::InvalidSecretKey(m) && m@ == "Invalid secret key format"@)
    }
}

/// Which error the verify-message endpoint fails with, in the order the
/// checks run: a missing field, a public key string that is not well-formed,
/// then whatever the service rejects.
pub open spec fn verify_message_handler_err(
    e: AppError,
    message: Seq<char>,
    signature: Seq<char>,
    public_key: Seq<char>,
) -> bool {
    ||| {
        &&& message.len() == 0
        &&& (e matches AppError::ValidationError(m) && m@ == "message is required"@)
    }
    ||| {
        &&& message.len() > 0
        &&& signature.len() == 0
        &&& (e matches AppError::ValidationError(m) && m@ == "signature is required"@)
    }
    ||| {
        &&& message.len() > 0
        &&& signature.len() > 0
        &&& public_key.len() == 0
        &&& (e matches AppError::ValidationError(m) && m@ == "public_key is required"@)
    }
    ||| {
        &&& message.len() > 0
        &&& signature.len() > 0
        &&& public_key.len() > 0
        &&& !pubkey_str_decodes(public_key)
        &&& (e matches AppError::InvalidPublicKey(m) && m@ == "Invalid public_key: "@ + public_key)
    }
    ||| {
        &&& message.len() > 0
        &&& signature.len() > 0
        &&& public_key.len() > 0
        &&& pubkey_str_decodes(public_key)
        &&& verify_message_err(e, signature, public_key)
    }
}

/// Generates a new keypair.
pub fn generate_keypair_handler() -> (r: Result<ApiResponse<KeypairResponse>, AppError>)
    ensures
        r is Ok,
        match r {
            Ok(resp) => resp.success == true && keypair_response_ok(resp.data),
            Err(_) => true,
        },
{
    let solana_service = SolanaService::new();
    match solana_service.generate_keypair() {
        Ok(keypair_response) => Ok(ApiResponse::success(keypair_response)),
        Err(e) => Err(e),
    }
}

/// Creates an SPL token initialize-mint instruction.
pub fn create_token_handler(request: CreateTokenRequest) -> (r: Result<
    ApiResponse<TokenInstructionResponse>,
    AppError,
>)
    ensures
        match r {
            Ok(resp) => {
                &&& resp.success == true
                &&& request.mint_authority@.len() > 0
                &&& request.mint@.len() > 0
                &&& create_token_response_ok(
                    resp.data,
                    request.mint_authority@,
                    request.mint@,
                    request.decimals,
                )
            },
            Err(e) => create_token_handler_err(e, request.mint_authority@, request.mint@),
        },
        r is Ok <==> request.mint_authority@.len() > 0 && request.mint@.len() > 0
            && pubkey_str_decodes(request.mint_authority@) && pubkey_str_decodes(request.mint@),
{
    if request.mint_authority.as_str().is_empty() {
        return Err(AppError::ValidationError("mintAuthority is required".to_owned()));
    }
    if request.mint.as_str().is_empty() {
        return Err(AppError::ValidationError("mint is required".to_owned()));
    }
    let solana_service = SolanaService::new();
    if !solana_service.is_valid_pubkey(request.mint_authority.as_str()) {
        return Err(
            AppError::InvalidPublicKey(
                "Invalid mintAuthority: ".to_owned().concat(request.mint_authority.as_str()),
            ),
        );
    }
    if !solana_service.is_valid_pubkey(request.mint.as_str()) {
        return Err(
            AppError::InvalidPublicKey(
                "Invalid mint: ".to_owned().concat(request.mint.as_str()),
            ),
        );
    }
    match solana_service.create_token_mint(
        request.mint_authority.as_str(),
        request.mint.as_str(),
        request.decimals,
    ) {
        Ok(token_response) => Ok(ApiResponse::success(token_response)),
        Err(e) => Err(e),
    }
}

/// Creates an SPL token mint-to instruction.
pub fn mint_token_handler(request: MintTokenRequest) -> (r: Result<
    ApiResponse<TokenInstructionResponse>,
    AppError,
>)
    ensures
        match r {
            Ok(resp) => {
                &&& resp.success == true
                &&& request.mint@.len() > 0
                &&& request.destination@.len() > 0
                &&& request.authority@.len() > 0
                &&& request.amount > 0
                &&& mint_token_response_ok(
                    resp.data,
                    request.mint@,
                    request.destination@,
                    request.authority@,
                    request.amount,
                )
            },
            Err(e) => mint_token_handler_err(
                e,
                request.mint@,
                request.destination@,
                request.authority@,
                request.amount,
            ),
        },
        r is Ok <==> request.mint@.len() > 0 && request.destination@.len() > 0
            && request.authority@.len() > 0 && request.amount > 0 && pubkey_str_decodes(
            request.mint@,
        ) && pubkey_str_decodes(request.destination@) && pubkey_str_decodes(request.authority@),
{
    if request.mint.as_str().is_empty() {
        return Err(AppError::ValidationError("mint is required".to_owned()));
    }
    if request.destination.as_str().is_empty() {
        return Err(AppError::ValidationError("destination is required".to_owned()));
    }
    if request.authority.as_str().is_empty() {
        return Err(AppError::ValidationError("authority is required".to_owned()));
    }
    if request.amount == 0 {
        return Err(AppError::ValidationError("amount must be greater than 0".to_owned()));
    }
    let solana_service = SolanaService::new();
    if !solana_service.is_valid_pubkey(request.mint.as_str()) {
        return Err(
            AppError::InvalidPublicKey("Invalid mint: ".to_owned().concat(request.mint.as_str())),
        );
    }
    if !solana_service.is_valid_pubkey(request.destination.as_str()) {
        return Err(
            AppError::InvalidPublicKey(
                "Invalid destination: ".to_owned().concat(request.destination.as_str()),
            ),
        );
    }
    if !solana_service.is_valid_pubkey(request.authority.as_str()) {
        return Err(
            AppError::InvalidPublicKey(
                "Invalid authority: ".to_owned().concat(request.authority.as_str()),
            ),
        );
    }
    match solana_service.mint_token(
        request.mint.as_str(),
        request.destination.as_str(),
        request.authority.as_str(),
        request.amount,
    ) {
        Ok(token_response) => Ok(ApiResponse::success(token_response)),
        Err(e) => Err(e),
    }
}

/// Signs a message with the given secret key.
pub fn sign_message_handler(request: SignMessageRequest) -> (r: Result<
    ApiResponse<SignMessageResponse>,
    AppError,
>)
    ensures
        match r {
            Ok(resp) => {
                &&& resp.success == true
                &&& request.message@.len() > 0
                &&& request.secret@.len() > 0
                &&& sign_response_ok(resp.data, request.message@, request.secret@)
            },
            Err(e) => sign_message_handler_err(e, request.message@, request.secret@),
        },
        r is Ok <==> request.message@.len() > 0 && request.secret@.len() > 0
            && secret_key_str_wf(request.secret@) && match base58_decoded(request.secret@) {
            Some(kp) => keypair_valid(kp),
            None => false,
        },
{
    if request.message.as_str().is_empty() {
        return Err(AppError::ValidationError("message is required".to_owned()));
    }
    if request.secret.as_str().is_empty() {
        return Err(AppError::ValidationError("secret is required".to_owned()));
    }
    let solana_service = SolanaService::new();
    if !solana_service.is_valid_secret_key(request.secret.as_str()) {
        return Err(AppError::InvalidSecretKey("Invalid secret key format".to_owned()));
    }
    match solana_service.sign_message(request.message.as_str(), request.secret.as_str()) {
        Ok(sign_response) => Ok(ApiResponse::success(sign_response)),
        Err(e) => Err(e),
    }
}

/// Verifies a message signature.
pub fn verify_message_handler(request: VerifyMessageRequest) -> (r: Result<
    ApiResponse<VerifyMessageResponse>,
    AppError,
>)
    ensures
        match r {
            Ok(resp) => {
                &&& resp.success == true
                &&& request.message@.len() > 0
                &&& request.signature@.len() > 0
                &&& request.public_key@.len() > 0
                &&& verify_response_ok(
                    resp.data,
                    request.message@,
                    request.signature@,
                    request.public_key@,
                )
            },
            Err(e) => verify_message_handler_err(
                e,
                request.message@,
                request.signature@,
                request.public_key@,
            ),
        },
{
    if request.message.as_str().is_empty() {
        return Err(AppError::ValidationError("message is required".to_owned()));
    }
    if request.signature.as_str().is_empty() {
        return Err(AppError::ValidationError("signature is required".to_owned()));
    }
    if request.public_key.as_str().is_empty() {
        return Err(AppError::ValidationError("public_key is required".to_owned()));
    }
    let solana_service = SolanaService::new();
    if !solana_service.is_valid_pubkey(request.public_key.as_str()) {
        return Err(
            AppError::InvalidPublicKey(
                "Invalid public_key: ".to_owned().concat(request.public_key.as_str()),
            ),
        );
    }
    match solana_service.verify_message(
        request.message.as_str(),
        request.signature.as_str(),
        request.public_key.as_str(),
    ) {
        Ok(verify_response) => Ok(ApiResponse::success(verify_response)),
        Err(e) => Err(e),
    }
}

} // verus!
