//! Request and response shapes for the gateway's endpoints.

use vstd::prelude::*;

verus! {

/// Envelope for a successful response.
#[derive(Debug, Clone)]
pub struct ApiResponse<T> {
    pub success: bool,
    pub data: T,
}

/// Envelope for an error response.
#[derive(Debug, Clone)]
pub struct ApiErrorResponse {
    pub success: bool,
    pub error: String,
}

impl<T> ApiResponse<T> {
    pub fn success(data: T) -> (r: Self)
        ensures
            r.success == true,
            r.data == data,
    {
        Self { success: true, data }
    }
}

impl ApiErrorResponse {
    pub fn error(message: &str) -> (r: Self)
        ensures
            r.success == false,
            r.error@ == message@,
    {
        Self { success: false, error: message.to_owned() }
    }
}

/// Response body for keypair generation.
#[derive(Debug, Clone)]
pub struct KeypairResponse {
    pub public_key: String,
    pub secret_key: String,
}

/// Request body for creating an SPL token mint instruction.
#[derive(Debug, Clone)]
pub struct CreateTokenRequest {
    pub mint_authority: String,
    pub mint: String,
    pub decimals: u8,
}

/// Request body for creating an SPL token mint-to instruction.
#[derive(Debug, Clone)]
pub struct MintTokenRequest {
    pub mint: String,
    pub destination: String,
    pub authority: String,
    pub amount: u64,
}

/// Response body for the token-instruction endpoints.
#[derive(Debug, Clone)]
pub struct TokenInstructionResponse {
    pub program_id: String,
    pub accounts: Vec<AccountMeta>,
    pub instruction_data: String,
}

/// One account referenced by a Solana instruction.
#[derive(Debug, Clone)]
pub struct AccountMeta {
    pub pubkey: String,
    pub is_signer: bool,
    pub is_writable: bool,
}

/// Request body for signing a message.
#[derive(Debug, Clone)]
pub struct SignMessageRequest {
    pub message: String,
    pub secret: String,
}

/// Response body for signing a message.
#[derive(Debug, Clone)]
pub struct SignMessageResponse {
    pub signature: String,
    pub public_key: String,
    pub message: String,
}

/// Request body for verifying a message signature.
#[derive(Debug, Clone)]
pub struct VerifyMessageRequest {
    pub message: String,
    pub signature: String,
    pub public_key: String,
}

/// Response body for verifying a message signature.
#[derive(Debug, Clone)]
pub struct VerifyMessageResponse {
    pub valid: bool,
}

} // verus!
