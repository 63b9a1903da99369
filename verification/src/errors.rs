//! Gateway error type and its mapping to HTTP statuses and response bodies.

use vstd::prelude::*;
use crate::models::ApiErrorResponse;

verus! {

/// Everything an endpoint can fail with.
#[derive(Debug, Clone)]
pub enum AppError {
    /// A shallow request precondition failed (an empty or zero field).
    ValidationError(String),
    /// A field was not a base58-encoded 32-byte public key, or the bytes
    /// were rejected by the verifier's key parser.
    InvalidPublicKey(String),
    /// A secret key was not 64 bytes long or did not form a keypair.
    InvalidSecretKey(String),
    /// A signature was not 64 bytes long.
    InvalidSignature(String),
    /// The SPL token instruction builder refused the request.
    TokenOperationFailed(String),
    /// A field was not valid base58.
    Base58DecodeError(String),
    /// A field was not valid base64.
    Base64DecodeError(String),
}

impl AppError {
    /// The text stored in the error, as a specification value.
    pub open spec fn spec_message(&self) -> Seq<char> {
        match self {
            AppError::ValidationError(m) => m@,
            AppError::InvalidPublicKey(m) => m@,
            AppError::InvalidSecretKey(m) => m@,
            AppError::InvalidSignature(m) => m@,
            AppError::TokenOperationFailed(m) => m@,
            AppError::Base58DecodeError(m) => m@,
            AppError::Base64DecodeError(m) => m@,
        }
    }

    /// The HTTP status the error maps to: a server error for a failed
    /// token operation, a client error for everything else.
    pub open spec fn spec_status_code(&self) -> u16 {
        match self {
            AppError::TokenOperationFailed(_) => 500u16,
            _ => 400u16,
        }
    }

    /// The text stored in the error.
    pub fn message(&self) -> (r: &String)
        ensures
            r@ == self.spec_message(),
    {
        match self {
            AppError::ValidationError(m) => m,
            AppError::InvalidPublicKey(m) => m,
            AppError::InvalidSecretKey(m) => m,
            AppError::InvalidSignature(m) => m,
            AppError::TokenOperationFailed(m) => m,
            AppError::Base58DecodeError(m) => m,
            AppError::Base64DecodeError(m) => m,
        }
    }

    /// The HTTP status the error maps to.
    pub fn status_code(&self) -> (r: u16)
        ensures
            r == self.spec_status_code(),
    {
        match self {
            AppError::TokenOperationFailed(_) => 500,
            _ => 400,
        }
    }

    /// The wire body for the error: `success` false and the error text.
    pub fn to_error_body(&self) -> (r: ApiErrorResponse)
        ensures
            r.success == false,
            r.error@ == self.spec_message(),
    {
        ApiErrorResponse::error(self.message().as_str())
    }
}

} // verus!
