use solana_gateway::errors::AppError;
use solana_gateway::handlers::{
    create_token_handler, generate_keypair_handler, mint_token_handler, sign_message_handler,
    verify_message_handler,
};
use solana_gateway::models::{
    CreateTokenRequest, MintTokenRequest, SignMessageRequest, VerifyMessageRequest,
};

#[test]
fn test_generate_keypair_handler() {
    let result = generate_keypair_handler();
    assert!(result.is_ok());

    let response = result.unwrap();
    assert!(response.success);
    assert!(!response.data.public_key.is_empty());
    assert!(!response.data.secret_key.is_empty());
}

#[test]
fn test_create_token_handler_validation() {
    let invalid_request = CreateTokenRequest {
        mint_authority: "".to_string(),
        mint: "".to_string(),
        decimals: 9,
    };

    let result = create_token_handler(invalid_request);
    assert!(result.is_err());
}

#[test]
fn test_mint_token_handler_validation() {
    let invalid_request = MintTokenRequest {
        mint: "".to_string(),
        destination: "".to_string(),
        authority: "".to_string(),
        amount: 0,
    };

    let result = mint_token_handler(invalid_request);
    assert!(result.is_err());
}

#[test]
fn test_sign_message_handler_validation() {
    let invalid_request = SignMessageRequest {
        message: "".to_string(),
        secret: "".to_string(),
    };

    let result = sign_message_handler(invalid_request);
    assert!(result.is_err());
}

#[test]
fn test_verify_message_handler_validation() {
    let invalid_request = VerifyMessageRequest {
        message: "".to_string(),
        signature: "".to_string(),
        public_key: "".to_string(),
    };

    let result = verify_message_handler(invalid_request);
    assert!(result.is_err());
}

#[test]
fn test_create_token_handler_error_messages() {
    let result = create_token_handler(CreateTokenRequest {
        mint_authority: "".to_string(),
        mint: "11111111111111111111111111111112".to_string(),
        decimals: 9,
    });
    match result {
        Err(AppError::ValidationError(m)) => assert_eq!(m, "mintAuthority is required"),
        _ => panic!("expected a validation error for the missing authority"),
    }

    let result = create_token_handler(CreateTokenRequest {
        mint_authority: "oops".to_string(),
        mint: "11111111111111111111111111111112".to_string(),
        decimals: 9,
    });
    match result {
        Err(AppError::InvalidPublicKey(m)) => assert_eq!(m, "Invalid mintAuthority: oops"),
        _ => panic!("expected an invalid public key error for the authority"),
    }
}

#[test]
fn test_mint_token_handler_error_messages() {
    let result = mint_token_handler(MintTokenRequest {
        mint: "11111111111111111111111111111112".to_string(),
        destination: "11111111111111111111111111111113".to_string(),
        authority: "11111111111111111111111111111114".to_string(),
        amount: 0,
    });
    match result {
        Err(AppError::ValidationError(m)) => assert_eq!(m, "amount must be greater than 0"),
        _ => panic!("expected a validation error for the zero amount"),
    }

    let result = mint_token_handler(MintTokenRequest {
        mint: "11111111111111111111111111111112".to_string(),
        destination: "nope".to_string(),
        authority: "11111111111111111111111111111114".to_string(),
        amount: 1,
    });
    match result {
        Err(AppError::InvalidPublicKey(m)) => assert_eq!(m, "Invalid destination: nope"),
        _ => panic!("expected an invalid public key error for the destination"),
    }
}

#[test]
fn test_sign_message_handler_rejects_bad_secret() {
    let result = sign_message_handler(SignMessageRequest {
        message: "hello".to_string(),
        secret: bs58::encode([9u8; 32]).into_string(),
    });
    match result {
        Err(AppError::InvalidSecretKey(m)) => assert_eq!(m, "Invalid secret key format"),
        _ => panic!("expected an invalid secret key error"),
    }
}

#[test]
fn test_verify_message_handler_rejects_bad_public_key() {
    let result = verify_message_handler(VerifyMessageRequest {
        message: "hello".to_string(),
        signature: "AA==".to_string(),
        public_key: "bogus!".to_string(),
    });
    match result {
        Err(AppError::InvalidPublicKey(m)) => assert_eq!(m, "Invalid public_key: bogus!"),
        _ => panic!("expected an invalid public key error"),
    }
}

#[test]
fn test_handlers_round_trip() {
    let keypair = generate_keypair_handler().unwrap().data;

    let sign_response = sign_message_handler(SignMessageRequest {
        message: "Hello via the handlers".to_string(),
        secret: keypair.secret_key.clone(),
    })
    .unwrap();
    assert!(sign_response.success);
    assert_eq!(sign_response.data.public_key, keypair.public_key);

    let verify_response = verify_message_handler(VerifyMessageRequest {
        message: "Hello via the handlers".to_string(),
        signature: sign_response.data.signature.clone(),
        public_key: keypair.public_key.clone(),
    })
    .unwrap();
    assert!(verify_response.success);
    assert!(verify_response.data.valid);

    // A different message must not verify under the same signature.
    let tampered = verify_message_handler(VerifyMessageRequest {
        message: "Hello via the handlers, tampered".to_string(),
        signature: sign_response.data.signature,
        public_key: keypair.public_key,
    })
    .unwrap();
    assert!(!tampered.data.valid);
}

#[test]
fn test_error_status_codes() {
    assert_eq!(
        AppError::ValidationError("x".to_string()).status_code(),
        400
    );
    assert_eq!(
        AppError::InvalidPublicKey("x".to_string()).status_code(),
        400
    );
    assert_eq!(
        AppError::InvalidSecretKey("x".to_string()).status_code(),
        400
    );
    assert_eq!(
        AppError::InvalidSignature("x".to_string()).status_code(),
        400
    );
    assert_eq!(
        AppError::Base58DecodeError("x".to_string()).status_code(),
        400
    );
    assert_eq!(
        AppError::Base64DecodeError("x".to_string()).status_code(),
        400
    );
    assert_eq!(
        AppError::TokenOperationFailed("x".to_string()).status_code(),
        500
    );
}

#[test]
fn test_error_body() {
    let body = AppError::ValidationError("mint is required".to_string()).to_error_body();
    assert!(!body.success);
    assert_eq!(body.error, "mint is required");
}
