use solana_gateway::errors::AppError;
use solana_gateway::service::SolanaService;

#[test]
fn test_generate_keypair() {
    let service = SolanaService::new();
    let result = service.generate_keypair();

    assert!(result.is_ok());
    let keypair_response = result.unwrap();
    assert!(!keypair_response.public_key.is_empty());
    assert!(!keypair_response.secret_key.is_empty());
}

#[test]
fn test_sign_and_verify_message() {
    let service = SolanaService::new();

    let keypair_response = service.generate_keypair().unwrap();
    let message = "Hello, Solana!";

    let sign_result = service.sign_message(message, &keypair_response.secret_key);
    assert!(sign_result.is_ok());

    let sign_response = sign_result.unwrap();
    assert_eq!(sign_response.message, message);
    assert_eq!(sign_response.public_key, keypair_response.public_key);

    let verify_result =
        service.verify_message(message, &sign_response.signature, &sign_response.public_key);
    assert!(verify_result.is_ok());
    assert!(verify_result.unwrap().valid);
}

#[test]
fn test_invalid_signature_verification() {
    let service = SolanaService::new();

    let keypair_response = service.generate_keypair().unwrap();
    // A valid base64 string with the correct length for a signature (64 bytes).
    let invalid_signature =
        base64::Engine::encode(&base64::engine::general_purpose::STANDARD, [0u8; 64]);

    let verify_result =
        service.verify_message("test message", &invalid_signature, &keypair_response.public_key);

    assert!(verify_result.is_ok());
    assert!(!verify_result.unwrap().valid);
}

#[test]
fn test_pubkey_validation() {
    let service = SolanaService::new();

    assert!(service.is_valid_pubkey("11111111111111111111111111111112"));

    assert!(!service.is_valid_pubkey("invalid_pubkey"));
    assert!(!service.is_valid_pubkey(""));
}

#[test]
fn test_token_mint_instruction() {
    let service = SolanaService::new();

    let mint_authority = "11111111111111111111111111111112";
    let mint = "11111111111111111111111111111113";

    let result = service.create_token_mint(mint_authority, mint, 9);
    assert!(result.is_ok());

    let response = result.unwrap();
    assert_eq!(response.program_id, spl_token::id().to_string());
    assert!(!response.accounts.is_empty());
    assert!(!response.instruction_data.is_empty());
}

#[test]
fn test_create_token_mint_accounts_and_data() {
    let service = SolanaService::new();

    let mint_authority = "11111111111111111111111111111112";
    let mint = "11111111111111111111111111111113";

    let response = service.create_token_mint(mint_authority, mint, 9).unwrap();

    assert_eq!(response.accounts.len(), 2);
    assert_eq!(response.accounts[0].pubkey, mint);
    assert!(!response.accounts[0].is_signer);
    assert!(response.accounts[0].is_writable);
    assert_eq!(
        response.accounts[1].pubkey,
        "SysvarRent111111111111111111111111111111111"
    );
    assert!(!response.accounts[1].is_signer);
    assert!(!response.accounts[1].is_writable);

    // Tag 0, decimals, the authority, then the freeze authority as a set
    // optional (the authority again).
    let authority_bytes = bs58::decode(mint_authority).into_vec().unwrap();
    let mut expected = vec![0u8, 9u8];
    expected.extend_from_slice(&authority_bytes);
    expected.push(1u8);
    expected.extend_from_slice(&authority_bytes);

    let data = base64::Engine::decode(
        &base64::engine::general_purpose::STANDARD,
        &response.instruction_data,
    )
    .unwrap();
    assert_eq!(data, expected);
}

#[test]
fn test_mint_token_accounts_and_data() {
    let service = SolanaService::new();

    let mint = "11111111111111111111111111111112";
    let destination = "11111111111111111111111111111113";
    let authority = "11111111111111111111111111111114";

    let response = service
        .mint_token(mint, destination, authority, 1_000_000)
        .unwrap();

    assert_eq!(response.program_id, spl_token::id().to_string());
    assert_eq!(response.accounts.len(), 3);
    assert_eq!(response.accounts[0].pubkey, mint);
    assert!(!response.accounts[0].is_signer);
    assert!(response.accounts[0].is_writable);
    assert_eq!(response.accounts[1].pubkey, destination);
    assert!(!response.accounts[1].is_signer);
    assert!(response.accounts[1].is_writable);
    assert_eq!(response.accounts[2].pubkey, authority);
    assert!(response.accounts[2].is_signer);
    assert!(!response.accounts[2].is_writable);

    // Tag 7, then the amount in little endian.
    let mut expected = vec![7u8];
    expected.extend_from_slice(&1_000_000u64.to_le_bytes());

    let data = base64::Engine::decode(
        &base64::engine::general_purpose::STANDARD,
        &response.instruction_data,
    )
    .unwrap();
    assert_eq!(data, expected);
}

#[test]
fn test_create_token_mint_invalid_keys() {
    let service = SolanaService::new();

    let result = service.create_token_mint("not-a-key", "11111111111111111111111111111112", 0);
    match result {
        Err(AppError::InvalidPublicKey(m)) => assert_eq!(m, "not-a-key"),
        _ => panic!("expected an invalid public key error for the authority"),
    }

    let result = service.create_token_mint("11111111111111111111111111111112", "not-a-key", 0);
    match result {
        Err(AppError::InvalidPublicKey(m)) => assert_eq!(m, "not-a-key"),
        _ => panic!("expected an invalid public key error for the mint"),
    }
}

#[test]
fn test_mint_token_invalid_destination() {
    let service = SolanaService::new();

    let result = service.mint_token(
        "11111111111111111111111111111112",
        "bad destination",
        "11111111111111111111111111111114",
        5,
    );
    match result {
        Err(AppError::InvalidPublicKey(m)) => assert_eq!(m, "bad destination"),
        _ => panic!("expected an invalid public key error for the destination"),
    }
}

#[test]
fn test_sign_message_decode_errors() {
    let service = SolanaService::new();

    // '0' is not in the base58 alphabet.
    match service.sign_message("hi", "0000") {
        Err(AppError::Base58DecodeError(_)) => {}
        _ => panic!("expected a base58 decode error"),
    }

    // 64 zero bytes decode but do not form a keypair: the public half does
    // not match the secret half.
    let not_a_keypair = bs58::encode([0u8; 64]).into_string();
    match service.sign_message("hi", &not_a_keypair) {
        Err(AppError::InvalidSecretKey(m)) => assert_eq!(m, "Invalid secret key format"),
        _ => panic!("expected an invalid secret key error"),
    }
}

#[test]
fn test_sign_message_is_deterministic() {
    let service = SolanaService::new();
    let keypair_response = service.generate_keypair().unwrap();

    let first = service
        .sign_message("same message", &keypair_response.secret_key)
        .unwrap();
    let second = service
        .sign_message("same message", &keypair_response.secret_key)
        .unwrap();
    assert_eq!(first.signature, second.signature);
    assert_eq!(first.public_key, second.public_key);
}

#[test]
fn test_verify_message_errors() {
    let service = SolanaService::new();
    let keypair_response = service.generate_keypair().unwrap();

    // Not base64 at all.
    match service.verify_message("m", "!!!not-base64!!!", &keypair_response.public_key) {
        Err(AppError::Base64DecodeError(_)) => {}
        _ => panic!("expected a base64 decode error"),
    }

    // Valid base64, but only 32 bytes: not a signature.
    let short = base64::Engine::encode(&base64::engine::general_purpose::STANDARD, [0u8; 32]);
    match service.verify_message("m", &short, &keypair_response.public_key) {
        Err(AppError::InvalidSignature(m)) => assert_eq!(m, "Invalid signature format"),
        _ => panic!("expected an invalid signature error"),
    }

    // 64 bytes whose scalar half has its top bits set: the signature parser
    // rejects them.
    let mut unreduced = [0u8; 64];
    unreduced[63] = 0xff;
    let unreduced_b64 =
        base64::Engine::encode(&base64::engine::general_purpose::STANDARD, unreduced);
    match service.verify_message("m", &unreduced_b64, &keypair_response.public_key) {
        Err(AppError::InvalidSignature(m)) => assert_eq!(m, "Invalid signature format"),
        _ => panic!("expected an invalid signature error"),
    }

    // A public key that is not base58.
    let sig = base64::Engine::encode(&base64::engine::general_purpose::STANDARD, [0u8; 64]);
    match service.verify_message("m", &sig, "not-a-key") {
        Err(AppError::InvalidPublicKey(m)) => assert_eq!(m, "not-a-key"),
        _ => panic!("expected an invalid public key error"),
    }
}

#[test]
fn test_generated_keypair_decodes_to_64_bytes() {
    let service = SolanaService::new();
    let keypair_response = service.generate_keypair().unwrap();

    let secret_bytes = bs58::decode(&keypair_response.secret_key).into_vec().unwrap();
    assert_eq!(secret_bytes.len(), 64);

    let public_bytes = bs58::decode(&keypair_response.public_key).into_vec().unwrap();
    assert_eq!(public_bytes.len(), 32);
    assert_eq!(&secret_bytes[32..], &public_bytes[..]);
}

#[test]
fn test_secret_key_validation() {
    let service = SolanaService::new();

    let sixty_four = bs58::encode([7u8; 64]).into_string();
    assert!(service.is_valid_secret_key(&sixty_four));

    let thirty_two = bs58::encode([7u8; 32]).into_string();
    assert!(!service.is_valid_secret_key(&thirty_two));

    assert!(!service.is_valid_secret_key("0000"));
    assert!(!service.is_valid_secret_key(""));
}

#[test]
fn test_default_service() {
    let service = SolanaService::default();
    assert!(service.is_valid_pubkey("11111111111111111111111111111112"));
}
