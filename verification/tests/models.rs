use solana_gateway::models::{ApiErrorResponse, ApiResponse, CreateTokenRequest, KeypairResponse};

#[test]
fn test_api_response_serialization() {
    let response = ApiResponse::success(KeypairResponse {
        public_key: "test_pub_key".to_string(),
        secret_key: "test_secret_key".to_string(),
    });

    assert!(response.success);
    assert_eq!(response.data.public_key, "test_pub_key");
    assert_eq!(response.data.secret_key, "test_secret_key");
}

#[test]
fn test_error_response_serialization() {
    let error_response = ApiErrorResponse::error("Test error message");

    assert!(!error_response.success);
    assert_eq!(error_response.error, "Test error message");
}

#[test]
fn test_create_token_request_deserialization() {
    let request = CreateTokenRequest {
        mint_authority: "test_authority".to_string(),
        mint: "test_mint".to_string(),
        decimals: 9,
    };

    assert_eq!(request.mint_authority, "test_authority");
    assert_eq!(request.mint, "test_mint");
    assert_eq!(request.decimals, 9);
}
