use open_aaas_server::auth::{
    agent_auth_middleware, extract_api_key, extract_bearer_token, extract_service_headers,
    hash_api_key, require_admin, require_auth, verify_agent_credentials, verify_client_api_key,
    AuthAgent, AuthUser, HeaderField, RequestHeaders, UserKeyRow,
};
use open_aaas_server::error::AppError;

fn text(s: &str) -> HeaderField {
    HeaderField::Text(s.to_string())
}

fn headers(authorization: HeaderField, x_api_key: HeaderField, x_service_id: HeaderField) -> RequestHeaders {
    RequestHeaders { authorization, x_api_key, x_service_id }
}

fn auth_only(authorization: HeaderField) -> RequestHeaders {
    headers(authorization, HeaderField::Absent, HeaderField::Absent)
}

fn auth_message(e: AppError) -> String {
    match e {
        AppError::Auth(msg) => msg,
        other => panic!("expected an Auth error, got {:?}", other),
    }
}

#[test]
fn test_auth_user_creation() {
    let auth_user = AuthUser {
        user_id: "user_123".to_string(),
        api_key: "ak_test_key".to_string(),
        role: "client".to_string(),
    };
    assert_eq!(auth_user.user_id, "user_123");
    assert_eq!(auth_user.api_key, "ak_test_key");
    assert_eq!(auth_user.role, "client");
}

#[test]
fn test_auth_user_clone() {
    let auth_user = AuthUser {
        user_id: "user_123".to_string(),
        api_key: "ak_test_key".to_string(),
        role: "client".to_string(),
    };
    let cloned = auth_user.clone();
    assert_eq!(auth_user.user_id, cloned.user_id);
    assert_eq!(auth_user.api_key, cloned.api_key);
    assert_eq!(auth_user.role, cloned.role);
}

#[test]
fn test_auth_agent_creation() {
    let auth_agent = AuthAgent {
        agent_id: "agent_123".to_string(),
        api_key: "ak_agent_key".to_string(),
    };
    assert_eq!(auth_agent.agent_id, "agent_123");
    assert_eq!(auth_agent.api_key, "ak_agent_key");
}

#[test]
fn test_extract_bearer_token_success() {
    let result = extract_bearer_token(&auth_only(text("Bearer test_api_key")));
    assert!(result.is_ok());
    assert_eq!(result.unwrap(), "test_api_key");
}

#[test]
fn test_extract_bearer_token_missing_header() {
    let result = extract_bearer_token(&auth_only(HeaderField::Absent));
    assert!(result.is_err());
    let msg = auth_message(result.unwrap_err());
    assert!(msg.contains("缺少"), "错误消息应包含'缺少': {}", msg);
}

#[test]
fn test_extract_bearer_token_invalid_format() {
    let result = extract_bearer_token(&auth_only(text("Basic dGVzdDpwYXNz")));
    assert!(result.is_err());
    let msg = auth_message(result.unwrap_err());
    assert!(msg.contains("格式错误"), "错误消息应包含'格式错误': {}", msg);
}

#[test]
fn test_extract_bearer_token_empty_token() {
    let result = extract_bearer_token(&auth_only(text("Bearer ")));
    assert!(result.is_err());
    let msg = auth_message(result.unwrap_err());
    assert!(msg.contains("不能为空"), "错误消息应包含'不能为空': {}", msg);
}

#[test]
fn test_extract_bearer_token_with_whitespace() {
    let result = extract_bearer_token(&auth_only(text("Bearer   ")));
    assert!(result.is_err());
}

#[test]
fn extract_bearer_token_unreadable_header() {
    let msg = auth_message(extract_bearer_token(&auth_only(HeaderField::Invalid)).unwrap_err());
    assert_eq!(msg, "无效的 Authorization header");
}

#[test]
fn test_extract_service_headers_success() {
    let h = headers(HeaderField::Absent, text("api_key_456"), text("service_123"));
    let result = extract_service_headers(&h);
    assert!(result.is_ok());
    let (service_id, api_key) = result.unwrap();
    assert_eq!(service_id, "service_123");
    assert_eq!(api_key, "api_key_456");
}

#[test]
fn test_extract_service_headers_missing_service_id() {
    let h = headers(HeaderField::Absent, text("api_key_456"), HeaderField::Absent);
    let result = extract_service_headers(&h);
    assert!(result.is_err());
    assert!(auth_message(result.unwrap_err()).contains("X-Service-ID"));
}

#[test]
fn test_extract_service_headers_missing_api_key() {
    let h = headers(HeaderField::Absent, HeaderField::Absent, text("service_123"));
    let result = extract_service_headers(&h);
    assert!(result.is_err());
    assert!(auth_message(result.unwrap_err()).contains("X-API-Key"));
}

#[test]
fn test_extract_service_headers_empty_service_id() {
    let h = headers(HeaderField::Absent, text("api_key_456"), text(""));
    let result = extract_service_headers(&h);
    assert!(result.is_err());
    assert!(auth_message(result.unwrap_err()).contains("不能为空"));
}

#[test]
fn test_extract_service_headers_empty_api_key() {
    let h = headers(HeaderField::Absent, text(""), text("service_123"));
    let result = extract_service_headers(&h);
    assert!(result.is_err());
    assert!(auth_message(result.unwrap_err()).contains("不能为空"));
}

#[test]
fn test_extract_api_key_from_x_api_key() {
    let h = headers(HeaderField::Absent, text("test_api_key"), HeaderField::Absent);
    assert_eq!(extract_api_key(&h), Some("test_api_key".to_string()));
}

#[test]
fn test_extract_api_key_from_authorization_bearer() {
    let h = auth_only(text("Bearer test_bearer_token"));
    assert_eq!(extract_api_key(&h), Some("test_bearer_token".to_string()));
}

#[test]
fn test_extract_api_key_x_api_key_priority() {
    let h = headers(text("Bearer bearer_token_value"), text("x_api_key_value"), HeaderField::Absent);
    assert_eq!(extract_api_key(&h), Some("x_api_key_value".to_string()));
}

#[test]
fn test_extract_api_key_from_authorization_with_whitespace() {
    let h = auth_only(text("Bearer   token_with_whitespace   "));
    assert_eq!(extract_api_key(&h), Some("token_with_whitespace".to_string()));
}

#[test]
fn test_extract_api_key_missing_both() {
    let h = auth_only(HeaderField::Absent);
    assert_eq!(extract_api_key(&h), None);
}

#[test]
fn test_extract_api_key_empty_x_api_key() {
    let h = headers(HeaderField::Absent, text(""), HeaderField::Absent);
    assert_eq!(extract_api_key(&h), Some("".to_string()));
}

#[test]
fn test_extract_api_key_invalid_authorization_format() {
    let h = auth_only(text("Basic dGVzdDpwYXNz"));
    assert_eq!(extract_api_key(&h), None);
}

#[test]
fn test_extract_api_key_empty_bearer_token() {
    let h = auth_only(text("Bearer "));
    assert_eq!(extract_api_key(&h), None);
}

#[test]
fn test_extract_service_headers_with_authorization_bearer() {
    let h = headers(text("Bearer api_key_456"), HeaderField::Absent, text("service_123"));
    let result = extract_service_headers(&h);
    assert!(result.is_ok());
    let (service_id, api_key) = result.unwrap();
    assert_eq!(service_id, "service_123");
    assert_eq!(api_key, "api_key_456");
}

const SECRET: &str = "test-secret-key-for-unit-tests-only";

#[test]
fn hash_api_key_is_64_lowercase_hex_and_deterministic() {
    let a = hash_api_key(SECRET, "ak_test_valid_key");
    let b = hash_api_key(SECRET, "ak_test_valid_key");
    assert_eq!(a, b);
    assert_eq!(a.len(), 64);
    assert!(a.chars().all(|c| c.is_ascii_digit() || ('a'..='f').contains(&c)));
    assert_ne!(a, hash_api_key(SECRET, "ak_other_key"));
    assert_ne!(a, hash_api_key("another-secret", "ak_test_valid_key"));
}

#[test]
fn hash_api_key_matches_known_hmac_sha256() {
    // HMAC-SHA256 with key "key" over "The quick brown fox jumps over the lazy dog".
    assert_eq!(
        hash_api_key("key", "The quick brown fox jumps over the lazy dog"),
        "f7bc83f430538424b13298e6aa6fb143ef4d59a14946175997479dbc2d1a3cd8"
    );
}

#[test]
fn require_admin_only_lets_admins_pass() {
    let admin = AuthUser { user_id: "u".to_string(), api_key: "h".to_string(), role: "admin".to_string() };
    let client = AuthUser { user_id: "u".to_string(), api_key: "h".to_string(), role: "client".to_string() };
    assert!(require_admin(&admin).is_ok());
    assert_eq!(require_admin(&client).unwrap_err(), AppError::Forbidden);
}

#[test]
fn require_auth_hashes_the_bearer_key() {
    let h = auth_only(text("Bearer ak_test_valid_key"));
    assert_eq!(require_auth(&h, Some(SECRET)).unwrap(), hash_api_key(SECRET, "ak_test_valid_key"));
    match require_auth(&h, None).unwrap_err() {
        AppError::Internal(m) => assert_eq!(m, "Secret key not configured"),
        other => panic!("unexpected {:?}", other),
    }
    assert!(matches!(require_auth(&auth_only(HeaderField::Absent), Some(SECRET)), Err(AppError::Auth(_))));
}

#[test]
fn verify_client_api_key_success_and_failure() {
    let row = UserKeyRow {
        id: "user_123".to_string(),
        api_key: hash_api_key(SECRET, "ak_test_valid_key"),
        role: "client".to_string(),
    };
    let user = verify_client_api_key(SECRET, "ak_test_valid_key", Some(row), None).unwrap();
    assert_eq!(user.user_id, "user_123");
    assert_eq!(user.role, "client");
    let failure = verify_client_api_key(SECRET, "ak_nonexistent", None, None).unwrap_err();
    match failure.error {
        AppError::Auth(msg) => assert!(msg.contains("无效")),
        other => panic!("unexpected {:?}", other),
    }
    assert_eq!(failure.audit.event, "auth_failure");
}

#[test]
fn verify_agent_credentials_checks_the_stored_hash() {
    let stored = hash_api_key(SECRET, "ak_agent_valid");
    assert!(verify_agent_credentials(SECRET, "service_123", "ak_agent_valid", Some(stored.clone()), None).is_ok());
    let wrong = verify_agent_credentials(SECRET, "service_123", "wrong_key", Some(stored), None).unwrap_err();
    match wrong.error {
        AppError::Auth(msg) => assert!(msg.contains("无效")),
        other => panic!("unexpected {:?}", other),
    }
    let missing = verify_agent_credentials(SECRET, "nonexistent_service", "some_key", None, None).unwrap_err();
    match missing.error {
        AppError::Auth(msg) => assert!(msg.contains("不存在")),
        other => panic!("unexpected {:?}", other),
    }
    assert_eq!(missing.audit.fields[1].1, "nonexistent_service");
}

#[test]
fn agent_auth_middleware_needs_headers_and_secret() {
    let h = headers(HeaderField::Absent, text("k"), text("svc"));
    assert_eq!(agent_auth_middleware(&h, Some(SECRET)).unwrap(), ("svc".to_string(), "k".to_string()));
    assert!(matches!(agent_auth_middleware(&h, None), Err(AppError::Internal(_))));
    let no_key = headers(HeaderField::Absent, HeaderField::Absent, text("svc"));
    assert_eq!(
        auth_message(agent_auth_middleware(&no_key, Some(SECRET)).unwrap_err()),
        "缺少 X-API-Key 或 Authorization: Bearer header"
    );
}
