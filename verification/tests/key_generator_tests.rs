use throttler::key_generator::{KeyGenerator, KeyStrategy};

fn create_test_headers() -> Vec<(String, String)> {
    vec![
        ("x-api-key".to_string(), "test-api-key".to_string()),
        ("x-user-id".to_string(), "user123".to_string()),
        ("x-forwarded-for".to_string(), "192.168.1.1, 10.0.0.1".to_string()),
    ]
}

#[test]
fn test_ip_address_strategy() {
    let generator = KeyGenerator::new(KeyStrategy::IpAddress);
    let headers = create_test_headers();
    let key = generator.generate_key(&headers, "192.168.1.1", "/api/test").unwrap();
    assert_eq!(key, "throttle:ip:192.168.1.1:/api/test");
}

#[test]
fn test_api_key_strategy() {
    let generator = KeyGenerator::new(KeyStrategy::ApiKey);
    let headers = create_test_headers();
    let key = generator.generate_key(&headers, "192.168.1.1", "/api/test").unwrap();
    assert_eq!(key, "throttle:api:test-api-key:/api/test");
}

#[test]
fn test_user_id_strategy() {
    let generator = KeyGenerator::new(KeyStrategy::UserId);
    let headers = create_test_headers();
    let key = generator.generate_key(&headers, "192.168.1.1", "/api/test").unwrap();
    assert_eq!(key, "throttle:user:user123:/api/test");
}

#[test]
fn test_composite_strategy() {
    let strategy = KeyStrategy::Composite(vec![KeyStrategy::UserId, KeyStrategy::IpAddress]);
    let generator = KeyGenerator::new(strategy);
    let headers = create_test_headers();
    let key = generator.generate_key(&headers, "192.168.1.1", "/api/test").unwrap();
    assert_eq!(key, "throttle:composite:user123:192.168.1.1:/api/test");
}

#[test]
fn test_extract_client_ip() {
    let headers = create_test_headers();
    let ip = KeyGenerator::extract_client_ip(&headers);
    assert_eq!(ip, "192.168.1.1");
}

#[test]
fn test_sanitize_key() {
    let key = "test@key#with$special%chars";
    let sanitized = KeyGenerator::sanitize_key(key);
    assert_eq!(sanitized, "test_key_with_special_chars");
}

#[test]
fn test_missing_api_key() {
    let generator = KeyGenerator::new(KeyStrategy::ApiKey);
    let headers: Vec<(String, String)> = Vec::new();
    assert!(matches!(
        generator.generate_key(&headers, "10.0.0.1", "/x"),
        Err(throttler::error::ThrottlerError::MissingApiKey)
    ));
}

#[test]
fn test_missing_user_id() {
    let generator = KeyGenerator::new(KeyStrategy::UserId);
    let headers: Vec<(String, String)> = Vec::new();
    assert!(matches!(
        generator.generate_key(&headers, "10.0.0.1", "/x"),
        Err(throttler::error::ThrottlerError::MissingUserId)
    ));
}

#[test]
fn test_nested_composite_rejected() {
    let strategy = KeyStrategy::Composite(vec![KeyStrategy::Composite(vec![
        KeyStrategy::IpAddress,
    ])]);
    let generator = KeyGenerator::new(strategy);
    let headers = create_test_headers();
    assert!(matches!(
        generator.generate_key(&headers, "10.0.0.1", "/x"),
        Err(throttler::error::ThrottlerError::InvalidKeyStrategy(_))
    ));
}

#[test]
fn test_extract_client_ip_real_ip_fallback() {
    let headers = vec![("x-real-ip".to_string(), "203.0.113.1".to_string())];
    assert_eq!(KeyGenerator::extract_client_ip(&headers), "203.0.113.1");
    let empty: Vec<(String, String)> = Vec::new();
    assert_eq!(KeyGenerator::extract_client_ip(&empty), "unknown");
}
