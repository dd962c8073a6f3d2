use throttler::validation::RequestValidator;

#[test]
fn test_valid_key() {
    let validator = RequestValidator::new();
    assert!(validator.validate_key("user123").is_ok());
    assert!(validator.validate_key("api-key_v1.2").is_ok());
}

#[test]
fn test_invalid_key() {
    let validator = RequestValidator::new();
    assert!(validator.validate_key("").is_err());
    assert!(validator.validate_key("key with spaces").is_err());
    assert!(validator.validate_key(&"a".repeat(300)).is_err());
}

#[test]
fn validation_test_valid_rate_limit() {
    let validator = RequestValidator::new();
    assert!(validator.validate_rate_limit(100, 60000).is_ok());
}

#[test]
fn validation_test_invalid_rate_limit() {
    let validator = RequestValidator::new();
    assert!(validator.validate_rate_limit(0, 60000).is_err());
    assert!(validator.validate_rate_limit(100, 500).is_err());
    assert!(validator.validate_rate_limit(20000, 60000).is_err());
}

#[test]
fn test_key_at_length_bound() {
    let validator = RequestValidator::new();
    assert!(validator.validate_key(&"a".repeat(256)).is_ok());
    assert!(validator.validate_key(&"a".repeat(257)).is_err());
}

#[test]
fn test_validate_headers() {
    let validator = RequestValidator::new();
    let good = vec![("x-api-key".to_string(), "abc".to_string())];
    assert!(validator.validate_headers(&good).is_ok());
    let empty_name = vec![(String::new(), "abc".to_string())];
    assert!(validator.validate_headers(&empty_name).is_err());
    let bad_name = vec![("x api key".to_string(), "abc".to_string())];
    assert!(validator.validate_headers(&bad_name).is_err());
    let long_value = vec![("x-api-key".to_string(), "v".repeat(2000))];
    assert!(validator.validate_headers(&long_value).is_err());
}

#[test]
fn test_validator_sanitize_key() {
    let validator = RequestValidator::new();
    assert_eq!(validator.sanitize_key("ab c!d"), "abcd");
    assert_eq!(validator.sanitize_key("A_b.c-9"), "A_b.c-9");
}
