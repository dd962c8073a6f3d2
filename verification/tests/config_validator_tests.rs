use throttler::config_validator::ConfigValidator;

#[test]
fn test_valid_redis_url() {
    assert!(ConfigValidator::validate_redis_url("redis://localhost:6379").is_ok());
    assert!(ConfigValidator::validate_redis_url("rediss://localhost:6379").is_ok());
}

#[test]
fn test_invalid_redis_url() {
    assert!(ConfigValidator::validate_redis_url("").is_err());
    assert!(ConfigValidator::validate_redis_url("http://localhost:6379").is_err());
}

#[test]
fn test_valid_bind_address() {
    assert!(ConfigValidator::validate_bind_address("127.0.0.1:8080").is_ok());
    assert!(ConfigValidator::validate_bind_address("0.0.0.0:3000").is_ok());
}

#[test]
fn test_invalid_bind_address() {
    assert!(ConfigValidator::validate_bind_address("").is_err());
    assert!(ConfigValidator::validate_bind_address("localhost").is_err());
}

#[test]
fn config_validator_test_valid_rate_limit() {
    assert!(ConfigValidator::validate_rate_limit(100, 10).is_ok());
}

#[test]
fn config_validator_test_invalid_rate_limit() {
    assert!(ConfigValidator::validate_rate_limit(0, 10).is_err());
    assert!(ConfigValidator::validate_rate_limit(100, 0).is_err());
}

#[test]
fn test_valid_environment() {
    assert!(ConfigValidator::validate_environment("development").is_ok());
    assert!(ConfigValidator::validate_environment("production").is_ok());
}

#[test]
fn test_invalid_environment() {
    assert!(ConfigValidator::validate_environment("invalid").is_err());
}

#[test]
fn test_valid_server_config() {
    assert!(ConfigValidator::validate_server_config("127.0.0.1", 8080, "redis://localhost:6379")
        .is_ok());
}

#[test]
fn test_invalid_server_config() {
    assert!(ConfigValidator::validate_server_config(
        "127.0.0.1",
        8080,
        "invalid://localhost:6379"
    )
    .is_err());
}
