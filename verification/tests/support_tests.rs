use throttler::config::Config;
use throttler::error::ThrottlerError;
use throttler::handlers::{check_status_code, CheckRequest, CheckResponse};
use throttler::health::{build_health_status, build_service_status};
use throttler::metrics::{aggregate_metrics, ThrottleMetrics};
use throttler::rate_limiter::RateLimiter;
use throttler::response::{HealthResponse, RateLimitResponse};
use throttler::throttler::Throttler;

fn local_config() -> Config {
    Config {
        redis_url: "redis://localhost:6379".to_string(),
        bind_address: "127.0.0.1:8080".to_string(),
        default_capacity: 100,
        default_refill_rate: 10,
        environment: "development".to_string(),
        log_level: "info".to_string(),
    }
}

#[test]
fn test_config_validate() {
    assert!(local_config().validate().is_ok());
    let mut bad = local_config();
    bad.redis_url = "http://x".to_string();
    assert!(bad.validate().is_err());
    let mut bad = local_config();
    bad.default_capacity = 0;
    assert!(bad.validate().is_err());
    let mut bad = local_config();
    bad.environment = "qa".to_string();
    assert!(bad.validate().is_err());
}

#[test]
fn test_config_environment_flags() {
    let mut config = local_config();
    assert!(config.is_development());
    assert!(!config.is_production());
    config.environment = "PRODUCTION".to_string();
    assert!(config.is_production());
}

#[test]
fn test_error_status_codes() {
    assert_eq!(
        ThrottlerError::RateLimitExceeded { retry_after: 60, limit: 100, window_ms: 60000 }
            .status_code(),
        429
    );
    assert_eq!(ThrottlerError::InvalidKey("x".to_string()).status_code(), 400);
    assert_eq!(ThrottlerError::ValidationError("x".to_string()).status_code(), 400);
    assert_eq!(ThrottlerError::ConfigError("x".to_string()).status_code(), 400);
    assert_eq!(ThrottlerError::RedisError("x".to_string()).status_code(), 503);
    assert_eq!(ThrottlerError::SerializationError("x".to_string()).status_code(), 500);
    assert_eq!(ThrottlerError::InternalError("x".to_string()).status_code(), 500);
}

#[test]
fn test_error_messages() {
    let err = ThrottlerError::RateLimitExceeded { retry_after: 60, limit: 100, window_ms: 60000 };
    assert_eq!(
        err.message(),
        "Rate limit exceeded: 100 requests per 60000ms window. Retry after 60s"
    );
    assert_eq!(err.error_label(), "rate_limit_exceeded");
    let err = ThrottlerError::InvalidKey("bad!".to_string());
    assert_eq!(err.message(), "Invalid key format: bad!");
    assert_eq!(err.error_label(), "validation_error");
}

#[test]
fn test_metrics_record_and_aggregate() {
    let mut a = ThrottleMetrics::new(7);
    a.record_request(true);
    a.record_request(true);
    a.record_request(false);
    assert_eq!(a.total_requests, 3);
    assert_eq!(a.allowed_requests, 2);
    assert_eq!(a.throttled_requests, 1);
    assert_eq!(a.last_reset, 7);

    let mut b = ThrottleMetrics::new(9);
    b.record_request(false);
    let global = aggregate_metrics(&vec![a, b], 0);
    assert_eq!(global.total_requests, 4);
    assert_eq!(global.allowed_requests, 2);
    assert_eq!(global.throttled_requests, 2);
    assert_eq!(global.last_reset, 0);
}

#[test]
fn test_health_report_degrades_without_store() {
    let up = build_service_status(true, 5);
    assert_eq!(up.status, "healthy");
    assert!(up.error.is_none());
    let report = build_health_status(up, 1234567890, 3600);
    assert_eq!(report.status, "healthy");
    assert_eq!(report.timestamp, 1234567890);
    assert_eq!(report.uptime_seconds, 3600);

    let down = build_service_status(false, 5);
    assert_eq!(down.status, "unavailable");
    assert!(down.error.is_some());
    let report = build_health_status(down, 0, 0);
    assert_eq!(report.status, "degraded");
}

#[test]
fn test_response_constructors() {
    let ok = RateLimitResponse::allowed(42, 1000);
    assert!(ok.allowed);
    assert_eq!(ok.remaining, 42);
    assert_eq!(ok.retry_after, None);
    let no = RateLimitResponse::denied(1000, 30);
    assert!(!no.allowed);
    assert_eq!(no.remaining, 0);
    assert_eq!(no.retry_after, Some(30));

    let healthy = HealthResponse::healthy(true);
    assert_eq!(healthy.status, "healthy");
    assert!(healthy.redis_connected);
    let unhealthy = HealthResponse::unhealthy(false);
    assert_eq!(unhealthy.status, "unhealthy");
}

#[test]
fn test_check_request_and_response_shapes() {
    assert_eq!(CheckRequest { tokens: None }.effective_tokens(), 1);
    assert_eq!(CheckRequest { tokens: Some(5) }.effective_tokens(), 5);

    let mut t = Throttler::new(Config {
        redis_url: String::new(),
        bind_address: "127.0.0.1:8080".to_string(),
        default_capacity: 10,
        default_refill_rate: 2,
        environment: "test".to_string(),
        log_level: "info".to_string(),
    })
    .unwrap();
    let outcome = t.decide("q", 1, 0).unwrap();
    let body = CheckResponse::from_outcome(&outcome);
    assert!(body.allowed);
    assert_eq!(body.remaining, 9);
    assert_eq!(body.limit, 10);
    assert_eq!(check_status_code(&outcome), 200);
}

#[test]
fn test_rate_limiter_local_operations() {
    let mut limiter = RateLimiter::new(&local_config()).unwrap();
    let (allowed, remaining) = limiter.check_rate_limit_at("client-1", 0).unwrap();
    assert!(allowed);
    assert_eq!(remaining, 99);
    assert_eq!(limiter.get_remaining_tokens("client-1").unwrap(), 99);
    assert_eq!(limiter.get_remaining_tokens("absent").unwrap(), 100);

    limiter.reset("client-1").unwrap();
    assert_eq!(limiter.get_remaining_tokens("client-1").unwrap(), 100);

    let stats = limiter.get_stats().unwrap();
    assert_eq!(stats[0], ("local_buckets".to_string(), 0));
    assert_eq!(stats[1], ("redis_enabled".to_string(), 1));
}

#[test]
fn test_cleanup_evicts_idle_full_buckets() {
    let mut limiter = RateLimiter::new(&local_config()).unwrap();
    // A denied oversized request leaves the "idle" bucket sitting full.
    let (admitted, _) = limiter.consume_with_params("idle", 100, 10_000, 200, 0);
    assert!(!admitted);
    // The "busy" bucket is consumed from much later, so it is neither
    // full nor stale.
    let _ = limiter.check_rate_limit_at("busy", 1_000_000).unwrap();

    // Young buckets survive the sweep.
    let cleaned = limiter.cleanup_expired_buckets(120_000, 100_000).unwrap();
    assert_eq!(cleaned, 0);
    // The full, stale bucket is dropped; the partial one stays.
    let cleaned = limiter.cleanup_expired_buckets(120_000, 2_000_000).unwrap();
    assert_eq!(cleaned, 1);
    assert_eq!(limiter.get_remaining_tokens("busy").unwrap(), 99);
    assert_eq!(limiter.get_remaining_tokens("idle").unwrap(), 100);
}
