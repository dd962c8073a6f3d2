use throttler::config::Config;
use throttler::error::ThrottlerError;
use throttler::rate_limit_config::RateLimitRule;
use throttler::throttler::{FallbackPolicy, Throttler};

fn test_config() -> Config {
    Config {
        redis_url: String::new(),
        bind_address: "127.0.0.1:8080".to_string(),
        default_capacity: 10,
        default_refill_rate: 2,
        environment: "test".to_string(),
        log_level: "info".to_string(),
    }
}

fn engine() -> Throttler {
    Throttler::new(test_config()).unwrap()
}

#[test]
fn test_engine_construction_rejects_bad_defaults() {
    let mut config = test_config();
    config.default_refill_rate = 0;
    assert!(matches!(Throttler::new(config), Err(ThrottlerError::ConfigError(_))));
    let mut config = test_config();
    config.default_capacity = 0;
    assert!(matches!(Throttler::new(config), Err(ThrottlerError::ConfigError(_))));
    assert!(Throttler::new(test_config()).is_ok());
}

#[test]
fn test_cold_start_single_admit() {
    let mut t = engine();
    let outcome = t.decide("a", 1, 0).unwrap();
    assert!(outcome.allowed);
    assert_eq!(outcome.remaining, 9);
    assert_eq!(outcome.limit, 10);
    assert_eq!(outcome.window_ms, 60_000);
    assert_eq!(outcome.retry_after_ms, None);
    assert!(!outcome.degraded);
}

#[test]
fn test_burst_of_eleven() {
    let mut t = engine();
    for expected_remaining in (0..=9u64).rev() {
        let outcome = t.decide("b", 1, 0).unwrap();
        assert!(outcome.allowed);
        assert_eq!(outcome.remaining, expected_remaining);
    }
    let denied = t.decide("b", 1, 0).unwrap();
    assert!(!denied.allowed);
    assert_eq!(denied.remaining, 0);
    assert_eq!(denied.retry_after_ms, Some(500));
}

#[test]
fn test_refill_after_burst() {
    let mut t = engine();
    for _ in 0..10 {
        assert!(t.decide("b", 1, 0).unwrap().allowed);
    }
    assert!(!t.decide("b", 1, 0).unwrap().allowed);
    // Half a second refills one token at 2 tokens per second, which the
    // next request immediately consumes.
    let outcome = t.decide("b", 1, 500).unwrap();
    assert!(outcome.allowed);
    assert_eq!(outcome.remaining, 0);
}

#[test]
fn test_full_capacity_consume_admitted_exactly() {
    // Consuming exactly the capacity from a full bucket is admitted and
    // leaves nothing.
    let mut t = engine();
    let outcome = t.decide("cap", 10, 0).unwrap();
    assert!(outcome.allowed);
    assert_eq!(outcome.remaining, 0);
}

#[test]
fn test_capacity_plus_one_denied_with_retry() {
    // One token over the capacity is denied even on a full bucket, and
    // the wait is the time one token takes to refill at 2 per second.
    let mut t = engine();
    let outcome = t.decide("over", 11, 0).unwrap();
    assert!(!outcome.allowed);
    assert_eq!(outcome.retry_after_ms, Some(500));
}

#[test]
fn test_burst_plus_refill_ceiling_over_interval() {
    // Over one second at 2 tokens per second, a 10-token bucket admits at
    // most 10 + 2 requests, however the calls are spread.
    let mut t = engine();
    let mut admitted = 0;
    for _ in 0..15 {
        if t.decide("ceil", 1, 0).unwrap().allowed {
            admitted += 1;
        }
    }
    for now in [500u64, 500, 1000, 1000] {
        if t.decide("ceil", 1, now).unwrap().allowed {
            admitted += 1;
        }
    }
    assert_eq!(admitted, 12);
}

#[test]
fn test_two_token_consume_on_partial_bucket() {
    let mut t = engine();
    let first = t.decide("c", 3, 0).unwrap();
    assert!(first.allowed);
    assert_eq!(first.remaining, 7);
    let second = t.decide("c", 8, 0).unwrap();
    assert!(!second.allowed);
    assert_eq!(second.retry_after_ms, Some(500));
}

#[test]
fn test_reset_recovers() {
    let mut t = engine();
    for _ in 0..10 {
        assert!(t.decide("d", 1, 0).unwrap().allowed);
    }
    t.reset_rate_limit("d").unwrap();
    let outcome = t.decide("d", 1, 0).unwrap();
    assert!(outcome.allowed);
    assert_eq!(outcome.remaining, 9);
}

#[test]
fn test_disabled_rule_bypass() {
    let mut t = engine();
    let rule = RateLimitRule {
        capacity: 10,
        refill_rate: 2_000,
        window_ms: 60_000,
        enabled: false,
    };
    t.set_rule("e".to_string(), rule).unwrap();
    for _ in 0..25 {
        let outcome = t.decide("e", 1, 0).unwrap();
        assert!(outcome.allowed);
        assert_eq!(outcome.remaining, 10);
    }
}

#[test]
fn test_store_down_fallback_policies() {
    let mut t = engine();
    let rule = RateLimitRule::new(10, 2_000, 60_000);

    // Fail closed (the default): the store error is surfaced.
    let r = t.decide_with_store_result(
        "g",
        1,
        rule,
        Err(ThrottlerError::RedisError("connection refused".to_string())),
        0,
    );
    assert!(matches!(r, Err(ThrottlerError::RedisError(_))));

    // Fail open: the local registry decides and the outcome is degraded.
    t.set_fallback_policy(FallbackPolicy::OpenLocal);
    let outcome = t
        .decide_with_store_result(
            "g",
            1,
            rule,
            Err(ThrottlerError::RedisError("connection refused".to_string())),
            0,
        )
        .unwrap();
    assert!(outcome.allowed);
    assert!(outcome.degraded);
    assert_eq!(outcome.remaining, 9);
}

#[test]
fn test_store_verdict_is_reported_as_is() {
    let mut t = engine();
    let rule = RateLimitRule::new(10, 2_000, 60_000);
    let (admitted, bucket) =
        throttler::distributed::atomic_refill_consume(None, 1, 10, 2_000, 0);
    assert!(admitted);
    let outcome = t
        .decide_with_store_result("h", 1, rule, Ok((admitted, bucket)), 0)
        .unwrap();
    assert!(outcome.allowed);
    assert_eq!(outcome.remaining, 9);
    assert!(!outcome.degraded);
}

#[test]
fn test_zero_token_decide_is_a_noop() {
    let mut t = engine();
    assert!(t.decide("k", 1, 0).unwrap().allowed);
    let before = t.peek("k").unwrap();
    let outcome = t.decide("k", 0, 500_000).unwrap();
    assert!(outcome.allowed);
    assert_eq!(outcome.remaining, before.0);
    let after = t.peek("k").unwrap();
    assert_eq!(after, before);
}

#[test]
fn test_invalid_key_is_rejected() {
    let mut t = engine();
    assert!(matches!(t.decide("", 1, 0), Err(ThrottlerError::InvalidKey(_))));
    assert!(matches!(
        t.decide("no spaces allowed", 1, 0),
        Err(ThrottlerError::InvalidKey(_))
    ));
    let long = "a".repeat(300);
    assert!(matches!(t.decide(&long, 1, 0), Err(ThrottlerError::InvalidKey(_))));
    assert!(matches!(t.reset_rate_limit("bad key"), Err(ThrottlerError::InvalidKey(_))));
}

#[test]
fn test_set_rule_then_get_rule_round_trip() {
    let mut t = engine();
    let rule = RateLimitRule::new(42, 7_000, 30_000);
    t.set_rule("tenant-9".to_string(), rule).unwrap();
    assert_eq!(t.rules.get_rule("tenant-9"), rule);
    // Other keys still resolve to the default rule.
    assert_eq!(t.rules.get_rule("other"), t.rules.default_rule);
}

#[test]
fn test_invalid_rule_is_rejected() {
    let mut t = engine();
    let zero_capacity = RateLimitRule::new(0, 2_000, 60_000);
    assert!(matches!(
        t.set_rule("x".to_string(), zero_capacity),
        Err(ThrottlerError::ValidationError(_))
    ));
    let zero_rate = RateLimitRule::new(10, 0, 60_000);
    assert!(matches!(
        t.set_rule("x".to_string(), zero_rate),
        Err(ThrottlerError::ValidationError(_))
    ));
    let tiny_window = RateLimitRule::new(10, 2_000, 10);
    assert!(matches!(
        t.set_rule("x".to_string(), tiny_window),
        Err(ThrottlerError::ValidationError(_))
    ));
    assert!(RateLimitRule::disabled().validate().is_err());
}

#[test]
fn test_remove_rule_falls_back_to_default() {
    let mut t = engine();
    let rule = RateLimitRule::new(5, 1_000, 60_000);
    t.set_rule("tmp".to_string(), rule).unwrap();
    let removed = t.remove_rule("tmp").unwrap();
    assert_eq!(removed, Some(rule));
    assert_eq!(t.rules.get_rule("tmp"), t.rules.default_rule);
    assert_eq!(t.remove_rule("tmp").unwrap(), None);
}

#[test]
fn test_reset_then_peek_reports_full_capacity() {
    let mut t = engine();
    for _ in 0..10 {
        assert!(t.decide("p", 1, 0).unwrap().allowed);
    }
    t.reset_rate_limit("p").unwrap();
    let (remaining, limit) = t.peek("p").unwrap();
    assert_eq!(remaining, 10);
    assert_eq!(limit, 10);
}

#[test]
fn test_rule_change_applies_on_next_admission() {
    let mut t = engine();
    assert!(t.decide("r", 1, 0).unwrap().allowed);
    // Shrink the capacity below the stored count: the next admission
    // clamps the bucket down to the new rule.
    let rule = RateLimitRule::new(3, 2_000, 60_000);
    t.set_rule("r".to_string(), rule).unwrap();
    let outcome = t.decide("r", 1, 0).unwrap();
    assert!(outcome.allowed);
    assert_eq!(outcome.limit, 3);
    assert_eq!(outcome.remaining, 2);
}

#[test]
fn test_health_check_modes() {
    let t = engine();
    let local_only = t.health_check(None);
    assert!(local_only.healthy);
    assert!(!local_only.redis_connected);
    let store_up = t.health_check(Some(true));
    assert!(store_up.healthy);
    assert!(store_up.redis_connected);
    let store_down = t.health_check(Some(false));
    assert!(!store_down.healthy);
    assert!(!store_down.redis_connected);
}

#[test]
fn test_status_snapshot() {
    let mut t = engine();
    assert!(t.decide("s", 4, 0).unwrap().allowed);
    let status = t.get_rate_limit_status("s").unwrap();
    assert_eq!(status.key, "s");
    assert_eq!(status.limit, 10);
    assert_eq!(status.remaining, 6);
    assert!(status.enabled);
}

#[test]
fn test_should_throttle() {
    let mut t = engine();
    let mut throttled = false;
    for _ in 0..11 {
        throttled = t.should_throttle("w").unwrap();
    }
    assert!(throttled);
    let rule = RateLimitRule {
        capacity: 10,
        refill_rate: 2_000,
        window_ms: 60_000,
        enabled: false,
    };
    t.set_rule("w".to_string(), rule).unwrap();
    assert!(!t.should_throttle("w").unwrap());
}
