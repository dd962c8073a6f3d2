use throttler::token_bucket::{TokenBucket, MICROS_PER_TOKEN};

#[test]
fn test_new_bucket_has_full_capacity() {
    let bucket = TokenBucket::new(100, 10_000, 0);
    assert_eq!(bucket.capacity, 100);
    assert_eq!(bucket.tokens, 100 * MICROS_PER_TOKEN);
}

#[test]
fn test_consume_tokens() {
    let mut bucket = TokenBucket::new(100, 10_000, 0);
    assert!(bucket.try_consume(50, 0));
    assert_eq!(bucket.tokens, 50 * MICROS_PER_TOKEN);
}

#[test]
fn test_cannot_consume_more_than_available() {
    let mut bucket = TokenBucket::new(10, 1_000, 0);
    assert!(!bucket.try_consume(20, 0));
    assert_eq!(bucket.tokens, 10 * MICROS_PER_TOKEN);
}

#[test]
fn test_reset() {
    let mut bucket = TokenBucket::new(100, 10_000, 0);
    assert!(bucket.try_consume(90, 0));
    bucket.reset(0);
    assert_eq!(bucket.tokens, 100 * MICROS_PER_TOKEN);
}

#[test]
fn test_token_bucket_edge_cases() {
    // A zero refill rate admits what is stored but never earns more.
    let mut bucket = TokenBucket::new(10, 0, 0);
    assert!(bucket.try_consume(5, 0));

    let wait_time = bucket.time_until_tokens(10, 0);
    assert_eq!(wait_time, u64::MAX);

    // An immediate re-check after consuming must not over-report.
    let mut bucket = TokenBucket::new(100, 10_000, 0);
    assert!(bucket.try_consume(50, 0));
    let available = bucket.available_tokens();
    assert!(available <= 50);

    // Slow rates accumulate without drift: 0.1 tokens per second.
    let mut bucket = TokenBucket::new(1000, 100, 0);
    for i in 1..=10u64 {
        bucket.refill(i);
    }
    assert!(bucket.tokens <= 1000 * MICROS_PER_TOKEN);
}

#[test]
fn test_token_bucket_basic_operations() {
    let mut bucket = TokenBucket::new(100, 10_000, 0);

    assert_eq!(bucket.capacity, 100);
    assert_eq!(bucket.tokens, 100 * MICROS_PER_TOKEN);

    assert!(bucket.try_consume(50, 0));
    assert_eq!(bucket.tokens, 50 * MICROS_PER_TOKEN);

    assert!(!bucket.try_consume(60, 0));
    assert_eq!(bucket.tokens, 50 * MICROS_PER_TOKEN);

    bucket.reset(0);
    assert_eq!(bucket.tokens, 100 * MICROS_PER_TOKEN);
}

#[test]
fn test_fractional_refill_is_exact() {
    // 0.1 tokens per second accumulate to exactly one token in 10 s.
    let mut bucket = TokenBucket::new(1000, 100, 0);
    assert!(bucket.try_consume(1000, 0));
    bucket.refill(5);
    assert_eq!(bucket.tokens, 500);
    bucket.refill(10_000);
    assert_eq!(bucket.tokens, MICROS_PER_TOKEN);
}

#[test]
fn test_time_until_formula() {
    // 2 tokens per second: one token takes 500 ms, four take 2000 ms.
    let mut bucket = TokenBucket::new(10, 2_000, 0);
    assert!(bucket.try_consume(10, 0));
    assert_eq!(bucket.time_until_tokens(1, 0), 500);
    assert_eq!(bucket.time_until_tokens(4, 0), 2_000);
    assert_eq!(bucket.time_until_tokens(0, 0), 0);
}

#[test]
fn test_idle_hour_fills_to_capacity_exactly() {
    let mut bucket = TokenBucket::new(10, 2_000, 0);
    assert!(bucket.try_consume(10, 0));
    bucket.refill(3_600_000);
    assert_eq!(bucket.tokens, 10 * MICROS_PER_TOKEN);
    // Even longer idleness earns nothing beyond the capacity.
    bucket.refill(10 * 3_600_000);
    assert_eq!(bucket.tokens, 10 * MICROS_PER_TOKEN);
}

#[test]
fn test_clock_reversal_leaves_bucket_unchanged() {
    let mut bucket = TokenBucket::new(10, 2_000, 5_000);
    assert!(bucket.try_consume(3, 5_000));
    let before = bucket.tokens;
    bucket.refill(1_000);
    assert_eq!(bucket.tokens, before);
    assert_eq!(bucket.last_refill, 5_000);
}

#[test]
fn test_zero_rate_starves_once_empty() {
    let mut bucket = TokenBucket::new(3, 0, 0);
    assert!(bucket.try_consume(3, 0));
    assert!(!bucket.try_consume(1, 1_000_000));
    assert!(!bucket.try_consume(1, u64::MAX));
    assert_eq!(bucket.time_until_tokens(1, u64::MAX), u64::MAX);
}

#[test]
fn test_wait_time_never_grows_while_idle() {
    let mut bucket = TokenBucket::new(10, 2_000, 0);
    assert!(bucket.try_consume(10, 0));
    // With no consumption, the reported wait for one token only shrinks
    // as time advances: 500 ms at T=0, 400 ms at T=100, and so on.
    let mut previous = u64::MAX;
    let mut expected = [500u64, 400, 300, 200, 100, 0].into_iter();
    for t in [0u64, 100, 200, 300, 400, 500] {
        let mut probe = bucket;
        let wait = probe.time_until_tokens(1, t);
        assert_eq!(wait, expected.next().unwrap());
        assert!(wait <= previous);
        previous = wait;
    }
}

#[test]
fn test_exact_capacity_consume_is_admitted() {
    let mut bucket = TokenBucket::new(10, 2_000, 0);
    assert!(bucket.try_consume(10, 0));
    assert_eq!(bucket.tokens, 0);
    assert!(bucket.is_empty());
}
