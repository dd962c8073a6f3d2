use throttler::distributed::{atomic_refill_consume, bucket_ttl_seconds, store_key};
use throttler::token_bucket::{TokenBucket, MICROS_PER_TOKEN};

#[test]
fn test_two_replicas_share_one_budget() {
    // Two replicas each fire twenty single-token requests at the same
    // instant; the store serialises them into one sequence, so exactly
    // the bucket's capacity is admitted in total.
    let mut state: Option<TokenBucket> = None;
    let mut admitted_a = 0u64;
    let mut admitted_b = 0u64;
    for round in 0..20 {
        for replica in 0..2 {
            let (admitted, bucket) = atomic_refill_consume(state, 1, 10, 2_000, 0);
            state = Some(bucket);
            if admitted {
                if replica == 0 {
                    admitted_a += 1;
                } else {
                    admitted_b += 1;
                }
            }
            let _ = round;
        }
    }
    assert_eq!(admitted_a + admitted_b, 10);
}

#[test]
fn test_absent_key_materialises_full() {
    let (admitted, bucket) = atomic_refill_consume(None, 1, 10, 2_000, 1_000);
    assert!(admitted);
    assert_eq!(bucket.capacity, 10);
    assert_eq!(bucket.refill_rate, 2_000);
    assert_eq!(bucket.tokens, 9 * MICROS_PER_TOKEN);
    assert_eq!(bucket.last_refill, 1_000);
}

#[test]
fn test_server_side_refill_and_deny() {
    let (_, empty) = atomic_refill_consume(None, 10, 10, 2_000, 0);
    assert_eq!(empty.tokens, 0);
    // 250 ms at 2 tokens per second earns half a token: not enough.
    let (admitted, half) = atomic_refill_consume(Some(empty), 1, 10, 2_000, 250);
    assert!(!admitted);
    assert_eq!(half.tokens, MICROS_PER_TOKEN / 2);
    // Another 250 ms completes the token.
    let (admitted, after) = atomic_refill_consume(Some(half), 1, 10, 2_000, 500);
    assert!(admitted);
    assert_eq!(after.tokens, 0);
}

#[test]
fn test_clock_skew_earns_nothing() {
    let (_, bucket) = atomic_refill_consume(None, 10, 10, 2_000, 1_000);
    // A replica with a lagging clock earns no refill.
    let (admitted, after) = atomic_refill_consume(Some(bucket), 1, 10, 2_000, 400);
    assert!(!admitted);
    assert_eq!(after.tokens, 0);
}

#[test]
fn test_rule_change_clamps_stored_tokens() {
    let (_, bucket) = atomic_refill_consume(None, 0, 100, 2_000, 0);
    assert_eq!(bucket.tokens, 100 * MICROS_PER_TOKEN);
    // The capacity shrank to 10: the stored count is clamped down inside
    // the transaction.
    let (admitted, clamped) = atomic_refill_consume(Some(bucket), 1, 10, 2_000, 0);
    assert!(admitted);
    assert_eq!(clamped.capacity, 10);
    assert_eq!(clamped.tokens, 9 * MICROS_PER_TOKEN);
}

#[test]
fn test_bucket_ttl_is_twice_the_window() {
    assert_eq!(bucket_ttl_seconds(60_000), 120);
    assert_eq!(bucket_ttl_seconds(1_500), 3);
    assert_eq!(bucket_ttl_seconds(499), 1);
}

#[test]
fn test_store_key_is_namespaced() {
    assert_eq!(store_key("user123"), "throttler:user123");
}
