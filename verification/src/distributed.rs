//! The atomic refill-and-consume operation used against a shared store.
//!
//! In distributed mode every replica delegates the bucket update to the
//! store, which executes refill and consume as one transaction per key and
//! so totally orders all operations on that key.  The semantics of that
//! transaction are defined here as a pure function on the stored snapshot:
//! the store-side script must behave exactly like [`atomic_refill_consume`],
//! and because the store serialises the calls, the combined behaviour of
//! any number of replicas is one sequence of applications of this function.
//!
//! Unlike the local refill, the server-side operation carries no one-hour
//! elapsed cap and no sub-millisecond cutoff: the caller-supplied
//! `capacity` and `refill_rate` are authoritative on every call, so a rule
//! change takes effect on the next admission and the stored count is
//! clamped down to the new capacity.

use vstd::prelude::*;

use crate::token_bucket::{TokenBucket, MAX_CAPACITY, MAX_REFILL_RATE, MICROS_PER_TOKEN};

verus! {

/// The bucket stored after the refill half of the transaction: an absent
/// key materialises as a full bucket; a present one earns
/// `refill_rate * elapsed` micro-tokens (elapsed clamped at zero when the
/// caller's clock is behind the stored timestamp) and is clamped to the
/// caller's capacity.
pub open spec fn spec_atomic_refill(
    existing: Option<TokenBucket>,
    capacity: u64,
    refill_rate: u64,
    now_ms: u64,
) -> TokenBucket {
    match existing {
        Option::None => TokenBucket {
            capacity,
            tokens: (capacity * MICROS_PER_TOKEN) as u64,
            refill_rate,
            last_refill: now_ms,
        },
        Option::Some(b) => {
            let e = if now_ms > b.last_refill {
                now_ms - b.last_refill
            } else {
                0
            };
            let cap_micro = capacity * MICROS_PER_TOKEN;
            let grown = b.tokens + refill_rate * e;
            TokenBucket {
                capacity,
                tokens: (if grown > cap_micro {
                    cap_micro
                } else {
                    grown
                }) as u64,
                refill_rate,
                last_refill: now_ms,
            }
        },
    }
}

/// Whether the transaction admits a consume of `n` tokens.
pub open spec fn spec_atomic_admits(
    existing: Option<TokenBucket>,
    n: u64,
    capacity: u64,
    refill_rate: u64,
    now_ms: u64,
) -> bool {
    spec_atomic_refill(existing, capacity, refill_rate, now_ms).tokens >= n * MICROS_PER_TOKEN
}

/// The bucket written back by the transaction.
pub open spec fn spec_atomic_consume(
    existing: Option<TokenBucket>,
    n: u64,
    capacity: u64,
    refill_rate: u64,
    now_ms: u64,
) -> TokenBucket {
    let rb = spec_atomic_refill(existing, capacity, refill_rate, now_ms);
    if spec_atomic_admits(existing, n, capacity, refill_rate, now_ms) {
        TokenBucket { tokens: (rb.tokens - n * MICROS_PER_TOKEN) as u64, ..rb }
    } else {
        rb
    }
}

/// The atomic refill-and-consume operation: refills the stored snapshot to
/// `now_ms` under the caller's rule parameters, then consumes `n` tokens if
/// at least `n` are present.  Returns whether the consume was admitted and
/// the post-operation snapshot that the store would persist.
pub fn atomic_refill_consume(
    existing: Option<TokenBucket>,
    n: u64,
    capacity: u64,
    refill_rate: u64,
    now_ms: u64,
) -> (r: (bool, TokenBucket))
    requires
        capacity <= MAX_CAPACITY,
        refill_rate <= MAX_REFILL_RATE,
    ensures
        r.0 == spec_atomic_admits(existing, n, capacity, refill_rate, now_ms),
        r.1 == spec_atomic_consume(existing, n, capacity, refill_rate, now_ms),
        r.1.wf(),
        r.1.capacity == capacity,
        r.1.refill_rate == refill_rate,
        r.1.last_refill == now_ms,
{
    let cap_micro: u64 = capacity * MICROS_PER_TOKEN;
    let mut bucket = match existing {
        Option::None => TokenBucket { capacity, tokens: cap_micro, refill_rate, last_refill: now_ms },
        Option::Some(b) => {
            let elapsed: u64 = if now_ms > b.last_refill {
                now_ms - b.last_refill
            } else {
                0
            };
            proof {
                assert((refill_rate as int) * (elapsed as int) <= MAX_REFILL_RATE * (
                u64::MAX as int)) by (nonlinear_arith)
                    requires
                        refill_rate <= MAX_REFILL_RATE,
                        elapsed <= u64::MAX,
                ;
            }
            let grown: u128 = (b.tokens as u128) + (refill_rate as u128) * (elapsed as u128);
            let tokens: u64 = if grown > (cap_micro as u128) {
                cap_micro
            } else {
                grown as u64
            };
            TokenBucket { capacity, tokens, refill_rate, last_refill: now_ms }
        },
    };
    proof {
        assert(bucket == spec_atomic_refill(existing, capacity, refill_rate, now_ms));
        if n > capacity {
            assert(n * MICROS_PER_TOKEN >= (capacity + 1) * MICROS_PER_TOKEN) by (nonlinear_arith)
                requires
                    n >= capacity + 1,
            ;
        }
    }
    if n <= capacity && n * MICROS_PER_TOKEN <= bucket.tokens {
        bucket.tokens = bucket.tokens - n * MICROS_PER_TOKEN;
        (true, bucket)
    } else {
        (false, bucket)
    }
}

/// How many operations of a sequence of single-token transactions are
/// admitted, starting from the given stored state (`None` when the key is
/// absent) and applying one transaction at each time in order.
pub open spec fn atomic_admitted_count(
    st: Option<TokenBucket>,
    times: Seq<u64>,
    capacity: u64,
    refill_rate: u64,
) -> int
    decreases times.len(),
{
    if times.len() == 0 {
        0
    } else {
        (if spec_atomic_admits(st, 1, capacity, refill_rate, times[0]) {
            1int
        } else {
            0int
        }) + atomic_admitted_count(
            Option::Some(spec_atomic_consume(st, 1, capacity, refill_rate, times[0])),
            times.drop_first(),
            capacity,
            refill_rate,
        )
    }
}

proof fn lemma_distributed_ceiling_rec(
    b: TokenBucket,
    times: Seq<u64>,
    capacity: u64,
    refill_rate: u64,
    lo: u64,
    hi: u64,
)
    requires
        capacity <= MAX_CAPACITY,
        b.tokens <= capacity * MICROS_PER_TOKEN,
        lo <= b.last_refill <= hi,
        forall|i: int| 0 <= i < times.len() ==> b.last_refill <= #[trigger] times[i] <= hi,
        forall|i: int, j: int| 0 <= i <= j < times.len() ==> times[i] <= times[j],
    ensures
        atomic_admitted_count(Option::Some(b), times, capacity, refill_rate) * MICROS_PER_TOKEN
            <= b.tokens + refill_rate * (hi - b.last_refill),
    decreases times.len(),
{
    if times.len() == 0 {
        assert(refill_rate * (hi - b.last_refill) >= 0) by (nonlinear_arith)
            requires
                refill_rate >= 0,
                hi - b.last_refill >= 0,
        ;
    } else {
        let t = times[0];
        let st = Option::Some(b);
        let b1 = spec_atomic_refill(st, capacity, refill_rate, t);
        let b2 = spec_atomic_consume(st, 1, capacity, refill_rate, t);
        assert(refill_rate * (t - b.last_refill) + refill_rate * (hi - t) == refill_rate * (hi
            - b.last_refill)) by (nonlinear_arith);
        if t == b.last_refill {
            assert(refill_rate * 0 == 0) by (nonlinear_arith);
        }
        assert(b1.tokens <= b.tokens + refill_rate * (t - b.last_refill));
        assert(forall|i: int|
            0 <= i < times.drop_first().len() ==> b2.last_refill <= #[trigger] times.drop_first()[i]
                <= hi);
        lemma_distributed_ceiling_rec(b2, times.drop_first(), capacity, refill_rate, lo, hi);
    }
}

/// Distributed admission ceiling: because the store serialises the
/// transactions on one key, the admissions observed by all replicas
/// together form a single sequence of [`atomic_refill_consume`] steps.
/// Starting from an absent key, any such sequence whose times are
/// non-decreasing and lie within an interval of `dt` milliseconds admits
/// at most `capacity + refill_rate * dt / 1_000_000` requests in total;
/// stated in micro-tokens, so the bound is exact.  The times must not run
/// backwards: the transaction stamps the bucket with the caller-supplied
/// clock, so an out-of-order timestamp would let a later call credit the
/// same interval twice.
pub proof fn lemma_distributed_admission_ceiling(
    times: Seq<u64>,
    capacity: u64,
    refill_rate: u64,
    lo: u64,
    dt: u64,
)
    requires
        capacity <= MAX_CAPACITY,
        lo + dt <= u64::MAX,
        forall|i: int| 0 <= i < times.len() ==> lo <= #[trigger] times[i] <= lo + dt,
        forall|i: int, j: int| 0 <= i <= j < times.len() ==> times[i] <= times[j],
    ensures
        atomic_admitted_count(Option::None, times, capacity, refill_rate) * MICROS_PER_TOKEN
            <= capacity * MICROS_PER_TOKEN + refill_rate * dt,
{
    if times.len() == 0 {
        assert(refill_rate * dt >= 0) by (nonlinear_arith)
            requires
                refill_rate >= 0,
                dt >= 0,
        ;
    } else {
        let t = times[0];
        let b2 = spec_atomic_consume(Option::None, 1, capacity, refill_rate, t);
        lemma_distributed_ceiling_rec(
            b2,
            times.drop_first(),
            capacity,
            refill_rate,
            lo,
            (lo + dt) as u64,
        );
        assert(refill_rate * (lo + dt - t) <= refill_rate * dt) by (nonlinear_arith)
            requires
                refill_rate >= 0,
                0 <= lo + dt - t,
                lo + dt - t <= dt,
        ;
    }
}

proof fn lemma_same_instant_burst_rec(
    b: TokenBucket,
    times: Seq<u64>,
    capacity: u64,
    refill_rate: u64,
    t0: u64,
)
    requires
        b.tokens <= capacity * MICROS_PER_TOKEN,
        b.last_refill == t0,
        forall|i: int| 0 <= i < times.len() ==> #[trigger] times[i] == t0,
    ensures
        atomic_admitted_count(Option::Some(b), times, capacity, refill_rate) == (
        if times.len() <= b.tokens / MICROS_PER_TOKEN {
            times.len() as int
        } else {
            b.tokens as int / MICROS_PER_TOKEN as int
        }),
    decreases times.len(),
{
    if times.len() > 0 {
        let st = Option::Some(b);
        let b1 = spec_atomic_refill(st, capacity, refill_rate, times[0]);
        assert(refill_rate * 0 == 0) by (nonlinear_arith);
        assert(b1 == TokenBucket {
            capacity,
            tokens: b.tokens,
            refill_rate,
            last_refill: t0,
        });
        let q = b.tokens as int / MICROS_PER_TOKEN as int;
        let r = b.tokens as int % MICROS_PER_TOKEN as int;
        vstd::arithmetic::div_mod::lemma_fundamental_div_mod(
            b.tokens as int,
            MICROS_PER_TOKEN as int,
        );
        if b.tokens >= MICROS_PER_TOKEN {
            let b2 = spec_atomic_consume(st, 1, capacity, refill_rate, times[0]);
            assert(b2.tokens == b.tokens - MICROS_PER_TOKEN);
            vstd::arithmetic::div_mod::lemma_fundamental_div_mod_converse(
                b.tokens - MICROS_PER_TOKEN,
                MICROS_PER_TOKEN as int,
                q - 1,
                r,
            );
            lemma_same_instant_burst_rec(b2, times.drop_first(), capacity, refill_rate, t0);
        } else {
            assert(q == 0) by {
                vstd::arithmetic::div_mod::lemma_fundamental_div_mod_converse(
                    b.tokens as int,
                    MICROS_PER_TOKEN as int,
                    0,
                    b.tokens as int,
                );
            }
            lemma_same_instant_burst_rec(b1, times.drop_first(), capacity, refill_rate, t0);
        }
    }
}

/// Exact burst budget: from an absent key, single-token transactions all
/// fired at one instant are admitted for exactly the first `capacity`
/// calls — the replicas together receive precisely the bucket's budget,
/// no more and no fewer, however the calls interleave.
pub proof fn lemma_distributed_exact_burst(
    times: Seq<u64>,
    capacity: u64,
    refill_rate: u64,
    t0: u64,
)
    requires
        capacity <= MAX_CAPACITY,
        forall|i: int| 0 <= i < times.len() ==> #[trigger] times[i] == t0,
    ensures
        atomic_admitted_count(Option::None, times, capacity, refill_rate) == (if times.len()
            <= capacity {
            times.len() as int
        } else {
            capacity as int
        }),
{
    if times.len() > 0 {
        let b0 = spec_atomic_refill(Option::None, capacity, refill_rate, times[0]);
        assert(b0.tokens == capacity * MICROS_PER_TOKEN);
        let b1 = spec_atomic_consume(Option::None, 1, capacity, refill_rate, times[0]);
        vstd::arithmetic::div_mod::lemma_fundamental_div_mod_converse(
            capacity * MICROS_PER_TOKEN,
            MICROS_PER_TOKEN as int,
            capacity as int,
            0,
        );
        if capacity >= 1 {
            assert(b1.tokens == capacity * MICROS_PER_TOKEN - MICROS_PER_TOKEN);
            vstd::arithmetic::div_mod::lemma_fundamental_div_mod_converse(
                capacity * MICROS_PER_TOKEN - MICROS_PER_TOKEN,
                MICROS_PER_TOKEN as int,
                capacity - 1,
                0,
            );
            lemma_same_instant_burst_rec(b1, times.drop_first(), capacity, refill_rate, t0);
        } else {
            lemma_same_instant_burst_rec(b1, times.drop_first(), capacity, refill_rate, t0);
        }
    }
}

/// The time-to-live, in whole seconds rounded up, for a stored bucket:
/// twice the rule's window, so orphaned buckets self-expire.
pub fn bucket_ttl_seconds(window_ms: u64) -> (ttl_s: u64)
    ensures
        ttl_s == (window_ms * 2 + 999) / 1000,
{
    let doubled: u128 = (window_ms as u128) * 2;
    ((doubled + 999) / 1000) as u64
}

/// The namespaced key under which a bucket is stored, so that several
/// services can share one store.
pub fn store_key(key: &str) -> (r: String)
    ensures
        r@ == "throttler:"@ + key@,
{
    let mut s = String::from_str("throttler:");
    s.append(key);
    s
}

} // verus!
