//! The token-bucket algorithm with time-based refill.
//!
//! A bucket holds a fractional token count; to stay exact without floating
//! point, tokens are stored in micro-tokens (one token is 1_000_000
//! micro-tokens) and the refill rate in milli-tokens per second.  Since one
//! milli-token per second is exactly one micro-token per millisecond, the
//! refill credit for an elapsed interval is `refill_rate * elapsed_ms`
//! micro-tokens, with no rounding drift.
//!
//! All operations take the current time as an argument, so the algorithm is
//! deterministic and can be driven by any clock.

use vstd::prelude::*;

verus! {

/// Micro-tokens per whole token.
pub const MICROS_PER_TOKEN: u64 = 1_000_000;

/// Ceiling for a bucket's capacity, in whole tokens.
pub const MAX_CAPACITY: u64 = 1_000_000_000;

/// Ceiling for a bucket's refill rate, in milli-tokens per second.
pub const MAX_REFILL_RATE: u64 = 1_000_000_000;

/// Elapsed time credited by a single refill is capped at one hour, so a
/// stale bucket cannot earn an unbounded catch-up credit.
pub const MAX_ELAPSED_MS: u64 = 3_600_000;

/// Waiting times reported by `time_until_tokens` are capped at 24 hours.
pub const MAX_WAIT_MS: u64 = 86_400_000;

/// Sentinel meaning "the requested tokens will never refill".
pub const WAIT_FOREVER_MS: u64 = u64::MAX;

/// A token bucket: capacity, current (fractional) tokens, refill rate and
/// the timestamp of the last refill.
#[derive(Clone, Copy, PartialEq, Eq, Structural, Debug)]
pub struct TokenBucket {
    /// Maximum number of whole tokens the bucket can hold.
    pub capacity: u64,
    /// Current token count, in micro-tokens.
    pub tokens: u64,
    /// Refill rate, in milli-tokens per second.
    pub refill_rate: u64,
    /// Timestamp of the last refill, in milliseconds.
    pub last_refill: u64,
}

impl TokenBucket {
    /// Well-formedness: bounded parameters, and the token count never
    /// exceeds the capacity.
    pub open spec fn wf(self) -> bool {
        &&& self.capacity <= MAX_CAPACITY
        &&& self.refill_rate <= MAX_REFILL_RATE
        &&& self.tokens <= self.capacity * MICROS_PER_TOKEN
    }

    /// Milliseconds credited by a refill at `now_ms`: clamped to zero when
    /// the clock moved backwards, and capped at one hour.
    pub open spec fn spec_elapsed(self, now_ms: u64) -> int {
        if now_ms <= self.last_refill {
            0
        } else if now_ms - self.last_refill > MAX_ELAPSED_MS {
            MAX_ELAPSED_MS as int
        } else {
            now_ms - self.last_refill
        }
    }

    /// The bucket after a refill at `now_ms`.  An elapsed time under one
    /// millisecond leaves the bucket untouched; otherwise the earned credit
    /// is added, the count is capped at capacity, and the refill timestamp
    /// advances to `now_ms`.
    pub open spec fn spec_refill(self, now_ms: u64) -> TokenBucket {
        let e = self.spec_elapsed(now_ms);
        if e == 0 {
            self
        } else {
            let cap_micro = self.capacity * MICROS_PER_TOKEN;
            let grown = self.tokens + self.refill_rate * e;
            TokenBucket {
                capacity: self.capacity,
                tokens: (if grown > cap_micro { cap_micro } else { grown }) as u64,
                refill_rate: self.refill_rate,
                last_refill: now_ms,
            }
        }
    }

    /// Whether a consume of `n` tokens at `now_ms` is admitted: after the
    /// refill, at least `n` whole tokens are present (inclusive compare).
    pub open spec fn spec_admits(self, n: u64, now_ms: u64) -> bool {
        self.spec_refill(now_ms).tokens >= n * MICROS_PER_TOKEN
    }

    /// The bucket after a consume of `n` tokens at `now_ms`: refilled, and
    /// debited by `n` tokens exactly when the consume is admitted.
    pub open spec fn spec_consume(self, n: u64, now_ms: u64) -> TokenBucket {
        let rb = self.spec_refill(now_ms);
        if self.spec_admits(n, now_ms) {
            TokenBucket { tokens: (rb.tokens - n * MICROS_PER_TOKEN) as u64, ..rb }
        } else {
            rb
        }
    }

    /// Time in milliseconds until `n` tokens are present, given the current
    /// state: zero when they already are; "forever" when the rate is zero;
    /// otherwise the ceiling of `deficit / rate`, capped at 24 hours.
    pub open spec fn spec_time_until(self, n: u64) -> u64 {
        let need = n * MICROS_PER_TOKEN;
        if self.tokens >= need {
            0
        } else if self.refill_rate == 0 {
            WAIT_FOREVER_MS
        } else {
            let deficit = need - self.tokens;
            let ms = (deficit + self.refill_rate - 1) / self.refill_rate as int;
            if ms > MAX_WAIT_MS { MAX_WAIT_MS } else { ms as u64 }
        }
    }

    /// Creates a bucket that starts full.
    pub fn new(capacity: u64, refill_rate: u64, now_ms: u64) -> (b: TokenBucket)
        requires
            capacity <= MAX_CAPACITY,
            refill_rate <= MAX_REFILL_RATE,
        ensures
            b.wf(),
            b.capacity == capacity,
            b.refill_rate == refill_rate,
            b.tokens == capacity * MICROS_PER_TOKEN,
            b.last_refill == now_ms,
    {
        TokenBucket {
            capacity,
            tokens: capacity * MICROS_PER_TOKEN,
            refill_rate,
            last_refill: now_ms,
        }
    }

    /// Refills the bucket for the time elapsed up to `now_ms`.
    pub fn refill(&mut self, now_ms: u64)
        requires
            old(self).wf(),
        ensures
            *final(self) == old(self).spec_refill(now_ms),
            final(self).wf(),
            final(self).last_refill >= old(self).last_refill,
            final(self).tokens >= old(self).tokens,
    {
        let elapsed_raw: u64 = if now_ms > self.last_refill {
            now_ms - self.last_refill
        } else {
            0
        };
        let elapsed: u64 = if elapsed_raw > MAX_ELAPSED_MS {
            MAX_ELAPSED_MS
        } else {
            elapsed_raw
        };
        if elapsed >= 1 {
            assert(self.refill_rate * elapsed <= MAX_REFILL_RATE * MAX_ELAPSED_MS)
                by (nonlinear_arith)
                requires
                    self.refill_rate <= MAX_REFILL_RATE,
                    elapsed <= MAX_ELAPSED_MS,
            ;
            let added: u64 = self.refill_rate * elapsed;
            let cap_micro: u64 = self.capacity * MICROS_PER_TOKEN;
            let grown: u64 = self.tokens + added;
            self.tokens = if grown > cap_micro { cap_micro } else { grown };
            self.last_refill = now_ms;
        }
    }

    /// Attempts to consume `tokens` whole tokens at `now_ms`, refilling
    /// first.  On exact equality the request is admitted.
    pub fn try_consume(&mut self, tokens: u64, now_ms: u64) -> (admitted: bool)
        requires
            old(self).wf(),
        ensures
            admitted == old(self).spec_admits(tokens, now_ms),
            *final(self) == old(self).spec_consume(tokens, now_ms),
            final(self).wf(),
            final(self).last_refill >= old(self).last_refill,
    {
        self.refill(now_ms);
        if tokens <= self.capacity && tokens * MICROS_PER_TOKEN <= self.tokens {
            self.tokens = self.tokens - tokens * MICROS_PER_TOKEN;
            true
        } else {
            false
        }
    }

    /// The number of whole tokens currently available (fractional part not
    /// counted).  Does not consume and does not refill.
    pub fn available_tokens(&self) -> (r: u64)
        ensures
            r == self.tokens / MICROS_PER_TOKEN,
    {
        self.tokens / MICROS_PER_TOKEN
    }

    /// Refills, then reports how long until `tokens` whole tokens are
    /// available: zero if they already are, `WAIT_FOREVER_MS` if the rate is
    /// zero, else the deficit divided by the rate (rounded up), capped at
    /// 24 hours.
    pub fn time_until_tokens(&mut self, tokens: u64, now_ms: u64) -> (wait_ms: u64)
        requires
            old(self).wf(),
        ensures
            *final(self) == old(self).spec_refill(now_ms),
            final(self).wf(),
            wait_ms == final(self).spec_time_until(tokens),
    {
        self.refill(now_ms);
        let enough = tokens <= self.capacity && tokens * MICROS_PER_TOKEN <= self.tokens;
        proof {
            if tokens > self.capacity {
                assert(tokens * MICROS_PER_TOKEN >= (self.capacity + 1) * MICROS_PER_TOKEN)
                    by (nonlinear_arith)
                    requires
                        tokens >= self.capacity + 1,
                ;
            }
            assert(enough == (self.tokens >= tokens * MICROS_PER_TOKEN));
        }
        if enough {
            0
        } else if self.refill_rate == 0 {
            WAIT_FOREVER_MS
        } else {
            let need: u128 = (tokens as u128) * (MICROS_PER_TOKEN as u128);
            let deficit: u128 = need - (self.tokens as u128);
            let rate: u128 = self.refill_rate as u128;
            proof {
                vstd::arithmetic::mul::lemma_mul_inequality(
                    tokens as int,
                    u64::MAX as int,
                    MICROS_PER_TOKEN as int,
                );
                assert(rate >= 1);
            }
            let ms: u128 = (deficit + rate - 1) / rate;
            if ms > (MAX_WAIT_MS as u128) {
                MAX_WAIT_MS
            } else {
                ms as u64
            }
        }
    }

    /// Resets the bucket to full capacity.
    pub fn reset(&mut self, now_ms: u64)
        requires
            old(self).wf(),
        ensures
            final(self).wf(),
            final(self).capacity == old(self).capacity,
            final(self).refill_rate == old(self).refill_rate,
            final(self).tokens == old(self).capacity * MICROS_PER_TOKEN,
            final(self).last_refill == now_ms,
    {
        self.tokens = self.capacity * MICROS_PER_TOKEN;
        self.last_refill = now_ms;
    }

    /// Whether fewer than one whole token is present.
    pub fn is_empty(&self) -> (r: bool)
        ensures
            r == (self.tokens < MICROS_PER_TOKEN),
    {
        self.tokens < MICROS_PER_TOKEN
    }
}

/// The bucket left after a sequence of single-token consumes, one at each
/// of the given times.
pub open spec fn consume_seq(b: TokenBucket, times: Seq<u64>) -> TokenBucket
    decreases times.len(),
{
    if times.len() == 0 {
        b
    } else {
        consume_seq(b.spec_consume(1, times[0]), times.drop_first())
    }
}

/// How many of a sequence of single-token consumes are admitted.
pub open spec fn admitted_count(b: TokenBucket, times: Seq<u64>) -> int
    decreases times.len(),
{
    if times.len() == 0 {
        0
    } else {
        (if b.spec_admits(1, times[0]) {
            1int
        } else {
            0int
        }) + admitted_count(b.spec_consume(1, times[0]), times.drop_first())
    }
}

proof fn lemma_refill_credit_bound(b: TokenBucket, t: u64)
    requires
        b.wf(),
    ensures
        b.spec_refill(t).wf(),
        b.spec_refill(t).capacity == b.capacity,
        b.spec_refill(t).refill_rate == b.refill_rate,
        b.spec_refill(t).last_refill == if b.spec_elapsed(t) == 0 {
            b.last_refill as int
        } else {
            t as int
        },
        b.spec_refill(t).tokens <= b.tokens + b.refill_rate * (b.spec_refill(t).last_refill
            - b.last_refill),
{
    let e = b.spec_elapsed(t);
    if e != 0 {
        assert(e <= t - b.last_refill);
        assert(b.refill_rate * e <= b.refill_rate * (t - b.last_refill)) by (nonlinear_arith)
            requires
                0 <= e <= t - b.last_refill,
                b.refill_rate >= 0,
        ;
    } else {
        assert(b.refill_rate * 0 == 0) by (nonlinear_arith);
    }
}

pub(crate) proof fn lemma_admission_ceiling_rec(b: TokenBucket, times: Seq<u64>, lo: u64, hi: u64)
    requires
        b.wf(),
        lo <= b.last_refill <= hi,
        forall|i: int| 0 <= i < times.len() ==> lo <= #[trigger] times[i] <= hi,
    ensures
        admitted_count(b, times) * MICROS_PER_TOKEN <= b.tokens + b.refill_rate * (hi
            - b.last_refill),
    decreases times.len(),
{
    if times.len() == 0 {
        assert(b.refill_rate * (hi - b.last_refill) >= 0) by (nonlinear_arith)
            requires
                b.refill_rate >= 0,
                hi - b.last_refill >= 0,
        ;
    } else {
        let t = times[0];
        let b1 = b.spec_refill(t);
        let b2 = b.spec_consume(1, t);
        lemma_refill_credit_bound(b, t);
        lemma_admission_ceiling_rec(b2, times.drop_first(), lo, hi);
        let adm: int = if b.spec_admits(1, t) {
            1
        } else {
            0
        };
        assert(admitted_count(b, times) == adm + admitted_count(b2, times.drop_first()));
        assert(b2.tokens + adm * MICROS_PER_TOKEN == b1.tokens);
        assert(b.refill_rate * (t - b.last_refill) + b.refill_rate * (hi - t) == b.refill_rate * (
        hi - b.last_refill)) by (nonlinear_arith);
    }
}

/// Burst-plus-refill ceiling: starting from a full bucket, a sequence of
/// single-token consumes whose times all lie within `dt` milliseconds of
/// the bucket's starting timestamp admits at most
/// `capacity + refill_rate * dt / 1_000_000` requests; stated here in
/// micro-tokens, so the bound is exact.
pub proof fn lemma_admission_ceiling(b: TokenBucket, times: Seq<u64>, dt: u64)
    requires
        b.wf(),
        b.tokens == b.capacity * MICROS_PER_TOKEN,
        b.last_refill + dt <= u64::MAX,
        forall|i: int|
            0 <= i < times.len() ==> b.last_refill <= #[trigger] times[i] <= b.last_refill + dt,
    ensures
        admitted_count(b, times) * MICROS_PER_TOKEN <= b.capacity * MICROS_PER_TOKEN
            + b.refill_rate * dt,
{
    lemma_admission_ceiling_rec(b, times, b.last_refill, (b.last_refill + dt) as u64);
}

proof fn lemma_refill_tokens_monotone_in_time(b: TokenBucket, t1: u64, t2: u64)
    requires
        b.wf(),
        t1 <= t2,
    ensures
        b.spec_refill(t1).tokens <= b.spec_refill(t2).tokens,
{
    let e1 = b.spec_elapsed(t1);
    let e2 = b.spec_elapsed(t2);
    assert(e1 <= e2);
    if e2 != 0 {
        assert(b.refill_rate * e1 <= b.refill_rate * e2) by (nonlinear_arith)
            requires
                0 <= e1 <= e2,
                b.refill_rate >= 0,
        ;
        assert(b.refill_rate * 0 == 0) by (nonlinear_arith);
    }
}

/// With no consumption, the reported waiting time never grows as real time
/// advances: refilling at a later instant can only shorten the wait for a
/// given number of tokens.
pub proof fn lemma_time_until_non_increasing(b: TokenBucket, n: u64, t1: u64, t2: u64)
    requires
        b.wf(),
        t1 <= t2,
    ensures
        b.spec_refill(t2).spec_time_until(n) <= b.spec_refill(t1).spec_time_until(n),
{
    lemma_refill_tokens_monotone_in_time(b, t1, t2);
    let b1 = b.spec_refill(t1);
    let b2 = b.spec_refill(t2);
    let need = n * MICROS_PER_TOKEN;
    if b2.tokens < need && b.refill_rate != 0 {
        assert(b1.tokens < need);
        let d1 = need - b1.tokens;
        let d2 = need - b2.tokens;
        vstd::arithmetic::div_mod::lemma_div_is_ordered(
            d2 + b.refill_rate - 1,
            d1 + b.refill_rate - 1,
            b.refill_rate as int,
        );
    }
}

/// A bucket whose refill rate is zero never earns tokens: once it cannot
/// admit `n` tokens, every later attempt is denied with the same state, and
/// the reported wait is "forever".
pub proof fn lemma_zero_rate_starves(b: TokenBucket, n: u64, now_ms: u64)
    requires
        b.wf(),
        b.refill_rate == 0,
        b.tokens < n * MICROS_PER_TOKEN,
    ensures
        !b.spec_admits(n, now_ms),
        b.spec_consume(n, now_ms).tokens == b.tokens,
        b.spec_consume(n, now_ms).spec_time_until(n) == WAIT_FOREVER_MS,
{
    assert(b.refill_rate * b.spec_elapsed(now_ms) == 0) by (nonlinear_arith)
        requires
            b.refill_rate == 0,
    ;
}

/// After an idle hour the bucket is full again, provided an hour of refill
/// covers the deficit; the capacity still applies, so it holds exactly
/// `capacity` tokens, not more.
pub proof fn lemma_idle_hour_fills(b: TokenBucket, now_ms: u64)
    requires
        b.wf(),
        now_ms >= b.last_refill + MAX_ELAPSED_MS,
        b.tokens + b.refill_rate * MAX_ELAPSED_MS >= b.capacity * MICROS_PER_TOKEN,
    ensures
        b.spec_refill(now_ms).tokens == b.capacity * MICROS_PER_TOKEN,
{
    assert(b.spec_elapsed(now_ms) == MAX_ELAPSED_MS);
}

/// The bucket's invariants survive every operation: the token count
/// stays between zero and the capacity, and the refill timestamp never
/// decreases.
pub proof fn lemma_consume_preserves_invariants(b: TokenBucket, n: u64, now_ms: u64)
    requires
        b.wf(),
    ensures
        b.spec_consume(n, now_ms).wf(),
        b.spec_consume(n, now_ms).tokens <= b.capacity * MICROS_PER_TOKEN,
        b.spec_consume(n, now_ms).last_refill >= b.last_refill,
{
}

/// Clock reversal is harmless: when `now_ms` is not past the last refill,
/// the elapsed time clamps to zero and the bucket is left untouched.
pub proof fn lemma_clock_reversal_no_refill(b: TokenBucket, now_ms: u64)
    requires
        b.wf(),
        now_ms <= b.last_refill,
    ensures
        b.spec_elapsed(now_ms) == 0,
        b.spec_refill(now_ms) == b,
{
}

} // verus!
