//! The in-process bucket registry and local consume path.
//!
//! Each key owns one token bucket, created full on first use with the
//! caller's parameters.  When a rule changes, the stored parameters are
//! rewritten on the next admission and the count is clamped down to the
//! new capacity.  Idle, full buckets are evicted by a periodic sweep.

use vstd::prelude::*;

use crate::clock;
use crate::config::Config;
use crate::error::ThrottlerError;
use crate::kvlist::{kv_get, kv_remove, kv_set, lemma_find_absent, lemma_find_entry_unique,
    lemma_find_from_entry, lemma_find_push, spec_find, unique_keys};
use crate::token_bucket::{TokenBucket, MAX_CAPACITY, MAX_REFILL_RATE, MICROS_PER_TOKEN};

verus! {

/// The bucket an admission works on: the stored one with its parameters
/// rewritten to the rule's current values (count clamped to the new
/// capacity), or a fresh full bucket when the key is absent.
pub open spec fn spec_entry_bucket(
    existing: Option<TokenBucket>,
    capacity: u64,
    refill_rate: u64,
    now_ms: u64,
) -> TokenBucket {
    match existing {
        Option::None => TokenBucket {
            capacity,
            tokens: (capacity * MICROS_PER_TOKEN) as u64,
            refill_rate,
            last_refill: now_ms,
        },
        Option::Some(b) => {
            if b.capacity == capacity && b.refill_rate == refill_rate {
                b
            } else {
                TokenBucket {
                    capacity,
                    tokens: (if b.tokens > capacity * MICROS_PER_TOKEN {
                        (capacity * MICROS_PER_TOKEN) as u64
                    } else {
                        b.tokens
                    }) as u64,
                    refill_rate,
                    last_refill: b.last_refill,
                }
            }
        },
    }
}

/// A bucket survives the sweep unless it has been idle longer than the
/// caller's horizon while sitting full.
pub open spec fn spec_expired(b: TokenBucket, now_ms: u64, max_age_ms: u64) -> bool {
    &&& now_ms > b.last_refill
    &&& now_ms - b.last_refill > max_age_ms
    &&& b.tokens == b.capacity * MICROS_PER_TOKEN
}

/// What one key's bucket looks like after a sweep: untouched while it is
/// live, gone once it expired.
pub open spec fn spec_swept(
    buckets: Seq<(String, TokenBucket)>,
    k: Seq<char>,
    now_ms: u64,
    max_age_ms: u64,
) -> Option<TokenBucket> {
    match spec_find(buckets, k) {
        Option::Some(b) => if spec_expired(b, now_ms, max_age_ms) {
            Option::None
        } else {
            Option::Some(b)
        },
        Option::None => Option::None,
    }
}

/// The process-local rate-limiting engine: per-key buckets with default
/// parameters from the configuration.
pub struct RateLimiter {
    /// Default bucket capacity, in whole tokens.
    pub default_capacity: u64,
    /// Default refill rate, in milli-tokens per second.
    pub default_refill_rate: u64,
    /// Whether a shared store is configured; admission still runs locally
    /// here, and the store path is driven by the caller.
    pub redis_enabled: bool,
    /// The per-key buckets; keys are unique.
    pub local_buckets: Vec<(String, TokenBucket)>,
}

impl RateLimiter {
    /// Registry well-formedness: unique keys, well-formed buckets, default
    /// parameters within the library's ceilings.
    pub open spec fn wf(self) -> bool {
        &&& unique_keys(self.local_buckets@)
        &&& forall|k: Seq<char>|
            (#[trigger] spec_find(self.local_buckets@, k)) matches Option::Some(b) ==> b.wf()
        &&& 1 <= self.default_capacity <= MAX_CAPACITY
        &&& self.default_refill_rate <= MAX_REFILL_RATE
    }

    /// The bucket currently stored for a key.
    pub open spec fn spec_bucket(self, k: Seq<char>) -> Option<TokenBucket> {
        spec_find(self.local_buckets@, k)
    }

    /// The state change and result of one single-token admission at `t`.
    pub open spec fn spec_check_post(
        pre: RateLimiter,
        post: RateLimiter,
        k: Seq<char>,
        t: u64,
        r: (bool, u64),
    ) -> bool {
        let entry = spec_entry_bucket(
            pre.spec_bucket(k),
            pre.default_capacity,
            pre.default_refill_rate,
            t,
        );
        let after = entry.spec_consume(1, t);
        &&& r.0 == entry.spec_admits(1, t)
        &&& r.1 == after.tokens / MICROS_PER_TOKEN
        &&& post.spec_bucket(k) == Option::Some(after)
        &&& forall|k2: Seq<char>| k2 != k ==> post.spec_bucket(k2) == pre.spec_bucket(k2)
        &&& post.default_capacity == pre.default_capacity
        &&& post.default_refill_rate == pre.default_refill_rate
        &&& post.redis_enabled == pre.redis_enabled
    }

    /// Builds a limiter from the configuration; rejects defaults beyond
    /// the library's ceilings.  The refill rate is converted from whole
    /// tokens per second to milli-tokens per second.
    pub fn new(config: &Config) -> (r: Result<RateLimiter, ThrottlerError>)
        ensures
            match r {
                Ok(l) => {
                    &&& 1 <= config.default_capacity <= MAX_CAPACITY
                    &&& config.default_refill_rate * 1000 <= MAX_REFILL_RATE
                    &&& l.wf()
                    &&& l.default_capacity == config.default_capacity
                    &&& l.default_refill_rate == config.default_refill_rate * 1000
                    &&& l.redis_enabled == (config.redis_url@.len() > 0)
                    &&& l.local_buckets@.len() == 0
                },
                Err(e) => {
                    &&& e is ConfigError
                    &&& !(1 <= config.default_capacity <= MAX_CAPACITY
                        && config.default_refill_rate * 1000 <= MAX_REFILL_RATE)
                },
            },
    {
        if config.default_capacity == 0 || config.default_capacity > MAX_CAPACITY {
            return Err(
                ThrottlerError::ConfigError(
                    String::from_str("Default capacity is outside the supported range"),
                ),
            );
        }
        if config.default_refill_rate > MAX_REFILL_RATE / 1000 {
            return Err(
                ThrottlerError::ConfigError(
                    String::from_str("Default refill rate exceeds the supported maximum"),
                ),
            );
        }
        Ok(
            RateLimiter {
                default_capacity: config.default_capacity,
                default_refill_rate: config.default_refill_rate * 1000,
                redis_enabled: !config.redis_url.as_str().is_empty(),
                local_buckets: Vec::new(),
            },
        )
    }

    /// Looks up or creates the key's bucket, rewrites its parameters to
    /// the given ones, consumes `tokens` at `now_ms`, and stores the
    /// result.  Returns whether the consume was admitted and the bucket
    /// that was stored back.
    pub fn consume_with_params(
        &mut self,
        key: &str,
        capacity: u64,
        refill_rate: u64,
        tokens: u64,
        now_ms: u64,
    ) -> (r: (bool, TokenBucket))
        requires
            old(self).wf(),
            1 <= capacity <= MAX_CAPACITY,
            refill_rate <= MAX_REFILL_RATE,
        ensures
            final(self).wf(),
            ({
                let entry = spec_entry_bucket(
                    old(self).spec_bucket(key@),
                    capacity,
                    refill_rate,
                    now_ms,
                );
                &&& r.0 == entry.spec_admits(tokens, now_ms)
                &&& r.1 == entry.spec_consume(tokens, now_ms)
                &&& r.1.wf()
                &&& final(self).spec_bucket(key@) == Option::Some(r.1)
            }),
            forall|k2: Seq<char>|
                k2 != key@ ==> final(self).spec_bucket(k2) == old(self).spec_bucket(k2),
            final(self).default_capacity == old(self).default_capacity,
            final(self).default_refill_rate == old(self).default_refill_rate,
            final(self).redis_enabled == old(self).redis_enabled,
    {
        let cap_micro: u64 = capacity * MICROS_PER_TOKEN;
        let mut bucket: TokenBucket = match kv_get(&self.local_buckets, key) {
            Some(b) => {
                if b.capacity == capacity && b.refill_rate == refill_rate {
                    *b
                } else {
                    TokenBucket {
                        capacity,
                        tokens: if b.tokens > cap_micro {
                            cap_micro
                        } else {
                            b.tokens
                        },
                        refill_rate,
                        last_refill: b.last_refill,
                    }
                }
            },
            None => TokenBucket::new(capacity, refill_rate, now_ms),
        };
        let admitted = bucket.try_consume(tokens, now_ms);
        kv_set(&mut self.local_buckets, String::from_str(key), bucket);
        (admitted, bucket)
    }

    /// One single-token admission for `key` at `now_ms` under explicit
    /// bucket parameters: the admission verdict and the whole tokens
    /// remaining.
    pub fn check_rate_limit_with_params(
        &mut self,
        key: &str,
        capacity: u64,
        refill_rate: u64,
        now_ms: u64,
    ) -> (r: Result<(bool, u64), ThrottlerError>)
        requires
            old(self).wf(),
            1 <= capacity <= MAX_CAPACITY,
            refill_rate <= MAX_REFILL_RATE,
        ensures
            final(self).wf(),
            ({
                let entry = spec_entry_bucket(
                    old(self).spec_bucket(key@),
                    capacity,
                    refill_rate,
                    now_ms,
                );
                let after = entry.spec_consume(1, now_ms);
                &&& r matches Ok(v)
                &&& r->Ok_0.0 == entry.spec_admits(1, now_ms)
                &&& r->Ok_0.1 == after.tokens / MICROS_PER_TOKEN
                &&& final(self).spec_bucket(key@) == Option::Some(after)
            }),
            forall|k2: Seq<char>|
                k2 != key@ ==> final(self).spec_bucket(k2) == old(self).spec_bucket(k2),
            final(self).default_capacity == old(self).default_capacity,
            final(self).default_refill_rate == old(self).default_refill_rate,
            final(self).redis_enabled == old(self).redis_enabled,
    {
        let (admitted, bucket) = self.consume_with_params(key, capacity, refill_rate, 1, now_ms);
        Ok((admitted, bucket.available_tokens()))
    }

    /// One single-token admission for `key` at `now_ms` under the default
    /// parameters: the admission verdict and the whole tokens remaining.
    pub fn check_rate_limit_at(&mut self, key: &str, now_ms: u64) -> (r: Result<
        (bool, u64),
        ThrottlerError,
    >)
        requires
            old(self).wf(),
        ensures
            final(self).wf(),
            r matches Ok(v) && RateLimiter::spec_check_post(*old(self), *final(self), key@, now_ms, v),
    {
        let capacity = self.default_capacity;
        let refill_rate = self.default_refill_rate;
        self.check_rate_limit_with_params(key, capacity, refill_rate, now_ms)
    }

    /// One single-token admission for `key` under the default parameters,
    /// read against the wall clock.
    pub fn check_rate_limit(&mut self, key: &str) -> (r: Result<(bool, u64), ThrottlerError>)
        requires
            old(self).wf(),
        ensures
            final(self).wf(),
            r is Ok,
            exists|t: u64|
                #[trigger] RateLimiter::spec_check_post(
                    *old(self),
                    *final(self),
                    key@,
                    t,
                    r->Ok_0,
                ),
    {
        let now_ms = clock::now_ms();
        let r = self.check_rate_limit_at(key, now_ms);
        proof {
            let v = r->Ok_0;
            assert(RateLimiter::spec_check_post(*old(self), *self, key@, now_ms, v));
        }
        r
    }

    /// The bucket stored for a key, if any.
    pub fn get_bucket(&self, key: &str) -> (r: Option<&TokenBucket>)
        ensures
            match r {
                Option::Some(b) => self.spec_bucket(key@) == Option::Some(*b),
                Option::None => self.spec_bucket(key@) is None,
            },
    {
        kv_get(&self.local_buckets, key)
    }

    /// The whole tokens stored for a key, without refill or consumption;
    /// an absent key reports the default capacity.
    pub fn get_remaining_tokens(&self, key: &str) -> (r: Result<u64, ThrottlerError>)
        ensures
            r matches Ok(n) && n == match self.spec_bucket(key@) {
                Option::Some(b) => b.tokens as int / MICROS_PER_TOKEN as int,
                Option::None => self.default_capacity as int,
            },
    {
        match kv_get(&self.local_buckets, key) {
            Some(b) => Ok(b.available_tokens()),
            None => Ok(self.default_capacity),
        }
    }

    /// Deletes the key's bucket; the next admission recreates it full.
    pub fn reset(&mut self, key: &str) -> (r: Result<(), ThrottlerError>)
        requires
            old(self).wf(),
        ensures
            final(self).wf(),
            r is Ok,
            final(self).spec_bucket(key@) is None,
            forall|k2: Seq<char>|
                k2 != key@ ==> final(self).spec_bucket(k2) == old(self).spec_bucket(k2),
            final(self).default_capacity == old(self).default_capacity,
            final(self).default_refill_rate == old(self).default_refill_rate,
            final(self).redis_enabled == old(self).redis_enabled,
    {
        let _ = kv_remove(&mut self.local_buckets, key);
        Ok(())
    }

    /// Sweeps the registry, dropping every bucket that has sat full and
    /// untouched for longer than `max_age_ms`; returns how many were
    /// dropped.  A concurrent admission simply recreates its bucket.
    pub fn cleanup_expired_buckets(&mut self, max_age_ms: u64, now_ms: u64) -> (r: Result<
        usize,
        ThrottlerError,
    >)
        requires
            old(self).wf(),
        ensures
            final(self).wf(),
            forall|k: Seq<char>|
                final(self).spec_bucket(k) == spec_swept(
                    old(self).local_buckets@,
                    k,
                    now_ms,
                    max_age_ms,
                ),
            r matches Ok(n) && n == old(self).local_buckets@.len()
                - final(self).local_buckets@.len(),
            final(self).default_capacity == old(self).default_capacity,
            final(self).default_refill_rate == old(self).default_refill_rate,
            final(self).redis_enabled == old(self).redis_enabled,
    {
        let ghost s = self.local_buckets@;
        let n = self.local_buckets.len();
        let mut kept: Vec<(String, TokenBucket)> = Vec::new();
        let mut i: usize = 0;
        proof {
            assert(s.subrange(0, 0) =~= Seq::<(String, TokenBucket)>::empty());
        }
        while i < n
            invariant
                0 <= i <= n,
                n == s.len(),
                self.local_buckets@ == s,
                unique_keys(s),
                forall|k: Seq<char>|
                    (#[trigger] spec_find(s, k)) matches Option::Some(b) ==> b.wf(),
                unique_keys(kept@),
                kept@.len() <= i,
                forall|k: Seq<char>|
                    #[trigger] spec_find(kept@, k) == spec_swept(
                        s.subrange(0, i as int),
                        k,
                        now_ms,
                        max_age_ms,
                    ),
            decreases n - i,
        {
            let ghost prefix = s.subrange(0, i as int);
            let entry_key: String = self.local_buckets[i].0.clone();
            let b: TokenBucket = self.local_buckets[i].1;
            let ghost e = s[i as int];
            proof {
                assert(e.0@ == entry_key@ && e.1 == b);
                assert(s.subrange(0, i + 1) =~= prefix.push(e));
                assert forall|j: int| 0 <= j < prefix.len() implies (#[trigger] prefix[j].0@)
                    != e.0@ by {
                    assert(prefix[j] == s[j]);
                }
                lemma_find_absent(prefix, e.0@);
                assert(spec_find(kept@, e.0@) is None);
                lemma_find_entry_unique(s, i as int);
                assert(b.wf());
            }
            let expired = now_ms > b.last_refill && now_ms - b.last_refill > max_age_ms
                && b.tokens == b.capacity * MICROS_PER_TOKEN;
            if !expired {
                let ghost kpre = kept@;
                kept.push((entry_key, b));
                proof {
                    let ke = (entry_key, b);
                    assert(kept@ == kpre.push(ke));
                    assert forall|a: int, c: int| 0 <= a < c < kpre.push(ke).len() implies kpre.push(
                        ke,
                    )[a].0@ != kpre.push(ke)[c].0@ by {
                        if c < kpre.len() {
                            assert(kpre.push(ke)[a] == kpre[a] && kpre.push(ke)[c] == kpre[c]);
                        } else {
                            assert(kpre.push(ke)[a] == kpre[a] && kpre.push(ke)[c] == ke);
                            if kpre[a].0@ == ke.0@ {
                                lemma_find_from_entry(kpre, a);
                            }
                        }
                    }
                    assert forall|k: Seq<char>| true implies #[trigger] spec_find(kept@, k)
                        == spec_swept(s.subrange(0, i + 1), k, now_ms, max_age_ms) by {
                        lemma_find_push(kpre, ke, k);
                        lemma_find_push(prefix, e, k);
                    }
                }
            } else {
                proof {
                    assert forall|k: Seq<char>| true implies #[trigger] spec_find(kept@, k)
                        == spec_swept(s.subrange(0, i + 1), k, now_ms, max_age_ms) by {
                        lemma_find_push(prefix, e, k);
                    }
                }
            }
            i = i + 1;
        }
        proof {
            assert(s.subrange(0, n as int) =~= s);
        }
        let cleaned = n - kept.len();
        self.local_buckets = kept;
        Ok(cleaned)
    }

    /// How many of a sequence of single-token admissions on one key are
    /// admitted, starting from the given stored bucket (`None` when the
    /// key is absent) under constant rule parameters, one admission at
    /// each time in order.
    pub open spec fn local_admitted_count(
        st: Option<TokenBucket>,
        times: Seq<u64>,
        capacity: u64,
        refill_rate: u64,
    ) -> int
        decreases times.len(),
    {
        if times.len() == 0 {
            0
        } else {
            let entry = spec_entry_bucket(st, capacity, refill_rate, times[0]);
            (if entry.spec_admits(1, times[0]) {
                1int
            } else {
                0int
            }) + RateLimiter::local_admitted_count(
                Option::Some(entry.spec_consume(1, times[0])),
                times.drop_first(),
                capacity,
                refill_rate,
            )
        }
    }

    /// Registry statistics: the number of live local buckets and whether a
    /// shared store is configured.
    pub fn get_stats(&self) -> (r: Result<Vec<(String, u64)>, ThrottlerError>)
        ensures
            r matches Ok(stats) && {
                &&& stats@.len() == 2
                &&& stats@[0].0@ == "local_buckets"@
                &&& stats@[0].1 == self.local_buckets@.len()
                &&& stats@[1].0@ == "redis_enabled"@
                &&& stats@[1].1 == (if self.redis_enabled {
                    1int
                } else {
                    0int
                })
            },
    {
        let mut stats: Vec<(String, u64)> = Vec::new();
        stats.push((String::from_str("local_buckets"), self.local_buckets.len() as u64));
        stats.push((String::from_str("redis_enabled"), if self.redis_enabled {
            1
        } else {
            0
        }));
        Ok(stats)
    }
}


proof fn lemma_local_count_matches_bucket(
    b: TokenBucket,
    times: Seq<u64>,
    capacity: u64,
    refill_rate: u64,
)
    requires
        b.wf(),
        b.capacity == capacity,
        b.refill_rate == refill_rate,
    ensures
        RateLimiter::local_admitted_count(Option::Some(b), times, capacity, refill_rate)
            == crate::token_bucket::admitted_count(b, times),
    decreases times.len(),
{
    if times.len() > 0 {
        let b2 = b.spec_consume(1, times[0]);
        lemma_local_count_matches_bucket(b2, times.drop_first(), capacity, refill_rate);
    }
}

/// Burst-plus-refill ceiling at the registry: starting with no bucket for
/// a key, any sequence of single-token admissions under constant rule
/// parameters whose times lie within an interval of `dt` milliseconds
/// admits at most `capacity + refill_rate * dt / 1_000_000` requests;
/// stated in micro-tokens, so the bound is exact.
pub proof fn lemma_local_admission_ceiling(
    times: Seq<u64>,
    capacity: u64,
    refill_rate: u64,
    lo: u64,
    dt: u64,
)
    requires
        1 <= capacity <= MAX_CAPACITY,
        refill_rate <= MAX_REFILL_RATE,
        lo + dt <= u64::MAX,
        forall|i: int| 0 <= i < times.len() ==> lo <= #[trigger] times[i] <= lo + dt,
    ensures
        RateLimiter::local_admitted_count(Option::None, times, capacity, refill_rate)
            * MICROS_PER_TOKEN <= capacity * MICROS_PER_TOKEN + refill_rate * dt,
{
    if times.len() == 0 {
        assert(refill_rate * dt >= 0) by (nonlinear_arith)
            requires
                refill_rate >= 0,
                dt >= 0,
        ;
    } else {
        let t = times[0];
        let hi: u64 = (lo + dt) as u64;
        let entry = spec_entry_bucket(Option::None, capacity, refill_rate, t);
        assert(entry.spec_refill(t) == entry);
        assert(entry.spec_admits(1, t));
        let b1 = entry.spec_consume(1, t);
        assert(b1.tokens == capacity * MICROS_PER_TOKEN - MICROS_PER_TOKEN);
        assert(b1.last_refill == t);
        lemma_local_count_matches_bucket(b1, times.drop_first(), capacity, refill_rate);
        crate::token_bucket::lemma_admission_ceiling_rec(b1, times.drop_first(), lo, hi);
        assert(refill_rate * (hi - t) <= refill_rate * dt) by (nonlinear_arith)
            requires
                refill_rate >= 0,
                0 <= hi - t,
                hi - t <= dt,
        ;
    }
}

} // verus!
