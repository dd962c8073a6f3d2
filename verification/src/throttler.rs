//! The admission engine: key validation, rule resolution, the consume
//! step, and construction of the admission outcome.
//!
//! The pipeline for one decision is: validate the key, resolve its rule
//! (a disabled rule admits immediately without accounting), consume from
//! the local registry — or, in distributed mode, hand the caller the rule,
//! let it run the store-side transaction, and finish the pipeline from the
//! transaction's result, applying the fallback policy when the store is
//! unreachable.

use vstd::prelude::*;

use crate::clock;
use crate::config::Config;
use crate::error::ThrottlerError;
use crate::rate_limit_config::{RateLimitConfig, RateLimitRule};
use crate::rate_limiter::{spec_entry_bucket, RateLimiter};
use crate::token_bucket::{TokenBucket, MAX_CAPACITY, MAX_REFILL_RATE, MICROS_PER_TOKEN};
use crate::validation::{spec_valid_key, RequestValidator};

verus! {

/// What to do when the shared store is unreachable: deny (the strict
/// default), or fall back to the local registry with the outcome marked
/// degraded.
#[derive(Clone, Copy, PartialEq, Eq, Structural, Debug)]
pub enum FallbackPolicy {
    Closed,
    OpenLocal,
}

/// One admission decision.
#[derive(Clone, Copy, PartialEq, Eq, Structural, Debug)]
pub struct AdmissionOutcome {
    /// Whether the request is admitted.
    pub allowed: bool,
    /// Whole tokens left in the bucket after the decision.
    pub remaining: u64,
    /// The governing rule's capacity.
    pub limit: u64,
    /// The governing rule's window, in milliseconds.
    pub window_ms: u64,
    /// Milliseconds until the requested tokens refill; present exactly
    /// when the request was denied.
    pub retry_after_ms: Option<u64>,
    /// Whether this outcome was produced by the local fallback while the
    /// shared store was unreachable.
    pub degraded: bool,
}

/// A snapshot of one key's limit for monitoring.
#[derive(Clone, PartialEq, Eq, Debug)]
pub struct RateLimitStatus {
    /// The rate-limit key.
    pub key: String,
    /// The governing rule's capacity.
    pub limit: u64,
    /// Whole tokens currently stored for the key.
    pub remaining: u64,
    /// Whether accounting is enabled for the key.
    pub enabled: bool,
}

/// Service health as the engine sees it.
#[derive(Clone, Copy, PartialEq, Eq, Structural, Debug)]
pub struct HealthStatus {
    /// Overall health; local-only mode is always healthy.
    pub healthy: bool,
    /// Whether the shared store is configured and responsive.
    pub redis_connected: bool,
}

/// The outcome a disabled rule produces: admitted, accounting untouched.
pub open spec fn spec_bypass_outcome(rule: RateLimitRule) -> AdmissionOutcome {
    AdmissionOutcome {
        allowed: true,
        remaining: rule.capacity,
        limit: rule.capacity,
        window_ms: rule.window_ms,
        retry_after_ms: Option::None,
        degraded: false,
    }
}

/// The whole tokens a key shows without consuming: the stored count's
/// floor, or the rule's capacity when no bucket exists (absent and full
/// are equivalent).
pub open spec fn spec_peek_remaining(
    limiter: RateLimiter,
    rule: RateLimitRule,
    k: Seq<char>,
) -> int {
    match limiter.spec_bucket(k) {
        Option::Some(b) => b.tokens as int / MICROS_PER_TOKEN as int,
        Option::None => rule.capacity as int,
    }
}

/// The outcome of a consume step that worked on `entry` and left `after`.
pub open spec fn spec_consume_outcome(
    entry: TokenBucket,
    rule: RateLimitRule,
    tokens: u64,
    now_ms: u64,
    degraded: bool,
) -> AdmissionOutcome {
    let admitted = entry.spec_admits(tokens, now_ms);
    let after = entry.spec_consume(tokens, now_ms);
    AdmissionOutcome {
        allowed: admitted,
        remaining: (after.tokens as int / MICROS_PER_TOKEN as int) as u64,
        limit: rule.capacity,
        window_ms: rule.window_ms,
        retry_after_ms: if admitted {
            Option::None
        } else {
            Option::Some(after.spec_time_until(tokens))
        },
        degraded,
    }
}

/// The admission engine: the local registry, the rule table, the key
/// validator and the fallback policy.
pub struct Throttler {
    /// The process-local bucket registry.
    pub rate_limiter: RateLimiter,
    /// Per-key rules with their default.
    pub rules: RateLimitConfig,
    /// Key-grammar validator.
    pub validator: RequestValidator,
    /// Policy applied when the shared store is unreachable.
    pub fallback: FallbackPolicy,
}

impl Throttler {
    /// Engine well-formedness: a well-formed registry and a rule table
    /// that only hands out rules the engine accepts.
    pub open spec fn wf(self) -> bool {
        &&& self.rate_limiter.wf()
        &&& self.rules.wf()
        &&& self.rules.spec_all_valid()
    }

    /// Everything but the bucket registry is unchanged.
    pub open spec fn spec_same_but_buckets(pre: Throttler, post: Throttler) -> bool {
        &&& post.rules == pre.rules
        &&& post.validator == pre.validator
        &&& post.fallback == pre.fallback
        &&& post.rate_limiter.default_capacity == pre.rate_limiter.default_capacity
        &&& post.rate_limiter.default_refill_rate == pre.rate_limiter.default_refill_rate
        &&& post.rate_limiter.redis_enabled == pre.rate_limiter.redis_enabled
    }

    /// The full effect of one local admission decision.
    pub open spec fn spec_decide_post(
        pre: Throttler,
        post: Throttler,
        k: Seq<char>,
        tokens: u64,
        now_ms: u64,
        degraded: bool,
        r: Result<AdmissionOutcome, ThrottlerError>,
    ) -> bool {
        let rule = pre.rules.spec_get(k);
        &&& Throttler::spec_same_but_buckets(pre, post)
        &&& if !spec_valid_key(k, pre.validator.max_key_length as int) {
            &&& r matches Err(e) && e is InvalidKey
            &&& post.rate_limiter == pre.rate_limiter
        } else if !rule.enabled {
            &&& r == Ok::<AdmissionOutcome, ThrottlerError>(spec_bypass_outcome(rule))
            &&& post.rate_limiter == pre.rate_limiter
        } else if tokens == 0 {
            &&& r == Ok::<AdmissionOutcome, ThrottlerError>(
                AdmissionOutcome {
                    allowed: true,
                    remaining: spec_peek_remaining(pre.rate_limiter, rule, k) as u64,
                    limit: rule.capacity,
                    window_ms: rule.window_ms,
                    retry_after_ms: Option::None,
                    degraded: false,
                },
            )
            &&& post.rate_limiter == pre.rate_limiter
        } else {
            let entry = spec_entry_bucket(
                pre.rate_limiter.spec_bucket(k),
                rule.capacity,
                rule.refill_rate,
                now_ms,
            );
            &&& r == Ok::<AdmissionOutcome, ThrottlerError>(
                spec_consume_outcome(entry, rule, tokens, now_ms, degraded),
            )
            &&& post.rate_limiter.spec_bucket(k) == Option::Some(
                entry.spec_consume(tokens, now_ms),
            )
            &&& forall|k2: Seq<char>|
                k2 != k ==> post.rate_limiter.spec_bucket(k2) == pre.rate_limiter.spec_bucket(k2)
        }
    }

    /// The effect of one clocked single-token admission at `t` under the
    /// key's governing rule: the verdict is the inverse of what the entry
    /// bucket admits, the key's bucket holds the consume result, and no
    /// other bucket moves.
    pub open spec fn spec_throttle_post(
        pre: Throttler,
        post: Throttler,
        k: Seq<char>,
        t: u64,
        throttled: bool,
    ) -> bool {
        let rule = pre.rules.spec_get(k);
        let entry = spec_entry_bucket(
            pre.rate_limiter.spec_bucket(k),
            rule.capacity,
            rule.refill_rate,
            t,
        );
        &&& throttled == !entry.spec_admits(1, t)
        &&& post.rate_limiter.spec_bucket(k) == Option::Some(entry.spec_consume(1, t))
        &&& forall|k2: Seq<char>|
            k2 != k ==> post.rate_limiter.spec_bucket(k2) == pre.rate_limiter.spec_bucket(k2)
    }

    /// Builds an engine from the configuration with the strict fail-closed
    /// fallback; construction fails, with a configuration error, exactly
    /// when a default is zero or beyond the library's ceilings.
    pub fn new(config: Config) -> (r: Result<Throttler, ThrottlerError>)
        ensures
            r is Err <==> (config.default_capacity == 0 || config.default_capacity > MAX_CAPACITY
                || config.default_refill_rate == 0 || config.default_refill_rate * 1000
                > MAX_REFILL_RATE),
            match r {
                Ok(t) => {
                    &&& t.wf()
                    &&& t.fallback == FallbackPolicy::Closed
                    &&& t.rules.rules@.len() == 0
                    &&& t.rate_limiter.local_buckets@.len() == 0
                    &&& t.rate_limiter.default_capacity == config.default_capacity
                    &&& t.rate_limiter.default_refill_rate == config.default_refill_rate * 1000
                    &&& t.rate_limiter.redis_enabled == (config.redis_url@.len() > 0)
                    &&& t.rules.default_rule == (RateLimitRule {
                        capacity: config.default_capacity,
                        refill_rate: (config.default_refill_rate * 1000) as u64,
                        window_ms: 60_000,
                        enabled: true,
                    })
                    &&& t.validator.max_key_length == 256
                },
                Err(e) => e is ConfigError,
            },
    {
        if config.default_refill_rate == 0 {
            return Err(
                ThrottlerError::ConfigError(
                    String::from_str("Default refill rate must be greater than 0"),
                ),
            );
        }
        let rate_limiter = RateLimiter::new(&config)?;
        let default_rule = RateLimitRule {
            capacity: config.default_capacity,
            refill_rate: config.default_refill_rate * 1000,
            window_ms: 60_000,
            enabled: true,
        };
        let rules = RateLimitConfig { rules: Vec::new(), default_rule };
        Ok(
            Throttler {
                rate_limiter,
                rules,
                validator: RequestValidator::new(),
                fallback: FallbackPolicy::Closed,
            },
        )
    }

    /// Selects the policy applied when the shared store is unreachable.
    pub fn set_fallback_policy(&mut self, policy: FallbackPolicy)
        requires
            old(self).wf(),
        ensures
            final(self).wf(),
            final(self).fallback == policy,
            final(self).rate_limiter == old(self).rate_limiter,
            final(self).rules == old(self).rules,
            final(self).validator == old(self).validator,
    {
        self.fallback = policy;
    }

    /// One admission decision on the local registry: validates the key,
    /// resolves the rule, bypasses accounting for disabled rules, treats
    /// a zero-token request as a read-only no-op, and otherwise consumes
    /// `tokens` from the key's bucket at `now_ms`.
    pub fn decide(&mut self, key: &str, tokens: u64, now_ms: u64) -> (r: Result<
        AdmissionOutcome,
        ThrottlerError,
    >)
        requires
            old(self).wf(),
        ensures
            final(self).wf(),
            Throttler::spec_decide_post(
                *old(self),
                *final(self),
                key@,
                tokens,
                now_ms,
                false,
                r,
            ),
    {
        self.decide_inner(key, tokens, now_ms, false)
    }

    /// The decision pipeline shared by the local path and the local
    /// fallback of the distributed path.
    fn decide_inner(&mut self, key: &str, tokens: u64, now_ms: u64, degraded: bool) -> (r: Result<
        AdmissionOutcome,
        ThrottlerError,
    >)
        requires
            old(self).wf(),
        ensures
            final(self).wf(),
            Throttler::spec_decide_post(
                *old(self),
                *final(self),
                key@,
                tokens,
                now_ms,
                degraded,
                r,
            ),
    {
        self.validator.validate_key(key)?;
        let rule = self.rules.get_rule(key);
        if !rule.enabled {
            return Ok(
                AdmissionOutcome {
                    allowed: true,
                    remaining: rule.capacity,
                    limit: rule.capacity,
                    window_ms: rule.window_ms,
                    retry_after_ms: None,
                    degraded: false,
                },
            );
        }
        if tokens == 0 {
            let remaining = match self.rate_limiter.get_bucket(key) {
                Some(b) => b.available_tokens(),
                None => rule.capacity,
            };
            return Ok(
                AdmissionOutcome {
                    allowed: true,
                    remaining,
                    limit: rule.capacity,
                    window_ms: rule.window_ms,
                    retry_after_ms: None,
                    degraded: false,
                },
            );
        }
        let (admitted, after) = self.rate_limiter.consume_with_params(
            key,
            rule.capacity,
            rule.refill_rate,
            tokens,
            now_ms,
        );
        let retry_after_ms = if admitted {
            None
        } else {
            let mut probe = after;
            Some(probe.time_until_tokens(tokens, now_ms))
        };
        Ok(
            AdmissionOutcome {
                allowed: admitted,
                remaining: after.available_tokens(),
                limit: rule.capacity,
                window_ms: rule.window_ms,
                retry_after_ms,
                degraded,
            },
        )
    }

    /// Finishes a distributed admission from the store transaction's
    /// result: on success it reports the store's verdict; on a store
    /// failure it either surfaces the error (fail closed) or repeats the
    /// decision on the local registry with the outcome marked degraded
    /// (fail open).  Other errors are always surfaced.
    pub fn decide_with_store_result(
        &mut self,
        key: &str,
        tokens: u64,
        rule: RateLimitRule,
        store_result: Result<(bool, TokenBucket), ThrottlerError>,
        now_ms: u64,
    ) -> (r: Result<AdmissionOutcome, ThrottlerError>)
        requires
            old(self).wf(),
            store_result matches Ok(p) ==> p.1.wf(),
        ensures
            final(self).wf(),
            match store_result {
                Ok(p) => {
                    &&& *final(self) == *old(self)
                    &&& r == Ok::<AdmissionOutcome, ThrottlerError>(
                        AdmissionOutcome {
                            allowed: p.0,
                            remaining: (p.1.tokens as int / MICROS_PER_TOKEN as int) as u64,
                            limit: rule.capacity,
                            window_ms: rule.window_ms,
                            retry_after_ms: if p.0 {
                                Option::None
                            } else {
                                Option::Some(p.1.spec_refill(now_ms).spec_time_until(tokens))
                            },
                            degraded: false,
                        },
                    )
                },
                Err(e) => {
                    if e is RedisError && old(self).fallback == FallbackPolicy::OpenLocal {
                        Throttler::spec_decide_post(
                            *old(self),
                            *final(self),
                            key@,
                            tokens,
                            now_ms,
                            true,
                            r,
                        )
                    } else {
                        &&& *final(self) == *old(self)
                        &&& r == Err::<AdmissionOutcome, ThrottlerError>(e)
                    }
                },
            },
    {
        match store_result {
            Ok((admitted, bucket)) => {
                let retry_after_ms = if admitted {
                    None
                } else {
                    let mut probe = bucket;
                    Some(probe.time_until_tokens(tokens, now_ms))
                };
                Ok(
                    AdmissionOutcome {
                        allowed: admitted,
                        remaining: bucket.available_tokens(),
                        limit: rule.capacity,
                        window_ms: rule.window_ms,
                        retry_after_ms,
                        degraded: false,
                    },
                )
            },
            Err(e) => {
                let is_store_error = match &e {
                    ThrottlerError::RedisError(_) => true,
                    _ => false,
                };
                let open = match self.fallback {
                    FallbackPolicy::OpenLocal => true,
                    FallbackPolicy::Closed => false,
                };
                if is_store_error && open {
                    self.decide_inner(key, tokens, now_ms, true)
                } else {
                    Err(e)
                }
            },
        }
    }

    /// Reads a key's remaining tokens and limit without consuming.
    pub fn peek(&self, key: &str) -> (r: Result<(u64, u64), ThrottlerError>)
        ensures
            ({
                let rule = self.rules.spec_get(key@);
                if spec_valid_key(key@, self.validator.max_key_length as int) {
                    r == Ok::<(u64, u64), ThrottlerError>(
                        (
                            spec_peek_remaining(self.rate_limiter, rule, key@) as u64,
                            rule.capacity,
                        ),
                    )
                } else {
                    r matches Err(e) && e is InvalidKey
                }
            }),
    {
        self.validator.validate_key(key)?;
        let rule = self.rules.get_rule(key);
        match self.rate_limiter.get_bucket(key) {
            Some(b) => Ok((b.available_tokens(), rule.capacity)),
            None => Ok((rule.capacity, rule.capacity)),
        }
    }

    /// Whether a single-token request for `key` should be throttled right
    /// now: a disabled rule never throttles; otherwise one token is
    /// consumed against the wall clock and the verdict inverted.
    pub fn should_throttle(&mut self, key: &str) -> (r: Result<bool, ThrottlerError>)
        requires
            old(self).wf(),
        ensures
            final(self).wf(),
            Throttler::spec_same_but_buckets(*old(self), *final(self)),
            r is Ok,
            !old(self).rules.spec_get(key@).enabled ==> r == Ok::<bool, ThrottlerError>(false)
                && *final(self) == *old(self),
            old(self).rules.spec_get(key@).enabled ==> exists|t: u64|
                #[trigger] Throttler::spec_throttle_post(
                    *old(self),
                    *final(self),
                    key@,
                    t,
                    r->Ok_0,
                ),
    {
        if !self.rules.is_enabled(key) {
            return Ok(false);
        }
        let rule = self.rules.get_rule(key);
        let now_ms = clock::now_ms();
        let (admitted, _after) = self.rate_limiter.consume_with_params(
            key,
            rule.capacity,
            rule.refill_rate,
            1,
            now_ms,
        );
        let r: Result<bool, ThrottlerError> = Ok(!admitted);
        proof {
            assert(Throttler::spec_throttle_post(*old(self), *self, key@, now_ms, r->Ok_0));
        }
        r
    }

    /// A monitoring snapshot for one key: its limit, stored tokens and
    /// whether accounting is enabled.
    pub fn get_rate_limit_status(&self, key: &str) -> (r: Result<RateLimitStatus, ThrottlerError>)
        ensures
            ({
                let rule = self.rules.spec_get(key@);
                r matches Ok(st) && {
                    &&& st.key@ == key@
                    &&& st.limit == rule.capacity
                    &&& st.remaining == match self.rate_limiter.spec_bucket(key@) {
                        Option::Some(b) => b.tokens as int / MICROS_PER_TOKEN as int,
                        Option::None => self.rate_limiter.default_capacity as int,
                    }
                    &&& st.enabled == rule.enabled
                }
            }),
    {
        let rule = self.rules.get_rule(key);
        let remaining = match self.rate_limiter.get_remaining_tokens(key) {
            Ok(n) => n,
            Err(e) => {
                return Err(e);
            },
        };
        Ok(
            RateLimitStatus {
                key: String::from_str(key),
                limit: rule.capacity,
                remaining,
                enabled: rule.enabled,
            },
        )
    }

    /// Adds or replaces a rule after validating the key and the rule; a
    /// rule outside the engine's invariants is rejected and changes
    /// nothing.
    pub fn set_rule(&mut self, key: String, rule: RateLimitRule) -> (r: Result<
        (),
        ThrottlerError,
    >)
        requires
            old(self).wf(),
        ensures
            final(self).wf(),
            final(self).rate_limiter == old(self).rate_limiter,
            final(self).validator == old(self).validator,
            final(self).fallback == old(self).fallback,
            if !spec_valid_key(key@, old(self).validator.max_key_length as int) {
                &&& r matches Err(e) && e is InvalidKey
                &&& final(self).rules == old(self).rules
            } else if rule.spec_valid() {
                &&& r is Ok
                &&& RateLimitConfig::spec_updated(
                    old(self).rules,
                    final(self).rules,
                    key@,
                    rule,
                )
            } else {
                &&& r matches Err(e) && e is ValidationError
                &&& final(self).rules == old(self).rules
            },
    {
        self.validator.validate_key(key.as_str())?;
        match rule.validate() {
            Ok(()) => {},
            Err(msg) => {
                return Err(ThrottlerError::ValidationError(msg));
            },
        }
        self.rules.set_rule(key, rule);
        proof {
            assert forall|k2: Seq<char>| true implies (#[trigger] self.rules.spec_get(
                k2,
            )).spec_valid() by {
                if k2 != key@ {
                    assert(self.rules.spec_get(k2) == old(self).rules.spec_get(k2));
                }
            }
        }
        Ok(())
    }

    /// Removes a key's rule; the key falls back to the default rule.
    pub fn remove_rule(&mut self, key: &str) -> (r: Result<
        Option<RateLimitRule>,
        ThrottlerError,
    >)
        requires
            old(self).wf(),
        ensures
            final(self).wf(),
            final(self).rate_limiter == old(self).rate_limiter,
            final(self).validator == old(self).validator,
            final(self).fallback == old(self).fallback,
            r matches Ok(removed) && removed == crate::kvlist::spec_find(
                old(self).rules.rules@,
                key@,
            ),
            final(self).rules.spec_get(key@) == final(self).rules.default_rule,
            forall|k2: Seq<char>|
                k2 != key@ ==> final(self).rules.spec_get(k2) == old(self).rules.spec_get(k2),
            final(self).rules.default_rule == old(self).rules.default_rule,
    {
        let removed = self.rules.remove_rule(key);
        proof {
            assert forall|k2: Seq<char>| true implies (#[trigger] self.rules.spec_get(
                k2,
            )).spec_valid() by {
                if k2 != key@ {
                    assert(self.rules.spec_get(k2) == old(self).rules.spec_get(k2));
                }
            }
        }
        Ok(removed)
    }

    /// All explicit rules, as key/rule pairs in table order.
    pub fn get_all_rules(&self) -> (r: Result<Vec<(String, RateLimitRule)>, ThrottlerError>)
        ensures
            r matches Ok(list) && {
                &&& list@.len() == self.rules.rules@.len()
                &&& forall|i: int|
                    0 <= i < list@.len() ==> (#[trigger] list@[i]).0@ == self.rules.rules@[i].0@
                        && list@[i].1 == self.rules.rules@[i].1
            },
    {
        let mut out: Vec<(String, RateLimitRule)> = Vec::new();
        let n = self.rules.rules.len();
        let mut i: usize = 0;
        while i < n
            invariant
                0 <= i <= n,
                n == self.rules.rules@.len(),
                out@.len() == i,
                forall|j: int|
                    0 <= j < i ==> (#[trigger] out@[j]).0@ == self.rules.rules@[j].0@
                        && out@[j].1 == self.rules.rules@[j].1,
            decreases n - i,
        {
            out.push((self.rules.rules[i].0.clone(), self.rules.rules[i].1));
            i = i + 1;
        }
        Ok(out)
    }

    /// Resets a key: validates it and deletes its bucket, so the next
    /// admission starts from a full bucket.
    pub fn reset_rate_limit(&mut self, key: &str) -> (r: Result<(), ThrottlerError>)
        requires
            old(self).wf(),
        ensures
            final(self).wf(),
            Throttler::spec_same_but_buckets(*old(self), *final(self)),
            if spec_valid_key(key@, old(self).validator.max_key_length as int) {
                &&& r is Ok
                &&& final(self).rate_limiter.spec_bucket(key@) is None
                &&& forall|k2: Seq<char>|
                    k2 != key@ ==> final(self).rate_limiter.spec_bucket(k2) == old(
                        self,
                    ).rate_limiter.spec_bucket(k2)
            } else {
                &&& r matches Err(e) && e is InvalidKey
                &&& *final(self) == *old(self)
            },
    {
        self.validator.validate_key(key)?;
        self.rate_limiter.reset(key)
    }

    /// Health as seen from the engine: local-only mode is always healthy;
    /// with a store configured, health follows the store's reachability,
    /// which the caller reports from its latest liveness probe.
    pub fn health_check(&self, redis_status: Option<bool>) -> (r: HealthStatus)
        ensures
            r.healthy == match redis_status {
                Option::None => true,
                Option::Some(ok) => ok,
            },
            r.redis_connected == (redis_status == Option::Some(true)),
    {
        match redis_status {
            None => HealthStatus { healthy: true, redis_connected: false },
            Some(ok) => HealthStatus { healthy: ok, redis_connected: ok },
        }
    }
}

/// Reset recovers: after a reset, a read of the key reports a full
/// bucket — the remaining count equals the governing rule's capacity.
pub proof fn lemma_reset_then_peek_full(
    post: Throttler,
    k: Seq<char>,
)
    requires
        post.rate_limiter.spec_bucket(k) is None,
    ensures
        spec_peek_remaining(post.rate_limiter, post.rules.spec_get(k), k) == post.rules.spec_get(
            k,
        ).capacity,
{
}

} // verus!
