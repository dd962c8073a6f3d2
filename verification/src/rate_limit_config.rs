//! Rate-limiting rules and the per-key rule table.
//!
//! A rule gives a key its bucket parameters: capacity in whole tokens,
//! refill rate in milli-tokens per second, the window in milliseconds, and
//! whether accounting is enabled at all.  The table maps keys to rules and
//! falls back to a process-wide default; key matching is exact.

use vstd::prelude::*;

use crate::kvlist::{kv_get, kv_remove, kv_set, spec_find, unique_keys};
use crate::token_bucket::{MAX_CAPACITY, MAX_REFILL_RATE};

verus! {

/// One rate-limiting rule.
#[derive(Clone, Copy, PartialEq, Eq, Structural, Debug)]
pub struct RateLimitRule {
    /// Maximum tokens the bucket holds (the burst size), in whole tokens.
    pub capacity: u64,
    /// Tokens added per second, in milli-tokens.
    pub refill_rate: u64,
    /// The rule's natural period in milliseconds; informational, and the
    /// basis of the stored bucket's time-to-live.
    pub window_ms: u64,
    /// Whether accounting applies; a disabled rule admits everything.
    pub enabled: bool,
}

/// The enforcement strategy a deployment selects; the engine here
/// implements the token bucket, and alternative strategies plug in as
/// different store-side scripts.
#[derive(Clone, Copy, PartialEq, Eq, Structural, Debug)]
pub enum RateLimitStrategy {
    TokenBucket,
    FixedWindow,
    SlidingWindow,
}

impl RateLimitRule {
    /// A rule the engine accepts: positive capacity and refill rate within
    /// the library's ceilings, and a window of at least one second.
    pub open spec fn spec_valid(self) -> bool {
        &&& 1 <= self.capacity <= MAX_CAPACITY
        &&& 1 <= self.refill_rate <= MAX_REFILL_RATE
        &&& 1000 <= self.window_ms
    }

    /// A new, enabled rule.
    pub fn new(capacity: u64, refill_rate: u64, window_ms: u64) -> (r: RateLimitRule)
        ensures
            r == (RateLimitRule { capacity, refill_rate, window_ms, enabled: true }),
    {
        RateLimitRule { capacity, refill_rate, window_ms, enabled: true }
    }

    /// Accepts exactly the rules with positive parameters within the
    /// library's ceilings.  No relation between the refill rate and the
    /// window is checked: a rule may refill many times its capacity per
    /// window, as the standard one-minute rules do.
    pub fn validate(&self) -> (r: Result<(), String>)
        ensures
            r.is_ok() == self.spec_valid(),
    {
        if self.capacity == 0 {
            return Err(String::from_str("Burst capacity must be greater than 0"));
        }
        if self.capacity > MAX_CAPACITY {
            return Err(String::from_str("Burst capacity exceeds the supported maximum"));
        }
        if self.refill_rate == 0 {
            return Err(String::from_str("Refill rate must be greater than 0"));
        }
        if self.refill_rate > MAX_REFILL_RATE {
            return Err(String::from_str("Refill rate exceeds the supported maximum"));
        }
        if self.window_ms < 1000 {
            return Err(String::from_str("Window size must be at least one second"));
        }
        Ok(())
    }

    /// A rule that switches accounting off.
    pub fn disabled() -> (r: RateLimitRule)
        ensures
            r == (RateLimitRule { capacity: 0, refill_rate: 0, window_ms: 0, enabled: false }),
    {
        RateLimitRule { capacity: 0, refill_rate: 0, window_ms: 0, enabled: false }
    }
}

impl Default for RateLimitRule {
    /// The process-wide default: 20 tokens of burst refilled at 10 per
    /// second over a one-minute window.
    fn default() -> (r: RateLimitRule)
        ensures
            r == (RateLimitRule {
                capacity: 20,
                refill_rate: 10_000,
                window_ms: 60_000,
                enabled: true,
            }),
            r.spec_valid(),
    {
        RateLimitRule { capacity: 20, refill_rate: 10_000, window_ms: 60_000, enabled: true }
    }
}

/// The per-key rule table with its default fallback.
pub struct RateLimitConfig {
    /// Explicit per-key rules; keys are unique.
    pub rules: Vec<(String, RateLimitRule)>,
    /// The rule used for keys without an explicit entry.
    pub default_rule: RateLimitRule,
}

impl RateLimitConfig {
    /// Table well-formedness: no key bound twice.
    pub open spec fn wf(self) -> bool {
        unique_keys(self.rules@)
    }

    /// The rule governing `k`: the explicit entry if one exists, the
    /// default otherwise.
    pub open spec fn spec_get(self, k: Seq<char>) -> RateLimitRule {
        match spec_find(self.rules@, k) {
            Option::Some(r) => r,
            Option::None => self.default_rule,
        }
    }

    /// Every rule the table can hand out is one the engine accepts.
    pub open spec fn spec_all_valid(self) -> bool {
        &&& self.default_rule.spec_valid()
        &&& forall|k: Seq<char>| (#[trigger] self.spec_get(k)).spec_valid()
    }

    /// The effect of binding `k` to `rule`: `k` resolves to `rule`, every
    /// other key resolves as before, and the default is untouched.
    pub open spec fn spec_updated(
        pre: RateLimitConfig,
        post: RateLimitConfig,
        k: Seq<char>,
        rule: RateLimitRule,
    ) -> bool {
        &&& post.spec_get(k) == rule
        &&& forall|k2: Seq<char>| k2 != k ==> post.spec_get(k2) == pre.spec_get(k2)
        &&& post.default_rule == pre.default_rule
    }

    /// Gets the rule for a key, falling back to the default.
    pub fn get_rule(&self, key: &str) -> (r: RateLimitRule)
        ensures
            r == self.spec_get(key@),
    {
        match kv_get(&self.rules, key) {
            Some(rule) => *rule,
            None => self.default_rule,
        }
    }

    /// Adds or replaces the rule for a key.
    pub fn set_rule(&mut self, key: String, rule: RateLimitRule)
        requires
            old(self).wf(),
        ensures
            final(self).wf(),
            RateLimitConfig::spec_updated(*old(self), *final(self), key@, rule),
    {
        kv_set(&mut self.rules, key, rule);
    }

    /// Removes the rule for a key; afterwards the key falls back to the
    /// default rule.
    pub fn remove_rule(&mut self, key: &str) -> (r: Option<RateLimitRule>)
        requires
            old(self).wf(),
        ensures
            final(self).wf(),
            r == spec_find(old(self).rules@, key@),
            final(self).spec_get(key@) == final(self).default_rule,
            forall|k2: Seq<char>|
                k2 != key@ ==> final(self).spec_get(k2) == old(self).spec_get(k2),
            final(self).default_rule == old(self).default_rule,
    {
        kv_remove(&mut self.rules, key)
    }

    /// Whether accounting is enabled for a key under its governing rule.
    pub fn is_enabled(&self, key: &str) -> (r: bool)
        ensures
            r == self.spec_get(key@).enabled,
    {
        self.get_rule(key).enabled
    }

    /// The keys with an explicit rule, in table order.
    pub fn get_rule_keys(&self) -> (r: Vec<String>)
        ensures
            r@.len() == self.rules@.len(),
            forall|i: int| 0 <= i < r@.len() ==> (#[trigger] r@[i])@ == self.rules@[i].0@,
    {
        let mut out: Vec<String> = Vec::new();
        let n = self.rules.len();
        let mut i: usize = 0;
        while i < n
            invariant
                0 <= i <= n,
                n == self.rules@.len(),
                out@.len() == i,
                forall|j: int| 0 <= j < i ==> (#[trigger] out@[j])@ == self.rules@[j].0@,
            decreases n - i,
        {
            out.push(self.rules[i].0.clone());
            i = i + 1;
        }
        out
    }
}

impl Default for RateLimitConfig {
    /// An empty table over the default rule.
    fn default() -> (r: RateLimitConfig)
        ensures
            r.rules@.len() == 0,
            r.wf(),
            r.default_rule == (RateLimitRule {
                capacity: 20,
                refill_rate: 10_000,
                window_ms: 60_000,
                enabled: true,
            }),
    {
        RateLimitConfig { rules: Vec::new(), default_rule: RateLimitRule::default() }
    }
}

/// Round trip of rule management: after a table update binds `k` to
/// `rule`, resolving `k` yields exactly `rule`.
pub proof fn lemma_set_rule_then_get_rule(
    pre: RateLimitConfig,
    post: RateLimitConfig,
    k: Seq<char>,
    rule: RateLimitRule,
)
    requires
        RateLimitConfig::spec_updated(pre, post, k, rule),
    ensures
        post.spec_get(k) == rule,
{
}

} // verus!
