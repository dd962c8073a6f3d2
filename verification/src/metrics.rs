//! Per-client admission counters.  The counters and their arithmetic live
//! here; the concurrent map that holds one record per client is the
//! caller's, which hands records in as plain values.

use vstd::prelude::*;

verus! {

/// Admission counters for one client, or for the whole service.
#[derive(Clone, Copy, PartialEq, Eq, Structural, Debug)]
pub struct ThrottleMetrics {
    /// Requests seen.
    pub total_requests: u64,
    /// Requests admitted.
    pub allowed_requests: u64,
    /// Requests denied.
    pub throttled_requests: u64,
    /// When the counters were last reset, in epoch seconds.
    pub last_reset: u64,
}

/// A counter bumped by one, stopping at the maximum.
pub open spec fn spec_bump(n: u64) -> u64 {
    if n < u64::MAX {
        (n + 1) as u64
    } else {
        n
    }
}

/// Two counter records added field by field, each sum stopping at the
/// maximum; the reset stamp of the left record is kept.
pub open spec fn spec_merge(a: ThrottleMetrics, b: ThrottleMetrics) -> ThrottleMetrics {
    ThrottleMetrics {
        total_requests: if a.total_requests + b.total_requests <= u64::MAX {
            (a.total_requests + b.total_requests) as u64
        } else {
            u64::MAX
        },
        allowed_requests: if a.allowed_requests + b.allowed_requests <= u64::MAX {
            (a.allowed_requests + b.allowed_requests) as u64
        } else {
            u64::MAX
        },
        throttled_requests: if a.throttled_requests + b.throttled_requests <= u64::MAX {
            (a.throttled_requests + b.throttled_requests) as u64
        } else {
            u64::MAX
        },
        last_reset: a.last_reset,
    }
}

/// All records of a sequence merged into one, left to right.
pub open spec fn spec_aggregate(s: Seq<ThrottleMetrics>, zero: ThrottleMetrics) -> ThrottleMetrics
    decreases s.len(),
{
    if s.len() == 0 {
        zero
    } else {
        spec_merge(spec_aggregate(s.drop_last(), zero), s.last())
    }
}

impl ThrottleMetrics {
    /// Fresh counters, stamped with the given reset time.
    pub fn new(last_reset: u64) -> (m: ThrottleMetrics)
        ensures
            m == (ThrottleMetrics {
                total_requests: 0,
                allowed_requests: 0,
                throttled_requests: 0,
                last_reset,
            }),
    {
        ThrottleMetrics { total_requests: 0, allowed_requests: 0, throttled_requests: 0, last_reset }
    }

    /// Counts one request: the total always, and exactly one of the
    /// admitted and denied counters.
    pub fn record_request(&mut self, allowed: bool)
        ensures
            final(self).total_requests == spec_bump(old(self).total_requests),
            final(self).allowed_requests == if allowed {
                spec_bump(old(self).allowed_requests)
            } else {
                old(self).allowed_requests
            },
            final(self).throttled_requests == if allowed {
                old(self).throttled_requests
            } else {
                spec_bump(old(self).throttled_requests)
            },
            final(self).last_reset == old(self).last_reset,
    {
        if self.total_requests < u64::MAX {
            self.total_requests = self.total_requests + 1;
        }
        if allowed {
            if self.allowed_requests < u64::MAX {
                self.allowed_requests = self.allowed_requests + 1;
            }
        } else {
            if self.throttled_requests < u64::MAX {
                self.throttled_requests = self.throttled_requests + 1;
            }
        }
    }
}

impl Default for ThrottleMetrics {
    /// Zero counters with a zero reset stamp.
    fn default() -> (m: ThrottleMetrics)
        ensures
            m == (ThrottleMetrics {
                total_requests: 0,
                allowed_requests: 0,
                throttled_requests: 0,
                last_reset: 0,
            }),
    {
        ThrottleMetrics { total_requests: 0, allowed_requests: 0, throttled_requests: 0, last_reset: 0 }
    }
}

/// Service-wide counters: every client's record merged into one, with the
/// given reset stamp on the result.
pub fn aggregate_metrics(records: &Vec<ThrottleMetrics>, last_reset: u64) -> (r: ThrottleMetrics)
    ensures
        r == spec_aggregate(records@, ThrottleMetrics {
            total_requests: 0,
            allowed_requests: 0,
            throttled_requests: 0,
            last_reset,
        }),
{
    let mut acc = ThrottleMetrics {
        total_requests: 0,
        allowed_requests: 0,
        throttled_requests: 0,
        last_reset,
    };
    let n = records.len();
    let mut i: usize = 0;
    proof {
        assert(records@.subrange(0, 0) =~= Seq::<ThrottleMetrics>::empty());
    }
    while i < n
        invariant
            0 <= i <= n,
            n == records@.len(),
            acc == spec_aggregate(records@.subrange(0, i as int), ThrottleMetrics {
                total_requests: 0,
                allowed_requests: 0,
                throttled_requests: 0,
                last_reset,
            }),
            acc.last_reset == last_reset,
        decreases n - i,
    {
        let m = records[i];
        proof {
            assert(records@.subrange(0, i + 1).drop_last() =~= records@.subrange(0, i as int));
            assert(records@.subrange(0, i + 1).last() == records@[i as int]);
        }
        acc = ThrottleMetrics {
            total_requests: if m.total_requests <= u64::MAX - acc.total_requests {
                acc.total_requests + m.total_requests
            } else {
                u64::MAX
            },
            allowed_requests: if m.allowed_requests <= u64::MAX - acc.allowed_requests {
                acc.allowed_requests + m.allowed_requests
            } else {
                u64::MAX
            },
            throttled_requests: if m.throttled_requests <= u64::MAX - acc.throttled_requests {
                acc.throttled_requests + m.throttled_requests
            } else {
                u64::MAX
            },
            last_reset: acc.last_reset,
        };
        i = i + 1;
    }
    proof {
        assert(records@.subrange(0, n as int) =~= records@);
    }
    acc
}

} // verus!
