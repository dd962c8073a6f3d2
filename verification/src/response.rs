//! Response payloads for the admission and health endpoints.

use vstd::prelude::*;

use crate::clock;

verus! {

/// The admission verdict rendered to a client.
#[derive(Clone, Debug)]
pub struct RateLimitResponse {
    /// Whether the request was admitted.
    pub allowed: bool,
    /// Whole tokens remaining after the decision.
    pub remaining: u64,
    /// When the bucket next reaches its full capacity, in epoch seconds.
    pub reset_time: u64,
    /// Seconds to wait before retrying; present only when denied.
    pub retry_after: Option<u64>,
}

impl RateLimitResponse {
    /// An admitted response.
    pub fn allowed(remaining: u64, reset_time: u64) -> (r: RateLimitResponse)
        ensures
            r.allowed == true,
            r.remaining == remaining,
            r.reset_time == reset_time,
            r.retry_after is None,
    {
        RateLimitResponse { allowed: true, remaining, reset_time, retry_after: None }
    }

    /// A denied response with its retry hint.
    pub fn denied(reset_time: u64, retry_after: u64) -> (r: RateLimitResponse)
        ensures
            r.allowed == false,
            r.remaining == 0,
            r.reset_time == reset_time,
            r.retry_after == Option::Some(retry_after),
    {
        RateLimitResponse { allowed: false, remaining: 0, reset_time, retry_after: Some(retry_after) }
    }
}

/// The health payload rendered to a client.
#[derive(Clone, Debug)]
pub struct HealthResponse {
    /// Either `healthy` or `unhealthy`.
    pub status: String,
    /// When the report was produced, in epoch seconds.
    pub timestamp: u64,
    /// The service version.
    pub version: String,
    /// Whether the shared store is connected.
    pub redis_connected: bool,
}

impl HealthResponse {
    /// A healthy report, stamped with the wall clock.
    pub fn healthy(redis_connected: bool) -> (r: HealthResponse)
        ensures
            r.status@ == "healthy"@,
            r.version@ == "0.1.0"@,
            r.redis_connected == redis_connected,
    {
        HealthResponse {
            status: String::from_str("healthy"),
            timestamp: clock::now_secs(),
            version: String::from_str("0.1.0"),
            redis_connected,
        }
    }

    /// An unhealthy report, stamped with the wall clock.
    pub fn unhealthy(redis_connected: bool) -> (r: HealthResponse)
        ensures
            r.status@ == "unhealthy"@,
            r.version@ == "0.1.0"@,
            r.redis_connected == redis_connected,
    {
        HealthResponse {
            status: String::from_str("unhealthy"),
            timestamp: clock::now_secs(),
            version: String::from_str("0.1.0"),
            redis_connected,
        }
    }
}

} // verus!
