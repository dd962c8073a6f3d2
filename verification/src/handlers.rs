//! The request and response shapes of the HTTP API, and the pure steps
//! that turn an engine outcome into them.  Decoding requests and encoding
//! responses happen outside the library.

use vstd::prelude::*;

use crate::throttler::AdmissionOutcome;

verus! {

/// Body of an admission check: how many tokens to consume (one when
/// omitted).
#[derive(Clone, Copy, PartialEq, Eq, Structural, Debug)]
pub struct CheckRequest {
    /// Tokens to consume; defaults to one.
    pub tokens: Option<u64>,
}

/// Body of an admission response.
#[derive(Clone, Copy, PartialEq, Eq, Structural, Debug)]
pub struct CheckResponse {
    /// Whether the request was admitted.
    pub allowed: bool,
    /// Whole tokens left after the decision.
    pub remaining: u64,
    /// The governing rule's capacity.
    pub limit: u64,
}

/// Body of a rule-configuration request.
#[derive(Clone, Copy, PartialEq, Eq, Structural, Debug)]
pub struct ConfigRequest {
    /// Requests allowed per window.
    pub requests: u64,
    /// Window length in milliseconds.
    pub window_ms: u64,
}

/// Body of a rule-configuration response.
#[derive(Clone, Debug)]
pub struct ConfigResponse {
    /// `success` or `error`.
    pub status: String,
    /// A human-readable account of what happened.
    pub message: String,
    /// The key that was configured.
    pub key: String,
}

/// Body of a health-check response.
#[derive(Clone, Debug)]
pub struct HealthResponse {
    /// `healthy` or `degraded`.
    pub status: String,
    /// Whether the shared store is connected.
    pub redis_connected: bool,
}

impl CheckRequest {
    /// The tokens a check consumes: the requested count, or one.
    pub fn effective_tokens(&self) -> (n: u64)
        ensures
            n == match self.tokens {
                Option::Some(t) => t,
                Option::None => 1u64,
            },
    {
        match self.tokens {
            Some(t) => t,
            None => 1,
        }
    }
}

impl CheckResponse {
    /// The response body for an engine outcome.
    pub fn from_outcome(outcome: &AdmissionOutcome) -> (r: CheckResponse)
        ensures
            r.allowed == outcome.allowed,
            r.remaining == outcome.remaining,
            r.limit == outcome.limit,
    {
        CheckResponse {
            allowed: outcome.allowed,
            remaining: outcome.remaining,
            limit: outcome.limit,
        }
    }
}

/// The HTTP status for an admission outcome: 200 when admitted, 429 when
/// denied.
pub fn check_status_code(outcome: &AdmissionOutcome) -> (code: u16)
    ensures
        code == if outcome.allowed {
            200int
        } else {
            429int
        },
{
    if outcome.allowed {
        200
    } else {
        429
    }
}

} // verus!
