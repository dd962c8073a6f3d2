//! A rate-limiting library built around the token-bucket algorithm.
//!
//! The crate provides the admission engine of a rate-limiting service:
//! the token-bucket value type and its time-based refill, the rule table,
//! the in-process bucket registry, the atomic refill-and-consume operation
//! used against a shared store, and the admission decision pipeline.
//! Everything here is pure with respect to time: callers supply the current
//! timestamp in milliseconds, so the engine is testable with virtual clocks.

pub mod clock;
pub mod config;
pub mod config_validator;
pub mod distributed;
pub mod error;
pub mod handlers;
pub mod health;
pub mod key_generator;
pub mod kvlist;
pub mod metrics;
pub mod rate_limit_config;
pub mod rate_limiter;
pub mod response;
pub mod text;
pub mod throttler;
pub mod token_bucket;
pub mod validation;

use vstd::prelude::*;

verus! {

/// Version string reported by health endpoints.
pub const VERSION: &'static str = "0.1.0";

} // verus!
