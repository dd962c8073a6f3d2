//! Validation of service configuration values: store URL, bind address,
//! default rate-limit parameters and environment name.

use vstd::prelude::*;

use crate::error::ThrottlerError;
use crate::text::{
    spec_eq_ignore_ascii_case, spec_starts_with, str_contains_char, str_eq_ignore_ascii_case,
    str_starts_with,
};

verus! {

/// An accepted environment name, compared case-insensitively.
pub open spec fn spec_known_environment(s: Seq<char>) -> bool {
    ||| spec_eq_ignore_ascii_case(s, "development"@)
    ||| spec_eq_ignore_ascii_case(s, "staging"@)
    ||| spec_eq_ignore_ascii_case(s, "production"@)
    ||| spec_eq_ignore_ascii_case(s, "test"@)
}

/// Validates configuration objects for consistency and correctness.
pub struct ConfigValidator;

impl ConfigValidator {
    /// Accepts exactly the non-empty URLs with a `redis://` or `rediss://`
    /// scheme.
    pub fn validate_redis_url(url: &str) -> (r: Result<(), ThrottlerError>)
        ensures
            r.is_ok() == (url@.len() > 0 && (spec_starts_with(url@, "redis://"@)
                || spec_starts_with(url@, "rediss://"@))),
            r.is_err() ==> (r matches Err(e) && e is ValidationError),
    {
        if url.is_empty() {
            return Err(
                ThrottlerError::ValidationError(String::from_str("Redis URL cannot be empty")),
            );
        }
        if !str_starts_with(url, "redis://") && !str_starts_with(url, "rediss://") {
            return Err(
                ThrottlerError::ValidationError(
                    String::from_str("Redis URL must start with 'redis://' or 'rediss://'"),
                ),
            );
        }
        Ok(())
    }

    /// Accepts exactly the non-empty addresses that contain a colon, the
    /// host:port shape.
    pub fn validate_bind_address(address: &str) -> (r: Result<(), ThrottlerError>)
        ensures
            r.is_ok() == (address@.len() > 0 && address@.contains(':')),
            r.is_err() ==> (r matches Err(e) && e is ValidationError),
    {
        if address.is_empty() {
            return Err(
                ThrottlerError::ValidationError(String::from_str("Bind address cannot be empty")),
            );
        }
        if !str_contains_char(address, ':') {
            return Err(
                ThrottlerError::ValidationError(
                    String::from_str("Bind address must be in host:port format"),
                ),
            );
        }
        Ok(())
    }

    /// Accepts exactly the rate-limit pairs with a positive capacity and a
    /// positive refill rate.
    pub fn validate_rate_limit(capacity: u64, refill_rate: u64) -> (r: Result<(), ThrottlerError>)
        ensures
            r.is_ok() == (capacity >= 1 && refill_rate >= 1),
            r.is_err() ==> (r matches Err(e) && e is ValidationError),
    {
        if capacity == 0 {
            return Err(
                ThrottlerError::ValidationError(
                    String::from_str("Rate limit capacity must be greater than 0"),
                ),
            );
        }
        if refill_rate == 0 {
            return Err(
                ThrottlerError::ValidationError(
                    String::from_str("Refill rate must be greater than 0"),
                ),
            );
        }
        Ok(())
    }

    /// Accepts exactly the known environment names, case-insensitively:
    /// development, staging, production and test.
    pub fn validate_environment(env: &str) -> (r: Result<(), ThrottlerError>)
        ensures
            r.is_ok() == spec_known_environment(env@),
            r.is_err() ==> (r matches Err(e) && e is ValidationError),
    {
        if str_eq_ignore_ascii_case(env, "development") || str_eq_ignore_ascii_case(env, "staging")
            || str_eq_ignore_ascii_case(env, "production") || str_eq_ignore_ascii_case(
            env,
            "test",
        ) {
            Ok(())
        } else {
            Err(ThrottlerError::ValidationError(String::from_str("Invalid environment name")))
        }
    }

    /// Accepts exactly the server configurations with a non-empty host, a
    /// non-zero port and a valid store URL.
    pub fn validate_server_config(host: &str, port: u16, redis_url: &str) -> (r: Result<
        (),
        ThrottlerError,
    >)
        ensures
            r.is_ok() == (host@.len() > 0 && port >= 1 && (redis_url@.len() > 0 && (
            spec_starts_with(redis_url@, "redis://"@) || spec_starts_with(
                redis_url@,
                "rediss://"@,
            )))),
            r.is_err() ==> (r matches Err(e) && e is ValidationError),
    {
        if host.is_empty() {
            return Err(
                ThrottlerError::ValidationError(String::from_str("Server host cannot be empty")),
            );
        }
        if port == 0 {
            return Err(
                ThrottlerError::ValidationError(
                    String::from_str("Server port must be greater than 0"),
                ),
            );
        }
        Self::validate_redis_url(redis_url)?;
        Ok(())
    }
}

} // verus!
