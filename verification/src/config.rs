//! Service configuration values and their validation.  Loading from the
//! process environment happens outside the library; the values arrive here
//! as plain strings and integers.

use vstd::prelude::*;

use crate::config_validator::{spec_known_environment, ConfigValidator};
use crate::error::ThrottlerError;
use crate::text::{spec_eq_ignore_ascii_case, spec_starts_with, str_eq_ignore_ascii_case};

verus! {

/// The service configuration.
pub struct Config {
    /// Shared-store URL; an empty string selects local-only mode.
    pub redis_url: String,
    /// Address the HTTP front-end binds to, in host:port form.
    pub bind_address: String,
    /// Default bucket capacity, in whole tokens.
    pub default_capacity: u64,
    /// Default refill rate, in whole tokens per second.
    pub default_refill_rate: u64,
    /// Deployment environment name.
    pub environment: String,
    /// Log verbosity handed to the logging collaborator.
    pub log_level: String,
}

impl Config {
    /// The configurations the service accepts: a well-formed store URL, a
    /// host:port bind address, positive default rate-limit parameters and
    /// a known environment name.
    pub open spec fn spec_valid(self) -> bool {
        &&& self.redis_url@.len() > 0
        &&& (spec_starts_with(self.redis_url@, "redis://"@) || spec_starts_with(
            self.redis_url@,
            "rediss://"@,
        ))
        &&& self.bind_address@.len() > 0
        &&& self.bind_address@.contains(':')
        &&& self.default_capacity >= 1
        &&& self.default_refill_rate >= 1
        &&& spec_known_environment(self.environment@)
    }

    /// Accepts exactly the valid configurations.
    pub fn validate(&self) -> (r: Result<(), ThrottlerError>)
        ensures
            r.is_ok() == self.spec_valid(),
            r.is_err() ==> (r matches Err(e) && e is ValidationError),
    {
        ConfigValidator::validate_redis_url(self.redis_url.as_str())?;
        ConfigValidator::validate_bind_address(self.bind_address.as_str())?;
        ConfigValidator::validate_rate_limit(self.default_capacity, self.default_refill_rate)?;
        ConfigValidator::validate_environment(self.environment.as_str())?;
        Ok(())
    }

    /// Whether the configured environment is production (case-insensitive).
    pub fn is_production(&self) -> (r: bool)
        ensures
            r == spec_eq_ignore_ascii_case(self.environment@, "production"@),
    {
        str_eq_ignore_ascii_case(self.environment.as_str(), "production")
    }

    /// Whether the configured environment is development
    /// (case-insensitive).
    pub fn is_development(&self) -> (r: bool)
        ensures
            r == spec_eq_ignore_ascii_case(self.environment@, "development"@),
    {
        str_eq_ignore_ascii_case(self.environment.as_str(), "development")
    }
}

} // verus!
