//! Error kinds for all operations, with their HTTP status mapping and
//! user-visible rendering.

use vstd::prelude::*;

use crate::text::{spec_dec, u64_to_dec};

verus! {

/// Everything that can go wrong in an admission or management call.
#[derive(Clone, Debug)]
pub enum ThrottlerError {
    /// The shared store failed (connection, command, timeout); 503-class,
    /// subject to the fallback policy.
    RedisError(String),
    /// Configuration is invalid or missing; 400-class.
    ConfigError(String),
    /// Request parameters are out of range; 400-class.
    ValidationError(String),
    /// The rate limit was exceeded; 429-class with a Retry-After value.
    RateLimitExceeded { retry_after: u64, limit: u64, window_ms: u64 },
    /// Unexpected internal failure; 500-class, fatal to the request only.
    InternalError(String),
    /// The rate-limit key fails the key grammar; 400-class.
    InvalidKey(String),
    /// Serialization of stored state failed; 500-class.
    SerializationError(String),
    /// No API key header was present where one was required; 400-class.
    MissingApiKey,
    /// No user id header was present where one was required; 400-class.
    MissingUserId,
    /// The requested key-derivation strategy is not supported; 400-class.
    InvalidKeyStrategy(String),
}

impl ThrottlerError {
    /// The HTTP status code each kind maps to.
    pub open spec fn spec_status_code(self) -> u16 {
        match self {
            ThrottlerError::RateLimitExceeded { .. } => 429,
            ThrottlerError::ValidationError(_) => 400,
            ThrottlerError::InvalidKey(_) => 400,
            ThrottlerError::ConfigError(_) => 400,
            ThrottlerError::RedisError(_) => 503,
            ThrottlerError::SerializationError(_) => 500,
            ThrottlerError::InternalError(_) => 500,
            ThrottlerError::MissingApiKey => 400,
            ThrottlerError::MissingUserId => 400,
            ThrottlerError::InvalidKeyStrategy(_) => 400,
        }
    }

    /// The HTTP status code for this error.
    pub fn status_code(&self) -> (code: u16)
        ensures
            code == self.spec_status_code(),
    {
        match self {
            ThrottlerError::RateLimitExceeded { .. } => 429,
            ThrottlerError::ValidationError(_) => 400,
            ThrottlerError::InvalidKey(_) => 400,
            ThrottlerError::ConfigError(_) => 400,
            ThrottlerError::RedisError(_) => 503,
            ThrottlerError::SerializationError(_) => 500,
            ThrottlerError::InternalError(_) => 500,
            ThrottlerError::MissingApiKey => 400,
            ThrottlerError::MissingUserId => 400,
            ThrottlerError::InvalidKeyStrategy(_) => 400,
        }
    }

    /// The machine-readable error label rendered in response bodies.
    pub fn error_label(&self) -> (label: String)
        ensures
            label@ == match *self {
                ThrottlerError::RateLimitExceeded { .. } => "rate_limit_exceeded"@,
                ThrottlerError::ValidationError(_) => "validation_error"@,
                ThrottlerError::InvalidKey(_) => "validation_error"@,
                ThrottlerError::ConfigError(_) => "configuration_error"@,
                ThrottlerError::MissingApiKey => "validation_error"@,
                ThrottlerError::MissingUserId => "validation_error"@,
                ThrottlerError::InvalidKeyStrategy(_) => "validation_error"@,
                _ => "internal_error"@,
            },
    {
        match self {
            ThrottlerError::RateLimitExceeded { .. } => String::from_str("rate_limit_exceeded"),
            ThrottlerError::ValidationError(_) => String::from_str("validation_error"),
            ThrottlerError::InvalidKey(_) => String::from_str("validation_error"),
            ThrottlerError::ConfigError(_) => String::from_str("configuration_error"),
            ThrottlerError::MissingApiKey => String::from_str("validation_error"),
            ThrottlerError::MissingUserId => String::from_str("validation_error"),
            ThrottlerError::InvalidKeyStrategy(_) => String::from_str("validation_error"),
            ThrottlerError::RedisError(_) => String::from_str("internal_error"),
            ThrottlerError::SerializationError(_) => String::from_str("internal_error"),
            ThrottlerError::InternalError(_) => String::from_str("internal_error"),
        }
    }

    /// A human-readable description, with the kind named first.
    pub fn message(&self) -> (msg: String)
        ensures
            msg@ == match *self {
                ThrottlerError::RedisError(m) => "Redis error: "@ + m@,
                ThrottlerError::ConfigError(m) => "Configuration error: "@ + m@,
                ThrottlerError::ValidationError(m) => "Validation error: "@ + m@,
                ThrottlerError::RateLimitExceeded { retry_after, limit, window_ms } =>
                    "Rate limit exceeded: "@ + spec_dec(limit as int) + " requests per "@
                        + spec_dec(window_ms as int) + "ms window. Retry after "@ + spec_dec(
                        retry_after as int,
                    ) + "s"@,
                ThrottlerError::InternalError(m) => "Internal error: "@ + m@,
                ThrottlerError::InvalidKey(k) => "Invalid key format: "@ + k@,
                ThrottlerError::SerializationError(m) => "Serialization error: "@ + m@,
                ThrottlerError::MissingApiKey => "Missing API key header"@,
                ThrottlerError::MissingUserId => "Missing user id header"@,
                ThrottlerError::InvalidKeyStrategy(m) => "Invalid key strategy: "@ + m@,
            },
    {
        match self {
            ThrottlerError::RedisError(m) => {
                let mut s = String::from_str("Redis error: ");
                s.append(m.as_str());
                s
            },
            ThrottlerError::ConfigError(m) => {
                let mut s = String::from_str("Configuration error: ");
                s.append(m.as_str());
                s
            },
            ThrottlerError::ValidationError(m) => {
                let mut s = String::from_str("Validation error: ");
                s.append(m.as_str());
                s
            },
            ThrottlerError::RateLimitExceeded { retry_after, limit, window_ms } => {
                let mut s = String::from_str("Rate limit exceeded: ");
                s.append(u64_to_dec(*limit).as_str());
                s.append(" requests per ");
                s.append(u64_to_dec(*window_ms).as_str());
                s.append("ms window. Retry after ");
                s.append(u64_to_dec(*retry_after).as_str());
                s.append("s");
                s
            },
            ThrottlerError::InternalError(m) => {
                let mut s = String::from_str("Internal error: ");
                s.append(m.as_str());
                s
            },
            ThrottlerError::InvalidKey(k) => {
                let mut s = String::from_str("Invalid key format: ");
                s.append(k.as_str());
                s
            },
            ThrottlerError::SerializationError(m) => {
                let mut s = String::from_str("Serialization error: ");
                s.append(m.as_str());
                s
            },
            ThrottlerError::MissingApiKey => String::from_str("Missing API key header"),
            ThrottlerError::MissingUserId => String::from_str("Missing user id header"),
            ThrottlerError::InvalidKeyStrategy(m) => {
                let mut s = String::from_str("Invalid key strategy: ");
                s.append(m.as_str());
                s
            },
        }
    }
}

} // verus!
