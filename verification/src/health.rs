//! The health report the service exposes: overall status, the store
//! dependency's state, and uptime.  Probing the store and measuring its
//! response time happen outside the library; the results arrive here as
//! plain values and the report is assembled from them.

use vstd::prelude::*;

use crate::text::str_eq;

verus! {

/// The state of one dependency.
#[derive(Clone, Debug)]
pub struct ServiceStatus {
    /// Either `healthy` or `unavailable`.
    pub status: String,
    /// How long the liveness probe took, in milliseconds.
    pub response_time_ms: u64,
    /// What went wrong, when the dependency is unavailable.
    pub error: Option<String>,
}

/// The dependencies the service reports on.
#[derive(Clone, Debug)]
pub struct DependencyStatus {
    /// The shared store.
    pub redis: ServiceStatus,
}

/// The full health report.
#[derive(Clone, Debug)]
pub struct HealthStatus {
    /// `healthy` when the store responds, `degraded` otherwise — the
    /// service still serves from the local registry without it.
    pub status: String,
    /// When the report was produced, in epoch seconds.
    pub timestamp: u64,
    /// The service version.
    pub version: String,
    /// Seconds since the service started.
    pub uptime_seconds: u64,
    /// Per-dependency detail.
    pub dependencies: DependencyStatus,
}

/// The store dependency's state, from the probe's verdict and duration.
pub fn build_service_status(redis_ok: bool, response_time_ms: u64) -> (r: ServiceStatus)
    ensures
        r.status@ == if redis_ok {
            "healthy"@
        } else {
            "unavailable"@
        },
        r.response_time_ms == response_time_ms,
        redis_ok <==> r.error is None,
{
    if redis_ok {
        ServiceStatus { status: String::from_str("healthy"), response_time_ms, error: None }
    } else {
        ServiceStatus {
            status: String::from_str("unavailable"),
            response_time_ms,
            error: Some(String::from_str("Redis not configured or not reachable")),
        }
    }
}

/// The full report: healthy exactly when the store dependency is, and
/// degraded — not unhealthy — otherwise.
pub fn build_health_status(redis: ServiceStatus, timestamp: u64, uptime_seconds: u64) -> (r:
    HealthStatus)
    ensures
        r.status@ == if redis.status@ == "healthy"@ {
            "healthy"@
        } else {
            "degraded"@
        },
        r.timestamp == timestamp,
        r.version@ == "0.1.0"@,
        r.uptime_seconds == uptime_seconds,
        r.dependencies.redis == redis,
{
    let overall = if str_eq(redis.status.as_str(), "healthy") {
        String::from_str("healthy")
    } else {
        String::from_str("degraded")
    };
    HealthStatus {
        status: overall,
        timestamp,
        version: String::from_str("0.1.0"),
        uptime_seconds,
        dependencies: DependencyStatus { redis },
    }
}

} // verus!
