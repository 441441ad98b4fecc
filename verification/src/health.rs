//! The health vocabulary: a status and an optional diagnostic message.

use vstd::prelude::*;

verus! {

/// What a client reports of its backend.
#[derive(Debug, Clone, Copy, PartialEq, Eq, Structural)]
pub enum HealthStatus {
    Healthy,
    Unhealthy,
    Unknown,
}

/// The outcome of one health probe. It is produced on demand and never kept.
#[derive(Debug, Clone, PartialEq, Eq)]
pub struct HealthCheckResult {
    pub status: HealthStatus,
    pub reason: Option<String>,
}

impl HealthCheckResult {
    /// A result with the given status and no diagnostic message.
    pub fn new(status: HealthStatus) -> (r: HealthCheckResult)
        ensures
            r.status == status,
            r.reason is None,
    {
        HealthCheckResult { status, reason: None }
    }

    /// A result with the given status and a diagnostic message.
    pub fn with_reason(status: HealthStatus, reason: String) -> (r: HealthCheckResult)
        ensures
            r.status == status,
            r.reason == Some(reason),
    {
        HealthCheckResult { status, reason: Some(reason) }
    }

    /// Whether the backend reported itself healthy.
    pub fn is_healthy(&self) -> (b: bool)
        ensures
            b == (self.status == HealthStatus::Healthy),
    {
        self.status == HealthStatus::Healthy
    }
}

} // verus!
