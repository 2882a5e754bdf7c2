//! The two health checks: an unconditional liveness probe, and the decision
//! rule of the database-backed readiness probe.

use vstd::prelude::*;

verus! {

/// The outcome of one health-check invocation, as the HTTP layer reports it:
/// either everything asked about is healthy, or something failed.
#[derive(Clone, Copy, Debug, PartialEq, Eq, Structural)]
pub enum HealthStatus {
    Healthy,
    InternalError,
}

impl HealthStatus {
    /// The HTTP status code that reports this outcome.
    pub open spec fn code_spec(self) -> u16 {
        match self {
            HealthStatus::Healthy => 200,
            HealthStatus::InternalError => 500,
        }
    }

    /// Maps the outcome to its HTTP status code: 200 for success,
    /// 500 for failure.
    pub fn code(&self) -> (c: u16)
        ensures
            c == self.code_spec(),
    {
        match self {
            HealthStatus::Healthy => 200,
            HealthStatus::InternalError => 500,
        }
    }
}

/// What the liveness check reports: success, always.
pub open spec fn liveness_status() -> HealthStatus {
    HealthStatus::Healthy
}

/// What the readiness check reports, given whether the trivial query against
/// the database succeeded: success exactly when the query did, and the one
/// collapsed error status otherwise, whatever the kind of failure was.
pub open spec fn readiness_status(query_succeeded: bool) -> HealthStatus {
    if query_succeeded {
        HealthStatus::Healthy
    } else {
        HealthStatus::InternalError
    }
}

/// The liveness check: no inputs, no side effects, no dependency on the
/// database. Reports that the process is up and able to answer at the HTTP
/// layer, so it succeeds unconditionally.
pub fn health_check() -> (status: HealthStatus)
    ensures
        status == liveness_status(),
        status == HealthStatus::Healthy,
{
    HealthStatus::Healthy
}

/// The decision rule of the readiness check. The caller runs the trivial
/// query (`SELECT 1`) against the pool and reports here whether it succeeded;
/// every kind of failure — connection refused, authentication, timeout, query
/// error — arrives collapsed into `false` and leaves as the one internal-error
/// status, never as a raw error.
pub fn health_check_db(query_succeeded: bool) -> (status: HealthStatus)
    ensures
        status == readiness_status(query_succeeded),
        status == HealthStatus::Healthy <==> query_succeeded,
        status == HealthStatus::InternalError <==> !query_succeeded,
{
    if query_succeeded {
        HealthStatus::Healthy
    } else {
        HealthStatus::InternalError
    }
}

/// Repeated health checks against an unchanged backing database state give
/// identical results: the liveness status is one constant, and the readiness
/// status is a function of the query outcome alone, so two invocations that
/// see the same outcome report the same status.
pub proof fn lemma_health_checks_idempotent(outcome_then: bool, outcome_now: bool)
    requires
        outcome_then == outcome_now,
    ensures
        liveness_status() == HealthStatus::Healthy,
        readiness_status(outcome_then) == readiness_status(outcome_now),
{
}

} // verus!
