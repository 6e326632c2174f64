//! Classification of one HTTP probe against one target URL.
//!
//! A probe issues a GET request with a fixed timeout and measures three
//! staged timings: time to establish the connection, time to receive the
//! response headers, and time to read the full body. The network call itself
//! is made by the application; it reports what happened as a [`ProbeOutcome`],
//! and [`classify_probe`] turns that outcome into the [`HealthCheckResult`]
//! recorded for the target.

use vstd::prelude::*;

verus! {

/// Whether the target answered the probe. Any successful transport exchange
/// counts as `Up`, whatever the HTTP status code was: the monitor measures
/// reachability, not response correctness.
#[derive(Clone, Copy, Debug, PartialEq, Eq, Structural)]
pub enum Status {
    Up,
    Down,
}

/// The outcome of one probe per target per cycle: the status, the staged
/// timings in milliseconds (present on the stages that completed; all three
/// on a successful probe), and an error description (present exactly when
/// the probe is `Down`).
#[derive(Clone, Debug)]
pub struct HealthCheckResult {
    pub status: Status,
    pub dns_time_ms: Option<u128>,
    pub response_time_ms: Option<u128>,
    pub body_time_ms: Option<u128>,
    pub error: Option<String>,
}

impl HealthCheckResult {
    /// The timings are present exactly on the stages that completed, and an
    /// error message is present exactly when the probe is `Down`.
    pub open spec fn wf(self) -> bool {
        match self.status {
            Status::Up => self.dns_time_ms is Some && self.response_time_ms is Some
                && self.body_time_ms is Some && self.error is None,
            Status::Down => self.body_time_ms is None && self.error is Some
                && (self.dns_time_ms is Some <==> self.response_time_ms is Some),
        }
    }
}

/// What the network call reported, stage by stage. Timings are in
/// milliseconds, measured by the caller around the stages that completed.
pub enum ProbeOutcome {
    /// The HTTP client could not even be built.
    ClientFailed { error: String },
    /// The request failed before the response headers arrived: connect
    /// error, timeout, or another transport error.
    RequestFailed { error: String },
    /// The headers arrived but the body could not be fully read. The first
    /// two timings were already measured.
    BodyFailed { connect_ms: u128, response_ms: u128, error: String },
    /// The full body was read within the timeout.
    Completed { connect_ms: u128, response_ms: u128, body_ms: u128 },
}

/// The result that [`classify_probe`] returns for an outcome.
pub open spec fn spec_classify(outcome: ProbeOutcome) -> HealthCheckResult {
    match outcome {
        ProbeOutcome::ClientFailed { error } => HealthCheckResult {
            status: Status::Down,
            dns_time_ms: None,
            response_time_ms: None,
            body_time_ms: None,
            error: Some(error),
        },
        ProbeOutcome::RequestFailed { error } => HealthCheckResult {
            status: Status::Down,
            dns_time_ms: None,
            response_time_ms: None,
            body_time_ms: None,
            error: Some(error),
        },
        ProbeOutcome::BodyFailed { connect_ms, response_ms, error } => HealthCheckResult {
            status: Status::Down,
            dns_time_ms: Some(connect_ms),
            response_time_ms: Some(response_ms),
            body_time_ms: None,
            error: Some(error),
        },
        ProbeOutcome::Completed { connect_ms, response_ms, body_ms } => HealthCheckResult {
            status: Status::Up,
            dns_time_ms: Some(connect_ms),
            response_time_ms: Some(response_ms),
            body_time_ms: Some(body_ms),
            error: None,
        },
    }
}

/// Classify one probe outcome. A probe that failed before the response
/// headers yields `Down` with no timings and the transport error recorded; a
/// failed body read yields `Down` but keeps the two timings already measured;
/// a completed probe yields `Up` with all three timings and no error.
pub fn classify_probe(outcome: ProbeOutcome) -> (r: HealthCheckResult)
    ensures
        r == spec_classify(outcome),
        r.wf(),
{
    match outcome {
        ProbeOutcome::ClientFailed { error } => HealthCheckResult {
            status: Status::Down,
            dns_time_ms: None,
            response_time_ms: None,
            body_time_ms: None,
            error: Some(error),
        },
        ProbeOutcome::RequestFailed { error } => HealthCheckResult {
            status: Status::Down,
            dns_time_ms: None,
            response_time_ms: None,
            body_time_ms: None,
            error: Some(error),
        },
        ProbeOutcome::BodyFailed { connect_ms, response_ms, error } => HealthCheckResult {
            status: Status::Down,
            dns_time_ms: Some(connect_ms),
            response_time_ms: Some(response_ms),
            body_time_ms: None,
            error: Some(error),
        },
        ProbeOutcome::Completed { connect_ms, response_ms, body_ms } => HealthCheckResult {
            status: Status::Up,
            dns_time_ms: Some(connect_ms),
            response_time_ms: Some(response_ms),
            body_time_ms: Some(body_ms),
            error: None,
        },
    }
}

} // verus!
