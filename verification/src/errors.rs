use vstd::prelude::*;

verus! {

/// The kinds of failure the orchestrator reports to its caller.
#[derive(Clone, Copy, PartialEq, Eq, Structural, Debug)]
pub enum ErrorKind {
    /// A detector references a chunker that the configuration does not define.
    Config,
    /// A mask span is empty, inverted, or reaches past the end of the input.
    InvalidSpan,
    /// A backend call could not be placed.
    BackendUnavailable,
    /// A backend call did not answer within its deadline.
    BackendTimeout,
    /// Some, but not all, detectors of a detection phase failed.
    DetectionPartialFailure,
    /// Every detector of a detection phase failed.
    DetectionTotalFailure,
}

/// The outcome of one failed backend call, as the transport reports it.
/// A timed-out call is treated like any other failed call of its detector.
#[derive(Clone, Copy, PartialEq, Eq, Structural, Debug)]
pub enum BackendError {
    Unavailable,
    Timeout,
}

/// The error kind under which a failed backend call is reported.
pub open spec fn backend_error_kind(e: BackendError) -> ErrorKind {
    match e {
        BackendError::Unavailable => ErrorKind::BackendUnavailable,
        BackendError::Timeout => ErrorKind::BackendTimeout,
    }
}

/// Converts a transport-level failure into the error kind reported for it.
pub fn kind_of_backend_error(e: BackendError) -> (k: ErrorKind)
    ensures
        k == backend_error_kind(e),
{
    match e {
        BackendError::Unavailable => ErrorKind::BackendUnavailable,
        BackendError::Timeout => ErrorKind::BackendTimeout,
    }
}

/// The structured error object a failed unary request returns: an error kind
/// together with a human-readable message.
#[derive(Debug)]
pub struct ErrorResponse {
    pub kind: ErrorKind,
    pub error: String,
}

/// Builds the error object returned to the caller for a given kind.
pub fn error_response(kind: ErrorKind) -> (r: ErrorResponse)
    ensures
        r.kind == kind,
{
    let error = match kind {
        ErrorKind::Config => "detector not configured correctly".to_owned(),
        ErrorKind::InvalidSpan => "invalid input mask span".to_owned(),
        ErrorKind::BackendUnavailable => "backend unavailable".to_owned(),
        ErrorKind::BackendTimeout => "backend timed out".to_owned(),
        ErrorKind::DetectionPartialFailure => "some detectors failed".to_owned(),
        ErrorKind::DetectionTotalFailure => "all detectors failed".to_owned(),
    };
    ErrorResponse { kind, error }
}

} // verus!
