//! Failure taxonomy of one ingestion cycle.
//!
//! A cycle can fail at three points: the reserve write, the outbound fetch,
//! and the fill write. No failure is retried or recovered; each aborts the
//! cycle at once and is surfaced labeled with the stage it occurred at.

use vstd::prelude::*;

verus! {

/// The stage of the cycle at which a failure occurred.
#[derive(Clone, Copy, Debug, PartialEq, Eq, Structural)]
pub enum Stage {
    Reserve,
    Fetch,
    Fill,
}

impl Stage {
    /// The label under which diagnostics name this stage.
    pub fn label(&self) -> (s: &'static str)
        ensures
            self is Reserve ==> s@ == "reserve"@,
            self is Fetch ==> s@ == "fetch"@,
            self is Fill ==> s@ == "fill"@,
    {
        match self {
            Stage::Reserve => "reserve",
            Stage::Fetch => "fetch",
            Stage::Fill => "fill",
        }
    }
}

/// A store statement was rejected: connectivity loss, constraint violation,
/// schema mismatch. The cause is the store's own description of the refusal.
#[derive(Debug, PartialEq, Eq)]
pub struct WriteFailure {
    pub cause: String,
}

/// Why a response body was not a snapshot of the expected shape.
#[derive(Clone, Copy, Debug, PartialEq, Eq, Structural)]
pub enum DecodeIssue {
    /// The body is not a well-formed document with fields to look at.
    BadBody,
    /// The `timestamp` field is missing or not an integer.
    BadTimestamp,
    /// The `base` field is missing or not a string.
    BadBase,
    /// The `rates` field is missing or not an object.
    BadRates,
}

impl DecodeIssue {
    /// A one-line description of the issue for diagnostics.
    pub fn describe(&self) -> (s: &'static str)
        ensures
            self is BadBody ==> s@ == "response body is not a document"@,
            self is BadTimestamp ==> s@ == "field `timestamp` is missing or not an integer"@,
            self is BadBase ==> s@ == "field `base` is missing or not a string"@,
            self is BadRates ==> s@ == "field `rates` is missing or not an object"@,
    {
        match self {
            DecodeIssue::BadBody => "response body is not a document",
            DecodeIssue::BadTimestamp => "field `timestamp` is missing or not an integer",
            DecodeIssue::BadBase => "field `base` is missing or not a string",
            DecodeIssue::BadRates => "field `rates` is missing or not an object",
        }
    }
}

/// Why a fetch produced no snapshot.
#[derive(Debug, PartialEq, Eq)]
pub enum FetchError {
    /// The request could not be completed.
    TransportFailure { cause: String },
    /// The response body does not match the expected shape.
    DecodeFailure { issue: DecodeIssue },
}

/// The labeled, terminal outcome of a failed cycle.
#[derive(Debug, PartialEq, Eq)]
pub enum CycleError {
    ReserveFailure { failure: WriteFailure },
    FetchFailure { error: FetchError },
    FillFailure { failure: WriteFailure },
}

impl CycleError {
    /// The stage this failure is labeled with.
    pub fn stage(&self) -> (s: Stage)
        ensures
            s == self.spec_stage(),
    {
        match self {
            CycleError::ReserveFailure { .. } => Stage::Reserve,
            CycleError::FetchFailure { .. } => Stage::Fetch,
            CycleError::FillFailure { .. } => Stage::Fill,
        }
    }

    /// The stage a failure belongs to, by its variant.
    pub open spec fn spec_stage(&self) -> Stage {
        match self {
            CycleError::ReserveFailure { .. } => Stage::Reserve,
            CycleError::FetchFailure { .. } => Stage::Fetch,
            CycleError::FillFailure { .. } => Stage::Fill,
        }
    }
}

} // verus!
