//! The error taxonomy of the pipeline.
//!
//! Every failure is scoped to a single unit of work: no variant aborts the
//! process. Only a rate-limit signal is retried; every other variant is
//! terminal for its unit.
use vstd::prelude::*;

verus! {

/// A per-unit failure. `TransientRateLimited` is the one retryable variant;
/// all others drop the unit for this run.
#[derive(Clone, Copy, Debug, PartialEq, Eq, Structural)]
pub enum UnitError {
    /// The remote signalled overload; the worker cools down and retries.
    TransientRateLimited,
    /// A connection or timeout failure, or an unclassified remote status.
    TransientNetwork,
    /// The remote definitively reported the identifier absent.
    PermanentNotFound,
    /// The payload's leading bytes do not match the compressed-stream signature.
    PermanentMalformed,
    /// The archive decoded but held no qualifying entry.
    ExtractionEmpty,
    /// Decompression or container parsing raised a structural error.
    ExtractionCorrupt,
    /// The unit's output directory already exists; the unit is skipped.
    StorageConflict,
}

impl UnitError {
    /// Only a rate-limit signal may be retried; every other error is
    /// terminal for its unit.
    pub fn is_retryable(&self) -> (r: bool)
        ensures
            r == (*self == UnitError::TransientRateLimited),
    {
        match self {
            UnitError::TransientRateLimited => true,
            _ => false,
        }
    }
}

/// A fatal startup failure: the input identifier list could not be used.
/// These are the only process-fatal errors in the design.
#[derive(Clone, Copy, Debug, PartialEq, Eq, Structural)]
pub enum StartupError {
    /// The identifier list did not parse as a sequence of strings.
    MalformedList,
    /// The identifier list parsed but holds no identifiers.
    EmptyList,
}

} // verus!
