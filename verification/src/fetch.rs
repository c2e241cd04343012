//! The fetch client's decision logic. The transport performs one request per
//! identifier and reports what came back as a plain event; this module
//! classifies the event and either asks for a cooldown-and-retry, completes
//! the unit with its extracted files, or fails the unit with the exact error
//! the taxonomy assigns.
use vstd::prelude::*;

use crate::codec::gzip_magic;
use crate::errors::UnitError;
use crate::extract::{extract, spec_extract};
use crate::paper::Paper;
use vstd::string::StringExecFns;

verus! {

/// What one fetch attempt reported: a response with its status code and
/// payload, or a connection/timeout failure.
#[derive(Debug, Clone)]
pub enum FetchEvent {
    Response { status: u16, body: Vec<u8> },
    NetworkFailure,
}

/// The worker's decision after one fetch attempt.
#[derive(Debug)]
pub enum StepOutcome {
    /// The remote signalled overload: suspend for the cooldown, then retry
    /// the same work item.
    RetryAfterCooldown,
    /// Fetch and extraction succeeded: deliver this unit.
    Completed(Paper),
    /// A terminal error for this unit: log it and move on.
    Failed(UnitError),
}

/// The throttling status code the remote uses to signal overload.
pub const RATE_LIMIT_STATUS: u16 = 429;

/// The status code the remote uses for a definitive absence signal.
pub const NOT_FOUND_STATUS: u16 = 404;

/// The abstract outcome one fetch event earns, used by the contracts: retry,
/// done with these (name, content) pairs, or failed with this error.
pub enum EventOutcome {
    Retry,
    Done(Seq<(Seq<char>, Seq<u8>)>),
    Fail(UnitError),
}

/// Classifies one fetch event. A throttling status is the only retry signal.
/// A recognized absence status is a permanent not-found; any other
/// client/server error status is treated as a network-level failure for this
/// run. A payload without the compressed-stream signature is permanently
/// malformed; otherwise the outcome is whatever extraction yields.
pub open spec fn event_outcome(ev: FetchEvent) -> EventOutcome {
    match ev {
        FetchEvent::NetworkFailure => EventOutcome::Fail(UnitError::TransientNetwork),
        FetchEvent::Response { status, body } => {
            if status == RATE_LIMIT_STATUS {
                EventOutcome::Retry
            } else if status == NOT_FOUND_STATUS {
                EventOutcome::Fail(UnitError::PermanentNotFound)
            } else if 400 <= status < 600 {
                EventOutcome::Fail(UnitError::TransientNetwork)
            } else if !gzip_magic(body@) {
                EventOutcome::Fail(UnitError::PermanentMalformed)
            } else {
                match spec_extract(body@) {
                    Ok(files) => EventOutcome::Done(files),
                    Err(e) => EventOutcome::Fail(e),
                }
            }
        },
    }
}

/// Decides one fetch attempt for the work item `id`: exactly the transition
/// `event_outcome` assigns, with a completed unit carrying the item's
/// identifier and the extracted files in container order.
pub fn handle_fetch_event(id: &str, ev: &FetchEvent) -> (r: StepOutcome)
    ensures
        match event_outcome(*ev) {
            EventOutcome::Retry => r is RetryAfterCooldown,
            EventOutcome::Fail(e) => r == StepOutcome::Failed(e),
            EventOutcome::Done(files) => r matches StepOutcome::Completed(p) && p.id@ == id@
                && p.files.deep_view() == files && p.wf(),
        },
{
    match ev {
        FetchEvent::NetworkFailure => StepOutcome::Failed(UnitError::TransientNetwork),
        FetchEvent::Response { status, body } => {
            let status = *status;
            if status == 429 {
                StepOutcome::RetryAfterCooldown
            } else if status == 404 {
                StepOutcome::Failed(UnitError::PermanentNotFound)
            } else if 400 <= status && status < 600 {
                StepOutcome::Failed(UnitError::TransientNetwork)
            } else if !crate::codec::has_gzip_magic(body.as_slice()) {
                StepOutcome::Failed(UnitError::PermanentMalformed)
            } else {
                match extract(body.as_slice()) {
                    Err(e) => StepOutcome::Failed(e),
                    Ok(files) => {
                        let paper = Paper { id: String::from_str(id), files };
                        proof {
                            crate::extract::lemma_extract_files_qualify(body@);
                            assert forall|i: int| 0 <= i < paper.files@.len() implies crate::paper::tex_name(
                                #[trigger] paper.files@[i]@.0,
                            ) by {
                                assert(paper.files.deep_view()[i] == paper.files@[i].deep_view());
                            }
                        }
                        StepOutcome::Completed(paper)
                    },
                }
            }
        },
    }
}

} // verus!
