//! The transfer worker: its per-unit retry loop and its state machine.
//!
//! A worker retries a unit only on a rate-limit signal, cooling down between
//! attempts; any other fetch or extraction failure is terminal for the unit.
//! `run_unit` runs that loop over the fetch outcomes as they arrive, handed
//! in as plain events; the transport that produces them and the cooldown
//! timer live outside.
use vstd::prelude::*;

use crate::errors::UnitError;
use crate::fetch::{handle_fetch_event, event_outcome, EventOutcome, FetchEvent, StepOutcome};
use crate::paper::Paper;

verus! {

/// The fixed cooldown, in seconds, a worker suspends for after a rate-limit
/// signal before re-attempting the same work item.
pub const COOLDOWN_SECONDS: u64 = 120;

/// How one unit of work ended: with exactly one result unit, with one
/// terminal error, or still awaiting admission when the supply of fetch
/// outcomes ended.
#[derive(Debug)]
pub enum UnitResult {
    Completed(Paper),
    Failed(UnitError),
    Pending,
}

/// Whether one fetch outcome is the retry signal.
pub open spec fn is_retry_signal(ev: FetchEvent) -> bool {
    event_outcome(ev) is Retry
}

/// How many consecutive retry signals the script of fetch outcomes opens
/// with: the number of cooldown waits the worker observes for this unit.
pub open spec fn leading_retries(evs: Seq<FetchEvent>) -> nat
    decreases evs.len(),
{
    if evs.len() == 0 || !is_retry_signal(evs[0]) {
        0
    } else {
        1 + leading_retries(evs.drop_first())
    }
}

/// The retry count never exceeds the script, every outcome before it is a
/// retry signal, and the outcome at it — when there is one — is not.
pub proof fn lemma_leading_retries_props(evs: Seq<FetchEvent>)
    ensures
        leading_retries(evs) <= evs.len(),
        leading_retries(evs) < evs.len() ==> !is_retry_signal(
            evs[leading_retries(evs) as int],
        ),
        forall|j: int| 0 <= j < leading_retries(evs) ==> is_retry_signal(evs[j]),
    decreases evs.len(),
{
    if evs.len() > 0 && is_retry_signal(evs[0]) {
        lemma_leading_retries_props(evs.drop_first());
        assert forall|j: int| 0 <= j < leading_retries(evs) implies is_retry_signal(evs[j]) by {
            if j > 0 {
                assert(is_retry_signal(evs.drop_first()[j - 1]));
            }
        }
    }
}

/// A prefix of retry signals bounded by a non-retry outcome (or by the end
/// of the script) pins the retry count exactly.
pub proof fn lemma_leading_retries_exact(evs: Seq<FetchEvent>, k: int)
    requires
        0 <= k <= evs.len(),
        forall|j: int| 0 <= j < k ==> is_retry_signal(evs[j]),
        k == evs.len() || !is_retry_signal(evs[k]),
    ensures
        leading_retries(evs) == k,
    decreases evs.len(),
{
    if k > 0 {
        assert(is_retry_signal(evs[0]));
        assert forall|j: int| 0 <= j < k - 1 implies is_retry_signal(evs.drop_first()[j]) by {
            assert(evs.drop_first()[j] == evs[j + 1]);
        }
        lemma_leading_retries_exact(evs.drop_first(), k - 1);
    } else if evs.len() > 0 {
        assert(!is_retry_signal(evs[0]));
    }
}

/// The unit completes: a non-retry outcome arrives and extraction succeeds.
pub open spec fn unit_completes(evs: Seq<FetchEvent>) -> bool {
    leading_retries(evs) < evs.len() && event_outcome(evs[leading_retries(evs) as int]) is Done
}

/// The unit fails terminally: a non-retry outcome arrives and earns an error.
pub open spec fn unit_fails(evs: Seq<FetchEvent>) -> bool {
    leading_retries(evs) < evs.len() && event_outcome(evs[leading_retries(evs) as int]) is Fail
}

/// Every outcome in the script is a retry signal: the unit is still waiting.
pub open spec fn unit_pending(evs: Seq<FetchEvent>) -> bool {
    leading_retries(evs) == evs.len()
}

/// For one work item and one script of fetch outcomes, exactly one result
/// unit or none is produced: completing, failing and still waiting are
/// mutually exclusive, and one of the three always holds.
pub proof fn lemma_unit_result_exclusive(evs: Seq<FetchEvent>)
    ensures
        unit_completes(evs) || unit_fails(evs) || unit_pending(evs),
        !(unit_completes(evs) && unit_fails(evs)),
        !(unit_completes(evs) && unit_pending(evs)),
        !(unit_fails(evs) && unit_pending(evs)),
{
    lemma_leading_retries_props(evs);
}

/// Runs the retry loop for the work item `id` over the fetch outcomes in
/// `events`, in order: every leading retry signal costs one cooldown wait,
/// and the first other outcome settles the unit. Returns the unit's fate and
/// the number of cooldown waits observed.
pub fn run_unit(id: &str, events: &Vec<FetchEvent>) -> (r: (UnitResult, usize))
    ensures
        r.1 as nat == leading_retries(events@),
        r.0 is Pending <==> unit_pending(events@),
        r.0 is Completed <==> unit_completes(events@),
        r.0 is Failed <==> unit_fails(events@),
        !unit_pending(events@) ==> match event_outcome(
            events@[leading_retries(events@) as int],
        ) {
            EventOutcome::Retry => false,
            EventOutcome::Fail(e) => r.0 == UnitResult::Failed(e),
            EventOutcome::Done(files) => r.0 matches UnitResult::Completed(p) && p.id@ == id@
                && p.files.deep_view() == files && p.wf(),
        },
{
    let mut i: usize = 0;
    while i < events.len()
        invariant
            i <= events@.len(),
            forall|j: int| 0 <= j < i ==> is_retry_signal(events@[j]),
        decreases events@.len() - i,
    {
        let step = handle_fetch_event(id, &events[i]);
        proof {
            if step is RetryAfterCooldown {
                assert(is_retry_signal(events@[i as int]));
            } else {
                assert(!is_retry_signal(events@[i as int]));
                lemma_leading_retries_exact(events@, i as int);
            }
        }
        match step {
            StepOutcome::RetryAfterCooldown => {
                i = i + 1;
            },
            StepOutcome::Completed(p) => {
                return (UnitResult::Completed(p), i);
            },
            StepOutcome::Failed(e) => {
                return (UnitResult::Failed(e), i);
            },
        }
    }
    proof {
        lemma_leading_retries_exact(events@, i as int);
    }
    (UnitResult::Pending, i)
}

/// The states of one transfer worker.
#[derive(Debug)]
pub enum WorkerState {
    /// Awaiting one work item from the shared queue.
    Idle,
    /// A fetch for the held item is in flight.
    Fetching(String),
    /// Cooling down after a rate-limit signal; the item is kept for retry.
    Retrying(String),
    /// Awaiting admission of a completed unit to the result queue.
    Delivering(Paper),
    /// The worker has left the pool.
    Exited,
}

/// What the surrounding runtime reports to the worker.
#[derive(Debug)]
pub enum WorkerEvent {
    /// The shared queue handed out one work item — an exclusive dequeue.
    WorkReceived(String),
    /// The shared queue is closed and drained.
    WorkClosed,
    /// The in-flight fetch hit the rate limit.
    FetchRateLimited,
    /// The in-flight fetch completed the unit.
    FetchCompleted(Paper),
    /// The in-flight fetch or extraction failed terminally for this unit;
    /// the error is logged and the unit dropped.
    FetchFailed(UnitError),
    /// The rate-limit cooldown elapsed.
    CooldownElapsed,
    /// The result queue accepted the delivered unit.
    DeliveryAccepted,
    /// The result queue is closed for writes: no delivery can complete.
    DeliveryRefused,
}

/// The worker's transition relation. A closed, drained work queue ends an
/// idle worker; a rate-limit signal parks the held item for one cooldown; a
/// terminal fetch failure drops the unit and returns to idle; a refused
/// delivery exits the worker at once, whatever it was doing. An event that
/// does not concern the current state leaves it unchanged.
pub open spec fn spec_worker_step(state: WorkerState, ev: WorkerEvent) -> WorkerState {
    match (state, ev) {
        (WorkerState::Idle, WorkerEvent::WorkReceived(id)) => WorkerState::Fetching(id),
        (WorkerState::Idle, WorkerEvent::WorkClosed) => WorkerState::Exited,
        (WorkerState::Fetching(id), WorkerEvent::FetchRateLimited) => WorkerState::Retrying(id),
        (WorkerState::Fetching(_), WorkerEvent::FetchCompleted(p)) => WorkerState::Delivering(p),
        (WorkerState::Fetching(_), WorkerEvent::FetchFailed(_)) => WorkerState::Idle,
        (WorkerState::Retrying(id), WorkerEvent::CooldownElapsed) => WorkerState::Fetching(id),
        (WorkerState::Delivering(_), WorkerEvent::DeliveryAccepted) => WorkerState::Idle,
        (_, WorkerEvent::DeliveryRefused) => WorkerState::Exited,
        (s, _) => s,
    }
}

/// Advances one worker by one event, exactly as the transition relation says.
pub fn worker_step(state: WorkerState, ev: WorkerEvent) -> (r: WorkerState)
    ensures
        r == spec_worker_step(state, ev),
{
    match (state, ev) {
        (WorkerState::Idle, WorkerEvent::WorkReceived(id)) => WorkerState::Fetching(id),
        (WorkerState::Idle, WorkerEvent::WorkClosed) => WorkerState::Exited,
        (WorkerState::Fetching(id), WorkerEvent::FetchRateLimited) => WorkerState::Retrying(id),
        (WorkerState::Fetching(_), WorkerEvent::FetchCompleted(p)) => WorkerState::Delivering(p),
        (WorkerState::Fetching(_), WorkerEvent::FetchFailed(_)) => WorkerState::Idle,
        (WorkerState::Retrying(id), WorkerEvent::CooldownElapsed) => WorkerState::Fetching(id),
        (WorkerState::Delivering(_), WorkerEvent::DeliveryAccepted) => WorkerState::Idle,
        (_, WorkerEvent::DeliveryRefused) => WorkerState::Exited,
        (s, _) => s,
    }
}

} // verus!
