//! The transfer pool over one whole input list, as a sequential model: each
//! work item runs fetch-with-retry and extraction exactly once, and settles
//! as exactly one of delivered, failed-and-logged, or still pending. A
//! concurrent pool differs only in the order items settle in; the schedule
//! invariance lemma of the driver covers that difference.
use vstd::prelude::*;

use crate::errors::UnitError;
use crate::fetch::{event_outcome, EventOutcome, FetchEvent};
use crate::paper::Paper;
use crate::worker::{
    lemma_unit_result_exclusive, run_unit, unit_completes, unit_fails, unit_pending, UnitResult,
};

verus! {

/// The error a settling script earns. Meaningful only where the unit fails:
/// the outcome of the first non-retry fetch event.
pub open spec fn settle_error(evs: Seq<FetchEvent>) -> UnitError
    recommends
        unit_fails(evs),
{
    match event_outcome(evs[crate::worker::leading_retries(evs) as int]) {
        EventOutcome::Fail(e) => e,
        _ => UnitError::TransientNetwork,
    }
}

/// The identifiers whose unit completes, in input order.
pub open spec fn completed_ids(ids: Seq<Seq<char>>, scripts: Seq<Vec<FetchEvent>>) -> Seq<
    Seq<char>,
>
    decreases ids.len(),
{
    if ids.len() == 0 || scripts.len() == 0 {
        Seq::empty()
    } else {
        let rest = completed_ids(ids.drop_last(), scripts.drop_last());
        if unit_completes(scripts.last()@) {
            rest.push(ids.last())
        } else {
            rest
        }
    }
}

/// The extracted files a completing script delivers: the payload of its
/// settling fetch outcome. Meaningful only where the unit completes.
pub open spec fn done_files(evs: Seq<FetchEvent>) -> Seq<(Seq<char>, Seq<u8>)>
    recommends
        unit_completes(evs),
{
    match event_outcome(evs[crate::worker::leading_retries(evs) as int]) {
        EventOutcome::Done(files) => files,
        _ => Seq::empty(),
    }
}

/// The file lists of the completing scripts, in input order — aligned with
/// `completed_ids` wherever the identifier and script lists have one length.
pub open spec fn completed_files(scripts: Seq<Vec<FetchEvent>>) -> Seq<Seq<(Seq<char>, Seq<u8>)>>
    decreases scripts.len(),
{
    if scripts.len() == 0 {
        Seq::empty()
    } else {
        let rest = completed_files(scripts.drop_last());
        if unit_completes(scripts.last()@) {
            rest.push(done_files(scripts.last()@))
        } else {
            rest
        }
    }
}

/// The identifiers whose unit fails terminally, with the error each one
/// earned, in input order.
pub open spec fn failed_ids(ids: Seq<Seq<char>>, scripts: Seq<Vec<FetchEvent>>) -> Seq<
    (Seq<char>, UnitError),
>
    decreases ids.len(),
{
    if ids.len() == 0 || scripts.len() == 0 {
        Seq::empty()
    } else {
        let rest = failed_ids(ids.drop_last(), scripts.drop_last());
        if unit_fails(scripts.last()@) {
            rest.push((ids.last(), settle_error(scripts.last()@)))
        } else {
            rest
        }
    }
}

/// The identifiers whose script never settles, in input order.
pub open spec fn pending_ids(ids: Seq<Seq<char>>, scripts: Seq<Vec<FetchEvent>>) -> Seq<Seq<char>>
    decreases ids.len(),
{
    if ids.len() == 0 || scripts.len() == 0 {
        Seq::empty()
    } else {
        let rest = pending_ids(ids.drop_last(), scripts.drop_last());
        if !unit_completes(scripts.last()@) && !unit_fails(scripts.last()@) {
            rest.push(ids.last())
        } else {
            rest
        }
    }
}

/// Law: over a whole input list, every work item is accounted for exactly
/// once — it is delivered, or fails with one logged terminal error, or is
/// still pending; the three tallies partition the input.
pub proof fn lemma_each_item_settles_once(ids: Seq<Seq<char>>, scripts: Seq<Vec<FetchEvent>>)
    requires
        ids.len() == scripts.len(),
    ensures
        completed_ids(ids, scripts).len() + failed_ids(ids, scripts).len() + pending_ids(
            ids,
            scripts,
        ).len() == ids.len(),
    decreases ids.len(),
{
    if ids.len() > 0 {
        lemma_each_item_settles_once(ids.drop_last(), scripts.drop_last());
        lemma_unit_result_exclusive(scripts.last()@);
    }
}

/// Where each identifier's fetch outcomes are its own — `succeeds` holds
/// exactly the identifiers whose script completes, whatever order and
/// whatever worker the scheduler gave them — the set of delivered
/// identifiers is `successful_ids` of the input. With the driver's schedule
/// invariance lemma, any two schedules over the same identifiers deliver the
/// same set.
pub proof fn lemma_delivered_set(
    ids: Seq<Seq<char>>,
    scripts: Seq<Vec<FetchEvent>>,
    succeeds: Set<Seq<char>>,
)
    requires
        ids.len() == scripts.len(),
        forall|i: int|
            0 <= i < ids.len() ==> (unit_completes(#[trigger] scripts[i]@) <==> succeeds.contains(
                ids[i],
            )),
    ensures
        completed_ids(ids, scripts).to_set() == crate::driver::successful_ids(ids, succeeds),
    decreases ids.len(),
{
    if ids.len() == 0 {
        assert(completed_ids(ids, scripts).to_set() =~= crate::driver::successful_ids(
            ids,
            succeeds,
        ));
    } else {
        lemma_delivered_set(ids.drop_last(), scripts.drop_last(), succeeds);
        let rest = completed_ids(ids.drop_last(), scripts.drop_last());
        assert forall|y: Seq<char>| #[trigger]
            ids.contains(y) implies ids.drop_last().contains(y) || y == ids.last() by {
            let j = choose|j: int| 0 <= j < ids.len() && ids[j] == y;
            if j < ids.len() - 1 {
                assert(ids.drop_last()[j] == y);
            }
        }
        if unit_completes(scripts.last()@) {
            assert(completed_ids(ids, scripts) == rest.push(ids.last()));
            rest.lemma_push_to_set_commute(ids.last());
            assert(completed_ids(ids, scripts).to_set() =~= crate::driver::successful_ids(
                ids,
                succeeds,
            ));
        } else {
            assert(completed_ids(ids, scripts).to_set() =~= crate::driver::successful_ids(
                ids,
                succeeds,
            ));
        }
    }
}

/// What one full pass of the transfer stage produced: the delivered units,
/// the terminal failures as logged, and the items still pending, each in
/// input order.
#[derive(Debug)]
pub struct PoolOutcome {
    pub delivered: Vec<Paper>,
    pub failures: Vec<(String, UnitError)>,
    pub pending: Vec<String>,
}

/// Runs every work item once, in order: `scripts[i]` holds the fetch
/// outcomes that arrive for `ids[i]`. Each item settles exactly once, as the
/// three tallies say; a delivered unit carries its item's identifier and
/// exactly the files its settling event delivered, well-formed.
pub fn run_pool(ids: &Vec<String>, scripts: &Vec<Vec<FetchEvent>>) -> (r: PoolOutcome)
    requires
        ids@.len() == scripts@.len(),
    ensures
        r.delivered@.len() == completed_ids(ids.deep_view(), scripts@).len(),
        r.delivered@.len() == completed_files(scripts@).len(),
        forall|k: int|
            0 <= k < r.delivered@.len() ==> (#[trigger] r.delivered@[k]).id@ == completed_ids(
                ids.deep_view(),
                scripts@,
            )[k] && r.delivered@[k].files.deep_view() == completed_files(scripts@)[k]
                && r.delivered@[k].wf(),
        r.failures@.len() == failed_ids(ids.deep_view(), scripts@).len(),
        forall|k: int|
            0 <= k < r.failures@.len() ==> (#[trigger] r.failures@[k]).0@ == failed_ids(
                ids.deep_view(),
                scripts@,
            )[k].0 && r.failures@[k].1 == failed_ids(ids.deep_view(), scripts@)[k].1,
        r.pending@.len() == pending_ids(ids.deep_view(), scripts@).len(),
        forall|k: int|
            0 <= k < r.pending@.len() ==> (#[trigger] r.pending@[k])@ == pending_ids(
                ids.deep_view(),
                scripts@,
            )[k],
{
    let ghost gids = ids.deep_view();
    let ghost gscripts = scripts@;
    let mut delivered: Vec<Paper> = Vec::new();
    let mut failures: Vec<(String, UnitError)> = Vec::new();
    let mut pending: Vec<String> = Vec::new();
    let mut i: usize = 0;
    proof {
        assert(gids.subrange(0, 0) =~= Seq::<Seq<char>>::empty());
        assert(gscripts.subrange(0, 0) =~= Seq::<Vec<FetchEvent>>::empty());
    }
    while i < ids.len()
        invariant
            gids == ids.deep_view(),
            gscripts == scripts@,
            gids.len() == gscripts.len(),
            gids.len() == ids@.len(),
            i <= gids.len(),
            delivered@.len() == completed_ids(
                gids.subrange(0, i as int),
                gscripts.subrange(0, i as int),
            ).len(),
            delivered@.len() == completed_files(gscripts.subrange(0, i as int)).len(),
            forall|k: int|
                0 <= k < delivered@.len() ==> (#[trigger] delivered@[k]).id@ == completed_ids(
                    gids.subrange(0, i as int),
                    gscripts.subrange(0, i as int),
                )[k] && delivered@[k].files.deep_view() == completed_files(
                    gscripts.subrange(0, i as int),
                )[k] && delivered@[k].wf(),
            failures@.len() == failed_ids(
                gids.subrange(0, i as int),
                gscripts.subrange(0, i as int),
            ).len(),
            forall|k: int|
                0 <= k < failures@.len() ==> (#[trigger] failures@[k]).0@ == failed_ids(
                    gids.subrange(0, i as int),
                    gscripts.subrange(0, i as int),
                )[k].0 && failures@[k].1 == failed_ids(
                    gids.subrange(0, i as int),
                    gscripts.subrange(0, i as int),
                )[k].1,
            pending@.len() == pending_ids(
                gids.subrange(0, i as int),
                gscripts.subrange(0, i as int),
            ).len(),
            forall|k: int|
                0 <= k < pending@.len() ==> (#[trigger] pending@[k])@ == pending_ids(
                    gids.subrange(0, i as int),
                    gscripts.subrange(0, i as int),
                )[k],
        decreases gids.len() - i,
    {
        proof {
            assert(gids.subrange(0, i + 1 as int).drop_last() =~= gids.subrange(0, i as int));
            assert(gscripts.subrange(0, i + 1 as int).drop_last() =~= gscripts.subrange(
                0,
                i as int,
            ));
            assert(gids[i as int] == ids@[i as int].deep_view());
        }
        let outcome = run_unit(ids[i].as_str(), &scripts[i]);
        match outcome {
            (UnitResult::Completed(p), _) => {
                delivered.push(p);
            },
            (UnitResult::Failed(e), _) => {
                failures.push((ids[i].clone(), e));
            },
            (UnitResult::Pending, _) => {
                pending.push(ids[i].clone());
            },
        }
        i = i + 1;
    }
    proof {
        assert(gids.subrange(0, gids.len() as int) =~= gids);
        assert(gscripts.subrange(0, gscripts.len() as int) =~= gscripts);
    }
    PoolOutcome { delivered, failures, pending }
}

} // verus!
