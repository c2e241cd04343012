//! The persistence stage's bookkeeping: the process-wide progress counters,
//! the per-unit storage decision, and the drain of a closed result queue.
//!
//! The persistence worker is the only writer of the counters. It advances
//! `completed` exactly once per result unit received — whether or not the
//! unit's directory could be created and whether or not every file write
//! succeeded — so that after a full drain the counter equals the number of
//! units ever delivered.
use vstd::prelude::*;

use crate::errors::UnitError;
use crate::paper::Paper;

verus! {

/// The progress counters: units persisted so far, out of the announced
/// total. Initialized once at startup; only the persistence stage advances
/// `completed`.
#[derive(Debug, Clone, Copy, PartialEq, Eq, Structural)]
pub struct Progress {
    pub completed: usize,
    pub total: usize,
}

impl Progress {
    /// Fresh counters for a run over `total` work items.
    pub fn new(total: usize) -> (r: Progress)
        ensures
            r.completed == 0,
            r.total == total,
    {
        Progress { completed: 0, total }
    }
}

/// One persistence step, called exactly once per result unit received, with
/// `dir_exists` reporting whether the unit's output directory was already
/// present. A pre-existing directory is a storage conflict: the unit is
/// skipped and its directory left untouched. The completed counter advances
/// either way.
pub fn persist_step(progress: &mut Progress, dir_exists: bool) -> (r: Result<(), UnitError>)
    requires
        old(progress).completed < usize::MAX,
    ensures
        final(progress).completed == old(progress).completed + 1,
        final(progress).total == old(progress).total,
        r == if dir_exists {
            Err::<(), UnitError>(UnitError::StorageConflict)
        } else {
            Ok::<(), UnitError>(())
        },
{
    progress.completed = progress.completed + 1;
    if dir_exists {
        Err(UnitError::StorageConflict)
    } else {
        Ok(())
    }
}

/// The units a full drain stores: those whose directory was not already
/// present, in arrival order.
pub open spec fn spec_stored(results: Seq<Paper>, conflicts: Seq<bool>) -> Seq<Paper>
    decreases results.len(),
{
    if results.len() == 0 || conflicts.len() == 0 {
        Seq::empty()
    } else {
        let head: Seq<Paper> = if conflicts[0] {
            Seq::empty()
        } else {
            seq![results[0]]
        };
        head + spec_stored(results.drop_first(), conflicts.drop_first())
    }
}

/// Drains a closed result queue to completion: `results` are the units in
/// arrival order, and `conflicts[i]` reports whether unit i's directory
/// already existed. After the drain the completed counter has advanced by
/// exactly the number of units ever delivered — conflicts and worker count
/// notwithstanding — and the stored units are exactly the unconflicted ones,
/// in arrival order.
pub fn drain_results(results: Vec<Paper>, conflicts: &Vec<bool>, progress: &mut Progress) -> (stored:
    Vec<Paper>)
    requires
        results@.len() == conflicts@.len(),
        old(progress).completed + results@.len() <= usize::MAX,
    ensures
        final(progress).completed == old(progress).completed + results@.len(),
        final(progress).total == old(progress).total,
        stored@ == spec_stored(results@, conflicts@),
{
    let ghost all_r = results@;
    let ghost all_c = conflicts@;
    let mut rest = results;
    let mut stored: Vec<Paper> = Vec::new();
    let mut k: usize = 0;
    proof {
        assert(all_c.subrange(0, all_c.len() as int) =~= all_c);
        assert(Seq::<Paper>::empty() + spec_stored(all_r, all_c) =~= spec_stored(all_r, all_c));
    }
    while rest.len() > 0
        invariant
            all_c == conflicts@,
            all_r.len() == all_c.len(),
            k as int == all_r.len() - rest@.len(),
            rest@ =~= all_r.subrange(k as int, all_r.len() as int),
            progress.completed == old(progress).completed + k,
            progress.total == old(progress).total,
            old(progress).completed + all_r.len() <= usize::MAX,
            stored@ + spec_stored(rest@, all_c.subrange(k as int, all_c.len() as int))
                =~= spec_stored(all_r, all_c),
        decreases rest@.len(),
    {
        let ghost rest_before = rest@;
        let ghost csub_before = all_c.subrange(k as int, all_c.len() as int);
        let unit = rest.remove(0);
        let dir_exists = conflicts[k];
        proof {
            assert(rest_before[0] == all_r[k as int]);
            assert(csub_before[0] == all_c[k as int]);
            assert(rest_before.drop_first() =~= all_r.subrange(k + 1 as int, all_r.len() as int));
            assert(csub_before.drop_first() =~= all_c.subrange(k + 1 as int, all_c.len() as int));
        }
        let outcome = persist_step(progress, dir_exists);
        match outcome {
            Ok(()) => {
                stored.push(unit);
            },
            Err(_) => {},
        }
        k = k + 1;
    }
    proof {
        assert(stored@ =~= spec_stored(all_r, all_c));
    }
    stored
}

} // verus!
