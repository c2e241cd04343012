//! The dispatch driver's decision logic: load and validate the input
//! identifier list, and permute it so that no worker always drains the same
//! run of large units. Feeding the work queue and the shutdown sequence are
//! plain queue operations performed by the surrounding runtime.
use vstd::prelude::*;

use crate::errors::StartupError;

verus! {

/// What parsing the input document yields: the identifiers in document
/// order, or nothing where the document is not a sequence of strings. A
/// function of the input bytes alone.
pub uninterp spec fn id_list_of(bytes: Seq<u8>) -> Option<Seq<Seq<char>>>;

/// Relies on `serde_json::from_slice`: parsing a byte slice is a
/// deterministic function of the bytes; the conversion keeps exactly the
/// documents that are an array with every element a string.
#[verifier::external_body]
fn parse_id_list(bytes: &[u8]) -> (r: Option<Vec<String>>)
    ensures
        r is Some <==> id_list_of(bytes@) is Some,
        r matches Some(ids) ==> Some(ids.deep_view()) == id_list_of(bytes@),
{
    let value: serde_json::Value = serde_json::from_slice(bytes).ok()?;
    let arr = value.as_array()?;
    let mut out: Vec<String> = Vec::new();
    for v in arr {
        out.push(v.as_str()?.to_string());
    }
    Some(out)
}

/// Loads the input identifier list: the document must parse as a sequence
/// of strings and must name at least one identifier; anything else is a
/// fatal startup error.
pub fn load_ids(raw: &[u8]) -> (r: Result<Vec<String>, StartupError>)
    ensures
        r matches Ok(ids) ==> id_list_of(raw@) matches Some(l) && ids.deep_view() == l && l.len()
            > 0,
        r == Err::<Vec<String>, _>(StartupError::MalformedList) <==> id_list_of(raw@) is None,
        r == Err::<Vec<String>, _>(StartupError::EmptyList) <==> (id_list_of(raw@) matches Some(l)
            && l.len() == 0),
{
    match parse_id_list(raw) {
        None => Err(StartupError::MalformedList),
        Some(ids) => {
            if ids.len() == 0 {
                Err(StartupError::EmptyList)
            } else {
                Ok(ids)
            }
        },
    }
}

/// Relies on rand's `SliceRandom::shuffle` with the thread-local generator:
/// it permutes the slice in place. Which permutation comes out depends on
/// the generator's state, so only the multiset of identifiers — and so the
/// multiset of their views — is promised, and it holds of every outcome.
#[verifier::external_body]
fn shuffle_ids(ids: &mut Vec<String>)
    ensures
        final(ids)@.to_multiset() == old(ids)@.to_multiset(),
        final(ids).deep_view().to_multiset() == old(ids).deep_view().to_multiset(),
{
    rand::seq::SliceRandom::shuffle(ids.as_mut_slice(), &mut rand::thread_rng());
}

/// Prepares one run's work items: loads and validates the identifier list,
/// then randomly permutes it. Succeeds exactly on a well-formed, non-empty
/// document, returning the parsed identifiers in some order — the multiset
/// is the document's.
pub fn prepare_ids(raw: &[u8]) -> (r: Result<Vec<String>, StartupError>)
    ensures
        r is Ok <==> (id_list_of(raw@) matches Some(l) && l.len() > 0),
        r matches Ok(ids) ==> ids.deep_view().to_multiset() == id_list_of(
            raw@,
        ).unwrap().to_multiset(),
        r matches Err(e) ==> (id_list_of(raw@) is None ==> e == StartupError::MalformedList) && (
        id_list_of(raw@) is Some ==> e == StartupError::EmptyList),
{
    let mut ids = match load_ids(raw) {
        Ok(ids) => ids,
        Err(e) => {
            return Err(e);
        },
    };
    shuffle_ids(&mut ids);
    Ok(ids)
}

/// The identifiers a run persists: those of the input whose own end-to-end
/// outcome is a success. An identifier's fate is its own; the set does not
/// depend on the order the identifiers were handed out in.
pub open spec fn successful_ids(ids: Seq<Seq<char>>, succeeds: Set<Seq<char>>) -> Set<Seq<char>> {
    ids.to_set().intersect(succeeds)
}

/// Schedule invariance: two runs over the same identifiers — however the
/// identifiers were permuted or spread over however many workers — persist
/// the same set of units, because each identifier's outcome is its own and
/// output directories are keyed by identifier, not by arrival position.
pub proof fn lemma_schedule_invariant(
    ids1: Seq<Seq<char>>,
    ids2: Seq<Seq<char>>,
    succeeds: Set<Seq<char>>,
)
    requires
        ids1.to_multiset() == ids2.to_multiset(),
    ensures
        successful_ids(ids1, succeeds) == successful_ids(ids2, succeeds),
{
    broadcast use vstd::seq_lib::group_to_multiset_ensures;

    assert forall|x: Seq<char>| ids1.contains(x) implies ids2.contains(x) by {
        assert(ids1.to_multiset().count(x) > 0);
    }
    assert forall|x: Seq<char>| ids2.contains(x) implies ids1.contains(x) by {
        assert(ids2.to_multiset().count(x) > 0);
    }
    assert(ids1.to_set() =~= ids2.to_set());
}

} // verus!
