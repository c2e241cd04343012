//! End-to-end tests of the pipeline's verified core, run against the real
//! codec crates: hand-built tape archives, gzip-compressed, fed through
//! extraction, the retry loop, and the persistence bookkeeping.
use paper_harvest::driver::{load_ids, prepare_ids};
use paper_harvest::errors::{StartupError, UnitError};
use paper_harvest::extract::extract;
use paper_harvest::fetch::{handle_fetch_event, FetchEvent, StepOutcome};
use paper_harvest::paper::{name_qualifies, Paper};
use paper_harvest::pool::run_pool;
use paper_harvest::progress::{drain_results, persist_step, Progress};
use paper_harvest::worker::{run_unit, worker_step, UnitResult, WorkerEvent, WorkerState};

/// Writes `n` into a tar octal field of `width` bytes (digits then NUL).
fn octal_field(buf: &mut [u8], n: usize) {
    let width = buf.len();
    for b in buf.iter_mut() {
        *b = b'0';
    }
    buf[width - 1] = 0;
    let mut v = n;
    let mut i = width - 2;
    loop {
        buf[i] = b'0' + (v % 8) as u8;
        v /= 8;
        if v == 0 || i == 0 {
            break;
        }
        i -= 1;
    }
}

/// Fills the checksum field of a raw tar header.
fn finish_header(header: &mut [u8; 512]) {
    for b in header[148..156].iter_mut() {
        *b = b' ';
    }
    let sum: usize = header.iter().map(|b| *b as usize).sum();
    let chk = format!("{:06o}\u{0} ", sum);
    header[148..156].copy_from_slice(chk.as_bytes());
}

/// A raw tar header for a regular file, checksum not yet filled.
fn bare_header(name: &str) -> [u8; 512] {
    let mut header = [0u8; 512];
    header[..name.len()].copy_from_slice(name.as_bytes());
    octal_field(&mut header[100..108], 0o644);
    octal_field(&mut header[108..116], 0);
    octal_field(&mut header[116..124], 0);
    octal_field(&mut header[136..148], 0);
    header[156] = b'0';
    header
}

/// Builds a plain tape archive with the given (name, content) entries.
fn tar_bytes(entries: &[(&str, &[u8])]) -> Vec<u8> {
    let mut out = Vec::new();
    for (name, content) in entries {
        let mut header = bare_header(name);
        octal_field(&mut header[124..136], content.len());
        finish_header(&mut header);
        out.extend_from_slice(&header);
        out.extend_from_slice(content);
        let pad = (512 - content.len() % 512) % 512;
        out.extend_from_slice(&vec![0u8; pad]);
    }
    out.extend_from_slice(&[0u8; 1024]);
    out
}

/// Compresses bytes with the same gzip codec the library relies on.
fn gzip_bytes(data: &[u8]) -> Vec<u8> {
    let mut encoder = async_compression::futures::bufread::GzipEncoder::new(data);
    let mut out = Vec::new();
    futures::executor::block_on(futures::AsyncReadExt::read_to_end(&mut encoder, &mut out))
        .unwrap();
    out
}

fn archive_of(entries: &[(&str, &[u8])]) -> Vec<u8> {
    gzip_bytes(&tar_bytes(entries))
}

#[test]
fn name_filter_accepts_only_top_level_target_extension() {
    assert!(name_qualifies("a.tex"));
    assert!(name_qualifies(".tex"));
    assert!(name_qualifies("main.body.tex"));
    assert!(!name_qualifies("b/c.tex"));
    assert!(!name_qualifies("d.txt"));
    assert!(!name_qualifies("tex"));
    assert!(!name_qualifies(""));
}

#[test]
fn extraction_keeps_exactly_qualifying_entries() {
    let raw = archive_of(&[("a.tex", b"x"), ("b/c.tex", b"y"), ("d.txt", b"z")]);
    let files = extract(&raw).unwrap();
    assert_eq!(files.len(), 1);
    assert_eq!(files[0].name, "a.tex");
    assert_eq!(files[0].content, b"x");
}

#[test]
fn extraction_preserves_container_order() {
    let raw = archive_of(&[("z.tex", b"1"), ("a.tex", b"2"), ("skip.txt", b"3"), ("m.tex", b"4")]);
    let files = extract(&raw).unwrap();
    let names: Vec<&str> = files.iter().map(|f| f.name.as_str()).collect();
    assert_eq!(names, vec!["z.tex", "a.tex", "m.tex"]);
    assert_eq!(files[2].content, b"4");
}

#[test]
fn extraction_with_no_qualifying_entry_is_a_failure() {
    let raw = archive_of(&[("b/c.tex", b"y"), ("d.txt", b"z")]);
    assert_eq!(extract(&raw).unwrap_err(), UnitError::ExtractionEmpty);
}

#[test]
fn extraction_of_empty_archive_is_a_failure() {
    let raw = archive_of(&[]);
    assert_eq!(extract(&raw).unwrap_err(), UnitError::ExtractionEmpty);
}

#[test]
fn corrupt_stream_is_reported_as_corrupt() {
    assert_eq!(extract(b"not gzip at all").unwrap_err(), UnitError::ExtractionCorrupt);
    let garbage = gzip_bytes(&[0x55u8; 700]);
    assert_eq!(extract(&garbage).unwrap_err(), UnitError::ExtractionCorrupt);
}

#[test]
fn hostile_size_field_is_corrupt_not_fatal() {
    // A well-checksummed header declaring a base-256 size of u64::MAX: the
    // container reader must reject it as a structural error, not abort.
    let mut header = bare_header("a.tex");
    header[124] = 0x80;
    for b in header[128..136].iter_mut() {
        *b = 0xff;
    }
    finish_header(&mut header);
    let mut raw = header.to_vec();
    raw.extend_from_slice(&[0u8; 1024]);
    assert_eq!(extract(&gzip_bytes(&raw)).unwrap_err(), UnitError::ExtractionCorrupt);
}

#[test]
fn rate_limit_is_the_only_retry_signal() {
    assert!(UnitError::TransientRateLimited.is_retryable());
    assert!(!UnitError::TransientNetwork.is_retryable());
    assert!(!UnitError::PermanentNotFound.is_retryable());
    assert!(!UnitError::StorageConflict.is_retryable());
}

#[test]
fn response_classification_follows_the_taxonomy() {
    let throttle = FetchEvent::Response { status: 429, body: Vec::new() };
    assert!(matches!(handle_fetch_event("p", &throttle), StepOutcome::RetryAfterCooldown));
    let missing = FetchEvent::Response { status: 404, body: Vec::new() };
    assert!(matches!(
        handle_fetch_event("p", &missing),
        StepOutcome::Failed(UnitError::PermanentNotFound)
    ));
    let server_err = FetchEvent::Response { status: 500, body: Vec::new() };
    assert!(matches!(
        handle_fetch_event("p", &server_err),
        StepOutcome::Failed(UnitError::TransientNetwork)
    ));
    assert!(matches!(
        handle_fetch_event("p", &FetchEvent::NetworkFailure),
        StepOutcome::Failed(UnitError::TransientNetwork)
    ));
    let not_gzip = FetchEvent::Response { status: 200, body: b"PK\x03\x04".to_vec() };
    assert!(matches!(
        handle_fetch_event("p", &not_gzip),
        StepOutcome::Failed(UnitError::PermanentMalformed)
    ));
}

#[test]
fn rate_limited_three_times_then_success_yields_one_unit() {
    let throttle = || FetchEvent::Response { status: 429, body: Vec::new() };
    let good = FetchEvent::Response { status: 200, body: archive_of(&[("a.tex", b"x")]) };
    let events = vec![throttle(), throttle(), throttle(), good];
    let (result, waits) = run_unit("2101.00001", &events);
    assert_eq!(waits, 3);
    match result {
        UnitResult::Completed(paper) => {
            assert_eq!(paper.id, "2101.00001");
            assert_eq!(paper.files.len(), 1);
            assert_eq!(paper.files[0].name, "a.tex");
            assert_eq!(paper.files[0].content, b"x");
        }
        _ => panic!("expected a completed unit"),
    }
}

#[test]
fn terminal_error_ends_the_unit_without_retry() {
    let events = vec![FetchEvent::NetworkFailure];
    let (result, waits) = run_unit("p", &events);
    assert_eq!(waits, 0);
    assert!(matches!(result, UnitResult::Failed(UnitError::TransientNetwork)));
}

#[test]
fn all_rate_limited_leaves_the_unit_pending() {
    let events = vec![
        FetchEvent::Response { status: 429, body: Vec::new() },
        FetchEvent::Response { status: 429, body: Vec::new() },
    ];
    let (result, waits) = run_unit("p", &events);
    assert_eq!(waits, 2);
    assert!(matches!(result, UnitResult::Pending));
}

fn paper(id: &str) -> Paper {
    Paper { id: id.to_string(), files: Vec::new() }
}

#[test]
fn counter_advances_once_per_received_unit() {
    let results = vec![paper("a"), paper("b"), paper("c")];
    let conflicts = vec![false, true, false];
    let mut progress = Progress::new(10);
    let stored = drain_results(results, &conflicts, &mut progress);
    assert_eq!(progress.completed, 3);
    assert_eq!(progress.total, 10);
    assert_eq!(stored.len(), 2);
    assert_eq!(stored[0].id, "a");
    assert_eq!(stored[1].id, "c");
}

#[test]
fn storage_conflict_skips_the_unit_but_counts_it() {
    let mut progress = Progress::new(5);
    let outcome = persist_step(&mut progress, true);
    assert_eq!(outcome.unwrap_err(), UnitError::StorageConflict);
    assert_eq!(progress.completed, 1);
    let outcome = persist_step(&mut progress, false);
    assert!(outcome.is_ok());
    assert_eq!(progress.completed, 2);
}

#[test]
fn overlapping_rerun_skips_existing_directories() {
    let first = vec![paper("a"), paper("b")];
    let mut progress = Progress::new(4);
    let stored_first = drain_results(first, &vec![false, false], &mut progress);
    assert_eq!(stored_first.len(), 2);
    let second = vec![paper("a"), paper("d")];
    let stored_second = drain_results(second, &vec![true, false], &mut progress);
    assert_eq!(stored_second.len(), 1);
    assert_eq!(stored_second[0].id, "d");
    assert_eq!(progress.completed, 4);
}

fn successful_set(ids: &[&str], bodies: &[(&str, Vec<u8>)]) -> Vec<String> {
    let mut stored = Vec::new();
    for id in ids {
        let body = bodies.iter().find(|(k, _)| k == id).map(|(_, b)| b.clone()).unwrap();
        let events = vec![FetchEvent::Response { status: 200, body }];
        if let (UnitResult::Completed(p), _) = run_unit(id, &events) {
            stored.push(p.id);
        }
    }
    stored.sort();
    stored
}

#[test]
fn processing_order_does_not_change_the_output_set() {
    let good = archive_of(&[("a.tex", b"x")]);
    let bad = b"not gzip".to_vec();
    let bodies = vec![
        ("p1", good.clone()),
        ("p2", bad.clone()),
        ("p3", good.clone()),
        ("p4", good.clone()),
    ];
    let one_order = successful_set(&["p1", "p2", "p3", "p4"], &bodies);
    let other_order = successful_set(&["p4", "p3", "p2", "p1"], &bodies);
    assert_eq!(one_order, vec!["p1", "p3", "p4"]);
    assert_eq!(one_order, other_order);
}

#[test]
fn every_item_settles_exactly_once() {
    let good = archive_of(&[("a.tex", b"x")]);
    let ids = vec!["p1".to_string(), "p2".to_string(), "p3".to_string(), "p4".to_string()];
    let scripts = vec![
        vec![FetchEvent::Response { status: 200, body: good.clone() }],
        vec![FetchEvent::Response { status: 200, body: b"BAD".to_vec() }],
        vec![FetchEvent::Response { status: 429, body: Vec::new() }],
        vec![
            FetchEvent::Response { status: 429, body: Vec::new() },
            FetchEvent::Response { status: 200, body: good.clone() },
        ],
    ];
    let outcome = run_pool(&ids, &scripts);
    assert_eq!(outcome.delivered.len(), 2);
    assert_eq!(outcome.delivered[0].id, "p1");
    assert_eq!(outcome.delivered[1].id, "p4");
    assert_eq!(outcome.delivered[0].files.len(), 1);
    assert_eq!(outcome.delivered[0].files[0].name, "a.tex");
    assert_eq!(outcome.delivered[1].files[0].content, b"x");
    assert_eq!(outcome.failures.len(), 1);
    assert_eq!(outcome.failures[0].0, "p2");
    assert_eq!(outcome.failures[0].1, UnitError::PermanentMalformed);
    assert_eq!(outcome.pending.len(), 1);
    assert_eq!(outcome.pending[0], "p3");
    assert_eq!(outcome.delivered.len() + outcome.failures.len() + outcome.pending.len(), ids.len());

    let mut progress = Progress::new(ids.len());
    let delivered_count = outcome.delivered.len();
    let stored = drain_results(outcome.delivered, &vec![false; delivered_count], &mut progress);
    assert_eq!(progress.completed, delivered_count);
    assert_eq!(stored.len(), delivered_count);
}

#[test]
fn load_ids_accepts_exactly_nonempty_string_arrays() {
    let ids = load_ids(b"[\"p1\",\"p2\"]").unwrap();
    assert_eq!(ids, vec!["p1".to_string(), "p2".to_string()]);
    assert_eq!(load_ids(b"[]").unwrap_err(), StartupError::EmptyList);
    assert_eq!(load_ids(b"{}").unwrap_err(), StartupError::MalformedList);
    assert_eq!(load_ids(b"[1,2]").unwrap_err(), StartupError::MalformedList);
    assert_eq!(load_ids(b"not json").unwrap_err(), StartupError::MalformedList);
}

#[test]
fn prepare_ids_keeps_every_identifier() {
    let mut ids = prepare_ids(b"[\"a\",\"b\",\"c\",\"b\"]").unwrap();
    ids.sort();
    assert_eq!(ids, vec!["a".to_string(), "b".to_string(), "b".to_string(), "c".to_string()]);
    assert_eq!(prepare_ids(b"[]").unwrap_err(), StartupError::EmptyList);
}

#[test]
fn worker_state_machine_follows_the_design() {
    let s = worker_step(WorkerState::Idle, WorkerEvent::WorkReceived("p".to_string()));
    assert!(matches!(&s, WorkerState::Fetching(id) if id == "p"));
    let s = worker_step(s, WorkerEvent::FetchRateLimited);
    assert!(matches!(&s, WorkerState::Retrying(id) if id == "p"));
    let s = worker_step(s, WorkerEvent::CooldownElapsed);
    assert!(matches!(&s, WorkerState::Fetching(id) if id == "p"));
    let s = worker_step(s, WorkerEvent::FetchCompleted(paper("p")));
    assert!(matches!(&s, WorkerState::Delivering(_)));
    let s = worker_step(s, WorkerEvent::DeliveryAccepted);
    assert!(matches!(s, WorkerState::Idle));
    let s = worker_step(WorkerState::Idle, WorkerEvent::WorkClosed);
    assert!(matches!(s, WorkerState::Exited));
    let s = worker_step(
        WorkerState::Delivering(paper("p")),
        WorkerEvent::DeliveryRefused,
    );
    assert!(matches!(s, WorkerState::Exited));
    let s = worker_step(
        WorkerState::Fetching("p".to_string()),
        WorkerEvent::FetchFailed(UnitError::PermanentNotFound),
    );
    assert!(matches!(s, WorkerState::Idle));
}
