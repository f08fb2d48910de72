//! The retry machine, the scripted run, and the final report.

use wdscli::engine::{run_ingestion, IngestConfig, ItemScript};
use wdscli::ids::{allocate_document_id, document_id_string, millis_from_parts};
use wdscli::report::final_report;
use wdscli::retry::{process_item, record_outcome, Counters, ItemStatus, Outcome, RetryState, StepVerdict};

fn config(workers: u32, retry_limit: u32, pace_ms: u64) -> IngestConfig {
    IngestConfig {
        workers,
        retry_limit,
        pace_ms,
        environment_id: "env-1".to_string(),
        collection_id: "col-1".to_string(),
    }
}

#[test]
fn three_files_two_workers_unthrottled() {
    // Three files, two workers, pace zero, all succeed first try.
    let cfg = config(2, 2, 0);
    let mut c = Counters::new(0x100);
    let jobs = vec![
        ItemScript { path: "a.txt".to_string(), outcomes: vec![Outcome::Success] },
        ItemScript { path: "b.txt".to_string(), outcomes: vec![Outcome::Success] },
        ItemScript { path: "c.txt".to_string(), outcomes: vec![Outcome::Success] },
    ];
    let records = run_ingestion(&cfg, &mut c, &jobs);
    let report = final_report(&c, 0);
    assert_eq!(report.success, 3);
    assert_eq!(report.failure, 0);
    assert_eq!(report.too_many_requests, 0);
    assert_eq!(report.other_errors, 0);
    assert_eq!(records.len(), 3);
    assert_eq!(records[0].path, "a.txt");
    assert_eq!(records[1].path, "b.txt");
    assert_eq!(records[2].path, "c.txt");
    assert!(matches!(records[0].status, ItemStatus::DoneSuccess));
    assert!(matches!(records[1].status, ItemStatus::DoneSuccess));
    assert!(matches!(records[2].status, ItemStatus::DoneSuccess));
}

#[test]
fn document_ids_are_distinct_eleven_hex_digits() {
    let cfg = config(4, 1, 0);
    let mut c = Counters::new(0xdeadbeef);
    let jobs = vec![
        ItemScript { path: "x".to_string(), outcomes: vec![Outcome::Success] },
        ItemScript { path: "y".to_string(), outcomes: vec![Outcome::Success] },
        ItemScript { path: "z".to_string(), outcomes: vec![Outcome::Success] },
    ];
    let records = run_ingestion(&cfg, &mut c, &jobs);
    assert_eq!(records[0].document_id, "000deadbeef");
    assert_eq!(records[1].document_id, "000deadbef0");
    assert_eq!(records[2].document_id, "000deadbef1");
    for r in &records {
        assert_eq!(r.document_id.len(), 11);
        assert!(r.document_id.chars().all(|ch| ch.is_ascii_hexdigit()
            && !ch.is_ascii_uppercase()));
    }
    assert_ne!(records[0].document_id, records[1].document_id);
    assert_ne!(records[0].document_id, records[2].document_id);
    assert_ne!(records[1].document_id, records[2].document_id);
    assert_eq!(c.next_document_id, 0xdeadbeef + 3);
}

#[test]
fn exactly_retry_limit_plus_one_transients_is_permanent_failure() {
    // retryLimit = 2: three transient errors exhaust the budget.
    let mut c = Counters::new(0);
    let outcomes = vec![Outcome::Transient, Outcome::Transient, Outcome::Transient];
    let status = process_item(2, &mut c, &outcomes);
    assert!(matches!(status, ItemStatus::DoneFailure));
    assert_eq!(c.failure, 1);
    assert_eq!(c.other_errors, 3);
    assert_eq!(c.success, 0);
    assert_eq!(c.too_many_requests, 0);
    // Only the two retried errors ask the producer for another tick.
    assert_eq!(c.tick, 2);
}

#[test]
fn exactly_retry_limit_transients_then_success_is_delivered() {
    // retryLimit = 2: two transient errors, then success.
    let mut c = Counters::new(0);
    let outcomes = vec![Outcome::Transient, Outcome::Transient, Outcome::Success];
    let status = process_item(2, &mut c, &outcomes);
    assert!(matches!(status, ItemStatus::DoneSuccess));
    assert_eq!(c.success, 1);
    assert_eq!(c.failure, 0);
    assert_eq!(c.other_errors, 2);
    assert_eq!(c.tick, 2);
}

#[test]
fn throttling_never_counts_as_failure() {
    let mut c = Counters::new(0);
    let outcomes = vec![Outcome::Throttled, Outcome::Throttled, Outcome::Success];
    let status = process_item(0, &mut c, &outcomes);
    assert!(matches!(status, ItemStatus::DoneSuccess));
    assert_eq!(c.failure, 0);
    assert_eq!(c.too_many_requests, 2);
    assert_eq!(c.other_errors, 0);
    assert_eq!(c.success, 1);
    // Four pacing ticks per throttled response.
    assert_eq!(c.tick, 8);
}

#[test]
fn a_script_that_never_ends_leaves_the_item_in_flight() {
    let mut c = Counters::new(0);
    let outcomes = vec![Outcome::Throttled, Outcome::Throttled];
    let status = process_item(0, &mut c, &outcomes);
    assert!(matches!(status, ItemStatus::InFlight));
    assert_eq!(c.too_many_requests, 2);
    assert_eq!(c.success + c.failure, 0);
}

#[test]
fn one_step_verdicts() {
    let mut c = Counters::new(0);
    let mut st = RetryState { transient_errors: 0 };
    let v = record_outcome(1, &mut c, &mut st, Outcome::Throttled);
    assert!(matches!(v, StepVerdict::RetryThrottled));
    assert_eq!(st.transient_errors, 0);

    let v = record_outcome(1, &mut c, &mut st, Outcome::Transient);
    assert!(matches!(v, StepVerdict::RetryTransient));
    assert_eq!(st.transient_errors, 1);

    let v = record_outcome(1, &mut c, &mut st, Outcome::Transient);
    assert!(matches!(v, StepVerdict::GivenUp));
    assert_eq!(st.transient_errors, 2);

    let v = record_outcome(1, &mut c, &mut RetryState { transient_errors: 0 }, Outcome::Success);
    assert!(matches!(v, StepVerdict::Succeeded));
    assert_eq!(c.success, 1);
    assert_eq!(c.failure, 1);
    assert_eq!(c.too_many_requests, 1);
    assert_eq!(c.other_errors, 2);
}

#[test]
fn mixed_batch_accounting_adds_up() {
    // Success + failure across a mixed batch equals the number of files.
    let cfg = config(1, 1, 250);
    let mut c = Counters::new(1);
    let jobs = vec![
        ItemScript { path: "ok".to_string(), outcomes: vec![Outcome::Success] },
        ItemScript {
            path: "slow".to_string(),
            outcomes: vec![Outcome::Throttled, Outcome::Transient, Outcome::Success],
        },
        ItemScript {
            path: "bad".to_string(),
            outcomes: vec![Outcome::Transient, Outcome::Transient],
        },
    ];
    let records = run_ingestion(&cfg, &mut c, &jobs);
    assert_eq!(records.len(), 3);
    assert_eq!(c.success, 2);
    assert_eq!(c.failure, 1);
    assert_eq!(c.success + c.failure, 3);
    assert_eq!(c.too_many_requests, 1);
    assert_eq!(c.other_errors, 3);
    assert!(matches!(records[2].status, ItemStatus::DoneFailure));
}

#[test]
fn id_allocation_is_fetch_and_increment() {
    let mut c = Counters::new(41);
    let a = allocate_document_id(&mut c);
    let b = allocate_document_id(&mut c);
    assert_eq!(a, 41);
    assert_eq!(b, 42);
    assert_ne!(a, b);
    assert_eq!(c.next_document_id, 43);
}

#[test]
fn document_id_rendering() {
    assert_eq!(document_id_string(0), "00000000000");
    assert_eq!(document_id_string(0x100), "00000000100");
    assert_eq!(document_id_string(0xdeadbeef), "000deadbeef");
    // The largest value that still fits eleven digits.
    assert_eq!(document_id_string(0xffffffffff9), "ffffffffff9");
}

#[test]
fn default_starting_id_is_epoch_milliseconds() {
    assert_eq!(millis_from_parts(0, 0), 0);
    assert_eq!(millis_from_parts(1, 500_000_000), 1500);
    assert_eq!(millis_from_parts(1_490_000_000, 999_999_999), 1_490_000_000_999);
}

#[test]
fn report_lines_render_the_tallies() {
    let mut c = Counters::new(0);
    c.success = 3;
    c.other_errors = 2;
    c.failure = 1;
    let report = final_report(&c, 7);
    let lines = report.render_lines();
    assert_eq!(lines.len(), 3);
    assert_eq!(lines[0], "\nSent 3 documents in 7 seconds");
    assert_eq!(lines[1], "Hit 0 TooManyRequests (429) responses and 2 unexpected errors");
    assert_eq!(lines[2], "1 documents failed");
}
