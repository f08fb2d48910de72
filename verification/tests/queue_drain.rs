//! The work queue, the pacing computation, and the drain decision.

use wdscli::drain::{drain_limit, drain_run, drain_step, DrainStep};
use wdscli::pace::{pacing_wait_ms, throttle_backoff_ms};
use wdscli::queue::{WorkItem, WorkQueue};

#[test]
fn queue_is_fifo_and_loses_nothing() {
    let mut q = WorkQueue::new();
    assert_eq!(q.len(), 0);
    q.push(WorkItem::Work("a".to_string()));
    q.push(WorkItem::Work("b".to_string()));
    q.push(WorkItem::Shutdown);
    assert_eq!(q.len(), 3);

    match q.try_pop() {
        Some(WorkItem::Work(p)) => assert_eq!(p, "a"),
        _ => panic!("expected the first path"),
    }
    match q.try_pop() {
        Some(WorkItem::Work(p)) => assert_eq!(p, "b"),
        _ => panic!("expected the second path"),
    }
    match q.try_pop() {
        Some(item) => assert!(item.is_shutdown()),
        None => panic!("expected the sentinel"),
    }
    assert!(q.try_pop().is_none());
    assert_eq!(q.len(), 0);
}

#[test]
fn shutdown_is_a_tagged_value_not_an_empty_path() {
    // An empty path is ordinary work; only the tagged sentinel stops a worker.
    let empty_path = WorkItem::Work(String::new());
    assert!(!empty_path.is_shutdown());
    assert!(WorkItem::Shutdown.is_shutdown());
}

#[test]
fn wait_budget_is_thirty_or_the_worker_count() {
    assert_eq!(drain_limit(0), 30);
    assert_eq!(drain_limit(2), 30);
    assert_eq!(drain_limit(30), 30);
    assert_eq!(drain_limit(31), 31);
    assert_eq!(drain_limit(64), 64);
}

#[test]
fn drain_finishes_on_an_empty_queue() {
    let mut waits: u64 = 0;
    let d = drain_step(false, &mut waits, 30);
    assert!(matches!(d, DrainStep::Finished));
    assert_eq!(waits, 0);
}

#[test]
fn drain_times_out_after_exactly_the_budget_plus_one_waits() {
    // Every poll finds an item: the drain aborts on wait 31 of a
    // 30-wait budget.
    let obs = vec![true; 40];
    let (waits, outcome) = drain_run(&obs, 30);
    assert_eq!(waits, 31);
    assert!(matches!(outcome, DrainStep::TimedOut));
}

#[test]
fn drain_finishes_once_the_queue_empties_in_time() {
    let obs = vec![true, true, false, true];
    let (waits, outcome) = drain_run(&obs, 30);
    assert_eq!(waits, 2);
    assert!(matches!(outcome, DrainStep::Finished));
}

#[test]
fn drain_with_a_larger_worker_count_waits_longer() {
    let obs = vec![true; 70];
    let (waits, outcome) = drain_run(&obs, 64);
    assert_eq!(waits, 65);
    assert!(matches!(outcome, DrainStep::TimedOut));
}

#[test]
fn pacing_sleeps_for_the_shortfall_only() {
    // pace 500 ms, 3 ticks: target 1500 ms.
    assert_eq!(pacing_wait_ms(500, 3, 700), 800);
    assert_eq!(pacing_wait_ms(500, 3, 1500), 0);
    assert_eq!(pacing_wait_ms(500, 3, 2000), 0);
    assert_eq!(pacing_wait_ms(0, 1000, 0), 0);
    assert_eq!(pacing_wait_ms(500, 0, 0), 0);
}

#[test]
fn throttle_backoff_doubles_the_pace() {
    assert_eq!(throttle_backoff_ms(500), 1000);
    assert_eq!(throttle_backoff_ms(0), 0);
    assert_eq!(throttle_backoff_ms(u64::MAX), u64::MAX);
}

#[test]
fn throttle_penalties_inflate_the_pacing_target() {
    // One item enqueued, then a throttled response adds four ticks:
    // the next pacing step must cover five ticks, not one.
    let quiet = pacing_wait_ms(500, 1, 0);
    let pressured = pacing_wait_ms(500, 5, 0);
    assert_eq!(quiet, 500);
    assert_eq!(pressured, 2500);
}
