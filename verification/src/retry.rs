//! The per-item retry state machine and the run-wide counters it drives.
//!
//! One work item (one file) is submitted to the remote ingestion endpoint
//! until it either succeeds, or exhausts its budget of transient-error
//! retries. A throttled response never consumes that budget: it is retried
//! indefinitely, after a local backoff and a strong pacing penalty.

use vstd::prelude::*;

verus! {

/// Classification of one attempt of the remote "create document" call.
#[derive(Clone, Copy, Debug, PartialEq, Eq, Structural)]
pub enum Outcome {
    /// The document was accepted.
    Success,
    /// The service signalled a rate limit (HTTP 429 equivalent).
    Throttled,
    /// Any other error.
    Transient,
}

/// What the worker must do next after recording one attempt's outcome.
#[derive(Clone, Copy, Debug, PartialEq, Eq, Structural)]
pub enum StepVerdict {
    /// Terminal: the item was delivered.
    Succeeded,
    /// Sleep twice the pace, then attempt again with the same document id.
    RetryThrottled,
    /// Attempt again immediately with the same document id.
    RetryTransient,
    /// Terminal: the transient-retry budget is exhausted; permanent failure.
    GivenUp,
}

/// How one item's retry loop ended, if it ended.
#[derive(Clone, Copy, Debug, PartialEq, Eq, Structural)]
pub enum ItemStatus {
    /// The supplied outcomes ran out before the machine reached a terminal state.
    InFlight,
    /// The item was delivered.
    DoneSuccess,
    /// The item is a permanent failure.
    DoneFailure,
}

/// The mutable, run-wide state shared by the producer and every worker:
/// the document-id source, the pacing tick budget, and the outcome tally.
/// Every field only ever grows during a run.
#[derive(Clone, Copy, Debug, PartialEq, Eq, Structural)]
pub struct Counters {
    /// Monotonic document-id source; the next id to hand out.
    pub next_document_id: u64,
    /// Cumulative pacing ticks the producer must have elapsed-time cover for.
    pub tick: u64,
    /// Throttled responses seen, over the whole run.
    pub too_many_requests: u64,
    /// Transient (unexplained) errors seen, over the whole run.
    pub other_errors: u64,
    /// Items delivered.
    pub success: u64,
    /// Items permanently failed.
    pub failure: u64,
}

/// Retry state local to one in-flight item.
#[derive(Clone, Copy, Debug, PartialEq, Eq, Structural)]
pub struct RetryState {
    /// Transient errors this item has hit so far.
    pub transient_errors: u64,
}

impl Counters {
    /// Room for `n` more recorded outcomes without any counter overflowing.
    /// One outcome moves each tally by at most 1, and the tick budget by at
    /// most 4 (the throttle penalty).
    pub open spec fn has_room(self, n: nat) -> bool {
        &&& self.too_many_requests + n <= u64::MAX
        &&& self.other_errors + n <= u64::MAX
        &&& self.success + n <= u64::MAX
        &&& self.failure + n <= u64::MAX
        &&& self.tick + 4 * n <= u64::MAX
    }

    /// A fresh context: all tallies zero, ids starting at `start_document_id`.
    pub fn new(start_document_id: u64) -> (c: Counters)
        ensures
            c == (Counters {
                next_document_id: start_document_id,
                tick: 0u64,
                too_many_requests: 0u64,
                other_errors: 0u64,
                success: 0u64,
                failure: 0u64,
            }),
    {
        Counters {
            next_document_id: start_document_id,
            tick: 0,
            too_many_requests: 0,
            other_errors: 0,
            success: 0,
            failure: 0,
        }
    }
}

/// One transition of the retry state machine: how the counters, the item's
/// retry state and the worker's next action follow from one attempt outcome.
pub open spec fn spec_step(
    retry_limit: u32,
    c: Counters,
    st: RetryState,
    o: Outcome,
) -> (Counters, RetryState, StepVerdict) {
    match o {
        Outcome::Success => (
            Counters { success: (c.success + 1) as u64, ..c },
            st,
            StepVerdict::Succeeded,
        ),
        Outcome::Throttled => (
            Counters {
                too_many_requests: (c.too_many_requests + 1) as u64,
                tick: (c.tick + 4) as u64,
                ..c
            },
            st,
            StepVerdict::RetryThrottled,
        ),
        Outcome::Transient => {
            let st2 = RetryState { transient_errors: (st.transient_errors + 1) as u64 };
            if st.transient_errors + 1 <= retry_limit {
                (
                    Counters {
                        other_errors: (c.other_errors + 1) as u64,
                        tick: (c.tick + 1) as u64,
                        ..c
                    },
                    st2,
                    StepVerdict::RetryTransient,
                )
            } else {
                (
                    Counters {
                        other_errors: (c.other_errors + 1) as u64,
                        failure: (c.failure + 1) as u64,
                        ..c
                    },
                    st2,
                    StepVerdict::GivenUp,
                )
            }
        },
    }
}

/// Record the outcome of one attempt: update the shared counters and the
/// item's retry state exactly as the state machine prescribes, and say what
/// to do next.
pub fn record_outcome(
    retry_limit: u32,
    c: &mut Counters,
    st: &mut RetryState,
    o: Outcome,
) -> (v: StepVerdict)
    requires
        old(c).has_room(1),
        old(st).transient_errors < u64::MAX,
    ensures
        (*final(c), *final(st), v) == spec_step(retry_limit, *old(c), *old(st), o),
{
    match o {
        Outcome::Success => {
            c.success = c.success + 1;
            StepVerdict::Succeeded
        },
        Outcome::Throttled => {
            c.too_many_requests = c.too_many_requests + 1;
            c.tick = c.tick + 4;
            StepVerdict::RetryThrottled
        },
        Outcome::Transient => {
            c.other_errors = c.other_errors + 1;
            let errors_now = st.transient_errors + 1;
            st.transient_errors = errors_now;
            if errors_now <= retry_limit as u64 {
                c.tick = c.tick + 1;
                StepVerdict::RetryTransient
            } else {
                c.failure = c.failure + 1;
                StepVerdict::GivenUp
            }
        },
    }
}

/// The retry state machine run over a whole sequence of attempt outcomes
/// for one item, starting from counters `c` and retry state `st`: the
/// counters and retry state after the item leaves the machine (or after
/// the outcomes run out), and how it left.
pub open spec fn spec_run_item(
    retry_limit: u32,
    c: Counters,
    st: RetryState,
    outcomes: Seq<Outcome>,
) -> (Counters, RetryState, ItemStatus)
    decreases outcomes.len(),
{
    if outcomes.len() == 0 {
        (c, st, ItemStatus::InFlight)
    } else {
        let (c1, st1, v) = spec_step(retry_limit, c, st, outcomes[0]);
        match v {
            StepVerdict::Succeeded => (c1, st1, ItemStatus::DoneSuccess),
            StepVerdict::GivenUp => (c1, st1, ItemStatus::DoneFailure),
            _ => spec_run_item(retry_limit, c1, st1, outcomes.skip(1)),
        }
    }
}

/// How one item leaves the machine, as a function of the retry budget, the
/// transient errors already on the item and the outcomes alone: the shared
/// counters have no influence on the control path.
pub open spec fn spec_item_result(
    retry_limit: u32,
    errors: nat,
    outcomes: Seq<Outcome>,
) -> ItemStatus
    decreases outcomes.len(),
{
    if outcomes.len() == 0 {
        ItemStatus::InFlight
    } else {
        match outcomes[0] {
            Outcome::Success => ItemStatus::DoneSuccess,
            Outcome::Throttled => spec_item_result(retry_limit, errors, outcomes.skip(1)),
            Outcome::Transient => if errors + 1 <= retry_limit {
                spec_item_result(retry_limit, (errors + 1) as nat, outcomes.skip(1))
            } else {
                ItemStatus::DoneFailure
            },
        }
    }
}

/// The full run and the control-only machine agree on how an item leaves.
pub proof fn lemma_item_result_agrees(
    retry_limit: u32,
    c: Counters,
    st: RetryState,
    outcomes: Seq<Outcome>,
)
    ensures
        spec_run_item(retry_limit, c, st, outcomes).2
            == spec_item_result(retry_limit, st.transient_errors as nat, outcomes),
    decreases outcomes.len(),
{
    if outcomes.len() > 0 {
        let (c1, st1, v) = spec_step(retry_limit, c, st, outcomes[0]);
        match outcomes[0] {
            Outcome::Success => {},
            Outcome::Throttled => {
                lemma_item_result_agrees(retry_limit, c1, st1, outcomes.skip(1));
            },
            Outcome::Transient => {
                if st.transient_errors + 1 <= retry_limit {
                    lemma_item_result_agrees(retry_limit, c1, st1, outcomes.skip(1));
                }
            },
        }
    }
}

/// A throttled response moves only the throttle tally and the pacing
/// budget: it never touches the failure count (nor the success count),
/// and it never ends the item — the worker retries with the same id.
pub proof fn lemma_throttled_preserves_failure(retry_limit: u32, c: Counters, st: RetryState)
    ensures
        spec_step(retry_limit, c, st, Outcome::Throttled).0.failure == c.failure,
        spec_step(retry_limit, c, st, Outcome::Throttled).0.success == c.success,
        spec_step(retry_limit, c, st, Outcome::Throttled).1 == st,
        spec_step(retry_limit, c, st, Outcome::Throttled).2 == StepVerdict::RetryThrottled,
{
}

/// Over a whole item, the failure tally moves exactly when the item gives
/// up, and the success tally exactly when it is delivered — by one each,
/// never more, whatever mix of throttles and transient errors came before.
pub proof fn lemma_run_item_accounting(
    retry_limit: u32,
    c: Counters,
    st: RetryState,
    outcomes: Seq<Outcome>,
)
    requires
        c.failure < u64::MAX,
        c.success < u64::MAX,
    ensures
        ({
            let r = spec_run_item(retry_limit, c, st, outcomes);
            &&& r.0.failure == c.failure
                + (if r.2 == ItemStatus::DoneFailure { 1int } else { 0int })
            &&& r.0.success == c.success
                + (if r.2 == ItemStatus::DoneSuccess { 1int } else { 0int })
        }),
    decreases outcomes.len(),
{
    if outcomes.len() > 0 {
        let (c1, st1, v) = spec_step(retry_limit, c, st, outcomes[0]);
        match v {
            StepVerdict::Succeeded => {},
            StepVerdict::GivenUp => {},
            _ => {
                lemma_run_item_accounting(retry_limit, c1, st1, outcomes.skip(1));
            },
        }
    }
}

/// Counters are monotonic: over one item every tally only grows, the id
/// source is untouched, and each tally grows by at most the number of
/// outcomes recorded (the pacing budget by at most four times that).
pub proof fn lemma_run_item_bounds(
    retry_limit: u32,
    c: Counters,
    st: RetryState,
    outcomes: Seq<Outcome>,
)
    requires
        c.has_room(outcomes.len()),
    ensures
        ({
            let r = spec_run_item(retry_limit, c, st, outcomes);
            &&& r.0.next_document_id == c.next_document_id
            &&& c.success <= r.0.success <= c.success + outcomes.len()
            &&& c.failure <= r.0.failure <= c.failure + outcomes.len()
            &&& c.too_many_requests <= r.0.too_many_requests
                <= c.too_many_requests + outcomes.len()
            &&& c.other_errors <= r.0.other_errors <= c.other_errors + outcomes.len()
            &&& c.tick <= r.0.tick <= c.tick + 4 * outcomes.len()
        }),
    decreases outcomes.len(),
{
    if outcomes.len() > 0 {
        let (c1, st1, v) = spec_step(retry_limit, c, st, outcomes[0]);
        match v {
            StepVerdict::Succeeded => {},
            StepVerdict::GivenUp => {},
            _ => {
                lemma_run_item_bounds(retry_limit, c1, st1, outcomes.skip(1));
            },
        }
    }
}

/// A run of `k` transient errors, all within the retry budget, walks the
/// machine forward without ending the item: `k` added to the error tally,
/// the pacing budget and the item's local error count, nothing else moved.
pub proof fn lemma_transient_streak(
    retry_limit: u32,
    c: Counters,
    st: RetryState,
    outcomes: Seq<Outcome>,
    k: nat,
)
    requires
        k <= outcomes.len(),
        forall|i: int| 0 <= i < k ==> outcomes[i] == Outcome::Transient,
        st.transient_errors + k <= retry_limit,
        c.has_room(k),
    ensures
        spec_run_item(retry_limit, c, st, outcomes) == spec_run_item(
            retry_limit,
            Counters {
                other_errors: (c.other_errors + k) as u64,
                tick: (c.tick + k) as u64,
                ..c
            },
            RetryState { transient_errors: (st.transient_errors + k) as u64 },
            outcomes.skip(k as int),
        ),
    decreases k,
{
    if k == 0 {
        assert(outcomes.skip(0) =~= outcomes);
        assert(Counters {
            other_errors: (c.other_errors + 0) as u64,
            tick: (c.tick + 0) as u64,
            ..c
        } == c);
        assert(RetryState { transient_errors: (st.transient_errors + 0) as u64 } == st);
    } else {
        let (c1, st1, v) = spec_step(retry_limit, c, st, outcomes[0]);
        assert(v == StepVerdict::RetryTransient);
        lemma_transient_streak(retry_limit, c1, st1, outcomes.skip(1), (k - 1) as nat);
        assert(outcomes.skip(1).skip(k as int - 1) =~= outcomes.skip(k as int));
    }
}

/// Exhausting the budget: with retry limit `r`, an item that hits exactly
/// `r + 1` transient errors is a permanent failure — the failure tally
/// moves by one, the error tally by `r + 1`, the pacing budget by `r`
/// (the final, fatal error asks for no further pacing), and the success
/// and throttle tallies not at all.
pub proof fn lemma_transient_exhaustion(retry_limit: u32, c: Counters)
    requires
        c.has_room((retry_limit + 1) as nat),
    ensures
        spec_run_item(
            retry_limit,
            c,
            RetryState { transient_errors: 0 },
            Seq::new((retry_limit + 1) as nat, |i: int| Outcome::Transient),
        ) == (
            Counters {
                other_errors: (c.other_errors + retry_limit + 1) as u64,
                tick: (c.tick + retry_limit) as u64,
                failure: (c.failure + 1) as u64,
                ..c
            },
            RetryState { transient_errors: (retry_limit + 1) as u64 },
            ItemStatus::DoneFailure,
        ),
{
    let outcomes = Seq::new((retry_limit + 1) as nat, |i: int| Outcome::Transient);
    let st0 = RetryState { transient_errors: 0 };
    lemma_transient_streak(retry_limit, c, st0, outcomes, retry_limit as nat);
    let c1 = Counters {
        other_errors: (c.other_errors + retry_limit) as u64,
        tick: (c.tick + retry_limit) as u64,
        ..c
    };
    let st1 = RetryState { transient_errors: retry_limit as u64 };
    let rest = outcomes.skip(retry_limit as int);
    assert(rest.len() == 1 && rest[0] == Outcome::Transient);
    assert(rest.skip(1) =~= Seq::<Outcome>::empty());
    assert(spec_run_item(retry_limit, c1, st1, rest)
        == (spec_step(retry_limit, c1, st1, Outcome::Transient).0,
            spec_step(retry_limit, c1, st1, Outcome::Transient).1,
            ItemStatus::DoneFailure));
}

/// Staying within the budget: with retry limit `r`, an item that hits
/// exactly `r` transient errors and then succeeds is delivered — the
/// success tally moves by one, the error tally and the pacing budget by
/// `r`, and the failure and throttle tallies not at all.
pub proof fn lemma_success_within_budget(retry_limit: u32, c: Counters)
    requires
        c.has_room((retry_limit + 1) as nat),
    ensures
        spec_run_item(
            retry_limit,
            c,
            RetryState { transient_errors: 0 },
            Seq::new(retry_limit as nat, |i: int| Outcome::Transient).push(Outcome::Success),
        ) == (
            Counters {
                other_errors: (c.other_errors + retry_limit) as u64,
                tick: (c.tick + retry_limit) as u64,
                success: (c.success + 1) as u64,
                ..c
            },
            RetryState { transient_errors: retry_limit as u64 },
            ItemStatus::DoneSuccess,
        ),
{
    let outcomes = Seq::new(retry_limit as nat, |i: int| Outcome::Transient).push(Outcome::Success);
    let st0 = RetryState { transient_errors: 0 };
    lemma_transient_streak(retry_limit, c, st0, outcomes, retry_limit as nat);
    let c1 = Counters {
        other_errors: (c.other_errors + retry_limit) as u64,
        tick: (c.tick + retry_limit) as u64,
        ..c
    };
    let st1 = RetryState { transient_errors: retry_limit as u64 };
    let rest = outcomes.skip(retry_limit as int);
    assert(rest.len() == 1 && rest[0] == Outcome::Success);
}

/// Run one item's whole script of attempt outcomes through the machine:
/// the counters move exactly as the per-attempt rules prescribe, and the
/// result says how the item left.
pub fn process_item(retry_limit: u32, c: &mut Counters, outcomes: &Vec<Outcome>) -> (status: ItemStatus)
    requires
        old(c).has_room(outcomes@.len() as nat),
    ensures
        ({
            let r = spec_run_item(
                retry_limit,
                *old(c),
                RetryState { transient_errors: 0 },
                outcomes@,
            );
            *final(c) == r.0 && status == r.2
        }),
{
    let mut st = RetryState { transient_errors: 0 };
    let mut i: usize = 0;
    proof {
        assert(outcomes@.skip(0) =~= outcomes@);
    }
    while i < outcomes.len()
        invariant
            i <= outcomes@.len(),
            st.transient_errors <= i,
            c.has_room((outcomes@.len() - i) as nat),
            spec_run_item(retry_limit, *old(c), RetryState { transient_errors: 0 }, outcomes@)
                == spec_run_item(retry_limit, *c, st, outcomes@.skip(i as int)),
        decreases outcomes@.len() - i,
    {
        let o = outcomes[i];
        let v = record_outcome(retry_limit, c, &mut st, o);
        proof {
            assert(outcomes@.skip(i as int)[0] == outcomes@[i as int]);
            assert(outcomes@.skip(i as int).skip(1) =~= outcomes@.skip(i as int + 1));
        }
        match v {
            StepVerdict::Succeeded => {
                return ItemStatus::DoneSuccess;
            },
            StepVerdict::GivenUp => {
                return ItemStatus::DoneFailure;
            },
            _ => {},
        }
        i = i + 1;
    }
    proof {
        assert(outcomes@.skip(i as int) =~= Seq::<Outcome>::empty());
    }
    ItemStatus::InFlight
}

} // verus!
