//! The drain loop: waiting for queue quiescence after the sentinels go in.
//!
//! Once every path and every shutdown sentinel is enqueued, the producer
//! polls the queue without blocking. Seeing it empty ends the run
//! cleanly. Seeing an item costs one wait (the item goes back and the
//! producer sleeps one time unit); more than `max(30, workers)` waits
//! means a worker is stuck, and the run is aborted with the report still
//! printed.

use vstd::prelude::*;

verus! {

/// How one drain poll ends.
#[derive(Clone, Copy, Debug, PartialEq, Eq, Structural)]
pub enum DrainStep {
    /// The queue was empty: the run is complete; exit cleanly.
    Finished,
    /// An item was seen and went back: sleep one time unit and poll again.
    KeepWaiting,
    /// The wait budget is spent: abort the run with a non-zero exit,
    /// after printing the report.
    TimedOut,
}

/// The wait budget for a run with `workers` workers.
pub open spec fn spec_drain_limit(workers: u32) -> nat {
    if workers > 30 { workers as nat } else { 30 }
}

/// The wait budget: `max(30, workers)` polls that find an item.
pub fn drain_limit(workers: u32) -> (l: u32)
    ensures
        l as nat == spec_drain_limit(workers),
{
    if workers > 30 { workers } else { 30 }
}

/// One drain poll: `found_item` says whether the non-blocking pop
/// returned an item (which the caller pushes straight back). An empty
/// queue finishes the drain with the wait count untouched; an item costs
/// one wait, and the drain times out as soon as the count passes `limit`.
pub fn drain_step(found_item: bool, wait_count: &mut u64, limit: u64) -> (d: DrainStep)
    requires
        *old(wait_count) < u64::MAX,
    ensures
        !found_item ==> d == DrainStep::Finished && *final(wait_count) == *old(wait_count),
        found_item ==> *final(wait_count) == *old(wait_count) + 1
            && d == (if *old(wait_count) + 1 > limit { DrainStep::TimedOut }
                     else { DrainStep::KeepWaiting }),
{
    if !found_item {
        DrainStep::Finished
    } else {
        *wait_count = *wait_count + 1;
        if *wait_count > limit {
            DrainStep::TimedOut
        } else {
            DrainStep::KeepWaiting
        }
    }
}

/// The whole drain over a sequence of poll observations (`true` means
/// the poll found an item), starting from `wait_count` used waits: the
/// final wait count, and how the drain ended. `KeepWaiting` stands for a
/// model that ran out of observations while still waiting.
pub open spec fn spec_drain(obs: Seq<bool>, wait_count: nat, limit: nat) -> (nat, DrainStep)
    decreases obs.len(),
{
    if obs.len() == 0 {
        (wait_count, DrainStep::KeepWaiting)
    } else if !obs[0] {
        (wait_count, DrainStep::Finished)
    } else if wait_count + 1 > limit {
        (wait_count + 1, DrainStep::TimedOut)
    } else {
        spec_drain(obs.skip(1), wait_count + 1, limit)
    }
}

/// A drain that keeps finding items times out after exactly `limit + 1`
/// waits — never earlier, never later.
pub proof fn lemma_drain_timeout(obs: Seq<bool>, wait_count: nat, limit: nat)
    requires
        forall|i: int| 0 <= i < obs.len() ==> obs[i],
        wait_count <= limit,
        wait_count + obs.len() > limit,
    ensures
        spec_drain(obs, wait_count, limit) == (limit + 1, DrainStep::TimedOut),
    decreases obs.len(),
{
    assert(obs.len() > 0);
    assert(obs[0]);
    if wait_count + 1 > limit {
    } else {
        lemma_drain_timeout(obs.skip(1), wait_count + 1, limit);
    }
}

/// A drain that sees the queue empty within its budget finishes cleanly,
/// having waited exactly once per item sighted before that.
pub proof fn lemma_drain_finishes(obs: Seq<bool>, wait_count: nat, limit: nat, j: int)
    requires
        0 <= j < obs.len(),
        !obs[j],
        forall|i: int| 0 <= i < j ==> obs[i],
        wait_count + j <= limit,
    ensures
        spec_drain(obs, wait_count, limit) == ((wait_count + j) as nat, DrainStep::Finished),
    decreases j,
{
    if j == 0 {
    } else {
        lemma_drain_finishes(obs.skip(1), wait_count + 1, limit, j - 1);
    }
}

/// Run the drain over a whole script of poll observations: the number of
/// waits spent and the decision, exactly as the step-by-step loop makes
/// them.
pub fn drain_run(obs: &Vec<bool>, limit: u64) -> (r: (u64, DrainStep))
    requires
        limit < u64::MAX,
    ensures
        (r.0 as nat, r.1) == spec_drain(obs@, 0, limit as nat),
{
    let mut wait_count: u64 = 0;
    let mut i: usize = 0;
    proof {
        assert(obs@.skip(0) =~= obs@);
    }
    while i < obs.len()
        invariant
            i <= obs@.len(),
            wait_count <= limit,
            limit < u64::MAX,
            spec_drain(obs@, 0, limit as nat)
                == spec_drain(obs@.skip(i as int), wait_count as nat, limit as nat),
        decreases obs@.len() - i,
    {
        let found = obs[i];
        let d = drain_step(found, &mut wait_count, limit);
        proof {
            assert(obs@.skip(i as int)[0] == obs@[i as int]);
            assert(obs@.skip(i as int).skip(1) =~= obs@.skip(i as int + 1));
        }
        match d {
            DrainStep::Finished => {
                return (wait_count, DrainStep::Finished);
            },
            DrainStep::TimedOut => {
                return (wait_count, DrainStep::TimedOut);
            },
            DrainStep::KeepWaiting => {},
        }
        i = i + 1;
    }
    proof {
        assert(obs@.skip(i as int) =~= Seq::<bool>::empty());
    }
    (wait_count, DrainStep::KeepWaiting)
}

} // verus!
