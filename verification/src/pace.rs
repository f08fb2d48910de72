//! The pacing controller.
//!
//! The producer counts pacing ticks — one per file it enqueues, plus the
//! penalty ticks workers add (four per throttled response, one per
//! retried transient error) — and before moving on it sleeps until the
//! elapsed time covers `pace × ticks`. Ticks are never taken back, so
//! sustained throttling slows the whole run down for good.

use vstd::prelude::*;
use crate::retry::Counters;

verus! {

/// The elapsed time the producer must have covered once the tick counter
/// stands at `ticks`: `pace × ticks` milliseconds.
pub open spec fn pace_target(pace_ms: nat, ticks: nat) -> nat {
    pace_ms * ticks
}

/// The producer's own pacing tick: one for each file it enqueues. The
/// workers add theirs through the retry machine.
pub fn record_enqueue_tick(c: &mut Counters)
    requires
        old(c).tick < u64::MAX,
    ensures
        *final(c) == (Counters { tick: (old(c).tick + 1) as u64, ..*old(c) }),
{
    c.tick = c.tick + 1;
}

/// How long the producer must still sleep, given the pace, the tick
/// counter it just read, and the wall-clock milliseconds elapsed since
/// the run began. Zero exactly when elapsed time already covers the
/// target. The caller must keep `pace × ticks` within `u64`: a run
/// whose pacing target outgrows it has gone on far too long, and the
/// shell treats that as a fatal error.
pub fn pacing_wait_ms(pace_ms: u64, ticks: u64, elapsed_ms: u64) -> (sleep: u64)
    requires
        pace_ms * ticks <= u64::MAX,
    ensures
        elapsed_ms + sleep >= pace_target(pace_ms as nat, ticks as nat),
        sleep > 0 ==> elapsed_ms + sleep == pace_target(pace_ms as nat, ticks as nat),
        (sleep == 0) <==> elapsed_ms >= pace_target(pace_ms as nat, ticks as nat),
{
    let target = pace_ms * ticks;
    if elapsed_ms >= target {
        0
    } else {
        target - elapsed_ms
    }
}

/// The local backoff a worker sleeps after a throttled response: twice
/// the pace — or the bare pace in the degenerate case where doubling
/// would not fit.
pub fn throttle_backoff_ms(pace_ms: u64) -> (r: u64)
    ensures
        r == if 2 * pace_ms <= u64::MAX { 2 * pace_ms } else { pace_ms as int },
{
    if pace_ms <= u64::MAX / 2 {
        2 * pace_ms
    } else {
        pace_ms
    }
}

/// The producer's clock, run through its pacing steps: `ticks[i]` is the
/// tick counter the producer reads at its `i`-th pacing step, and the
/// clock after that step covers at least `pace × ticks[i]` — the step
/// sleeps until it does. Time never runs backwards.
pub open spec fn paced_clock(pace: nat, ticks: Seq<nat>) -> nat
    decreases ticks.len(),
{
    if ticks.len() == 0 {
        0
    } else {
        let prev = paced_clock(pace, ticks.drop_last());
        let target = pace * ticks.last();
        if target > prev { target } else { prev }
    }
}

/// Pacing lower bound: if by its `i`-th pacing step the producer has seen
/// at least `c × (i + 1)` ticks, then after `k` steps at least
/// `pace × c × k` time has passed. With no penalties the producer alone
/// guarantees `c == 1`: the `k`-th item is enqueued no earlier than
/// `k × pace`. When every item also drew a throttle penalty before the
/// next step, `c == 5` (one enqueue tick plus four penalty ticks per
/// item), and the bound escalates to `5 × k × pace`.
pub proof fn lemma_paced_clock_lower_bound(pace: nat, ticks: Seq<nat>, c: nat)
    requires
        ticks.len() > 0,
        forall|i: int| 0 <= i < ticks.len() ==> #[trigger] ticks[i] >= c * (i + 1),
    ensures
        paced_clock(pace, ticks) >= pace * c * ticks.len(),
{
    let k = ticks.len() as int;
    let last = ticks.last();
    assert(last >= c * k);
    assert(paced_clock(pace, ticks) >= pace * last);
    assert(pace * c * k <= pace * last) by (nonlinear_arith)
        requires
            last >= c * k,
            k >= 0,
    ;
}

/// The time to enqueue the `k`-th item: the clock after the producer's
/// `k`-th pacing step is at least `pace × c × k`, under the same tick
/// guarantee as above.
pub proof fn lemma_enqueue_time_bound(pace: nat, ticks: Seq<nat>, c: nat, k: int)
    requires
        1 <= k <= ticks.len(),
        forall|i: int| 0 <= i < ticks.len() ==> #[trigger] ticks[i] >= c * (i + 1),
    ensures
        paced_clock(pace, ticks.take(k)) >= pace * c * k,
{
    assert(forall|i: int| 0 <= i < k ==> #[trigger] ticks.take(k)[i] >= c * (i + 1));
    lemma_paced_clock_lower_bound(pace, ticks.take(k), c);
}

} // verus!
