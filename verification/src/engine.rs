//! A whole ingestion run, executed sequentially against a script of
//! attempt outcomes.
//!
//! This is the reference run the pipeline's accounting is proved on: the
//! producer enqueues every path (one pacing tick each) and then the
//! shutdown sentinels; the worker phase dequeues each item in order,
//! draws a fresh document id, and runs the item's script through the
//! retry machine; the sentinels are consumed; the queue drains empty.
//! The live pipeline spreads the worker phase over threads and takes its
//! outcomes from the remote service — the per-step contracts it drives
//! are the same ones this run is proved against.

use vstd::prelude::*;
use crate::ids::{allocate_document_id, document_id_string, DOCUMENT_ID_WIDTH};
use crate::numbers::hex_fixed;
use crate::queue::{WorkItem, WorkQueue};
use crate::retry::{
    process_item, spec_run_item, spec_item_result, Counters, ItemStatus, Outcome, RetryState,
    lemma_item_result_agrees, lemma_run_item_bounds, lemma_run_item_accounting,
};

verus! {

/// The immutable configuration of one ingestion run.
pub struct IngestConfig {
    /// How many upload workers the live run starts — and so how many
    /// shutdown sentinels the producer enqueues.
    pub workers: u32,
    /// Extra attempts allowed per item after its first transient error.
    pub retry_limit: u32,
    /// Target minimum spacing between submissions, in milliseconds.
    pub pace_ms: u64,
    /// The remote environment submitted to.
    pub environment_id: String,
    /// The remote collection submitted to.
    pub collection_id: String,
}

/// One unit of work for a scripted run: a path, and the outcome the
/// remote side answers each successive attempt with.
pub struct ItemScript {
    /// The path submitted.
    pub path: String,
    /// The outcome of each attempt, in order.
    pub outcomes: Vec<Outcome>,
}

/// What one item came to: the path, the document id it was submitted
/// under, and how it left the retry machine.
pub struct ItemRecord {
    /// The path submitted.
    pub path: String,
    /// The eleven-digit lowercase hexadecimal id it was submitted under.
    pub document_id: String,
    /// How the item left the retry machine.
    pub status: ItemStatus,
}

/// The outcome scripts of a batch of items.
pub open spec fn scripts_of(jobs: Seq<ItemScript>) -> Seq<Seq<Outcome>> {
    jobs.map_values(|j: ItemScript| j.outcomes@)
}

/// The paths of a batch, as queue entries.
pub open spec fn work_items_of(jobs: Seq<ItemScript>) -> Seq<WorkItem> {
    jobs.map_values(|j: ItemScript| WorkItem::Work(j.path))
}

/// How many attempts a batch of scripts holds in all.
pub open spec fn total_outcomes(scripts: Seq<Seq<Outcome>>) -> nat
    decreases scripts.len(),
{
    if scripts.len() == 0 {
        0
    } else {
        scripts[0].len() + total_outcomes(scripts.skip(1))
    }
}

/// The counters after a batch of items runs in order: each item draws a
/// fresh document id and then walks its script through the retry machine.
pub open spec fn spec_process_all(
    retry_limit: u32,
    c: Counters,
    scripts: Seq<Seq<Outcome>>,
) -> Counters
    decreases scripts.len(),
{
    if scripts.len() == 0 {
        c
    } else {
        let c1 = Counters { next_document_id: (c.next_document_id + 1) as u64, ..c };
        let c2 = spec_run_item(retry_limit, c1, RetryState { transient_errors: 0 }, scripts[0]).0;
        spec_process_all(retry_limit, c2, scripts.skip(1))
    }
}

/// Accounting across a run: when every item's script ends its retry
/// machine — delivered or given up — the run moves `success + failure`
/// by exactly the number of items, and the document-id source by exactly
/// one per item. No item is lost and none is counted twice.
pub proof fn lemma_process_all_accounting(
    retry_limit: u32,
    c: Counters,
    scripts: Seq<Seq<Outcome>>,
)
    requires
        forall|i: int| 0 <= i < scripts.len()
            ==> spec_item_result(retry_limit, 0, #[trigger] scripts[i]) != ItemStatus::InFlight,
        c.has_room(total_outcomes(scripts)),
        c.next_document_id + scripts.len() <= u64::MAX,
    ensures
        ({
            let c2 = spec_process_all(retry_limit, c, scripts);
            &&& c2.success + c2.failure == c.success + c.failure + scripts.len()
            &&& c2.next_document_id == c.next_document_id + scripts.len()
        }),
    decreases scripts.len(),
{
    if scripts.len() > 0 {
        let c1 = Counters { next_document_id: (c.next_document_id + 1) as u64, ..c };
        let st0 = RetryState { transient_errors: 0 };
        let r = spec_run_item(retry_limit, c1, st0, scripts[0]);
        assert(scripts[0].len() > 0);
        assert(c1.has_room(total_outcomes(scripts)));
        lemma_run_item_bounds(retry_limit, c1, st0, scripts[0]);
        lemma_run_item_accounting(retry_limit, c1, st0, scripts[0]);
        lemma_item_result_agrees(retry_limit, c1, st0, scripts[0]);
        assert(r.2 != ItemStatus::InFlight);
        assert(r.0.has_room(total_outcomes(scripts.skip(1))));
        lemma_process_all_accounting(retry_limit, r.0, scripts.skip(1));
    }
}

/// Part-way accounting: whatever mix of delivered, failed and still
/// in-flight items a batch holds, `success + failure` moves by at most
/// one per item — never more.
pub proof fn lemma_process_all_upper_bound(
    retry_limit: u32,
    c: Counters,
    scripts: Seq<Seq<Outcome>>,
)
    requires
        c.has_room(total_outcomes(scripts)),
    ensures
        ({
            let c2 = spec_process_all(retry_limit, c, scripts);
            c2.success + c2.failure <= c.success + c.failure + scripts.len()
        }),
    decreases scripts.len(),
{
    if scripts.len() > 0 {
        let c1 = Counters { next_document_id: (c.next_document_id + 1) as u64, ..c };
        let st0 = RetryState { transient_errors: 0 };
        let r = spec_run_item(retry_limit, c1, st0, scripts[0]);
        assert(c1.has_room(total_outcomes(scripts)));
        lemma_run_item_bounds(retry_limit, c1, st0, scripts[0]);
        if scripts[0].len() > 0 {
            lemma_run_item_accounting(retry_limit, c1, st0, scripts[0]);
        }
        assert(r.0.has_room(total_outcomes(scripts.skip(1))));
        lemma_process_all_upper_bound(retry_limit, r.0, scripts.skip(1));
    }
}

/// Run a whole batch through the pipeline, sequentially: enqueue every
/// path with its pacing tick, enqueue one shutdown sentinel per worker,
/// process every item in arrival order under a fresh document id, consume
/// the sentinels, and leave the queue drained. The returned records carry
/// each item's path, its rendered document id, and how it left the retry
/// machine; the counters move exactly as the per-attempt rules prescribe.
#[verifier::loop_isolation(false)]
pub fn run_ingestion(cfg: &IngestConfig, c: &mut Counters, jobs: &Vec<ItemScript>) -> (records: Vec<ItemRecord>)
    requires
        old(c).has_room((jobs@.len() + total_outcomes(scripts_of(jobs@))) as nat),
        old(c).next_document_id + jobs@.len() <= u64::MAX,
    ensures
        records@.len() == jobs@.len(),
        forall|i: int| 0 <= i < jobs@.len()
            ==> (#[trigger] records@[i]).path == jobs@[i].path,
        forall|i: int| 0 <= i < jobs@.len()
            ==> (#[trigger] records@[i]).document_id@
                == hex_fixed((old(c).next_document_id + i) as nat, DOCUMENT_ID_WIDTH as nat),
        forall|i: int| 0 <= i < jobs@.len()
            ==> (#[trigger] records@[i]).status
                == spec_item_result(cfg.retry_limit, 0, jobs@[i].outcomes@),
        *final(c) == spec_process_all(
            cfg.retry_limit,
            (Counters { tick: (old(c).tick + jobs@.len()) as u64, ..*old(c) }),
            scripts_of(jobs@),
        ),
        final(c).next_document_id == old(c).next_document_id + jobs@.len(),
        (forall|i: int| 0 <= i < jobs@.len()
            ==> spec_item_result(cfg.retry_limit, 0, (#[trigger] jobs@[i]).outcomes@)
                != ItemStatus::InFlight)
            ==> final(c).success + final(c).failure
                == old(c).success + old(c).failure + jobs@.len(),
{
    let ghost all_scripts = scripts_of(jobs@);
    let n = jobs.len();
    let mut queue = WorkQueue::new();

    // Producer: enqueue every path, counting one pacing tick per file.
    let mut i: usize = 0;
    while i < n
        invariant
            i <= n,
            queue@ == work_items_of(jobs@.take(i as int)),
            *c == (Counters { tick: (old(c).tick + i) as u64, ..*old(c) }),
        decreases n - i,
    {
        c.tick = c.tick + 1;
        queue.push(WorkItem::Work(jobs[i].path.clone()));
        i = i + 1;
        proof {
            assert(queue@ =~= work_items_of(jobs@.take(i as int)));
        }
    }
    proof {
        assert(jobs@.take(n as int) =~= jobs@);
    }
    let ghost c_enq = *c;

    // Producer: one shutdown sentinel per worker.
    let mut k: u32 = 0;
    while k < cfg.workers
        invariant
            k <= cfg.workers,
            queue@ == work_items_of(jobs@) + Seq::new(k as nat, |j: int| WorkItem::Shutdown),
            *c == c_enq,
        decreases cfg.workers - k,
    {
        queue.push(WorkItem::Shutdown);
        k = k + 1;
        proof {
            assert(queue@ =~= work_items_of(jobs@)
                + Seq::new(k as nat, |j: int| WorkItem::Shutdown));
        }
    }
    let ghost sentinels = Seq::new(cfg.workers as nat, |j: int| WorkItem::Shutdown);

    // Worker phase: dequeue each item in order, draw a fresh id, run the
    // item's script through the retry machine.
    proof {
        assert(all_scripts.skip(0) =~= all_scripts);
        assert(jobs@.skip(0) =~= jobs@);
    }
    let mut records: Vec<ItemRecord> = Vec::new();
    let mut i: usize = 0;
    while i < n
        invariant
            i <= n,
            records@.len() == i,
            queue@ == work_items_of(jobs@.skip(i as int)) + sentinels,
            c.next_document_id == old(c).next_document_id + i,
            c.has_room(total_outcomes(all_scripts.skip(i as int))),
            spec_process_all(cfg.retry_limit, c_enq, all_scripts)
                == spec_process_all(cfg.retry_limit, *c, all_scripts.skip(i as int)),
            forall|j: int| 0 <= j < i
                ==> (#[trigger] records@[j]).path == jobs@[j].path,
            forall|j: int| 0 <= j < i
                ==> (#[trigger] records@[j]).document_id@
                    == hex_fixed((old(c).next_document_id + j) as nat, DOCUMENT_ID_WIDTH as nat),
            forall|j: int| 0 <= j < i
                ==> (#[trigger] records@[j]).status
                    == spec_item_result(cfg.retry_limit, 0, jobs@[j].outcomes@),
        decreases n - i,
    {
        proof {
            assert(queue@[0] == work_items_of(jobs@.skip(i as int))[0]);
            assert(queue@[0] == WorkItem::Work(jobs@[i as int].path));
            assert(all_scripts.skip(i as int)[0] == jobs@[i as int].outcomes@);
            assert(all_scripts.skip(i as int).skip(1) =~= all_scripts.skip(i as int + 1));
        }
        let popped = queue.try_pop();
        let path = match popped {
            Some(WorkItem::Work(p)) => p,
            _ => {
                proof {
                    assert(false);
                }
                String::new()
            },
        };
        proof {
            assert(queue@ =~= work_items_of(jobs@.skip(i as int + 1)) + sentinels);
        }
        let ghost c_before = *c;
        let id = allocate_document_id(c);
        let doc_id = document_id_string(id);
        let status = process_item(cfg.retry_limit, c, &jobs[i].outcomes);
        proof {
            let st0 = RetryState { transient_errors: 0 };
            let c_alloc = Counters {
                next_document_id: (c_before.next_document_id + 1) as u64,
                ..c_before
            };
            lemma_run_item_bounds(cfg.retry_limit, c_alloc, st0, all_scripts.skip(i as int)[0]);
            lemma_item_result_agrees(cfg.retry_limit, c_alloc, st0, jobs@[i as int].outcomes@);
        }
        records.push(ItemRecord { path, document_id: doc_id, status });
        i = i + 1;
    }
    proof {
        assert(all_scripts.skip(n as int) =~= Seq::<Seq<Outcome>>::empty());
        assert(work_items_of(jobs@.skip(n as int)) =~= Seq::<WorkItem>::empty());
        assert(queue@ =~= sentinels);
    }

    // Each worker sees exactly one sentinel and terminates.
    let mut k: u32 = 0;
    while k < cfg.workers
        invariant
            k <= cfg.workers,
            queue@ == Seq::new((cfg.workers - k) as nat, |j: int| WorkItem::Shutdown),
            records@.len() == n,
        decreases cfg.workers - k,
    {
        let popped = queue.try_pop();
        proof {
            assert(popped == Some(WorkItem::Shutdown));
        }
        k = k + 1;
        proof {
            assert(queue@ =~= Seq::new((cfg.workers - k) as nat, |j: int| WorkItem::Shutdown));
        }
    }

    // Drain: with every sentinel consumed, the first poll finds the
    // queue empty.
    let leftover = queue.try_pop();
    proof {
        assert(leftover is None);
        if forall|i2: int| 0 <= i2 < jobs@.len()
            ==> spec_item_result(cfg.retry_limit, 0, (#[trigger] jobs@[i2]).outcomes@)
                != ItemStatus::InFlight {
            assert(forall|i2: int| 0 <= i2 < all_scripts.len()
                ==> spec_item_result(cfg.retry_limit, 0, #[trigger] all_scripts[i2])
                    != ItemStatus::InFlight);
            lemma_process_all_accounting(cfg.retry_limit, c_enq, all_scripts);
        }
    }
    records
}

} // verus!
