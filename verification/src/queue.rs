//! The work queue: a FIFO of work items between the producer and the
//! workers.
//!
//! An entry is either a real path or a tagged shutdown signal, so an
//! empty path can never be mistaken for shutdown. A push always succeeds
//! and enqueues at the tail; a pop takes the head; nothing is ever lost:
//! every pushed item is observed by exactly one pop.

use vstd::prelude::*;

verus! {

/// One entry in the work queue: a path to upload, or the shutdown signal
/// that tells the worker that dequeues it to terminate.
#[derive(Debug)]
pub enum WorkItem {
    /// A path to a regular file that is to be submitted.
    Work(String),
    /// Terminate the worker that dequeues this.
    Shutdown,
}

impl WorkItem {
    /// Whether this entry is the shutdown signal.
    pub open spec fn spec_is_shutdown(&self) -> bool {
        match self {
            WorkItem::Shutdown => true,
            WorkItem::Work(_) => false,
        }
    }

    /// Whether this entry is the shutdown signal: the test each worker
    /// makes right after dequeuing.
    pub fn is_shutdown(&self) -> (r: bool)
        ensures
            r == self.spec_is_shutdown(),
    {
        match self {
            WorkItem::Shutdown => true,
            WorkItem::Work(_) => false,
        }
    }
}

/// A FIFO queue of work items. This is the sequential model the verified
/// run is proved against; the live pipeline puts a lock-free queue with
/// the same contract between its threads.
pub struct WorkQueue {
    items: Vec<WorkItem>,
}

impl View for WorkQueue {
    type V = Seq<WorkItem>;

    closed spec fn view(&self) -> Seq<WorkItem> {
        self.items@
    }
}

impl WorkQueue {
    /// An empty queue.
    pub fn new() -> (q: WorkQueue)
        ensures
            q@ == Seq::<WorkItem>::empty(),
    {
        WorkQueue { items: Vec::new() }
    }

    /// How many items are waiting.
    pub fn len(&self) -> (n: usize)
        ensures
            n == self@.len(),
    {
        self.items.len()
    }

    /// Enqueue at the tail. Always succeeds; never blocks.
    pub fn push(&mut self, item: WorkItem)
        ensures
            final(self)@ == old(self)@.push(item),
    {
        self.items.push(item);
    }

    /// Dequeue the head, or nothing when the queue is empty. The blocking
    /// pop of the live queue has the same contract on the dequeued value;
    /// only the waiting differs.
    pub fn try_pop(&mut self) -> (r: Option<WorkItem>)
        ensures
            old(self)@.len() == 0 ==> r is None && final(self)@ == old(self)@,
            old(self)@.len() > 0 ==> r == Some(old(self)@[0])
                && final(self)@ == old(self)@.skip(1),
    {
        if self.items.len() == 0 {
            None
        } else {
            let head = self.items.remove(0);
            proof {
                assert(old(self)@.remove(0) =~= old(self)@.skip(1));
            }
            Some(head)
        }
    }
}

} // verus!
