//! The bookkeeping of the worker pool.
//!
//! A run has a fixed number of workers and a queue that is loaded with the
//! index of every request before the first worker starts. A free worker pulls
//! the oldest index and sends that request; when its answer is settled the
//! worker is free again. A worker that finds the queue empty leaves. The
//! dispatcher decides and counts; sending and waiting is the caller's part.

use vstd::prelude::*;
use crate::queue::Queue;

verus! {

/// The state of a run's worker pool.
pub struct Dispatcher {
    /// The indices of the requests that no worker has pulled yet.
    pub queue: Queue,
    /// The number of requests of the run.
    pub total: u64,
    /// The number of workers of the run.
    pub concurrency: u64,
    /// The number of requests that workers have pulled so far.
    pub taken: u64,
    /// The number of workers that have pulled a request and not yet completed it.
    pub in_flight: u64,
    /// The number of workers that found the queue empty and left.
    pub retired: u64,
}

/// The indices from `from` up to `to`, `to` not included, in rising order.
pub open spec fn indices(from: u64, to: u64) -> Seq<u64> {
    Seq::new((to - from) as nat, |k: int| (from + k) as u64)
}

impl Dispatcher {
    /// The indices that wait in the queue, oldest first.
    pub open spec fn pending(&self) -> Seq<u64> {
        self.queue.items()
    }

    /// Whether the state is one that a run can reach.
    pub open spec fn wf(&self) -> bool {
        &&& self.queue.wf()
        &&& self.queue.capacity() == self.total
        &&& self.taken <= self.total
        &&& self.pending() == indices(self.taken, self.total)
        &&& self.in_flight + self.retired <= self.concurrency
        &&& self.in_flight <= self.taken
        &&& self.retired > 0 ==> self.taken == self.total
    }

    /// The number of workers that are free to pull.
    pub open spec fn free(&self) -> int {
        self.concurrency - self.in_flight - self.retired
    }

    /// The number of requests that were pulled and completed.
    pub open spec fn completed(&self) -> int {
        self.taken - self.in_flight
    }

    /// Starts a run of `total` requests with `concurrency` workers: the queue
    /// is made to hold `total` indices and loaded with all of them, in rising
    /// order, before any worker pulls.
    pub fn new(total: u64, concurrency: u64) -> (d: Dispatcher)
        requires
            total <= usize::MAX,
        ensures
            d.wf(),
            d.total == total,
            d.concurrency == concurrency,
            d.taken == 0,
            d.in_flight == 0,
            d.retired == 0,
            d.pending() == indices(0, total),
    {
        let mut queue = Queue::with_capacity(total as usize);
        let mut i: u64 = 0;
        while i < total
            invariant
                i <= total,
                queue.wf(),
                queue.capacity() == total,
                queue.items() == indices(0, i),
            decreases total - i,
        {
            let sent = queue.push(i);
            assert(sent);
            assert(indices(0, i).push(i) =~= indices(0, (i + 1) as u64));
            i += 1;
        }
        Dispatcher { queue, total, concurrency, taken: 0, in_flight: 0, retired: 0 }
    }

    /// A free worker asks for work. It gets the oldest index that waits, and
    /// is then in flight with it; or it finds the queue empty and leaves.
    pub fn pull(&mut self) -> (next: Option<u64>)
        requires
            old(self).wf(),
            old(self).free() > 0,
        ensures
            final(self).wf(),
            final(self).total == old(self).total,
            final(self).concurrency == old(self).concurrency,
            match next {
                Some(i) => {
                    &&& old(self).taken < old(self).total
                    &&& i == old(self).taken
                    &&& final(self).taken == old(self).taken + 1
                    &&& final(self).in_flight == old(self).in_flight + 1
                    &&& final(self).retired == old(self).retired
                },
                None => {
                    &&& old(self).taken == old(self).total
                    &&& final(self).taken == old(self).taken
                    &&& final(self).in_flight == old(self).in_flight
                    &&& final(self).retired == old(self).retired + 1
                },
            },
    {
        let ghost waiting = indices(self.taken, self.total);
        let next = self.queue.pop();
        match next {
            Some(i) => {
                assert(waiting[0] == self.taken);
                assert(waiting.drop_first() =~= indices((self.taken + 1) as u64, self.total));
                self.taken = self.taken + 1;
                self.in_flight = self.in_flight + 1;
            },
            None => {
                self.retired = self.retired + 1;
            },
        }
        next
    }

    /// A worker in flight has settled its request and is free again.
    pub fn complete(&mut self)
        requires
            old(self).wf(),
            old(self).in_flight > 0,
        ensures
            final(self).wf(),
            final(self).total == old(self).total,
            final(self).concurrency == old(self).concurrency,
            final(self).taken == old(self).taken,
            final(self).in_flight == old(self).in_flight - 1,
            final(self).retired == old(self).retired,
            final(self).pending() == old(self).pending(),
    {
        self.in_flight = self.in_flight - 1;
    }

    /// Whether every worker has left: the run is over.
    pub fn is_drained(&self) -> (drained: bool)
        ensures
            drained == (self.retired == self.concurrency),
    {
        self.retired == self.concurrency
    }

    /// At no time are more requests in flight than the run has workers.
    pub proof fn in_flight_is_bounded(&self)
        requires
            self.wf(),
        ensures
            self.in_flight <= self.concurrency,
            self.in_flight + self.free() + self.retired == self.concurrency,
    {
    }

    /// Once every worker of a run with at least one worker has left, every
    /// request of the run was pulled and completed, and none is in flight.
    pub proof fn drained_means_done(&self)
        requires
            self.wf(),
            self.concurrency > 0,
            self.retired == self.concurrency,
        ensures
            self.in_flight == 0,
            self.taken == self.total,
            self.completed() == self.total,
            self.pending().len() == 0,
    {
    }
}

} // verus!
