//! The statistics of a run: how many requests succeeded, how long they took
//! in all, and a histogram of how long each took.
//!
//! Times are whole microseconds. A histogram bucket is `granularity`
//! milliseconds wide; bucket `i` counts the requests that took at least
//! `i * granularity` and less than `(i + 1) * granularity` milliseconds.

use vstd::prelude::*;

verus! {

/// The status code that counts as a success.
pub const STATUS_OK: u16 = 200;

/// The statistics of a run so far.
#[derive(Debug, PartialEq, Eq)]
pub struct Record {
    /// How many recorded requests were answered with status 200.
    pub success: u64,
    /// The time that all recorded requests took together, in microseconds.
    pub elapsed_sum: u128,
    /// The histogram: entry `i` counts the recorded requests of bucket `i`.
    pub elapsed_vec: Vec<usize>,
}

/// The mathematical content of a `Record`.
pub ghost struct Tally {
    pub success: nat,
    pub elapsed_sum: nat,
    pub histogram: Seq<nat>,
}

/// What is recorded of one request: its status code and the microseconds it took.
pub ghost struct Outcome {
    pub status_code: u16,
    pub elapsed: u64,
}

/// The entries of a histogram as numbers.
pub open spec fn counts(v: Seq<usize>) -> Seq<nat> {
    v.map_values(|n: usize| n as nat)
}

impl View for Record {
    type V = Tally;

    open spec fn view(&self) -> Tally {
        Tally {
            success: self.success as nat,
            elapsed_sum: self.elapsed_sum as nat,
            histogram: counts(self.elapsed_vec@),
        }
    }
}

/// The sum of a histogram's entries: the number of requests it counts.
pub open spec fn total(h: Seq<nat>) -> nat
    decreases h.len(),
{
    if h.len() == 0 {
        0
    } else {
        total(h.drop_last()) + h.last()
    }
}

/// Entry `k` of a histogram, read as 0 beyond its end.
pub open spec fn entry(h: Seq<nat>, k: int) -> nat {
    if 0 <= k < h.len() {
        h[k]
    } else {
        0
    }
}

/// The histogram after one more request in bucket `i`: long enough to hold
/// the bucket, every entry as before but for entry `i`, which is one more.
pub open spec fn bumped(h: Seq<nat>, i: nat) -> Seq<nat> {
    Seq::new(
        if h.len() > i {
            h.len()
        } else {
            i + 1
        },
        |k: int|
            if k == i {
                (entry(h, k) + 1) as nat
            } else {
                entry(h, k)
            },
    )
}

/// The bucket of a request that took `elapsed` microseconds.
pub open spec fn bucket_of(elapsed: u64, granularity: u64) -> nat
    recommends
        granularity > 0,
{
    ((elapsed / 1000) / granularity) as nat
}

/// The statistics after one more request was recorded.
pub open spec fn recorded(t: Tally, o: Outcome, granularity: u64) -> Tally
    recommends
        granularity > 0,
{
    Tally {
        success: if o.status_code == STATUS_OK {
            t.success + 1
        } else {
            t.success
        },
        elapsed_sum: t.elapsed_sum + o.elapsed as nat,
        histogram: bumped(t.histogram, bucket_of(o.elapsed, granularity)),
    }
}

/// The statistics after the requests of `outcomes` were recorded one after the other.
pub open spec fn recorded_all(t: Tally, outcomes: Seq<Outcome>, granularity: u64) -> Tally
    recommends
        granularity > 0,
    decreases outcomes.len(),
{
    if outcomes.len() == 0 {
        t
    } else {
        recorded(recorded_all(t, outcomes.drop_last(), granularity), outcomes.last(), granularity)
    }
}

/// No entry of a histogram is more than its total, and the total of its
/// first `k` entries is no more than the total of all.
pub proof fn total_bounds(h: Seq<nat>, k: int)
    requires
        0 <= k <= h.len(),
    ensures
        total(h.subrange(0, k)) <= total(h),
        k < h.len() ==> total(h.subrange(0, k)) + h[k] <= total(h),
    decreases h.len(),
{
    if k == h.len() {
        assert(h.subrange(0, k) =~= h);
    } else {
        let front = h.drop_last();
        assert(front.subrange(0, k) =~= h.subrange(0, k));
        total_bounds(front, k);
    }
}

/// Raising one entry of a histogram by one raises its total by one.
proof fn total_update(h: Seq<nat>, i: int)
    requires
        0 <= i < h.len(),
    ensures
        total(h.update(i, (h[i] + 1) as nat)) == total(h) + 1,
    decreases h.len(),
{
    let up = h.update(i, (h[i] + 1) as nat);
    if i == h.len() - 1 {
        assert(up.drop_last() =~= h.drop_last());
    } else {
        assert(up.drop_last() =~= h.drop_last().update(i, (h[i] + 1) as nat));
        total_update(h.drop_last(), i);
    }
}

/// A histogram made longer with empty buckets counts as many requests as before.
proof fn total_padded(h: Seq<nat>, n: nat)
    requires
        n >= h.len(),
    ensures
        total(Seq::new(n, |k: int| entry(h, k))) == total(h),
    decreases n,
{
    let p = Seq::new(n, |k: int| entry(h, k));
    if n == h.len() {
        assert(p =~= h);
    } else {
        let q = Seq::new((n - 1) as nat, |k: int| entry(h, k));
        assert(p.drop_last() =~= q);
        total_padded(h, (n - 1) as nat);
    }
}

/// One more request in any bucket makes the histogram count one request more.
pub proof fn total_bumped(h: Seq<nat>, i: nat)
    ensures
        total(bumped(h, i)) == total(h) + 1,
{
    let n: nat = if h.len() > i {
        h.len()
    } else {
        i + 1
    };
    let p = Seq::new(n, |k: int| entry(h, k));
    total_padded(h, n);
    total_update(p, i as int);
    assert(bumped(h, i) =~= p.update(i as int, (p[i as int] + 1) as nat));
}

/// Recording two requests gives the same statistics in either order.
pub proof fn recording_commutes(t: Tally, a: Outcome, b: Outcome, granularity: u64)
    requires
        granularity > 0,
    ensures
        recorded(recorded(t, a, granularity), b, granularity) == recorded(
            recorded(t, b, granularity),
            a,
            granularity,
        ),
{
    let i = bucket_of(a.elapsed, granularity);
    let j = bucket_of(b.elapsed, granularity);
    assert(bumped(bumped(t.histogram, i), j) =~= bumped(bumped(t.histogram, j), i));
}

/// Recording a request that stands anywhere in a list, after the others,
/// gives what recording the list in its own order gives.
proof fn recorded_all_remove(t: Tally, outcomes: Seq<Outcome>, k: int, granularity: u64)
    requires
        granularity > 0,
        0 <= k < outcomes.len(),
    ensures
        recorded_all(t, outcomes, granularity) == recorded(
            recorded_all(t, outcomes.remove(k), granularity),
            outcomes[k],
            granularity,
        ),
    decreases outcomes.len(),
{
    if k == outcomes.len() - 1 {
        assert(outcomes.remove(k) =~= outcomes.drop_last());
    } else {
        let front = outcomes.drop_last();
        recorded_all_remove(t, front, k, granularity);
        recording_commutes(
            recorded_all(t, front.remove(k), granularity),
            outcomes[k],
            outcomes.last(),
            granularity,
        );
        assert(outcomes.remove(k).drop_last() =~= front.remove(k));
        assert(outcomes.remove(k).last() == outcomes.last());
    }
}

/// The statistics of a run do not depend on the order in which its requests
/// were recorded: two lists that hold the same outcomes, each as often as the
/// other, give the same success count, the same sum of times and the same
/// histogram.
pub proof fn recording_order_is_irrelevant(
    t: Tally,
    first: Seq<Outcome>,
    second: Seq<Outcome>,
    granularity: u64,
)
    requires
        granularity > 0,
        first.to_multiset() == second.to_multiset(),
    ensures
        recorded_all(t, first, granularity) == recorded_all(t, second, granularity),
    decreases first.len(),
{
    broadcast use vstd::seq_lib::group_to_multiset_ensures;

    vstd::seq_lib::to_multiset_len(first);
    vstd::seq_lib::to_multiset_len(second);
    if first.len() == 0 {
        assert(second.len() == 0);
    } else {
        let last = first.last();
        assert(first.contains(last));
        vstd::seq_lib::to_multiset_contains(first, last);
        vstd::seq_lib::to_multiset_contains(second, last);
        assert(second.contains(last));
        let k = choose|k: int| 0 <= k < second.len() && second[k] == last;
        assert(first.remove(first.len() - 1) =~= first.drop_last());
        vstd::seq_lib::to_multiset_remove(first, first.len() - 1);
        vstd::seq_lib::to_multiset_remove(second, k);
        recording_order_is_irrelevant(t, first.drop_last(), second.remove(k), granularity);
        recorded_all_remove(t, second, k, granularity);
    }
}

/// A request lands in the bucket of its time, and the histogram has no gaps:
/// after a request in bucket `i` was counted, the histogram holds every bucket
/// up to `i`, bucket `i` counts one more than before, and every other bucket
/// counts what it counted before.
pub proof fn bumped_entries(h: Seq<nat>, i: nat)
    ensures
        bumped(h, i).len() > i,
        bumped(h, i).len() >= h.len(),
        bumped(h, i).len() == h.len() || bumped(h, i).len() == i + 1,
        bumped(h, i)[i as int] == entry(h, i as int) + 1,
        forall|k: int| 0 <= k < bumped(h, i).len() && k != i ==> bumped(h, i)[k] == entry(h, k),
{
}

/// Records one request in the histogram: finds the bucket of a request that
/// took `elapsed` milliseconds, makes the histogram long enough to hold it,
/// and counts the request there.
pub fn categorize(elapsed_vec: &mut Vec<usize>, granularity: u64, elapsed: u64)
    requires
        granularity > 0,
        elapsed / granularity < usize::MAX,
        entry(counts(old(elapsed_vec)@), (elapsed / granularity) as int) < usize::MAX,
    ensures
        counts(final(elapsed_vec)@) == bumped(
            counts(old(elapsed_vec)@),
            (elapsed / granularity) as nat,
        ),
        final(elapsed_vec)@.len() > elapsed / granularity,
        final(elapsed_vec)@.len() == old(elapsed_vec)@.len() || final(elapsed_vec)@.len()
            == elapsed / granularity + 1,
        forall|k: int|
            0 <= k < final(elapsed_vec)@.len() ==> #[trigger] final(elapsed_vec)@[k] == entry(
                counts(old(elapsed_vec)@),
                k,
            ) + if k == elapsed / granularity {
                1int
            } else {
                0int
            },
{
    let i: usize = (elapsed / granularity) as usize;
    let ghost before = elapsed_vec@;
    while elapsed_vec.len() <= i
        invariant
            i < usize::MAX,
            elapsed_vec@.len() >= before.len(),
            elapsed_vec@.len() <= i + 1 || elapsed_vec@.len() == before.len(),
            forall|k: int| 0 <= k < before.len() ==> elapsed_vec@[k] == before[k],
            forall|k: int| before.len() <= k < elapsed_vec@.len() ==> elapsed_vec@[k] == 0,
        decreases i + 1 - elapsed_vec.len(),
    {
        elapsed_vec.push(0);
    }
    let n: usize = elapsed_vec[i];
    elapsed_vec.set(i, n + 1);
    assert(counts(elapsed_vec@) =~= bumped(counts(before), i as nat));
}

impl Record {
    /// Whether the record is one that recording requests can have made: no
    /// more successes than requests, no request longer than a `u64` holds,
    /// and a number of requests that a `usize` holds.
    pub open spec fn wf(&self) -> bool {
        &&& total(self@.histogram) <= usize::MAX
        &&& self@.success <= total(self@.histogram)
        &&& self@.elapsed_sum <= total(self@.histogram) * u64::MAX
    }

    /// The record of a run in which nothing was recorded yet.
    pub fn new() -> (r: Record)
        ensures
            r.wf(),
            r@ == (Tally { success: 0, elapsed_sum: 0, histogram: Seq::empty() }),
    {
        let r = Record { success: 0, elapsed_sum: 0, elapsed_vec: Vec::new() };
        assert(r@.histogram =~= Seq::empty());
        r
    }

    /// The number of requests recorded: the sum of the histogram's entries.
    pub fn elapsed_num(&self) -> (n: usize)
        requires
            self.wf(),
        ensures
            n == total(self@.histogram),
    {
        let ghost h = self@.histogram;
        let mut n: usize = 0;
        let mut k: usize = 0;
        while k < self.elapsed_vec.len()
            invariant
                k <= self.elapsed_vec.len(),
                h == counts(self.elapsed_vec@),
                total(h) <= usize::MAX,
                n == total(h.subrange(0, k as int)),
            decreases self.elapsed_vec.len() - k,
        {
            proof {
                total_bounds(h, k as int);
                assert(h.subrange(0, k + 1).drop_last() =~= h.subrange(0, k as int));
            }
            n = n + self.elapsed_vec[k];
            k += 1;
        }
        assert(h.subrange(0, k as int) =~= h);
        n
    }
}

} // verus!
