//! The summary of a run, made from its statistics once every worker has left.

use vstd::prelude::*;
use crate::stats::{total, Record, Tally};

verus! {

/// One line of the histogram: the requests that took at least `lower` and
/// less than `upper` milliseconds.
#[derive(Clone, Copy, Debug, PartialEq, Eq, Structural)]
pub struct Bucket {
    pub lower: u128,
    pub upper: u128,
    pub count: usize,
}

/// What a run reports at its end.
#[derive(Debug, PartialEq, Eq)]
pub struct Summary {
    /// The buckets that count at least one request, in rising order.
    pub buckets: Vec<Bucket>,
    /// The mean time of the recorded requests in whole microseconds, rounded
    /// down; `None` where none was recorded.
    pub average: Option<u64>,
    /// The number of requests of the run.
    pub total: u64,
    /// The number of requests answered with status 200.
    pub success: u64,
    /// The number of all other requests of the run.
    pub failed: u64,
}

/// The line of bucket `i` of a histogram with buckets `granularity` milliseconds wide.
pub open spec fn bucket_line(h: Seq<nat>, granularity: u64, i: int) -> Bucket {
    Bucket {
        lower: (i * granularity) as u128,
        upper: ((i + 1) * granularity) as u128,
        count: h[i] as usize,
    }
}

/// The lines of the first `n` buckets of a histogram, empty buckets left out.
pub open spec fn bucket_lines(h: Seq<nat>, granularity: u64, n: nat) -> Seq<Bucket>
    decreases n,
{
    if n == 0 {
        Seq::empty()
    } else {
        let before = bucket_lines(h, granularity, (n - 1) as nat);
        if h[n - 1] > 0 {
            before.push(bucket_line(h, granularity, n - 1))
        } else {
            before
        }
    }
}

/// The mean time of the recorded requests: the sum of their times divided by
/// their number, which is the sum of the histogram's entries.
pub open spec fn mean(t: Tally) -> Option<nat> {
    if total(t.histogram) == 0 {
        None
    } else {
        Some(t.elapsed_sum / total(t.histogram))
    }
}

impl Record {
    /// The histogram's lines in rising order, empty buckets left out.
    pub fn buckets(&self, granularity: u64) -> (lines: Vec<Bucket>)
        ensures
            lines@ == bucket_lines(self@.histogram, granularity, self@.histogram.len()),
    {
        let ghost h = self@.histogram;
        let mut lines: Vec<Bucket> = Vec::new();
        let mut i: usize = 0;
        while i < self.elapsed_vec.len()
            invariant
                i <= self.elapsed_vec.len(),
                h == self@.histogram,
                h.len() == self.elapsed_vec@.len(),
                lines@ == bucket_lines(h, granularity, i as nat),
            decreases self.elapsed_vec.len() - i,
        {
            let count = self.elapsed_vec[i];
            if count > 0 {
                assert(i * granularity <= usize::MAX * u64::MAX && (i + 1) * granularity
                    <= usize::MAX * u64::MAX) by (nonlinear_arith)
                    requires
                        0 <= i < usize::MAX,
                        0 <= granularity <= u64::MAX,
                ;
                let lower: u128 = (i as u128) * (granularity as u128);
                let upper: u128 = (i as u128 + 1) * (granularity as u128);
                lines.push(Bucket { lower, upper, count });
            }
            i += 1;
        }
        lines
    }

    /// The mean time of the recorded requests in whole microseconds, rounded
    /// down; `None` where none was recorded.
    pub fn average(&self) -> (avg: Option<u64>)
        requires
            self.wf(),
        ensures
            match avg {
                Some(a) => mean(self@) == Some(a as nat),
                None => mean(self@).is_none(),
            },
    {
        let n = self.elapsed_num();
        if n == 0 {
            None
        } else {
            assert(self.elapsed_sum / (n as u128) <= u64::MAX) by (nonlinear_arith)
                requires
                    n > 0,
                    self.elapsed_sum <= n * u64::MAX,
            ;
            Some((self.elapsed_sum / (n as u128)) as u64)
        }
    }
}

/// Sums a run up: the histogram's lines, the mean time, and how many of the
/// run's `total_num` requests succeeded and how many did not. A request that
/// was never recorded counts as failed.
pub fn summarize(record: &Record, total_num: u64, granularity: u64) -> (s: Summary)
    requires
        record.wf(),
        record.success <= total_num,
    ensures
        s.buckets@ == bucket_lines(record@.histogram, granularity, record@.histogram.len()),
        match s.average {
            Some(a) => mean(record@) == Some(a as nat),
            None => mean(record@).is_none(),
        },
        s.total == total_num,
        s.success == record.success,
        s.failed == total_num - record.success,
{
    Summary {
        buckets: record.buckets(granularity),
        average: record.average(),
        total: total_num,
        success: record.success,
        failed: total_num - record.success,
    }
}

} // verus!
