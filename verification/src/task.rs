//! What becomes of one request: the answer it got, and how the answer enters
//! the statistics.

use vstd::prelude::*;
use crate::job::Request;
use crate::json::{decode_json, json_decoded};
use crate::stats::{
    bucket_of, categorize, recorded, total, total_bounds, total_bumped, Outcome, Record, Tally,
    STATUS_OK,
};

verus! {

/// A request that was answered, with the answer.
#[derive(Debug, PartialEq, Eq)]
pub struct TaskResult {
    /// The request that was sent.
    pub req: Request,
    /// The status code of the answer.
    pub status_code: u16,
    /// The time from sending the request to its answer, in microseconds.
    pub elapsed: u64,
    /// The body of the answer, a JSON document as text.
    pub rsp: String,
}

/// What the transport hands back for one request.
#[derive(Debug, PartialEq, Eq)]
pub enum Reply {
    /// The request could not be sent, or no answer came in time.
    Unsent,
    /// An answer came, but its body could not be read to the end.
    Unread,
    /// An answer came.
    Received {
        status_code: u16,
        /// The time from sending the request to its answer, in microseconds.
        elapsed: u64,
        body: Vec<u8>,
    },
}

/// Why a request left no trace in the statistics.
#[derive(Clone, Copy, Debug, PartialEq, Eq, Structural)]
pub enum TaskError {
    /// The request could not be sent, or no answer came in time.
    Send,
    /// The answer's body is no JSON document.
    Decode,
}

impl TaskResult {
    /// What the statistics keep of the result.
    pub open spec fn outcome(&self) -> Outcome {
        Outcome { status_code: self.status_code, elapsed: self.elapsed }
    }
}

/// Whether the record has room for one more request that took `elapsed`
/// microseconds: its counters and the histogram's length stay within what
/// the machine's integers hold.
pub open spec fn has_room(record: &Record, elapsed: u64, granularity: u64) -> bool {
    &&& total(record@.histogram) < usize::MAX
    &&& bucket_of(elapsed, granularity) < usize::MAX
}

/// Tells whether the record has room for one more request that took
/// `elapsed` microseconds.
pub fn room_for(record: &Record, elapsed: u64, granularity: u64) -> (room: bool)
    requires
        granularity > 0,
        record.wf(),
    ensures
        room == has_room(record, elapsed, granularity),
{
    record.elapsed_num() < usize::MAX && elapsed / 1000 / granularity < usize::MAX as u64
}

/// Enters an answered request into the statistics: a success if its status
/// is 200, its time added to the sum whatever the status, and counted in the
/// histogram bucket of its time.
pub fn recording(tr: TaskResult, record: &mut Record, granularity: u64)
    requires
        granularity > 0,
        old(record).wf(),
        has_room(old(record), tr.elapsed, granularity),
    ensures
        final(record).wf(),
        final(record)@ == recorded(old(record)@, tr.outcome(), granularity),
        total(final(record)@.histogram) == total(old(record)@.histogram) + 1,
{
    let ghost before = record@;
    let ghost bucket = bucket_of(tr.elapsed, granularity);
    proof {
        total_bumped(before.histogram, bucket);
        if bucket < before.histogram.len() {
            total_bounds(before.histogram, bucket as int);
        }
        assert(before.elapsed_sum + tr.elapsed <= (total(before.histogram) + 1) * u64::MAX)
            by (nonlinear_arith)
            requires
                before.elapsed_sum <= total(before.histogram) * u64::MAX,
                tr.elapsed <= u64::MAX,
        ;
        assert((total(before.histogram) + 1) * u64::MAX <= u64::MAX * u64::MAX)
            by (nonlinear_arith)
            requires
                total(before.histogram) + 1 <= u64::MAX,
        ;
    }
    if tr.status_code == STATUS_OK {
        record.success = record.success + 1;
    }
    record.elapsed_sum = record.elapsed_sum + tr.elapsed as u128;
    categorize(&mut record.elapsed_vec, granularity, tr.elapsed / 1000);
}

/// Decides what becomes of a request once its answer's body was read as a
/// JSON document: `decoded` is the document as text, or `None` where the body
/// was none. A decoded answer is recorded, whatever its status; an answer
/// that could not be decoded leaves the record as it was.
pub fn settle(
    request: Request,
    status_code: u16,
    elapsed: u64,
    decoded: Option<String>,
    record: &mut Record,
    granularity: u64,
) -> (r: Result<(), TaskError>)
    requires
        granularity > 0,
        old(record).wf(),
        decoded.is_some() ==> has_room(old(record), elapsed, granularity),
    ensures
        final(record).wf(),
        match decoded {
            Some(_) => r.is_ok() && final(record)@ == recorded(
                old(record)@,
                Outcome { status_code, elapsed },
                granularity,
            ),
            None => r == Err::<(), TaskError>(TaskError::Decode) && *final(record) == *old(
                record,
            ),
        },
{
    match decoded {
        Some(rsp) => {
            recording(TaskResult { req: request, status_code, elapsed, rsp }, record, granularity);
            Ok(())
        },
        None => Err(TaskError::Decode),
    }
}

/// The statistics after the transport handed back `reply` for a request:
/// only an answer whose body is a JSON document is recorded.
pub open spec fn settled(t: Tally, reply: Reply, granularity: u64) -> Tally {
    match reply {
        Reply::Received { status_code, elapsed, body } => if json_decoded(body@).is_some() {
            recorded(t, Outcome { status_code, elapsed }, granularity)
        } else {
            t
        },
        _ => t,
    }
}

/// The error that `reply` ends in, if it ends in one.
pub open spec fn failure(reply: Reply) -> Option<TaskError> {
    match reply {
        Reply::Unsent => Some(TaskError::Send),
        Reply::Unread => Some(TaskError::Decode),
        Reply::Received { status_code, elapsed, body } => if json_decoded(body@).is_some() {
            None
        } else {
            Some(TaskError::Decode)
        },
    }
}

/// Whether `reply` can be settled on `record`: where it is an answer, the
/// record has room for it.
pub open spec fn can_settle(record: &Record, reply: Reply, granularity: u64) -> bool {
    match reply {
        Reply::Received { status_code, elapsed, body } => has_room(record, elapsed, granularity),
        _ => true,
    }
}

/// Finishes one request with what the transport handed back for it. An
/// answer whose body is a JSON document is recorded, whatever its status.
/// A request that was not answered, and an answer whose body is no JSON
/// document, end in an error and leave the record as it was.
pub fn subtask(request: Request, reply: Reply, record: &mut Record, granularity: u64) -> (r:
    Result<(), TaskError>)
    requires
        granularity > 0,
        old(record).wf(),
        can_settle(old(record), reply, granularity),
    ensures
        final(record).wf(),
        final(record)@ == settled(old(record)@, reply, granularity),
        match failure(reply) {
            Some(e) => r == Err::<(), TaskError>(e) && *final(record) == *old(record),
            None => r.is_ok(),
        },
{
    match reply {
        Reply::Unsent => Err(TaskError::Send),
        Reply::Unread => Err(TaskError::Decode),
        Reply::Received { status_code, elapsed, body } => {
            let decoded = decode_json(body.as_slice());
            settle(request, status_code, elapsed, decoded, record, granularity)
        },
    }
}

} // verus!
