//! The work queue of a run: a bounded `flume` channel that holds the indices
//! of the requests that no worker has taken yet, oldest first.

use vstd::prelude::*;

verus! {

/// `flume::Sender`, the sending end of a channel. Nothing is known of what
/// is inside.
#[verifier::external_type_specification]
#[verifier::external_body]
#[verifier::reject_recursive_types(T)]
pub struct ExSender<T>(flume::Sender<T>);

/// `flume::Receiver`, the receiving end of a channel. Nothing is known of
/// what is inside.
#[verifier::external_type_specification]
#[verifier::external_body]
#[verifier::reject_recursive_types(T)]
pub struct ExReceiver<T>(flume::Receiver<T>);

/// The items that wait in the channel that `rx` receives from, oldest first.
pub uninterp spec fn queued(rx: flume::Receiver<u64>) -> Seq<u64>;

/// The number of items that the channel that `rx` receives from was made to hold.
pub uninterp spec fn bound(rx: flume::Receiver<u64>) -> nat;

/// Whether `tx` and `rx` are the two ends of one channel, and its only ends.
pub uninterp spec fn joined(tx: flume::Sender<u64>, rx: flume::Receiver<u64>) -> bool;

/// A bounded queue of request indices, first in, first out. It holds both
/// ends of its channel and hands out neither.
pub struct Queue {
    tx: flume::Sender<u64>,
    rx: flume::Receiver<u64>,
}

/// `flume::bounded` makes an empty channel that holds up to `cap` items and
/// hands out its two ends.
#[verifier::external_body]
fn open(cap: usize) -> (q: Queue)
    ensures
        joined(q.tx, q.rx),
        queued(q.rx) == Seq::<u64>::empty(),
        bound(q.rx) == cap,
{
    let (tx, rx) = flume::bounded(cap);
    Queue { tx, rx }
}

/// `Sender::try_send` puts `item` behind the items that wait, unless as many
/// wait as the channel was made to hold: then it leaves the channel as it is
/// and says so. It never waits for room.
#[verifier::external_body]
fn offer(q: &mut Queue, item: u64) -> (sent: bool)
    requires
        joined(old(q).tx, old(q).rx),
    ensures
        joined(final(q).tx, final(q).rx),
        bound(final(q).rx) == bound(old(q).rx),
        sent == (queued(old(q).rx).len() < bound(old(q).rx)),
        queued(final(q).rx) == if sent {
            queued(old(q).rx).push(item)
        } else {
            queued(old(q).rx)
        },
{
    q.tx.try_send(item).is_ok()
}

/// `Receiver::try_recv` takes the oldest item that waits, or finds that none
/// waits. It never waits for an item.
#[verifier::external_body]
fn take(q: &mut Queue) -> (item: Option<u64>)
    requires
        joined(old(q).tx, old(q).rx),
    ensures
        joined(final(q).tx, final(q).rx),
        bound(final(q).rx) == bound(old(q).rx),
        match item {
            Some(i) => {
                &&& queued(old(q).rx).len() > 0
                &&& i == queued(old(q).rx)[0]
                &&& queued(final(q).rx) == queued(old(q).rx).drop_first()
            },
            None => {
                &&& queued(old(q).rx).len() == 0
                &&& queued(final(q).rx) == queued(old(q).rx)
            },
        },
{
    q.rx.try_recv().ok()
}

impl Queue {
    /// The indices that wait, oldest first.
    pub closed spec fn items(&self) -> Seq<u64> {
        queued(self.rx)
    }

    /// The number of indices that the queue was made to hold.
    pub closed spec fn capacity(&self) -> nat {
        bound(self.rx)
    }

    /// Whether the queue holds the two ends of one channel.
    pub closed spec fn wf(&self) -> bool {
        joined(self.tx, self.rx)
    }

    /// An empty queue that holds up to `cap` indices.
    pub fn with_capacity(cap: usize) -> (q: Queue)
        ensures
            q.wf(),
            q.items() == Seq::<u64>::empty(),
            q.capacity() == cap,
    {
        open(cap)
    }

    /// Puts `item` behind the indices that wait, unless the queue is full:
    /// then the queue stays as it is and the answer is `false`.
    pub fn push(&mut self, item: u64) -> (sent: bool)
        requires
            old(self).wf(),
        ensures
            final(self).wf(),
            final(self).capacity() == old(self).capacity(),
            sent == (old(self).items().len() < old(self).capacity()),
            final(self).items() == if sent {
                old(self).items().push(item)
            } else {
                old(self).items()
            },
    {
        offer(self, item)
    }

    /// Takes the oldest index that waits; `None` where none waits.
    pub fn pop(&mut self) -> (item: Option<u64>)
        requires
            old(self).wf(),
        ensures
            final(self).wf(),
            final(self).capacity() == old(self).capacity(),
            match item {
                Some(i) => {
                    &&& old(self).items().len() > 0
                    &&& i == old(self).items()[0]
                    &&& final(self).items() == old(self).items().drop_first()
                },
                None => {
                    &&& old(self).items().len() == 0
                    &&& final(self).items() == old(self).items()
                },
            },
    {
        take(self)
    }
}

} // verus!
