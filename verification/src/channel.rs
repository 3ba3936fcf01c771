//! The bounded multiplexing channel.
//!
//! All workers push their connection outcomes into one bounded FIFO queue;
//! a single consumer pulls them in arrival order.  A send on a full queue
//! suspends the sender (modelled here as a `Full` answer, to be retried)
//! and never drops an item; a send after the consumer dropped its receiving
//! handle reports closure, which is the shutdown signal workers observe.

use vstd::prelude::*;

verus! {

/// The answer a sender gets: the item was queued, the queue is full (the
/// sender suspends and retries), or the consumer's receiving handle is gone.
#[derive(Clone, Copy, PartialEq, Eq, Structural, Debug)]
pub enum SendResult {
    Sent,
    Full,
    Closed,
}

/// A bounded FIFO queue with one consumer.  `cap` bounds how many items can
/// be buffered; `receiver_live` records whether the consumer still holds
/// the receiving handle; `senders` counts the sending handles still held,
/// one per worker that has not terminated.  The sequence the consumer sees
/// ends once every sending handle is gone and the buffer is drained.
pub struct Channel<T> {
    items: Vec<T>,
    cap: usize,
    receiver_live: bool,
    senders: usize,
}

/// The answer the consumer gets: the oldest buffered item; or nothing yet,
/// while some sender may still deliver (the consumer suspends); or the end
/// of the sequence, once every sending handle is gone and the buffer is
/// drained.
#[derive(PartialEq, Eq, Debug)]
pub enum RecvResult<T> {
    Received(T),
    Empty,
    Ended,
}

/// What a send answers, given the queue's contents, capacity and liveness.
pub open spec fn spec_send_result<T>(s: Seq<T>, capacity: int, live: bool) -> SendResult {
    if !live {
        SendResult::Closed
    } else if s.len() >= capacity {
        SendResult::Full
    } else {
        SendResult::Sent
    }
}

/// What the queue holds after a send: the item is appended exactly when the
/// send was accepted, and nothing is ever dropped.
pub open spec fn spec_send_contents<T>(s: Seq<T>, capacity: int, live: bool, item: T) -> Seq<T> {
    if spec_send_result(s, capacity, live) is Sent {
        s.push(item)
    } else {
        s
    }
}

impl<T> Channel<T> {
    /// The buffered items, oldest first.
    pub closed spec fn contents(&self) -> Seq<T> {
        self.items@
    }

    /// The capacity the channel was created with.
    pub closed spec fn capacity(&self) -> int {
        self.cap as int
    }

    /// Whether the consumer still holds the receiving handle.
    pub closed spec fn is_live(&self) -> bool {
        self.receiver_live
    }

    /// How many sending handles are still held.
    pub closed spec fn sender_count(&self) -> int {
        self.senders as int
    }

    /// The channel never buffers more than its capacity.
    pub open spec fn wf(&self) -> bool {
        self.contents().len() <= self.capacity() && self.capacity() >= 1
    }

    /// A fresh channel: empty, live, with the given capacity, its sending
    /// handles about to be given to that many workers.
    pub fn new(capacity: usize, senders: usize) -> (r: Channel<T>)
        requires
            capacity >= 1,
        ensures
            r.wf(),
            r.contents() == Seq::<T>::empty(),
            r.capacity() == capacity,
            r.is_live(),
            r.sender_count() == senders,
    {
        Channel { items: Vec::new(), cap: capacity, receiver_live: true, senders }
    }

    /// One sending handle is dropped, as happens when the worker holding it
    /// terminates.  Buffered items stay deliverable.
    pub fn drop_sender(&mut self)
        requires
            old(self).wf(),
            old(self).sender_count() >= 1,
        ensures
            final(self).wf(),
            final(self).contents() == old(self).contents(),
            final(self).capacity() == old(self).capacity(),
            final(self).is_live() == old(self).is_live(),
            final(self).sender_count() == old(self).sender_count() - 1,
    {
        self.senders = self.senders - 1;
    }

    /// One send attempt.  Exactly when the channel is live and below
    /// capacity the item is appended and `Sent` is answered; a full or
    /// closed channel is left unchanged.
    pub fn try_send(&mut self, item: T) -> (r: SendResult)
        requires
            old(self).wf(),
        ensures
            final(self).wf(),
            r == spec_send_result(old(self).contents(), old(self).capacity(), old(self).is_live()),
            final(self).contents() == spec_send_contents(
                old(self).contents(),
                old(self).capacity(),
                old(self).is_live(),
                item,
            ),
            final(self).capacity() == old(self).capacity(),
            final(self).is_live() == old(self).is_live(),
            final(self).sender_count() == old(self).sender_count(),
            !(r is Sent) ==> *final(self) == *old(self),
    {
        if !self.receiver_live {
            SendResult::Closed
        } else if self.items.len() >= self.cap {
            SendResult::Full
        } else {
            self.items.push(item);
            SendResult::Sent
        }
    }

    /// One receive attempt: the oldest buffered item, in arrival order;
    /// nothing yet, when the queue is momentarily empty but a sender may
    /// still deliver (the consumer suspends); or the end of the sequence,
    /// exactly when the queue is empty and every sending handle is gone.
    pub fn try_recv(&mut self) -> (r: RecvResult<T>)
        requires
            old(self).wf(),
            old(self).is_live(),
        ensures
            final(self).wf(),
            final(self).capacity() == old(self).capacity(),
            final(self).is_live(),
            final(self).sender_count() == old(self).sender_count(),
            old(self).contents().len() == 0 ==> *final(self) == *old(self) && r == (
            if old(self).sender_count() == 0 {
                RecvResult::<T>::Ended
            } else {
                RecvResult::<T>::Empty
            }),
            old(self).contents().len() > 0 ==> r == RecvResult::Received(old(self).contents()[0])
                && final(self).contents() == old(self).contents().drop_first(),
    {
        if self.items.len() == 0 {
            if self.senders == 0 {
                RecvResult::Ended
            } else {
                RecvResult::Empty
            }
        } else {
            let item = self.items.remove(0);
            proof {
                assert(self.items@ =~= old(self).items@.drop_first());
            }
            RecvResult::Received(item)
        }
    }

    /// Every item currently buffered, in arrival order; the queue is left
    /// empty.  Nothing is lost and nothing is duplicated on the way out.
    pub fn drain(&mut self) -> (r: Vec<T>)
        requires
            old(self).wf(),
            old(self).is_live(),
        ensures
            final(self).wf(),
            final(self).capacity() == old(self).capacity(),
            final(self).is_live(),
            final(self).sender_count() == old(self).sender_count(),
            r@ == old(self).contents(),
            final(self).contents() == Seq::<T>::empty(),
    {
        let mut out: Vec<T> = Vec::new();
        while self.items.len() > 0
            invariant
                self.wf(),
                self.is_live(),
                self.capacity() == old(self).capacity(),
                self.sender_count() == old(self).sender_count(),
                out@ + self.items@ == old(self).items@,
            decreases self.items.len(),
        {
            let item = self.items.remove(0);
            out.push(item);
            proof {
                assert(out@ + self.items@ =~= old(self).items@);
            }
        }
        proof {
            assert(out@ =~= old(self).items@);
            assert(self.items@ =~= Seq::<T>::empty());
        }
        out
    }

    /// Drop the consumer's receiving handle.  This is the only shutdown
    /// signal the pool has: every later send answers `Closed`.
    pub fn close(&mut self)
        requires
            old(self).wf(),
        ensures
            final(self).wf(),
            !final(self).is_live(),
            final(self).contents() == old(self).contents(),
            final(self).capacity() == old(self).capacity(),
            final(self).sender_count() == old(self).sender_count(),
    {
        self.receiver_live = false;
    }

    /// How many outcomes are buffered.
    pub fn len(&self) -> (r: usize)
        ensures
            r == self.contents().len(),
    {
        self.items.len()
    }

    /// Whether the consumer's receiving handle is gone; what a worker's
    /// shutdown check inspects.
    pub fn closed_for_send(&self) -> (r: bool)
        ensures
            r == !self.is_live(),
    {
        !self.receiver_live
    }
}

/// Two senders within the capacity window both succeed without suspending:
/// with room for two more items, both sends are accepted and both items are
/// queued, in order.
pub proof fn lemma_capacity_window<T>(s: Seq<T>, capacity: int, a: T, b: T)
    requires
        s.len() + 2 <= capacity,
    ensures
        spec_send_result(s, capacity, true) == SendResult::Sent,
        spec_send_result(spec_send_contents(s, capacity, true, a), capacity, true)
            == SendResult::Sent,
        spec_send_contents(spec_send_contents(s, capacity, true, a), capacity, true, b) == s.push(
            a,
        ).push(b),
{
}

/// A send that finds the queue at capacity suspends and loses nothing: the
/// answer is `Full` and the queue is unchanged, so the item can be
/// delivered once the consumer drains.
pub proof fn lemma_full_send_loses_nothing<T>(s: Seq<T>, capacity: int, item: T)
    requires
        s.len() >= capacity,
        capacity >= 1,
    ensures
        spec_send_result(s, capacity, true) == SendResult::Full,
        spec_send_contents(s, capacity, true, item) == s,
{
}

} // verus!
