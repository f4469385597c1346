//! The outbound channel into the consensus loop: a bounded queue with a
//! non-blocking, lossy send.
//!
//! Every command the worker produces originates from state that will be
//! re-derived on a later cycle (the next heartbeat, the next validation
//! pass), so dropping one under backpressure is safe, while blocking the
//! worker on a full queue would stall all other pending
//! placement-service work. The send therefore never blocks, never
//! retries and never buffers elsewhere: if the queue is full or closed,
//! the message is discarded and the send reports failure.

use vstd::prelude::*;

use crate::command::Msg;

verus! {

/// A bounded multi-producer queue with drop-on-full send semantics.
pub struct BoundedSink {
    msgs: Vec<Msg>,
    cap: usize,
    closed: bool,
}

impl BoundedSink {
    /// The messages accepted so far, oldest first.
    pub closed spec fn contents(self) -> Seq<Msg> {
        self.msgs@
    }

    /// The greatest number of messages the queue accepts at once.
    pub closed spec fn capacity(self) -> int {
        self.cap as int
    }

    /// Whether the receiving side has gone away.
    pub closed spec fn is_closed(self) -> bool {
        self.closed
    }

    /// A send succeeds exactly when the queue is open and not full.
    pub open spec fn can_accept(self) -> bool {
        !self.is_closed() && self.contents().len() < self.capacity()
    }

    /// The queue never holds more than its capacity.
    pub open spec fn wf(self) -> bool {
        self.contents().len() <= self.capacity()
    }

    /// An open, empty queue that accepts up to `cap` messages.
    pub fn new(cap: usize) -> (s: BoundedSink)
        ensures
            s.contents() == Seq::<Msg>::empty(),
            s.capacity() == cap as int,
            !s.is_closed(),
            s.wf(),
    {
        BoundedSink { msgs: Vec::new(), cap, closed: false }
    }

    /// Marks the receiving side as gone: every later send fails.
    pub fn close(&mut self)
        ensures
            final(self).contents() == old(self).contents(),
            final(self).capacity() == old(self).capacity(),
            final(self).is_closed(),
    {
        self.closed = true;
    }

    /// Non-blocking send. Enqueues `m` and reports success exactly when
    /// the queue is open and below capacity; otherwise discards `m` and
    /// reports failure, leaving the queue unchanged either way but for
    /// the accepted message.
    pub fn try_send(&mut self, m: Msg) -> (r: bool)
        ensures
            r == old(self).can_accept(),
            r ==> final(self).contents() == old(self).contents().push(m),
            !r ==> final(self).contents() == old(self).contents(),
            final(self).capacity() == old(self).capacity(),
            final(self).is_closed() == old(self).is_closed(),
            old(self).wf() ==> final(self).wf(),
    {
        if !self.closed && self.msgs.len() < self.cap {
            self.msgs.push(m);
            true
        } else {
            false
        }
    }

    /// The messages accepted so far, for the consuming side.
    pub fn messages(&self) -> (r: &Vec<Msg>)
        ensures
            r@ == self.contents(),
    {
        &self.msgs
    }
}

/// One attempted send of `m`, as the worker performs it: the queue's
/// capacity and closedness are untouched; `m` is appended exactly when
/// the queue could accept it, and dropped otherwise.
pub open spec fn sink_send_attempt(pre: BoundedSink, post: BoundedSink, m: Msg) -> bool {
    &&& post.capacity() == pre.capacity()
    &&& post.is_closed() == pre.is_closed()
    &&& if pre.can_accept() {
        post.contents() == pre.contents().push(m)
    } else {
        post.contents() == pre.contents()
    }
}

} // verus!
