//! The message bus: a bounded, ordered, many-producer single-consumer
//! queue carrying control messages from the inbound request handlers to the
//! orchestrator.
//!
//! A send on a full bus does not go through and loses nothing -- in the
//! running system the producer suspends until the orchestrator consumes a
//! pending message (backpressure); sequentially that shows up as
//! [`SendOutcome::Full`], after which the same send succeeds once a `recv`
//! has made room. A send fails permanently once the consumer side is
//! closed.

use vstd::prelude::*;

use crate::messages::Message;

verus! {

/// Capacity of the coordinator's inbound bus.
pub const BUS_CAPACITY: usize = 100;

/// Mathematical state of the bus.
pub ghost struct BusModel {
    /// Pending messages, oldest first.
    pub queue: Seq<Message>,
    /// Maximum number of pending messages.
    pub capacity: nat,
    /// Whether the consumer side has shut down.
    pub closed: bool,
}

/// What happened to an attempted send.
#[derive(Debug, Clone, Copy, PartialEq, Eq, Structural)]
pub enum SendOutcome {
    /// The message was appended to the queue.
    Sent,
    /// The queue is at capacity; nothing changed. The producer must wait
    /// for the consumer before retrying.
    Full,
    /// The consumer side is closed; nothing changed, and no later send can
    /// succeed.
    Closed,
}

/// The error of a completed send: the consumer side has closed.
#[derive(Debug, Clone, Copy, PartialEq, Eq, Structural)]
pub struct BusClosed;

/// One attempted send.
pub open spec fn spec_try_send(b: BusModel, m: Message) -> (BusModel, SendOutcome) {
    if b.closed {
        (b, SendOutcome::Closed)
    } else if b.queue.len() < b.capacity {
        (
            BusModel { queue: b.queue.push(m), capacity: b.capacity, closed: b.closed },
            SendOutcome::Sent,
        )
    } else {
        (b, SendOutcome::Full)
    }
}

/// One attempted receive: the oldest pending message, if any.
pub open spec fn spec_try_recv(b: BusModel) -> (BusModel, Option<Message>) {
    if b.queue.len() > 0 {
        (
            BusModel { queue: b.queue.drop_first(), capacity: b.capacity, closed: b.closed },
            Some(b.queue.first()),
        )
    } else {
        (b, None)
    }
}

/// Backpressure, not loss: a send on a full open bus does not go through
/// and changes nothing, so the message is neither dropped nor reordered;
/// as soon as the consumer removes one pending message, the same send is
/// accepted and the message is appended after the remaining ones.
pub proof fn lemma_bus_backpressure(b: BusModel, m: Message)
    requires
        !b.closed,
        b.queue.len() == b.capacity,
        b.capacity >= 1,
    ensures
        spec_try_send(b, m) == (b, SendOutcome::Full),
        ({
            let (drained, received) = spec_try_recv(b);
            let (after, outcome) = spec_try_send(drained, m);
            &&& received == Some(b.queue.first())
            &&& outcome == SendOutcome::Sent
            &&& after.queue == b.queue.drop_first().push(m)
        }),
{
}

/// The bounded message bus.
pub struct MessageBus {
    queue: Vec<Message>,
    capacity: usize,
    closed: bool,
}

impl View for MessageBus {
    type V = BusModel;

    closed spec fn view(&self) -> BusModel {
        BusModel { queue: self.queue@, capacity: self.capacity as nat, closed: self.closed }
    }
}

impl MessageBus {
    /// Well-formed: never more pending messages than the capacity, and a
    /// capacity of at least one.
    pub open spec fn wf(self) -> bool {
        self@.queue.len() <= self@.capacity && self@.capacity >= 1
    }

    /// An empty, open bus.
    pub fn new(capacity: usize) -> (r: MessageBus)
        requires
            capacity >= 1,
        ensures
            r.wf(),
            r@ == (BusModel { queue: Seq::<Message>::empty(), capacity: capacity as nat, closed: false }),
    {
        MessageBus { queue: Vec::new(), capacity, closed: false }
    }

    /// Attempts to send without waiting.
    pub fn try_send(&mut self, m: Message) -> (r: SendOutcome)
        requires
            old(self).wf(),
        ensures
            final(self).wf(),
            (final(self)@, r) == spec_try_send(old(self)@, m),
    {
        if self.closed {
            SendOutcome::Closed
        } else if self.queue.len() < self.capacity {
            self.queue.push(m);
            SendOutcome::Sent
        } else {
            SendOutcome::Full
        }
    }

    /// A completed send. In the running system a producer facing a full bus
    /// suspends until room is made, so a send only ever completes once the
    /// bus has room or has closed; the caller accounts for that wait in the
    /// precondition.
    pub fn send(&mut self, m: Message) -> (r: Result<(), BusClosed>)
        requires
            old(self).wf(),
            old(self)@.closed || old(self)@.queue.len() < old(self)@.capacity,
        ensures
            final(self).wf(),
            old(self)@.closed ==> r == Err::<(), BusClosed>(BusClosed) && final(self)@ == old(
                self,
            )@,
            !old(self)@.closed ==> r == Ok::<(), BusClosed>(()) && final(self)@ == (BusModel {
                queue: old(self)@.queue.push(m),
                capacity: old(self)@.capacity,
                closed: false,
            }),
    {
        if self.closed {
            Err(BusClosed)
        } else {
            self.queue.push(m);
            Ok(())
        }
    }

    /// Removes and returns the oldest pending message, if any.
    pub fn try_recv(&mut self) -> (r: Option<Message>)
        requires
            old(self).wf(),
        ensures
            final(self).wf(),
            (final(self)@, r) == spec_try_recv(old(self)@),
    {
        if self.queue.len() > 0 {
            Some(self.queue.remove(0))
        } else {
            None
        }
    }

    /// Number of pending messages.
    pub fn len(&self) -> (r: usize)
        ensures
            r == self@.queue.len(),
    {
        self.queue.len()
    }

    /// Whether the consumer side has shut down.
    pub fn is_closed(&self) -> (r: bool)
        ensures
            r == self@.closed,
    {
        self.closed
    }

    /// Shuts the consumer side down: every pending message is discarded and
    /// every later send fails.
    pub fn close(&mut self)
        requires
            old(self).wf(),
        ensures
            final(self).wf(),
            final(self)@ == (BusModel {
                queue: Seq::<Message>::empty(),
                capacity: old(self)@.capacity,
                closed: true,
            }),
    {
        self.queue.clear();
        self.closed = true;
    }
}

} // verus!
