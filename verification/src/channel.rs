use vstd::prelude::*;

use crate::state::PpdValue;

verus! {

/// The error returned when a message is offered to a queue whose channel has
/// been shut.
#[derive(Clone, Copy, Debug, PartialEq, Eq, Structural)]
pub struct Closed;

/// What a suspending receive observes: a message, a shut and fully drained
/// channel, or nothing yet (the caller would stay suspended).
#[derive(Clone, Copy, Debug, PartialEq, Eq, Structural)]
pub enum Received {
    Msg(PpdValue),
    Shut,
    Pending,
}

/// The mathematical content of a queue: the messages in flight, oldest first,
/// and whether the sending half has been shut.
pub struct QueueModel {
    pub items: Seq<PpdValue>,
    pub closed: bool,
}

/// One direction of the channel pair: a FIFO queue of messages with a
/// shutdown flag. Shutting the queue is observable to the receiver only after
/// the messages already in flight have been drained.
pub struct Queue {
    items: Vec<PpdValue>,
    closed: bool,
}

impl View for Queue {
    type V = QueueModel;

    closed spec fn view(&self) -> QueueModel {
        QueueModel { items: self.items@, closed: self.closed }
    }
}

impl Queue {
    /// A fresh queue: empty and open.
    pub fn new() -> (q: Queue)
        ensures
            q@.items == Seq::<PpdValue>::empty(),
            !q@.closed,
    {
        Queue { items: Vec::new(), closed: false }
    }

    /// Enqueue a message. Fails exactly when the channel has been shut, and a
    /// failed send leaves the queue unchanged.
    pub fn send(&mut self, v: PpdValue) -> (r: Result<(), Closed>)
        ensures
            final(self)@.closed == old(self)@.closed,
            old(self)@.closed ==> r is Err && final(self)@.items == old(self)@.items,
            !old(self)@.closed ==> r is Ok && final(self)@.items == old(self)@.items.push(v),
    {
        if self.closed {
            Err(Closed)
        } else {
            self.items.push(v);
            Ok(())
        }
    }

    /// Dequeue without suspending: the oldest message if one is in flight,
    /// `None` otherwise.
    pub fn try_receive(&mut self) -> (r: Option<PpdValue>)
        ensures
            final(self)@.closed == old(self)@.closed,
            old(self)@.items.len() == 0 ==> r is None && final(self)@.items == old(self)@.items,
            old(self)@.items.len() > 0 ==> r == Some(old(self)@.items.first()) && final(self)@.items
                == old(self)@.items.drop_first(),
    {
        if self.items.len() == 0 {
            None
        } else {
            let v = self.items.remove(0);
            assert(self.items@ =~= old(self)@.items.drop_first());
            Some(v)
        }
    }

    /// What a suspending receive would observe now: the oldest message if one
    /// is in flight, `Shut` if the channel is shut and drained, and `Pending`
    /// if the caller would stay suspended awaiting a sender.
    pub fn receive(&mut self) -> (r: Received)
        ensures
            final(self)@.closed == old(self)@.closed,
            old(self)@.items.len() > 0 ==> r == Received::Msg(old(self)@.items.first())
                && final(self)@.items == old(self)@.items.drop_first(),
            old(self)@.items.len() == 0 ==> final(self)@.items == old(self)@.items && r == (
            if old(self)@.closed {
                Received::Shut
            } else {
                Received::Pending
            }),
    {
        match self.try_receive() {
            Some(v) => Received::Msg(v),
            None => if self.closed {
                Received::Shut
            } else {
                Received::Pending
            },
        }
    }

    /// Shut the sending half. Messages already in flight stay receivable.
    pub fn close(&mut self)
        ensures
            final(self)@.closed,
            final(self)@.items == old(self)@.items,
    {
        self.closed = true;
    }

    /// How many messages are in flight.
    pub fn len(&self) -> (n: usize)
        ensures
            n == self@.items.len(),
    {
        self.items.len()
    }

    /// Whether the sending half has been shut.
    pub fn is_closed(&self) -> (b: bool)
        ensures
            b == self@.closed,
    {
        self.closed
    }
}

} // verus!
