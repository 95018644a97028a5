//! The IPC channel between the connection worker and the supervisor: a
//! bounded first-in-first-out queue of tagged messages.  Two of these run in
//! opposite directions, each with a single producer and a single consumer;
//! a full queue refuses the message rather than dropping it.

use vstd::prelude::*;
use crate::consts::MPSC_BUFFER_SIZE;
use crate::structs::IPCMessage;

verus! {

/// One bounded FIFO queue of tagged messages.
pub struct IpcQueue {
    items: Vec<IPCMessage>,
    capacity: usize,
}

impl View for IpcQueue {
    type V = Seq<IPCMessage>;

    closed spec fn view(&self) -> Seq<IPCMessage> {
        self.items@
    }
}

impl IpcQueue {
    /// The queue's fixed capacity.
    pub closed spec fn cap(&self) -> usize {
        self.capacity
    }

    /// The queue never holds more than its capacity.
    pub closed spec fn wf(&self) -> bool {
        self.items@.len() <= self.capacity
    }

    /// An empty queue of the given capacity.
    pub fn with_capacity(capacity: usize) -> (q: Self)
        ensures
            q@ == Seq::<IPCMessage>::empty(),
            q.cap() == capacity,
            q.wf(),
    {
        IpcQueue { items: Vec::new(), capacity }
    }

    /// An empty queue with the channel's standard capacity.
    pub fn new() -> (q: Self)
        ensures
            q@ == Seq::<IPCMessage>::empty(),
            q.cap() == MPSC_BUFFER_SIZE,
            q.wf(),
    {
        IpcQueue::with_capacity(MPSC_BUFFER_SIZE)
    }

    /// How many messages wait in the queue.
    pub fn len(&self) -> (n: usize)
        ensures
            n == self@.len(),
    {
        self.items.len()
    }

    /// Appends a message, or hands it back unchanged if the queue is full.
    pub fn try_send(&mut self, m: IPCMessage) -> (r: Result<(), IPCMessage>)
        requires
            old(self).wf(),
        ensures
            final(self).wf(),
            final(self).cap() == old(self).cap(),
            match r {
                Ok(_) => old(self)@.len() < old(self).cap() && final(self)@ == old(self)@.push(m),
                Err(back) => old(self)@.len() == old(self).cap() && final(self)@ == old(self)@
                    && back == m,
            },
    {
        if self.items.len() < self.capacity {
            self.items.push(m);
            Ok(())
        } else {
            Err(m)
        }
    }

    /// Removes and returns the oldest message, if any: delivery is in send
    /// order.
    pub fn try_recv(&mut self) -> (r: Option<IPCMessage>)
        requires
            old(self).wf(),
        ensures
            final(self).wf(),
            final(self).cap() == old(self).cap(),
            match r {
                Some(m) => old(self)@.len() > 0 && m == old(self)@[0] && final(self)@ == old(
                    self,
                )@.drop_first(),
                None => old(self)@.len() == 0 && final(self)@ == old(self)@,
            },
    {
        if self.items.len() > 0 {
            let m = self.items.remove(0);
            proof {
                assert(self.items@ =~= old(self).items@.drop_first());
            }
            Some(m)
        } else {
            None
        }
    }
}

} // verus!
