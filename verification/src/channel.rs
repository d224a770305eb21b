//! A bounded FIFO queue of messages: many click handlers enqueue, the one
//! reducer dequeues. A send onto a saturated queue fails immediately instead
//! of blocking the UI thread.

use vstd::prelude::*;

use crate::msg::Msg;

verus! {

/// The error a send reports when the queue is already at capacity.
#[derive(Clone, Copy, PartialEq, Eq, Structural, Debug)]
pub struct ChannelFull;

/// A bounded ordered queue of `Msg`. Its view is the sequence of buffered
/// messages, oldest first; `spec_capacity` is the bound it was created with.
pub struct Channel {
    buf: Vec<Msg>,
    cap: usize,
}

impl View for Channel {
    type V = Seq<Msg>;

    closed spec fn view(&self) -> Seq<Msg> {
        self.buf@
    }
}

impl Channel {
    /// The fixed bound on how many messages may be buffered at once.
    pub closed spec fn spec_capacity(&self) -> nat {
        self.cap as nat
    }

    /// Creates an empty queue with the given capacity.
    pub fn new(capacity: usize) -> (c: Channel)
        ensures
            c@ =~= Seq::<Msg>::empty(),
            c.spec_capacity() == capacity as nat,
    {
        Channel { buf: Vec::new(), cap: capacity }
    }

    /// How many messages are currently buffered.
    pub fn len(&self) -> (n: usize)
        ensures
            n == self@.len(),
    {
        self.buf.len()
    }

    /// Non-blocking send: the message is appended when the queue has room,
    /// and rejected with `ChannelFull` (the queue unchanged) when it is full.
    pub fn try_send(&mut self, m: Msg) -> (r: Result<(), ChannelFull>)
        ensures
            final(self).spec_capacity() == old(self).spec_capacity(),
            old(self)@.len() < old(self).spec_capacity() ==> r is Ok && final(self)@
                =~= old(self)@.push(m),
            old(self)@.len() >= old(self).spec_capacity() ==> r is Err && final(self)@ == old(
                self,
            )@,
    {
        if self.buf.len() < self.cap {
            self.buf.push(m);
            Ok(())
        } else {
            Err(ChannelFull)
        }
    }

    /// Non-blocking receive: yields the oldest buffered message, or `None`
    /// when the queue is empty. Messages come out in the order they went in.
    pub fn try_recv(&mut self) -> (r: Option<Msg>)
        ensures
            final(self).spec_capacity() == old(self).spec_capacity(),
            old(self)@.len() == 0 ==> r is None && final(self)@ == old(self)@,
            old(self)@.len() > 0 ==> r == Some(old(self)@[0]) && final(self)@ =~= old(
                self,
            )@.drop_first(),
    {
        if self.buf.len() > 0 {
            let m = self.buf.remove(0);
            Some(m)
        } else {
            None
        }
    }
}

} // verus!
