//! The update channel: an ordered, unbounded queue whose producer side can be
//! closed from outside while the consumer still drains what was buffered.
use vstd::prelude::*;

use std::collections::VecDeque;

verus! {

/// What an [`UpdateChannel`] holds: whether its producer side is open, and the
/// items buffered for the consumer, oldest first.
pub struct ChannelView<U> {
    pub open: bool,
    pub pending: Seq<U>,
}

/// An ordered single-consumer queue with a closable producer side.
pub struct UpdateChannel<U> {
    open: bool,
    pending: VecDeque<U>,
}

impl<U> View for UpdateChannel<U> {
    type V = ChannelView<U>;

    closed spec fn view(&self) -> ChannelView<U> {
        ChannelView { open: self.open, pending: self.pending@ }
    }
}

impl<U> UpdateChannel<U> {
    /// An open channel with nothing buffered.
    pub fn new() -> (r: UpdateChannel<U>)
        ensures
            r@.open,
            r@.pending == Seq::<U>::empty(),
    {
        UpdateChannel { open: true, pending: VecDeque::new() }
    }

    /// Whether the producer side is still open.
    pub fn is_open(&self) -> (r: bool)
        ensures
            r == self@.open,
    {
        self.open
    }

    /// Closes the producer side for good; closing a closed channel does
    /// nothing. Buffered items stay for the consumer.
    pub fn close(&mut self)
        ensures
            !final(self)@.open,
            final(self)@.pending == old(self)@.pending,
    {
        self.open = false;
    }

    /// Appends `item` behind everything buffered.
    pub fn send(&mut self, item: U)
        requires
            old(self)@.open,
        ensures
            final(self)@.open,
            final(self)@.pending == old(self)@.pending.push(item),
    {
        self.pending.push_back(item);
    }

    /// Takes the oldest buffered item, if any.
    pub fn recv(&mut self) -> (r: Option<U>)
        ensures
            final(self)@.open == old(self)@.open,
            old(self)@.pending.len() == 0 ==> r is None && final(self)@.pending == old(self)@.pending,
            old(self)@.pending.len() > 0 ==> r == Some(old(self)@.pending[0])
                && final(self)@.pending == old(self)@.pending.drop_first(),
    {
        let r = self.pending.pop_front();
        proof {
            if old(self)@.pending.len() > 0 {
                assert(self.pending@ =~= old(self)@.pending.drop_first());
            }
        }
        r
    }

    /// Number of buffered items.
    pub fn len(&self) -> (r: usize)
        ensures
            r == self@.pending.len(),
    {
        self.pending.len()
    }

    /// Whether the consumer has seen the end: the producer side is closed and
    /// nothing is buffered.
    pub fn is_finished(&self) -> (r: bool)
        ensures
            r == (!self@.open && self@.pending.len() == 0),
    {
        !self.open && self.pending.len() == 0
    }
}

} // verus!
