//! The stop latch: a one-way transition from running to stopped.
use vstd::prelude::*;

verus! {

/// A single-fire cancellation latch. Once stopped it stays stopped.
#[derive(Debug)]
pub struct StopSignal {
    stopped: bool,
}

impl View for StopSignal {
    /// Whether the latch has fired.
    type V = bool;

    closed spec fn view(&self) -> bool {
        self.stopped
    }
}

impl StopSignal {
    /// A latch that has not fired.
    pub fn new() -> (r: StopSignal)
        ensures
            !r@,
    {
        StopSignal { stopped: false }
    }

    /// Fires the latch; a latch that already fired is left as it is.
    pub fn stop(&mut self)
        ensures
            final(self)@,
    {
        self.stopped = true;
    }

    /// Whether the latch has fired. Never blocks.
    pub fn is_stopped(&self) -> (r: bool)
        ensures
            r == self@,
    {
        self.stopped
    }
}

} // verus!
