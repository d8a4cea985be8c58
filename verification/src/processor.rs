//! What a processor tells the scheduler when it is polled.

use vstd::prelude::*;

verus! {

/// The answer of a processor to a poll.
#[derive(Clone, Copy, Debug, PartialEq, Eq, Structural)]
pub enum Event {
    /// An input is empty and not finished: nothing to do until upstream
    /// produces.
    NeedsInput,
    /// An output is full: nothing to do until downstream drains it.
    NeedsConsume,
    /// Computation can run now.
    Ready,
    /// A step that waits for I/O should run; other processors may run
    /// meanwhile.
    Suspend,
    /// The processor is done for good.
    Finished,
}

impl Event {
    /// Whether the processor has to wait for a neighbour before anything can
    /// happen.
    pub fn is_parked(self) -> (b: bool)
        ensures
            b == (self == Event::NeedsInput || self == Event::NeedsConsume),
    {
        match self {
            Event::NeedsInput | Event::NeedsConsume => true,
            _ => false,
        }
    }

    /// Whether the processor is done for good.
    pub fn is_finished(self) -> (b: bool)
        ensures
            b == (self == Event::Finished),
    {
        match self {
            Event::Finished => true,
            _ => false,
        }
    }
}

} // verus!
