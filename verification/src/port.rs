//! The single-slot handoff between two processors.

use vstd::prelude::*;
use crate::error::ErrorCode;

verus! {

/// What a port is at one moment. It is exactly one of these, never two at
/// once.
#[derive(Debug)]
pub enum PortState<T> {
    /// Nothing is held, and more may come.
    Empty,
    /// One unit waits for the consumer.
    Holding(T),
    /// No more data will ever arrive.
    Finished,
    /// The producer failed, and no more data will ever arrive.
    Failed(ErrorCode),
}

impl<T> PortState<T> {
    /// The state after an attempt to push `unit`: only an empty port takes it.
    pub open spec fn push(self, unit: T) -> PortState<T> {
        if self is Empty {
            PortState::Holding(unit)
        } else {
            self
        }
    }

    /// The state after an attempt to pull: a held unit leaves the port.
    pub open spec fn pull(self) -> PortState<T> {
        if self is Holding {
            PortState::Empty
        } else {
            self
        }
    }

    /// What an attempt to pull hands out.
    pub open spec fn pulled(self) -> Option<T> {
        match self {
            PortState::Holding(unit) => Some(unit),
            _ => None,
        }
    }

    /// The state after the port was marked finished: an error stays on record,
    /// anything else, a held unit too, gives way.
    pub open spec fn finish(self) -> PortState<T> {
        if self is Failed {
            self
        } else {
            PortState::Finished
        }
    }

    /// The state after `err` was reported: the first error stays on record,
    /// anything else, a held unit too, gives way to `err`.
    pub open spec fn fail(self, err: ErrorCode) -> PortState<T> {
        if self is Failed {
            self
        } else {
            PortState::Failed(err)
        }
    }

    /// Whether no more data will ever arrive.
    pub open spec fn is_finished(self) -> bool {
        self is Finished || self is Failed
    }
}

/// One edge of the processor graph: the output of one processor and the input
/// of another. It holds at most one unit; whoever finds it full has to come
/// back later.
#[derive(Debug)]
pub struct Port<T> {
    state: PortState<T>,
}

impl<T> View for Port<T> {
    type V = PortState<T>;

    closed spec fn view(&self) -> PortState<T> {
        self.state
    }
}

impl<T> Port<T> {
    /// An empty port.
    pub fn new() -> (port: Port<T>)
        ensures
            port@ is Empty,
    {
        Port { state: PortState::Empty }
    }

    /// Whether a push would be taken.
    pub fn can_push(&self) -> (b: bool)
        ensures
            b == (self@ is Empty),
    {
        match &self.state {
            PortState::Empty => true,
            _ => false,
        }
    }

    /// Whether a unit waits to be pulled.
    pub fn has_data(&self) -> (b: bool)
        ensures
            b == (self@ is Holding),
    {
        match &self.state {
            PortState::Holding(_) => true,
            _ => false,
        }
    }

    /// Whether no more data will ever arrive.
    pub fn is_finished(&self) -> (b: bool)
        ensures
            b == self@.is_finished(),
    {
        match &self.state {
            PortState::Finished => true,
            PortState::Failed(_) => true,
            _ => false,
        }
    }

    /// The error on record, if the producer failed.
    pub fn error(&self) -> (e: Option<&ErrorCode>)
        ensures
            match self@ {
                PortState::Failed(err) => e == Some(&err),
                _ => e is None,
            },
    {
        match &self.state {
            PortState::Failed(err) => Some(err),
            _ => None,
        }
    }

    /// Puts `unit` into the port if it is empty, and says whether it did. A
    /// port that holds a unit, or is finished, stays as it is.
    pub fn try_push(&mut self, unit: T) -> (pushed: bool)
        ensures
            pushed == (old(self)@ is Empty),
            final(self)@ == old(self)@.push(unit),
    {
        if self.can_push() {
            self.state = PortState::Holding(unit);
            true
        } else {
            false
        }
    }

    /// Takes the unit out of the port, if it holds one.
    pub fn try_pull(&mut self) -> (unit: Option<T>)
        ensures
            unit == old(self)@.pulled(),
            final(self)@ == old(self)@.pull(),
    {
        if self.has_data() {
            let mut state = PortState::Empty;
            core::mem::swap(&mut state, &mut self.state);
            match state {
                PortState::Holding(unit) => Some(unit),
                _ => None,
            }
        } else {
            None
        }
    }

    /// Marks the port finished. An error that was reported stays on record.
    pub fn set_finished(&mut self)
        ensures
            final(self)@ == old(self)@.finish(),
    {
        match &self.state {
            PortState::Failed(_) => {},
            _ => {
                self.state = PortState::Finished;
            },
        }
    }

    /// Reports `err` on the port. The first error that was reported stays.
    pub fn set_error(&mut self, err: ErrorCode)
        ensures
            final(self)@ == old(self)@.fail(err),
    {
        match &self.state {
            PortState::Failed(_) => {},
            _ => {
                self.state = PortState::Failed(err);
            },
        }
    }
}

/// A unit that was pushed is the next one pulled, and the port is empty again
/// afterwards: a port neither loses nor copies what it takes.
pub proof fn lemma_push_then_pull<T>(state: PortState<T>, unit: T)
    requires
        state is Empty,
    ensures
        state.push(unit).pulled() == Some(unit),
        state.push(unit).pull() == state,
{
}

/// A port that is not empty takes nothing: what it holds stays, and a second
/// unit cannot pile up behind it.
pub proof fn lemma_full_port_refuses<T>(state: PortState<T>, unit: T)
    requires
        !(state is Empty),
    ensures
        state.push(unit) == state,
        state.push(unit).pulled() == state.pulled(),
{
}

/// Once no more data will arrive, none does: pushing, pulling, finishing and
/// failing all leave a finished port finished, and nothing can be pulled.
pub proof fn lemma_finished_is_final<T>(state: PortState<T>, unit: T, err: ErrorCode)
    requires
        state.is_finished(),
    ensures
        state.push(unit) == state,
        state.pull() == state,
        state.pulled() is None,
        state.finish() == state,
        state.fail(err).is_finished(),
        state is Failed ==> state.fail(err) == state,
{
}

} // verus!
