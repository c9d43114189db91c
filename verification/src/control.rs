//! The control-flow signal and the single error of the interface.

use vstd::prelude::*;

verus! {

/// Returned by the callback handed to `EventsLoop::run`.
///
/// Tells the running loop whether to keep dispatching events or to stop.
#[derive(Copy, Clone, Debug, PartialEq, Eq, Structural)]
pub enum ControlFlow {
    /// Keep looping and waiting for events.
    Continue,
    /// Stop the loop as soon as the current dispatch finishes.
    Break,
}

/// The error returned when an `EventsLoopProxy` attempts to wake up an
/// `EventsLoop` that no longer exists.
#[derive(Debug, Copy, Clone, PartialEq, Eq, Hash, Structural)]
pub struct EventsLoopClosed;

impl EventsLoopClosed {
    /// A short textual description of the error, for display to a user.
    pub fn description(&self) -> (text: &'static str)
        ensures
            text@ == "Tried to wake up a closed event loop"@,
    {
        "Tried to wake up a closed event loop"
    }
}

} // verus!
