//! A toy in-memory double of the interface, for exercising the contracts
//! without a platform backend.
//!
//! `ScriptedLoop` drains a scripted list of events on `poll_events` and
//! dispatches one fixed event over and over on `run`. `FlagProxy` stands in
//! for a real wake-up handle: its `alive` flag plays the part of the shared
//! liveness mark a backend would allocate beside the loop and lower on the
//! loop's destruction. `Recorder` and `BreakAfter` are ready-made callbacks.

use vstd::prelude::*;

use crate::control::ControlFlow;
use crate::control::EventsLoopClosed;
use crate::interface::EventsLoop;
use crate::interface::EventsLoopProxy;
use crate::interface::PollHandler;
use crate::interface::RunHandler;

verus! {

/// A callback that records every event it is handed.
pub struct Recorder<Event> {
    /// The events received so far, oldest first.
    pub events: Vec<Event>,
}

impl<Event> Recorder<Event> {
    /// A recorder that has seen nothing yet.
    pub fn new() -> (recorder: Self)
        ensures
            recorder.events@ == Seq::<Event>::empty(),
    {
        Recorder { events: Vec::new() }
    }
}

impl<Event> PollHandler<Event> for Recorder<Event> {
    open spec fn received(&self) -> Seq<Event> {
        self.events@
    }

    fn handle(&mut self, event: Event) {
        self.events.push(event);
    }
}

/// A callback that records every event, answers `Continue` at its first
/// `budget` invocations and `Break` at every later one.
pub struct BreakAfter<Event> {
    /// The events received so far, oldest first.
    pub events: Vec<Event>,
    /// How many invocations answer `Continue` before `Break` is answered.
    pub budget: usize,
}

impl<Event> BreakAfter<Event> {
    /// A fresh callback that will answer `Continue` at its first `budget`
    /// invocations and `Break` from then on.
    pub fn new(budget: usize) -> (handler: Self)
        ensures
            handler.events@ == Seq::<Event>::empty(),
            handler.budget == budget,
    {
        BreakAfter { events: Vec::new(), budget }
    }
}

impl<Event> RunHandler<Event> for BreakAfter<Event> {
    open spec fn received(&self) -> Seq<Event> {
        self.events@
    }

    open spec fn policy(&self, n: nat) -> ControlFlow {
        if n < self.budget {
            ControlFlow::Continue
        } else {
            ControlFlow::Break
        }
    }

    fn handle(&mut self, event: Event) -> (flow: ControlFlow) {
        let n = self.events.len();
        self.events.push(event);
        if n < self.budget {
            ControlFlow::Continue
        } else {
            ControlFlow::Break
        }
    }
}

/// The wake-up handle of `ScriptedLoop`.
///
/// The `alive` flag stands in for the shared liveness mark a real backend
/// would check before signalling its loop; the double fixes it at creation.
pub struct FlagProxy {
    /// Whether the observed loop still exists.
    pub alive: bool,
    /// The identity of the loop this proxy wakes.
    pub target: u64,
}

impl EventsLoopProxy for FlagProxy {
    open spec fn loop_alive(&self) -> bool {
        self.alive
    }

    open spec fn wakes(&self) -> int {
        self.target as int
    }

    fn wakeup(&self) -> (result: Result<(), EventsLoopClosed>) {
        if self.alive {
            Ok(())
        } else {
            Err(EventsLoopClosed)
        }
    }

    fn clone(&self) -> (twin: Self) {
        FlagProxy { alive: self.alive, target: self.target }
    }
}

/// The toy events loop: a scripted list of pending events for polling, and
/// one event dispatched over and over by the blocking loop.
pub struct ScriptedLoop<Event> {
    /// The events a poll will drain, in arrival order.
    pub pending: Vec<Event>,
    /// The event `run` dispatches at every wake.
    pub repeat: Event,
    /// The identity of this loop, echoed by its proxies.
    pub id: u64,
    /// Whether this double hands out working wake-up proxies.
    pub wake: bool,
}

impl<Event> ScriptedLoop<Event> {
    /// A loop that will drain `pending` on a poll and dispatch `repeat`
    /// forever on `run`. With `wake` false the loop plays the part of an
    /// implementation without wake support: `create_proxy` is refused by
    /// contract.
    pub fn new(pending: Vec<Event>, repeat: Event, id: u64, wake: bool) -> (events_loop: Self)
        ensures
            events_loop.pending@ == pending@,
            events_loop.repeat == repeat,
            events_loop.id == id,
            events_loop.wake == wake,
    {
        ScriptedLoop { pending, repeat, id, wake }
    }
}

impl<Event: Copy> EventsLoop<Event> for ScriptedLoop<Event> {
    type Proxy = FlagProxy;

    open spec fn pending(&self) -> Seq<Event> {
        self.pending@
    }

    open spec fn upcoming(&self, i: nat) -> Event {
        self.repeat
    }

    open spec fn wake_supported(&self) -> bool {
        self.wake
    }

    open spec fn loop_id(&self) -> int {
        self.id as int
    }

    fn poll_events<C: PollHandler<Event>>(&mut self, callback: &mut C) {
        let n = self.pending.len();
        let mut i: usize = 0;
        while i < n
            invariant
                i <= n,
                n == self.pending.len(),
                *self == *old(self),
                callback.received() == old(callback).received() + self.pending@.take(i as int),
            decreases n - i,
        {
            callback.handle(self.pending[i]);
            proof {
                assert(self.pending@.take(i as int + 1)
                    == self.pending@.take(i as int).push(self.pending@[i as int]));
            }
            i += 1;
        }
        proof {
            assert(self.pending@.take(n as int) == self.pending@);
        }
        self.pending.clear();
    }

    fn run<C: RunHandler<Event>>(&mut self, callback: &mut C) {
        let ghost start = old(callback).received().len();
        let ghost stop = choose|k: nat|
            start <= k && old(callback).policy(k) == ControlFlow::Break;
        let mut done = false;
        while !done
            invariant
                start <= callback.received().len(),
                callback.received().take(start as int) == old(callback).received(),
                *self == *old(self),
                forall|i: int|
                    start <= i < callback.received().len()
                        ==> callback.received()[i] == old(self).repeat,
                forall|n: nat| callback.policy(n) == old(callback).policy(n),
                !done ==> forall|n: nat|
                    start <= n < callback.received().len()
                        ==> callback.policy(n) == ControlFlow::Continue,
                done ==> start < callback.received().len(),
                done ==> forall|n: nat|
                    start <= n < callback.received().len() - 1
                        ==> callback.policy(n) == ControlFlow::Continue,
                done ==> callback.policy((callback.received().len() - 1) as nat)
                    == ControlFlow::Break,
                old(callback).policy(stop) == ControlFlow::Break,
                start <= stop,
                !done ==> callback.received().len() <= stop,
            decreases stop + 1 - callback.received().len(),
        {
            let flow = callback.handle(self.repeat);
            done = flow == ControlFlow::Break;
        }
    }

    /// On a double without wake support this method is refused by contract;
    /// driven past the contract anyway, it hands back a proxy that honestly
    /// reports the loop closed rather than one with broken semantics.
    fn create_proxy(&self) -> (proxy: FlagProxy) {
        FlagProxy { alive: self.wake, target: self.id }
    }
}

} // verus!
