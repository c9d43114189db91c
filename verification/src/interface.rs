//! The interface contract: the events loop, its wake-up proxy, and the
//! callback shapes the loop drives.
//!
//! Callbacks carry state (they record events, they decide when to stop), so
//! they are modelled as handler traits rather than closures: a handler's
//! ghost view says what it has received so far, and for the blocking loop a
//! ghost policy says what it answers at each invocation.

use vstd::prelude::*;

use crate::control::ControlFlow;
use crate::control::EventsLoopClosed;

verus! {

/// The callback handed to `EventsLoop::poll_events`: invoked once per
/// pending event, receiving the event by value.
pub trait PollHandler<Event> {
    /// The events this handler has been invoked with so far, oldest first.
    spec fn received(&self) -> Seq<Event>;

    /// Accept one event.
    fn handle(&mut self, event: Event)
        ensures
            final(self).received() == old(self).received().push(event),
    ;
}

/// The callback handed to `EventsLoop::run`: invoked once per event, and
/// answering after each one whether the loop should go on.
pub trait RunHandler<Event> {
    /// The events this handler has been invoked with so far, oldest first.
    spec fn received(&self) -> Seq<Event>;

    /// The answer this handler gives at its `n`-th invocation, counted over
    /// its whole life. The policy is fixed: invocations do not change it.
    spec fn policy(&self, n: nat) -> ControlFlow;

    /// Accept one event and answer whether the loop should go on.
    fn handle(&mut self, event: Event) -> (flow: ControlFlow)
        ensures
            final(self).received() == old(self).received().push(event),
            flow == old(self).policy(old(self).received().len()),
            forall|n: nat| final(self).policy(n) == old(self).policy(n),
    ;
}

/// A live connection to a platform event source.
///
/// An implementation drains pending events without blocking
/// (`poll_events`), runs a blocking dispatch loop (`run`), and mints
/// wake-up handles (`create_proxy`). The loop object itself is not meant to
/// be shared across threads; only its proxies are.
pub trait EventsLoop<Event> {
    /// The type of wake-up handle this loop mints.
    type Proxy: EventsLoopProxy;

    /// The events pending at this moment, in arrival order.
    spec fn pending(&self) -> Seq<Event>;

    /// The `i`-th event a call to `run` would dispatch, counting from the
    /// first dispatch of that call.
    spec fn upcoming(&self, i: nat) -> Event;

    /// Whether this implementation supports minting wake-up proxies.
    ///
    /// An implementation without wake support refuses `create_proxy` by
    /// contract instead of handing out a handle with broken semantics.
    spec fn wake_supported(&self) -> bool;

    /// The identity of this loop, so that a proxy can be said to wake this
    /// loop and no other.
    spec fn loop_id(&self) -> int;

    /// Fetches all the events that are pending at call time, calls the
    /// callback once for each of them in arrival order, and returns without
    /// blocking, however many (including zero) events were pending. Beyond
    /// invoking the callback it has no side effect: what a later `run` would
    /// dispatch, and the loop's identity and wake support, stay as they were.
    fn poll_events<C: PollHandler<Event>>(&mut self, callback: &mut C)
        ensures
            final(callback).received() == old(callback).received() + old(self).pending(),
            final(self).pending() == Seq::<Event>::empty(),
            forall|i: nat| final(self).upcoming(i) == old(self).upcoming(i),
            final(self).wake_supported() == old(self).wake_supported(),
            final(self).loop_id() == old(self).loop_id(),
    ;

    /// Calls the callback once per event, sleeping when none is available,
    /// and returns as soon as the callback answers `ControlFlow::Break`.
    ///
    /// A callback that never answers `Break` would keep `run` from ever
    /// returning; every function of this crate provably terminates, so the
    /// contract asks the caller for a policy with a `Break` ahead. The
    /// callback is run after every event, so a slow callback starves the
    /// queue: keeping it fast is the caller's obligation.
    fn run<C: RunHandler<Event>>(&mut self, callback: &mut C)
        requires
            exists|k: nat|
                old(callback).received().len() <= k
                    && old(callback).policy(k) == ControlFlow::Break,
        ensures
            old(callback).received().len() < final(callback).received().len(),
            final(callback).received().take(old(callback).received().len() as int)
                == old(callback).received(),
            forall|i: int|
                old(callback).received().len() <= i < final(callback).received().len()
                    ==> final(callback).received()[i]
                        == old(self).upcoming((i - old(callback).received().len()) as nat),
            forall|n: nat|
                old(callback).received().len() <= n < final(callback).received().len() - 1
                    ==> old(callback).policy(n) == ControlFlow::Continue,
            old(callback).policy((final(callback).received().len() - 1) as nat)
                == ControlFlow::Break,
            forall|n: nat| final(callback).policy(n) == old(callback).policy(n),
            final(self).wake_supported() == old(self).wake_supported(),
            final(self).loop_id() == old(self).loop_id(),
    ;

    /// Creates a proxy that can be used to wake up this loop from another
    /// thread. May only be called on an implementation that supports wake;
    /// the proxy observes this loop, alive at the moment it is minted.
    fn create_proxy(&self) -> (proxy: Self::Proxy)
        requires
            self.wake_supported(),
        ensures
            proxy.loop_alive(),
            proxy.wakes() == self.loop_id(),
    ;
}

/// A thread-safe handle able to wake the `EventsLoop` it was created from.
///
/// The handle observes its loop without keeping it alive: once the loop is
/// gone, waking fails with `EventsLoopClosed` instead of touching freed
/// state.
pub trait EventsLoopProxy: Send + Sized {
    /// Whether the loop this proxy observes still exists.
    spec fn loop_alive(&self) -> bool;

    /// The identity of the loop this proxy wakes.
    spec fn wakes(&self) -> int;

    /// Wake up the `EventsLoop` from which this proxy was created, making
    /// it emit a synthetic awakened event.
    ///
    /// Succeeds exactly while the loop is alive; once the loop has been
    /// destroyed it returns `EventsLoopClosed`, and never anything else.
    fn wakeup(&self) -> (result: Result<(), EventsLoopClosed>)
        ensures
            result is Ok <==> self.loop_alive(),
    ;

    /// Produces an independent handle observing the same loop. Cloning
    /// never fails and does not depend on the loop still being alive.
    fn clone(&self) -> (twin: Self)
        ensures
            twin.loop_alive() == self.loop_alive(),
            twin.wakes() == self.wakes(),
    ;
}

} // verus!
