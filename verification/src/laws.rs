//! Laws that relate the contracts of the interface to one another.

use vstd::prelude::*;

use crate::control::ControlFlow;
use crate::control::EventsLoopClosed;
use crate::interface::EventsLoopProxy;

verus! {

/// Law: a poll that appends the pending events to what the callback had
/// already received has invoked the callback exactly once per pending
/// event, in arrival order, and has disturbed nothing it had before.
///
/// `before` is what the callback had received when the poll began,
/// `pending` what the loop held at that moment, and `after` what the
/// callback has received once the poll returns; `poll_events` ensures
/// `after == before + pending`.
pub proof fn lemma_poll_delivers_pending_in_order<Event>(
    before: Seq<Event>,
    pending: Seq<Event>,
    after: Seq<Event>,
)
    requires
        after == before + pending,
    ensures
        after.len() == before.len() + pending.len(),
        forall|i: int| 0 <= i < pending.len() ==> after[before.len() + i] == pending[i],
        forall|i: int| 0 <= i < before.len() ==> after[i] == before[i],
{
}

/// Law: against a policy that answers `Continue` at exactly `budget`
/// invocations from `start` and `Break` at the next one, a run that started
/// with `start` events received leaves exactly `start + budget + 1` behind:
/// the callback was invoked `budget + 1` times.
///
/// The first three premises are what `EventsLoop::run` ensures of any
/// callback; the last two say the policy breaks exactly after `budget`
/// invocations.
pub proof fn lemma_run_invocation_count(
    policy: spec_fn(nat) -> ControlFlow,
    start: nat,
    end: nat,
    budget: nat,
)
    requires
        start < end,
        forall|n: nat| start <= n < end - 1 ==> #[trigger] policy(n) == ControlFlow::Continue,
        policy((end - 1) as nat) == ControlFlow::Break,
        forall|n: nat|
            start <= n < start + budget ==> #[trigger] policy(n) == ControlFlow::Continue,
        policy((start + budget) as nat) == ControlFlow::Break,
    ensures
        end == start + budget + 1,
{
    if end - 1 < start + budget {
        assert(policy((end - 1) as nat) == ControlFlow::Continue);
    }
    if end - 1 > start + budget {
        assert(policy((start + budget) as nat) == ControlFlow::Continue);
    }
}

/// Law: waking a loop through a clone of a proxy has the same observable
/// effect as waking it through the original: the same loop is targeted, and
/// the two calls succeed or report `EventsLoopClosed` together.
///
/// The first premise is what `EventsLoopProxy::clone` ensures of the pair;
/// the other two are what `wakeup` ensures of each call's result.
pub proof fn lemma_clone_wakeup_equivalent<P: EventsLoopProxy>(
    original: &P,
    twin: &P,
    original_result: Result<(), EventsLoopClosed>,
    twin_result: Result<(), EventsLoopClosed>,
)
    requires
        twin.loop_alive() == original.loop_alive() && twin.wakes() == original.wakes(),
        original_result is Ok <==> original.loop_alive(),
        twin_result is Ok <==> twin.loop_alive(),
    ensures
        twin_result == original_result,
{
    match (original_result, twin_result) {
        (Ok(left), Ok(right)) => {
            assert(left == right);
        },
        (Err(left), Err(right)) => {
            assert(left == right);
        },
        (Ok(_), Err(_)) => {
            assert(false);
        },
        (Err(_), Ok(_)) => {
            assert(false);
        },
    }
}

} // verus!
