use events_loop::BreakAfter;
use events_loop::ControlFlow;
use events_loop::EventsLoop;
use events_loop::EventsLoopClosed;
use events_loop::EventsLoopProxy;
use events_loop::FlagProxy;
use events_loop::Recorder;
use events_loop::ScriptedLoop;

#[derive(Debug, Copy, Clone, PartialEq, Eq, Hash)]
enum Events {
    A,
    B,
    C,
}

/// A loop that behaves as the toy double always has: `A`, `B` pending for a
/// poll, `C` dispatched over and over by `run`.
fn toy_loop(wake: bool) -> ScriptedLoop<Events> {
    ScriptedLoop::new(vec![Events::A, Events::B], Events::C, 1, wake)
}

#[test]
fn it_works() {
    let mut l = toy_loop(false);
    let mut recorder = Recorder::new();
    l.poll_events(&mut recorder);
    for e in &recorder.events {
        println!("{:?}", e);
    }
    let mut breaker: BreakAfter<Events> = BreakAfter::new(0);
    l.run(&mut breaker);
    for e in &breaker.events {
        println!("{:?}", e);
    }
}

#[test]
fn poll_records_pending_in_order() {
    let mut l = toy_loop(false);
    let mut recorder = Recorder::new();
    l.poll_events(&mut recorder);
    assert_eq!(recorder.events, vec![Events::A, Events::B]);
}

#[test]
fn poll_drains_the_pending_set() {
    let mut l = toy_loop(false);
    let mut recorder = Recorder::new();
    l.poll_events(&mut recorder);
    l.poll_events(&mut recorder);
    assert_eq!(recorder.events, vec![Events::A, Events::B]);
}

#[test]
fn poll_with_nothing_pending_invokes_nothing() {
    let mut l: ScriptedLoop<Events> = ScriptedLoop::new(vec![], Events::C, 1, false);
    let mut recorder = Recorder::new();
    l.poll_events(&mut recorder);
    assert_eq!(recorder.events, vec![]);
}

#[test]
fn run_returns_after_first_break() {
    let mut l = toy_loop(false);
    let mut breaker: BreakAfter<Events> = BreakAfter::new(0);
    l.run(&mut breaker);
    assert_eq!(breaker.events, vec![Events::C]);
}

#[test]
fn run_invokes_once_more_than_the_continue_budget() {
    let mut l = toy_loop(false);
    let mut breaker: BreakAfter<Events> = BreakAfter::new(3);
    l.run(&mut breaker);
    assert_eq!(breaker.events, vec![Events::C, Events::C, Events::C, Events::C]);
}

#[test]
fn wakeup_on_a_live_loop_succeeds() {
    let proxy = FlagProxy { alive: true, target: 7 };
    assert_eq!(proxy.wakeup(), Ok(()));
}

#[test]
fn wakeup_on_a_destroyed_loop_reports_closed() {
    let proxy = FlagProxy { alive: false, target: 7 };
    assert_eq!(proxy.wakeup(), Err(EventsLoopClosed));
}

#[test]
fn a_clone_wakes_the_same_loop_with_the_same_outcome() {
    let live = FlagProxy { alive: true, target: 7 };
    let live_twin = live.clone();
    assert_eq!(live_twin.target, live.target);
    assert_eq!(live_twin.wakeup(), live.wakeup());

    let dead = FlagProxy { alive: false, target: 7 };
    let dead_twin = dead.clone();
    assert_eq!(dead_twin.target, dead.target);
    assert_eq!(dead_twin.wakeup(), dead.wakeup());
    assert_eq!(dead_twin.wakeup(), Err(EventsLoopClosed));
}

#[test]
fn create_proxy_with_wake_support_mints_a_working_handle() {
    let l = toy_loop(true);
    let proxy = l.create_proxy();
    assert_eq!(proxy.target, 1);
    assert_eq!(proxy.wakeup(), Ok(()));
}

#[test]
fn create_proxy_without_wake_support_yields_only_a_closed_report() {
    // The contract refuses this call; an unverified caller that makes it
    // anyway gets a handle that honestly reports the loop closed.
    let l = toy_loop(false);
    let proxy = l.create_proxy();
    assert_eq!(proxy.wakeup(), Err(EventsLoopClosed));
}

#[test]
fn the_closed_error_describes_itself() {
    assert_eq!(
        EventsLoopClosed.description(),
        "Tried to wake up a closed event loop"
    );
}

#[test]
fn control_flow_signals_compare_by_variant() {
    assert_eq!(ControlFlow::Continue, ControlFlow::Continue);
    assert_ne!(ControlFlow::Continue, ControlFlow::Break);
    let copied = ControlFlow::Break;
    assert_eq!(copied, ControlFlow::Break);
}
