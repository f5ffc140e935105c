use nssm_rs::termination::{ExitPoll, StopAction, StopEvent, StopPhase, Stopper};

fn step(s: Stopper, e: StopEvent) -> (Stopper, StopAction) {
    assert!(s.accepts(&e));
    s.next(e)
}

#[test]
fn graceful_exit() {
    let (s, a) = Stopper::begin(5000);
    assert_eq!(a, StopAction::SendCtrlC);
    let (s, a) = step(s, StopEvent::CtrlCSent(true));
    assert_eq!(a, StopAction::PollExit);
    let (s, a) = step(s, StopEvent::Polled { poll: ExitPoll::Running, elapsed_ms: 0 });
    assert_eq!(a, StopAction::Sleep(100));
    let (s, a) = step(s, StopEvent::Slept);
    assert_eq!(a, StopAction::PollExit);
    let (s, a) = step(s, StopEvent::Polled { poll: ExitPoll::Exited, elapsed_ms: 120 });
    assert_eq!(a, StopAction::Finish(true));
    assert_eq!(s.phase, StopPhase::Done);
    assert!(!s.accepts(&StopEvent::Reaped));
}

#[test]
fn timeout_forces_kill() {
    let (s, _) = Stopper::begin(5000);
    let (s, _) = step(s, StopEvent::CtrlCSent(true));
    let (s, a) = step(s, StopEvent::Polled { poll: ExitPoll::Running, elapsed_ms: 4999 });
    assert_eq!(a, StopAction::Sleep(100));
    let (s, _) = step(s, StopEvent::Slept);
    let (s, a) = step(s, StopEvent::Polled { poll: ExitPoll::Running, elapsed_ms: 5000 });
    assert_eq!(a, StopAction::Kill);
    let (s, a) = step(s, StopEvent::Killed(true));
    assert_eq!(a, StopAction::Reap);
    let (_, a) = step(s, StopEvent::Reaped);
    assert_eq!(a, StopAction::Finish(true));
}

#[test]
fn no_console_means_kill() {
    let (s, _) = Stopper::begin(5000);
    let (s, a) = step(s, StopEvent::CtrlCSent(false));
    assert_eq!(a, StopAction::Kill);
    let (_, a) = step(s, StopEvent::Killed(false));
    assert_eq!(a, StopAction::Finish(false));
}

#[test]
fn poll_failure_means_kill() {
    let (s, _) = Stopper::begin(0);
    let (s, _) = step(s, StopEvent::CtrlCSent(true));
    let (_, a) = step(s, StopEvent::Polled { poll: ExitPoll::PollFailed, elapsed_ms: 0 });
    assert_eq!(a, StopAction::Kill);
}

#[test]
fn zero_timeout_kills_at_first_poll() {
    let (s, _) = Stopper::begin(0);
    let (s, _) = step(s, StopEvent::CtrlCSent(true));
    let (_, a) = step(s, StopEvent::Polled { poll: ExitPoll::Running, elapsed_ms: 0 });
    assert_eq!(a, StopAction::Kill);
}
