//! Shutting the wrapped program down: first a Ctrl+C, then waiting up to the stop
//! timeout for it to exit, and a forced kill when it does not.
//!
//! Like the supervisor, this is a state machine driven by the caller, who sends
//! the Ctrl+C, polls the process, sleeps and kills as [`Stopper::next`] says.
use vstd::prelude::*;

verus! {

/// Pause between two polls while waiting for the program to exit.
pub const EXIT_POLL_INTERVAL_MS: u64 = 100;

/// Where the shutdown stands.
#[derive(Clone, Copy, Debug, PartialEq, Eq, Structural)]
pub enum StopPhase {
    SendingCtrlC,
    Polling,
    Sleeping,
    Killing,
    Reaping,
    Done,
}

/// What a poll of the exiting program found.
#[derive(Clone, Copy, Debug, PartialEq, Eq, Structural)]
pub enum ExitPoll {
    Exited,
    Running,
    PollFailed,
}

/// What the last action produced.
#[derive(Clone, Copy, Debug, PartialEq, Eq, Structural)]
pub enum StopEvent {
    /// The Ctrl+C was delivered (`true`) or could not be.
    CtrlCSent(bool),
    /// A poll, made `elapsed_ms` milliseconds after the Ctrl+C was delivered.
    Polled { poll: ExitPoll, elapsed_ms: u64 },
    Slept,
    /// The forced kill succeeded or failed.
    Killed(bool),
    /// The killed program was waited for (whatever the outcome).
    Reaped,
}

/// What to do next.
#[derive(Clone, Copy, Debug, PartialEq, Eq, Structural)]
pub enum StopAction {
    SendCtrlC,
    PollExit,
    Sleep(u64),
    Kill,
    Reap,
    /// Shutdown is over: `true` on success, `false` when the kill failed.
    Finish(bool),
}

/// The shutdown's state: its phase and the time the program has to exit by itself.
#[derive(Clone, Copy, Debug, PartialEq, Eq, Structural)]
pub struct Stopper {
    pub phase: StopPhase,
    pub timeout_ms: u32,
}

/// Whether `event` can follow the action asked for in `s`.
pub open spec fn stopper_accepts(s: Stopper, event: StopEvent) -> bool {
    match s.phase {
        StopPhase::SendingCtrlC => event is CtrlCSent,
        StopPhase::Polling => event is Polled,
        StopPhase::Sleeping => event is Slept,
        StopPhase::Killing => event is Killed,
        StopPhase::Reaping => event is Reaped,
        StopPhase::Done => false,
    }
}

pub open spec fn stop_in(s: Stopper, phase: StopPhase) -> Stopper {
    Stopper { phase, ..s }
}

/// The transition table of the shutdown.
pub open spec fn stopper_next(s: Stopper, event: StopEvent) -> (Stopper, StopAction) {
    match event {
        StopEvent::CtrlCSent(sent) => if sent {
            (stop_in(s, StopPhase::Polling), StopAction::PollExit)
        } else {
            (stop_in(s, StopPhase::Killing), StopAction::Kill)
        },
        StopEvent::Polled { poll, elapsed_ms } => match poll {
            ExitPoll::Exited => (stop_in(s, StopPhase::Done), StopAction::Finish(true)),
            ExitPoll::Running => if elapsed_ms >= s.timeout_ms {
                (stop_in(s, StopPhase::Killing), StopAction::Kill)
            } else {
                (stop_in(s, StopPhase::Sleeping), StopAction::Sleep(EXIT_POLL_INTERVAL_MS))
            },
            ExitPoll::PollFailed => (stop_in(s, StopPhase::Killing), StopAction::Kill),
        },
        StopEvent::Slept => (stop_in(s, StopPhase::Polling), StopAction::PollExit),
        StopEvent::Killed(ok) => if ok {
            (stop_in(s, StopPhase::Reaping), StopAction::Reap)
        } else {
            (stop_in(s, StopPhase::Done), StopAction::Finish(false))
        },
        StopEvent::Reaped => (stop_in(s, StopPhase::Done), StopAction::Finish(true)),
    }
}

impl Stopper {
    /// A shutdown that gives the program `timeout_ms` milliseconds to exit after the
    /// Ctrl+C; its first action is sending the Ctrl+C.
    pub fn begin(timeout_ms: u32) -> (res: (Stopper, StopAction))
        ensures
            res.0 == (Stopper { phase: StopPhase::SendingCtrlC, timeout_ms }),
            res.1 == StopAction::SendCtrlC,
    {
        (Stopper { phase: StopPhase::SendingCtrlC, timeout_ms }, StopAction::SendCtrlC)
    }

    /// Whether `event` can follow the last action; [`Stopper::next`] needs it.
    pub fn accepts(&self, event: &StopEvent) -> (res: bool)
        ensures
            res == stopper_accepts(*self, *event),
    {
        match self.phase {
            StopPhase::SendingCtrlC => matches!(event, StopEvent::CtrlCSent(_)),
            StopPhase::Polling => matches!(event, StopEvent::Polled { .. }),
            StopPhase::Sleeping => matches!(event, StopEvent::Slept),
            StopPhase::Killing => matches!(event, StopEvent::Killed(_)),
            StopPhase::Reaping => matches!(event, StopEvent::Reaped),
            StopPhase::Done => false,
        }
    }

    /// Takes the outcome of the last action and returns the new state with the
    /// next action.
    pub fn next(self, event: StopEvent) -> (res: (Stopper, StopAction))
        requires
            stopper_accepts(self, event),
        ensures
            res == stopper_next(self, event),
    {
        match event {
            StopEvent::CtrlCSent(sent) => if sent {
                (Stopper { phase: StopPhase::Polling, ..self }, StopAction::PollExit)
            } else {
                (Stopper { phase: StopPhase::Killing, ..self }, StopAction::Kill)
            },
            StopEvent::Polled { poll, elapsed_ms } => match poll {
                ExitPoll::Exited => (Stopper { phase: StopPhase::Done, ..self }, StopAction::Finish(true)),
                ExitPoll::Running => if elapsed_ms >= self.timeout_ms as u64 {
                    (Stopper { phase: StopPhase::Killing, ..self }, StopAction::Kill)
                } else {
                    (Stopper { phase: StopPhase::Sleeping, ..self }, StopAction::Sleep(EXIT_POLL_INTERVAL_MS))
                },
                ExitPoll::PollFailed => (Stopper { phase: StopPhase::Killing, ..self }, StopAction::Kill),
            },
            StopEvent::Slept => (Stopper { phase: StopPhase::Polling, ..self }, StopAction::PollExit),
            StopEvent::Killed(ok) => if ok {
                (Stopper { phase: StopPhase::Reaping, ..self }, StopAction::Reap)
            } else {
                (Stopper { phase: StopPhase::Done, ..self }, StopAction::Finish(false))
            },
            StopEvent::Reaped => (Stopper { phase: StopPhase::Done, ..self }, StopAction::Finish(true)),
        }
    }
}

/// A program that exits after the Ctrl+C, within the timeout, is never killed: the
/// shutdown ends successfully.
pub proof fn law_graceful_exit_is_not_killed(s: Stopper, elapsed_ms: u64)
    requires
        s.phase == StopPhase::Polling,
    ensures
        stopper_next(s, StopEvent::Polled { poll: ExitPoll::Exited, elapsed_ms }).1 == StopAction::Finish(true),
{
}

/// A program that is still running once the timeout has passed, or that cannot be
/// polled, or that could not be sent a Ctrl+C, is killed.
pub proof fn law_force_kill_when_graceful_fails(s: Stopper, elapsed_ms: u64)
    ensures
        elapsed_ms >= s.timeout_ms ==> stopper_next(s, StopEvent::Polled { poll: ExitPoll::Running, elapsed_ms }).1
            == StopAction::Kill,
        stopper_next(s, StopEvent::Polled { poll: ExitPoll::PollFailed, elapsed_ms }).1 == StopAction::Kill,
        stopper_next(s, StopEvent::CtrlCSent(false)).1 == StopAction::Kill,
{
}

/// Before the timeout, a running program is polled again after a short sleep, not killed.
pub proof fn law_waits_before_timeout(s: Stopper, elapsed_ms: u64)
    requires
        elapsed_ms < s.timeout_ms,
    ensures
        stopper_next(s, StopEvent::Polled { poll: ExitPoll::Running, elapsed_ms }).1 == StopAction::Sleep(
            EXIT_POLL_INTERVAL_MS,
        ),
        stopper_next(stopper_next(s, StopEvent::Polled { poll: ExitPoll::Running, elapsed_ms }).0, StopEvent::Slept).1
            == StopAction::PollExit,
{
}

/// After a delivered Ctrl+C the program is polled; a successful kill is followed by
/// waiting for the program, and after that the shutdown ends successfully.
pub proof fn law_stop_sequence(s: Stopper)
    ensures
        stopper_next(s, StopEvent::CtrlCSent(true)) == (stop_in(s, StopPhase::Polling), StopAction::PollExit),
        stopper_next(s, StopEvent::Killed(true)) == (stop_in(s, StopPhase::Reaping), StopAction::Reap),
        stopper_next(s, StopEvent::Reaped) == (stop_in(s, StopPhase::Done), StopAction::Finish(true)),
        stopper_next(s, StopEvent::Killed(false)) == (stop_in(s, StopPhase::Done), StopAction::Finish(false)),
        forall|e: StopEvent| stopper_next(s, e).0.timeout_ms == s.timeout_ms,
{
}

/// The shutdown fails only when the forced kill fails.
pub proof fn law_fails_only_when_kill_fails(s: Stopper, event: StopEvent)
    requires
        stopper_accepts(s, event),
        stopper_next(s, event).1 == StopAction::Finish(false),
    ensures
        event == StopEvent::Killed(false),
{
}

} // verus!
