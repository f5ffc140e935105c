//! The supervisor that runs while the program is a service: it reports the
//! service's status, starts the wrapped program, restarts it with backoff when it
//! exits, and shuts it down when a stop is requested.
//!
//! The supervisor is a state machine: each call of [`Monitor::next`] takes what the
//! last action produced and says what to do next. The caller performs the actions
//! (status reports, waits, spawning, polling).
use vstd::prelude::*;
use crate::backoff::{restart_delay, restart_delay_ms};

verus! {

/// How long the supervisor waits for a stop request between two polls of the program.
pub const SHUTDOWN_POLL_MS: u64 = 500;

/// Wait hint reported while the service starts and while it stops.
pub const PENDING_WAIT_HINT_MS: u64 = 10_000;

/// A state that the supervisor reports to the service control manager.
#[derive(Clone, Copy, Debug, PartialEq, Eq, Structural)]
pub enum ReportedState {
    StartPending,
    Running,
    StopPending,
    Stopped,
}

/// One status report: the state, whether stop and shutdown requests are accepted,
/// the wait hint, and the Win32 exit code (always 0, success).
#[derive(Clone, Copy, Debug, PartialEq, Eq, Structural)]
pub struct StatusReport {
    pub state: ReportedState,
    pub accepts_stop: bool,
    pub wait_hint_ms: u64,
    pub exit_code: u32,
}

/// Where the supervisor stands.
#[derive(Clone, Copy, Debug, PartialEq, Eq, Structural)]
pub enum MonitorPhase {
    ReportingStart,
    LoadingConfig,
    Spawning,
    ReportingRunning,
    AwaitingStop,
    PollingChild,
    RestartWait,
    Respawning,
    ReportingStopPending,
    Terminating,
    ReportingStopped,
    Finished,
    Failed,
}

/// Why the supervisor gave up.
#[derive(Clone, Copy, Debug, PartialEq, Eq, Structural)]
pub enum MonitorError {
    /// A status report was refused.
    StatusReport,
    /// The configuration could not be read.
    Configuration,
    /// The program could not be started the first time.
    Spawn,
}

/// What a poll of the wrapped program found.
#[derive(Clone, Copy, Debug, PartialEq, Eq, Structural)]
pub enum ChildPoll {
    Exited,
    StillRunning,
    PollFailed,
}

/// What the last action produced.
#[derive(Clone, Copy, Debug, PartialEq, Eq, Structural)]
pub enum MonitorEvent {
    /// A status report was made (`true`) or refused (`false`).
    StatusReported(bool),
    /// The configuration was read: its throttle and stop timeout.
    ConfigLoaded { throttle_ms: u32, stop_timeout_ms: u32 },
    /// The configuration could not be read.
    ConfigFailed,
    /// The first start of the program succeeded or failed.
    Spawned(bool),
    /// A wait for a stop request ended: `true` when a stop request arrived.
    StopWaitEnded(bool),
    /// The program was polled.
    ChildPolled(ChildPoll),
    /// A restart of the program succeeded or failed.
    Respawned(bool),
    /// The program was shut down (whatever the outcome).
    Terminated,
}

/// What to do next.
#[derive(Clone, Copy, Debug, PartialEq, Eq, Structural)]
pub enum MonitorAction {
    ReportStatus(StatusReport),
    LoadConfig,
    SpawnChild,
    /// Wait this many milliseconds for a stop request.
    WaitForStop(u64),
    PollChild,
    RespawnChild,
    /// Shut the program down, allowing it this many milliseconds to exit by itself.
    TerminateChild(u32),
    /// Leave the service main function successfully.
    Finish,
    /// Leave the service main function with this error.
    Abort(MonitorError),
}

/// The supervisor's state: its phase, the restart attempts since the program last
/// ran steadily, and the two settings it took from the configuration.
#[derive(Clone, Copy, Debug, PartialEq, Eq, Structural)]
pub struct Monitor {
    pub phase: MonitorPhase,
    pub throttle_count: u32,
    pub throttle_ms: u32,
    pub stop_timeout_ms: u32,
}

pub open spec fn start_pending_report() -> StatusReport {
    StatusReport { state: ReportedState::StartPending, accepts_stop: false, wait_hint_ms: PENDING_WAIT_HINT_MS, exit_code: 0 }
}

pub open spec fn running_report() -> StatusReport {
    StatusReport { state: ReportedState::Running, accepts_stop: true, wait_hint_ms: 0, exit_code: 0 }
}

pub open spec fn stop_pending_report() -> StatusReport {
    StatusReport { state: ReportedState::StopPending, accepts_stop: false, wait_hint_ms: PENDING_WAIT_HINT_MS, exit_code: 0 }
}

pub open spec fn stopped_report() -> StatusReport {
    StatusReport { state: ReportedState::Stopped, accepts_stop: false, wait_hint_ms: 0, exit_code: 0 }
}

/// The state in which the supervisor begins, and its first action.
pub open spec fn monitor_init() -> (Monitor, MonitorAction) {
    (
        Monitor { phase: MonitorPhase::ReportingStart, throttle_count: 0, throttle_ms: 0, stop_timeout_ms: 0 },
        MonitorAction::ReportStatus(start_pending_report()),
    )
}

/// Whether `event` is one that the action last asked for in `m` can produce.
pub open spec fn monitor_accepts(m: Monitor, event: MonitorEvent) -> bool {
    match m.phase {
        MonitorPhase::ReportingStart | MonitorPhase::ReportingRunning
        | MonitorPhase::ReportingStopPending | MonitorPhase::ReportingStopped => event is StatusReported,
        MonitorPhase::LoadingConfig => event is ConfigLoaded || event is ConfigFailed,
        MonitorPhase::Spawning => event is Spawned,
        MonitorPhase::AwaitingStop | MonitorPhase::RestartWait => event is StopWaitEnded,
        MonitorPhase::PollingChild => event is ChildPolled,
        MonitorPhase::Respawning => event is Respawned && m.throttle_count < u32::MAX,
        MonitorPhase::Terminating => event is Terminated,
        MonitorPhase::Finished | MonitorPhase::Failed => false,
    }
}

/// Moves to `phase`, keeping the counter and settings.
pub open spec fn goto(m: Monitor, phase: MonitorPhase) -> Monitor {
    Monitor { phase, ..m }
}

/// Stops supervising because of `err`.
pub open spec fn fail_with(m: Monitor, err: MonitorError) -> (Monitor, MonitorAction) {
    (goto(m, MonitorPhase::Failed), MonitorAction::Abort(err))
}

/// The transition table of the supervisor.
pub open spec fn monitor_next(m: Monitor, event: MonitorEvent) -> (Monitor, MonitorAction) {
    match (m.phase, event) {
        (MonitorPhase::ReportingStart, MonitorEvent::StatusReported(ok)) => if ok {
            (goto(m, MonitorPhase::LoadingConfig), MonitorAction::LoadConfig)
        } else {
            fail_with(m, MonitorError::StatusReport)
        },
        (MonitorPhase::LoadingConfig, MonitorEvent::ConfigLoaded { throttle_ms, stop_timeout_ms }) => (
            Monitor { phase: MonitorPhase::Spawning, throttle_count: m.throttle_count, throttle_ms, stop_timeout_ms },
            MonitorAction::SpawnChild,
        ),
        (MonitorPhase::LoadingConfig, MonitorEvent::ConfigFailed) => fail_with(m, MonitorError::Configuration),
        (MonitorPhase::Spawning, MonitorEvent::Spawned(ok)) => if ok {
            (goto(m, MonitorPhase::ReportingRunning), MonitorAction::ReportStatus(running_report()))
        } else {
            fail_with(m, MonitorError::Spawn)
        },
        (MonitorPhase::ReportingRunning, MonitorEvent::StatusReported(ok)) => if ok {
            (
                Monitor { phase: MonitorPhase::AwaitingStop, throttle_count: 0, ..m },
                MonitorAction::WaitForStop(SHUTDOWN_POLL_MS),
            )
        } else {
            fail_with(m, MonitorError::StatusReport)
        },
        (MonitorPhase::AwaitingStop, MonitorEvent::StopWaitEnded(stop)) => if stop {
            (goto(m, MonitorPhase::ReportingStopPending), MonitorAction::ReportStatus(stop_pending_report()))
        } else {
            (goto(m, MonitorPhase::PollingChild), MonitorAction::PollChild)
        },
        (MonitorPhase::PollingChild, MonitorEvent::ChildPolled(poll)) => match poll {
            ChildPoll::Exited => (
                goto(m, MonitorPhase::RestartWait),
                MonitorAction::WaitForStop(restart_delay(m.throttle_ms, m.throttle_count) as u64),
            ),
            ChildPoll::StillRunning => (
                Monitor { phase: MonitorPhase::AwaitingStop, throttle_count: 0, ..m },
                MonitorAction::WaitForStop(SHUTDOWN_POLL_MS),
            ),
            ChildPoll::PollFailed => (goto(m, MonitorPhase::AwaitingStop), MonitorAction::WaitForStop(SHUTDOWN_POLL_MS)),
        },
        (MonitorPhase::RestartWait, MonitorEvent::StopWaitEnded(stop)) => if stop {
            (goto(m, MonitorPhase::ReportingStopPending), MonitorAction::ReportStatus(stop_pending_report()))
        } else {
            (goto(m, MonitorPhase::Respawning), MonitorAction::RespawnChild)
        },
        (MonitorPhase::Respawning, MonitorEvent::Respawned(_)) => (
            Monitor { phase: MonitorPhase::AwaitingStop, throttle_count: (m.throttle_count + 1) as u32, ..m },
            MonitorAction::WaitForStop(SHUTDOWN_POLL_MS),
        ),
        (MonitorPhase::ReportingStopPending, MonitorEvent::StatusReported(ok)) => if ok {
            (goto(m, MonitorPhase::Terminating), MonitorAction::TerminateChild(m.stop_timeout_ms))
        } else {
            fail_with(m, MonitorError::StatusReport)
        },
        (MonitorPhase::Terminating, MonitorEvent::Terminated) => (
            goto(m, MonitorPhase::ReportingStopped),
            MonitorAction::ReportStatus(stopped_report()),
        ),
        (MonitorPhase::ReportingStopped, MonitorEvent::StatusReported(ok)) => if ok {
            (goto(m, MonitorPhase::Finished), MonitorAction::Finish)
        } else {
            fail_with(m, MonitorError::StatusReport)
        },
        _ => (m, MonitorAction::Abort(MonitorError::StatusReport)),
    }
}

/// The phase in which the supervisor waits for the outcome of `action`.
pub open spec fn phase_awaiting(action: MonitorAction, phase: MonitorPhase) -> bool {
    match action {
        MonitorAction::ReportStatus(r) => match r.state {
            ReportedState::StartPending => phase == MonitorPhase::ReportingStart,
            ReportedState::Running => phase == MonitorPhase::ReportingRunning,
            ReportedState::StopPending => phase == MonitorPhase::ReportingStopPending,
            ReportedState::Stopped => phase == MonitorPhase::ReportingStopped,
        },
        MonitorAction::LoadConfig => phase == MonitorPhase::LoadingConfig,
        MonitorAction::SpawnChild => phase == MonitorPhase::Spawning,
        MonitorAction::WaitForStop(_) => phase == MonitorPhase::AwaitingStop || phase == MonitorPhase::RestartWait,
        MonitorAction::PollChild => phase == MonitorPhase::PollingChild,
        MonitorAction::RespawnChild => phase == MonitorPhase::Respawning,
        MonitorAction::TerminateChild(_) => phase == MonitorPhase::Terminating,
        MonitorAction::Finish => phase == MonitorPhase::Finished,
        MonitorAction::Abort(_) => phase == MonitorPhase::Failed,
    }
}

/// Every action the supervisor asks for leaves it in the phase that waits for that
/// action's outcome, beginning with the first one; once it finishes or aborts it
/// accepts nothing more.
pub proof fn law_actions_match_phases(m: Monitor, event: MonitorEvent)
    requires
        monitor_accepts(m, event),
    ensures
        phase_awaiting(monitor_init().1, monitor_init().0.phase),
        phase_awaiting(monitor_next(m, event).1, monitor_next(m, event).0.phase),
        monitor_next(m, event).0.phase == MonitorPhase::Finished ==> forall|later: MonitorEvent|
            !monitor_accepts(monitor_next(m, event).0, later),
        monitor_next(m, event).0.phase == MonitorPhase::Failed ==> forall|later: MonitorEvent|
            !monitor_accepts(monitor_next(m, event).0, later),
{
}

/// A poll that finds the program running resets the restart counter, so the next
/// crash waits only the base throttle again.
pub proof fn law_running_program_resets_backoff(m: Monitor)
    requires
        m.phase == MonitorPhase::PollingChild,
    ensures
        monitor_next(m, MonitorEvent::ChildPolled(ChildPoll::StillRunning)).0.throttle_count == 0,
        monitor_next(m, MonitorEvent::ChildPolled(ChildPoll::StillRunning)).1 == MonitorAction::WaitForStop(SHUTDOWN_POLL_MS),
{
}

/// When the program has exited, the supervisor waits the backoff delay for the
/// current number of attempts (one second to five minutes), listening for a stop
/// request meanwhile, and then restarts it.
pub proof fn law_crash_waits_backoff(m: Monitor)
    requires
        m.phase == MonitorPhase::PollingChild,
    ensures
        ({
            let (m2, a) = monitor_next(m, MonitorEvent::ChildPolled(ChildPoll::Exited));
            &&& m2.phase == MonitorPhase::RestartWait
            &&& m2.throttle_count == m.throttle_count
            &&& a == MonitorAction::WaitForStop(restart_delay(m.throttle_ms, m.throttle_count) as u64)
            &&& 1000 <= restart_delay(m.throttle_ms, m.throttle_count) <= 300_000
            &&& monitor_next(m2, MonitorEvent::StopWaitEnded(false)).1 == MonitorAction::RespawnChild
        }),
{
    crate::backoff::law_restart_delay_bounded(m.throttle_ms, m.throttle_count);
}

/// Every restart attempt counts towards the backoff, whether or not the program
/// could be started again.
pub proof fn law_every_restart_attempt_counts(m: Monitor, started: bool)
    requires
        monitor_accepts(m, MonitorEvent::Respawned(started)),
    ensures
        monitor_next(m, MonitorEvent::Respawned(started)).0.throttle_count == m.throttle_count + 1,
        monitor_next(m, MonitorEvent::Respawned(started)).0.phase == MonitorPhase::AwaitingStop,
{
}

/// A stop request, whether it comes between polls or during a restart wait, leads to
/// the stop-pending report and then to shutting the program down with the
/// configured stop timeout.
pub proof fn law_stop_request_shuts_down(m: Monitor)
    requires
        m.phase == MonitorPhase::AwaitingStop || m.phase == MonitorPhase::RestartWait,
    ensures
        ({
            let (m2, a2) = monitor_next(m, MonitorEvent::StopWaitEnded(true));
            let (m3, a3) = monitor_next(m2, MonitorEvent::StatusReported(true));
            &&& a2 == MonitorAction::ReportStatus(stop_pending_report())
            &&& a3 == MonitorAction::TerminateChild(m.stop_timeout_ms)
            &&& m3.phase == MonitorPhase::Terminating
        }),
{
}

/// The throttle and stop timeout change only when the configuration is loaded.
pub proof fn law_settings_fixed_after_load(m: Monitor, event: MonitorEvent)
    requires
        monitor_accepts(m, event),
        m.phase != MonitorPhase::LoadingConfig,
    ensures
        monitor_next(m, event).0.throttle_ms == m.throttle_ms,
        monitor_next(m, event).0.stop_timeout_ms == m.stop_timeout_ms,
{
}

/// The supervisor ends successfully only after it reported the service stopped.
pub proof fn law_finish_only_after_stopped(m: Monitor, event: MonitorEvent)
    requires
        monitor_accepts(m, event),
        monitor_next(m, event).1 == MonitorAction::Finish,
    ensures
        m.phase == MonitorPhase::ReportingStopped,
        event == MonitorEvent::StatusReported(true),
{
}

// ---------------------------------------------------------------------------
// Whole runs

/// The supervisor after the events `events`, each answering the action before it,
/// with every action it asked for: the first action, then one per event.
pub open spec fn monitor_run(events: Seq<MonitorEvent>) -> (Monitor, Seq<MonitorAction>)
    decreases events.len(),
{
    if events.len() == 0 {
        (monitor_init().0, seq![monitor_init().1])
    } else {
        let (m, actions) = monitor_run(events.drop_last());
        let (m2, a) = monitor_next(m, events.last());
        (m2, actions.push(a))
    }
}

/// Whether each event in `events` is one the supervisor accepts at that point.
pub open spec fn run_accepted(events: Seq<MonitorEvent>) -> bool
    decreases events.len(),
{
    events.len() == 0 || (run_accepted(events.drop_last()) && monitor_accepts(
        monitor_run(events.drop_last()).0,
        events.last(),
    ))
}

/// The states reported by the actions `actions`, in order.
pub open spec fn reported_states(actions: Seq<MonitorAction>) -> Seq<ReportedState>
    decreases actions.len(),
{
    if actions.len() == 0 {
        seq![]
    } else {
        let before = reported_states(actions.drop_last());
        match actions.last() {
            MonitorAction::ReportStatus(r) => before.push(r.state),
            _ => before,
        }
    }
}

/// The order in which a service reports its states.
pub open spec fn status_sequence() -> Seq<ReportedState> {
    seq![ReportedState::StartPending, ReportedState::Running, ReportedState::StopPending, ReportedState::Stopped]
}

/// How many states have been reported when the supervisor is in `phase` (a failed
/// supervisor may have given up after any of them).
pub open spec fn reports_made(phase: MonitorPhase) -> nat {
    match phase {
        MonitorPhase::ReportingStart | MonitorPhase::LoadingConfig | MonitorPhase::Spawning => 1,
        MonitorPhase::ReportingRunning | MonitorPhase::AwaitingStop | MonitorPhase::PollingChild
        | MonitorPhase::RestartWait | MonitorPhase::Respawning => 2,
        MonitorPhase::ReportingStopPending | MonitorPhase::Terminating => 3,
        MonitorPhase::ReportingStopped | MonitorPhase::Finished => 4,
        MonitorPhase::Failed => 0,
    }
}

/// Whether `a` reports the service running.
pub open spec fn reports_running(a: MonitorAction) -> bool {
    a matches MonitorAction::ReportStatus(r) && r.state == ReportedState::Running
}

/// A status report as the service makes it: stop and shutdown requests are
/// accepted exactly while running, the exit code is success, and the wait hint is
/// ten seconds while starting or stopping and zero otherwise.
pub open spec fn well_formed_report(a: MonitorAction) -> bool {
    a matches MonitorAction::ReportStatus(r) ==> {
        &&& r.accepts_stop == (r.state == ReportedState::Running)
        &&& r.exit_code == 0
        &&& r.wait_hint_ms == if r.state == ReportedState::StartPending || r.state == ReportedState::StopPending {
            PENDING_WAIT_HINT_MS
        } else {
            0u64
        }
    }
}

proof fn lemma_run_invariant(events: Seq<MonitorEvent>)
    requires
        run_accepted(events),
    ensures
        ({
            let (m, actions) = monitor_run(events);
            let states = reported_states(actions);
            &&& actions.len() == events.len() + 1
            &&& phase_awaiting(actions.last(), m.phase)
            &&& states.len() <= 4
            &&& states == status_sequence().take(states.len() as int)
            &&& m.phase != MonitorPhase::Failed ==> states.len() == reports_made(m.phase)
            &&& forall|i: int| 0 <= i < actions.len() ==> well_formed_report(#[trigger] actions[i])
            &&& forall|i: int|
                1 <= i < actions.len() && reports_running(#[trigger] actions[i]) ==> events[i - 1] == MonitorEvent::Spawned(true)
        }),
    decreases events.len(),
{
    if events.len() == 0 {
        let actions = monitor_run(events).1;
        assert(reported_states(actions.drop_last()) == Seq::<ReportedState>::empty());
        assert(reported_states(actions) =~= status_sequence().take(1));
    } else {
        let prior = events.drop_last();
        lemma_run_invariant(prior);
        let (m, actions) = monitor_run(prior);
        let e = events.last();
        let (m2, a) = monitor_next(m, e);
        let all = actions.push(a);
        assert(all.drop_last() =~= actions);
        let states = reported_states(actions);
        if m.phase == MonitorPhase::Failed {
            assert(false);
        }
        match a {
            MonitorAction::ReportStatus(r) => {
                assert(reported_states(all) == states.push(r.state));
                assert(states.push(r.state) =~= status_sequence().take(states.len() + 1 as int));
            },
            _ => {
                assert(reported_states(all) == states);
            },
        }
        assert forall|i: int| 0 <= i < all.len() implies well_formed_report(#[trigger] all[i]) by {
            if i < actions.len() {
                assert(all[i] == actions[i]);
            }
        }
        assert forall|i: int|
            1 <= i < all.len() && reports_running(#[trigger] all[i]) implies events[i - 1] == MonitorEvent::Spawned(true) by {
            if i < actions.len() {
                assert(all[i] == actions[i]);
                assert(events[i - 1] == prior[i - 1]);
            }
        }
    }
}

/// Over a whole run, the states the service reports follow the order StartPending,
/// Running, StopPending, Stopped, each at most once (the run may end early);
/// Running is reported only right after the program was started successfully;
/// stop and shutdown requests are accepted exactly in the Running report; every
/// report gives the exit code 0; and the pending reports give a ten-second wait hint.
pub proof fn law_status_reports_in_order(events: Seq<MonitorEvent>)
    requires
        run_accepted(events),
    ensures
        ({
            let actions = monitor_run(events).1;
            let states = reported_states(actions);
            &&& states.len() <= 4
            &&& states == status_sequence().take(states.len() as int)
            &&& forall|i: int| 0 <= i < actions.len() ==> well_formed_report(#[trigger] actions[i])
            &&& forall|i: int|
                1 <= i < actions.len() && reports_running(#[trigger] actions[i]) ==> events[i - 1] == MonitorEvent::Spawned(true)
        }),
{
    lemma_run_invariant(events);
}

/// Loading the configuration keeps exactly the throttle and the stop timeout it
/// holds, leaves the restart counter alone, and goes on to start the program.
pub proof fn law_config_loaded_settings(m: Monitor, throttle_ms: u32, stop_timeout_ms: u32)
    requires
        m.phase == MonitorPhase::LoadingConfig,
    ensures
        ({
            let (m2, a) = monitor_next(m, MonitorEvent::ConfigLoaded { throttle_ms, stop_timeout_ms });
            &&& m2.throttle_ms == throttle_ms
            &&& m2.stop_timeout_ms == stop_timeout_ms
            &&& m2.throttle_count == m.throttle_count
            &&& m2.phase == MonitorPhase::Spawning
            &&& a == MonitorAction::SpawnChild
        }),
{
}

/// In a run that loaded the configuration `{ throttle_ms: t, stop_timeout_ms: s }`,
/// the supervisor keeps `t` and `s` from then on: whenever it shuts the program
/// down it allows exactly `s` milliseconds, and whenever it waits before a restart
/// it waits the backoff delay of `t` for the attempts made so far.
pub proof fn law_loaded_settings_govern_run(events: Seq<MonitorEvent>, j: int, t: u32, s: u32)
    requires
        run_accepted(events),
        0 <= j < events.len(),
        events[j] == (MonitorEvent::ConfigLoaded { throttle_ms: t, stop_timeout_ms: s }),
    ensures
        ({
            let (m, actions) = monitor_run(events);
            &&& m.throttle_ms == t
            &&& m.stop_timeout_ms == s
            &&& m.phase != MonitorPhase::ReportingStart && m.phase != MonitorPhase::LoadingConfig
            &&& actions.last() matches MonitorAction::TerminateChild(x) ==> x == s
            &&& m.phase == MonitorPhase::RestartWait ==> (actions.last() matches MonitorAction::WaitForStop(d) && d
                == restart_delay(t, m.throttle_count))
        }),
    decreases events.len(),
{
    let prior = events.drop_last();
    let (m0, actions0) = monitor_run(prior);
    let e = events.last();
    let (m1, a) = monitor_next(m0, e);
    assert(monitor_run(events) == (m1, actions0.push(a)));
    assert(actions0.push(a).last() == a);
    crate::backoff::law_restart_delay_bounded(m0.throttle_ms, m0.throttle_count);
    if j == events.len() - 1 {
        assert(e == events[j]);
        assert(m0.phase == MonitorPhase::LoadingConfig);
    } else {
        assert(prior[j] == events[j]);
        law_loaded_settings_govern_run(prior, j, t, s);
        assert(monitor_accepts(m0, e));
        law_settings_fixed_after_load(m0, e);
    }
}

/// The remaining single steps: a refused report, an unreadable configuration or a
/// program that cannot be started the first time ends the supervisor with that
/// error; a wait that ends without a stop request leads to a poll; a failed poll
/// changes nothing but waits again; and a successful first start is reported as
/// running.
pub proof fn law_step_outcomes(m: Monitor, event: MonitorEvent)
    requires
        monitor_accepts(m, event),
    ensures
        event == MonitorEvent::StatusReported(false) ==> monitor_next(m, event).1 == MonitorAction::Abort(
            MonitorError::StatusReport,
        ),
        event == MonitorEvent::ConfigFailed ==> monitor_next(m, event).1 == MonitorAction::Abort(
            MonitorError::Configuration,
        ),
        event == MonitorEvent::Spawned(false) ==> monitor_next(m, event).1 == MonitorAction::Abort(MonitorError::Spawn),
        event == MonitorEvent::Spawned(true) ==> monitor_next(m, event).1 == MonitorAction::ReportStatus(running_report()),
        (m.phase == MonitorPhase::AwaitingStop && event == MonitorEvent::StopWaitEnded(false)) ==> monitor_next(
            m,
            event,
        ) == (goto(m, MonitorPhase::PollingChild), MonitorAction::PollChild),
        event == MonitorEvent::ChildPolled(ChildPoll::PollFailed) ==> monitor_next(m, event) == (
            goto(m, MonitorPhase::AwaitingStop),
            MonitorAction::WaitForStop(SHUTDOWN_POLL_MS),
        ),
        (m.phase == MonitorPhase::ReportingStart && event == MonitorEvent::StatusReported(true)) ==> monitor_next(
            m,
            event,
        ).1 == MonitorAction::LoadConfig,
        (m.phase == MonitorPhase::ReportingRunning && event == MonitorEvent::StatusReported(true)) ==> monitor_next(
            m,
            event,
        ) == (
            Monitor { phase: MonitorPhase::AwaitingStop, throttle_count: 0, ..m },
            MonitorAction::WaitForStop(SHUTDOWN_POLL_MS),
        ),
        event == MonitorEvent::Terminated ==> monitor_next(m, event).1 == MonitorAction::ReportStatus(stopped_report()),
{
}

impl Monitor {
    /// The supervisor before anything happened, and its first action: report that
    /// the service is starting.
    pub fn start() -> (res: (Monitor, MonitorAction))
        ensures
            res == monitor_init(),
    {
        (
            Monitor { phase: MonitorPhase::ReportingStart, throttle_count: 0, throttle_ms: 0, stop_timeout_ms: 0 },
            MonitorAction::ReportStatus(StatusReport {
                state: ReportedState::StartPending,
                accepts_stop: false,
                wait_hint_ms: PENDING_WAIT_HINT_MS,
                exit_code: 0,
            }),
        )
    }

    /// Whether `event` can follow the last action; [`Monitor::next`] needs it.
    pub fn accepts(&self, event: &MonitorEvent) -> (res: bool)
        ensures
            res == monitor_accepts(*self, *event),
    {
        match self.phase {
            MonitorPhase::ReportingStart | MonitorPhase::ReportingRunning
            | MonitorPhase::ReportingStopPending | MonitorPhase::ReportingStopped => {
                matches!(event, MonitorEvent::StatusReported(_))
            },
            MonitorPhase::LoadingConfig => {
                matches!(event, MonitorEvent::ConfigLoaded { .. } | MonitorEvent::ConfigFailed)
            },
            MonitorPhase::Spawning => matches!(event, MonitorEvent::Spawned(_)),
            MonitorPhase::AwaitingStop | MonitorPhase::RestartWait => {
                matches!(event, MonitorEvent::StopWaitEnded(_))
            },
            MonitorPhase::PollingChild => matches!(event, MonitorEvent::ChildPolled(_)),
            MonitorPhase::Respawning => {
                matches!(event, MonitorEvent::Respawned(_)) && self.throttle_count < u32::MAX
            },
            MonitorPhase::Terminating => matches!(event, MonitorEvent::Terminated),
            MonitorPhase::Finished | MonitorPhase::Failed => false,
        }
    }

    /// Takes the outcome of the last action and returns the new state with the
    /// next action.
    pub fn next(self, event: MonitorEvent) -> (res: (Monitor, MonitorAction))
        requires
            monitor_accepts(self, event),
        ensures
            res == monitor_next(self, event),
    {
        let stop_pending = StatusReport {
            state: ReportedState::StopPending,
            accepts_stop: false,
            wait_hint_ms: PENDING_WAIT_HINT_MS,
            exit_code: 0,
        };
        match (self.phase, event) {
            (MonitorPhase::ReportingStart, MonitorEvent::StatusReported(ok)) => if ok {
                (Monitor { phase: MonitorPhase::LoadingConfig, ..self }, MonitorAction::LoadConfig)
            } else {
                (Monitor { phase: MonitorPhase::Failed, ..self }, MonitorAction::Abort(MonitorError::StatusReport))
            },
            (MonitorPhase::LoadingConfig, MonitorEvent::ConfigLoaded { throttle_ms, stop_timeout_ms }) => (
                Monitor {
                    phase: MonitorPhase::Spawning,
                    throttle_count: self.throttle_count,
                    throttle_ms,
                    stop_timeout_ms,
                },
                MonitorAction::SpawnChild,
            ),
            (MonitorPhase::LoadingConfig, MonitorEvent::ConfigFailed) => (
                Monitor { phase: MonitorPhase::Failed, ..self },
                MonitorAction::Abort(MonitorError::Configuration),
            ),
            (MonitorPhase::Spawning, MonitorEvent::Spawned(ok)) => if ok {
                (
                    Monitor { phase: MonitorPhase::ReportingRunning, ..self },
                    MonitorAction::ReportStatus(StatusReport {
                        state: ReportedState::Running,
                        accepts_stop: true,
                        wait_hint_ms: 0,
                        exit_code: 0,
                    }),
                )
            } else {
                (Monitor { phase: MonitorPhase::Failed, ..self }, MonitorAction::Abort(MonitorError::Spawn))
            },
            (MonitorPhase::ReportingRunning, MonitorEvent::StatusReported(ok)) => if ok {
                (
                    Monitor { phase: MonitorPhase::AwaitingStop, throttle_count: 0, ..self },
                    MonitorAction::WaitForStop(SHUTDOWN_POLL_MS),
                )
            } else {
                (Monitor { phase: MonitorPhase::Failed, ..self }, MonitorAction::Abort(MonitorError::StatusReport))
            },
            (MonitorPhase::AwaitingStop, MonitorEvent::StopWaitEnded(stop)) => if stop {
                (Monitor { phase: MonitorPhase::ReportingStopPending, ..self }, MonitorAction::ReportStatus(stop_pending))
            } else {
                (Monitor { phase: MonitorPhase::PollingChild, ..self }, MonitorAction::PollChild)
            },
            (MonitorPhase::PollingChild, MonitorEvent::ChildPolled(poll)) => match poll {
                ChildPoll::Exited => {
                    let delay = restart_delay_ms(self.throttle_ms, self.throttle_count);
                    (Monitor { phase: MonitorPhase::RestartWait, ..self }, MonitorAction::WaitForStop(delay))
                },
                ChildPoll::StillRunning => (
                    Monitor { phase: MonitorPhase::AwaitingStop, throttle_count: 0, ..self },
                    MonitorAction::WaitForStop(SHUTDOWN_POLL_MS),
                ),
                ChildPoll::PollFailed => (
                    Monitor { phase: MonitorPhase::AwaitingStop, ..self },
                    MonitorAction::WaitForStop(SHUTDOWN_POLL_MS),
                ),
            },
            (MonitorPhase::RestartWait, MonitorEvent::StopWaitEnded(stop)) => if stop {
                (Monitor { phase: MonitorPhase::ReportingStopPending, ..self }, MonitorAction::ReportStatus(stop_pending))
            } else {
                (Monitor { phase: MonitorPhase::Respawning, ..self }, MonitorAction::RespawnChild)
            },
            (MonitorPhase::Respawning, MonitorEvent::Respawned(_)) => (
                Monitor { phase: MonitorPhase::AwaitingStop, throttle_count: self.throttle_count + 1, ..self },
                MonitorAction::WaitForStop(SHUTDOWN_POLL_MS),
            ),
            (MonitorPhase::ReportingStopPending, MonitorEvent::StatusReported(ok)) => if ok {
                (Monitor { phase: MonitorPhase::Terminating, ..self }, MonitorAction::TerminateChild(self.stop_timeout_ms))
            } else {
                (Monitor { phase: MonitorPhase::Failed, ..self }, MonitorAction::Abort(MonitorError::StatusReport))
            },
            (MonitorPhase::Terminating, MonitorEvent::Terminated) => (
                Monitor { phase: MonitorPhase::ReportingStopped, ..self },
                MonitorAction::ReportStatus(StatusReport {
                    state: ReportedState::Stopped,
                    accepts_stop: false,
                    wait_hint_ms: 0,
                    exit_code: 0,
                }),
            ),
            (MonitorPhase::ReportingStopped, MonitorEvent::StatusReported(ok)) => if ok {
                (Monitor { phase: MonitorPhase::Finished, ..self }, MonitorAction::Finish)
            } else {
                (Monitor { phase: MonitorPhase::Failed, ..self }, MonitorAction::Abort(MonitorError::StatusReport))
            },
            _ => (self, MonitorAction::Abort(MonitorError::StatusReport)),
        }
    }
}

} // verus!

verus! {

/// A control request that the service control manager sends to the service.
#[derive(Clone, Copy, Debug, PartialEq, Eq, Structural)]
pub enum ControlRequest {
    Stop,
    Shutdown,
    Interrogate,
    /// Any other request (pause, continue, parameter change, ...).
    Other,
}

/// How the service answers a control request.
#[derive(Clone, Copy, Debug, PartialEq, Eq, Structural)]
pub enum ControlReply {
    NoError,
    NotImplemented,
}

/// The control handler's decision: whether to signal the supervisor to stop, and
/// the reply. Stop and shutdown signal and succeed; interrogate succeeds; anything
/// else is not implemented.
pub fn handle_control(request: ControlRequest) -> (res: (bool, ControlReply))
    ensures
        res.0 == (request == ControlRequest::Stop || request == ControlRequest::Shutdown),
        res.1 == (if request == ControlRequest::Other {
            ControlReply::NotImplemented
        } else {
            ControlReply::NoError
        }),
{
    match request {
        ControlRequest::Stop | ControlRequest::Shutdown => (true, ControlReply::NoError),
        ControlRequest::Interrogate => (false, ControlReply::NoError),
        ControlRequest::Other => (false, ControlReply::NotImplemented),
    }
}

} // verus!
