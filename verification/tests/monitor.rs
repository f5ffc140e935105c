use nssm_rs::monitor::{
    handle_control, ChildPoll, ControlReply, ControlRequest, Monitor, MonitorAction, MonitorError, MonitorEvent,
    MonitorPhase, ReportedState, StatusReport,
};

fn step(m: Monitor, e: MonitorEvent) -> (Monitor, MonitorAction) {
    assert!(m.accepts(&e));
    m.next(e)
}

fn running_monitor(throttle_ms: u32, stop_timeout_ms: u32) -> Monitor {
    let (m, _) = Monitor::start();
    let (m, _) = step(m, MonitorEvent::StatusReported(true));
    let (m, _) = step(m, MonitorEvent::ConfigLoaded { throttle_ms, stop_timeout_ms });
    let (m, _) = step(m, MonitorEvent::Spawned(true));
    let (m, a) = step(m, MonitorEvent::StatusReported(true));
    assert_eq!(a, MonitorAction::WaitForStop(500));
    m
}

#[test]
fn startup_reports_and_spawns() {
    let (m, a) = Monitor::start();
    assert_eq!(
        a,
        MonitorAction::ReportStatus(StatusReport {
            state: ReportedState::StartPending,
            accepts_stop: false,
            wait_hint_ms: 10_000,
            exit_code: 0,
        })
    );
    let (m, a) = step(m, MonitorEvent::StatusReported(true));
    assert_eq!(a, MonitorAction::LoadConfig);
    let (m, a) = step(m, MonitorEvent::ConfigLoaded { throttle_ms: 1500, stop_timeout_ms: 5000 });
    assert_eq!(a, MonitorAction::SpawnChild);
    assert_eq!(m.throttle_ms, 1500);
    assert_eq!(m.stop_timeout_ms, 5000);
    let (m, a) = step(m, MonitorEvent::Spawned(true));
    assert_eq!(
        a,
        MonitorAction::ReportStatus(StatusReport { state: ReportedState::Running, accepts_stop: true, wait_hint_ms: 0, exit_code: 0 })
    );
    let (m, a) = step(m, MonitorEvent::StatusReported(true));
    assert_eq!(a, MonitorAction::WaitForStop(500));
    assert_eq!(m.phase, MonitorPhase::AwaitingStop);
    assert_eq!(m.throttle_count, 0);
}

#[test]
fn startup_failures_abort() {
    let (m, _) = Monitor::start();
    let (m2, a) = step(m, MonitorEvent::StatusReported(false));
    assert_eq!(a, MonitorAction::Abort(MonitorError::StatusReport));
    assert_eq!(m2.phase, MonitorPhase::Failed);
    assert!(!m2.accepts(&MonitorEvent::StatusReported(true)));

    let (m, _) = step(m, MonitorEvent::StatusReported(true));
    let (_, a) = step(m, MonitorEvent::ConfigFailed);
    assert_eq!(a, MonitorAction::Abort(MonitorError::Configuration));

    let (m, _) = step(m, MonitorEvent::ConfigLoaded { throttle_ms: 1500, stop_timeout_ms: 5000 });
    let (_, a) = step(m, MonitorEvent::Spawned(false));
    assert_eq!(a, MonitorAction::Abort(MonitorError::Spawn));

    let (m, _) = step(m, MonitorEvent::Spawned(true));
    let (_, a) = step(m, MonitorEvent::StatusReported(false));
    assert_eq!(a, MonitorAction::Abort(MonitorError::StatusReport));
}

#[test]
fn crashes_back_off_and_running_resets() {
    let m = running_monitor(1500, 5000);
    let (m, a) = step(m, MonitorEvent::StopWaitEnded(false));
    assert_eq!(a, MonitorAction::PollChild);
    let (m, a) = step(m, MonitorEvent::ChildPolled(ChildPoll::Exited));
    assert_eq!(a, MonitorAction::WaitForStop(1500));
    let (m, a) = step(m, MonitorEvent::StopWaitEnded(false));
    assert_eq!(a, MonitorAction::RespawnChild);
    let (m, a) = step(m, MonitorEvent::Respawned(false));
    assert_eq!(a, MonitorAction::WaitForStop(500));
    assert_eq!(m.throttle_count, 1);
    let (m, _) = step(m, MonitorEvent::StopWaitEnded(false));
    let (m, a) = step(m, MonitorEvent::ChildPolled(ChildPoll::Exited));
    assert_eq!(a, MonitorAction::WaitForStop(3000));
    let (m, _) = step(m, MonitorEvent::StopWaitEnded(false));
    let (m, _) = step(m, MonitorEvent::Respawned(true));
    assert_eq!(m.throttle_count, 2);
    let (m, _) = step(m, MonitorEvent::StopWaitEnded(false));
    let (m, a) = step(m, MonitorEvent::ChildPolled(ChildPoll::PollFailed));
    assert_eq!(a, MonitorAction::WaitForStop(500));
    assert_eq!(m.throttle_count, 2);
    let (m, _) = step(m, MonitorEvent::StopWaitEnded(false));
    let (m, a) = step(m, MonitorEvent::ChildPolled(ChildPoll::StillRunning));
    assert_eq!(a, MonitorAction::WaitForStop(500));
    assert_eq!(m.throttle_count, 0);
    let (m, _) = step(m, MonitorEvent::StopWaitEnded(false));
    let (_, a) = step(m, MonitorEvent::ChildPolled(ChildPoll::Exited));
    assert_eq!(a, MonitorAction::WaitForStop(1500));
}

#[test]
fn backoff_is_capped_in_the_loop() {
    let mut m = running_monitor(1000, 5000);
    for _ in 0..20 {
        let (m1, _) = step(m, MonitorEvent::StopWaitEnded(false));
        let (m2, a) = step(m1, MonitorEvent::ChildPolled(ChildPoll::Exited));
        match a {
            MonitorAction::WaitForStop(d) => assert!(d >= 1000 && d <= 300_000),
            other => panic!("unexpected action {:?}", other),
        }
        let (m3, _) = step(m2, MonitorEvent::StopWaitEnded(false));
        let (m4, _) = step(m3, MonitorEvent::Respawned(false));
        m = m4;
    }
    assert_eq!(m.throttle_count, 20);
    let (m1, _) = step(m, MonitorEvent::StopWaitEnded(false));
    let (_, a) = step(m1, MonitorEvent::ChildPolled(ChildPoll::Exited));
    assert_eq!(a, MonitorAction::WaitForStop(300_000));
}

#[test]
fn stop_request_shuts_down() {
    let m = running_monitor(1500, 7000);
    let (m, a) = step(m, MonitorEvent::StopWaitEnded(true));
    assert_eq!(
        a,
        MonitorAction::ReportStatus(StatusReport {
            state: ReportedState::StopPending,
            accepts_stop: false,
            wait_hint_ms: 10_000,
            exit_code: 0,
        })
    );
    let (m, a) = step(m, MonitorEvent::StatusReported(true));
    assert_eq!(a, MonitorAction::TerminateChild(7000));
    let (m, a) = step(m, MonitorEvent::Terminated);
    assert_eq!(
        a,
        MonitorAction::ReportStatus(StatusReport { state: ReportedState::Stopped, accepts_stop: false, wait_hint_ms: 0, exit_code: 0 })
    );
    let (m, a) = step(m, MonitorEvent::StatusReported(true));
    assert_eq!(a, MonitorAction::Finish);
    assert_eq!(m.phase, MonitorPhase::Finished);
    assert!(!m.accepts(&MonitorEvent::Terminated));
}

#[test]
fn stop_request_during_restart_wait() {
    let m = running_monitor(1500, 5000);
    let (m, _) = step(m, MonitorEvent::StopWaitEnded(false));
    let (m, _) = step(m, MonitorEvent::ChildPolled(ChildPoll::Exited));
    assert_eq!(m.phase, MonitorPhase::RestartWait);
    let (m, a) = step(m, MonitorEvent::StopWaitEnded(true));
    assert!(matches!(a, MonitorAction::ReportStatus(StatusReport { state: ReportedState::StopPending, .. })));
    let (_, a) = step(m, MonitorEvent::StatusReported(false));
    assert_eq!(a, MonitorAction::Abort(MonitorError::StatusReport));
}

#[test]
fn events_must_match_the_action() {
    let (m, _) = Monitor::start();
    assert!(!m.accepts(&MonitorEvent::Terminated));
    assert!(!m.accepts(&MonitorEvent::ConfigFailed));
    let mut at_limit = running_monitor(1500, 5000);
    at_limit.phase = MonitorPhase::Respawning;
    at_limit.throttle_count = u32::MAX;
    assert!(!at_limit.accepts(&MonitorEvent::Respawned(true)));
    at_limit.throttle_count = u32::MAX - 1;
    assert!(at_limit.accepts(&MonitorEvent::Respawned(true)));
}

#[test]
fn control_requests() {
    assert_eq!(handle_control(ControlRequest::Stop), (true, ControlReply::NoError));
    assert_eq!(handle_control(ControlRequest::Shutdown), (true, ControlReply::NoError));
    assert_eq!(handle_control(ControlRequest::Interrogate), (false, ControlReply::NoError));
    assert_eq!(handle_control(ControlRequest::Other), (false, ControlReply::NotImplemented));
}

#[test]
fn reports_follow_service_order() {
    let script = [
        MonitorEvent::StatusReported(true),
        MonitorEvent::ConfigLoaded { throttle_ms: 1000, stop_timeout_ms: 100 },
        MonitorEvent::Spawned(true),
        MonitorEvent::StatusReported(true),
        MonitorEvent::StopWaitEnded(false),
        MonitorEvent::ChildPolled(ChildPoll::Exited),
        MonitorEvent::StopWaitEnded(false),
        MonitorEvent::Respawned(true),
        MonitorEvent::StopWaitEnded(true),
        MonitorEvent::StatusReported(true),
        MonitorEvent::Terminated,
        MonitorEvent::StatusReported(true),
    ];
    let (mut m, first) = Monitor::start();
    let mut actions = vec![first];
    for e in script {
        let (m2, a) = step(m, e);
        m = m2;
        actions.push(a);
    }
    let reports: Vec<StatusReport> = actions
        .iter()
        .filter_map(|a| match a {
            MonitorAction::ReportStatus(r) => Some(*r),
            _ => None,
        })
        .collect();
    let states: Vec<ReportedState> = reports.iter().map(|r| r.state).collect();
    assert_eq!(
        states,
        vec![ReportedState::StartPending, ReportedState::Running, ReportedState::StopPending, ReportedState::Stopped]
    );
    for r in &reports {
        assert_eq!(r.accepts_stop, r.state == ReportedState::Running);
        assert_eq!(r.exit_code, 0);
    }
    assert_eq!(actions.last(), Some(&MonitorAction::Finish));
}
