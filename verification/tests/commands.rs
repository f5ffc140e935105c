use nssm_rs::commands::{
    format_table_row, install_arguments, install_report_lines, list_report_lines, list_state_label,
    needs_stop_before_remove, plan_install, removed_message, status_report_lines, status_state_label,
    stopped_message, stopping_message, strip_unc_prefix, install_working_dir, working_dir_from_parent, ErrorSeverity,
    ListEntry, ProcessModel, ServiceState, StartMode, StateQuery,
};
use nssm_rs::config::ServiceConfig;
use nssm_rs::launch::plan_launch;

fn strings(v: &[&str]) -> Vec<String> {
    v.iter().map(|s| s.to_string()).collect()
}

#[test]
fn strips_unc_prefix() {
    assert_eq!(strip_unc_prefix("\\\\?\\C:\\app\\server.exe"), "C:\\app\\server.exe");
    assert_eq!(strip_unc_prefix("C:\\app\\server.exe"), "C:\\app\\server.exe");
    assert_eq!(strip_unc_prefix("\\\\?\\"), "");
    assert_eq!(strip_unc_prefix("\\\\?"), "\\\\?");
    assert_eq!(strip_unc_prefix("\\\\.\\pipe"), "\\\\.\\pipe");
}

#[test]
fn joins_arguments_without_separators() {
    assert_eq!(install_arguments(&strings(&["--", "--port", "8080", "--config", "prod.toml"])), "--port 8080 --config prod.toml");
    assert_eq!(install_arguments(&strings(&[])), "");
    assert_eq!(install_arguments(&strings(&["--", "--"])), "");
    assert_eq!(install_arguments(&strings(&["a", "--", "b"])), "a b");
}

#[test]
fn install_plan_for_example() {
    let p = plan_install(
        "MyApp",
        "\\\\?\\C:\\Program Files\\nssm-rs\\nssm-rs.exe",
        "C:\\myapp\\server.exe",
        "C:\\myapp",
        &strings(&["--", "--port", "8080"]),
    );
    assert_eq!(p.registration.name, "MyApp");
    assert_eq!(p.registration.display_name, "MyApp (nssm-rs)");
    assert_eq!(p.registration.launch_arguments, strings(&["service", "--name", "MyApp"]));
    assert_eq!(p.registration.executable_path, "C:\\Program Files\\nssm-rs\\nssm-rs.exe");
    assert_eq!(p.registration.process_model, ProcessModel::OwnProcess);
    assert_eq!(p.registration.start_mode, StartMode::Automatic);
    assert_eq!(p.registration.error_severity, ErrorSeverity::Normal);
    assert!(p.registration.dependencies.is_empty());
    assert_eq!(p.registration.account, None);
    assert_eq!(p.log_dir, "C:\\ProgramData\\nssm-rs\\logs\\MyApp");
    assert_eq!(p.config.exe_path, "C:\\myapp\\server.exe");
    assert_eq!(p.config.arguments, "--port 8080");
    assert_eq!(p.config.working_dir, "C:\\myapp");
    assert_eq!(p.config.stdout_path, Some("C:\\ProgramData\\nssm-rs\\logs\\MyApp\\stdout.log".to_string()));
    assert_eq!(p.config.stderr_path, Some("C:\\ProgramData\\nssm-rs\\logs\\MyApp\\stderr.log".to_string()));
    assert_eq!(p.config.restart_delay_ms, 0);
    assert_eq!(p.config.throttle_ms, 1500);
    assert_eq!(p.config.stop_timeout_ms, 5000);
    let launch = plan_launch(&p.config);
    assert_eq!(launch.args, strings(&["--port", "8080"]));
}

#[test]
fn install_report() {
    let p = plan_install("MyApp", "nssm-rs.exe", "C:\\myapp\\server.exe", "C:\\myapp", &strings(&["--port", "8080"]));
    assert_eq!(
        install_report_lines("MyApp", &p.config, &p.log_dir),
        strings(&[
            "Service 'MyApp' installed successfully.",
            "  Executable: C:\\myapp\\server.exe",
            "  Arguments:  --port 8080",
            "  Logs:       C:\\ProgramData\\nssm-rs\\logs\\MyApp",
            "",
            "Start it with: nssm-rs start MyApp",
        ])
    );
    let q = plan_install("W", "nssm-rs.exe", "w.exe", "", &strings(&[]));
    assert_eq!(install_report_lines("W", &q.config, &q.log_dir).len(), 5);
}

#[test]
fn status_labels() {
    assert_eq!(status_state_label(ServiceState::Stopped), "STOPPED");
    assert_eq!(status_state_label(ServiceState::StartPending), "START_PENDING");
    assert_eq!(status_state_label(ServiceState::StopPending), "STOP_PENDING");
    assert_eq!(status_state_label(ServiceState::Running), "RUNNING");
    assert_eq!(status_state_label(ServiceState::ContinuePending), "CONTINUE_PENDING");
    assert_eq!(status_state_label(ServiceState::PausePending), "PAUSE_PENDING");
    assert_eq!(status_state_label(ServiceState::Paused), "PAUSED");
}

#[test]
fn status_report() {
    assert_eq!(status_report_lines("X", ServiceState::Running, None), strings(&["Service: X", "State:   RUNNING"]));
    let mut c = ServiceConfig::default();
    c.exe_path = "C:\\x.exe".to_string();
    c.stdout_path = Some("C:\\out.log".to_string());
    assert_eq!(
        status_report_lines("X", ServiceState::Paused, Some(&c)),
        strings(&["Service: X", "State:   PAUSED", "Exe:     C:\\x.exe", "Stdout:  C:\\out.log"])
    );
    c.arguments = "-v".to_string();
    c.stdout_path = None;
    assert_eq!(
        status_report_lines("X", ServiceState::Stopped, Some(&c)),
        strings(&["Service: X", "State:   STOPPED", "Exe:     C:\\x.exe", "Args:    -v"])
    );
}

#[test]
fn list_labels() {
    assert_eq!(list_state_label(StateQuery::Unavailable), "N/A");
    assert_eq!(list_state_label(StateQuery::QueryFailed), "ERROR");
    assert_eq!(list_state_label(StateQuery::Known(ServiceState::Running)), "RUNNING");
    assert_eq!(list_state_label(StateQuery::Known(ServiceState::Stopped)), "STOPPED");
    assert_eq!(list_state_label(StateQuery::Known(ServiceState::StartPending)), "STARTING");
    assert_eq!(list_state_label(StateQuery::Known(ServiceState::StopPending)), "STOPPING");
    assert_eq!(list_state_label(StateQuery::Known(ServiceState::Paused)), "PAUSED");
    assert_eq!(list_state_label(StateQuery::Known(ServiceState::ContinuePending)), "UNKNOWN");
    assert_eq!(list_state_label(StateQuery::Known(ServiceState::PausePending)), "UNKNOWN");
}

#[test]
fn table_rows_match_format() {
    for (a, b, c) in [("MyApp", "RUNNING", "C:\\myapp\\server.exe"), ("", "", ""), ("a-very-long-service-name-over-thirty-chars", "STOPPED", "?")] {
        assert_eq!(format_table_row(a, b, c), format!("{:<30} {:<15} {}", a, b, c));
    }
}

#[test]
fn list_report_example() {
    let entries = vec![
        ListEntry {
            name: "MyApp".to_string(),
            state: StateQuery::Known(ServiceState::Running),
            exe_path: Some("C:\\myapp\\server.exe".to_string()),
        },
        ListEntry {
            name: "MyWorker".to_string(),
            state: StateQuery::Known(ServiceState::Stopped),
            exe_path: Some("C:\\workers\\worker.exe".to_string()),
        },
        ListEntry { name: "Ghost".to_string(), state: StateQuery::Unavailable, exe_path: None },
    ];
    assert_eq!(
        list_report_lines(&entries),
        vec![
            "SERVICE                        STATE           EXECUTABLE".to_string(),
            "-".repeat(80),
            "MyApp                          RUNNING         C:\\myapp\\server.exe".to_string(),
            "MyWorker                       STOPPED         C:\\workers\\worker.exe".to_string(),
            "Ghost                          N/A             ?".to_string(),
        ]
    );
    assert_eq!(list_report_lines(&Vec::new()), strings(&["No services managed by nssm-rs."]));
}

#[test]
fn remove_and_stop_messages() {
    assert!(!needs_stop_before_remove(ServiceState::Stopped));
    assert!(needs_stop_before_remove(ServiceState::Running));
    assert!(needs_stop_before_remove(ServiceState::StopPending));
    assert!(needs_stop_before_remove(ServiceState::Paused));
    assert_eq!(stopping_message("MyApp"), "Stopping service 'MyApp'...");
    assert_eq!(removed_message("MyApp"), "Service 'MyApp' removed successfully.");
    assert_eq!(stopped_message("MyApp"), "Service 'MyApp' stopped.");
}

#[test]
fn working_dir_is_program_directory() {
    assert_eq!(install_working_dir("apps/server/run.exe"), "apps/server");
    assert_eq!(install_working_dir("run.exe"), "");
    assert_eq!(install_working_dir(""), "");
    assert_eq!(working_dir_from_parent(Some("C:\\myapp".to_string())), "C:\\myapp");
    assert_eq!(working_dir_from_parent(None), "");
}

#[test]
fn working_dir_is_a_shorter_beginning() {
    for path in ["apps/server/run.exe", "apps/server/", "/run.exe", "/", "a/./b", "./x", "run.exe", "ä/ö.exe"] {
        let dir = install_working_dir(path);
        assert!(dir.len() < path.len(), "path {:?}", path);
        assert!(path.starts_with(dir.as_str()), "path {:?}", path);
    }
    assert_eq!(install_working_dir("apps/server/"), "apps");
    assert_eq!(install_working_dir("/run.exe"), "/");
}

#[test]
fn working_dir_of_plain_paths() {
    assert_eq!(install_working_dir("/usr/local/bin/tool"), "/usr/local/bin");
    assert_eq!(install_working_dir("app/run"), "app");
    assert_eq!(install_working_dir("a//b/c.exe"), "a//b");
}
