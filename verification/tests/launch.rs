use nssm_rs::config::ServiceConfig;
use nssm_rs::launch::{plan_launch, OutputTarget};

#[test]
fn plans_command_line_and_redirection() {
    let c = ServiceConfig {
        exe_path: "C:\\app\\server.exe".to_string(),
        arguments: " --port  8080 --config prod.toml ".to_string(),
        working_dir: "C:\\app".to_string(),
        stdout_path: Some("C:\\logs\\out.log".to_string()),
        stderr_path: None,
        restart_delay_ms: 0,
        throttle_ms: 1500,
        stop_timeout_ms: 5000,
    };
    let p = plan_launch(&c);
    assert_eq!(p.program, "C:\\app\\server.exe");
    assert_eq!(p.args, vec!["--port", "8080", "--config", "prod.toml"]);
    assert_eq!(p.working_dir, Some("C:\\app".to_string()));
    assert!(matches!(p.stdout, OutputTarget::AppendTo(ref s) if s == "C:\\logs\\out.log"));
    assert!(matches!(p.stderr, OutputTarget::Discard));
}

#[test]
fn empty_settings_inherit_and_discard() {
    let mut c = ServiceConfig::default();
    c.exe_path = "a.exe".to_string();
    let p = plan_launch(&c);
    assert!(p.args.is_empty());
    assert_eq!(p.working_dir, None);
    assert!(matches!(p.stdout, OutputTarget::Discard));
    assert!(matches!(p.stderr, OutputTarget::Discard));
}
