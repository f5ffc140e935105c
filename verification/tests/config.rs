use nssm_rs::config::{
    config_from_parameters, config_registry_writes, is_managed, keep_managed, parameters_key_path,
    service_key_path, services_root_path, ManagedProbe, RawParameters, RegistryValue, RegistryWrite,
    ServiceConfig,
};
use std::collections::HashMap;

fn sample_config() -> ServiceConfig {
    ServiceConfig {
        exe_path: "C:\\myapp\\server.exe".to_string(),
        arguments: "--port 8080".to_string(),
        working_dir: "C:\\myapp".to_string(),
        stdout_path: Some("C:\\logs\\stdout.log".to_string()),
        stderr_path: None,
        restart_delay_ms: 250,
        throttle_ms: 2000,
        stop_timeout_ms: 9000,
    }
}

fn name_and_text(w: &RegistryWrite) -> (String, Option<String>, Option<u32>) {
    match &w.value {
        RegistryValue::Text(s) => (w.name.clone(), Some(s.clone()), None),
        RegistryValue::Dword(n) => (w.name.clone(), None, Some(*n)),
    }
}

/// Applies writes to a key held as a map, and reads the parameters back as the
/// service does.
fn write_then_read(key: &mut HashMap<String, RegistryValue>, writes: Vec<RegistryWrite>) -> RawParameters {
    for w in writes {
        key.insert(w.name, w.value);
    }
    let text = |k: &str| match key.get(k) {
        Some(RegistryValue::Text(s)) => Some(s.clone()),
        _ => None,
    };
    let number = |k: &str| match key.get(k) {
        Some(RegistryValue::Dword(n)) => Some(*n),
        _ => None,
    };
    RawParameters {
        application: text("Application"),
        app_parameters: text("AppParameters"),
        app_directory: text("AppDirectory"),
        app_stdout: text("AppStdout"),
        app_stderr: text("AppStderr"),
        app_restart_delay: number("AppRestartDelay"),
        app_throttle: number("AppThrottle"),
        app_stop_timeout: number("AppStopTimeout"),
    }
}

fn same_config(a: &ServiceConfig, b: &ServiceConfig) -> bool {
    a.exe_path == b.exe_path
        && a.arguments == b.arguments
        && a.working_dir == b.working_dir
        && a.stdout_path == b.stdout_path
        && a.stderr_path == b.stderr_path
        && a.restart_delay_ms == b.restart_delay_ms
        && a.throttle_ms == b.throttle_ms
        && a.stop_timeout_ms == b.stop_timeout_ms
}

#[test]
fn default_config_values() {
    let c = ServiceConfig::default();
    assert_eq!(c.exe_path, "");
    assert_eq!(c.arguments, "");
    assert_eq!(c.working_dir, "");
    assert_eq!(c.stdout_path, None);
    assert_eq!(c.stderr_path, None);
    assert_eq!(c.restart_delay_ms, 0);
    assert_eq!(c.throttle_ms, 1500);
    assert_eq!(c.stop_timeout_ms, 5000);
}

#[test]
fn registry_paths() {
    assert_eq!(services_root_path(), "SYSTEM\\CurrentControlSet\\Services");
    assert_eq!(service_key_path("MyApp"), "SYSTEM\\CurrentControlSet\\Services\\MyApp");
    assert_eq!(parameters_key_path("MyApp"), "SYSTEM\\CurrentControlSet\\Services\\MyApp\\Parameters");
}

#[test]
fn writes_in_order() {
    let w: Vec<_> = config_registry_writes(&sample_config()).iter().map(name_and_text).collect();
    let expected = vec![
        ("Application".to_string(), Some("C:\\myapp\\server.exe".to_string()), None),
        ("AppParameters".to_string(), Some("--port 8080".to_string()), None),
        ("AppDirectory".to_string(), Some("C:\\myapp".to_string()), None),
        ("AppRestartDelay".to_string(), None, Some(250)),
        ("AppThrottle".to_string(), None, Some(2000)),
        ("AppStopTimeout".to_string(), None, Some(9000)),
        ("ManagedBy".to_string(), Some("nssm-rs".to_string()), None),
        ("AppStdout".to_string(), Some("C:\\logs\\stdout.log".to_string()), None),
    ];
    assert_eq!(w, expected);
}

#[test]
fn writes_both_logs_when_set() {
    let mut c = sample_config();
    c.stderr_path = Some("C:\\logs\\stderr.log".to_string());
    let w = config_registry_writes(&c);
    assert_eq!(w.len(), 9);
    assert_eq!(w[8].name, "AppStderr");
    let mut c2 = sample_config();
    c2.stdout_path = None;
    assert_eq!(config_registry_writes(&c2).len(), 7);
}

#[test]
fn missing_values_take_defaults() {
    let raw = RawParameters {
        application: Some("a.exe".to_string()),
        app_parameters: None,
        app_directory: None,
        app_stdout: None,
        app_stderr: Some("err.log".to_string()),
        app_restart_delay: None,
        app_throttle: Some(10),
        app_stop_timeout: None,
    };
    let c = config_from_parameters(raw);
    assert_eq!(c.exe_path, "a.exe");
    assert_eq!(c.arguments, "");
    assert_eq!(c.working_dir, "");
    assert_eq!(c.stdout_path, None);
    assert_eq!(c.stderr_path, Some("err.log".to_string()));
    assert_eq!(c.restart_delay_ms, 0);
    assert_eq!(c.throttle_ms, 10);
    assert_eq!(c.stop_timeout_ms, 5000);
}

#[test]
fn empty_key_reads_as_default() {
    let mut key = HashMap::new();
    let c = config_from_parameters(write_then_read(&mut key, Vec::new()));
    assert!(same_config(&c, &ServiceConfig::default()));
}

#[test]
fn read_after_write_round_trip() {
    let written = sample_config();
    let mut key = HashMap::new();
    key.insert("AppThrottle".to_string(), RegistryValue::Text("junk".to_string()));
    key.insert("Other".to_string(), RegistryValue::Dword(7));
    let back = config_from_parameters(write_then_read(&mut key, config_registry_writes(&written)));
    assert!(same_config(&back, &written));
}

#[test]
fn stale_log_value_survives_second_write() {
    let mut key = HashMap::new();
    key.insert("AppStderr".to_string(), RegistryValue::Text("old.log".to_string()));
    let back = config_from_parameters(write_then_read(&mut key, config_registry_writes(&sample_config())));
    assert_eq!(back.stderr_path, Some("old.log".to_string()));
}

#[test]
fn managed_decision() {
    let probe = |key_found: bool, managed_by: Option<&str>, has_application: bool| ManagedProbe {
        key_found,
        managed_by: managed_by.map(|s| s.to_string()),
        has_application,
    };
    assert!(is_managed(&probe(true, Some("nssm-rs"), false)));
    assert!(!is_managed(&probe(true, Some("nssm"), true)));
    assert!(is_managed(&probe(true, None, true)));
    assert!(!is_managed(&probe(true, None, false)));
    assert!(!is_managed(&probe(false, Some("nssm-rs"), true)));
}

#[test]
fn written_service_is_managed() {
    let mut key = HashMap::new();
    for w in config_registry_writes(&sample_config()) {
        key.insert(w.name, w.value);
    }
    let managed_by = match key.get("ManagedBy") {
        Some(RegistryValue::Text(s)) => Some(s.clone()),
        _ => None,
    };
    let has_application = matches!(key.get("Application"), Some(RegistryValue::Text(_)));
    assert!(is_managed(&ManagedProbe { key_found: true, managed_by, has_application }));
}

#[test]
fn keeps_managed_names_in_order() {
    let kept = keep_managed(vec![
        ("A".to_string(), true),
        ("B".to_string(), false),
        ("C".to_string(), true),
    ]);
    assert_eq!(kept, vec!["A".to_string(), "C".to_string()]);
    assert!(keep_managed(Vec::new()).is_empty());
}
