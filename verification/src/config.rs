//! The configuration of a managed service, and how it is laid out in the registry
//! under `HKLM\SYSTEM\CurrentControlSet\Services\<name>\Parameters`.
//!
//! Reading and writing the registry is left to the caller: this module says which
//! values a configuration is written as, and which configuration a set of values
//! read back gives.
use vstd::prelude::*;
use vstd::string::*;

verus! {

/// Default restart throttle, in milliseconds.
pub const DEFAULT_THROTTLE_MS: u32 = 1500;

/// Default time the program gets to exit after Ctrl+C, in milliseconds.
pub const DEFAULT_STOP_TIMEOUT_MS: u32 = 5000;

/// Configuration for a managed service, stored in the Windows registry.
#[derive(Debug, Clone)]
pub struct ServiceConfig {
    pub exe_path: String,
    pub arguments: String,
    pub working_dir: String,
    pub stdout_path: Option<String>,
    pub stderr_path: Option<String>,
    pub restart_delay_ms: u32,
    pub throttle_ms: u32,
    pub stop_timeout_ms: u32,
}

/// The configuration as plain values.
pub struct ServiceConfigView {
    pub exe_path: Seq<char>,
    pub arguments: Seq<char>,
    pub working_dir: Seq<char>,
    pub stdout_path: Option<Seq<char>>,
    pub stderr_path: Option<Seq<char>>,
    pub restart_delay_ms: u32,
    pub throttle_ms: u32,
    pub stop_timeout_ms: u32,
}

/// The view of an optional string.
pub open spec fn opt_view(s: Option<String>) -> Option<Seq<char>> {
    match s {
        Some(t) => Some(t@),
        None => None,
    }
}

impl View for ServiceConfig {
    type V = ServiceConfigView;

    open spec fn view(&self) -> ServiceConfigView {
        ServiceConfigView {
            exe_path: self.exe_path@,
            arguments: self.arguments@,
            working_dir: self.working_dir@,
            stdout_path: opt_view(self.stdout_path),
            stderr_path: opt_view(self.stderr_path),
            restart_delay_ms: self.restart_delay_ms,
            throttle_ms: self.throttle_ms,
            stop_timeout_ms: self.stop_timeout_ms,
        }
    }
}

/// The configuration of a service that was given nothing: no program, no
/// arguments, no log files, no restart delay, a 1.5 s throttle and a 5 s stop timeout.
pub open spec fn default_config() -> ServiceConfigView {
    ServiceConfigView {
        exe_path: seq![],
        arguments: seq![],
        working_dir: seq![],
        stdout_path: None,
        stderr_path: None,
        restart_delay_ms: 0,
        throttle_ms: DEFAULT_THROTTLE_MS,
        stop_timeout_ms: DEFAULT_STOP_TIMEOUT_MS,
    }
}

impl Default for ServiceConfig {
    fn default() -> (res: Self)
        ensures
            res@ == default_config(),
    {
        ServiceConfig {
            exe_path: String::new(),
            arguments: String::new(),
            working_dir: String::new(),
            stdout_path: None,
            stderr_path: None,
            restart_delay_ms: 0,
            throttle_ms: DEFAULT_THROTTLE_MS,
            stop_timeout_ms: DEFAULT_STOP_TIMEOUT_MS,
        }
    }
}

// ---------------------------------------------------------------------------
// Registry locations

/// `SYSTEM\CurrentControlSet\Services`, under `HKEY_LOCAL_MACHINE`.
pub open spec fn services_root() -> Seq<char> {
    "SYSTEM\\CurrentControlSet\\Services"@
}

/// The key of a service: `SYSTEM\CurrentControlSet\Services\<name>`.
pub open spec fn service_key(name: Seq<char>) -> Seq<char> {
    services_root() + "\\"@ + name
}

/// The key that holds a service's parameters: `...\Services\<name>\Parameters`.
pub open spec fn parameters_key(name: Seq<char>) -> Seq<char> {
    service_key(name) + "\\Parameters"@
}

/// The path of the registry key under which all services live.
pub fn services_root_path() -> (res: String)
    ensures
        res@ == services_root(),
{
    String::from_str("SYSTEM\\CurrentControlSet\\Services")
}

/// The path of a service's own registry key.
pub fn service_key_path(service_name: &str) -> (res: String)
    ensures
        res@ == service_key(service_name@),
{
    let mut path = services_root_path();
    path.append("\\");
    path.append(service_name);
    path
}

/// The path of the registry key that holds a service's parameters.
pub fn parameters_key_path(service_name: &str) -> (res: String)
    ensures
        res@ == parameters_key(service_name@),
{
    let mut path = service_key_path(service_name);
    path.append("\\Parameters");
    path
}

// ---------------------------------------------------------------------------
// Registry values

/// A registry value as the service stores it: a string (`REG_SZ`) or a 32-bit
/// number (`REG_DWORD`).
#[derive(Debug)]
pub enum RegistryValue {
    Text(String),
    Dword(u32),
}

/// A registry value as plain data.
pub enum RegistryData {
    Text(Seq<char>),
    Dword(u32),
}

impl View for RegistryValue {
    type V = RegistryData;

    open spec fn view(&self) -> RegistryData {
        match self {
            RegistryValue::Text(s) => RegistryData::Text(s@),
            RegistryValue::Dword(n) => RegistryData::Dword(*n),
        }
    }
}

/// One value to set: its name and its data.
#[derive(Debug)]
pub struct RegistryWrite {
    pub name: String,
    pub value: RegistryValue,
}

impl View for RegistryWrite {
    type V = (Seq<char>, RegistryData);

    open spec fn view(&self) -> (Seq<char>, RegistryData) {
        (self.name@, self.value@)
    }
}

/// The views of a sequence of writes.
pub open spec fn writes_view(w: Seq<RegistryWrite>) -> Seq<(Seq<char>, RegistryData)> {
    w.map_values(|x: RegistryWrite| x@)
}

/// Marks a service as managed by this tool (value `ManagedBy`).
pub open spec fn marker() -> Seq<char> {
    "nssm-rs"@
}

/// The values that store `c`, in the order they are set: the program, its
/// arguments and directory, the three timings, the ownership marker, and the log
/// files where there are any.
pub open spec fn config_writes(c: ServiceConfigView) -> Seq<(Seq<char>, RegistryData)> {
    let fixed = seq![
        ("Application"@, RegistryData::Text(c.exe_path)),
        ("AppParameters"@, RegistryData::Text(c.arguments)),
        ("AppDirectory"@, RegistryData::Text(c.working_dir)),
        ("AppRestartDelay"@, RegistryData::Dword(c.restart_delay_ms)),
        ("AppThrottle"@, RegistryData::Dword(c.throttle_ms)),
        ("AppStopTimeout"@, RegistryData::Dword(c.stop_timeout_ms)),
        ("ManagedBy"@, RegistryData::Text(marker())),
    ];
    let with_stdout = match c.stdout_path {
        Some(p) => fixed.push(("AppStdout"@, RegistryData::Text(p))),
        None => fixed,
    };
    match c.stderr_path {
        Some(p) => with_stdout.push(("AppStderr"@, RegistryData::Text(p))),
        None => with_stdout,
    }
}

fn text_write(name: &str, value: &String) -> (res: RegistryWrite)
    ensures
        res@ == (name@, RegistryData::Text(value@)),
{
    RegistryWrite { name: String::from_str(name), value: RegistryValue::Text(value.clone()) }
}

fn dword_write(name: &str, value: u32) -> (res: RegistryWrite)
    ensures
        res@ == (name@, RegistryData::Dword(value)),
{
    RegistryWrite { name: String::from_str(name), value: RegistryValue::Dword(value) }
}

/// The registry values that store `config`, in the order they are set.
pub fn config_registry_writes(config: &ServiceConfig) -> (res: Vec<RegistryWrite>)
    ensures
        writes_view(res@) == config_writes(config@),
{
    let mut w: Vec<RegistryWrite> = Vec::new();
    w.push(text_write("Application", &config.exe_path));
    w.push(text_write("AppParameters", &config.arguments));
    w.push(text_write("AppDirectory", &config.working_dir));
    w.push(dword_write("AppRestartDelay", config.restart_delay_ms));
    w.push(dword_write("AppThrottle", config.throttle_ms));
    w.push(dword_write("AppStopTimeout", config.stop_timeout_ms));
    let marker_text = String::from_str("nssm-rs");
    w.push(text_write("ManagedBy", &marker_text));
    let ghost fixed = writes_view(w@);
    assert(fixed =~= config_writes(ServiceConfigView { stdout_path: None, stderr_path: None, ..config@ }));
    if let Some(p) = &config.stdout_path {
        w.push(text_write("AppStdout", p));
    }
    let ghost with_stdout = writes_view(w@);
    assert(with_stdout =~= match config@.stdout_path {
        Some(p) => fixed.push(("AppStdout"@, RegistryData::Text(p))),
        None => fixed,
    });
    if let Some(p) = &config.stderr_path {
        w.push(text_write("AppStderr", p));
    }
    assert(writes_view(w@) =~= match config@.stderr_path {
        Some(p) => with_stdout.push(("AppStderr"@, RegistryData::Text(p))),
        None => with_stdout,
    });
    w
}

// ---------------------------------------------------------------------------
// Reading back

/// The parameter values found under a service's parameters key, each as it reads
/// back: a string value only where a string is stored under that name, a number
/// only where a `REG_DWORD` is.
pub struct RawParameters {
    pub application: Option<String>,
    pub app_parameters: Option<String>,
    pub app_directory: Option<String>,
    pub app_stdout: Option<String>,
    pub app_stderr: Option<String>,
    pub app_restart_delay: Option<u32>,
    pub app_throttle: Option<u32>,
    pub app_stop_timeout: Option<u32>,
}

/// Raw parameter values as plain data.
pub struct RawParametersView {
    pub application: Option<Seq<char>>,
    pub app_parameters: Option<Seq<char>>,
    pub app_directory: Option<Seq<char>>,
    pub app_stdout: Option<Seq<char>>,
    pub app_stderr: Option<Seq<char>>,
    pub app_restart_delay: Option<u32>,
    pub app_throttle: Option<u32>,
    pub app_stop_timeout: Option<u32>,
}

impl View for RawParameters {
    type V = RawParametersView;

    open spec fn view(&self) -> RawParametersView {
        RawParametersView {
            application: opt_view(self.application),
            app_parameters: opt_view(self.app_parameters),
            app_directory: opt_view(self.app_directory),
            app_stdout: opt_view(self.app_stdout),
            app_stderr: opt_view(self.app_stderr),
            app_restart_delay: self.app_restart_delay,
            app_throttle: self.app_throttle,
            app_stop_timeout: self.app_stop_timeout,
        }
    }
}

pub open spec fn text_or_empty(s: Option<Seq<char>>) -> Seq<char> {
    match s {
        Some(t) => t,
        None => seq![],
    }
}

pub open spec fn number_or(n: Option<u32>, default: u32) -> u32 {
    match n {
        Some(v) => v,
        None => default,
    }
}

/// The configuration that the values found read as: a missing string is empty,
/// missing log files stay unset, and missing timings take their defaults (no
/// restart delay, 1.5 s throttle, 5 s stop timeout).
pub open spec fn config_of(p: RawParametersView) -> ServiceConfigView {
    ServiceConfigView {
        exe_path: text_or_empty(p.application),
        arguments: text_or_empty(p.app_parameters),
        working_dir: text_or_empty(p.app_directory),
        stdout_path: p.app_stdout,
        stderr_path: p.app_stderr,
        restart_delay_ms: number_or(p.app_restart_delay, 0),
        throttle_ms: number_or(p.app_throttle, DEFAULT_THROTTLE_MS),
        stop_timeout_ms: number_or(p.app_stop_timeout, DEFAULT_STOP_TIMEOUT_MS),
    }
}

fn take_text(s: Option<String>) -> (res: String)
    ensures
        res@ == text_or_empty(opt_view(s)),
{
    match s {
        Some(t) => t,
        None => String::new(),
    }
}

/// Builds the configuration from the parameter values read back.
pub fn config_from_parameters(raw: RawParameters) -> (res: ServiceConfig)
    ensures
        res@ == config_of(raw@),
{
    let stdout_path = raw.app_stdout;
    let stderr_path = raw.app_stderr;
    ServiceConfig {
        exe_path: take_text(raw.application),
        arguments: take_text(raw.app_parameters),
        working_dir: take_text(raw.app_directory),
        stdout_path,
        stderr_path,
        restart_delay_ms: match raw.app_restart_delay {
            Some(v) => v,
            None => 0,
        },
        throttle_ms: match raw.app_throttle {
            Some(v) => v,
            None => DEFAULT_THROTTLE_MS,
        },
        stop_timeout_ms: match raw.app_stop_timeout {
            Some(v) => v,
            None => DEFAULT_STOP_TIMEOUT_MS,
        },
    }
}

// ---------------------------------------------------------------------------
// Ownership

/// What is known of a service's parameters key when deciding whether this tool
/// manages it: whether the key could be opened, the `ManagedBy` value if it reads
/// as a string, and whether an `Application` string value reads.
pub struct ManagedProbe {
    pub key_found: bool,
    pub managed_by: Option<String>,
    pub has_application: bool,
}

/// A service is managed by this tool when its parameters key exists and either its
/// `ManagedBy` value is `nssm-rs`, or, with no `ManagedBy` string, it has an
/// `Application` string (a key set up by hand).
pub open spec fn managed(key_found: bool, managed_by: Option<Seq<char>>, has_application: bool) -> bool {
    key_found && match managed_by {
        Some(m) => m == marker(),
        None => has_application,
    }
}

/// Decides whether a service is managed by this tool.
pub fn is_managed(probe: &ManagedProbe) -> (res: bool)
    ensures
        res == managed(probe.key_found, opt_view(probe.managed_by), probe.has_application),
{
    if !probe.key_found {
        return false;
    }
    match &probe.managed_by {
        Some(m) => {
            let mark = String::from_str("nssm-rs");
            *m == mark
        },
        None => probe.has_application,
    }
}

/// The names of the candidates found to be managed, in their order.
pub open spec fn managed_names(candidates: Seq<(String, bool)>) -> Seq<Seq<char>>
    decreases candidates.len(),
{
    if candidates.len() == 0 {
        seq![]
    } else {
        let rest = managed_names(candidates.drop_last());
        if candidates.last().1 {
            rest.push(candidates.last().0@)
        } else {
            rest
        }
    }
}

/// The managed names are exactly the names of the candidates flagged managed, in
/// their order: every flagged candidate is kept, no other one is.
pub proof fn law_managed_names_are_flagged(candidates: Seq<(String, bool)>)
    ensures
        managed_names(candidates) == candidates.filter(|c: (String, bool)| c.1).map_values(
            |c: (String, bool)| c.0@,
        ),
        managed_names(candidates).len() == candidates.filter(|c: (String, bool)| c.1).len(),
    decreases candidates.len(),
{
    reveal(Seq::filter);
    let pred = |c: (String, bool)| c.1;
    let name = |c: (String, bool)| c.0@;
    if candidates.len() > 0 {
        let init = candidates.drop_last();
        law_managed_names_are_flagged(init);
        let fi = init.filter(pred);
        if candidates.last().1 {
            assert(candidates.filter(pred) == fi.push(candidates.last()));
            assert(fi.push(candidates.last()).map_values(name) =~= fi.map_values(name).push(candidates.last().0@));
        } else {
            assert(candidates.filter(pred) == fi);
        }
    }
}

/// Keeps the names of the services found to be managed, in order.
pub fn keep_managed(candidates: Vec<(String, bool)>) -> (res: Vec<String>)
    ensures
        crate::text::string_views(res@) == managed_names(candidates@),
{
    let mut kept: Vec<String> = Vec::new();
    let mut i: usize = 0;
    while i < candidates.len()
        invariant
            i <= candidates.len(),
            crate::text::string_views(kept@) == managed_names(candidates@.take(i as int)),
        decreases candidates.len() - i,
    {
        let ghost prev = crate::text::string_views(kept@);
        assert(candidates@.take(i + 1).drop_last() =~= candidates@.take(i as int));
        if candidates[i].1 {
            kept.push(candidates[i].0.clone());
            assert(crate::text::string_views(kept@) =~= prev.push(candidates@[i as int].0@));
        }
        i = i + 1;
    }
    assert(candidates@.take(candidates.len() as int) =~= candidates@);
    kept
}

// ---------------------------------------------------------------------------
// The registry as the library sees it

/// The values under one registry key, by name.
pub type RegistryKeyView = Map<Seq<char>, RegistryData>;

/// The key after setting the values `w` in order; a later value replaces an
/// earlier one of the same name.
pub open spec fn apply_writes(m: RegistryKeyView, w: Seq<(Seq<char>, RegistryData)>) -> RegistryKeyView
    decreases w.len(),
{
    if w.len() == 0 {
        m
    } else {
        apply_writes(m, w.drop_last()).insert(w.last().0, w.last().1)
    }
}

/// The string stored under `name`, if a string is stored there.
pub open spec fn text_in(m: RegistryKeyView, name: Seq<char>) -> Option<Seq<char>> {
    if m.contains_key(name) {
        match m[name] {
            RegistryData::Text(s) => Some(s),
            RegistryData::Dword(_) => None,
        }
    } else {
        None
    }
}

/// The number stored under `name`, if a number is stored there.
pub open spec fn dword_in(m: RegistryKeyView, name: Seq<char>) -> Option<u32> {
    if m.contains_key(name) {
        match m[name] {
            RegistryData::Dword(n) => Some(n),
            RegistryData::Text(_) => None,
        }
    } else {
        None
    }
}

/// What reading a service's parameters from the key `m` finds.
pub open spec fn parameters_in(m: RegistryKeyView) -> RawParametersView {
    RawParametersView {
        application: text_in(m, "Application"@),
        app_parameters: text_in(m, "AppParameters"@),
        app_directory: text_in(m, "AppDirectory"@),
        app_stdout: text_in(m, "AppStdout"@),
        app_stderr: text_in(m, "AppStderr"@),
        app_restart_delay: dword_in(m, "AppRestartDelay"@),
        app_throttle: dword_in(m, "AppThrottle"@),
        app_stop_timeout: dword_in(m, "AppStopTimeout"@),
    }
}

proof fn lemma_value_names_distinct()
    ensures
        "Application"@ != "AppParameters"@,
        "Application"@ != "AppDirectory"@,
        "Application"@ != "AppRestartDelay"@,
        "Application"@ != "AppThrottle"@,
        "Application"@ != "AppStopTimeout"@,
        "Application"@ != "ManagedBy"@,
        "Application"@ != "AppStdout"@,
        "Application"@ != "AppStderr"@,
        "AppParameters"@ != "AppDirectory"@,
        "AppParameters"@ != "AppRestartDelay"@,
        "AppParameters"@ != "AppThrottle"@,
        "AppParameters"@ != "AppStopTimeout"@,
        "AppParameters"@ != "ManagedBy"@,
        "AppParameters"@ != "AppStdout"@,
        "AppParameters"@ != "AppStderr"@,
        "AppDirectory"@ != "AppRestartDelay"@,
        "AppDirectory"@ != "AppThrottle"@,
        "AppDirectory"@ != "AppStopTimeout"@,
        "AppDirectory"@ != "ManagedBy"@,
        "AppDirectory"@ != "AppStdout"@,
        "AppDirectory"@ != "AppStderr"@,
        "AppRestartDelay"@ != "AppThrottle"@,
        "AppRestartDelay"@ != "AppStopTimeout"@,
        "AppRestartDelay"@ != "ManagedBy"@,
        "AppRestartDelay"@ != "AppStdout"@,
        "AppRestartDelay"@ != "AppStderr"@,
        "AppThrottle"@ != "AppStopTimeout"@,
        "AppThrottle"@ != "ManagedBy"@,
        "AppThrottle"@ != "AppStdout"@,
        "AppThrottle"@ != "AppStderr"@,
        "AppStopTimeout"@ != "ManagedBy"@,
        "AppStopTimeout"@ != "AppStdout"@,
        "AppStopTimeout"@ != "AppStderr"@,
        "ManagedBy"@ != "AppStdout"@,
        "ManagedBy"@ != "AppStderr"@,
        "AppStdout"@ != "AppStderr"@,
{
    reveal_strlit("Application");
    reveal_strlit("AppParameters");
    reveal_strlit("AppDirectory");
    reveal_strlit("AppRestartDelay");
    reveal_strlit("AppThrottle");
    reveal_strlit("AppStopTimeout");
    reveal_strlit("ManagedBy");
    reveal_strlit("AppStdout");
    reveal_strlit("AppStderr");
    assert("Application"@[3] != "AppParameters"@[3]);
    assert("Application"@[3] != "AppDirectory"@[3]);
    assert("AppParameters"@[3] != "AppDirectory"@[3]);
    assert("AppRestartDelay"@[3] != "AppThrottle"@[3]);
    assert("AppRestartDelay"@[3] != "AppStopTimeout"@[3]);
    assert("AppThrottle"@[3] != "AppStopTimeout"@[3]);
    assert("AppStdout"@[6] != "AppStderr"@[6]);
    assert("Application"@[3] != "AppStdout"@[3]);
    assert("Application"@[3] != "AppStderr"@[3]);
    assert("Application"@[3] != "AppRestartDelay"@[3]);
    assert("Application"@[3] != "AppThrottle"@[3]);
    assert("Application"@[3] != "AppStopTimeout"@[3]);
    assert("AppParameters"@[3] != "AppRestartDelay"@[3]);
    assert("AppParameters"@[3] != "AppThrottle"@[3]);
    assert("AppParameters"@[3] != "AppStopTimeout"@[3]);
    assert("AppParameters"@[3] != "AppStdout"@[3]);
    assert("AppParameters"@[3] != "AppStderr"@[3]);
    assert("AppDirectory"@[3] != "AppRestartDelay"@[3]);
    assert("AppDirectory"@[3] != "AppThrottle"@[3]);
    assert("AppDirectory"@[3] != "AppStopTimeout"@[3]);
    assert("AppDirectory"@[3] != "AppStdout"@[3]);
    assert("AppDirectory"@[3] != "AppStderr"@[3]);
    assert("AppRestartDelay"@[3] != "AppStdout"@[3]);
    assert("AppRestartDelay"@[3] != "AppStderr"@[3]);
    assert("AppThrottle"@[3] != "AppStdout"@[3]);
    assert("AppThrottle"@[3] != "AppStderr"@[3]);
    assert("AppStopTimeout"@[5] != "AppStdout"@[5]);
    assert("AppStopTimeout"@[5] != "AppStderr"@[5]);
    assert("ManagedBy"@[0] != "Application"@[0]);
    assert("ManagedBy"@[0] != "AppParameters"@[0]);
    assert("ManagedBy"@[0] != "AppDirectory"@[0]);
    assert("ManagedBy"@[0] != "AppRestartDelay"@[0]);
    assert("ManagedBy"@[0] != "AppThrottle"@[0]);
    assert("ManagedBy"@[0] != "AppStopTimeout"@[0]);
    assert("ManagedBy"@[0] != "AppStdout"@[0]);
    assert("ManagedBy"@[0] != "AppStderr"@[0]);
}

/// Reading a configuration back from the registry gives the configuration that was
/// written, provided that no log file path stays behind from an earlier
/// configuration where the new one has none (writing leaves such a value in place).
pub proof fn law_read_after_write(c: ServiceConfigView, m: RegistryKeyView)
    requires
        c.stdout_path is None ==> text_in(m, "AppStdout"@) is None,
        c.stderr_path is None ==> text_in(m, "AppStderr"@) is None,
    ensures
        config_of(parameters_in(apply_writes(m, config_writes(c)))) == c,
{
    lemma_value_names_distinct();
    reveal_with_fuel(apply_writes, 10);
    let w = config_writes(c);
    let r = apply_writes(m, w);
    assert(r.contains_key("Application"@));
    assert(r.contains_key("AppParameters"@));
    assert(r.contains_key("AppDirectory"@));
    assert(r.contains_key("AppRestartDelay"@));
    assert(r.contains_key("AppThrottle"@));
    assert(r.contains_key("AppStopTimeout"@));
    assert(config_of(parameters_in(r)).stdout_path == c.stdout_path);
    assert(config_of(parameters_in(r)).stderr_path == c.stderr_path);
}

/// A service whose configuration was written is managed by this tool.
pub proof fn law_written_service_is_managed(c: ServiceConfigView, m: RegistryKeyView)
    ensures
        ({
            let r = apply_writes(m, config_writes(c));
            managed(true, text_in(r, "ManagedBy"@), text_in(r, "Application"@) is Some)
        }),
{
    lemma_value_names_distinct();
    reveal_with_fuel(apply_writes, 10);
    let r = apply_writes(m, config_writes(c));
    assert(r.contains_key("ManagedBy"@));
}

/// Every parameter value that is found is taken as it is; only missing ones take
/// their defaults.
pub proof fn law_found_values_read_as_is(p: RawParametersView)
    ensures
        p.application matches Some(v) ==> config_of(p).exe_path == v,
        p.app_parameters matches Some(v) ==> config_of(p).arguments == v,
        p.app_directory matches Some(v) ==> config_of(p).working_dir == v,
        config_of(p).stdout_path == p.app_stdout,
        config_of(p).stderr_path == p.app_stderr,
        p.app_restart_delay matches Some(v) ==> config_of(p).restart_delay_ms == v,
        p.app_throttle matches Some(v) ==> config_of(p).throttle_ms == v,
        p.app_stop_timeout matches Some(v) ==> config_of(p).stop_timeout_ms == v,
        p.app_throttle is None ==> config_of(p).throttle_ms == 1500,
        p.app_stop_timeout is None ==> config_of(p).stop_timeout_ms == 5000,
        p.app_restart_delay is None ==> config_of(p).restart_delay_ms == 0,
{
}

/// A service whose parameters key holds nothing reads as the default configuration.
pub proof fn law_empty_key_reads_default()
    ensures
        config_of(parameters_in(Map::<Seq<char>, RegistryData>::empty())) == default_config(),
{
}

} // verus!
