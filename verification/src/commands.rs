//! What the command-line commands compute: the service an `install` registers and
//! the configuration it stores, and the text that `status`, `list`, `remove` and
//! `stop` print. Talking to the service control manager and the registry is left
//! to the caller.
use vstd::prelude::*;
use vstd::string::*;
use crate::config::{
    ServiceConfig, ServiceConfigView, opt_view, text_or_empty, DEFAULT_THROTTLE_MS, DEFAULT_STOP_TIMEOUT_MS,
};
use crate::config::{RegistryKeyView, apply_writes, config_of, config_writes, law_read_after_write, parameters_in};
use crate::text::{
    is_word, join, joined, law_padded_shape, law_repeated_copies, law_split_undoes_join, pad_right, padded, repeat,
    repeated, string_views, words,
};

verus! {

// ---------------------------------------------------------------------------
// install

/// The prefix `\\?\` that canonical Windows paths carry.
pub open spec fn unc_prefix() -> Seq<char> {
    seq!['\\', '\\', '?', '\\']
}

/// `path` without a leading `\\?\`.
pub open spec fn without_unc_prefix(path: Seq<char>) -> Seq<char> {
    if path.len() >= 4 && path.subrange(0, 4) == unc_prefix() {
        path.subrange(4, path.len() as int)
    } else {
        path
    }
}

/// Removes the `\\?\` prefix that canonicalizing a path adds on Windows.
pub fn strip_unc_prefix(path: &str) -> (res: String)
    ensures
        res@ == without_unc_prefix(path@),
{
    let n: usize = path.unicode_len();
    if n >= 4 && path.get_char(0) == '\\' && path.get_char(1) == '\\' && path.get_char(2) == '?'
        && path.get_char(3) == '\\' {
        assert(path@.subrange(0, 4) =~= unc_prefix());
        String::from_str(path.substring_char(4, n))
    } else {
        assert(path@.len() >= 4 ==> path@.subrange(0, 4)[0] == path@[0]);
        assert(path@.len() >= 4 ==> path@.subrange(0, 4)[1] == path@[1]);
        assert(path@.len() >= 4 ==> path@.subrange(0, 4)[2] == path@[2]);
        assert(path@.len() >= 4 ==> path@.subrange(0, 4)[3] == path@[3]);
        String::from_str(path)
    }
}

/// Stripping removes `\\?\` from a path that begins with it, and leaves any other
/// path as it is; what remains is always an ending of the path.
pub proof fn law_unc_prefix_removed(path: Seq<char>)
    ensures
        without_unc_prefix(unc_prefix() + path) == path,
        !(path.len() >= 4 && path.subrange(0, 4) == unc_prefix()) ==> without_unc_prefix(path) == path,
        without_unc_prefix(path) == path.subrange(path.len() - without_unc_prefix(path).len(), path.len() as int),
{
    let full = unc_prefix() + path;
    assert(full.subrange(0, 4) =~= unc_prefix());
    assert(full.subrange(4, full.len() as int) =~= path);
    assert(path.subrange(0, path.len() as int) =~= path);
}

/// The arguments with every `--` separator left out.
pub open spec fn without_separators(args: Seq<Seq<char>>) -> Seq<Seq<char>>
    decreases args.len(),
{
    if args.len() == 0 {
        seq![]
    } else {
        let rest = without_separators(args.drop_last());
        if args.last() == "--"@ {
            rest
        } else {
            rest.push(args.last())
        }
    }
}

/// Leaving out separators keeps exactly the arguments that are not `--`, in order.
pub proof fn law_separators_left_out(args: Seq<Seq<char>>)
    ensures
        without_separators(args) == args.filter(|a: Seq<char>| a != "--"@),
    decreases args.len(),
{
    reveal(Seq::filter);
    if args.len() > 0 {
        law_separators_left_out(args.drop_last());
    }
}

/// The stored argument string: the arguments, `--` separators left out, joined
/// with single spaces.
pub fn install_arguments(args: &Vec<String>) -> (res: String)
    ensures
        res@ == joined(without_separators(string_views(args@)), " "@),
{
    let separator = String::from_str("--");
    let mut kept: Vec<String> = Vec::new();
    let mut i: usize = 0;
    while i < args.len()
        invariant
            i <= args.len(),
            separator@ == "--"@,
            string_views(kept@) == without_separators(string_views(args@.take(i as int))),
        decreases args.len() - i,
    {
        let ghost prev = string_views(kept@);
        assert(string_views(args@.take(i + 1)).drop_last() =~= string_views(args@.take(i as int)));
        assert(string_views(args@.take(i + 1)).last() == args@[i as int]@);
        if !(args[i] == separator) {
            kept.push(args[i].clone());
            assert(string_views(kept@) =~= prev.push(args@[i as int]@));
        }
        i = i + 1;
    }
    assert(args@.take(args.len() as int) =~= args@);
    join(&kept, " ")
}

/// The name the service is shown under: `<name> (nssm-rs)`.
pub open spec fn display_name(service_name: Seq<char>) -> Seq<char> {
    service_name + " (nssm-rs)"@
}

/// The directory that receives the service's logs:
/// `C:\ProgramData\nssm-rs\logs\<name>`.
pub open spec fn log_dir(service_name: Seq<char>) -> Seq<char> {
    "C:\\ProgramData\\nssm-rs\\logs\\"@ + service_name
}

/// The arguments the service control manager starts this tool with:
/// `service --name <name>`.
pub open spec fn launch_arguments(service_name: Seq<char>) -> Seq<Seq<char>> {
    seq!["service"@, "--name"@, service_name]
}

/// The configuration an installation stores: the resolved program, its joined
/// arguments, its directory, logs in the service's log directory, and the default
/// timings.
pub open spec fn installed_config(
    exe_path: Seq<char>,
    working_dir: Seq<char>,
    service_name: Seq<char>,
    args: Seq<Seq<char>>,
) -> ServiceConfigView {
    ServiceConfigView {
        exe_path,
        arguments: joined(without_separators(args), " "@),
        working_dir,
        stdout_path: Some(log_dir(service_name) + "\\stdout.log"@),
        stderr_path: Some(log_dir(service_name) + "\\stderr.log"@),
        restart_delay_ms: 0,
        throttle_ms: DEFAULT_THROTTLE_MS,
        stop_timeout_ms: DEFAULT_STOP_TIMEOUT_MS,
    }
}

/// When the service control manager starts a service.
#[derive(Clone, Copy, Debug, PartialEq, Eq, Structural)]
pub enum StartMode {
    Boot,
    System,
    Automatic,
    OnDemand,
    Disabled,
}

/// How severe it is when the service fails to start.
#[derive(Clone, Copy, Debug, PartialEq, Eq, Structural)]
pub enum ErrorSeverity {
    Ignore,
    Normal,
    Severe,
    Critical,
}

/// Whether the service has a process of its own or shares one.
#[derive(Clone, Copy, Debug, PartialEq, Eq, Structural)]
pub enum ProcessModel {
    OwnProcess,
    SharedProcess,
}

/// What is registered with the service control manager for a service.
pub struct ServiceRegistration {
    pub name: String,
    pub display_name: String,
    pub process_model: ProcessModel,
    pub start_mode: StartMode,
    pub error_severity: ErrorSeverity,
    /// The program the service control manager starts: this tool.
    pub executable_path: String,
    pub launch_arguments: Vec<String>,
    /// Services that must run first.
    pub dependencies: Vec<String>,
    /// The account the service runs as; `None` is LocalSystem.
    pub account: Option<String>,
}

/// What installing a service registers and stores.
pub struct InstallPlan {
    pub registration: ServiceRegistration,
    pub log_dir: String,
    pub config: ServiceConfig,
}

/// Plans the installation of `service_name` wrapping the program at `exe_path`
/// (already resolved, without `\\?\`), whose directory is `working_dir`, started
/// with `args`. The service runs this tool, found at `self_exe` (a leading `\\?\`
/// is removed), in its own process, started automatically as LocalSystem with
/// normal error control and no dependencies.
pub fn plan_install(
    service_name: &str,
    self_exe: &str,
    exe_path: &str,
    working_dir: &str,
    args: &Vec<String>,
) -> (res: InstallPlan)
    ensures
        res.registration.name@ == service_name@,
        res.registration.display_name@ == display_name(service_name@),
        res.registration.process_model == ProcessModel::OwnProcess,
        res.registration.start_mode == StartMode::Automatic,
        res.registration.error_severity == ErrorSeverity::Normal,
        res.registration.executable_path@ == without_unc_prefix(self_exe@),
        string_views(res.registration.launch_arguments@) == launch_arguments(service_name@),
        res.registration.dependencies@.len() == 0,
        res.registration.account is None,
        res.log_dir@ == log_dir(service_name@),
        res.config@ == installed_config(exe_path@, working_dir@, service_name@, string_views(args@)),
{
    let mut display = String::from_str(service_name);
    display.append(" (nssm-rs)");
    let mut launch: Vec<String> = Vec::new();
    launch.push(String::from_str("service"));
    launch.push(String::from_str("--name"));
    launch.push(String::from_str(service_name));
    assert(string_views(launch@) =~= launch_arguments(service_name@));
    let mut dir = String::from_str("C:\\ProgramData\\nssm-rs\\logs\\");
    dir.append(service_name);
    let mut stdout_path = dir.clone();
    stdout_path.append("\\stdout.log");
    let mut stderr_path = dir.clone();
    stderr_path.append("\\stderr.log");
    let config = ServiceConfig {
        exe_path: String::from_str(exe_path),
        arguments: install_arguments(args),
        working_dir: String::from_str(working_dir),
        stdout_path: Some(stdout_path),
        stderr_path: Some(stderr_path),
        restart_delay_ms: 0,
        throttle_ms: DEFAULT_THROTTLE_MS,
        stop_timeout_ms: DEFAULT_STOP_TIMEOUT_MS,
    };
    let registration = ServiceRegistration {
        name: String::from_str(service_name),
        display_name: display,
        process_model: ProcessModel::OwnProcess,
        start_mode: StartMode::Automatic,
        error_severity: ErrorSeverity::Normal,
        executable_path: strip_unc_prefix(self_exe),
        launch_arguments: launch,
        dependencies: Vec::new(),
        account: None,
    };
    InstallPlan { registration, log_dir: dir, config }
}

/// Where the last `/` of `s` stands, or -1 when it has none.
pub open spec fn last_slash(s: Seq<char>) -> int
    decreases s.len(),
{
    if s.len() == 0 {
        -1
    } else if s.last() == '/' {
        s.len() - 1
    } else {
        last_slash(s.drop_last())
    }
}

/// A final path component that every platform reads alike: non-empty, without
/// `/`, `\` or `:`, and neither `.` nor `..`.
pub open spec fn plain_name(f: Seq<char>) -> bool {
    &&& f.len() > 0
    &&& forall|i: int| 0 <= i < f.len() ==> f[i] != '/' && f[i] != '\\' && f[i] != ':'
    &&& f != seq!['.']
    &&& f != seq!['.', '.']
}

/// A directory path that every platform reads alike: non-empty, without `\`,
/// with no `:` except as a drive letter followed by `/` (`C:/...`), not beginning
/// with `//` (a network prefix on Windows), not ending in `/`, and with no `.` or
/// `..` component.
pub open spec fn plain_dir(d: Seq<char>) -> bool {
    &&& d.len() > 0
    &&& forall|i: int| 0 <= i < d.len() ==> #[trigger] d[i] != '\\' && (d[i] == ':' ==> i == 1 && d.len() > 2 && d[2] == '/')
    &&& !(d.len() >= 2 && d[0] == '/' && d[1] == '/')
    &&& d.last() != '/'
    &&& forall|i: int, j: int|
        #![trigger d.subrange(i, j)]
        0 <= i <= j <= d.len() && (i == 0 || d[i - 1] == '/') && (j == d.len() || d[j] == '/') && (forall|k: int|
            i <= k < j ==> d[k] != '/') ==> d.subrange(i, j) != seq!['.'] && d.subrange(i, j) != seq!['.', '.']
}

/// The parent of `path` where every platform agrees on it: when `path` is a plain
/// directory, a `/`, and a plain final name, the parent is that directory.
pub open spec fn portable_parent(path: Seq<char>) -> Option<Seq<char>> {
    let k = last_slash(path);
    if 0 <= k && plain_dir(path.subrange(0, k)) && plain_name(path.subrange(k + 1, path.len() as int)) {
        Some(path.subrange(0, k))
    } else {
        None
    }
}

proof fn lemma_last_slash_of_join(d: Seq<char>, f: Seq<char>)
    requires
        forall|i: int| 0 <= i < f.len() ==> f[i] != '/',
    ensures
        last_slash(d + seq!['/'] + f) == d.len(),
    decreases f.len(),
{
    let s = d + seq!['/'] + f;
    if f.len() == 0 {
        assert(s.last() == '/');
    } else {
        let f0 = f.drop_last();
        lemma_last_slash_of_join(d, f0);
        assert(s.drop_last() =~= d + seq!['/'] + f0);
        assert(s.last() == f[f.len() - 1]);
    }
}

/// A program at `d/f`, with `d` a plain directory and `f` a plain name, has `d` as
/// its parent directory on every platform.
pub proof fn law_parent_of_plain_path(d: Seq<char>, f: Seq<char>)
    requires
        plain_dir(d),
        plain_name(f),
    ensures
        portable_parent(d + seq!['/'] + f) == Some(d),
{
    lemma_last_slash_of_join(d, f);
    let s = d + seq!['/'] + f;
    let k = d.len() as int;
    assert(s.subrange(0, k) =~= d);
    assert(s.subrange(k + 1, s.len() as int) =~= f);
}

/// Calls `std::path::Path::parent` on `path`, and turns the parent into a string
/// as `to_string_lossy` does (without loss here, since `path` is a `&str`). The
/// contract claims what the documentation of `Path::parent` says on every platform:
/// the empty path has no parent, and a parent is "the path without its final
/// component", so a strictly shorter beginning of `path`; and since `/` separates
/// components on every platform, a plain directory followed by `/` and a plain name
/// has that directory as its parent ([`portable_parent`]). Which beginning other
/// paths give depends on the platform's separators and prefixes and is left unsaid.
#[verifier::external_body]
fn path_parent(path: &str) -> (res: Option<String>)
    ensures
        path@.len() == 0 ==> res is None,
        res matches Some(p) ==> p@.len() < path@.len() && p@ == path@.subrange(0, p@.len() as int),
        portable_parent(path@) is Some ==> opt_view(res) == portable_parent(path@),
{
    match std::path::Path::new(path).parent() {
        Some(p) => Some(p.to_string_lossy().to_string()),
        None => None,
    }
}

/// The working directory for a parent directory found (or not) for the program:
/// that directory, or empty when there is none.
pub fn working_dir_from_parent(parent: Option<String>) -> (res: String)
    ensures
        res@ == text_or_empty(opt_view(parent)),
{
    match parent {
        Some(p) => p,
        None => String::new(),
    }
}

/// The working directory of an installed service: the directory of its program
/// (`std::path::Path::parent` of `exe_path`), or empty when there is none. It is
/// always a strictly shorter beginning of a non-empty `exe_path`, and empty for an
/// empty one. For a plain directory, `/` and a plain name it is that directory;
/// for other paths which beginning it is depends on the platform's path rules and
/// is not stated.
pub fn install_working_dir(exe_path: &str) -> (res: String)
    ensures
        exe_path@.len() == 0 ==> res@.len() == 0,
        portable_parent(exe_path@) matches Some(d) ==> res@ == d,
        exe_path@.len() > 0 ==> res@.len() < exe_path@.len() && res@ == exe_path@.subrange(0, res@.len() as int),
{
    working_dir_from_parent(path_parent(exe_path))
}

/// The lines `install` prints once the service is installed.
pub open spec fn install_report(service_name: Seq<char>, config: ServiceConfigView, log_dir: Seq<char>) -> Seq<
    Seq<char>,
> {
    let head = seq![
        "Service '"@ + service_name + "' installed successfully."@,
        "  Executable: "@ + config.exe_path,
    ];
    let with_args = if config.arguments.len() == 0 {
        head
    } else {
        head.push("  Arguments:  "@ + config.arguments)
    };
    with_args + seq!["  Logs:       "@ + log_dir, seq![], "Start it with: nssm-rs start "@ + service_name]
}

/// What `install` prints: the success line with the service's name, the program,
/// an arguments line exactly when there are arguments, the log directory, an empty
/// line, and how to start the service.
pub proof fn law_install_report_lines(service_name: Seq<char>, config: ServiceConfigView, log_dir: Seq<char>)
    ensures
        ({
            let lines = install_report(service_name, config, log_dir);
            let k: int = if config.arguments.len() > 0 { 1 } else { 0 };
            &&& lines.len() == 5 + k
            &&& lines[0] == "Service '"@ + service_name + "' installed successfully."@
            &&& lines[1] == "  Executable: "@ + config.exe_path
            &&& k == 1 ==> lines[2] == "  Arguments:  "@ + config.arguments
            &&& lines[2 + k] == "  Logs:       "@ + log_dir
            &&& lines[3 + k] == Seq::<char>::empty()
            &&& lines[4 + k] == "Start it with: nssm-rs start "@ + service_name
        }),
{
}

/// Writes the lines `install` prints once the service is installed.
pub fn install_report_lines(service_name: &str, config: &ServiceConfig, log_dir: &str) -> (res: Vec<String>)
    ensures
        string_views(res@) == install_report(service_name@, config@, log_dir@),
{
    let mut lines: Vec<String> = Vec::new();
    let mut first = String::from_str("Service '");
    first.append(service_name);
    first.append("' installed successfully.");
    lines.push(first);
    let mut exe = String::from_str("  Executable: ");
    exe.append(config.exe_path.as_str());
    lines.push(exe);
    if config.arguments.as_str().unicode_len() != 0 {
        let mut a = String::from_str("  Arguments:  ");
        a.append(config.arguments.as_str());
        lines.push(a);
    }
    let mut logs = String::from_str("  Logs:       ");
    logs.append(log_dir);
    lines.push(logs);
    lines.push(String::new());
    let mut hint = String::from_str("Start it with: nssm-rs start ");
    hint.append(service_name);
    lines.push(hint);
    assert(string_views(lines@) =~= install_report(service_name@, config@, log_dir@));
    lines
}

// ---------------------------------------------------------------------------
// status and list

/// The state of a service as the service control manager reports it.
#[derive(Clone, Copy, Debug, PartialEq, Eq, Structural)]
pub enum ServiceState {
    Stopped,
    StartPending,
    StopPending,
    Running,
    ContinuePending,
    PausePending,
    Paused,
}

/// How `status` names a state.
pub open spec fn status_label(state: ServiceState) -> Seq<char> {
    match state {
        ServiceState::Stopped => "STOPPED"@,
        ServiceState::StartPending => "START_PENDING"@,
        ServiceState::StopPending => "STOP_PENDING"@,
        ServiceState::Running => "RUNNING"@,
        ServiceState::ContinuePending => "CONTINUE_PENDING"@,
        ServiceState::PausePending => "PAUSE_PENDING"@,
        ServiceState::Paused => "PAUSED"@,
    }
}

/// Names a state as `status` does.
pub fn status_state_label(state: ServiceState) -> (res: String)
    ensures
        res@ == status_label(state),
{
    match state {
        ServiceState::Stopped => String::from_str("STOPPED"),
        ServiceState::StartPending => String::from_str("START_PENDING"),
        ServiceState::StopPending => String::from_str("STOP_PENDING"),
        ServiceState::Running => String::from_str("RUNNING"),
        ServiceState::ContinuePending => String::from_str("CONTINUE_PENDING"),
        ServiceState::PausePending => String::from_str("PAUSE_PENDING"),
        ServiceState::Paused => String::from_str("PAUSED"),
    }
}

/// The lines `status` prints: the name and state, then, when the configuration
/// could be read, the program, the arguments unless empty, and the stdout log if set.
pub open spec fn status_report(name: Seq<char>, state: ServiceState, config: Option<ServiceConfigView>) -> Seq<
    Seq<char>,
> {
    let head = seq!["Service: "@ + name, "State:   "@ + status_label(state)];
    match config {
        None => head,
        Some(c) => {
            let with_exe = head.push("Exe:     "@ + c.exe_path);
            let with_args = if c.arguments.len() == 0 {
                with_exe
            } else {
                with_exe.push("Args:    "@ + c.arguments)
            };
            match c.stdout_path {
                Some(p) => with_args.push("Stdout:  "@ + p),
                None => with_args,
            }
        },
    }
}

/// What `status` prints: the name, then the state, always; with a configuration,
/// the program line, then an arguments line exactly when there are arguments, and
/// a stdout line, last, exactly when a stdout log is set, whatever the arguments.
pub proof fn law_status_report_lines(name: Seq<char>, state: ServiceState, config: Option<ServiceConfigView>)
    ensures
        ({
            let lines = status_report(name, state, config);
            &&& lines.len() >= 2
            &&& lines[0] == "Service: "@ + name
            &&& lines[1] == "State:   "@ + status_label(state)
            &&& config is None ==> lines.len() == 2
            &&& config matches Some(c) ==> {
                let has_args = c.arguments.len() > 0;
                &&& lines.len() == 3 + (if has_args { 1int } else { 0 }) + (if c.stdout_path is Some { 1int } else { 0 })
                &&& lines[2] == "Exe:     "@ + c.exe_path
                &&& has_args ==> lines[3] == "Args:    "@ + c.arguments
                &&& c.stdout_path matches Some(p) ==> lines.last() == "Stdout:  "@ + p
            }
        }),
{
}

/// The view of an optional configuration.
pub open spec fn opt_config_view(c: Option<&ServiceConfig>) -> Option<ServiceConfigView> {
    match c {
        Some(x) => Some(x@),
        None => None,
    }
}

fn labelled(label: &str, value: &str) -> (res: String)
    ensures
        res@ == label@ + value@,
{
    let mut line = String::from_str(label);
    line.append(value);
    line
}

/// Writes the lines `status` prints.
pub fn status_report_lines(name: &str, state: ServiceState, config: Option<&ServiceConfig>) -> (res: Vec<String>)
    ensures
        string_views(res@) == status_report(name@, state, opt_config_view(config)),
{
    let mut lines: Vec<String> = Vec::new();
    lines.push(labelled("Service: ", name));
    let label = status_state_label(state);
    lines.push(labelled("State:   ", label.as_str()));
    let ghost head = string_views(lines@);
    if let Some(c) = config {
        lines.push(labelled("Exe:     ", c.exe_path.as_str()));
        let ghost with_exe = string_views(lines@);
        if c.arguments.as_str().unicode_len() != 0 {
            lines.push(labelled("Args:    ", c.arguments.as_str()));
        }
        let ghost with_args = string_views(lines@);
        assert(with_args =~= if c@.arguments.len() == 0 {
            with_exe
        } else {
            with_exe.push("Args:    "@ + c@.arguments)
        });
        if let Some(p) = &c.stdout_path {
            lines.push(labelled("Stdout:  ", p.as_str()));
        }
        assert(string_views(lines@) =~= match c@.stdout_path {
            Some(p) => with_args.push("Stdout:  "@ + p),
            None => with_args,
        });
    }
    assert(string_views(lines@) =~= status_report(name@, state, opt_config_view(config)));
    lines
}

/// What `list` learned of a service's state.
#[derive(Clone, Copy, Debug, PartialEq, Eq, Structural)]
pub enum StateQuery {
    /// The service could not be opened.
    Unavailable,
    /// The service was opened but its status could not be queried.
    QueryFailed,
    /// The service's state.
    Known(ServiceState),
}

/// How `list` names what it learned of a state.
pub open spec fn list_label(q: StateQuery) -> Seq<char> {
    match q {
        StateQuery::Unavailable => "N/A"@,
        StateQuery::QueryFailed => "ERROR"@,
        StateQuery::Known(state) => match state {
            ServiceState::Running => "RUNNING"@,
            ServiceState::Stopped => "STOPPED"@,
            ServiceState::StartPending => "STARTING"@,
            ServiceState::StopPending => "STOPPING"@,
            ServiceState::Paused => "PAUSED"@,
            _ => "UNKNOWN"@,
        },
    }
}

/// Names a state as `list` does.
pub fn list_state_label(q: StateQuery) -> (res: String)
    ensures
        res@ == list_label(q),
{
    match q {
        StateQuery::Unavailable => String::from_str("N/A"),
        StateQuery::QueryFailed => String::from_str("ERROR"),
        StateQuery::Known(state) => match state {
            ServiceState::Running => String::from_str("RUNNING"),
            ServiceState::Stopped => String::from_str("STOPPED"),
            ServiceState::StartPending => String::from_str("STARTING"),
            ServiceState::StopPending => String::from_str("STOPPING"),
            ServiceState::Paused => String::from_str("PAUSED"),
            _ => String::from_str("UNKNOWN"),
        },
    }
}

/// One row of the `list` table: the name in 30 columns, the state in 15, then the
/// program, separated by single spaces.
pub open spec fn table_row(name: Seq<char>, state: Seq<char>, exe: Seq<char>) -> Seq<char> {
    padded(name, 30) + " "@ + padded(state, 15) + " "@ + exe
}

/// A row of the `list` table: the name, padded with spaces to 30 columns, a space,
/// the state, padded with spaces to 15 columns, a space, and the program at the end.
pub proof fn law_table_row_columns(name: Seq<char>, state: Seq<char>, exe: Seq<char>)
    ensures
        ({
            let row = table_row(name, state, exe);
            let w1: int = if name.len() < 30 { 30 } else { name.len() as int };
            let w2: int = if state.len() < 15 { 15 } else { state.len() as int };
            &&& row.len() == w1 + 1 + w2 + 1 + exe.len()
            &&& row.subrange(0, name.len() as int) == name
            &&& forall|i: int| name.len() <= i <= w1 ==> #[trigger] row[i] == ' '
            &&& row.subrange(w1 + 1, w1 + 1 + state.len()) == state
            &&& forall|i: int| w1 + 1 + state.len() <= i <= w1 + 1 + w2 ==> #[trigger] row[i] == ' '
            &&& row.subrange(w1 + w2 + 2, row.len() as int) == exe
        }),
{
    reveal_strlit(" ");
    law_padded_shape(name, 30);
    law_padded_shape(state, 15);
    let p1 = padded(name, 30);
    let p2 = padded(state, 15);
    let row = table_row(name, state, exe);
    let w1 = p1.len() as int;
    let w2 = p2.len() as int;
    assert(" "@ =~= seq![' ']);
    assert(row =~= p1 + seq![' '] + p2 + seq![' '] + exe);
    assert(row.subrange(0, name.len() as int) =~= p1.subrange(0, name.len() as int));
    assert forall|i: int| name.len() <= i <= w1 implies #[trigger] row[i] == ' ' by {
        if i < w1 {
            assert(row[i] == p1[i]);
        }
    }
    assert(row.subrange(w1 + 1, w1 + 1 + state.len()) =~= p2.subrange(0, state.len() as int));
    assert forall|i: int| w1 + 1 + state.len() <= i <= w1 + 1 + w2 implies #[trigger] row[i] == ' ' by {
        if i < w1 + 1 + w2 {
            assert(row[i] == p2[i - w1 - 1]);
        }
    }
    assert(row.subrange(w1 + w2 + 2, row.len() as int) =~= exe);
}

/// Writes one row of the `list` table.
pub fn format_table_row(name: &str, state: &str, exe: &str) -> (res: String)
    ensures
        res@ == table_row(name@, state@, exe@),
{
    let mut row = pad_right(name, 30);
    row.append(" ");
    let state_col = pad_right(state, 15);
    row.append(state_col.as_str());
    row.append(" ");
    row.append(exe);
    row
}

/// A managed service as `list` shows it: its name, its state, and its program when
/// the configuration could be read.
pub struct ListEntry {
    pub name: String,
    pub state: StateQuery,
    pub exe_path: Option<String>,
}

/// The program column of a row: the program, or `?` when the configuration could not be read.
pub open spec fn exe_column(exe: Option<Seq<char>>) -> Seq<char> {
    match exe {
        Some(e) => e,
        None => "?"@,
    }
}

/// The rows of the table, one per entry, in order.
pub open spec fn table_rows(entries: Seq<ListEntry>) -> Seq<Seq<char>> {
    entries.map_values(|e: ListEntry| table_row(e.name@, list_label(e.state), exe_column(opt_view(e.exe_path))))
}

/// What `list` prints: a notice when no service is managed; otherwise a header,
/// a rule of 80 dashes, and a row per service.
pub open spec fn list_report(entries: Seq<ListEntry>) -> Seq<Seq<char>> {
    if entries.len() == 0 {
        seq!["No services managed by nssm-rs."@]
    } else {
        seq![table_row("SERVICE"@, "STATE"@, "EXECUTABLE"@), repeated("-"@, 80)] + table_rows(entries)
    }
}

/// What `list` prints: with no managed service, only the notice; otherwise the
/// header row, a rule of 80 dashes, and then, in order, one row per service with
/// its name, its state as `list` names it, and its program (`?` when unknown).
pub proof fn law_list_report_lines(entries: Seq<ListEntry>)
    ensures
        ({
            let lines = list_report(entries);
            &&& entries.len() == 0 ==> lines == seq!["No services managed by nssm-rs."@]
            &&& entries.len() > 0 ==> {
                &&& lines.len() == entries.len() + 2
                &&& lines[0] == table_row("SERVICE"@, "STATE"@, "EXECUTABLE"@)
                &&& lines[1].len() == 80
                &&& forall|k: int| 0 <= k < 80 ==> #[trigger] lines[1][k] == '-'
                &&& forall|i: int|
                    0 <= i < entries.len() ==> #[trigger] lines[i + 2] == table_row(
                        entries[i].name@,
                        list_label(entries[i].state),
                        exe_column(opt_view(entries[i].exe_path)),
                    )
            }
        }),
{
    reveal_strlit("-");
    law_repeated_copies("-"@, 80);
    if entries.len() > 0 {
        let lines = list_report(entries);
        assert forall|k: int| 0 <= k < 80 implies #[trigger] lines[1][k] == '-' by {
            assert(lines[1] == repeated("-"@, 80));
            assert(k % 1 == 0);
        }
        assert forall|i: int| 0 <= i < entries.len() implies #[trigger] lines[i + 2] == table_row(
            entries[i].name@,
            list_label(entries[i].state),
            exe_column(opt_view(entries[i].exe_path)),
        ) by {
            assert(lines[i + 2] == table_rows(entries)[i]);
        }
    }
}

/// Writes what `list` prints.
pub fn list_report_lines(entries: &Vec<ListEntry>) -> (res: Vec<String>)
    ensures
        string_views(res@) == list_report(entries@),
{
    let mut lines: Vec<String> = Vec::new();
    if entries.len() == 0 {
        lines.push(String::from_str("No services managed by nssm-rs."));
        assert(string_views(lines@) =~= list_report(entries@));
        return lines;
    }
    lines.push(format_table_row("SERVICE", "STATE", "EXECUTABLE"));
    lines.push(repeat("-", 80));
    let mut i: usize = 0;
    while i < entries.len()
        invariant
            i <= entries.len(),
            entries.len() > 0,
            string_views(lines@) == seq![table_row("SERVICE"@, "STATE"@, "EXECUTABLE"@), repeated("-"@, 80)]
                + table_rows(entries@.take(i as int)),
        decreases entries.len() - i,
    {
        let e = &entries[i];
        let label = list_state_label(e.state);
        let exe = match &e.exe_path {
            Some(p) => p.clone(),
            None => String::from_str("?"),
        };
        let ghost prev = string_views(lines@);
        let row = format_table_row(e.name.as_str(), label.as_str(), exe.as_str());
        lines.push(row);
        assert(table_rows(entries@.take(i + 1)) =~= table_rows(entries@.take(i as int)).push(row@));
        assert(string_views(lines@) =~= prev.push(row@));
        i = i + 1;
    }
    assert(entries@.take(entries.len() as int) =~= entries@);
    lines
}

// ---------------------------------------------------------------------------
// remove and stop

/// `remove` asks a service to stop first unless it is already stopped.
pub fn needs_stop_before_remove(state: ServiceState) -> (res: bool)
    ensures
        res == (state != ServiceState::Stopped),
{
    !matches!(state, ServiceState::Stopped)
}

/// `Service '<name>'` followed by `tail`.
pub open spec fn service_message(name: Seq<char>, tail: Seq<char>) -> Seq<char> {
    "Service '"@ + name + "'"@ + tail
}

fn service_line(name: &str, tail: &str) -> (res: String)
    ensures
        res@ == service_message(name@, tail@),
{
    let mut line = String::from_str("Service '");
    line.append(name);
    line.append("'");
    line.append(tail);
    line
}

/// What `remove` prints before it asks a running service to stop.
pub fn stopping_message(name: &str) -> (res: String)
    ensures
        res@ == "Stopping service '"@ + name@ + "'..."@,
{
    let mut line = String::from_str("Stopping service '");
    line.append(name);
    line.append("'...");
    line
}

/// What `remove` prints once the service is deleted.
pub fn removed_message(name: &str) -> (res: String)
    ensures
        res@ == service_message(name@, " removed successfully."@),
{
    service_line(name, " removed successfully.")
}

/// What `stop` prints once the service is stopped.
pub fn stopped_message(name: &str) -> (res: String)
    ensures
        res@ == service_message(name@, " stopped."@),
{
    service_line(name, " stopped.")
}

// ---------------------------------------------------------------------------
// From installation to the running program

proof fn lemma_separators_dropped_keep_words(args: Seq<Seq<char>>)
    requires
        forall|i: int| 0 <= i < args.len() ==> is_word(#[trigger] args[i]),
    ensures
        forall|i: int|
            0 <= i < without_separators(args).len() ==> is_word(#[trigger] without_separators(args)[i]),
    decreases args.len(),
{
    if args.len() > 0 {
        let init = args.drop_last();
        assert forall|i: int| 0 <= i < init.len() implies is_word(#[trigger] init[i]) by {
            assert(init[i] == args[i]);
        }
        lemma_separators_dropped_keep_words(init);
        assert(is_word(args[args.len() - 1]));
        let rest = without_separators(init);
        let all = without_separators(args);
        assert forall|i: int| 0 <= i < all.len() implies is_word(#[trigger] all[i]) by {
            if i < rest.len() {
                assert(all[i] == rest[i]);
            } else {
                assert(all[i] == args.last());
            }
        }
    }
}

/// What `install` stores is what the service runs: the configuration reads back
/// from the registry unchanged (whatever the key held before, since an installation
/// always sets both log files), and when every argument is a single word the
/// program is started with exactly the arguments given, `--` separators left out.
pub proof fn law_install_reaches_program(
    exe_path: Seq<char>,
    working_dir: Seq<char>,
    service_name: Seq<char>,
    args: Seq<Seq<char>>,
    key: RegistryKeyView,
)
    ensures
        ({
            let c = installed_config(exe_path, working_dir, service_name, args);
            config_of(parameters_in(apply_writes(key, config_writes(c)))) == c
        }),
        (forall|i: int| 0 <= i < args.len() ==> is_word(#[trigger] args[i])) ==> words(
            installed_config(exe_path, working_dir, service_name, args).arguments,
        ) == without_separators(args),
{
    law_read_after_write(installed_config(exe_path, working_dir, service_name, args), key);
    if forall|i: int| 0 <= i < args.len() ==> is_word(#[trigger] args[i]) {
        lemma_separators_dropped_keep_words(args);
        law_split_undoes_join(without_separators(args));
    }
}

} // verus!
