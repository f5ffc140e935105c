//! The command line: the commands the tool understands and their arguments.
use vstd::prelude::*;

verus! {

/// Seconds `restart` waits between stopping and starting the service.
pub const RESTART_PAUSE_SECS: u64 = 2;

/// The parsed command line.
pub struct Cli {
    pub command: Commands,
}

/// The commands.
pub enum Commands {
    /// Install a new service wrapping an executable.
    Install {
        /// Name of the Windows service.
        service_name: String,
        /// Path to the executable to wrap.
        exe_path: String,
        /// Arguments to pass to the executable (`--` before arguments that start with `-`).
        args: Vec<String>,
    },
    /// Remove an installed service.
    Remove { service_name: String },
    /// Start a service.
    Start { service_name: String },
    /// Stop a service.
    Stop { service_name: String },
    /// Restart a service (stop, pause, start).
    Restart { service_name: String },
    /// Show the status of a service.
    Status { service_name: String },
    /// List all services managed by this tool.
    List,
    /// Run as a Windows service (how the service control manager starts the tool).
    Service { name: String },
}

} // verus!
