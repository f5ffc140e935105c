//! How the wrapped program is started: its command line, its working directory and
//! where its output goes.
use vstd::prelude::*;
use vstd::string::*;
use crate::config::{ServiceConfig, opt_view};
use crate::text::{split_words, string_views, words};

verus! {

/// Where an output stream of the program goes.
#[derive(Debug)]
pub enum OutputTarget {
    /// Nowhere.
    Discard,
    /// Appended to this file, which is created when missing (and its directory too).
    AppendTo(String),
}

/// An output target as plain data: `None` discards, `Some(path)` appends to `path`.
pub open spec fn target_view(t: OutputTarget) -> Option<Seq<char>> {
    match t {
        OutputTarget::Discard => None,
        OutputTarget::AppendTo(p) => Some(p@),
    }
}

/// Everything needed to start the program. Its standard input is always empty.
#[derive(Debug)]
pub struct LaunchPlan {
    pub program: String,
    pub args: Vec<String>,
    pub working_dir: Option<String>,
    pub stdout: OutputTarget,
    pub stderr: OutputTarget,
}

fn target_for(path: &Option<String>) -> (res: OutputTarget)
    ensures
        target_view(res) == opt_view(*path),
{
    match path {
        Some(p) => OutputTarget::AppendTo(p.clone()),
        None => OutputTarget::Discard,
    }
}

/// How a configuration is started: the program, its arguments split at white space,
/// its working directory unless that is empty (then it inherits the service's),
/// and each output stream appended to its log file, or discarded when it has none.
pub fn plan_launch(config: &ServiceConfig) -> (res: LaunchPlan)
    ensures
        res.program@ == config@.exe_path,
        string_views(res.args@) == words(config@.arguments),
        opt_view(res.working_dir) == (if config@.working_dir.len() == 0 {
            None
        } else {
            Some(config@.working_dir)
        }),
        target_view(res.stdout) == config@.stdout_path,
        target_view(res.stderr) == config@.stderr_path,
{
    let args = split_words(config.arguments.as_str());
    let working_dir = if config.working_dir.as_str().unicode_len() == 0 {
        None
    } else {
        Some(config.working_dir.clone())
    };
    LaunchPlan {
        program: config.exe_path.clone(),
        args,
        working_dir,
        stdout: target_for(&config.stdout_path),
        stderr: target_for(&config.stderr_path),
    }
}

} // verus!
