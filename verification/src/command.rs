//! What a worker is started with: the runtime that runs it, its command
//! line and its environment.

use crate::text::{contains_text, decimal, decimal_text, occurs_in, owned};
use vstd::prelude::*;
use vstd::string::*;

verus! {

/// Number of runtime names that are tried.
pub const RUNTIME_CANDIDATE_COUNT: usize = 4;

/// The names under which a worker runtime is looked for, in the order in
/// which they are tried.
pub open spec fn runtime_candidates() -> Seq<Seq<char>> {
    seq!["python3"@, "python"@, "python.exe"@, "python3.exe"@]
}

/// The runtime name tried at position `index`.
pub fn runtime_candidate(index: usize) -> (name: &'static str)
    requires
        index < RUNTIME_CANDIDATE_COUNT,
    ensures
        name@ == runtime_candidates()[index as int],
{
    if index == 0 {
        "python3"
    } else if index == 1 {
        "python"
    } else if index == 2 {
        "python.exe"
    } else {
        "python3.exe"
    }
}

/// What the version check of a candidate runtime printed, and whether the
/// check exited successfully.
#[derive(Debug, PartialEq, Eq)]
pub struct RuntimeReport {
    pub success: bool,
    pub stdout: String,
}

/// What a [`RuntimeReport`] holds.
pub struct RuntimeReportView {
    pub success: bool,
    pub stdout: Seq<char>,
}

impl View for RuntimeReport {
    type V = RuntimeReportView;

    open spec fn view(&self) -> RuntimeReportView {
        RuntimeReportView { success: self.success, stdout: self.stdout@ }
    }
}

/// A candidate qualifies when its version check could be run, exited
/// successfully and announced a Python 3.
pub open spec fn usable_runtime(report: Option<RuntimeReportView>) -> bool {
    report matches Some(r) && r.success && occurs_in("Python 3."@, r.stdout)
}

/// What a version check gave, if it could be run.
pub open spec fn report_of(report: Option<RuntimeReport>) -> Option<RuntimeReportView> {
    match report {
        Some(r) => Some(r@),
        None => None,
    }
}

/// Whether the candidate with this version check qualifies.
pub fn is_usable_runtime(report: &Option<RuntimeReport>) -> (usable: bool)
    ensures
        usable == usable_runtime(report_of(*report)),
{
    match report {
        Some(r) => r.success && contains_text(r.stdout.as_str(), "Python 3."),
        None => false,
    }
}

/// The shared secret handed to workers: the configured one, or the built-in
/// fallback when none is configured.
pub fn resolve_vault_key(configured: Option<String>, fallback: &str) -> (key: String)
    ensures
        key@ == match configured {
            Some(k) => k@,
            None => fallback@,
        },
{
    match configured {
        Some(k) => k,
        None => owned(fallback),
    }
}

/// What the surrounding program knows and every worker is told.
#[derive(Debug, PartialEq, Eq)]
pub struct LaunchContext {
    /// The module search path: the resource directory.
    pub python_path: String,
    /// The data directory.
    pub data_dir: String,
    /// The shared secret.
    pub vault_key: String,
}

/// What a [`LaunchContext`] holds.
pub struct LaunchContextView {
    pub python_path: Seq<char>,
    pub data_dir: Seq<char>,
    pub vault_key: Seq<char>,
}

impl View for LaunchContext {
    type V = LaunchContextView;

    open spec fn view(&self) -> LaunchContextView {
        LaunchContextView {
            python_path: self.python_path@,
            data_dir: self.data_dir@,
            vault_key: self.vault_key@,
        }
    }
}

/// One variable of a worker's environment.
#[derive(Debug, PartialEq, Eq)]
pub struct EnvVar {
    pub name: String,
    pub value: String,
}

/// What a standard stream of a worker is connected to.
#[derive(Clone, Copy, Debug, PartialEq, Eq, Structural)]
pub enum StreamMode {
    /// Nothing: the stream is closed.
    Null,
    /// A pipe that the supervisor holds, so that the worker does not write
    /// to the supervisor's console.
    Piped,
}

/// The command line, the environment and the standard streams with which a
/// worker is spawned.
#[derive(Debug, PartialEq, Eq)]
pub struct LaunchCommand {
    pub program: String,
    pub args: Vec<String>,
    pub env: Vec<EnvVar>,
    pub stdin: StreamMode,
    pub stdout: StreamMode,
    pub stderr: StreamMode,
}

/// What a [`LaunchCommand`] holds.
pub struct LaunchCommandView {
    pub program: Seq<char>,
    pub args: Seq<Seq<char>>,
    pub env: Seq<(Seq<char>, Seq<char>)>,
    pub stdin: StreamMode,
    pub stdout: StreamMode,
    pub stderr: StreamMode,
}

/// The characters of each text of a list.
pub open spec fn texts(list: Seq<String>) -> Seq<Seq<char>> {
    list.map_values(|text: String| text@)
}

/// Name and value of each variable of a list.
pub open spec fn bindings(list: Seq<EnvVar>) -> Seq<(Seq<char>, Seq<char>)> {
    list.map_values(|var: EnvVar| (var.name@, var.value@))
}

impl View for LaunchCommand {
    type V = LaunchCommandView;

    open spec fn view(&self) -> LaunchCommandView {
        LaunchCommandView {
            program: self.program@,
            args: texts(self.args@),
            env: bindings(self.env@),
            stdin: self.stdin,
            stdout: self.stdout,
            stderr: self.stderr,
        }
    }
}

/// The command that runs the entry point `script` under `runtime`, bound to
/// the local host and to `port`, with the secret, the module search path and
/// the data directory in its environment, its input closed and its output
/// captured in pipes.
pub open spec fn command_for(
    runtime: Seq<char>,
    script: Seq<char>,
    port: u16,
    context: LaunchContextView,
) -> LaunchCommandView {
    LaunchCommandView {
        program: runtime,
        args: seq![script, "--host"@, "127.0.0.1"@, "--port"@, decimal(port as nat)],
        env: seq![
            ("HEARTHLINK_VAULT_KEY"@, context.vault_key),
            ("PYTHONPATH"@, context.python_path),
            ("HEARTHLINK_DATA_DIR"@, context.data_dir),
        ],
        stdin: StreamMode::Null,
        stdout: StreamMode::Piped,
        stderr: StreamMode::Piped,
    }
}

fn push_text(list: &mut Vec<String>, text: String)
    ensures
        texts(final(list)@) == texts(old(list)@).push(text@),
{
    list.push(text);
    assert(texts(list@) =~= texts(old(list)@).push(text@));
}

fn push_binding(list: &mut Vec<EnvVar>, name: &str, value: &String)
    ensures
        bindings(final(list)@) == bindings(old(list)@).push((name@, value@)),
{
    let var = EnvVar { name: owned(name), value: value.clone() };
    list.push(var);
    assert(bindings(list@) =~= bindings(old(list)@).push((name@, value@)));
}

/// Builds the command that runs the entry point `script` under `runtime`.
pub fn build_command(
    runtime: &String,
    script: &String,
    port: u16,
    context: &LaunchContext,
) -> (command: LaunchCommand)
    ensures
        command@ == command_for(runtime@, script@, port, context@),
{
    let mut args: Vec<String> = Vec::new();
    assert(texts(args@) =~= Seq::empty());
    push_text(&mut args, script.clone());
    push_text(&mut args, owned("--host"));
    push_text(&mut args, owned("127.0.0.1"));
    push_text(&mut args, owned("--port"));
    push_text(&mut args, decimal_text(port as u64));
    let mut env: Vec<EnvVar> = Vec::new();
    assert(bindings(env@) =~= Seq::empty());
    push_binding(&mut env, "HEARTHLINK_VAULT_KEY", &context.vault_key);
    push_binding(&mut env, "PYTHONPATH", &context.python_path);
    push_binding(&mut env, "HEARTHLINK_DATA_DIR", &context.data_dir);
    let command = LaunchCommand {
        program: runtime.clone(),
        args,
        env,
        stdin: StreamMode::Null,
        stdout: StreamMode::Piped,
        stderr: StreamMode::Piped,
    };
    assert(command@.args =~= command_for(runtime@, script@, port, context@).args);
    assert(command@.env =~= command_for(runtime@, script@, port, context@).env);
    command
}

} // verus!
