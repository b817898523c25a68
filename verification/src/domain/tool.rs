//! Tool execution domain: the sandbox configuration and the request and
//! response of a local command.

use vstd::prelude::*;
use vstd::string::*;

use crate::domain::task::NANOS_PER_SEC;

verus! {

/// Configuration for the tool executor sandbox. Deny-by-default: only
/// commands in `allowed_commands` can run, and `denied_commands` overrides it.
#[derive(Debug, Clone)]
pub struct ToolExecutorConfig {
    /// Whether tool execution is enabled at all.
    pub enabled: bool,
    /// Allowlist of command basenames (a set: order and repeats do not matter).
    pub allowed_commands: Vec<String>,
    /// Denylist (overrides allowlist).
    pub denied_commands: Vec<String>,
    /// Restricted working directory. Commands run inside this dir.
    pub working_dir: String,
    /// Maximum execution time per command, in nanoseconds.
    pub timeout: u128,
    /// Maximum stdout size in bytes.
    pub max_stdout_bytes: usize,
    /// Maximum stderr size in bytes.
    pub max_stderr_bytes: usize,
    /// If true, commands are logged but not actually executed.
    pub dry_run: bool,
}

impl Default for ToolExecutorConfig {
    fn default() -> (c: ToolExecutorConfig)
        ensures
            !c.enabled,
            c.allowed_commands@.len() == 0,
            c.denied_commands@.len() == 0,
            c.working_dir@ == "."@,
            c.timeout == 30 * NANOS_PER_SEC,
            c.max_stdout_bytes == 1024 * 1024,
            c.max_stderr_bytes == 256 * 1024,
            !c.dry_run,
    {
        ToolExecutorConfig {
            enabled: false,
            allowed_commands: Vec::new(),
            denied_commands: Vec::new(),
            working_dir: String::from_str("."),
            timeout: 30 * NANOS_PER_SEC,
            max_stdout_bytes: 1024 * 1024,
            max_stderr_bytes: 256 * 1024,
            dry_run: false,
        }
    }
}

/// A request to execute a local tool/command.
#[derive(Debug, Clone)]
pub struct ToolRequest {
    /// The command basename (e.g. `"git"`).
    pub command: String,
    /// Arguments (each element is one argument; no shell concatenation).
    pub args: Vec<String>,
    /// Optional working directory override.
    pub working_dir: Option<String>,
    /// Optional timeout override, in nanoseconds.
    pub timeout: Option<u128>,
}

/// The result of a tool execution.
#[derive(Debug, Clone)]
pub struct ToolResponse {
    /// Exit code of the process.
    pub exit_code: i32,
    /// Captured stdout (truncated to `max_stdout_bytes`).
    pub stdout: String,
    /// Captured stderr (truncated to `max_stderr_bytes`).
    pub stderr: String,
    /// Wall-clock duration, in nanoseconds.
    pub duration: u128,
    /// Whether the output was truncated.
    pub truncated: bool,
    /// Whether this was a dry-run (command not actually executed).
    pub dry_run: bool,
}

} // verus!
