//! The trusted boundary to `xshell`, the process-execution and
//! environment-override primitive this crate builds on.
//!
//! Every function here only forwards one `xshell` operation; what the
//! library decides (which program to run, with which arguments, at which
//! path) is computed and verified elsewhere and handed in as plain values.

use vstd::prelude::*;
use xshell::Error as XshellError;

verus! {

/// `xshell::Shell`: the execution context that spawns processes and
/// carries the scoped environment-variable overrides.
#[verifier::external_type_specification]
#[verifier::external_body]
pub struct ExShell(xshell::Shell);

/// `xshell::PushEnv`: the token returned by `Shell::push_env`; dropping
/// it restores the previous value (or absence) of the variable.
#[verifier::external_type_specification]
#[verifier::external_body]
pub struct ExPushEnv<'a>(xshell::PushEnv<'a>);

/// `xshell::Error`: the error of a failed shell operation.
#[verifier::external_type_specification]
#[verifier::external_body]
pub struct ExXshellError(XshellError);

/// Relies on `xshell::Error`'s `Display` impl: the diagnostic text of a
/// failed shell operation.
#[verifier::external_body]
pub(crate) fn xshell_error_message(e: &XshellError) -> String {
    e.to_string()
}

/// Relies on `xshell::Shell::var`: the value of an environment variable
/// as the shell sees it (its own overrides first, the process
/// environment behind them). `None` when the variable is unset or not
/// unicode.
#[verifier::external_body]
pub(crate) fn shell_var(sh: &xshell::Shell, key: &str) -> Option<String> {
    sh.var(key).ok()
}

/// Relies on `xshell::Shell::create_dir`: creates the directory and all
/// missing ancestors, like `mkdir -p`.
#[verifier::external_body]
pub(crate) fn shell_create_dir(sh: &xshell::Shell, path: &str) -> Result<(), XshellError> {
    sh.create_dir(path).map(|_| ())
}

/// Relies on `xshell::Shell::path_exists`: whether a file exists at the
/// path right now.
#[verifier::external_body]
pub(crate) fn shell_path_exists(sh: &xshell::Shell, path: &str) -> bool {
    sh.path_exists(path)
}

/// Relies on `xshell::Shell::push_env`: overrides an environment
/// variable for all commands the shell spawns, until the returned token
/// is dropped.
#[verifier::external_body]
pub(crate) fn shell_push_env<'a>(sh: &'a xshell::Shell, key: &str, val: &str) -> xshell::PushEnv<'a> {
    sh.push_env(key, val)
}

/// Relies on `xshell::Cmd::run`: spawns `program args...` and waits;
/// `true` iff it spawned and exited with status zero. Used to probe
/// interpreter candidates, so the environment is passed through as is.
#[verifier::external_body]
pub(crate) fn probe_run(sh: &xshell::Shell, program: &str, args: &Vec<String>) -> bool {
    sh.cmd(program).args(args).run().is_ok()
}

/// Relies on `xshell::Cmd::read`: spawns `program args...` and captures
/// standard output, with one trailing newline or carriage return
/// trimmed; `None` if the process failed. Used to probe interpreter
/// candidates, so the environment is passed through as is.
#[verifier::external_body]
pub(crate) fn probe_read(sh: &xshell::Shell, program: &str, args: &Vec<String>) -> Option<String> {
    sh.cmd(program).args(args).read().ok()
}

/// Relies on `xshell::Cmd::run`: spawns `program args...` and waits,
/// surfacing the error of a failed spawn or a non-zero exit verbatim.
/// Used for the bootstrap invocation, so the environment is passed
/// through as is.
#[verifier::external_body]
pub(crate) fn cmd_run(sh: &xshell::Shell, program: &str, args: &Vec<String>) -> Result<(), XshellError> {
    sh.cmd(program).args(args).run()
}

/// Relies on `xshell::Cmd::run` and `env_remove`: spawns
/// `program args...` with the variable named `scrub` removed from the
/// child's environment.
#[verifier::external_body]
pub(crate) fn venv_run(sh: &xshell::Shell, program: &str, args: &Vec<String>, scrub: &str) -> Result<(), XshellError> {
    sh.cmd(program).args(args).env_remove(scrub).run()
}

/// Relies on `xshell::Cmd::read` and `env_remove`: spawns
/// `program args...` with the variable named `scrub` removed,
/// capturing standard output with one trailing newline or carriage
/// return trimmed.
#[verifier::external_body]
pub(crate) fn venv_read(sh: &xshell::Shell, program: &str, args: &Vec<String>, scrub: &str) -> Result<String, XshellError> {
    sh.cmd(program).args(args).env_remove(scrub).read()
}

/// Relies on `xshell::Cmd::stdin`, `read` and `env_remove`: spawns
/// `program` with the variable named `scrub` removed, feeds `stdin` to
/// the child's standard input and captures standard output with one
/// trailing newline or carriage return trimmed.
#[verifier::external_body]
pub(crate) fn venv_read_stdin(sh: &xshell::Shell, program: &str, stdin: &str, scrub: &str) -> Result<String, XshellError> {
    sh.cmd(program).env_remove(scrub).stdin(stdin).read()
}

} // verus!
