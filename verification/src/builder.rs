//! Ensuring that a virtual environment exists at a target path.
//!
//! Construction is serialised by an exclusive file lock taken before
//! the existence check, so concurrent builders targeting one path never
//! race: whoever holds the lock either finds the interpreter binary
//! already present and reuses the environment, or bootstraps it with
//! the standard `venv` module of a located host interpreter.
//!
//! The directory layout assumed here is the POSIX one: the interpreter
//! binary sits under `bin/`. A Windows-style `Scripts/` layout is not
//! modelled.

use vstd::prelude::*;
use vstd::string::StringExecFns;
use crate::error::Error;
use crate::interp;
use crate::lock;
use crate::resolve::{join_dir, join_path};
use crate::shell;

verus! {

/// The interpreter binary inside an environment, `<dir>/bin/python`:
/// its existence is the sole signal that the environment is built.
pub open spec fn python_bin_path(dir: Seq<char>) -> Seq<char> {
    join_path(join_path(dir, "bin"@), "python"@)
}

/// The lock sentinel file of an environment,
/// `<dir>/xshell-venv.lock`.
pub open spec fn lock_file_path(dir: Seq<char>) -> Seq<char> {
    join_path(dir, "xshell-venv.lock"@)
}

/// The path of the interpreter binary inside `dir`, as
/// [`python_bin_path`] defines it.
pub fn python_bin(dir: &str) -> (r: String)
    ensures
        r@ == python_bin_path(dir@),
{
    let bin = join_dir(dir, "bin");
    join_dir(bin.as_str(), "python")
}

/// The path of the lock file inside `dir`, as [`lock_file_path`]
/// defines it.
fn lock_file(dir: &str) -> (r: String)
    ensures
        r@ == lock_file_path(dir@),
{
    join_dir(dir, "xshell-venv.lock")
}

/// What the builder does inside the critical section.
#[derive(Clone, Copy, PartialEq, Eq, Structural, Debug)]
pub enum BuildAction {
    /// The interpreter binary is present: the environment is reused as
    /// it stands.
    Reuse,
    /// The interpreter binary is missing: the environment is
    /// bootstrapped.
    Bootstrap,
}

/// The builder's decision, given whether the interpreter binary is
/// already present at its well-known location.
pub open spec fn build_plan(python_present: bool) -> BuildAction {
    if python_present {
        BuildAction::Reuse
    } else {
        BuildAction::Bootstrap
    }
}

/// The builder's decision, as [`build_plan`] defines it.
pub fn plan_build(python_present: bool) -> (a: BuildAction)
    ensures
        a == build_plan(python_present),
{
    if python_present {
        BuildAction::Reuse
    } else {
        BuildAction::Bootstrap
    }
}

/// Law: idempotent construction. Once the interpreter binary is
/// present the builder reuses the environment and plans no bootstrap
/// work; it bootstraps exactly when the binary is missing.
pub proof fn lemma_idempotent_construction()
    ensures
        build_plan(true) == BuildAction::Reuse,
        build_plan(false) == BuildAction::Bootstrap,
{
}

/// The arguments that invoke the standard library `venv` module on
/// `dir`: `-m venv <dir>`.
pub fn venv_module_args(dir: &str) -> (r: Vec<String>)
    ensures
        r.deep_view() == seq!["-m"@, "venv"@, dir@],
{
    let mut r: Vec<String> = Vec::new();
    r.push("-m".to_owned());
    r.push("venv".to_owned());
    r.push(dir.to_owned());
    proof {
        assert(r.deep_view() =~= seq!["-m"@, "venv"@, dir@]);
    }
    r
}

/// Bootstraps a virtual environment at `dir`: locates a host Python 3
/// interpreter and has its standard `venv` module materialise the
/// environment. Fails with the interpreter-not-found error (with its
/// fixed message) when no candidate answers, or with the spawned
/// process's error surfaced verbatim.
fn bootstrap_venv(sh: &xshell::Shell, dir: &str) -> (r: Result<(), Error>)
    ensures
        r is Err ==> r->Err_0 is Xshell || (r->Err_0 is PythonNotDetected
            && r->Err_0->PythonNotDetected_0@ == "couldn't find Python 3 in $PATH"@),
{
    let python = match interp::guess_python(sh) {
        Ok(p) => p,
        Err(e) => {
            return Err(e);
        },
    };
    let args = venv_module_args(dir);
    match shell::cmd_run(sh, python, &args) {
        Ok(u) => Ok(u),
        Err(e) => Err(Error::Xshell(e)),
    }
}

/// Ensures that a virtual environment exists at `dir`.
///
/// Creates the directory and all missing ancestors, then opens the
/// lock file and blocks on its exclusive lock before checking for the
/// interpreter binary, so that concurrent builders of one path are
/// strictly serialised and a half-checked state is never observed.
/// Under the lock the environment is reused or bootstrapped as
/// [`build_plan`] decides; the lock is released when the critical
/// section ends, whether or not any bootstrap ran, and on every error
/// path. A failure is surfaced as a typed error: the fixed
/// interpreter-not-found message when no Python 3 answered, the shell
/// error of a failed directory creation or bootstrap process, or the
/// I/O error of a lock file that could not be created or locked; no
/// failure is retried.
pub fn ensure_venv(sh: &xshell::Shell, dir: &str) -> (r: Result<(), Error>)
    ensures
        r is Err && r->Err_0 is PythonNotDetected ==> r->Err_0->PythonNotDetected_0@
            == "couldn't find Python 3 in $PATH"@,
{
    match shell::shell_create_dir(sh, dir) {
        Ok(u) => u,
        Err(e) => {
            return Err(Error::Xshell(e));
        },
    }
    let lock_path = lock_file(dir);
    let mut venv_lock = match lock::lock_open(lock_path.as_str()) {
        Ok(l) => l,
        Err(e) => {
            return Err(Error::Lock(e));
        },
    };
    let _guard = match lock::lock_exclusive(&mut venv_lock) {
        Ok(g) => g,
        Err(e) => {
            return Err(Error::Lock(e));
        },
    };
    let pybin = python_bin(dir);
    let present = shell::shell_path_exists(sh, pybin.as_str());
    match plan_build(present) {
        BuildAction::Reuse => Ok(()),
        BuildAction::Bootstrap => bootstrap_venv(sh, dir),
    }
}

} // verus!
