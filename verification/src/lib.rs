//! Create and manage Python virtual environments from within a build
//! process.
//!
//! A [`VirtualEnv`] resolves a deterministic directory for a named
//! environment, creates the environment there (or reuses an existing
//! one) under an exclusive file lock, and activates it by overriding
//! `VIRTUAL_ENV` and `PATH` for the lifetime of the value; the
//! overrides are reverted when it is dropped. While it lives, Python
//! code, library modules and `pip` run inside the environment through
//! [`VirtualEnv::run`], [`VirtualEnv::run_module`],
//! [`VirtualEnv::pip_install`] and [`VirtualEnv::pip_upgrade`].

use vstd::prelude::*;
use vstd::slice::slice_index_get;
use vstd::string::StringExecFns;

mod builder;
mod error;
mod interp;
mod lock;
mod resolve;
mod shell;

pub use builder::{BuildAction, build_plan, ensure_venv, lemma_idempotent_construction, plan_build,
    python_bin, python_bin_path, venv_module_args};
pub use error::{Error, Result};
pub use interp::{candidate_accepted, contains_str, guess_python, is_python3_output,
    output_is_python3, probe_outcome_accepts, python_candidates, Candidate, ProbeRule};
pub use resolve::{ancestor3, ancestor3_dir, find_directory, join_dir, join_path,
    lemma_distinct_names_distinct_dirs, lemma_path_determinism, parent_dir, parent_of,
    resolve_venv_dir, resolved_base, resolved_dir, strip_trailing_seps, venv_dir_name};
pub use xshell::Shell;

verus! {

/// The `PATH` value that activates an environment: its binary
/// directory prefixed onto the previous value, `<dir>/bin:<old>`.
pub open spec fn path_with_venv(dir: Seq<char>, old_path: Seq<char>) -> Seq<char> {
    dir + "/bin:"@ + old_path
}

/// The `PATH` value of an activated environment, as [`path_with_venv`]
/// defines it.
pub fn prefixed_path(dir: &str, old_path: &str) -> (r: String)
    ensures
        r@ == path_with_venv(dir@, old_path@),
{
    let mut r = dir.to_owned();
    r.append("/bin:");
    r.append(old_path);
    r
}

/// The arguments that run a library module as a script:
/// `-m <module> <args...>`.
pub fn module_args(module: &str, args: &[&str]) -> (r: Vec<String>)
    ensures
        r.deep_view() == seq!["-m"@, module@] + args.deep_view(),
{
    let mut r: Vec<String> = Vec::new();
    r.push("-m".to_owned());
    r.push(module.to_owned());
    let n = args.len();
    let mut i: usize = 0;
    while i < n
        invariant
            i <= n,
            n == args@.len(),
            r@.len() == 2 + i,
            r@[0]@ == "-m"@,
            r@[1]@ == module@,
            forall|k: int| 0 <= k < i ==> r@[2 + k]@ == args@[k]@,
        decreases n - i,
    {
        let a: &&str = slice_index_get(args, i);
        r.push((*a).to_owned());
        i = i + 1;
    }
    proof {
        assert(r.deep_view() =~= seq!["-m"@, module@] + args.deep_view());
    }
    r
}

/// The `pip3` arguments that install `package`: `install <package>`,
/// with `--upgrade` in between when upgrading.
pub open spec fn pip_install_argv(package: Seq<char>, upgrade: bool) -> Seq<Seq<char>> {
    if upgrade {
        seq!["install"@, "--upgrade"@, package]
    } else {
        seq!["install"@, package]
    }
}

/// The `pip3` arguments for `package`, as [`pip_install_argv`] defines
/// them.
pub fn pip_args(package: &str, upgrade: bool) -> (r: Vec<String>)
    ensures
        r.deep_view() == pip_install_argv(package@, upgrade),
{
    let mut r: Vec<String> = Vec::new();
    r.push("install".to_owned());
    if upgrade {
        r.push("--upgrade".to_owned());
    }
    r.push(package.to_owned());
    proof {
        assert(r.deep_view() =~= pip_install_argv(package@, upgrade));
    }
    r
}

/// A Python virtual environment.
///
/// Creating one creates or reuses the environment on disk, then
/// applies the activation overrides (`VIRTUAL_ENV`, prefixed `PATH`) to
/// the shell for as long as the value lives. Every Python invocation
/// through it runs against the activated environment, with
/// `PYTHONHOME` removed from the child's environment. The environment
/// is deactivated on drop: each override token restores the value (or
/// absence) that the variable had just before it was applied.
pub struct VirtualEnv<'a> {
    shell: &'a xshell::Shell,
    _env: Vec<xshell::PushEnv<'a>>,
}

impl<'a> VirtualEnv<'a> {
    /// The number of environment-variable override tokens this handle
    /// holds: one for `VIRTUAL_ENV` and one for the prefixed `PATH`.
    pub closed spec fn override_count(self) -> int {
        self._env@.len() as int
    }

    /// Create a Python virtual environment with the given name.
    ///
    /// Creates a new environment or reuses an existing one at the
    /// deterministic directory [`resolved_dir`] computes from the
    /// shell's `CARGO_TARGET_DIR`, `OUT_DIR` (three levels up),
    /// `CARGO_MANIFEST_DIR` and `TMPDIR` variables, so repeated calls
    /// under one environment and name share one directory, and
    /// distinct names never share theirs. A success holds both
    /// activation overrides; a failure is [`VirtualEnv::with_path`]'s.
    pub fn new(shell: &'a xshell::Shell, name: &str) -> (r: Result<VirtualEnv<'a>, Error>)
        ensures
            r is Ok ==> r->Ok_0.override_count() == 2,
            r is Err && r->Err_0 is PythonNotDetected ==> r->Err_0->PythonNotDetected_0@
                == "couldn't find Python 3 in $PATH"@,
    {
        let venv_dir = resolve::find_directory(shell, name);
        Self::with_path(shell, venv_dir.as_str())
    }

    /// Create a Python virtual environment in the given directory.
    ///
    /// Creates a new environment or reuses an existing one, as
    /// [`ensure_venv`] does, then activates it: `VIRTUAL_ENV` is set
    /// to the directory and `PATH` gets its binary directory
    /// prefixed, as [`path_with_venv`] defines, over the shell's
    /// previous `PATH` (a minimal `/bin:/usr/bin` when it had none).
    /// The overrides live until the returned value is dropped and are
    /// only applied when construction succeeded: a success holds
    /// exactly the two override tokens, and a failure is
    /// [`ensure_venv`]'s, with the interpreter-not-found message fixed.
    pub fn with_path(shell: &'a xshell::Shell, venv_dir: &str) -> (r: Result<VirtualEnv<'a>, Error>)
        ensures
            r is Ok ==> r->Ok_0.override_count() == 2,
            r is Err && r->Err_0 is PythonNotDetected ==> r->Err_0->PythonNotDetected_0@
                == "couldn't find Python 3 in $PATH"@,
    {
        match builder::ensure_venv(shell, venv_dir) {
            Ok(u) => u,
            Err(e) => {
                return Err(e);
            },
        }
        let old_path = match shell::shell_var(shell, "PATH") {
            Some(p) => p,
            None => "/bin:/usr/bin".to_owned(),
        };
        let new_path = prefixed_path(venv_dir, old_path.as_str());
        let mut env: Vec<xshell::PushEnv<'a>> = Vec::new();
        env.push(shell::shell_push_env(shell, "VIRTUAL_ENV", venv_dir));
        env.push(shell::shell_push_env(shell, "PATH", new_path.as_str()));
        Ok(VirtualEnv { shell, _env: env })
    }

    /// Install a Python package in this virtual environment.
    ///
    /// Runs `pip3 install <package>` against the activated
    /// environment; the package spec is passed through verbatim, so
    /// version pins and repository specifiers work as `pip` takes
    /// them. A failed installation surfaces the process error.
    pub fn pip_install(&self, package: &str) -> (r: Result<(), Error>)
        ensures
            r is Err ==> r->Err_0 is Xshell,
    {
        let argv = pip_args(package, false);
        match shell::venv_run(self.shell, "pip3", &argv, "PYTHONHOME") {
            Ok(u) => Ok(u),
            Err(e) => Err(Error::Xshell(e)),
        }
    }

    /// Upgrade a Python package in this virtual environment.
    ///
    /// Runs `pip3 install --upgrade <package>` against the activated
    /// environment; the package spec is passed through verbatim. A
    /// failed upgrade surfaces the process error.
    pub fn pip_upgrade(&self, package: &str) -> (r: Result<(), Error>)
        ensures
            r is Err ==> r->Err_0 is Xshell,
    {
        let argv = pip_args(package, true);
        match shell::venv_run(self.shell, "pip3", &argv, "PYTHONHOME") {
            Ok(u) => Ok(u),
            Err(e) => Err(Error::Xshell(e)),
        }
    }

    /// Run Python code in this virtual environment.
    ///
    /// Feeds `code` to the activated interpreter's standard input and
    /// returns its captured standard output, with one trailing newline
    /// or carriage return trimmed. A non-zero exit surfaces the
    /// process error with its diagnostics.
    pub fn run(&self, code: &str) -> (r: Result<String, Error>)
        ensures
            r is Err ==> r->Err_0 is Xshell,
    {
        match shell::venv_read_stdin(self.shell, "python", code, "PYTHONHOME") {
            Ok(s) => Ok(s),
            Err(e) => Err(Error::Xshell(e)),
        }
    }

    /// Run a library module as a script, `python -m <module>`.
    ///
    /// Additional arguments are passed through as [`module_args`]
    /// arranges them. Returns captured standard output like
    /// [`VirtualEnv::run`].
    pub fn run_module(&self, module: &str, args: &[&str]) -> (r: Result<String, Error>)
        ensures
            r is Err ==> r->Err_0 is Xshell,
    {
        let argv = module_args(module, args);
        match shell::venv_read(self.shell, "python", &argv, "PYTHONHOME") {
            Ok(s) => Ok(s),
            Err(e) => Err(Error::Xshell(e)),
        }
    }
}

} // verus!
