//! The command lines and activation values the library constructs.

use xshell_venv::{
    module_args, pip_args, plan_build, prefixed_path, python_bin, venv_module_args, BuildAction,
};

#[test]
fn run_module_command_line() {
    let argv = module_args("pip", &["--version"]);
    assert_eq!(argv, vec!["-m", "pip", "--version"]);
    let argv = module_args("flake8", &[]);
    assert_eq!(argv, vec!["-m", "flake8"]);
}

#[test]
fn pip_install_command_line() {
    let argv = pip_args("flake8==3.9.2", false);
    assert_eq!(argv, vec!["install", "flake8==3.9.2"]);
}

#[test]
fn pip_upgrade_command_line() {
    let argv = pip_args("flake8", true);
    assert_eq!(argv, vec!["install", "--upgrade", "flake8"]);
}

#[test]
fn bootstrap_command_line() {
    let argv = venv_module_args("/tmp/venv-x");
    assert_eq!(argv, vec!["-m", "venv", "/tmp/venv-x"]);
}

#[test]
fn activation_path_prefix() {
    let p = prefixed_path("/tmp/venv-x", "/usr/bin:/bin");
    assert_eq!(p, "/tmp/venv-x/bin:/usr/bin:/bin");
}

#[test]
fn interpreter_binary_location() {
    assert_eq!(python_bin("/tmp/venv-x"), "/tmp/venv-x/bin/python");
    assert_eq!(python_bin("/tmp/venv-x/"), "/tmp/venv-x/bin/python");
}

#[test]
fn builder_short_circuits_when_built() {
    assert_eq!(plan_build(true), BuildAction::Reuse);
    assert_eq!(plan_build(false), BuildAction::Bootstrap);
}
