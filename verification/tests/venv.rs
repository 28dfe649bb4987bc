//! End-to-end behaviour against a real host Python.

use xshell_venv::{Shell, VirtualEnv};

#[test]
fn multiple_venv() {
    let sh = Shell::new().unwrap();
    let script = "import sys; print(sys.prefix)";

    let venv1 = VirtualEnv::new(&sh, "multiple_venv-1").unwrap();
    let out1 = venv1.run(script).unwrap();

    let venv2 = VirtualEnv::new(&sh, "multiple_venv-2").unwrap();
    let out2 = venv2.run(script).unwrap();

    assert_ne!(out1, out2);
}

#[test]
fn deactivate_on_drop() {
    let sh = Shell::new().unwrap();
    let script = "import sys; print(sys.prefix == sys.base_prefix)";

    let out = sh.cmd("python3").args(["-c", script]).env_remove("PYTHONHOME").read().unwrap();
    assert_eq!("True", out);

    {
        let venv = VirtualEnv::new(&sh, "deactivate_on_drop").unwrap();

        let out = venv.run(script).unwrap();
        assert_eq!("False", out);
    }

    let out = sh.cmd("python3").args(["-c", script]).env_remove("PYTHONHOME").read().unwrap();
    assert_eq!("True", out);
}

#[test]
fn run_returns_trimmed_stdout() {
    let sh = Shell::new().unwrap();
    let venv = VirtualEnv::with_path(&sh, "/tmp/venv-xshell_venv_run").unwrap();

    let out = venv.run("print('hello python')").unwrap();
    assert_eq!("hello python", out);

    let pip = venv.run_module("pip", &["--version"]).unwrap();
    assert!(pip.contains("pip"));
}

#[test]
fn failing_code_surfaces_process_error() {
    let sh = Shell::new().unwrap();
    let venv = VirtualEnv::with_path(&sh, "/tmp/venv-xshell_venv_run").unwrap();

    let r = venv.run("import sys; sys.exit(3)");
    match r {
        Err(xshell_venv::Error::Xshell(_)) => {}
        _ => panic!("expected the wrapped process error"),
    }
    let msg = r.unwrap_err().message();
    assert!(!msg.is_empty());
}

#[test]
fn reuse_existing_environment() {
    let sh = Shell::new().unwrap();
    let dir = "/tmp/venv-xshell_venv_reuse";
    {
        let venv = VirtualEnv::with_path(&sh, dir).unwrap();
        let out = venv.run("print('first')").unwrap();
        assert_eq!("first", out);
    }
    let venv = VirtualEnv::with_path(&sh, dir).unwrap();
    let out = venv.run("print('again')").unwrap();
    assert_eq!("again", out);
}
