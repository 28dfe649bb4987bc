//! Construction from a clean slate: the builder takes the lock, finds
//! no interpreter binary, bootstraps, and leaves the binary at its
//! well-known location.

use xshell_venv::{python_bin, Error, Shell, VirtualEnv};

#[test]
fn fresh_build_leaves_interpreter_binary() {
    let dir = "/tmp/venv-xshell_venv_fresh";
    let sh = Shell::new().unwrap();
    sh.remove_path(dir).unwrap();
    assert!(!sh.path_exists(python_bin(dir)));

    let venv = VirtualEnv::with_path(&sh, dir).unwrap();
    let out = venv.run("print('ok')").unwrap();
    assert_eq!("ok", out);

    assert!(sh.path_exists(python_bin(dir)));
}

#[test]
fn lock_failure_is_surfaced_as_error() {
    let sh = Shell::new().unwrap();
    let r = VirtualEnv::with_path(&sh, "/proc/sys");
    match r {
        Err(Error::Lock(_)) => {}
        Err(e) => panic!("expected the lock error, got: {}", e.message()),
        Ok(_) => panic!("expected the lock error"),
    }
}
