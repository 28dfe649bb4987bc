//! The environment-directory resolver on concrete signal snapshots.

use xshell_venv::{ancestor3_dir, parent_dir, resolve_venv_dir};

fn s(v: &str) -> Option<String> {
    Some(v.to_string())
}

#[test]
fn target_dir_override_wins() {
    let r = resolve_venv_dir(&s("/x"), &s("/w/a/b/c/d"), &s("/m"), &s("/t"), "py3");
    assert_eq!(r, "/x/venv-py3");
}

#[test]
fn out_dir_three_levels_up() {
    let out = s("/work/target/debug/build/somecrate-1234/out");
    let r = resolve_venv_dir(&None, &out, &None, &None, "py3");
    assert_eq!(r, "/work/target/debug/venv-py3");
}

#[test]
fn out_dir_without_three_ancestors_falls_through() {
    let r = resolve_venv_dir(&None, &s("a/b"), &s("/proj"), &None, "py3");
    assert_eq!(r, "/proj/target/venv-py3");
}

#[test]
fn manifest_dir_gets_target_appended() {
    let r = resolve_venv_dir(&None, &None, &s("/proj"), &None, "py3");
    assert_eq!(r, "/proj/target/venv-py3");
}

#[test]
fn temp_dir_is_last_resort() {
    let r = resolve_venv_dir(&None, &None, &None, &s("/var/tmp"), "py3");
    assert_eq!(r, "/var/tmp/venv-py3");
}

#[test]
fn empty_tmpdir_falls_back_to_tmp() {
    let r = resolve_venv_dir(&None, &None, &None, &s(""), "py3");
    assert_eq!(r, "/tmp/venv-py3");
    let r = resolve_venv_dir(&None, &None, &None, &None, "py3");
    assert_eq!(r, "/tmp/venv-py3");
}

#[test]
fn resolution_is_deterministic() {
    let a = resolve_venv_dir(&s("/x"), &None, &s("/m"), &None, "py3");
    let b = resolve_venv_dir(&s("/x"), &None, &s("/m"), &None, "py3");
    assert_eq!(a, b);
}

#[test]
fn name_changes_only_the_tail() {
    let a = resolve_venv_dir(&None, &None, &s("/proj"), &None, "one");
    let b = resolve_venv_dir(&None, &None, &s("/proj"), &None, "two");
    assert_ne!(a, b);
    assert_eq!(a, "/proj/target/venv-one");
    assert_eq!(b, "/proj/target/venv-two");
    assert!(a.starts_with("/proj/target/venv-"));
    assert!(b.starts_with("/proj/target/venv-"));
}

#[test]
fn parent_of_ordinary_path() {
    assert_eq!(parent_dir("/a/b/c"), Some("/a/b".to_string()));
    assert_eq!(parent_dir("/a/b"), Some("/a".to_string()));
}

#[test]
fn parent_of_root_children() {
    assert_eq!(parent_dir("/x"), Some("/".to_string()));
    assert_eq!(parent_dir("/"), None);
}

#[test]
fn parent_unavailable() {
    assert_eq!(parent_dir("plain"), None);
    assert_eq!(parent_dir("a/"), None);
    assert_eq!(parent_dir(""), None);
}

#[test]
fn parent_ignores_extra_separators() {
    assert_eq!(parent_dir("/a/b/"), Some("/a".to_string()));
    assert_eq!(parent_dir("a//b"), Some("a".to_string()));
    assert_eq!(parent_dir("//b"), Some("/".to_string()));
}

#[test]
fn third_ancestor() {
    assert_eq!(ancestor3_dir("/a/b/c/d"), Some("/a".to_string()));
    assert_eq!(ancestor3_dir("/a/b/c"), Some("/".to_string()));
    assert_eq!(ancestor3_dir("/a/b"), None);
    assert_eq!(ancestor3_dir("x/y/z"), None);
}

#[test]
fn out_dir_with_trailing_separator_still_ascends() {
    let out = s("/work/target/debug/build/somecrate-1234/out/");
    let r = resolve_venv_dir(&None, &out, &None, &None, "py3");
    assert_eq!(r, "/work/target/debug/venv-py3");
}

#[test]
fn join_never_doubles_the_separator() {
    let r = resolve_venv_dir(&s("/x/"), &None, &None, &None, "py3");
    assert_eq!(r, "/x/venv-py3");
    let r = resolve_venv_dir(&s("/"), &None, &None, &None, "py3");
    assert_eq!(r, "/venv-py3");
    let r = resolve_venv_dir(&s(""), &None, &None, &None, "py3");
    assert_eq!(r, "venv-py3");
}
