//! The interpreter-candidate list and the per-candidate acceptance
//! decision on concrete probe outcomes.

use xshell_venv::{
    contains_str, output_is_python3, probe_outcome_accepts, python_candidates, Error, ProbeRule,
};

#[test]
fn candidates_in_spec_order() {
    let c = python_candidates();
    let names: Vec<&str> = c.iter().map(|c| c.name).collect();
    assert_eq!(names, vec!["python3.exe", "python.exe", "python3", "python"]);
    assert_eq!(c[0].rule, ProbeRule::ExitCode);
    assert_eq!(c[1].rule, ProbeRule::Marker);
    assert_eq!(c[2].rule, ProbeRule::ExitCode);
    assert_eq!(c[3].rule, ProbeRule::Marker);
}

#[test]
fn exit_code_rule_accepts_on_success() {
    assert!(probe_outcome_accepts(&ProbeRule::ExitCode, true, &None));
    assert!(!probe_outcome_accepts(&ProbeRule::ExitCode, false, &None));
    assert!(!probe_outcome_accepts(
        &ProbeRule::ExitCode,
        false,
        &Some("Python 3.11.7".to_string())
    ));
}

#[test]
fn marker_rule_needs_python3_output() {
    assert!(probe_outcome_accepts(&ProbeRule::Marker, false, &Some("Python 3.11.7".to_string())));
    assert!(!probe_outcome_accepts(&ProbeRule::Marker, false, &Some("Python 2.7.18".to_string())));
    assert!(!probe_outcome_accepts(&ProbeRule::Marker, false, &None));
    assert!(!probe_outcome_accepts(&ProbeRule::Marker, true, &None));
}

#[test]
fn message_reads_as_not_detected() {
    let e: Error = "couldn't find Python 3 in $PATH".into();
    match e {
        Error::PythonNotDetected(msg) => assert_eq!(msg, "couldn't find Python 3 in $PATH"),
        _ => panic!("expected the interpreter-not-found error"),
    }
    let e: Error = "couldn't find Python 3 in $PATH".into();
    assert_eq!(e.message(), "couldn't find Python 3 in $PATH");
}

#[test]
fn marker_detection() {
    assert!(output_is_python3("Python 3.11.7"));
    assert!(output_is_python3("some Python 3.x build"));
    assert!(!output_is_python3("Python 2.7.18"));
    assert!(!output_is_python3("Python 30"));
    assert!(!output_is_python3(""));
}

#[test]
fn substring_search() {
    assert!(contains_str("abcdef", "cde"));
    assert!(contains_str("abcdef", ""));
    assert!(contains_str("aaab", "aab"));
    assert!(!contains_str("", "a"));
    assert!(!contains_str("abc", "abcd"));
    assert!(!contains_str("abab", "abba"));
}
