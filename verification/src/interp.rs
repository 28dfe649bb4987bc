//! Locating a usable Python 3 interpreter on the host.
//!
//! Candidates are probed in order with a short `--version` invocation;
//! the first that answers as Python 3 wins. The ordered list puts the
//! Windows-style executable names first (where they do not exist the
//! probe fails harmlessly), then the POSIX ones. A `python3` name is
//! accepted on exit status alone, since it already pins the major
//! version; a plain `python` may be a Python 2 alias, so its version
//! output must carry the `Python 3.` marker.

use vstd::prelude::*;
use vstd::string::StrSliceExecFns;
use crate::error::Error;
use crate::resolve::view_opt;
use crate::shell;

verus! {

/// `m` occurs in `s` starting at index `i`.
pub open spec fn matches_at(s: Seq<char>, m: Seq<char>, i: int) -> bool {
    0 <= i && i + m.len() <= s.len() && s.subrange(i, i + m.len()) == m
}

/// `m` occurs somewhere in `s`.
pub open spec fn contains_seq(s: Seq<char>, m: Seq<char>) -> bool {
    exists|i: int| matches_at(s, m, i)
}

/// Whether `m` occurs in `s` at index `i`, as [`matches_at`] defines it.
fn matches_at_exec(s: &str, m: &str, i: usize) -> (r: bool)
    requires
        i + m@.len() <= s@.len(),
    ensures
        r == matches_at(s@, m@, i as int),
{
    let slen = s.unicode_len();
    let mlen = m.unicode_len();
    let mut j: usize = 0;
    while j < mlen
        invariant
            j <= mlen,
            mlen == m@.len(),
            slen == s@.len(),
            i + mlen <= slen,
            forall|k: int| 0 <= k < j ==> s@[i + k] == m@[k],
        decreases mlen - j,
    {
        let sc = s.get_char(i + j);
        let mc = m.get_char(j);
        if sc != mc {
            proof {
                assert(s@.subrange(i as int, i + mlen)[j as int] == s@[i + j]);
            }
            return false;
        }
        j = j + 1;
    }
    proof {
        assert(s@.subrange(i as int, i + mlen) =~= m@);
    }
    true
}

/// Whether `m` occurs somewhere in `s`, as [`contains_seq`] defines it.
pub fn contains_str(s: &str, m: &str) -> (r: bool)
    ensures
        r == contains_seq(s@, m@),
{
    let slen = s.unicode_len();
    let mlen = m.unicode_len();
    if mlen > slen {
        return false;
    }
    if mlen == 0 {
        proof {
            assert(s@.subrange(0, 0) =~= m@);
            assert(matches_at(s@, m@, 0));
        }
        return true;
    }
    let mut i: usize = 0;
    while i <= slen - mlen
        invariant
            1 <= mlen <= slen,
            slen == s@.len(),
            mlen == m@.len(),
            i <= slen - mlen + 1,
            forall|k: int| 0 <= k < i ==> !matches_at(s@, m@, k),
        decreases slen - i,
    {
        if matches_at_exec(s, m, i) {
            return true;
        }
        i = i + 1;
    }
    proof {
        assert forall|k: int| !matches_at(s@, m@, k) by {
            if 0 <= k < i {
            }
        }
    }
    false
}

/// The marker substring that identifies Python 3 version output.
pub open spec fn py3_marker() -> Seq<char> {
    "Python 3."@
}

/// Whether version-probe output identifies a Python 3 interpreter.
pub open spec fn is_python3_output(out: Seq<char>) -> bool {
    contains_seq(out, py3_marker())
}

/// Whether `out` identifies a Python 3 interpreter, as
/// [`is_python3_output`] defines it.
pub fn output_is_python3(out: &str) -> (r: bool)
    ensures
        r == is_python3_output(out@),
{
    contains_str(out, "Python 3.")
}

/// How a candidate's version probe is judged.
#[derive(Clone, Copy, PartialEq, Eq, Structural, Debug)]
pub enum ProbeRule {
    /// A zero exit status alone accepts the candidate.
    ExitCode,
    /// The probe's captured output must carry the `Python 3.` marker.
    Marker,
}

/// One interpreter candidate: the executable name to probe and how the
/// probe is judged.
pub struct Candidate {
    pub name: &'static str,
    pub rule: ProbeRule,
}

/// The ordered candidate list: `python3.exe` by exit status,
/// `python.exe` by the marker, then `python3` by exit status and
/// `python` by the marker. First acceptance wins.
pub fn python_candidates() -> (r: Vec<Candidate>)
    ensures
        r@.len() == 4,
        r@[0].name@ == "python3.exe"@ && r@[0].rule is ExitCode,
        r@[1].name@ == "python.exe"@ && r@[1].rule is Marker,
        r@[2].name@ == "python3"@ && r@[2].rule is ExitCode,
        r@[3].name@ == "python"@ && r@[3].rule is Marker,
{
    let mut r: Vec<Candidate> = Vec::new();
    r.push(Candidate { name: "python3.exe", rule: ProbeRule::ExitCode });
    r.push(Candidate { name: "python.exe", rule: ProbeRule::Marker });
    r.push(Candidate { name: "python3", rule: ProbeRule::ExitCode });
    r.push(Candidate { name: "python", rule: ProbeRule::Marker });
    r
}

/// Whether a probe outcome accepts its candidate: under `ExitCode`,
/// the probe ran and exited zero; under `Marker`, it produced output
/// holding the Python 3 marker.
pub open spec fn candidate_accepted(rule: ProbeRule, ran_ok: bool, output: Option<Seq<char>>) -> bool {
    match rule {
        ProbeRule::ExitCode => ran_ok,
        ProbeRule::Marker => match output {
            Option::Some(out) => is_python3_output(out),
            Option::None => false,
        },
    }
}

/// Whether the probe outcome accepts the candidate, as
/// [`candidate_accepted`] defines it, for every outcome the probes can
/// hand back.
pub fn probe_outcome_accepts(rule: &ProbeRule, ran_ok: bool, output: &Option<String>) -> (r: bool)
    ensures
        r == candidate_accepted(*rule, ran_ok, view_opt(*output)),
{
    match rule {
        ProbeRule::ExitCode => ran_ok,
        ProbeRule::Marker => match output {
            Option::Some(out) => output_is_python3(out.as_str()),
            Option::None => false,
        },
    }
}

/// Probes the host for a Python 3 interpreter, walking
/// [`python_candidates`] in order and returning the first whose probe
/// outcome [`candidate_accepted`] accepts. Spawns short-lived probe
/// processes; which candidate answers depends on the host, but
/// whatever came back, a success is one of the four candidate names
/// and a failure is the interpreter-not-found error with its fixed
/// message.
pub fn guess_python(sh: &xshell::Shell) -> (r: Result<&'static str, Error>)
    ensures
        r is Ok ==> r->Ok_0@ == "python3.exe"@ || r->Ok_0@ == "python.exe"@
            || r->Ok_0@ == "python3"@ || r->Ok_0@ == "python"@,
        r is Err ==> r->Err_0 is PythonNotDetected
            && r->Err_0->PythonNotDetected_0@ == "couldn't find Python 3 in $PATH"@,
{
    let mut version_args: Vec<String> = Vec::new();
    version_args.push("--version".to_owned());
    let candidates = python_candidates();
    let n = candidates.len();
    let mut i: usize = 0;
    while i < n
        invariant
            i <= n,
            n == candidates@.len(),
            n == 4,
            candidates@[0].name@ == "python3.exe"@,
            candidates@[1].name@ == "python.exe"@,
            candidates@[2].name@ == "python3"@,
            candidates@[3].name@ == "python"@,
        decreases n - i,
    {
        let name: &'static str = candidates[i].name;
        let rule: ProbeRule = candidates[i].rule;
        let ran_ok: bool;
        let output: Option<String>;
        match rule {
            ProbeRule::ExitCode => {
                ran_ok = shell::probe_run(sh, name, &version_args);
                output = None;
            },
            ProbeRule::Marker => {
                ran_ok = false;
                output = shell::probe_read(sh, name, &version_args);
            },
        }
        if probe_outcome_accepts(&rule, ran_ok, &output) {
            return Ok(name);
        }
        i = i + 1;
    }
    Err(Error::PythonNotDetected("couldn't find Python 3 in $PATH"))
}

} // verus!
