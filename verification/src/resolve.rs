//! Deterministic resolution of the directory that holds a named virtual
//! environment.
//!
//! The directory is a pure function of four environment-variable
//! signals, tried in order: an explicit target-directory override, a
//! build-output directory (of which the third ancestor is taken), a
//! project-manifest directory (under which `target` is used), and the
//! temporary-files directory as the last resort. The environment's name
//! is appended as a final `venv-<name>` component.
//!
//! Paths are modelled as plain strings with `/` as the separator.
//! Trailing and doubled separators are ignored when a parent is taken
//! and never doubled when paths are joined; a string without a
//! separator has no parent here and the corresponding signal falls
//! through to the next.

use vstd::prelude::*;
use vstd::string::StrSliceExecFns;
use vstd::string::StringExecFns;
use crate::shell;

verus! {

/// The index of the last `/` in `p`, or `-1` when there is none.
pub open spec fn last_sep(p: Seq<char>) -> int
    decreases p.len(),
{
    if p.len() == 0 {
        -1
    } else if p[p.len() - 1] == '/' {
        p.len() - 1
    } else {
        last_sep(p.drop_last())
    }
}

/// `p` without its trailing separators.
pub open spec fn strip_trailing_seps(p: Seq<char>) -> Seq<char>
    decreases p.len(),
{
    if p.len() > 0 && p[p.len() - 1] == '/' {
        strip_trailing_seps(p.drop_last())
    } else {
        p
    }
}

/// The parent directory of `p`: everything before the last `/`, with
/// trailing separators ignored on both sides, so `a/b/` has the parent
/// `a` and `//b` the parent `/`.
///
/// A path without a separator, and the root `/` itself, has no parent
/// here.
pub open spec fn parent_of(p: Seq<char>) -> Option<Seq<char>> {
    let q = strip_trailing_seps(p);
    let i = last_sep(q);
    if i < 0 {
        None
    } else {
        let s = strip_trailing_seps(q.take(i));
        if s.len() == 0 {
            Some(seq!['/'])
        } else {
            Some(s)
        }
    }
}

/// The third ancestor of `p`, when all three parents exist.
pub open spec fn ancestor3(p: Seq<char>) -> Option<Seq<char>> {
    match parent_of(p) {
        Option::None => Option::None,
        Option::Some(p1) => match parent_of(p1) {
            Option::None => Option::None,
            Option::Some(p2) => parent_of(p2),
        },
    }
}

/// `base` and `child` joined with one separator: an empty base yields
/// the child alone, and a base that already ends in a separator gets
/// none added.
pub open spec fn join_path(base: Seq<char>, child: Seq<char>) -> Seq<char> {
    if base.len() == 0 {
        child
    } else if base[base.len() - 1] == '/' {
        base + child
    } else {
        base + seq!['/'] + child
    }
}

/// The directory name of a virtual environment, `venv-<name>`.
pub open spec fn venv_dir_name(name: Seq<char>) -> Seq<char> {
    "venv-"@ + name
}

/// The temporary-files directory: `TMPDIR` when set and non-empty,
/// `/tmp` otherwise.
pub open spec fn temp_base(tmpdir: Option<Seq<char>>) -> Seq<char> {
    match tmpdir {
        Option::Some(t) => if t.len() > 0 {
            t
        } else {
            "/tmp"@
        },
        Option::None => "/tmp"@,
    }
}

/// The base directory when neither the target-directory override nor a
/// usable build-output directory is present: `<manifest>/target`, or the
/// temporary-files directory.
pub open spec fn fallback_base(manifest: Option<Seq<char>>, tmpdir: Option<Seq<char>>) -> Seq<char> {
    match manifest {
        Option::Some(m) => join_path(m, "target"@),
        Option::None => temp_base(tmpdir),
    }
}

/// The base directory a virtual environment goes under, given the four
/// environment signals. First match wins: the target-directory override
/// itself; the third ancestor of the build-output directory, when it
/// exists; `<manifest>/target`; the temporary-files directory.
pub open spec fn resolved_base(
    target: Option<Seq<char>>,
    out: Option<Seq<char>>,
    manifest: Option<Seq<char>>,
    tmpdir: Option<Seq<char>>,
) -> Seq<char> {
    match target {
        Option::Some(t) => t,
        Option::None => match out {
            Option::Some(o) => match ancestor3(o) {
                Option::Some(a) => a,
                Option::None => fallback_base(manifest, tmpdir),
            },
            Option::None => fallback_base(manifest, tmpdir),
        },
    }
}

/// The resolved directory of the environment `name`:
/// `<base>/venv-<name>`.
pub open spec fn resolved_dir(
    target: Option<Seq<char>>,
    out: Option<Seq<char>>,
    manifest: Option<Seq<char>>,
    tmpdir: Option<Seq<char>>,
    name: Seq<char>,
) -> Seq<char> {
    join_path(resolved_base(target, out, manifest, tmpdir), venv_dir_name(name))
}

/// The view of an optional string.
pub open spec fn view_opt(o: Option<String>) -> Option<Seq<char>> {
    match o {
        Option::Some(s) => Option::Some(s@),
        Option::None => Option::None,
    }
}

/// The index of the last `/` in `p`, or `None` when there is none.
fn find_last_sep(p: &str) -> (r: Option<usize>)
    ensures
        match r {
            Option::Some(i) => last_sep(p@) == i as int,
            Option::None => last_sep(p@) == -1,
        },
{
    let n = p.unicode_len();
    let mut i = n;
    proof {
        assert(p@.take(n as int) =~= p@);
    }
    while i > 0
        invariant
            i <= n,
            n == p@.len(),
            last_sep(p@) == last_sep(p@.take(i as int)),
        decreases i,
    {
        let c = p.get_char(i - 1);
        proof {
            assert(p@.take(i as int).drop_last() =~= p@.take(i as int - 1));
            assert(p@.take(i as int)[i as int - 1] == p@[i as int - 1]);
        }
        if c == '/' {
            proof {
                assert(last_sep(p@.take(i as int)) == i - 1);
            }
            return Some(i - 1);
        }
        i = i - 1;
    }
    proof {
        assert(p@.take(0) =~= Seq::<char>::empty());
    }
    None
}

/// The last separator, when there is one, lies within the path.
proof fn lemma_last_sep_bounds(p: Seq<char>)
    ensures
        -1 <= last_sep(p) < p.len(),
    decreases p.len(),
{
    if p.len() == 0 {
    } else if p[p.len() - 1] == '/' {
    } else {
        lemma_last_sep_bounds(p.drop_last());
    }
}

/// `p` without its trailing separators, as [`strip_trailing_seps`]
/// defines it.
fn trim_trailing_seps(p: &str) -> (r: &str)
    ensures
        r@ == strip_trailing_seps(p@),
{
    let n = p.unicode_len();
    let mut k = n;
    proof {
        assert(p@.take(n as int) =~= p@);
    }
    while k > 0 && p.get_char(k - 1) == '/'
        invariant
            k <= n,
            n == p@.len(),
            strip_trailing_seps(p@) == strip_trailing_seps(p@.take(k as int)),
        decreases k,
    {
        proof {
            assert(p@.take(k as int).drop_last() =~= p@.take(k as int - 1));
            assert(p@.take(k as int)[k as int - 1] == p@[k as int - 1]);
        }
        k = k - 1;
    }
    proof {
        if k == 0 {
            assert(p@.take(0) =~= Seq::<char>::empty());
        } else {
            assert(p@.take(k as int)[k as int - 1] == p@[k as int - 1]);
        }
        assert(strip_trailing_seps(p@.take(k as int)) == p@.take(k as int));
        assert(p@.subrange(0, k as int) =~= p@.take(k as int));
    }
    p.substring_char(0, k)
}

/// The parent directory of `p`, as [`parent_of`] defines it.
pub fn parent_dir(p: &str) -> (r: Option<String>)
    ensures
        view_opt(r) == parent_of(p@),
{
    let q = trim_trailing_seps(p);
    match find_last_sep(q) {
        Option::None => None,
        Option::Some(i) => {
            proof {
                lemma_last_sep_bounds(q@);
                assert(q@.subrange(0, i as int) =~= q@.take(i as int));
            }
            let head = q.substring_char(0, i);
            let stripped = trim_trailing_seps(head);
            if stripped.unicode_len() == 0 {
                let root = "/";
                proof {
                    reveal_strlit("/");
                    assert(root@ =~= seq!['/']);
                }
                Some(root.to_owned())
            } else {
                Some(stripped.to_owned())
            }
        },
    }
}

/// The third ancestor of `p`, as [`ancestor3`] defines it.
pub fn ancestor3_dir(p: &str) -> (r: Option<String>)
    ensures
        view_opt(r) == ancestor3(p@),
{
    match parent_dir(p) {
        Option::None => None,
        Option::Some(p1) => match parent_dir(p1.as_str()) {
            Option::None => None,
            Option::Some(p2) => parent_dir(p2.as_str()),
        },
    }
}

/// The base directory when the first two signals yielded nothing, as
/// [`fallback_base`] defines it.
fn resolve_fallback_base(manifest: &Option<String>, tmpdir: &Option<String>) -> (r: String)
    ensures
        r@ == fallback_base(view_opt(*manifest), view_opt(*tmpdir)),
{
    match manifest {
        Option::Some(m) => join_dir(m.as_str(), "target"),
        Option::None => match tmpdir {
            Option::Some(t) => {
                if t.unicode_len() > 0 {
                    t.clone()
                } else {
                    "/tmp".to_owned()
                }
            },
            Option::None => "/tmp".to_owned(),
        },
    }
}

/// The directory of the environment `name` under the four signals, as
/// [`resolved_dir`] defines it: deterministic in its arguments, so a
/// fixed environment and name always yield the same path.
pub fn resolve_venv_dir(
    target: &Option<String>,
    out: &Option<String>,
    manifest: &Option<String>,
    tmpdir: &Option<String>,
    name: &str,
) -> (r: String)
    ensures
        r@ == resolved_dir(view_opt(*target), view_opt(*out), view_opt(*manifest), view_opt(*tmpdir), name@),
{
    let base: String = match target {
        Option::Some(t) => t.clone(),
        Option::None => match out {
            Option::Some(o) => match ancestor3_dir(o.as_str()) {
                Option::Some(a) => a,
                Option::None => resolve_fallback_base(manifest, tmpdir),
            },
            Option::None => resolve_fallback_base(manifest, tmpdir),
        },
    };
    let mut dir_name = "venv-".to_owned();
    dir_name.append(name);
    join_dir(base.as_str(), dir_name.as_str())
}

/// `base` and `child` joined, as [`join_path`] defines it.
pub fn join_dir(base: &str, child: &str) -> (r: String)
    ensures
        r@ == join_path(base@, child@),
{
    let n = base.unicode_len();
    if n == 0 {
        child.to_owned()
    } else if base.get_char(n - 1) == '/' {
        let mut r = base.to_owned();
        r.append(child);
        r
    } else {
        let mut r = base.to_owned();
        r.append("/");
        r.append(child);
        proof {
            reveal_strlit("/");
            assert(r@ =~= join_path(base@, child@));
        }
        r
    }
}

/// The directory of the environment `name`, read off the shell's
/// current environment variables: `CARGO_TARGET_DIR`, `OUT_DIR`,
/// `CARGO_MANIFEST_DIR` and `TMPDIR`, as [`resolved_dir`] combines
/// them. Whatever the environment held, the result ends in the
/// `venv-<name>` component.
pub fn find_directory(sh: &xshell::Shell, name: &str) -> (r: String)
    ensures
        exists|base: Seq<char>| r@ == #[trigger] join_path(base, venv_dir_name(name@)),
{
    let target = shell::shell_var(sh, "CARGO_TARGET_DIR");
    let out = shell::shell_var(sh, "OUT_DIR");
    let manifest = shell::shell_var(sh, "CARGO_MANIFEST_DIR");
    let tmpdir = shell::shell_var(sh, "TMPDIR");
    let r = resolve_venv_dir(&target, &out, &manifest, &tmpdir, name);
    proof {
        let base = resolved_base(view_opt(target), view_opt(out), view_opt(manifest), view_opt(tmpdir));
        assert(r@ == join_path(base, venv_dir_name(name@)));
    }
    r
}

/// Law: path determinism. Under one environment snapshot the resolver
/// is a function of the name alone, and the name decides only the
/// trailing directory name: both paths sit under the same base
/// directory.
pub proof fn lemma_path_determinism(
    target: Option<Seq<char>>,
    out: Option<Seq<char>>,
    manifest: Option<Seq<char>>,
    tmpdir: Option<Seq<char>>,
    n1: Seq<char>,
    n2: Seq<char>,
)
    ensures
        resolved_dir(target, out, manifest, tmpdir, n1) == join_path(
            resolved_base(target, out, manifest, tmpdir),
            venv_dir_name(n1),
        ),
        resolved_dir(target, out, manifest, tmpdir, n2) == join_path(
            resolved_base(target, out, manifest, tmpdir),
            venv_dir_name(n2),
        ),
{
}

/// Concatenation after a common prefix is injective.
proof fn lemma_concat_inj(pre: Seq<char>, a: Seq<char>, b: Seq<char>)
    requires
        pre + a == pre + b,
    ensures
        a == b,
{
    assert(a.len() == b.len()) by {
        assert((pre + a).len() == pre.len() + a.len());
        assert((pre + b).len() == pre.len() + b.len());
    }
    assert(a =~= b) by {
        assert forall|i: int| 0 <= i < a.len() implies a[i] == b[i] by {
            assert((pre + a)[pre.len() + i] == a[i]);
            assert((pre + b)[pre.len() + i] == b[i]);
        }
    }
}

/// Law: isolation across named environments. Distinct names resolve to
/// distinct directories under one environment snapshot, so two
/// environments of different names never share their directory.
pub proof fn lemma_distinct_names_distinct_dirs(
    target: Option<Seq<char>>,
    out: Option<Seq<char>>,
    manifest: Option<Seq<char>>,
    tmpdir: Option<Seq<char>>,
    n1: Seq<char>,
    n2: Seq<char>,
)
    requires
        n1 != n2,
    ensures
        resolved_dir(target, out, manifest, tmpdir, n1) != resolved_dir(target, out, manifest, tmpdir, n2),
{
    let base = resolved_base(target, out, manifest, tmpdir);
    let pre: Seq<char> = if base.len() == 0 {
        "venv-"@
    } else if base[base.len() - 1] == '/' {
        base + "venv-"@
    } else {
        base + seq!['/'] + "venv-"@
    };
    assert(resolved_dir(target, out, manifest, tmpdir, n1) =~= pre + n1);
    assert(resolved_dir(target, out, manifest, tmpdir, n2) =~= pre + n2);
    if resolved_dir(target, out, manifest, tmpdir, n1) == resolved_dir(target, out, manifest, tmpdir, n2) {
        lemma_concat_inj(pre, n1, n2);
    }
}

} // verus!
