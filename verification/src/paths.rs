//! Paths as text.
//!
//! Every path the bridge handles is a UTF-8 string with `/` as the separator.
//! Joining follows the rule of `std::path::Path::join` on Unix: an absolute
//! right-hand side replaces the left-hand side, otherwise the two are put
//! together with exactly one separator between them.

use vstd::prelude::*;
use vstd::string::*;

verus! {

/// A path is absolute when it starts at the root.
pub open spec fn is_absolute_path(p: Seq<char>) -> bool {
    p.len() > 0 && p[0] == '/'
}

/// Whether a separator has to be put behind `base` before something is appended.
pub open spec fn needs_separator(base: Seq<char>) -> bool {
    base.len() > 0 && base.last() != '/'
}

/// `rel` adjoined to `base`.
pub open spec fn joined(base: Seq<char>, rel: Seq<char>) -> Seq<char> {
    if is_absolute_path(rel) {
        rel
    } else if needs_separator(base) {
        base + seq!['/'] + rel
    } else {
        base + rel
    }
}

/// A path given by a caller, read relative to `cwd` unless it is absolute.
pub open spec fn resolved(cwd: Seq<char>, value: Seq<char>) -> Seq<char> {
    if is_absolute_path(value) {
        value
    } else {
        joined(cwd, value)
    }
}

/// `<cwd>/artifacts/renderdoc`
pub open spec fn artifacts_dir_of(cwd: Seq<char>) -> Seq<char> {
    joined(joined(cwd, "artifacts"@), "renderdoc"@)
}

/// `<cwd>/artifacts/renderdoc/scripts`
pub open spec fn scripts_dir_of(cwd: Seq<char>) -> Seq<char> {
    joined(artifacts_dir_of(cwd), "scripts"@)
}

/// `<cwd>/artifacts/renderdoc/exports`
pub open spec fn exports_dir_of(cwd: Seq<char>) -> Seq<char> {
    joined(artifacts_dir_of(cwd), "exports"@)
}

/// Tells whether `p` starts at the root.
pub fn is_absolute(p: &str) -> (b: bool)
    ensures
        b == is_absolute_path(p@),
{
    if p.is_empty() {
        false
    } else {
        p.get_char(0) == '/'
    }
}

/// Adjoins `rel` to `base`.
pub fn join(base: &str, rel: &str) -> (out: String)
    ensures
        out@ == joined(base@, rel@),
{
    if is_absolute(rel) {
        rel.to_owned()
    } else {
        let n: usize = base.unicode_len();
        let mut out = base.to_owned();
        if n > 0 && base.get_char(n - 1) != '/' {
            proof {
                reveal_strlit("/");
            }
            out.append("/");
            assert(out@ =~= base@ + seq!['/']);
        }
        out.append(rel);
        out
    }
}

/// Resolves a path named in a request against the caller's working directory.
///
/// The host process runs with the run directory as its working directory, so
/// a relative path left as it is would point somewhere else once the request
/// reaches the script.
pub fn resolve_path_string_from_cwd(cwd: &str, value: &str) -> (out: String)
    ensures
        out@ == resolved(cwd@, value@),
{
    if is_absolute(value) {
        value.to_owned()
    } else {
        join(cwd, value)
    }
}

/// Resolves `value` against `base`; an absolute `value` is kept.
pub fn resolve_path_from_base(base: &str, value: &str) -> (out: String)
    ensures
        out@ == resolved(base@, value@),
{
    resolve_path_string_from_cwd(base, value)
}

/// Where captures and everything derived from them are kept, below `cwd`.
pub fn default_artifacts_dir(cwd: &str) -> (out: String)
    ensures
        out@ == artifacts_dir_of(cwd@),
{
    let artifacts = join(cwd, "artifacts");
    join(artifacts.as_str(), "renderdoc")
}

/// Where scripts and run directories are kept, below `cwd`.
pub fn default_scripts_dir(cwd: &str) -> (out: String)
    ensures
        out@ == scripts_dir_of(cwd@),
{
    let artifacts = default_artifacts_dir(cwd);
    join(artifacts.as_str(), "scripts")
}

/// Where exported files go unless a request says otherwise, below `cwd`.
pub fn default_exports_dir(cwd: &str) -> (out: String)
    ensures
        out@ == exports_dir_of(cwd@),
{
    let artifacts = default_artifacts_dir(cwd);
    join(artifacts.as_str(), "exports")
}

/// An absolute path is left as it is, whatever the working directory.
pub proof fn lemma_absolute_is_kept(cwd: Seq<char>, value: Seq<char>)
    requires
        is_absolute_path(value),
    ensures
        resolved(cwd, value) == value,
{
}

/// A relative path is anchored at the working directory: the result is the
/// working directory, one separator, and the path as it was given.
pub proof fn lemma_relative_is_anchored(cwd: Seq<char>, value: Seq<char>)
    requires
        !is_absolute_path(value),
        needs_separator(cwd),
    ensures
        resolved(cwd, value) == cwd + seq!['/'] + value,
{
}

/// Against an absolute working directory every path resolves to an absolute
/// one.
pub proof fn lemma_resolved_is_absolute(cwd: Seq<char>, value: Seq<char>)
    requires
        is_absolute_path(cwd),
    ensures
        is_absolute_path(resolved(cwd, value)),
{
}

/// Against an absolute working directory, resolving what is resolved already
/// changes nothing.
pub proof fn lemma_resolving_twice(cwd: Seq<char>, value: Seq<char>)
    requires
        is_absolute_path(cwd),
    ensures
        resolved(cwd, resolved(cwd, value)) == resolved(cwd, value),
{
}

/// A name is kept whole by joining: what was joined to the same directory and
/// came out equal was equal before.
pub proof fn lemma_joined_cancels(base: Seq<char>, x: Seq<char>, y: Seq<char>)
    requires
        !is_absolute_path(x),
        !is_absolute_path(y),
        joined(base, x) == joined(base, y),
    ensures
        x == y,
{
    let p = if needs_separator(base) {
        base + seq!['/']
    } else {
        base
    };
    assert(joined(base, x) =~= p + x);
    assert(joined(base, y) =~= p + y);
    assert(x =~= (p + x).subrange(p.len() as int, (p + x).len() as int));
    assert(y =~= (p + y).subrange(p.len() as int, (p + y).len() as int));
}

} // verus!
