//! The files of a call, and what the file actions do to them.
//!
//! The library never touches a file; it asks its caller to. This module says
//! what it takes each file action to mean, over a plain model of the files
//! below the scripts directory, and states what follows: that the script on
//! disk is the script of the calling program, that no stale response
//! survives until the host runs, and that two calls, or two operations,
//! never meet in a file. What running the host does to the files is not
//! modelled: that is the script's business.

use vstd::prelude::*;
use vstd::utf8::encode_utf8;
use crate::error::{FailureKind, IoFailureView};
use crate::exchange::{
    plan_of, removal_outcome, request_path_of, response_path_of, script_path_of, ActionView,
    PlanView,
};
use crate::paths::{is_absolute_path, lemma_joined_cancels};
use crate::rundir::{
    lemma_run_dir_ends_in_a_digit, lemma_run_dirs_are_distinct, run_dir_path, run_root, RunToken,
};

verus! {

/// The files that exist, by path, with their contents.
pub type Files = Map<Seq<char>, Seq<u8>>;

/// The files after `action` has been performed successfully.
pub open spec fn after(files: Files, action: ActionView) -> Files {
    match action {
        ActionView::WriteFile { path, contents } => files.insert(path, contents),
        ActionView::RemoveFile { path } => files.remove(path),
        _ => files,
    }
}

/// The files after `action` has been performed `n` times.
pub open spec fn after_times(files: Files, action: ActionView, n: nat) -> Files
    decreases n,
{
    if n == 0 {
        files
    } else {
        after(after_times(files, action, (n - 1) as nat), action)
    }
}

/// How the guard's removal ends on `files`: removing what is not there is
/// reported as not found.
pub open spec fn removal_report(files: Files, path: Seq<char>) -> Result<(), IoFailureView> {
    if files.dom().contains(path) {
        Ok(())
    } else {
        Err(IoFailureView { kind: FailureKind::NotFound, message: Seq::empty() })
    }
}

/// Materializing a script is idempotent: after one write or after many the
/// script file holds the bytes of the script text, whatever it held before,
/// and no other file has changed.
pub proof fn lemma_materialization_is_idempotent(files: Files, plan: PlanView, n: nat)
    requires
        n >= 1,
    ensures
        after_times(files, plan.ensure_script(), n) == files.insert(
            plan.script_path,
            encode_utf8(plan.script_text),
        ),
        after_times(files, plan.ensure_script(), n).dom().contains(plan.script_path),
        after_times(files, plan.ensure_script(), n)[plan.script_path] == encode_utf8(
            plan.script_text,
        ),
    decreases n,
{
    let written = files.insert(plan.script_path, encode_utf8(plan.script_text));
    if n == 1 {
        assert(after_times(files, plan.ensure_script(), 0) == files);
    } else {
        lemma_materialization_is_idempotent(files, plan, (n - 1) as nat);
        assert(written.insert(plan.script_path, encode_utf8(plan.script_text)) =~= written);
    }
}

/// The guard leaves no response behind: a response that was there is gone,
/// and where none was the guard changes nothing and does not fail.
pub proof fn lemma_guard_clears_the_response(files: Files, plan: PlanView)
    ensures
        !after(files, plan.clear_stale_response()).dom().contains(plan.response_path),
        !files.dom().contains(plan.response_path) ==> after(files, plan.clear_stale_response())
            == files,
        removal_outcome(removal_report(files, plan.response_path)) is Ok,
{
    if !files.dom().contains(plan.response_path) {
        assert(files.remove(plan.response_path) =~= files);
    }
}

/// The guard touches nothing but the response file.
pub proof fn lemma_guard_spares_the_rest(files: Files, plan: PlanView, other: Seq<char>)
    requires
        other != plan.response_path,
    ensures
        after(files, plan.clear_stale_response()).dom().contains(other) == files.dom().contains(
            other,
        ),
        files.dom().contains(other) ==> after(files, plan.clear_stale_response())[other]
            == files[other],
{
}

/// The files after each of `actions` has been performed, in their order.
pub open spec fn after_all(files: Files, actions: Seq<ActionView>) -> Files
    decreases actions.len(),
{
    if actions.len() == 0 {
        files
    } else {
        after(after_all(files, actions.drop_last()), actions.last())
    }
}

/// The three files of a call are three different files: the response is
/// neither the request nor the script.
pub proof fn lemma_files_of_a_call_differ(
    host_program: Seq<char>,
    scripts_dir: Seq<char>,
    stem: Seq<char>,
    run_prefix: Seq<char>,
    script_text: Seq<char>,
    run_dir: Seq<char>,
)
    ensures
        ({
            let plan = plan_of(host_program, scripts_dir, stem, run_prefix, script_text, run_dir);
            &&& plan.response_path != plan.request_path
            &&& plan.response_path != plan.script_path
            &&& plan.request_path != plan.script_path
        }),
{
    reveal_strlit(".py");
    reveal_strlit(".request.json");
    reveal_strlit(".response.json");
    let plan = plan_of(host_program, scripts_dir, stem, run_prefix, script_text, run_dir);
    let script = stem + ".py"@;
    let request = stem + ".request.json"@;
    let response = stem + ".response.json"@;
    assert(script.last() == 'y');
    assert(request.last() == 'n');
    assert(response.last() == 'n');
    assert(plan.script_path.last() == 'y');
    assert(plan.request_path.last() == 'n');
    assert(plan.response_path.last() == 'n');
    assert(request.len() + 1 == response.len());
    assert(request[0] == response[0]);
    assert(is_absolute_path(request) == is_absolute_path(response));
    assert(plan.request_path.len() + 1 == plan.response_path.len());
}

/// The actions of a call up to the point where the host is run.
pub open spec fn steps_before_the_host(plan: PlanView, request: Seq<u8>) -> Seq<ActionView> {
    seq![
        plan.create_scripts_dir(),
        plan.ensure_script(),
        plan.create_run_root(),
        plan.create_run_dir(),
        plan.clear_stale_response(),
        ActionView::EncodeRequest,
        plan.write_request(request),
    ]
}

/// A clean slate: whatever the files were before, when the host is run the
/// script file holds the script, the request file holds the request, and
/// there is no response file. A response that is read afterwards was
/// written by this run.
pub proof fn lemma_clean_slate_before_the_host(
    files: Files,
    host_program: Seq<char>,
    scripts_dir: Seq<char>,
    stem: Seq<char>,
    run_prefix: Seq<char>,
    script_text: Seq<char>,
    run_dir: Seq<char>,
    request: Seq<u8>,
)
    ensures
        ({
            let plan = plan_of(host_program, scripts_dir, stem, run_prefix, script_text, run_dir);
            let before_host = after_all(files, steps_before_the_host(plan, request));
            &&& !before_host.dom().contains(plan.response_path)
            &&& before_host.dom().contains(plan.script_path)
            &&& before_host[plan.script_path] == encode_utf8(script_text)
            &&& before_host.dom().contains(plan.request_path)
            &&& before_host[plan.request_path] == request
        }),
{
    let plan = plan_of(host_program, scripts_dir, stem, run_prefix, script_text, run_dir);
    lemma_files_of_a_call_differ(host_program, scripts_dir, stem, run_prefix, script_text, run_dir);
    let steps = steps_before_the_host(plan, request);
    let s6 = steps.drop_last();
    let s5 = s6.drop_last();
    let s4 = s5.drop_last();
    let s3 = s4.drop_last();
    let s2 = s3.drop_last();
    let s1 = s2.drop_last();
    let s0 = s1.drop_last();
    assert(s0.len() == 0);
    assert(after_all(files, s0) == files);
    assert(after_all(files, s1) == files);
    assert(after_all(files, s2) == files.insert(plan.script_path, encode_utf8(script_text)));
    assert(after_all(files, s3) == after_all(files, s2));
    assert(after_all(files, s4) == after_all(files, s2));
    assert(after_all(files, s5) == after_all(files, s2).remove(plan.response_path));
    assert(after_all(files, s6) == after_all(files, s5));
    assert(after_all(files, steps) == after_all(files, s5).insert(plan.request_path, request));
}

/// Isolation: two calls of one operation share neither their request file
/// nor their response file. What one call writes the other never reads.
pub proof fn lemma_calls_do_not_share_files(
    scripts_dir: Seq<char>,
    stem: Seq<char>,
    run_prefix: Seq<char>,
    s: RunToken,
    t: RunToken,
)
    requires
        s != t,
        !is_absolute_path(stem),
    ensures
        ({
            let one = run_dir_path(scripts_dir, run_prefix, s);
            let other = run_dir_path(scripts_dir, run_prefix, t);
            &&& one != other
            &&& request_path_of(one, stem) != request_path_of(other, stem)
            &&& response_path_of(one, stem) != response_path_of(other, stem)
            &&& response_path_of(one, stem) != request_path_of(other, stem)
        }),
{
    reveal_strlit(".request.json");
    reveal_strlit(".response.json");
    let one = run_dir_path(scripts_dir, run_prefix, s);
    let other = run_dir_path(scripts_dir, run_prefix, t);
    lemma_run_dirs_are_distinct(scripts_dir, run_prefix, s, t);
    lemma_run_dir_ends_in_a_digit(scripts_dir, run_prefix, s);
    lemma_run_dir_ends_in_a_digit(scripts_dir, run_prefix, t);
    let request = stem + ".request.json"@;
    let response = stem + ".response.json"@;
    assert(request[0] == if stem.len() > 0 { stem[0] } else { '.' });
    assert(response[0] == if stem.len() > 0 { stem[0] } else { '.' });
    assert(request_path_of(one, stem) =~= one + seq!['/'] + request);
    assert(request_path_of(other, stem) =~= other + seq!['/'] + request);
    assert(response_path_of(one, stem) =~= one + seq!['/'] + response);
    assert(response_path_of(other, stem) =~= other + seq!['/'] + response);
    if request_path_of(one, stem) == request_path_of(other, stem) {
        assert(one =~= request_path_of(one, stem).subrange(0, one.len() as int));
        assert(other =~= request_path_of(other, stem).subrange(0, other.len() as int));
        assert(false);
    }
    if response_path_of(one, stem) == response_path_of(other, stem) {
        assert(one =~= response_path_of(one, stem).subrange(0, one.len() as int));
        assert(other =~= response_path_of(other, stem).subrange(0, other.len() as int));
        assert(false);
    }
    if response_path_of(one, stem) == request_path_of(other, stem) {
        let a = response_path_of(one, stem);
        let b = request_path_of(other, stem);
        assert(response[response.len() - 6] == 'e');
        assert(request[request.len() - 6] == 't');
        assert(a[a.len() - 6] == response[response.len() - 6]);
        assert(b[b.len() - 6] == request[request.len() - 6]);
        assert(false);
    }
}

/// Two operations with different names keep their scripts in different
/// files, and the runs of each below a directory of its own: materializing
/// one never touches what belongs to another.
pub proof fn lemma_operations_keep_apart(
    scripts_dir: Seq<char>,
    stem: Seq<char>,
    other_stem: Seq<char>,
    run_prefix: Seq<char>,
    other_run_prefix: Seq<char>,
)
    requires
        !is_absolute_path(stem),
        !is_absolute_path(other_stem),
        !is_absolute_path(run_prefix),
        !is_absolute_path(other_run_prefix),
    ensures
        stem != other_stem ==> script_path_of(scripts_dir, stem) != script_path_of(
            scripts_dir,
            other_stem,
        ),
        run_prefix != other_run_prefix ==> run_root(scripts_dir, run_prefix) != run_root(
            scripts_dir,
            other_run_prefix,
        ),
{
    reveal_strlit(".py");
    let a = stem + ".py"@;
    let b = other_stem + ".py"@;
    assert(a[0] == if stem.len() > 0 { stem[0] } else { '.' });
    assert(b[0] == if other_stem.len() > 0 { other_stem[0] } else { '.' });
    if script_path_of(scripts_dir, stem) == script_path_of(scripts_dir, other_stem) {
        lemma_joined_cancels(scripts_dir, a, b);
        assert(stem =~= a.subrange(0, a.len() - 3));
        assert(other_stem =~= b.subrange(0, b.len() - 3));
    }
    if run_root(scripts_dir, run_prefix) == run_root(scripts_dir, other_run_prefix) {
        lemma_joined_cancels(scripts_dir, run_prefix, other_run_prefix);
    }
}

} // verus!
