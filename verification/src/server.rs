//! What a tool call leaves open, filled in.
//!
//! A tool request may leave out its working directory, its output
//! directory, the base name of its output files and more. The defaults are
//! decided here, and so is which of the events found a follow-up call is
//! made for.

use vstd::prelude::*;
use vstd::string::*;
use crate::paths::{
    default_artifacts_dir,
    default_exports_dir,
    artifacts_dir_of,
    exports_dir_of,
    join,
    joined,
    resolve_path_from_base,
    resolved,
};
use crate::workflows::FindEventsResponse;

verus! {

/// The host on which a target is looked for.
pub fn default_host() -> (out: String)
    ensures
        out@ == "localhost"@,
{
    "localhost".to_owned()
}

/// The number of frames to capture.
pub fn default_frames() -> (out: u32)
    ensures
        out == 1,
{
    1
}

/// The number of seconds to wait for a capture.
pub fn default_timeout_s() -> (out: u32)
    ensures
        out == 60,
{
    60
}

/// The default of a switch that is on unless it is turned off.
pub fn default_true() -> (out: bool)
    ensures
        out,
{
    true
}

/// The number of events to report.
pub fn default_max_results() -> (out: Option<u32>)
    ensures
        out == Some(200u32),
{
    Some(200)
}

/// The buffer elements to track: the first one.
pub fn default_tracked_indices() -> (out: Vec<u32>)
    ensures
        out@ == seq![0u32],
{
    crate::workflows::default_tracked_indices()
}

/// The number of resources to report.
pub fn default_max_search_results() -> (out: Option<u32>)
    ensures
        out == Some(500u32),
{
    crate::workflows::default_max_search_results()
}

/// Whether a query is a regular expression unless the request says it is
/// plain text: it is.
pub fn default_regex_mode() -> (out: bool)
    ensures
        out,
{
    true
}

/// The working directory of a tool call: the directory the request names,
/// read relative to the directory of the process, or that directory itself.
/// If the directory of the process is not known the call fails, whatever
/// the request names.
pub open spec fn base_cwd(current: Result<Seq<char>, Seq<char>>, cwd: Option<Seq<char>>) -> Result<
    Seq<char>,
    Seq<char>,
> {
    match current {
        Err(e) => Err("get cwd failed: "@ + e),
        Ok(dir) => match cwd {
            None => Ok(dir),
            Some(p) => Ok(resolved(dir, p)),
        },
    }
}

/// Decides the working directory of a tool call. `current` is the directory
/// of the process, or why it could not be had.
pub fn resolve_base_cwd(current: Result<String, String>, cwd: Option<String>) -> (out: Result<
    String,
    String,
>)
    ensures
        match base_cwd(
            match current {
                Ok(d) => Ok(d@),
                Err(e) => Err(e@),
            },
            match cwd {
                Some(p) => Some(p@),
                None => None,
            },
        ) {
            Ok(dir) => out is Ok && out->Ok_0@ == dir,
            Err(e) => out is Err && out->Err_0@ == e,
        },
{
    let current = match current {
        Ok(dir) => dir,
        Err(e) => {
            return Err("get cwd failed: ".to_owned().concat(e.as_str()));
        },
    };
    match cwd {
        None => Ok(current),
        Some(p) => Ok(resolve_path_from_base(current.as_str(), p.as_str())),
    }
}

/// The directory for captures: the one the request names, resolved against
/// `cwd`, or `<cwd>/artifacts/renderdoc`.
pub fn artifacts_dir_or_default(cwd: &str, artifacts_dir: &Option<String>) -> (out: String)
    ensures
        out@ == match *artifacts_dir {
            Some(p) => resolved(cwd@, p@),
            None => artifacts_dir_of(cwd@),
        },
{
    match artifacts_dir {
        Some(p) => resolve_path_from_base(cwd, p.as_str()),
        None => default_artifacts_dir(cwd),
    }
}

/// The directory for exports: the one the request names, resolved against
/// `cwd`, or `<cwd>/artifacts/renderdoc/exports`.
pub fn output_dir_or_default(cwd: &str, output_dir: &Option<String>) -> (out: String)
    ensures
        out@ == match *output_dir {
            Some(p) => resolved(cwd@, p@),
            None => exports_dir_of(cwd@),
        },
{
    match output_dir {
        Some(p) => resolve_path_from_base(cwd, p.as_str()),
        None => default_exports_dir(cwd),
    }
}

/// The directory for saved images: the one the request names, resolved
/// against `cwd`, or `<cwd>/artifacts/renderdoc/exports/replay`.
pub fn replay_output_dir_or_default(cwd: &str, output_dir: &Option<String>) -> (out: String)
    ensures
        out@ == match *output_dir {
            Some(p) => resolved(cwd@, p@),
            None => joined(exports_dir_of(cwd@), "replay"@),
        },
{
    match output_dir {
        Some(p) => resolve_path_from_base(cwd, p.as_str()),
        None => {
            let exports = default_exports_dir(cwd);
            join(exports.as_str(), "replay")
        },
    }
}

/// The file that captures are named after: `<artifacts_dir>/<name>.rdc`, if
/// the request gives a name.
pub fn capture_file_template(artifacts_dir: &str, name: &Option<String>) -> (out: Option<String>)
    ensures
        match *name {
            Some(n) => out is Some && out->0@ == joined(artifacts_dir@, n@ + ".rdc"@),
            None => out is None,
        },
{
    match name {
        Some(n) => {
            let file = n.clone().concat(".rdc");
            Some(join(artifacts_dir, file.as_str()))
        },
        None => None,
    }
}

/// What `std::path::Path::file_stem` returns for a path, as far as it is
/// text: the last component without its extension, `None` where there is
/// none.
pub uninterp spec fn file_stem_of(path: Seq<char>) -> Option<Seq<char>>;

/// Calls `std::path::Path::file_stem` and hands the stem back as text. The
/// result is a function of the path alone and is named [`file_stem_of`].
#[verifier::external_body]
fn path_file_stem(path: &str) -> (out: Option<String>)
    ensures
        match out {
            Some(s) => file_stem_of(path@) == Some(s@),
            None => file_stem_of(path@) is None,
        },
{
    std::path::Path::new(path).file_stem().and_then(|s| s.to_str()).map(|s| s.to_owned())
}

/// The base name of output files: the one the request names, or the name of
/// the capture without its extension, or `capture`.
pub open spec fn basename_for(basename: Option<Seq<char>>, stem: Option<Seq<char>>) -> Seq<char> {
    match basename {
        Some(b) => b,
        None => match stem {
            Some(s) => s,
            None => "capture"@,
        },
    }
}

/// Decides the base name of output files from what the request names and
/// from the file stem of the capture.
pub fn basename_from(basename: Option<String>, stem: Option<String>) -> (out: String)
    ensures
        out@ == basename_for(
            match basename {
                Some(b) => Some(b@),
                None => None,
            },
            match stem {
                Some(s) => Some(s@),
                None => None,
            },
        ),
{
    match basename {
        Some(b) => b,
        None => match stem {
            Some(s) => s,
            None => "capture".to_owned(),
        },
    }
}

/// Decides the base name of output files for the capture at `capture_path`.
pub fn basename_or_default(basename: Option<String>, capture_path: &str) -> (out: String)
    ensures
        out@ == basename_for(
            match basename {
                Some(b) => Some(b@),
                None => None,
            },
            file_stem_of(capture_path@),
        ),
{
    match basename {
        Some(b) => b,
        None => basename_from(None, path_file_stem(capture_path)),
    }
}

/// The file for the thumbnail: the one the request names, resolved against
/// `cwd`, or `<output_dir>/<basename>.thumb.png`.
pub fn thumbnail_path_or_default(
    cwd: &str,
    thumbnail_output_path: &Option<String>,
    output_dir: &str,
    basename: &str,
) -> (out: String)
    ensures
        out@ == match *thumbnail_output_path {
            Some(p) => resolved(cwd@, p@),
            None => joined(output_dir@, basename@ + ".thumb.png"@),
        },
{
    match thumbnail_output_path {
        Some(p) => resolve_path_from_base(cwd, p.as_str()),
        None => {
            let file = basename.to_owned().concat(".thumb.png");
            join(output_dir, file.as_str())
        },
    }
}

/// Which of the events found is taken.
#[derive(Clone, Copy, Debug, PartialEq, Eq, Structural)]
pub enum FindEventSelection {
    /// The first event that matched.
    First,
    /// The last event that matched.
    Last,
}

impl Default for FindEventSelection {
    fn default() -> (out: Self)
        ensures
            out == FindEventSelection::Last,
    {
        FindEventSelection::Last
    }
}

/// The event that a selection picks from what was found, or why there is
/// none.
pub open spec fn selected_event(
    total_matches: u64,
    first_event_id: Option<u32>,
    last_event_id: Option<u32>,
    matches: Seq<u32>,
    selection: FindEventSelection,
) -> Result<u32, Seq<char>> {
    if total_matches == 0 {
        Err("no matching events found; refine filters or disable only_drawcalls"@)
    } else {
        let named = match selection {
            FindEventSelection::First => first_event_id,
            FindEventSelection::Last => last_event_id,
        };
        match named {
            Some(id) => Ok(id),
            None => if matches.len() == 0 {
                Err("no matching events found"@)
            } else {
                match selection {
                    FindEventSelection::First => Ok(matches.first()),
                    FindEventSelection::Last => Ok(matches.last()),
                }
            },
        }
    }
}

/// The event ids of the matches in a response, in their order.
pub open spec fn match_ids(find: FindEventsResponse) -> Seq<u32> {
    Seq::new(find.matches@.len(), |i: int| find.matches@[i].event_id)
}

/// Picks the event for which a follow-up call is made.
///
/// The response names its first and its last match; where it does not, the
/// first or last of the matches it lists is taken. A response without a
/// match is a failure.
pub fn select_event_id(find: &FindEventsResponse, selection: FindEventSelection) -> (out: Result<
    u32,
    String,
>)
    ensures
        match selected_event(
            find.total_matches,
            find.first_event_id,
            find.last_event_id,
            match_ids(*find),
            selection,
        ) {
            Ok(id) => out == Ok::<u32, String>(id),
            Err(m) => out is Err && out->Err_0@ == m,
        },
{
    if find.total_matches == 0 {
        return Err(
            "no matching events found; refine filters or disable only_drawcalls".to_owned(),
        );
    }
    let named = match selection {
        FindEventSelection::First => find.first_event_id,
        FindEventSelection::Last => find.last_event_id,
    };
    match named {
        Some(id) => Ok(id),
        None => {
            let n = find.matches.len();
            if n == 0 {
                Err("no matching events found".to_owned())
            } else {
                match selection {
                    FindEventSelection::First => Ok(find.matches[0].event_id),
                    FindEventSelection::Last => Ok(find.matches[n - 1].event_id),
                }
            }
        },
    }
}

} // verus!
