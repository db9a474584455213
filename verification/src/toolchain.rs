//! Finding the RenderDoc tools.
//!
//! An installation is a directory that holds `qrenderdoc` and
//! `renderdoccmd`. It is named outright, or found by looking for the two
//! programs in the directories of the search path.

use vstd::prelude::*;
use vstd::string::*;
use crate::copies::{text_of, texts_of};
use crate::paths::{join, joined};

verus! {

/// The variable that names the installation directory.
pub const RENDERDOC_DIR_VARIABLE: &'static str = "RENDERDOG_RENDERDOC_DIR";

/// Where the RenderDoc tools are.
#[derive(Debug, Clone, PartialEq, Eq)]
pub struct RenderDocInstallation {
    pub root_dir: String,
    pub qrenderdoc_exe: String,
    pub renderdoccmd_exe: String,
}

/// A [`RenderDocInstallation`] as a plain value.
pub struct InstallationView {
    pub root_dir: Seq<char>,
    pub qrenderdoc_exe: Seq<char>,
    pub renderdoccmd_exe: Seq<char>,
}

impl View for RenderDocInstallation {
    type V = InstallationView;

    open spec fn view(&self) -> InstallationView {
        InstallationView {
            root_dir: self.root_dir@,
            qrenderdoc_exe: self.qrenderdoc_exe@,
            renderdoccmd_exe: self.renderdoccmd_exe@,
        }
    }
}

/// Why no installation was found.
#[derive(Debug, Clone, PartialEq, Eq)]
pub enum DetectInstallationError {
    /// No directory was named and the search path holds no installation.
    NotFound,
    /// The directory named lacks one of the two programs.
    MissingComponent(String, &'static str),
}

/// A [`DetectInstallationError`] as a plain value.
pub enum DetectErrorView {
    NotFound,
    MissingComponent(Seq<char>, Seq<char>),
}

impl View for DetectInstallationError {
    type V = DetectErrorView;

    open spec fn view(&self) -> DetectErrorView {
        match *self {
            DetectInstallationError::NotFound => DetectErrorView::NotFound,
            DetectInstallationError::MissingComponent(dir, name) => DetectErrorView::MissingComponent(
                dir@,
                name@,
            ),
        }
    }
}

/// The text shown for a [`DetectInstallationError`].
pub open spec fn detect_error_text(e: DetectErrorView) -> Seq<char> {
    match e {
        DetectErrorView::NotFound => "renderdoc installation not found; set RENDERDOG_RENDERDOC_DIR to the RenderDoc install root (contains qrenderdoc + renderdoccmd), or add them to PATH"@,
        DetectErrorView::MissingComponent(dir, name) => "renderdoc installation at "@ + dir
            + " is missing "@ + name
            + "; set RENDERDOG_RENDERDOC_DIR to the RenderDoc install root (contains qrenderdoc + renderdoccmd)"@,
    }
}

impl DetectInstallationError {
    /// The failure in words.
    pub fn message(&self) -> (out: String)
        ensures
            out@ == detect_error_text(self@),
    {
        match self {
            DetectInstallationError::NotFound => "renderdoc installation not found; set RENDERDOG_RENDERDOC_DIR to the RenderDoc install root (contains qrenderdoc + renderdoccmd), or add them to PATH".to_owned(),
            DetectInstallationError::MissingComponent(dir, name) => {
                let mut out = "renderdoc installation at ".to_owned();
                out.append(dir.as_str());
                out.append(" is missing ");
                out.append(name);
                out.append(
                    "; set RENDERDOG_RENDERDOC_DIR to the RenderDoc install root (contains qrenderdoc + renderdoccmd)",
                );
                out
            },
        }
    }
}

/// The file names of the two programs. They differ between platforms, so
/// the caller says which ones to look for.
#[derive(Clone, Copy, Debug, PartialEq, Eq)]
pub struct ProgramNames {
    /// The replay program.
    pub qrenderdoc: &'static str,
    /// The command line program.
    pub renderdoccmd: &'static str,
}

impl ProgramNames {
    /// The names on Unix: `qrenderdoc` and `renderdoccmd`.
    pub fn unix() -> (out: Self)
        ensures
            out.qrenderdoc@ == "qrenderdoc"@,
            out.renderdoccmd@ == "renderdoccmd"@,
    {
        ProgramNames { qrenderdoc: "qrenderdoc", renderdoccmd: "renderdoccmd" }
    }

    /// The names on Windows: `qrenderdoc.exe` and `renderdoccmd.exe`.
    pub fn windows() -> (out: Self)
        ensures
            out.qrenderdoc@ == "qrenderdoc.exe"@,
            out.renderdoccmd@ == "renderdoccmd.exe"@,
    {
        ProgramNames { qrenderdoc: "qrenderdoc.exe", renderdoccmd: "renderdoccmd.exe" }
    }

    /// The names on the platform that the caller runs on.
    pub fn on(windows: bool) -> (out: Self)
        ensures
            windows ==> out.qrenderdoc@ == "qrenderdoc.exe"@ && out.renderdoccmd@
                == "renderdoccmd.exe"@,
            !windows ==> out.qrenderdoc@ == "qrenderdoc"@ && out.renderdoccmd@ == "renderdoccmd"@,
    {
        if windows {
            Self::windows()
        } else {
            Self::unix()
        }
    }
}

/// The installation at `root` for programs of the given names, or the first
/// program that `root` lacks.
pub open spec fn installation_named(
    root: Seq<char>,
    qrenderdoc: Seq<char>,
    renderdoccmd: Seq<char>,
    has_qrenderdoc: bool,
    has_renderdoccmd: bool,
) -> Result<InstallationView, DetectErrorView> {
    if !has_qrenderdoc {
        Err(DetectErrorView::MissingComponent(root, qrenderdoc))
    } else if !has_renderdoccmd {
        Err(DetectErrorView::MissingComponent(root, renderdoccmd))
    } else {
        Ok(
            InstallationView {
                root_dir: root,
                qrenderdoc_exe: joined(root, qrenderdoc),
                renderdoccmd_exe: joined(root, renderdoccmd),
            },
        )
    }
}

/// The installation at `root` for the Unix names, or the first program
/// that `root` lacks.
pub open spec fn installation_for(root: Seq<char>, has_qrenderdoc: bool, has_renderdoccmd: bool) -> Result<
    InstallationView,
    DetectErrorView,
> {
    installation_named(root, "qrenderdoc"@, "renderdoccmd"@, has_qrenderdoc, has_renderdoccmd)
}

/// The path of the first directory in which the program was seen, with the
/// program's name joined to it. `hits` holds the answers of the disk for the
/// directories in their order; a directory without an answer was not looked
/// into.
pub open spec fn first_hit(dirs: Seq<Seq<char>>, exe_name: Seq<char>, hits: Seq<bool>) -> Option<
    Seq<char>,
>
    decreases dirs.len(),
{
    if dirs.len() == 0 || hits.len() == 0 {
        None
    } else if hits[0] {
        Some(joined(dirs[0], exe_name))
    } else {
        first_hit(dirs.drop_first(), exe_name, hits.drop_first())
    }
}

/// What `std::path::Path::parent` returns for a path, `None` where the path
/// has no parent.
pub uninterp spec fn parent_of(path: Seq<char>) -> Option<Seq<char>>;

/// The installation that two found programs make up: its directory is the
/// parent of `qrenderdoc`.
pub open spec fn installation_from(qrenderdoc: Option<Seq<char>>, renderdoccmd: Option<Seq<char>>) -> Option<
    InstallationView,
> {
    match (qrenderdoc, renderdoccmd) {
        (Some(q), Some(r)) => match parent_of(q) {
            Some(root) => Some(
                InstallationView { root_dir: root, qrenderdoc_exe: q, renderdoccmd_exe: r },
            ),
            None => None,
        },
        _ => None,
    }
}

/// The installation that a search of `dirs` for programs of the given names
/// finds, given the answers of the disk for each of the two.
pub open spec fn found_named(
    dirs: Seq<Seq<char>>,
    qrenderdoc: Seq<char>,
    renderdoccmd: Seq<char>,
    qrenderdoc_hits: Seq<bool>,
    renderdoccmd_hits: Seq<bool>,
) -> Option<InstallationView> {
    installation_from(
        first_hit(dirs, qrenderdoc, qrenderdoc_hits),
        first_hit(dirs, renderdoccmd, renderdoccmd_hits),
    )
}

/// The installation that a search of `dirs` for the Unix names finds.
pub open spec fn found_with(dirs: Seq<Seq<char>>, qrenderdoc_hits: Seq<bool>, renderdoccmd_hits: Seq<bool>) -> Option<
    InstallationView,
> {
    found_named(dirs, "qrenderdoc"@, "renderdoccmd"@, qrenderdoc_hits, renderdoccmd_hits)
}

/// What a detection without a named directory comes to: the installation
/// at the platform's usual place, if there is one and it is whole, or else
/// the one on the search path, or else nothing.
pub open spec fn searched(
    usual_root: Option<Seq<char>>,
    dirs: Seq<Seq<char>>,
    qrenderdoc: Seq<char>,
    renderdoccmd: Seq<char>,
    has_qrenderdoc: bool,
    has_renderdoccmd: bool,
    qrenderdoc_hits: Seq<bool>,
    renderdoccmd_hits: Seq<bool>,
) -> Result<InstallationView, DetectErrorView> {
    let on_path = match found_named(dirs, qrenderdoc, renderdoccmd, qrenderdoc_hits, renderdoccmd_hits) {
        Some(found) => Ok(found),
        None => Err(DetectErrorView::NotFound),
    };
    match usual_root {
        Some(root) => match installation_named(
            root,
            qrenderdoc,
            renderdoccmd,
            has_qrenderdoc,
            has_renderdoccmd,
        ) {
            Ok(found) => Ok(found),
            Err(_) => on_path,
        },
        None => on_path,
    }
}

/// Calls `std::path::Path::is_file`: whether `path` names a regular file at
/// this moment. Nothing is claimed of the answer, which depends on the disk.
#[verifier::external_body]
fn path_is_file(path: &str) -> (found: bool) {
    std::path::Path::new(path).is_file()
}

/// Calls `std::path::Path::parent` and hands the parent back as text. The
/// result is a function of the path alone and is named [`parent_of`].
#[verifier::external_body]
fn path_parent(path: &str) -> (out: Option<String>)
    ensures
        match out {
            Some(p) => parent_of(path@) == Some(p@),
            None => parent_of(path@) is None,
        },
{
    std::path::Path::new(path).parent().map(|p| p.to_string_lossy().into_owned())
}

impl RenderDocInstallation {
    /// The file name of the replay program on Unix.
    pub fn qrenderdoc_exe_name() -> (name: &'static str)
        ensures
            name@ == "qrenderdoc"@,
    {
        "qrenderdoc"
    }

    /// The file name of the command line program on Unix.
    pub fn renderdoccmd_exe_name() -> (name: &'static str)
        ensures
            name@ == "renderdoccmd"@,
    {
        "renderdoccmd"
    }

    /// The installation at `root_dir` for programs of the given names, given
    /// which of the two were seen there.
    pub fn from_probed_root_dir_named(
        root_dir: String,
        names: ProgramNames,
        has_qrenderdoc: bool,
        has_renderdoccmd: bool,
    ) -> (out: Result<Self, DetectInstallationError>)
        ensures
            match installation_named(
                root_dir@,
                names.qrenderdoc@,
                names.renderdoccmd@,
                has_qrenderdoc,
                has_renderdoccmd,
            ) {
                Ok(v) => out is Ok && out->Ok_0@ == v,
                Err(e) => out is Err && out->Err_0@ == e,
            },
    {
        if !has_qrenderdoc {
            return Err(DetectInstallationError::MissingComponent(root_dir, names.qrenderdoc));
        }
        if !has_renderdoccmd {
            return Err(DetectInstallationError::MissingComponent(root_dir, names.renderdoccmd));
        }
        let qrenderdoc_exe = join(root_dir.as_str(), names.qrenderdoc);
        let renderdoccmd_exe = join(root_dir.as_str(), names.renderdoccmd);
        Ok(RenderDocInstallation { root_dir, qrenderdoc_exe, renderdoccmd_exe })
    }

    /// The installation at `root_dir` for the Unix names, given which of the
    /// two programs were seen there.
    pub fn from_probed_root_dir(root_dir: String, has_qrenderdoc: bool, has_renderdoccmd: bool) -> (out:
        Result<Self, DetectInstallationError>)
        ensures
            match installation_for(root_dir@, has_qrenderdoc, has_renderdoccmd) {
                Ok(v) => out is Ok && out->Ok_0@ == v,
                Err(e) => out is Err && out->Err_0@ == e,
            },
    {
        Self::from_probed_root_dir_named(
            root_dir,
            ProgramNames::unix(),
            has_qrenderdoc,
            has_renderdoccmd,
        )
    }

    /// Looks into `root_dir` for the two programs of the given names.
    ///
    /// Whether they are there is for the disk to say. The first is looked
    /// for at `<root_dir>/<qrenderdoc>`, the second, if the first is there,
    /// at `<root_dir>/<renderdoccmd>`, and the two answers are given to
    /// [`RenderDocInstallation::from_probed_root_dir_named`].
    pub fn from_root_dir_named(root_dir: String, names: ProgramNames) -> (out: Result<
        Self,
        DetectInstallationError,
    >)
        ensures
            exists|has_qrenderdoc: bool, has_renderdoccmd: bool|
                match #[trigger] installation_named(
                    root_dir@,
                    names.qrenderdoc@,
                    names.renderdoccmd@,
                    has_qrenderdoc,
                    has_renderdoccmd,
                ) {
                    Ok(v) => out is Ok && out->Ok_0@ == v,
                    Err(e) => out is Err && out->Err_0@ == e,
                },
    {
        let qrenderdoc_exe = join(root_dir.as_str(), names.qrenderdoc);
        let renderdoccmd_exe = join(root_dir.as_str(), names.renderdoccmd);
        let has_qrenderdoc = path_is_file(qrenderdoc_exe.as_str());
        let has_renderdoccmd = has_qrenderdoc && path_is_file(renderdoccmd_exe.as_str());
        let out = Self::from_probed_root_dir_named(
            root_dir,
            names,
            has_qrenderdoc,
            has_renderdoccmd,
        );
        assert(match installation_named(
            root_dir@,
            names.qrenderdoc@,
            names.renderdoccmd@,
            has_qrenderdoc,
            has_renderdoccmd,
        ) {
            Ok(v) => out is Ok && out->Ok_0@ == v,
            Err(e) => out is Err && out->Err_0@ == e,
        });
        out
    }

    /// Looks into `root_dir` for the two programs under their Unix names.
    pub fn from_root_dir(root_dir: String) -> (out: Result<Self, DetectInstallationError>)
        ensures
            exists|has_qrenderdoc: bool, has_renderdoccmd: bool|
                match #[trigger] installation_for(root_dir@, has_qrenderdoc, has_renderdoccmd) {
                    Ok(v) => out is Ok && out->Ok_0@ == v,
                    Err(e) => out is Err && out->Err_0@ == e,
                },
    {
        let out = Self::from_root_dir_named(root_dir, ProgramNames::unix());
        proof {
            let (q, r) = choose|q: bool, r: bool|
                match #[trigger] installation_named(
                    root_dir@,
                    "qrenderdoc"@,
                    "renderdoccmd"@,
                    q,
                    r,
                ) {
                    Ok(v) => out is Ok && out->Ok_0@ == v,
                    Err(e) => out is Err && out->Err_0@ == e,
                };
            assert(match installation_for(root_dir@, q, r) {
                Ok(v) => out is Ok && out->Ok_0@ == v,
                Err(e) => out is Err && out->Err_0@ == e,
            });
        }
        out
    }

    /// The installation that the two found programs make up, if both were
    /// found and `qrenderdoc` has a parent directory.
    pub fn from_found(qrenderdoc: Option<String>, renderdoccmd: Option<String>) -> (out: Option<Self>)
        ensures
            match installation_from(
                match qrenderdoc {
                    Some(q) => Some(q@),
                    None => None,
                },
                match renderdoccmd {
                    Some(r) => Some(r@),
                    None => None,
                },
            ) {
                Some(v) => out is Some && out->0@ == v,
                None => out is None,
            },
    {
        match (qrenderdoc, renderdoccmd) {
            (Some(q), Some(r)) => match path_parent(q.as_str()) {
                Some(root_dir) => Some(
                    RenderDocInstallation { root_dir, qrenderdoc_exe: q, renderdoccmd_exe: r },
                ),
                None => None,
            },
            _ => None,
        }
    }

    /// Looks for the two programs of the given names in `dirs`, the
    /// directories of the search path in their order.
    ///
    /// In which directories the programs are is for the disk to say. Each
    /// is looked for with [`find_in_path`], the second only if the first was
    /// found, and what was found is given to
    /// [`RenderDocInstallation::from_found`].
    pub fn from_path_env_named(dirs: &Vec<String>, names: ProgramNames) -> (out: Option<Self>)
        ensures
            exists|qrenderdoc_hits: Seq<bool>, renderdoccmd_hits: Seq<bool>|
                match #[trigger] found_named(
                    texts_of(*dirs),
                    names.qrenderdoc@,
                    names.renderdoccmd@,
                    qrenderdoc_hits,
                    renderdoccmd_hits,
                ) {
                    Some(v) => out is Some && out->0@ == v,
                    None => out is None,
                },
    {
        let qrenderdoc = find_in_path(names.qrenderdoc, dirs);
        let ghost qrenderdoc_hits = choose|hits: Seq<bool>|
            hits.len() <= dirs.len() && match #[trigger] first_hit(
                texts_of(*dirs),
                names.qrenderdoc@,
                hits,
            ) {
                Some(p) => qrenderdoc is Some && qrenderdoc->0@ == p,
                None => qrenderdoc is None,
            };
        if qrenderdoc.is_none() {
            assert(found_named(
                texts_of(*dirs),
                names.qrenderdoc@,
                names.renderdoccmd@,
                qrenderdoc_hits,
                Seq::empty(),
            ) is None);
            return None;
        }
        let renderdoccmd = find_in_path(names.renderdoccmd, dirs);
        let ghost renderdoccmd_hits = choose|hits: Seq<bool>|
            hits.len() <= dirs.len() && match #[trigger] first_hit(
                texts_of(*dirs),
                names.renderdoccmd@,
                hits,
            ) {
                Some(p) => renderdoccmd is Some && renderdoccmd->0@ == p,
                None => renderdoccmd is None,
            };
        let out = Self::from_found(qrenderdoc, renderdoccmd);
        assert(match found_named(
            texts_of(*dirs),
            names.qrenderdoc@,
            names.renderdoccmd@,
            qrenderdoc_hits,
            renderdoccmd_hits,
        ) {
            Some(v) => out is Some && out->0@ == v,
            None => out is None,
        });
        out
    }

    /// Looks for the two programs under their Unix names in `dirs`.
    pub fn from_path_env(dirs: &Vec<String>) -> (out: Option<Self>)
        ensures
            exists|qrenderdoc_hits: Seq<bool>, renderdoccmd_hits: Seq<bool>|
                match #[trigger] found_with(texts_of(*dirs), qrenderdoc_hits, renderdoccmd_hits) {
                    Some(v) => out is Some && out->0@ == v,
                    None => out is None,
                },
    {
        let out = Self::from_path_env_named(dirs, ProgramNames::unix());
        proof {
            let (hq, hr) = choose|hq: Seq<bool>, hr: Seq<bool>|
                match #[trigger] found_named(
                    texts_of(*dirs),
                    "qrenderdoc"@,
                    "renderdoccmd"@,
                    hq,
                    hr,
                ) {
                    Some(v) => out is Some && out->0@ == v,
                    None => out is None,
                };
            assert(match found_with(texts_of(*dirs), hq, hr) {
                Some(v) => out is Some && out->0@ == v,
                None => out is None,
            });
        }
        out
    }

    /// Finds the installation of programs of the given names.
    ///
    /// `renderdoc_dir` is what the variable [`RENDERDOC_DIR_VARIABLE`] holds,
    /// `usual_root` the directory where the platform installs RenderDoc by
    /// default, if it has one, and `path_dirs` the directories of the search
    /// path. A directory that is named decides alone: if it lacks a program
    /// nothing else is tried. Without one the usual place is taken if the
    /// installation there is whole, then the search path, and nothing found
    /// is the one failure.
    pub fn detect_named(
        renderdoc_dir: Option<String>,
        usual_root: Option<String>,
        path_dirs: &Vec<String>,
        names: ProgramNames,
    ) -> (out: Result<Self, DetectInstallationError>)
        ensures
            match renderdoc_dir {
                Some(root) => exists|has_qrenderdoc: bool, has_renderdoccmd: bool|
                    match #[trigger] installation_named(
                        root@,
                        names.qrenderdoc@,
                        names.renderdoccmd@,
                        has_qrenderdoc,
                        has_renderdoccmd,
                    ) {
                        Ok(v) => out is Ok && out->Ok_0@ == v,
                        Err(e) => out is Err && out->Err_0@ == e,
                    },
                None => exists|
                    has_qrenderdoc: bool,
                    has_renderdoccmd: bool,
                    qrenderdoc_hits: Seq<bool>,
                    renderdoccmd_hits: Seq<bool>,
                |
                    match #[trigger] searched(
                        text_of(usual_root),
                        texts_of(*path_dirs),
                        names.qrenderdoc@,
                        names.renderdoccmd@,
                        has_qrenderdoc,
                        has_renderdoccmd,
                        qrenderdoc_hits,
                        renderdoccmd_hits,
                    ) {
                        Ok(v) => out is Ok && out->Ok_0@ == v,
                        Err(e) => out is Err && out->Err_0@ == e,
                    },
            },
    {
        let ghost usual = text_of(usual_root);
        match renderdoc_dir {
            Some(candidate) => Self::from_root_dir_named(candidate, names),
            None => {
                let ghost mut seen = (false, false);
                match usual_root {
                    Some(root) => {
                        let at_usual = Self::from_root_dir_named(root, names);
                        proof {
                            seen = choose|q: bool, r: bool|
                                match #[trigger] installation_named(
                                    root@,
                                    names.qrenderdoc@,
                                    names.renderdoccmd@,
                                    q,
                                    r,
                                ) {
                                    Ok(v) => at_usual is Ok && at_usual->Ok_0@ == v,
                                    Err(e) => at_usual is Err && at_usual->Err_0@ == e,
                                };
                        }
                        match at_usual {
                            Ok(install) => {
                                assert(match searched(
                                    usual,
                                    texts_of(*path_dirs),
                                    names.qrenderdoc@,
                                    names.renderdoccmd@,
                                    seen.0,
                                    seen.1,
                                    Seq::empty(),
                                    Seq::empty(),
                                ) {
                                    Ok(v) => install@ == v,
                                    Err(e) => false,
                                });
                                return Ok(install);
                            },
                            Err(_) => {},
                        }
                    },
                    None => {},
                }
                let on_path = Self::from_path_env_named(path_dirs, names);
                let ghost (hq, hr) = choose|hq: Seq<bool>, hr: Seq<bool>|
                    match #[trigger] found_named(
                        texts_of(*path_dirs),
                        names.qrenderdoc@,
                        names.renderdoccmd@,
                        hq,
                        hr,
                    ) {
                        Some(v) => on_path is Some && on_path->0@ == v,
                        None => on_path is None,
                    };
                let out = match on_path {
                    Some(install) => Ok(install),
                    None => Err(DetectInstallationError::NotFound),
                };
                assert(match searched(
                    usual,
                    texts_of(*path_dirs),
                    names.qrenderdoc@,
                    names.renderdoccmd@,
                    seen.0,
                    seen.1,
                    hq,
                    hr,
                ) {
                    Ok(v) => out is Ok && out->Ok_0@ == v,
                    Err(e) => out is Err && out->Err_0@ == e,
                });
                out
            },
        }
    }

    /// Finds the installation under the Unix names, with no usual place.
    ///
    /// `renderdoc_dir` is what the variable [`RENDERDOC_DIR_VARIABLE`] holds,
    /// `path_dirs` the directories of the search path. A directory that is
    /// named decides alone: if it lacks a program the search path is not
    /// tried. Without one the search path decides, and nothing found there
    /// is the one failure.
    pub fn detect(renderdoc_dir: Option<String>, path_dirs: &Vec<String>) -> (out: Result<
        Self,
        DetectInstallationError,
    >)
        ensures
            match renderdoc_dir {
                Some(root) => exists|has_qrenderdoc: bool, has_renderdoccmd: bool|
                    match #[trigger] installation_for(root@, has_qrenderdoc, has_renderdoccmd) {
                        Ok(v) => out is Ok && out->Ok_0@ == v,
                        Err(e) => out is Err && out->Err_0@ == e,
                    },
                None => exists|qrenderdoc_hits: Seq<bool>, renderdoccmd_hits: Seq<bool>|
                    match #[trigger] found_with(
                        texts_of(*path_dirs),
                        qrenderdoc_hits,
                        renderdoccmd_hits,
                    ) {
                        Some(v) => out is Ok && out->Ok_0@ == v,
                        None => out is Err && out->Err_0@ == DetectErrorView::NotFound,
                    },
            },
    {
        match renderdoc_dir {
            Some(candidate) => Self::from_root_dir(candidate),
            None => match Self::from_path_env(path_dirs) {
                Some(install) => Ok(install),
                None => Err(DetectInstallationError::NotFound),
            },
        }
    }
}

/// The path of the program in the first directory for which `hits` says it
/// was seen.
pub fn first_existing(exe_name: &str, dirs: &Vec<String>, hits: &Vec<bool>) -> (out: Option<String>)
    ensures
        match first_hit(texts_of(*dirs), exe_name@, hits@) {
            Some(p) => out is Some && out->0@ == p,
            None => out is None,
        },
{
    let ghost all = texts_of(*dirs);
    let mut i: usize = 0;
    proof {
        assert(all.skip(0) =~= all);
        assert(hits@.skip(0) =~= hits@);
    }
    while i < dirs.len() && i < hits.len()
        invariant
            i <= dirs.len(),
            i <= hits.len(),
            all == texts_of(*dirs),
            first_hit(all, exe_name@, hits@) == first_hit(
                all.skip(i as int),
                exe_name@,
                hits@.skip(i as int),
            ),
        decreases dirs.len() - i,
    {
        proof {
            let d = all.skip(i as int);
            let h = hits@.skip(i as int);
            assert(d.drop_first() =~= all.skip(i + 1));
            assert(h.drop_first() =~= hits@.skip(i + 1));
            assert(d[0] == dirs@[i as int]@);
            assert(h[0] == hits@[i as int]);
        }
        if hits[i] {
            return Some(join(dirs[i].as_str(), exe_name));
        }
        i = i + 1;
    }
    proof {
        assert(all.skip(i as int).len() == 0 || hits@.skip(i as int).len() == 0);
    }
    None
}

/// Looks for `exe_name` in `dirs`, in their order, and returns the first
/// path at which the disk shows a file.
///
/// The directories are looked into one after the other, up to the first
/// that holds the program. The answers of the disk are noted in that order
/// and given to [`first_existing`], which decides.
pub fn find_in_path(exe_name: &str, dirs: &Vec<String>) -> (out: Option<String>)
    ensures
        exists|hits: Seq<bool>|
            hits.len() <= dirs.len() && match #[trigger] first_hit(
                texts_of(*dirs),
                exe_name@,
                hits,
            ) {
                Some(p) => out is Some && out->0@ == p,
                None => out is None,
            },
{
    let mut hits: Vec<bool> = Vec::new();
    let mut found = false;
    while hits.len() < dirs.len() && !found
        invariant
            hits.len() <= dirs.len(),
        decreases dirs.len() - hits.len() + (if found { 0int } else { 1int }),
    {
        let candidate = join(dirs[hits.len()].as_str(), exe_name);
        found = path_is_file(candidate.as_str());
        hits.push(found);
    }
    let out = first_existing(exe_name, dirs, &hits);
    assert(hits@.len() <= dirs.len() && match first_hit(texts_of(*dirs), exe_name@, hits@) {
        Some(p) => out is Some && out->0@ == p,
        None => out is None,
    });
    out
}

} // verus!
