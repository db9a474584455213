use renderdog::paths::{
    default_artifacts_dir, default_exports_dir, default_scripts_dir, is_absolute, join,
    resolve_path_from_base, resolve_path_string_from_cwd,
};
use std::path::Path;

#[test]
fn relative_request_path_is_anchored_at_cwd() {
    assert_eq!(resolve_path_string_from_cwd("/work", "in.rdc"), "/work/in.rdc");
}

#[test]
fn absolute_request_path_is_left_unchanged() {
    assert_eq!(resolve_path_string_from_cwd("/work", "/abs/in.rdc"), "/abs/in.rdc");
}

#[test]
fn resolving_twice_against_absolute_cwd_changes_nothing() {
    let once = resolve_path_string_from_cwd("/work", "captures/in.rdc");
    let twice = resolve_path_string_from_cwd("/work", &once);
    assert_eq!(once, "/work/captures/in.rdc");
    assert_eq!(twice, once);
}

#[test]
fn resolving_twice_against_relative_cwd_nests() {
    let once = resolve_path_string_from_cwd("work", "in.rdc");
    let twice = resolve_path_string_from_cwd("work", &once);
    assert_eq!(once, "work/in.rdc");
    assert_eq!(twice, "work/work/in.rdc");
}

#[test]
fn resolve_from_base_agrees_with_resolve_from_cwd() {
    assert_eq!(resolve_path_from_base("/base", "x/y"), "/base/x/y");
    assert_eq!(resolve_path_from_base("/base", "/x/y"), "/x/y");
    assert_eq!(resolve_path_from_base("/base/", "x"), "/base/x");
}

#[test]
fn is_absolute_looks_at_the_first_character() {
    assert!(is_absolute("/"));
    assert!(is_absolute("/a"));
    assert!(!is_absolute(""));
    assert!(!is_absolute("a/b"));
    assert!(!is_absolute("./a"));
    assert!(!is_absolute("\u{e9}/a"));
}

#[test]
fn join_puts_exactly_one_separator() {
    assert_eq!(join("/a", "b"), "/a/b");
    assert_eq!(join("/a/", "b"), "/a/b");
    assert_eq!(join("", "b"), "b");
    assert_eq!(join("/a", ""), "/a/");
    assert_eq!(join("/a", "/b"), "/b");
    assert_eq!(join("a", "b/c"), "a/b/c");
    assert_eq!(join("/", "b"), "/b");
    assert_eq!(join("/caf\u{e9}", "\u{fc}ber"), "/caf\u{e9}/\u{fc}ber");
}

#[test]
fn join_agrees_with_std_on_unix() {
    let bases = ["", "/", "/a", "/a/", "a", "a/b", "a//", "/work dir", "/caf\u{e9}"];
    let rels = ["", "b", "/b", "b/c", "./b", "../b", "b/", "\u{fc}"];
    for base in bases {
        for rel in rels {
            let expected = Path::new(base).join(rel).to_string_lossy().into_owned();
            assert_eq!(join(base, rel), expected, "join({base:?}, {rel:?})");
            assert_eq!(is_absolute(rel), Path::new(rel).is_absolute());
        }
    }
}

#[test]
fn default_directories_lie_below_cwd() {
    assert_eq!(default_artifacts_dir("/work"), "/work/artifacts/renderdoc");
    assert_eq!(default_scripts_dir("/work"), "/work/artifacts/renderdoc/scripts");
    assert_eq!(default_exports_dir("/work"), "/work/artifacts/renderdoc/exports");
    assert_eq!(default_scripts_dir("rel"), "rel/artifacts/renderdoc/scripts");
    assert_eq!(default_scripts_dir(""), "artifacts/renderdoc/scripts");
}
