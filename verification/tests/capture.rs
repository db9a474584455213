use renderdog::capture::{
    capture_arguments, find, launched_ident, parse_target_ident, thumbnail_arguments,
};

fn strings(items: &[&str]) -> Vec<String> {
    items.iter().map(|s| s.to_string()).collect()
}

#[test]
fn capture_command_line() {
    assert_eq!(
        capture_arguments(&None, &None, "/games/demo", &Vec::new()),
        strings(&["capture", "/games/demo"])
    );
    assert_eq!(
        capture_arguments(
            &Some("/games".to_string()),
            &Some("/work/artifacts/renderdoc/frame.rdc".to_string()),
            "/games/demo",
            &strings(&["--level", "3", "-d"]),
        ),
        strings(&[
            "capture",
            "-d",
            "/games",
            "-c",
            "/work/artifacts/renderdoc/frame.rdc",
            "/games/demo",
            "--level",
            "3",
            "-d",
        ])
    );
    assert_eq!(
        capture_arguments(&None, &Some("t".to_string()), "demo", &strings(&["x"])),
        strings(&["capture", "-c", "t", "demo", "x"])
    );
    assert_eq!(
        capture_arguments(&Some("w".to_string()), &None, "demo", &Vec::new()),
        strings(&["capture", "-d", "w", "demo"])
    );
}

#[test]
fn thumbnail_command_line() {
    assert_eq!(
        thumbnail_arguments("/caps/frame.rdc", "/out/frame.png"),
        strings(&["thumb", "--out", "/out/frame.png", "/caps/frame.rdc"])
    );
}

#[test]
fn ident_is_read_behind_the_marker() {
    assert_eq!(parse_target_ident(b"Launched as ID 38920\n"), Some(38920));
    assert_eq!(parse_target_ident(b"Launched as ID 38920"), Some(38920));
    assert_eq!(parse_target_ident(b"renderdoccmd: ok\nLaunched as ID 7 (demo)\n"), Some(7));
    assert_eq!(parse_target_ident(b"Launched as ID 0042x"), Some(42));
    assert_eq!(parse_target_ident(b"Launched as ID 4294967295"), Some(u32::MAX));
    assert_eq!(parse_target_ident(b"Launched as ID 1\nLaunched as ID 2\n"), Some(1));
}

#[test]
fn output_without_an_ident_gives_none() {
    assert_eq!(parse_target_ident(b""), None);
    assert_eq!(parse_target_ident(b"Launched"), None);
    assert_eq!(parse_target_ident(b"launched as id 5"), None);
    assert_eq!(parse_target_ident(b"Launched as ID "), None);
    assert_eq!(parse_target_ident(b"Launched as ID x5"), None);
    assert_eq!(parse_target_ident(b"Launched as ID  5"), None);
    assert_eq!(parse_target_ident(b"Launched as ID -5"), None);
    assert_eq!(parse_target_ident(b"Launched as ID 4294967296"), None);
    assert_eq!(parse_target_ident(b"Launched as ID 99999999999999999999999999"), None);
    // Only the first marker counts.
    assert_eq!(parse_target_ident(b"Launched as ID ?\nLaunched as ID 2\n"), None);
}

#[test]
fn ident_is_looked_for_in_both_outputs() {
    assert_eq!(launched_ident(b"Launched as ID 5\n", b"Launched as ID 6\n"), Some(5));
    assert_eq!(launched_ident(b"nothing\n", b"Launched as ID 6\n"), Some(6));
    assert_eq!(launched_ident(b"Launched as ID \n", b"Launched as ID 6\n"), Some(6));
    assert_eq!(launched_ident(b"", b""), None);
}

#[test]
fn find_gives_the_first_occurrence() {
    assert_eq!(find(b"abcabc", &b"bc".to_vec()), Some(1));
    assert_eq!(find(b"abcabc", &b"abc".to_vec()), Some(0));
    assert_eq!(find(b"abcabc", &b"cab".to_vec()), Some(2));
    assert_eq!(find(b"abcabc", &b"abcabc".to_vec()), Some(0));
    assert_eq!(find(b"abcabc", &b"abcabcd".to_vec()), None);
    assert_eq!(find(b"abcabc", &b"x".to_vec()), None);
    assert_eq!(find(b"aab", &b"ab".to_vec()), Some(1));
    assert_eq!(find(b"abc", &Vec::new()), Some(0));
    assert_eq!(find(b"", &Vec::new()), Some(0));
    assert_eq!(find(b"", &b"a".to_vec()), None);
}
