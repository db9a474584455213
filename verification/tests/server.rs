use renderdog::server::{
    artifacts_dir_or_default, basename_from, basename_or_default, capture_file_template,
    default_frames, default_host, default_max_results, default_max_search_results,
    default_regex_mode, default_timeout_s, default_tracked_indices, default_true,
    output_dir_or_default, replay_output_dir_or_default, resolve_base_cwd, select_event_id,
    thumbnail_path_or_default, FindEventSelection,
};
use renderdog::workflows::{FindEventsResponse, FoundEvent};

fn event(event_id: u32) -> FoundEvent {
    FoundEvent {
        event_id,
        parent_event_id: None,
        depth: 0,
        name: format!("draw {event_id}"),
        flags: 0,
        flags_names: Vec::new(),
        marker_path: Vec::new(),
        marker_path_joined: String::new(),
    }
}

fn found(total: u64, first: Option<u32>, last: Option<u32>, ids: &[u32]) -> FindEventsResponse {
    FindEventsResponse {
        capture_path: "/work/in.rdc".to_string(),
        total_matches: total,
        truncated: false,
        first_event_id: first,
        last_event_id: last,
        matches: ids.iter().copied().map(event).collect(),
    }
}

#[test]
fn tool_defaults() {
    assert_eq!(default_host(), "localhost");
    assert_eq!(default_frames(), 1);
    assert_eq!(default_timeout_s(), 60);
    assert!(default_true());
    assert_eq!(default_max_results(), Some(200));
    assert_eq!(default_tracked_indices(), vec![0]);
    assert_eq!(default_max_search_results(), Some(500));
    assert!(default_regex_mode());
    assert_eq!(FindEventSelection::default(), FindEventSelection::Last);
}

#[test]
fn base_cwd_is_the_named_directory_or_the_current_one() {
    assert_eq!(resolve_base_cwd(Ok("/home/u".to_string()), None), Ok("/home/u".to_string()));
    assert_eq!(
        resolve_base_cwd(Ok("/home/u".to_string()), Some("proj".to_string())),
        Ok("/home/u/proj".to_string())
    );
    assert_eq!(
        resolve_base_cwd(Ok("/home/u".to_string()), Some("/srv/proj".to_string())),
        Ok("/srv/proj".to_string())
    );
    assert_eq!(
        resolve_base_cwd(Err("No such file or directory".to_string()), Some("/srv/proj".to_string())),
        Err("get cwd failed: No such file or directory".to_string())
    );
    assert_eq!(
        resolve_base_cwd(Err("denied".to_string()), None),
        Err("get cwd failed: denied".to_string())
    );
}

#[test]
fn directories_default_below_cwd() {
    assert_eq!(artifacts_dir_or_default("/work", &None), "/work/artifacts/renderdoc");
    assert_eq!(artifacts_dir_or_default("/work", &Some("caps".to_string())), "/work/caps");
    assert_eq!(artifacts_dir_or_default("/work", &Some("/caps".to_string())), "/caps");
    assert_eq!(output_dir_or_default("/work", &None), "/work/artifacts/renderdoc/exports");
    assert_eq!(output_dir_or_default("/work", &Some("out".to_string())), "/work/out");
    assert_eq!(output_dir_or_default("/work", &Some("/out".to_string())), "/out");
    assert_eq!(
        replay_output_dir_or_default("/work", &None),
        "/work/artifacts/renderdoc/exports/replay"
    );
    assert_eq!(replay_output_dir_or_default("/work", &Some("png".to_string())), "/work/png");
}

#[test]
fn capture_template_is_named_rdc() {
    assert_eq!(
        capture_file_template("/work/artifacts/renderdoc", &Some("frame".to_string())),
        Some("/work/artifacts/renderdoc/frame.rdc".to_string())
    );
    assert_eq!(capture_file_template("/work/artifacts/renderdoc", &None), None);
}

#[test]
fn basename_defaults_to_the_stem_of_the_capture() {
    assert_eq!(basename_or_default(Some("named".to_string()), "/caps/frame.rdc"), "named");
    assert_eq!(basename_or_default(None, "/caps/frame.rdc"), "frame");
    assert_eq!(basename_or_default(None, "frame.final.rdc"), "frame.final");
    assert_eq!(basename_or_default(None, "/caps/frame"), "frame");
    assert_eq!(basename_or_default(None, "/caps/.hidden"), ".hidden");
    assert_eq!(basename_or_default(None, "/caps/frame.rdc/"), "frame");
    assert_eq!(basename_or_default(None, "/"), "capture");
    assert_eq!(basename_or_default(None, ""), "capture");
    assert_eq!(basename_or_default(None, "/caps/.."), "capture");
    assert_eq!(basename_from(None, None), "capture");
    assert_eq!(basename_from(None, Some("stem".to_string())), "stem");
    assert_eq!(basename_from(Some("b".to_string()), Some("stem".to_string())), "b");
}

#[test]
fn thumbnail_defaults_to_the_output_directory() {
    assert_eq!(
        thumbnail_path_or_default("/work", &None, "/work/out", "frame"),
        "/work/out/frame.thumb.png"
    );
    assert_eq!(
        thumbnail_path_or_default("/work", &Some("t.png".to_string()), "/work/out", "frame"),
        "/work/t.png"
    );
    assert_eq!(
        thumbnail_path_or_default("/work", &Some("/t.png".to_string()), "/work/out", "frame"),
        "/t.png"
    );
}

#[test]
fn selection_takes_the_named_event() {
    let find = found(3, Some(10), Some(30), &[10, 20, 30]);
    assert_eq!(select_event_id(&find, FindEventSelection::First), Ok(10));
    assert_eq!(select_event_id(&find, FindEventSelection::Last), Ok(30));
    // What the response names wins over what it lists.
    let find = found(500, Some(1), Some(999), &[1, 2, 3]);
    assert_eq!(select_event_id(&find, FindEventSelection::First), Ok(1));
    assert_eq!(select_event_id(&find, FindEventSelection::Last), Ok(999));
}

#[test]
fn selection_falls_back_to_the_listed_matches() {
    let find = found(3, None, None, &[10, 20, 30]);
    assert_eq!(select_event_id(&find, FindEventSelection::First), Ok(10));
    assert_eq!(select_event_id(&find, FindEventSelection::Last), Ok(30));
    let find = found(1, None, Some(7), &[5]);
    assert_eq!(select_event_id(&find, FindEventSelection::First), Ok(5));
    assert_eq!(select_event_id(&find, FindEventSelection::Last), Ok(7));
}

#[test]
fn selection_without_a_match_fails() {
    let find = found(0, Some(10), Some(30), &[10, 20, 30]);
    assert_eq!(
        select_event_id(&find, FindEventSelection::First),
        Err("no matching events found; refine filters or disable only_drawcalls".to_string())
    );
    let find = found(2, None, None, &[]);
    assert_eq!(
        select_event_id(&find, FindEventSelection::Last),
        Err("no matching events found".to_string())
    );
}
