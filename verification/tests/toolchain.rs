use renderdog::toolchain::{
    find_in_path, first_existing, DetectInstallationError, ProgramNames, RenderDocInstallation,
};

fn strings(items: &[&str]) -> Vec<String> {
    items.iter().map(|s| s.to_string()).collect()
}

#[test]
fn program_names() {
    assert_eq!(RenderDocInstallation::qrenderdoc_exe_name(), "qrenderdoc");
    assert_eq!(RenderDocInstallation::renderdoccmd_exe_name(), "renderdoccmd");
}

#[test]
fn probed_root_dir_with_both_programs_is_an_installation() {
    assert_eq!(
        RenderDocInstallation::from_probed_root_dir("/opt/renderdoc".to_string(), true, true),
        Ok(RenderDocInstallation {
            root_dir: "/opt/renderdoc".to_string(),
            qrenderdoc_exe: "/opt/renderdoc/qrenderdoc".to_string(),
            renderdoccmd_exe: "/opt/renderdoc/renderdoccmd".to_string(),
        })
    );
}

#[test]
fn probed_root_dir_names_the_first_missing_program() {
    assert_eq!(
        RenderDocInstallation::from_probed_root_dir("/opt/rd".to_string(), false, true),
        Err(DetectInstallationError::MissingComponent("/opt/rd".to_string(), "qrenderdoc"))
    );
    assert_eq!(
        RenderDocInstallation::from_probed_root_dir("/opt/rd".to_string(), false, false),
        Err(DetectInstallationError::MissingComponent("/opt/rd".to_string(), "qrenderdoc"))
    );
    assert_eq!(
        RenderDocInstallation::from_probed_root_dir("/opt/rd".to_string(), true, false),
        Err(DetectInstallationError::MissingComponent("/opt/rd".to_string(), "renderdoccmd"))
    );
}

#[test]
fn root_dir_that_does_not_exist_lacks_qrenderdoc() {
    assert_eq!(
        RenderDocInstallation::from_root_dir("/nonexistent/renderdoc".to_string()),
        Err(DetectInstallationError::MissingComponent(
            "/nonexistent/renderdoc".to_string(),
            "qrenderdoc"
        ))
    );
}

#[test]
fn named_directory_decides_alone() {
    assert_eq!(
        RenderDocInstallation::detect(Some("/nonexistent/rd".to_string()), &strings(&["/bin"])),
        Err(DetectInstallationError::MissingComponent("/nonexistent/rd".to_string(), "qrenderdoc"))
    );
}

#[test]
fn nothing_on_the_search_path_is_not_found() {
    assert_eq!(
        RenderDocInstallation::detect(None, &strings(&["/nonexistent/a", "/nonexistent/b"])),
        Err(DetectInstallationError::NotFound)
    );
    assert_eq!(RenderDocInstallation::detect(None, &Vec::new()), Err(DetectInstallationError::NotFound));
    assert_eq!(RenderDocInstallation::from_path_env(&strings(&["/nonexistent"])), None);
}

#[test]
fn search_finds_the_first_directory_that_holds_the_program() {
    let dirs = strings(&["/nonexistent", "/bin", "/usr/bin"]);
    assert_eq!(find_in_path("sh", &dirs).as_deref(), Some("/bin/sh"));
    assert_eq!(find_in_path("no-such-program-anywhere", &dirs), None);
    assert_eq!(find_in_path("sh", &Vec::new()), None);
    // A directory is not a program.
    assert_eq!(find_in_path("bin", &strings(&["/"])), None);
}

#[test]
fn first_existing_takes_the_first_hit() {
    let dirs = strings(&["/a", "/b/", "/c"]);
    assert_eq!(first_existing("x", &dirs, &vec![false, true, true]).as_deref(), Some("/b/x"));
    assert_eq!(first_existing("x", &dirs, &vec![true, false, false]).as_deref(), Some("/a/x"));
    assert_eq!(first_existing("x", &dirs, &vec![false, false, false]), None);
    assert_eq!(first_existing("x", &dirs, &vec![false, false]), None);
    assert_eq!(first_existing("x", &dirs, &vec![false, false, false, true]), None);
    assert_eq!(first_existing("x", &Vec::new(), &vec![true]), None);
}

#[test]
fn found_programs_make_an_installation_below_their_parent() {
    assert_eq!(
        RenderDocInstallation::from_found(
            Some("/usr/local/bin/qrenderdoc".to_string()),
            Some("/usr/bin/renderdoccmd".to_string())
        ),
        Some(RenderDocInstallation {
            root_dir: "/usr/local/bin".to_string(),
            qrenderdoc_exe: "/usr/local/bin/qrenderdoc".to_string(),
            renderdoccmd_exe: "/usr/bin/renderdoccmd".to_string(),
        })
    );
    assert_eq!(
        RenderDocInstallation::from_found(
            Some("qrenderdoc".to_string()),
            Some("renderdoccmd".to_string())
        )
        .map(|i| i.root_dir),
        Some(String::new())
    );
    assert_eq!(
        RenderDocInstallation::from_found(Some("/".to_string()), Some("/r".to_string())),
        None
    );
    assert_eq!(RenderDocInstallation::from_found(None, Some("/r".to_string())), None);
    assert_eq!(RenderDocInstallation::from_found(Some("/q".to_string()), None), None);
}

#[test]
fn detection_failures_have_their_words() {
    assert_eq!(
        DetectInstallationError::NotFound.message(),
        "renderdoc installation not found; set RENDERDOG_RENDERDOC_DIR to the RenderDoc install root (contains qrenderdoc + renderdoccmd), or add them to PATH"
    );
    assert_eq!(
        DetectInstallationError::MissingComponent("/opt/rd".to_string(), "renderdoccmd").message(),
        "renderdoc installation at /opt/rd is missing renderdoccmd; set RENDERDOG_RENDERDOC_DIR to the RenderDoc install root (contains qrenderdoc + renderdoccmd)"
    );
}

#[test]
fn program_names_by_platform() {
    assert_eq!(
        ProgramNames::unix(),
        ProgramNames { qrenderdoc: "qrenderdoc", renderdoccmd: "renderdoccmd" }
    );
    assert_eq!(
        ProgramNames::windows(),
        ProgramNames { qrenderdoc: "qrenderdoc.exe", renderdoccmd: "renderdoccmd.exe" }
    );
    assert_eq!(ProgramNames::on(true), ProgramNames::windows());
    assert_eq!(ProgramNames::on(false), ProgramNames::unix());
}

#[test]
fn probed_root_dir_with_given_names() {
    let names = ProgramNames::windows();
    assert_eq!(
        RenderDocInstallation::from_probed_root_dir_named("/rd".to_string(), names, true, true),
        Ok(RenderDocInstallation {
            root_dir: "/rd".to_string(),
            qrenderdoc_exe: "/rd/qrenderdoc.exe".to_string(),
            renderdoccmd_exe: "/rd/renderdoccmd.exe".to_string(),
        })
    );
    assert_eq!(
        RenderDocInstallation::from_probed_root_dir_named("/rd".to_string(), names, false, true),
        Err(DetectInstallationError::MissingComponent("/rd".to_string(), "qrenderdoc.exe"))
    );
    assert_eq!(
        RenderDocInstallation::from_probed_root_dir_named("/rd".to_string(), names, true, false),
        Err(DetectInstallationError::MissingComponent("/rd".to_string(), "renderdoccmd.exe"))
    );
}

#[test]
fn programs_are_found_under_the_names_given() {
    // Two programs that every system has stand in for the two of RenderDoc.
    let names = ProgramNames { qrenderdoc: "sh", renderdoccmd: "ls" };
    let dirs = strings(&["/nonexistent", "/bin"]);
    assert_eq!(
        RenderDocInstallation::from_path_env_named(&dirs, names),
        Some(RenderDocInstallation {
            root_dir: "/bin".to_string(),
            qrenderdoc_exe: "/bin/sh".to_string(),
            renderdoccmd_exe: "/bin/ls".to_string(),
        })
    );
    assert_eq!(
        RenderDocInstallation::from_root_dir_named("/bin".to_string(), names),
        Ok(RenderDocInstallation {
            root_dir: "/bin".to_string(),
            qrenderdoc_exe: "/bin/sh".to_string(),
            renderdoccmd_exe: "/bin/ls".to_string(),
        })
    );
    let lacking = ProgramNames { qrenderdoc: "sh", renderdoccmd: "no-such-program-anywhere" };
    assert_eq!(RenderDocInstallation::from_path_env_named(&dirs, lacking), None);
    assert_eq!(
        RenderDocInstallation::from_root_dir_named("/bin".to_string(), lacking),
        Err(DetectInstallationError::MissingComponent(
            "/bin".to_string(),
            "no-such-program-anywhere"
        ))
    );
}

#[test]
fn detection_tries_the_named_place_then_the_usual_one_then_the_path() {
    let names = ProgramNames { qrenderdoc: "sh", renderdoccmd: "ls" };
    let bin = RenderDocInstallation {
        root_dir: "/bin".to_string(),
        qrenderdoc_exe: "/bin/sh".to_string(),
        renderdoccmd_exe: "/bin/ls".to_string(),
    };
    let usr_bin = RenderDocInstallation {
        root_dir: "/usr/bin".to_string(),
        qrenderdoc_exe: "/usr/bin/sh".to_string(),
        renderdoccmd_exe: "/usr/bin/ls".to_string(),
    };
    let path = strings(&["/nonexistent", "/usr/bin"]);
    // A named directory decides alone, for better or worse.
    assert_eq!(
        RenderDocInstallation::detect_named(
            Some("/bin".to_string()),
            Some("/usr/bin".to_string()),
            &path,
            names
        ),
        Ok(bin.clone())
    );
    assert_eq!(
        RenderDocInstallation::detect_named(
            Some("/nonexistent".to_string()),
            Some("/bin".to_string()),
            &path,
            names
        ),
        Err(DetectInstallationError::MissingComponent("/nonexistent".to_string(), "sh"))
    );
    // The usual place comes before the search path, if it is whole.
    assert_eq!(
        RenderDocInstallation::detect_named(None, Some("/bin".to_string()), &path, names),
        Ok(bin)
    );
    assert_eq!(
        RenderDocInstallation::detect_named(None, Some("/nonexistent".to_string()), &path, names),
        Ok(usr_bin.clone())
    );
    assert_eq!(RenderDocInstallation::detect_named(None, None, &path, names), Ok(usr_bin));
    assert_eq!(
        RenderDocInstallation::detect_named(
            None,
            Some("/nonexistent".to_string()),
            &strings(&["/nonexistent"]),
            names
        ),
        Err(DetectInstallationError::NotFound)
    );
}
