use renderdog::error::{FailureKind, IoFailure, OperationError};
use renderdog::exchange::{
    remove_if_exists, step, Action, Event, Exchange, ExchangePlan, Operation, ProcessOutcome,
    Stage, HOST_SCRIPT_FLAG,
};
use renderdog::json::read_response;
use std::collections::{BTreeMap, BTreeSet};

/// A file system in memory and a host that reads the request, runs a
/// script written in Rust, and writes what the script answers.
struct World {
    dirs: BTreeSet<String>,
    files: BTreeMap<String, Vec<u8>>,
    request: Vec<u8>,
    script: fn(&[u8]) -> Option<Vec<u8>>,
    log: Vec<String>,
}

fn io(kind: FailureKind, message: &str) -> IoFailure {
    IoFailure::new(kind, message.to_string())
}

fn sample_plan() -> ExchangePlan {
    let operation = Operation { stem: "add_json".to_string(), run_prefix: "add".to_string() };
    ExchangePlan::new("/opt/rd/qrenderdoc", "/w/scripts", &operation, "print('hi')\n", "/w/scripts/add/1-2-3")
}

fn world(request: &[u8], script: fn(&[u8]) -> Option<Vec<u8>>) -> World {
    World {
        dirs: BTreeSet::new(),
        files: BTreeMap::new(),
        request: request.to_vec(),
        script,
        log: Vec::new(),
    }
}

fn perform(world: &mut World, action: &Action) -> Event {
    match action {
        Action::CreateDirAll { path } => {
            world.log.push(format!("mkdir -p {path}"));
            world.dirs.insert(path.clone());
            Event::Unit(Ok(()))
        }
        Action::CreateDir { path } => {
            world.log.push(format!("mkdir {path}"));
            if world.dirs.insert(path.clone()) {
                Event::Unit(Ok(()))
            } else {
                Event::Unit(Err(io(FailureKind::AlreadyExists, "File exists")))
            }
        }
        Action::WriteFile { path, contents } => {
            world.log.push(format!("write {path}"));
            world.files.insert(path.clone(), contents.clone());
            Event::Unit(Ok(()))
        }
        Action::RemoveFile { path } => {
            world.log.push(format!("rm {path}"));
            match world.files.remove(path) {
                Some(_) => Event::Unit(Ok(())),
                None => Event::Unit(Err(io(FailureKind::NotFound, "No such file or directory"))),
            }
        }
        Action::EncodeRequest => {
            world.log.push("encode".to_string());
            Event::Encoded(Ok(world.request.clone()))
        }
        Action::RunHost { program, args, working_dir } => {
            world.log.push(format!("run {program} {} in {working_dir}", args.join(" ")));
            let request = world.files[&format!("{working_dir}/add_json.request.json")].clone();
            if let Some(answer) = (world.script)(&request) {
                world.files.insert(format!("{working_dir}/add_json.response.json"), answer);
            }
            Event::Exited(Ok(ProcessOutcome {
                stdout: String::new(),
                stderr: String::new(),
                exit_status: Some(0),
            }))
        }
        Action::ReadFile { path } => {
            world.log.push(format!("read {path}"));
            match world.files.get(path) {
                Some(bytes) => Event::Contents(Ok(bytes.clone())),
                None => Event::Contents(Err(io(FailureKind::NotFound, "No such file or directory"))),
            }
        }
        Action::Finish { .. } => unreachable!("the call is over"),
    }
}

fn call(world: &mut World, plan: ExchangePlan) -> Result<serde_json::Value, OperationError> {
    let mut exchange = Exchange::new(plan);
    let mut event = Event::Start;
    loop {
        match exchange.advance(event) {
            Action::Finish { outcome } => {
                assert!(exchange.is_finished());
                return outcome.and_then(|bytes| read_response(&bytes));
            }
            action => {
                assert!(!exchange.is_finished());
                event = perform(world, &action);
            }
        }
    }
}

fn adding_script(request: &[u8]) -> Option<Vec<u8>> {
    let request: serde_json::Value = serde_json::from_slice(request).unwrap();
    let sum = request.get("x").unwrap().as_u64().unwrap() + request.get("y").unwrap().as_u64().unwrap();
    Some(format!("{{\"ok\":true,\"result\":{{\"sum\":{sum}}}}}").into_bytes())
}

fn failing_script(_request: &[u8]) -> Option<Vec<u8>> {
    Some(br#"{"ok":false,"error":"capture not found"}"#.to_vec())
}

fn silent_script(_request: &[u8]) -> Option<Vec<u8>> {
    None
}

fn forgetful_script(_request: &[u8]) -> Option<Vec<u8>> {
    Some(br#"{"ok":true}"#.to_vec())
}

#[test]
fn plan_names_every_file_of_a_call() {
    let plan = sample_plan();
    assert_eq!(plan.host_program, "/opt/rd/qrenderdoc");
    assert_eq!(plan.scripts_dir, "/w/scripts");
    assert_eq!(plan.script_path, "/w/scripts/add_json.py");
    assert_eq!(plan.script_text, "print('hi')\n");
    assert_eq!(plan.run_root, "/w/scripts/add");
    assert_eq!(plan.run_dir, "/w/scripts/add/1-2-3");
    assert_eq!(plan.request_path, "/w/scripts/add/1-2-3/add_json.request.json");
    assert_eq!(plan.response_path, "/w/scripts/add/1-2-3/add_json.response.json");
}

#[test]
fn end_to_end_call_yields_the_typed_result() {
    let mut world = world(br#"{"x":2,"y":3}"#, adding_script);
    let result = call(&mut world, sample_plan()).unwrap();
    assert_eq!(result.get("sum").and_then(|s| s.as_u64()), Some(5));

    let run_dirs: Vec<&String> =
        world.dirs.iter().filter(|d| d.starts_with("/w/scripts/add/")).collect();
    assert_eq!(run_dirs, vec!["/w/scripts/add/1-2-3"]);
    let in_run_dir: Vec<&String> =
        world.files.keys().filter(|f| f.starts_with("/w/scripts/add/1-2-3/")).collect();
    assert_eq!(
        in_run_dir,
        vec![
            "/w/scripts/add/1-2-3/add_json.request.json",
            "/w/scripts/add/1-2-3/add_json.response.json"
        ]
    );
    assert_eq!(world.files["/w/scripts/add_json.py"], b"print('hi')\n");
    assert_eq!(world.files["/w/scripts/add/1-2-3/add_json.request.json"], br#"{"x":2,"y":3}"#);
    assert_eq!(
        world.log,
        vec![
            "mkdir -p /w/scripts",
            "write /w/scripts/add_json.py",
            "mkdir -p /w/scripts/add",
            "mkdir /w/scripts/add/1-2-3",
            "rm /w/scripts/add/1-2-3/add_json.response.json",
            "encode",
            "write /w/scripts/add/1-2-3/add_json.request.json",
            "run /opt/rd/qrenderdoc --python /w/scripts/add_json.py in /w/scripts/add/1-2-3",
            "read /w/scripts/add/1-2-3/add_json.response.json",
        ]
    );
}

#[test]
fn script_failure_is_a_script_error() {
    let mut world = world(br#"{"x":2,"y":3}"#, failing_script);
    assert_eq!(
        call(&mut world, sample_plan()),
        Err(OperationError::ScriptError("capture not found".to_string()))
    );
}

#[test]
fn script_that_forgets_its_result_is_a_missing_result() {
    let mut world = world(br#"{"x":2,"y":3}"#, forgetful_script);
    assert_eq!(call(&mut world, sample_plan()), Err(OperationError::MissingResult));
}

#[test]
fn host_that_writes_nothing_is_a_read_failure() {
    let mut world = world(br#"{"x":2,"y":3}"#, silent_script);
    assert_eq!(
        call(&mut world, sample_plan()),
        Err(OperationError::ResponseReadFailed(io(
            FailureKind::NotFound,
            "No such file or directory"
        )))
    );
}

#[test]
fn stale_response_is_never_read_as_the_answer() {
    let mut world = world(br#"{"x":2,"y":3}"#, silent_script);
    world.files.insert(
        "/w/scripts/add/1-2-3/add_json.response.json".to_string(),
        br#"{"ok":true,"result":{"sum":99}}"#.to_vec(),
    );
    let plan = sample_plan();

    // The guard on its own: the stale file is gone once the removal is done.
    let (stage, action) = step(Stage::RunDir, &plan, Event::Unit(Ok(())));
    assert_eq!(stage, Stage::StaleResponse);
    assert_eq!(
        action,
        Action::RemoveFile { path: "/w/scripts/add/1-2-3/add_json.response.json".to_string() }
    );
    let event = perform(&mut world, &action);
    assert_eq!(event, Event::Unit(Ok(())));
    assert!(!world.files.contains_key("/w/scripts/add/1-2-3/add_json.response.json"));
    assert_eq!(step(stage, &plan, event), (Stage::Encode, Action::EncodeRequest));

    // Without a stale file the guard changes nothing and does not fail.
    let before = world.files.clone();
    let event = perform(&mut world, &action);
    assert_eq!(event, Event::Unit(Err(io(FailureKind::NotFound, "No such file or directory"))));
    assert_eq!(world.files, before);
    assert_eq!(step(Stage::StaleResponse, &plan, event), (Stage::Encode, Action::EncodeRequest));
}

#[test]
fn materializing_a_script_again_leaves_the_same_bytes() {
    let plan = sample_plan();
    let mut world = world(b"{}", silent_script);
    world.files.insert("/w/scripts/add_json.py".to_string(), b"an older script".to_vec());
    for _ in 0..5 {
        let (stage, action) = step(Stage::ScriptsDir, &plan, Event::Unit(Ok(())));
        assert_eq!(stage, Stage::Script);
        assert_eq!(perform(&mut world, &action), Event::Unit(Ok(())));
        assert_eq!(world.files["/w/scripts/add_json.py"], "print('hi')\n".as_bytes());
        assert_eq!(world.files.len(), 1);
    }
}

#[test]
fn existing_run_directory_is_refused() {
    let mut world = world(br#"{"x":2,"y":3}"#, adding_script);
    world.dirs.insert("/w/scripts/add/1-2-3".to_string());
    assert_eq!(
        call(&mut world, sample_plan()),
        Err(OperationError::DirectoryCreationFailed(io(FailureKind::AlreadyExists, "File exists")))
    );
    assert!(world.files.keys().all(|f| !f.starts_with("/w/scripts/add/1-2-3/")));
    assert!(!world.log.iter().any(|l| l.starts_with("run ")));
}

#[test]
fn each_step_fails_with_its_own_kind() {
    let plan = sample_plan();
    let denied = || io(FailureKind::Other, "Permission denied");
    let finish = |e: OperationError| (Stage::Finished, Action::Finish { outcome: Err(e) });
    assert_eq!(
        step(Stage::ScriptsDir, &plan, Event::Unit(Err(denied()))),
        finish(OperationError::DirectoryCreationFailed(denied()))
    );
    assert_eq!(
        step(Stage::Script, &plan, Event::Unit(Err(denied()))),
        finish(OperationError::ScriptWriteFailed(denied()))
    );
    assert_eq!(
        step(Stage::RunRoot, &plan, Event::Unit(Err(denied()))),
        finish(OperationError::DirectoryCreationFailed(denied()))
    );
    assert_eq!(
        step(Stage::RunDir, &plan, Event::Unit(Err(denied()))),
        finish(OperationError::DirectoryCreationFailed(denied()))
    );
    assert_eq!(
        step(Stage::StaleResponse, &plan, Event::Unit(Err(denied()))),
        finish(OperationError::RequestWriteFailed(denied()))
    );
    assert_eq!(
        step(Stage::Encode, &plan, Event::Encoded(Err("key must be a string".to_string()))),
        finish(OperationError::RequestEncodeFailed("key must be a string".to_string()))
    );
    assert_eq!(
        step(Stage::Request, &plan, Event::Unit(Err(denied()))),
        finish(OperationError::RequestWriteFailed(denied()))
    );
    assert_eq!(
        step(Stage::Host, &plan, Event::Exited(Err("No such file or directory".to_string()))),
        finish(OperationError::HostInvocationFailed("No such file or directory".to_string()))
    );
    assert_eq!(
        step(Stage::Response, &plan, Event::Contents(Err(denied()))),
        finish(OperationError::ResponseReadFailed(denied()))
    );
}

#[test]
fn exit_status_does_not_decide() {
    let plan = sample_plan();
    let crashed = ProcessOutcome {
        stdout: String::new(),
        stderr: "Traceback".to_string(),
        exit_status: Some(1),
    };
    assert_eq!(
        step(Stage::Host, &plan, Event::Exited(Ok(crashed))),
        (
            Stage::Response,
            Action::ReadFile { path: "/w/scripts/add/1-2-3/add_json.response.json".to_string() }
        )
    );
    let killed = ProcessOutcome { stdout: String::new(), stderr: String::new(), exit_status: None };
    assert_eq!(step(Stage::Host, &plan, Event::Exited(Ok(killed))).0, Stage::Response);
}

#[test]
fn host_is_run_on_the_script_inside_the_run_directory() {
    let plan = sample_plan();
    assert_eq!(HOST_SCRIPT_FLAG, "--python");
    assert_eq!(
        step(Stage::Request, &plan, Event::Unit(Ok(()))),
        (
            Stage::Host,
            Action::RunHost {
                program: "/opt/rd/qrenderdoc".to_string(),
                args: vec!["--python".to_string(), "/w/scripts/add_json.py".to_string()],
                working_dir: "/w/scripts/add/1-2-3".to_string(),
            }
        )
    );
}

#[test]
fn event_out_of_step_ends_the_call() {
    let plan = sample_plan();
    let derailed = (
        Stage::Finished,
        Action::Finish {
            outcome: Err(OperationError::HostInvocationFailed(
                "event does not belong to this step".to_string(),
            )),
        },
    );
    assert_eq!(step(Stage::Idle, &plan, Event::Unit(Ok(()))), derailed);
    assert_eq!(step(Stage::ScriptsDir, &plan, Event::Start), derailed);
    assert_eq!(step(Stage::Encode, &plan, Event::Unit(Ok(()))), derailed);
    assert_eq!(step(Stage::Host, &plan, Event::Contents(Ok(vec![]))), derailed);
    assert_eq!(step(Stage::Response, &plan, Event::Encoded(Ok(vec![]))), derailed);
    assert_eq!(step(Stage::Finished, &plan, Event::Start), derailed);

    let mut exchange = Exchange::new(sample_plan());
    assert_eq!(exchange.stage, Stage::Idle);
    assert_eq!(exchange.advance(Event::Contents(Ok(vec![1]))), derailed.1);
    assert!(exchange.is_finished());
    assert_eq!(exchange.plan, sample_plan());
}

#[test]
fn removing_what_is_not_there_is_no_failure() {
    assert_eq!(remove_if_exists(Ok(())), Ok(()));
    assert_eq!(remove_if_exists(Err(io(FailureKind::NotFound, "gone"))), Ok(()));
    assert_eq!(
        remove_if_exists(Err(io(FailureKind::Other, "Permission denied"))),
        Err(io(FailureKind::Other, "Permission denied"))
    );
    assert_eq!(
        remove_if_exists(Err(io(FailureKind::AlreadyExists, "odd"))),
        Err(io(FailureKind::AlreadyExists, "odd"))
    );
}

#[test]
fn script_text_is_written_as_utf8() {
    let operation = Operation { stem: "s".to_string(), run_prefix: "s".to_string() };
    let plan = ExchangePlan::new("q", "/d", &operation, "# \u{e9}\n", "/d/s/0-0-0");
    let (_, action) = step(Stage::ScriptsDir, &plan, Event::Unit(Ok(())));
    assert_eq!(
        action,
        Action::WriteFile { path: "/d/s.py".to_string(), contents: vec![b'#', b' ', 0xc3, 0xa9, b'\n'] }
    );
}
