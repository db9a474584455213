//! One call, step by step.
//!
//! A call is a fixed sequence of file and process actions. The library
//! decides which action comes next and what a failure means; the caller
//! performs the action and reports how it went. [`Exchange::advance`] is that
//! decision: from the stage reached and the event reported to the next stage
//! and the next action.
//!
//! The sequence of one call:
//!
//! 1. create the scripts directory, with its parents;
//! 2. write the script, whether or not it is there already;
//! 3. create the directory that holds the runs of the operation;
//! 4. create the run directory, which must not exist yet;
//! 5. remove a response left in it, if there is one;
//! 6. serialize the request;
//! 7. write the request file;
//! 8. run the host on the script, inside the run directory;
//! 9. read the response file.
//!
//! The first failure ends the call.

use vstd::prelude::*;
use vstd::string::*;
use vstd::utf8::encode_utf8;
use crate::error::{FailureKind, IoFailure, IoFailureView, OperationError, OperationErrorView};
use crate::paths::{join, joined};
use crate::rundir::run_root;

verus! {

/// The flag that makes the host run a script instead of opening its window.
pub const HOST_SCRIPT_FLAG: &'static str = "--python";

/// One capability of the host: the name of its script and of its runs.
#[derive(Clone, Debug, PartialEq, Eq)]
pub struct Operation {
    /// Names the script, the request and the response.
    pub stem: String,
    /// Names the directory below which the runs of this operation lie.
    pub run_prefix: String,
}

/// `<scripts_dir>/<stem>.py`
pub open spec fn script_path_of(scripts_dir: Seq<char>, stem: Seq<char>) -> Seq<char> {
    joined(scripts_dir, stem + ".py"@)
}

/// `<run_dir>/<stem>.request.json`
pub open spec fn request_path_of(run_dir: Seq<char>, stem: Seq<char>) -> Seq<char> {
    joined(run_dir, stem + ".request.json"@)
}

/// `<run_dir>/<stem>.response.json`
pub open spec fn response_path_of(run_dir: Seq<char>, stem: Seq<char>) -> Seq<char> {
    joined(run_dir, stem + ".response.json"@)
}

/// Everything one call needs to know before it starts.
#[derive(Clone, Debug, PartialEq, Eq)]
pub struct ExchangePlan {
    /// The host executable.
    pub host_program: String,
    /// The directory that holds the scripts.
    pub scripts_dir: String,
    /// The file the script is written to.
    pub script_path: String,
    /// The text of the script.
    pub script_text: String,
    /// The directory that holds the runs of this operation.
    pub run_root: String,
    /// The directory of this call.
    pub run_dir: String,
    /// The file the request is written to.
    pub request_path: String,
    /// The file the script writes its answer to.
    pub response_path: String,
}

/// An [`ExchangePlan`] as a plain value.
pub struct PlanView {
    pub host_program: Seq<char>,
    pub scripts_dir: Seq<char>,
    pub script_path: Seq<char>,
    pub script_text: Seq<char>,
    pub run_root: Seq<char>,
    pub run_dir: Seq<char>,
    pub request_path: Seq<char>,
    pub response_path: Seq<char>,
}

impl View for ExchangePlan {
    type V = PlanView;

    open spec fn view(&self) -> PlanView {
        PlanView {
            host_program: self.host_program@,
            scripts_dir: self.scripts_dir@,
            script_path: self.script_path@,
            script_text: self.script_text@,
            run_root: self.run_root@,
            run_dir: self.run_dir@,
            request_path: self.request_path@,
            response_path: self.response_path@,
        }
    }
}

/// The plan for one call of the operation named by `stem` and `run_prefix`
/// in the run directory `run_dir`.
pub open spec fn plan_of(
    host_program: Seq<char>,
    scripts_dir: Seq<char>,
    stem: Seq<char>,
    run_prefix: Seq<char>,
    script_text: Seq<char>,
    run_dir: Seq<char>,
) -> PlanView {
    PlanView {
        host_program,
        scripts_dir,
        script_path: script_path_of(scripts_dir, stem),
        script_text,
        run_root: run_root(scripts_dir, run_prefix),
        run_dir,
        request_path: request_path_of(run_dir, stem),
        response_path: response_path_of(run_dir, stem),
    }
}

fn with_suffix(stem: &str, suffix: &str) -> (out: String)
    ensures
        out@ == stem@ + suffix@,
{
    stem.to_owned().concat(suffix)
}

impl ExchangePlan {
    /// Lays out one call of `operation` in the run directory `run_dir`.
    pub fn new(
        host_program: &str,
        scripts_dir: &str,
        operation: &Operation,
        script_text: &str,
        run_dir: &str,
    ) -> (out: Self)
        ensures
            out@ == plan_of(
                host_program@,
                scripts_dir@,
                operation.stem@,
                operation.run_prefix@,
                script_text@,
                run_dir@,
            ),
    {
        let script_name = with_suffix(operation.stem.as_str(), ".py");
        let request_name = with_suffix(operation.stem.as_str(), ".request.json");
        let response_name = with_suffix(operation.stem.as_str(), ".response.json");
        ExchangePlan {
            host_program: host_program.to_owned(),
            scripts_dir: scripts_dir.to_owned(),
            script_path: join(scripts_dir, script_name.as_str()),
            script_text: script_text.to_owned(),
            run_root: join(scripts_dir, operation.run_prefix.as_str()),
            run_dir: run_dir.to_owned(),
            request_path: join(run_dir, request_name.as_str()),
            response_path: join(run_dir, response_name.as_str()),
        }
    }
}

/// How the host process ended. The exit status is kept for diagnosis only:
/// whether the call succeeded is read from the response file.
#[derive(Clone, Debug, PartialEq, Eq)]
pub struct ProcessOutcome {
    pub stdout: String,
    pub stderr: String,
    /// The exit code, if the process ended with one.
    pub exit_status: Option<i32>,
}

/// A [`ProcessOutcome`] as a plain value.
pub struct ProcessOutcomeView {
    pub stdout: Seq<char>,
    pub stderr: Seq<char>,
    pub exit_status: Option<i32>,
}

impl View for ProcessOutcome {
    type V = ProcessOutcomeView;

    open spec fn view(&self) -> ProcessOutcomeView {
        ProcessOutcomeView {
            stdout: self.stdout@,
            stderr: self.stderr@,
            exit_status: self.exit_status,
        }
    }
}

/// How far a call has come: each stage waits for the outcome of one action.
#[derive(Clone, Copy, Debug, PartialEq, Eq, Structural)]
pub enum Stage {
    /// Nothing has been asked for yet.
    Idle,
    /// Waiting for the scripts directory.
    ScriptsDir,
    /// Waiting for the script to be written.
    Script,
    /// Waiting for the directory of the operation's runs.
    RunRoot,
    /// Waiting for the run directory.
    RunDir,
    /// Waiting for a stale response to be removed.
    StaleResponse,
    /// Waiting for the serialized request.
    Encode,
    /// Waiting for the request to be written.
    Request,
    /// Waiting for the host to end.
    Host,
    /// Waiting for the response to be read.
    Response,
    /// The call is over.
    Finished,
}

/// What the caller is asked to do next.
#[derive(Debug, PartialEq, Eq)]
pub enum Action {
    /// Create a directory and its parents; one that exists is fine.
    CreateDirAll { path: String },
    /// Create a directory that must not exist yet.
    CreateDir { path: String },
    /// Write a file, replacing what is there.
    WriteFile { path: String, contents: Vec<u8> },
    /// Remove a file.
    RemoveFile { path: String },
    /// Serialize the request of this call.
    EncodeRequest,
    /// Run `program` with `args` in `working_dir` and wait for it to end.
    RunHost { program: String, args: Vec<String>, working_dir: String },
    /// Read a file.
    ReadFile { path: String },
    /// Nothing: the call is over, with the bytes of the response or a failure.
    Finish { outcome: Result<Vec<u8>, OperationError> },
}

/// An [`Action`] as a plain value.
pub enum ActionView {
    CreateDirAll { path: Seq<char> },
    CreateDir { path: Seq<char> },
    WriteFile { path: Seq<char>, contents: Seq<u8> },
    RemoveFile { path: Seq<char> },
    EncodeRequest,
    RunHost { program: Seq<char>, args: Seq<Seq<char>>, working_dir: Seq<char> },
    ReadFile { path: Seq<char> },
    Finish { outcome: Result<Seq<u8>, OperationErrorView> },
}

impl View for Action {
    type V = ActionView;

    open spec fn view(&self) -> ActionView {
        match *self {
            Action::CreateDirAll { path } => ActionView::CreateDirAll { path: path@ },
            Action::CreateDir { path } => ActionView::CreateDir { path: path@ },
            Action::WriteFile { path, contents } => ActionView::WriteFile {
                path: path@,
                contents: contents@,
            },
            Action::RemoveFile { path } => ActionView::RemoveFile { path: path@ },
            Action::EncodeRequest => ActionView::EncodeRequest,
            Action::RunHost { program, args, working_dir } => ActionView::RunHost {
                program: program@,
                args: Seq::new(args@.len(), |i: int| args@[i]@),
                working_dir: working_dir@,
            },
            Action::ReadFile { path } => ActionView::ReadFile { path: path@ },
            Action::Finish { outcome } => ActionView::Finish {
                outcome: match outcome {
                    Ok(bytes) => Ok(bytes@),
                    Err(e) => Err(e@),
                },
            },
        }
    }
}

/// What the caller reports back.
#[derive(Debug, PartialEq, Eq)]
pub enum Event {
    /// The call begins.
    Start,
    /// How creating, writing or removing went.
    Unit(Result<(), IoFailure>),
    /// The serialized request, or why it could not be serialized.
    Encoded(Result<Vec<u8>, String>),
    /// How the host ended, or why it could not be run.
    Exited(Result<ProcessOutcome, String>),
    /// What the file holds, or why it could not be read.
    Contents(Result<Vec<u8>, IoFailure>),
}

/// An [`Event`] as a plain value.
pub enum EventView {
    Start,
    Unit(Result<(), IoFailureView>),
    Encoded(Result<Seq<u8>, Seq<char>>),
    Exited(Result<ProcessOutcomeView, Seq<char>>),
    Contents(Result<Seq<u8>, IoFailureView>),
}

impl View for Event {
    type V = EventView;

    open spec fn view(&self) -> EventView {
        match *self {
            Event::Start => EventView::Start,
            Event::Unit(r) => EventView::Unit(
                match r {
                    Ok(_) => Ok(()),
                    Err(f) => Err(f@),
                },
            ),
            Event::Encoded(r) => EventView::Encoded(
                match r {
                    Ok(bytes) => Ok(bytes@),
                    Err(m) => Err(m@),
                },
            ),
            Event::Exited(r) => EventView::Exited(
                match r {
                    Ok(outcome) => Ok(outcome@),
                    Err(m) => Err(m@),
                },
            ),
            Event::Contents(r) => EventView::Contents(
                match r {
                    Ok(bytes) => Ok(bytes@),
                    Err(f) => Err(f@),
                },
            ),
        }
    }
}

impl PlanView {
    /// Step 1: the scripts directory is created, with its parents.
    pub open spec fn create_scripts_dir(self) -> ActionView {
        ActionView::CreateDirAll { path: self.scripts_dir }
    }

    /// Step 2, the script materializer: the script is written, whether or
    /// not it is there already.
    pub open spec fn ensure_script(self) -> ActionView {
        ActionView::WriteFile { path: self.script_path, contents: encode_utf8(self.script_text) }
    }

    /// Step 3: the directory of the operation's runs is created.
    pub open spec fn create_run_root(self) -> ActionView {
        ActionView::CreateDirAll { path: self.run_root }
    }

    /// Step 4: the run directory is created, and must be new.
    pub open spec fn create_run_dir(self) -> ActionView {
        ActionView::CreateDir { path: self.run_dir }
    }

    /// Step 5, the stale-response guard: a response left in the run
    /// directory is removed.
    pub open spec fn clear_stale_response(self) -> ActionView {
        ActionView::RemoveFile { path: self.response_path }
    }

    /// Step 7, the request writer: the serialized request is written.
    pub open spec fn write_request(self, request: Seq<u8>) -> ActionView {
        ActionView::WriteFile { path: self.request_path, contents: request }
    }

    /// Step 8, the host invoker: the host runs the script inside the run
    /// directory. The script is its only argument besides the flag; the
    /// request reaches it through the request file alone.
    pub open spec fn invoke(self) -> ActionView {
        ActionView::RunHost {
            program: self.host_program,
            args: host_args(self),
            working_dir: self.run_dir,
        }
    }

    /// Step 9, the response reader: the response file is read.
    pub open spec fn read_response(self) -> ActionView {
        ActionView::ReadFile { path: self.response_path }
    }
}

/// The detail of the failure that ends a call whose caller reported an event
/// that the stage reached does not wait for.
pub open spec fn out_of_step() -> Seq<char> {
    "event does not belong to this step"@
}

/// The end of a call with failure `e`.
pub open spec fn failed(e: OperationErrorView) -> (Stage, ActionView) {
    (Stage::Finished, ActionView::Finish { outcome: Err(e) })
}

/// The end of a call whose caller left the sequence.
pub open spec fn derailed() -> (Stage, ActionView) {
    failed(OperationErrorView::HostInvocationFailed(out_of_step()))
}

/// The command line of the host: the flag, then the script.
pub open spec fn host_args(plan: PlanView) -> Seq<Seq<char>> {
    seq![HOST_SCRIPT_FLAG@, plan.script_path]
}

/// The step from one stage to the next: the whole protocol.
pub open spec fn next(stage: Stage, plan: PlanView, event: EventView) -> (Stage, ActionView) {
    match stage {
        Stage::Idle => match event {
            EventView::Start => (Stage::ScriptsDir, plan.create_scripts_dir()),
            _ => derailed(),
        },
        Stage::ScriptsDir => match event {
            EventView::Unit(Ok(_)) => (Stage::Script, plan.ensure_script()),
            EventView::Unit(Err(f)) => failed(OperationErrorView::DirectoryCreationFailed(f)),
            _ => derailed(),
        },
        Stage::Script => match event {
            EventView::Unit(Ok(_)) => (Stage::RunRoot, plan.create_run_root()),
            EventView::Unit(Err(f)) => failed(OperationErrorView::ScriptWriteFailed(f)),
            _ => derailed(),
        },
        Stage::RunRoot => match event {
            EventView::Unit(Ok(_)) => (Stage::RunDir, plan.create_run_dir()),
            EventView::Unit(Err(f)) => failed(OperationErrorView::DirectoryCreationFailed(f)),
            _ => derailed(),
        },
        Stage::RunDir => match event {
            EventView::Unit(Ok(_)) => (Stage::StaleResponse, plan.clear_stale_response()),
            EventView::Unit(Err(f)) => failed(OperationErrorView::DirectoryCreationFailed(f)),
            _ => derailed(),
        },
        Stage::StaleResponse => match event {
            EventView::Unit(outcome) => match removal_outcome(outcome) {
                Ok(_) => (Stage::Encode, ActionView::EncodeRequest),
                Err(f) => failed(OperationErrorView::RequestWriteFailed(f)),
            },
            _ => derailed(),
        },
        Stage::Encode => match event {
            EventView::Encoded(Ok(bytes)) => (Stage::Request, plan.write_request(bytes)),
            EventView::Encoded(Err(m)) => failed(OperationErrorView::RequestEncodeFailed(m)),
            _ => derailed(),
        },
        Stage::Request => match event {
            EventView::Unit(Ok(_)) => (Stage::Host, plan.invoke()),
            EventView::Unit(Err(f)) => failed(OperationErrorView::RequestWriteFailed(f)),
            _ => derailed(),
        },
        Stage::Host => match event {
            EventView::Exited(Ok(_)) => (Stage::Response, plan.read_response()),
            EventView::Exited(Err(m)) => failed(OperationErrorView::HostInvocationFailed(m)),
            _ => derailed(),
        },
        Stage::Response => match event {
            EventView::Contents(Ok(bytes)) => (
                Stage::Finished,
                ActionView::Finish { outcome: Ok(bytes) },
            ),
            EventView::Contents(Err(f)) => failed(OperationErrorView::ResponseReadFailed(f)),
            _ => derailed(),
        },
        Stage::Finished => derailed(),
    }
}

/// A call in progress.
#[derive(Clone, Debug, PartialEq, Eq)]
pub struct Exchange {
    pub plan: ExchangePlan,
    pub stage: Stage,
}

fn fail(e: OperationError) -> (out: (Stage, Action))
    ensures
        (out.0, out.1@) == failed(e@),
{
    (Stage::Finished, Action::Finish { outcome: Err(e) })
}

fn derail() -> (out: (Stage, Action))
    ensures
        (out.0, out.1@) == derailed(),
{
    fail(OperationError::HostInvocationFailed("event does not belong to this step".to_owned()))
}

impl ExchangePlan {
    /// Step 1: create the scripts directory, with its parents.
    pub fn create_scripts_dir(&self) -> (out: Action)
        ensures
            out@ == self@.create_scripts_dir(),
    {
        Action::CreateDirAll { path: self.scripts_dir.clone() }
    }

    /// Step 2: write the script, whether or not it is there already. The
    /// text comes with the calling program, so every call brings the file
    /// on disk back in line with it.
    pub fn ensure_script(&self) -> (out: Action)
        ensures
            out@ == self@.ensure_script(),
    {
        Action::WriteFile {
            path: self.script_path.clone(),
            contents: self.script_text.as_str().as_bytes_vec(),
        }
    }

    /// Step 3: create the directory of the operation's runs.
    pub fn create_run_root(&self) -> (out: Action)
        ensures
            out@ == self@.create_run_root(),
    {
        Action::CreateDirAll { path: self.run_root.clone() }
    }

    /// Step 4: create the run directory, which must be new.
    pub fn create_run_dir(&self) -> (out: Action)
        ensures
            out@ == self@.create_run_dir(),
    {
        Action::CreateDir { path: self.run_dir.clone() }
    }

    /// Step 5: remove a response left in the run directory.
    pub fn clear_stale_response(&self) -> (out: Action)
        ensures
            out@ == self@.clear_stale_response(),
    {
        Action::RemoveFile { path: self.response_path.clone() }
    }

    /// Step 7: write the serialized request.
    pub fn write_request(&self, request: Vec<u8>) -> (out: Action)
        ensures
            out@ == self@.write_request(request@),
    {
        Action::WriteFile { path: self.request_path.clone(), contents: request }
    }

    /// Step 8: run the host on the script, inside the run directory.
    pub fn invoke(&self) -> (out: Action)
        ensures
            out@ == self@.invoke(),
    {
        let mut args: Vec<String> = Vec::new();
        args.push(HOST_SCRIPT_FLAG.to_owned());
        args.push(self.script_path.clone());
        let out = Action::RunHost {
            program: self.host_program.clone(),
            args,
            working_dir: self.run_dir.clone(),
        };
        assert(out@->RunHost_args =~= host_args(self@));
        out
    }

    /// Step 9: read the response file.
    pub fn read_response(&self) -> (out: Action)
        ensures
            out@ == self@.read_response(),
    {
        Action::ReadFile { path: self.response_path.clone() }
    }
}

impl Exchange {
    /// A call that has not begun.
    pub fn new(plan: ExchangePlan) -> (out: Self)
        ensures
            out.plan == plan,
            out.stage == Stage::Idle,
    {
        Exchange { plan, stage: Stage::Idle }
    }

    /// Whether the call is over.
    pub fn is_finished(&self) -> (b: bool)
        ensures
            b == (self.stage == Stage::Finished),
    {
        match self.stage {
            Stage::Finished => true,
            _ => false,
        }
    }

    /// Takes the outcome of the last action and says what to do next.
    ///
    /// Start with [`Event::Start`]; go on until the action is
    /// [`Action::Finish`]. An event that the stage reached does not wait for
    /// ends the call with [`OperationError::HostInvocationFailed`].
    pub fn advance(&mut self, event: Event) -> (action: Action)
        ensures
            final(self).plan == old(self).plan,
            (final(self).stage, action@) == next(old(self).stage, old(self).plan@, event@),
    {
        let (stage, action) = step(self.stage, &self.plan, event);
        self.stage = stage;
        action
    }
}

/// The step function of the protocol on its own: from the stage reached and
/// the event reported to the next stage and the next action.
pub fn step(stage: Stage, plan: &ExchangePlan, event: Event) -> (out: (Stage, Action))
    ensures
        (out.0, out.1@) == next(stage, plan@, event@),
{
    match stage {
        Stage::Idle => match event {
            Event::Start => (Stage::ScriptsDir, plan.create_scripts_dir()),
            _ => derail(),
        },
        Stage::ScriptsDir => match event {
            Event::Unit(Ok(_)) => (Stage::Script, plan.ensure_script()),
            Event::Unit(Err(f)) => fail(OperationError::DirectoryCreationFailed(f)),
            _ => derail(),
        },
        Stage::Script => match event {
            Event::Unit(Ok(_)) => (Stage::RunRoot, plan.create_run_root()),
            Event::Unit(Err(f)) => fail(OperationError::ScriptWriteFailed(f)),
            _ => derail(),
        },
        Stage::RunRoot => match event {
            Event::Unit(Ok(_)) => (Stage::RunDir, plan.create_run_dir()),
            Event::Unit(Err(f)) => fail(OperationError::DirectoryCreationFailed(f)),
            _ => derail(),
        },
        Stage::RunDir => match event {
            Event::Unit(Ok(_)) => (Stage::StaleResponse, plan.clear_stale_response()),
            Event::Unit(Err(f)) => fail(OperationError::DirectoryCreationFailed(f)),
            _ => derail(),
        },
        Stage::StaleResponse => match event {
            Event::Unit(outcome) => match remove_if_exists(outcome) {
                Ok(_) => (Stage::Encode, Action::EncodeRequest),
                Err(f) => fail(OperationError::RequestWriteFailed(f)),
            },
            _ => derail(),
        },
        Stage::Encode => match event {
            Event::Encoded(Ok(bytes)) => (Stage::Request, plan.write_request(bytes)),
            Event::Encoded(Err(m)) => fail(OperationError::RequestEncodeFailed(m)),
            _ => derail(),
        },
        Stage::Request => match event {
            Event::Unit(Ok(_)) => (Stage::Host, plan.invoke()),
            Event::Unit(Err(f)) => fail(OperationError::RequestWriteFailed(f)),
            _ => derail(),
        },
        Stage::Host => match event {
            Event::Exited(Ok(_)) => (Stage::Response, plan.read_response()),
            Event::Exited(Err(m)) => fail(OperationError::HostInvocationFailed(m)),
            _ => derail(),
        },
        Stage::Response => match event {
            Event::Contents(Ok(bytes)) => (Stage::Finished, Action::Finish { outcome: Ok(bytes) }),
            Event::Contents(Err(f)) => fail(OperationError::ResponseReadFailed(f)),
            _ => derail(),
        },
        Stage::Finished => derail(),
    }
}

/// What removing a file that may be absent amounts to.
pub open spec fn removal_outcome(outcome: Result<(), IoFailureView>) -> Result<(), IoFailureView> {
    match outcome {
        Ok(_) => Ok(()),
        Err(f) => if f.kind == FailureKind::NotFound {
            Ok(())
        } else {
            Err(f)
        },
    }
}

/// Judges the removal of a file that need not exist: a file that was not
/// there counts as removed, every other failure stays a failure.
pub fn remove_if_exists(outcome: Result<(), IoFailure>) -> (out: Result<(), IoFailure>)
    ensures
        match removal_outcome(
            match outcome {
                Ok(_) => Ok(()),
                Err(f) => Err(f@),
            },
        ) {
            Ok(_) => out is Ok,
            Err(f) => out is Err && out->Err_0@ == f && out == outcome,
        },
{
    match outcome {
        Ok(_) => Ok(()),
        Err(f) => if f.is_not_found() {
            Ok(())
        } else {
            Err(f)
        },
    }
}

} // verus!
