//! What can go wrong with one call, and how it is told apart.
//!
//! Every step of a call has a failure kind of its own. A failure is handed to
//! the caller as it arose: nothing is retried and nothing is swallowed.

use vstd::prelude::*;
use vstd::string::*;

verus! {

/// Why a file operation failed, as far as the bridge cares.
#[derive(Clone, Copy, Debug, PartialEq, Eq, Structural)]
pub enum FailureKind {
    /// The file or directory is not there.
    NotFound,
    /// The file or directory is there already.
    AlreadyExists,
    /// Any other reason.
    Other,
}

/// A failed file operation: its kind, and the system's own words.
#[derive(Clone, Debug, PartialEq, Eq)]
pub struct IoFailure {
    pub kind: FailureKind,
    pub message: String,
}

/// An [`IoFailure`] as a plain value.
pub struct IoFailureView {
    pub kind: FailureKind,
    pub message: Seq<char>,
}

impl View for IoFailure {
    type V = IoFailureView;

    open spec fn view(&self) -> IoFailureView {
        IoFailureView { kind: self.kind, message: self.message@ }
    }
}

impl IoFailure {
    /// A failure of the given kind.
    pub fn new(kind: FailureKind, message: String) -> (out: Self)
        ensures
            out.kind == kind,
            out.message == message,
    {
        IoFailure { kind, message }
    }

    /// Whether the operation failed because its target does not exist.
    pub fn is_not_found(&self) -> (b: bool)
        ensures
            b == (self.kind == FailureKind::NotFound),
    {
        match self.kind {
            FailureKind::NotFound => true,
            _ => false,
        }
    }
}

/// The failure of one call of an operation.
#[derive(Clone, Debug, PartialEq, Eq)]
pub enum OperationError {
    /// The scripts directory or the run directory could not be created.
    DirectoryCreationFailed(IoFailure),
    /// The script could not be written.
    ScriptWriteFailed(IoFailure),
    /// The request could not be serialized.
    RequestEncodeFailed(String),
    /// The request file could not be written, or a response left over from
    /// an earlier attempt could not be removed.
    RequestWriteFailed(IoFailure),
    /// The host process could not be run.
    HostInvocationFailed(String),
    /// The response file is missing or unreadable after the host has run.
    ResponseReadFailed(IoFailure),
    /// The response file does not hold an envelope.
    EnvelopeParseFailed(String),
    /// The envelope reports success and carries no result.
    MissingResult,
    /// The script reports a failure of its own; the message is the script's.
    ScriptError(String),
}

/// An [`OperationError`] as a plain value.
pub enum OperationErrorView {
    DirectoryCreationFailed(IoFailureView),
    ScriptWriteFailed(IoFailureView),
    RequestEncodeFailed(Seq<char>),
    RequestWriteFailed(IoFailureView),
    HostInvocationFailed(Seq<char>),
    ResponseReadFailed(IoFailureView),
    EnvelopeParseFailed(Seq<char>),
    MissingResult,
    ScriptError(Seq<char>),
}

impl View for OperationError {
    type V = OperationErrorView;

    open spec fn view(&self) -> OperationErrorView {
        match *self {
            OperationError::DirectoryCreationFailed(e) => OperationErrorView::DirectoryCreationFailed(
                e@,
            ),
            OperationError::ScriptWriteFailed(e) => OperationErrorView::ScriptWriteFailed(e@),
            OperationError::RequestEncodeFailed(m) => OperationErrorView::RequestEncodeFailed(m@),
            OperationError::RequestWriteFailed(e) => OperationErrorView::RequestWriteFailed(e@),
            OperationError::HostInvocationFailed(m) => OperationErrorView::HostInvocationFailed(m@),
            OperationError::ResponseReadFailed(e) => OperationErrorView::ResponseReadFailed(e@),
            OperationError::EnvelopeParseFailed(m) => OperationErrorView::EnvelopeParseFailed(m@),
            OperationError::MissingResult => OperationErrorView::MissingResult,
            OperationError::ScriptError(m) => OperationErrorView::ScriptError(m@),
        }
    }
}

/// The words that introduce each kind of failure.
pub open spec fn error_prefix(e: OperationErrorView) -> Seq<char> {
    match e {
        OperationErrorView::DirectoryCreationFailed(_) => "failed to create scripts dir: "@,
        OperationErrorView::ScriptWriteFailed(_) => "failed to write python script: "@,
        OperationErrorView::RequestEncodeFailed(_) => "failed to encode request JSON: "@,
        OperationErrorView::RequestWriteFailed(_) => "failed to write request JSON: "@,
        OperationErrorView::HostInvocationFailed(_) => "qrenderdoc python failed: "@,
        OperationErrorView::ResponseReadFailed(_) => "failed to read response JSON: "@,
        OperationErrorView::EnvelopeParseFailed(_) => "failed to parse JSON: "@,
        OperationErrorView::MissingResult => "qrenderdoc script error: "@,
        OperationErrorView::ScriptError(_) => "qrenderdoc script error: "@,
    }
}

/// What each failure carries with it.
pub open spec fn error_detail(e: OperationErrorView) -> Seq<char> {
    match e {
        OperationErrorView::DirectoryCreationFailed(f) => f.message,
        OperationErrorView::ScriptWriteFailed(f) => f.message,
        OperationErrorView::RequestEncodeFailed(m) => m,
        OperationErrorView::RequestWriteFailed(f) => f.message,
        OperationErrorView::HostInvocationFailed(m) => m,
        OperationErrorView::ResponseReadFailed(f) => f.message,
        OperationErrorView::EnvelopeParseFailed(m) => m,
        OperationErrorView::MissingResult => "missing result"@,
        OperationErrorView::ScriptError(m) => m,
    }
}

/// The text shown for a failure: its prefix, then its detail.
pub open spec fn error_text(e: OperationErrorView) -> Seq<char> {
    error_prefix(e) + error_detail(e)
}

impl OperationError {
    /// The failure in words, for logs and messages.
    pub fn message(&self) -> (out: String)
        ensures
            out@ == error_text(self@),
    {
        match self {
            OperationError::DirectoryCreationFailed(f) => "failed to create scripts dir: ".to_owned().concat(
                f.message.as_str(),
            ),
            OperationError::ScriptWriteFailed(f) => "failed to write python script: ".to_owned().concat(
                f.message.as_str(),
            ),
            OperationError::RequestEncodeFailed(m) => "failed to encode request JSON: ".to_owned().concat(
                m.as_str(),
            ),
            OperationError::RequestWriteFailed(f) => "failed to write request JSON: ".to_owned().concat(
                f.message.as_str(),
            ),
            OperationError::HostInvocationFailed(m) => "qrenderdoc python failed: ".to_owned().concat(
                m.as_str(),
            ),
            OperationError::ResponseReadFailed(f) => "failed to read response JSON: ".to_owned().concat(
                f.message.as_str(),
            ),
            OperationError::EnvelopeParseFailed(m) => "failed to parse JSON: ".to_owned().concat(
                m.as_str(),
            ),
            OperationError::MissingResult => "qrenderdoc script error: ".to_owned().concat(
                "missing result",
            ),
            OperationError::ScriptError(m) => "qrenderdoc script error: ".to_owned().concat(
                m.as_str(),
            ),
        }
    }
}

} // verus!
