//! The response envelope.
//!
//! A script answers with `{ok, result?, error?}` and nothing else counts:
//! neither the exit status of the host nor what it printed. When `ok` is
//! true the result must be there and `error` is ignored; when `ok` is false
//! the result is ignored and `error` is the script's message.

use vstd::prelude::*;
use crate::error::{OperationError, OperationErrorView};

verus! {

/// What a script wrote, already decoded.
#[derive(Clone, Debug, PartialEq, Eq)]
pub struct Envelope<T> {
    pub ok: bool,
    pub result: Option<T>,
    pub error: Option<String>,
}

/// The message of a failed script that gave none.
pub open spec fn unknown_error() -> Seq<char> {
    "unknown error"@
}

impl<T> Envelope<T> {
    /// The envelope of a successful call with result `r`.
    pub open spec fn success_of(r: T) -> Self {
        Envelope { ok: true, result: Some(r), error: None }
    }

    /// The envelope of a failed call with message `e`.
    pub open spec fn failure_of(e: String) -> Self {
        Envelope { ok: false, result: None, error: Some(e) }
    }

    /// What an envelope means for the caller.
    pub open spec fn outcome(self) -> Result<T, OperationErrorView> {
        if self.ok {
            match self.result {
                Some(r) => Ok(r),
                None => Err(OperationErrorView::MissingResult),
            }
        } else {
            match self.error {
                Some(e) => Err(OperationErrorView::ScriptError(e@)),
                None => Err(OperationErrorView::ScriptError(unknown_error())),
            }
        }
    }

    /// Wraps the result of a successful call.
    pub fn success(r: T) -> (out: Self)
        ensures
            out == Self::success_of(r),
    {
        Envelope { ok: true, result: Some(r), error: None }
    }

    /// Wraps the message of a failed call.
    pub fn failure(e: String) -> (out: Self)
        ensures
            out == Self::failure_of(e),
    {
        Envelope { ok: false, result: None, error: Some(e) }
    }

    /// Turns the envelope into the result of the call.
    ///
    /// A missing result is a failure of its own kind and never replaced by
    /// a default value. A failed script without a message is reported with
    /// the words "unknown error".
    pub fn resolve(self) -> (out: Result<T, OperationError>)
        ensures
            match self.outcome() {
                Ok(r) => out == Ok::<T, OperationError>(r),
                Err(e) => out is Err && out->Err_0@ == e,
            },
    {
        if self.ok {
            match self.result {
                Some(r) => Ok(r),
                None => Err(OperationError::MissingResult),
            }
        } else {
            match self.error {
                Some(e) => Err(OperationError::ScriptError(e)),
                None => Err(OperationError::ScriptError("unknown error".to_owned())),
            }
        }
    }
}

/// Round trip, success: what was wrapped as a result comes out as that result.
pub proof fn lemma_success_round_trip<T>(r: T)
    ensures
        Envelope::success_of(r).outcome() == Ok::<T, OperationErrorView>(r),
{
}

/// Round trip, failure: what was wrapped as a message comes out as a script
/// error with that message, whatever the result type.
pub proof fn lemma_failure_round_trip<T>(e: String)
    ensures
        Envelope::<T>::failure_of(e).outcome() == Err::<T, OperationErrorView>(
            OperationErrorView::ScriptError(e@),
        ),
{
}

/// A success without a result is a missing result, whatever else the
/// envelope holds.
pub proof fn lemma_missing_result<T>(envelope: Envelope<T>)
    requires
        envelope.ok,
        envelope.result is None,
    ensures
        envelope.outcome() == Err::<T, OperationErrorView>(OperationErrorView::MissingResult),
{
}

/// `ok` alone decides between result and error: with `ok` set the error
/// field is ignored, without it the result field is.
pub proof fn lemma_ok_decides<T>(envelope: Envelope<T>)
    ensures
        envelope.ok && envelope.result is Some ==> envelope.outcome() == Ok::<
            T,
            OperationErrorView,
        >(envelope.result->0),
        !envelope.ok ==> envelope.outcome() is Err && envelope.outcome()->Err_0
            is ScriptError,
{
}

} // verus!
