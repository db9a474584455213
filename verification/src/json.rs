//! Reading the response file.
//!
//! The response file holds JSON. `serde_json` parses it; what the parsed
//! value has to look like to be an envelope is decided here: an object whose
//! `ok` is a boolean, whose `error`, if there is one, is a string or null,
//! and whose `result`, if there is one and it is not null, is the payload.
//! Anything else is not an envelope and is refused, never patched up.
//!
//! One call reaches into the parser: it parses the bytes and lists what the
//! value has at its top, each member with its key, its kind and its value.
//! What that call returns for given bytes is named [`parsed_document`]; all
//! that is made of it is decided here.

use serde_json::Value;
use vstd::prelude::*;
use vstd::string::*;
use crate::envelope::Envelope;
use crate::error::{OperationError, OperationErrorView};

verus! {

/// `serde_json::Value`, a parsed JSON value. The library carries such values
/// and never looks inside one but in the one call below.
#[verifier::external_type_specification]
#[verifier::external_body]
pub struct ExJsonValue(serde_json::Value);

/// `Clone` for `serde_json::Value`. Nothing is claimed of the copy.
pub assume_specification[ <serde_json::Value as Clone>::clone ](
    value: &serde_json::Value,
) -> (out: serde_json::Value)
;

/// What the envelope's reader needs to know of a JSON value: which of the
/// six kinds it is and, for a boolean or a string, what it holds.
#[derive(Debug, PartialEq, Eq)]
pub enum JsonKind {
    Null,
    Bool(bool),
    Number,
    String(String),
    Array,
    Object,
}

/// One member of a JSON object: its key, the kind of its value, and the
/// value itself.
#[derive(Debug)]
pub struct Member {
    pub key: String,
    pub kind: JsonKind,
    pub value: serde_json::Value,
}

/// A parsed JSON value as far as the envelope's reader looks into it: the
/// kind of the value, and its members if it is an object. Any other value
/// has no members.
#[derive(Debug)]
pub struct Document {
    pub top: JsonKind,
    pub members: Vec<Member>,
}

/// What `serde_json::from_slice` makes of `bytes`, read as a
/// `serde_json::Value` and laid out as a [`Document`]; or the parser's
/// words, where the bytes are no JSON.
pub uninterp spec fn parsed_document(bytes: Seq<u8>) -> Result<Document, String>;

/// Calls `serde_json::from_slice` for a `serde_json::Value` and lays the
/// value out as a [`Document`]: its kind, and for an object each member
/// with its key, the kind of its value and a copy of the value. A failure
/// is handed back in the parser's words. The result is a function of the
/// bytes alone and is named [`parsed_document`].
#[verifier::external_body]
fn json_document(bytes: &[u8]) -> (out: Result<Document, String>)
    ensures
        out == parsed_document(bytes@),
{
    let kind = |v: &Value| match v {
        Value::Null => JsonKind::Null,
        Value::Bool(b) => JsonKind::Bool(*b),
        Value::Number(_) => JsonKind::Number,
        Value::String(s) => JsonKind::String(s.clone()),
        Value::Array(_) => JsonKind::Array,
        Value::Object(_) => JsonKind::Object,
    };
    let value: Value = serde_json::from_slice(bytes).map_err(|e| e.to_string())?;
    let members = value.as_object().into_iter().flatten();
    let members = members.map(|(k, v)| Member { key: k.clone(), kind: kind(v), value: v.clone() });
    Ok(Document { top: kind(&value), members: members.collect() })
}

/// Why what was read does not make an envelope, if it does not. `top` is
/// the kind of the whole value, `ok` and `error` are what was found under the
/// keys of those names.
pub open spec fn reading_fault(top: JsonKind, ok: Option<JsonKind>, error: Option<JsonKind>) -> Option<
    Seq<char>,
> {
    if !(top is Object) {
        Some("expected a JSON object"@)
    } else {
        match ok {
            None => Some("missing field `ok`"@),
            Some(JsonKind::Bool(_)) => match error {
                None => None,
                Some(JsonKind::Null) => None,
                Some(JsonKind::String(_)) => None,
                Some(_) => Some("field `error` is not a string"@),
            },
            Some(_) => Some("field `ok` is not a boolean"@),
        }
    }
}

/// The envelope that faultless readings make up. A result that is null is
/// no result, and an error that is null is no error.
pub open spec fn envelope_read<T>(
    ok: Option<JsonKind>,
    result: Option<(JsonKind, T)>,
    error: Option<JsonKind>,
) -> Envelope<T> {
    Envelope {
        ok: ok->0->Bool_0,
        result: match result {
            Some((kind, payload)) => if kind is Null {
                None
            } else {
                Some(payload)
            },
            None => None,
        },
        error: match error {
            Some(JsonKind::String(e)) => Some(e),
            _ => None,
        },
    }
}

/// Puts an envelope together from what was read: the kind of the whole
/// value, and what was found under `ok`, `result` and `error`.
///
/// The value must be an object. `ok` must be there and be a boolean.
/// `error` may be missing or null, which is the same; if it is there it must
/// be a string. `result` comes with its kind and is dropped if it is null.
/// Nothing else is looked at, so further keys do no harm.
pub fn envelope_from_readings<T>(
    top: JsonKind,
    ok: Option<JsonKind>,
    result: Option<(JsonKind, T)>,
    error: Option<JsonKind>,
) -> (out: Result<Envelope<T>, OperationError>)
    ensures
        match reading_fault(top, ok, error) {
            Some(m) => out is Err && out->Err_0@ == OperationErrorView::EnvelopeParseFailed(m),
            None => out == Ok::<Envelope<T>, OperationError>(envelope_read(ok, result, error)),
        },
{
    match top {
        JsonKind::Object => {},
        _ => {
            return Err(OperationError::EnvelopeParseFailed("expected a JSON object".to_owned()));
        },
    }
    let ok = match ok {
        Some(JsonKind::Bool(b)) => b,
        None => {
            return Err(OperationError::EnvelopeParseFailed("missing field `ok`".to_owned()));
        },
        Some(_) => {
            return Err(
                OperationError::EnvelopeParseFailed("field `ok` is not a boolean".to_owned()),
            );
        },
    };
    let error = match error {
        None => None,
        Some(JsonKind::Null) => None,
        Some(JsonKind::String(e)) => Some(e),
        Some(_) => {
            return Err(
                OperationError::EnvelopeParseFailed("field `error` is not a string".to_owned()),
            );
        },
    };
    let result = match result {
        Some((JsonKind::Null, _)) => None,
        Some((_, payload)) => Some(payload),
        None => None,
    };
    Ok(Envelope { ok, result, error })
}

/// The member that stands under `key`: the last of `members` with that key.
/// The members of a parsed object have a key each, so the last is the only
/// one.
pub open spec fn member_under(members: Seq<Member>, key: Seq<char>) -> Option<Member>
    decreases members.len(),
{
    if members.len() == 0 {
        None
    } else if members.last().key@ == key {
        Some(members.last())
    } else {
        member_under(members.drop_last(), key)
    }
}

/// The kind of what stands under `key`, if anything does.
pub open spec fn kind_found(members: Seq<Member>, key: Seq<char>) -> Option<JsonKind> {
    match member_under(members, key) {
        Some(member) => Some(member.kind),
        None => None,
    }
}

/// What stands under `key`, with its kind, if anything does.
pub open spec fn payload_found(members: Seq<Member>, key: Seq<char>) -> Option<
    (JsonKind, serde_json::Value),
> {
    match member_under(members, key) {
        Some(member) => Some((member.kind, member.value)),
        None => None,
    }
}

/// The envelope that a parsed value holds, or why it holds none.
pub open spec fn envelope_in(document: Document) -> Result<Envelope<serde_json::Value>, Seq<char>> {
    let ok = kind_found(document.members@, "ok"@);
    let error = kind_found(document.members@, "error"@);
    let result = payload_found(document.members@, "result"@);
    match reading_fault(document.top, ok, error) {
        Some(fault) => Err(fault),
        None => Ok(envelope_read(ok, result, error)),
    }
}

/// The envelope that the bytes of a response file hold, or why they hold
/// none: the parser's words where they are no JSON, the reader's where the
/// JSON is no envelope.
pub open spec fn envelope_of(bytes: Seq<u8>) -> Result<Envelope<serde_json::Value>, Seq<char>> {
    match parsed_document(bytes) {
        Ok(document) => envelope_in(document),
        Err(words) => Err(words@),
    }
}

/// The result of the call whose response file holds `bytes`.
pub open spec fn response_of(bytes: Seq<u8>) -> Result<serde_json::Value, OperationErrorView> {
    match envelope_of(bytes) {
        Ok(envelope) => envelope.outcome(),
        Err(fault) => Err(OperationErrorView::EnvelopeParseFailed(fault)),
    }
}

fn copy_kind(kind: &JsonKind) -> (out: JsonKind)
    ensures
        out == *kind,
{
    match kind {
        JsonKind::Null => JsonKind::Null,
        JsonKind::Bool(b) => JsonKind::Bool(*b),
        JsonKind::Number => JsonKind::Number,
        JsonKind::String(s) => JsonKind::String(s.clone()),
        JsonKind::Array => JsonKind::Array,
        JsonKind::Object => JsonKind::Object,
    }
}

fn kind_under(members: &Vec<Member>, key: &str) -> (out: Option<JsonKind>)
    ensures
        out == kind_found(members@, key@),
{
    let wanted = key.to_owned();
    let mut i: usize = members.len();
    assert(members@.take(i as int) =~= members@);
    while i > 0
        invariant
            i <= members.len(),
            wanted@ == key@,
            member_under(members@, key@) == member_under(members@.take(i as int), key@),
        decreases i,
    {
        i = i - 1;
        proof {
            assert(members@.take(i + 1).last() == members@[i as int]);
            assert(members@.take(i + 1).drop_last() =~= members@.take(i as int));
        }
        if members[i].key == wanted {
            return Some(copy_kind(&members[i].kind));
        }
    }
    None
}

fn payload_under(members: Vec<Member>, key: &str) -> (out: Option<(JsonKind, serde_json::Value)>)
    ensures
        out == payload_found(members@, key@),
{
    let wanted = key.to_owned();
    let mut rest = members;
    while rest.len() > 0
        invariant
            wanted@ == key@,
            member_under(members@, key@) == member_under(rest@, key@),
        decreases rest.len(),
    {
        match rest.pop() {
            Some(member) => {
                if member.key == wanted {
                    return Some((member.kind, member.value));
                }
            },
            None => {
                return None;
            },
        }
    }
    None
}

/// Reads the envelope out of a parsed value.
///
/// The value must be an object, and the object an envelope: `ok` a
/// boolean, `error` a string or null or not there. A result that is null is
/// no result. Everything else that the object holds is passed over.
pub fn envelope_of_document(document: Document) -> (out: Result<
    Envelope<serde_json::Value>,
    OperationError,
>)
    ensures
        match envelope_in(document) {
            Ok(envelope) => out == Ok::<Envelope<serde_json::Value>, OperationError>(envelope),
            Err(fault) => out is Err && out->Err_0@ == OperationErrorView::EnvelopeParseFailed(
                fault,
            ),
        },
{
    let ok = kind_under(&document.members, "ok");
    let error = kind_under(&document.members, "error");
    let result = payload_under(document.members, "result");
    envelope_from_readings(document.top, ok, result, error)
}

/// Decodes the bytes of a response file into an envelope whose result is
/// still JSON.
///
/// The bytes must be JSON, and the JSON an envelope as
/// [`envelope_of_document`] reads it. Whatever is wrong, the failure is
/// [`OperationError::EnvelopeParseFailed`] with the words of the parser or
/// of the reader.
pub fn decode_envelope(bytes: &[u8]) -> (out: Result<Envelope<serde_json::Value>, OperationError>)
    ensures
        match envelope_of(bytes@) {
            Ok(envelope) => out == Ok::<Envelope<serde_json::Value>, OperationError>(envelope),
            Err(fault) => out is Err && out->Err_0@ == OperationErrorView::EnvelopeParseFailed(
                fault,
            ),
        },
{
    match json_document(bytes) {
        Ok(document) => envelope_of_document(document),
        Err(words) => Err(OperationError::EnvelopeParseFailed(words)),
    }
}

/// Reads the result of a call from the bytes of its response file.
///
/// The result is the payload of the envelope that the bytes hold. Three
/// things can go wrong, each with a kind of its own: the bytes hold no
/// envelope, the envelope reports success without a result, the envelope
/// reports the script's own failure.
pub fn read_response(bytes: &[u8]) -> (out: Result<serde_json::Value, OperationError>)
    ensures
        match response_of(bytes@) {
            Ok(payload) => out == Ok::<serde_json::Value, OperationError>(payload),
            Err(e) => out is Err && out->Err_0@ == e,
        },
{
    match decode_envelope(bytes) {
        Ok(envelope) => envelope.resolve(),
        Err(e) => Err(e),
    }
}

/// Whether `error` is something that may stand under the key `error`.
pub open spec fn is_error_field(error: Option<JsonKind>) -> bool {
    error is None || error->0 is Null || error->0 is String
}

/// A response that says `ok` and carries a result gives that result back,
/// whether it names an error besides or not.
pub proof fn lemma_result_is_read_back<T>(kind: JsonKind, payload: T, error: Option<JsonKind>)
    requires
        !(kind is Null),
        is_error_field(error),
    ensures
        reading_fault(JsonKind::Object, Some(JsonKind::Bool(true)), error) is None,
        envelope_read(Some(JsonKind::Bool(true)), Some((kind, payload)), error).outcome() == Ok::<
            T,
            OperationErrorView,
        >(payload),
{
}

/// A response that does not say `ok` and names an error gives the script's
/// failure with that message, whether it carries a result besides or not.
pub proof fn lemma_error_is_read_back<T>(result: Option<(JsonKind, T)>, e: String)
    ensures
        reading_fault(JsonKind::Object, Some(JsonKind::Bool(false)), Some(JsonKind::String(e)))
            is None,
        envelope_read(Some(JsonKind::Bool(false)), result, Some(JsonKind::String(e))).outcome()
            == Err::<T, OperationErrorView>(OperationErrorView::ScriptError(e@)),
{
}

/// A response that says `ok` and carries no result, or null, is a missing
/// result: no default takes the result's place.
pub proof fn lemma_ok_without_result<T>(result: Option<(JsonKind, T)>, error: Option<JsonKind>)
    requires
        result matches Some(found) ==> found.0 is Null,
        is_error_field(error),
    ensures
        reading_fault(JsonKind::Object, Some(JsonKind::Bool(true)), error) is None,
        envelope_read(Some(JsonKind::Bool(true)), result, error).outcome() == Err::<
            T,
            OperationErrorView,
        >(OperationErrorView::MissingResult),
{
}

/// A response that does not say `ok` and names no error fails with the
/// words "unknown error".
pub proof fn lemma_failure_without_words<T>(result: Option<(JsonKind, T)>, error: Option<JsonKind>)
    requires
        error is None || error->0 is Null,
    ensures
        envelope_read(Some(JsonKind::Bool(false)), result, error).outcome() == Err::<
            T,
            OperationErrorView,
        >(OperationErrorView::ScriptError(crate::envelope::unknown_error())),
{
}

} // verus!
