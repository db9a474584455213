use renderdog::envelope::Envelope;
use renderdog::error::{FailureKind, IoFailure, OperationError};
use renderdog::json::{
    decode_envelope, envelope_from_readings, envelope_of_document, read_response, Document,
    JsonKind, Member,
};

fn object(pairs: Vec<(&str, serde_json::Value)>) -> serde_json::Value {
    let mut map = serde_json::Map::new();
    for (key, value) in pairs {
        map.insert(key.to_string(), value);
    }
    serde_json::Value::Object(map)
}

fn sum_payload(sum: u64) -> serde_json::Value {
    object(vec![("sum", serde_json::Value::from(sum))])
}

#[test]
fn success_envelope_resolves_to_its_result() {
    assert_eq!(Envelope::success(5u32).resolve(), Ok(5));
    let with_error = Envelope { ok: true, result: Some(5u32), error: Some("ignored".to_string()) };
    assert_eq!(with_error.resolve(), Ok(5));
}

#[test]
fn failure_envelope_resolves_to_script_error() {
    let envelope: Envelope<u32> = Envelope::failure("capture not found".to_string());
    assert_eq!(
        envelope.resolve(),
        Err(OperationError::ScriptError("capture not found".to_string()))
    );
    let with_result = Envelope { ok: false, result: Some(1u32), error: Some("boom".to_string()) };
    assert_eq!(with_result.resolve(), Err(OperationError::ScriptError("boom".to_string())));
}

#[test]
fn success_without_result_is_missing_result() {
    let envelope: Envelope<u32> = Envelope { ok: true, result: None, error: None };
    assert_eq!(envelope.resolve(), Err(OperationError::MissingResult));
    let with_error: Envelope<u32> =
        Envelope { ok: true, result: None, error: Some("x".to_string()) };
    assert_eq!(with_error.resolve(), Err(OperationError::MissingResult));
}

#[test]
fn failure_without_message_is_unknown_error() {
    let envelope: Envelope<u32> = Envelope { ok: false, result: None, error: None };
    assert_eq!(
        envelope.resolve(),
        Err(OperationError::ScriptError("unknown error".to_string()))
    );
}

#[test]
fn envelope_round_trip_through_json() {
    let payload = sum_payload(5);
    let encoded = serde_json::to_vec(&object(vec![
        ("ok", serde_json::Value::Bool(true)),
        ("result", payload.clone()),
    ]))
    .unwrap();
    assert_eq!(read_response(&encoded), Ok(payload));

    for message in ["capture not found", "", "line one\nline two", "\u{e9}\"quoted\""] {
        let encoded = serde_json::to_vec(&object(vec![
            ("ok", serde_json::Value::Bool(false)),
            ("error", serde_json::Value::String(message.to_string())),
        ]))
        .unwrap();
        assert_eq!(
            read_response(&encoded),
            Err(OperationError::ScriptError(message.to_string()))
        );
    }
}

#[test]
fn decoding_ok_without_result_yields_missing_result() {
    assert_eq!(read_response(br#"{"ok":true}"#), Err(OperationError::MissingResult));
    assert_eq!(
        read_response(br#"{"ok":true,"result":null}"#),
        Err(OperationError::MissingResult)
    );
    assert_eq!(
        read_response(br#"{"ok":true,"error":"left over"}"#),
        Err(OperationError::MissingResult)
    );
}

#[test]
fn decoding_reads_the_three_fields() {
    let envelope = decode_envelope(br#"{"ok":true,"result":{"sum":5},"extra":1}"#).unwrap();
    assert_eq!(envelope, Envelope { ok: true, result: Some(sum_payload(5)), error: None });
    let envelope = decode_envelope(br#"{"ok":false,"error":"capture not found"}"#).unwrap();
    assert_eq!(
        envelope,
        Envelope { ok: false, result: None, error: Some("capture not found".to_string()) }
    );
    let envelope = decode_envelope(br#"{"ok":false,"error":null,"result":0}"#).unwrap();
    assert_eq!(
        envelope,
        Envelope { ok: false, result: Some(serde_json::Value::from(0u64)), error: None }
    );
    assert_eq!(
        read_response(br#"{"ok":false}"#),
        Err(OperationError::ScriptError("unknown error".to_string()))
    );
}

#[test]
fn malformed_envelopes_are_refused() {
    let cases: [&[u8]; 9] = [
        b"",
        b"not json",
        b"{\"ok\":true",
        b"[true,{\"sum\":5},null]",
        b"true",
        b"{}",
        b"{\"ok\":\"yes\",\"result\":1}",
        b"{\"ok\":null}",
        b"{\"ok\":true,\"result\":1,\"error\":5}",
    ];
    for bytes in cases {
        match read_response(bytes) {
            Err(OperationError::EnvelopeParseFailed(_)) => {}
            other => panic!("{:?} gave {:?}", String::from_utf8_lossy(bytes), other),
        }
    }
    assert_eq!(
        read_response(b"{}"),
        Err(OperationError::EnvelopeParseFailed("missing field `ok`".to_string()))
    );
    assert_eq!(
        read_response(b"[]"),
        Err(OperationError::EnvelopeParseFailed("expected a JSON object".to_string()))
    );
    assert_eq!(
        read_response(b"{\"ok\":1}"),
        Err(OperationError::EnvelopeParseFailed("field `ok` is not a boolean".to_string()))
    );
    assert_eq!(
        read_response(b"{\"ok\":false,\"error\":[]}"),
        Err(OperationError::EnvelopeParseFailed("field `error` is not a string".to_string()))
    );
}

fn text(s: &str) -> Option<JsonKind> {
    Some(JsonKind::String(s.to_string()))
}

fn fault(message: &str) -> Result<Envelope<u8>, OperationError> {
    Err(OperationError::EnvelopeParseFailed(message.to_string()))
}

#[test]
fn readings_make_an_envelope_or_a_fault() {
    let yes = || Some(JsonKind::Bool(true));
    let no = || Some(JsonKind::Bool(false));
    assert_eq!(
        envelope_from_readings(JsonKind::Object, yes(), Some((JsonKind::Number, 1u8)), None),
        Ok(Envelope { ok: true, result: Some(1u8), error: None })
    );
    assert_eq!(
        envelope_from_readings(JsonKind::Object, yes(), Some((JsonKind::Object, 1u8)), text("e")),
        Ok(Envelope { ok: true, result: Some(1u8), error: Some("e".to_string()) })
    );
    assert_eq!(
        envelope_from_readings(JsonKind::Object, yes(), Some((JsonKind::Null, 1u8)), None),
        Ok(Envelope { ok: true, result: None, error: None })
    );
    assert_eq!(
        envelope_from_readings(JsonKind::Object, no(), None::<(JsonKind, u8)>, text("e")),
        Ok(Envelope { ok: false, result: None, error: Some("e".to_string()) })
    );
    assert_eq!(
        envelope_from_readings(JsonKind::Object, no(), None::<(JsonKind, u8)>, Some(JsonKind::Null)),
        Ok(Envelope { ok: false, result: None, error: None })
    );

    for top in [JsonKind::Null, JsonKind::Bool(true), JsonKind::Number, JsonKind::Array, JsonKind::String(String::new())] {
        assert_eq!(
            envelope_from_readings(top, yes(), Some((JsonKind::Number, 1u8)), None),
            fault("expected a JSON object")
        );
    }
    assert_eq!(
        envelope_from_readings(JsonKind::Object, None, Some((JsonKind::Number, 1u8)), None),
        fault("missing field `ok`")
    );
    for ok in [JsonKind::Null, JsonKind::Number, JsonKind::Array, JsonKind::Object, JsonKind::String("true".to_string())] {
        assert_eq!(
            envelope_from_readings(JsonKind::Object, Some(ok), Some((JsonKind::Number, 1u8)), None),
            fault("field `ok` is not a boolean")
        );
    }
    for error in [JsonKind::Bool(false), JsonKind::Number, JsonKind::Array, JsonKind::Object] {
        assert_eq!(
            envelope_from_readings(JsonKind::Object, no(), Some((JsonKind::Number, 1u8)), Some(error)),
            fault("field `error` is not a string")
        );
    }
    // The first fault is the one that is reported.
    assert_eq!(
        envelope_from_readings(JsonKind::Array, None, None::<(JsonKind, u8)>, Some(JsonKind::Number)),
        fault("expected a JSON object")
    );
    assert_eq!(
        envelope_from_readings(JsonKind::Object, None, None::<(JsonKind, u8)>, Some(JsonKind::Number)),
        fault("missing field `ok`")
    );
}

#[test]
fn every_failure_has_its_words() {
    let io = |m: &str| IoFailure::new(FailureKind::Other, m.to_string());
    assert_eq!(
        OperationError::DirectoryCreationFailed(io("denied")).message(),
        "failed to create scripts dir: denied"
    );
    assert_eq!(
        OperationError::ScriptWriteFailed(io("disk full")).message(),
        "failed to write python script: disk full"
    );
    assert_eq!(
        OperationError::RequestEncodeFailed("bad".to_string()).message(),
        "failed to encode request JSON: bad"
    );
    assert_eq!(
        OperationError::RequestWriteFailed(io("disk full")).message(),
        "failed to write request JSON: disk full"
    );
    assert_eq!(
        OperationError::HostInvocationFailed("no such program".to_string()).message(),
        "qrenderdoc python failed: no such program"
    );
    assert_eq!(
        OperationError::ResponseReadFailed(io("gone")).message(),
        "failed to read response JSON: gone"
    );
    assert_eq!(
        OperationError::EnvelopeParseFailed("eof".to_string()).message(),
        "failed to parse JSON: eof"
    );
    assert_eq!(
        OperationError::MissingResult.message(),
        "qrenderdoc script error: missing result"
    );
    assert_eq!(
        OperationError::ScriptError("capture not found".to_string()).message(),
        "qrenderdoc script error: capture not found"
    );
    assert!(io("x").kind == FailureKind::Other);
    assert!(IoFailure::new(FailureKind::NotFound, String::new()).is_not_found());
    assert!(!IoFailure::new(FailureKind::AlreadyExists, String::new()).is_not_found());
}

#[test]
fn payloads_of_every_kind_are_handed_on() {
    let cases: [(&[u8], serde_json::Value); 5] = [
        (br#"{"ok":true,"result":false}"#, serde_json::Value::Bool(false)),
        (br#"{"ok":true,"result":0}"#, serde_json::Value::from(0u64)),
        (br#"{"ok":true,"result":""}"#, serde_json::Value::String(String::new())),
        (br#"{"ok":true,"result":[]}"#, serde_json::Value::Array(Vec::new())),
        (br#"{"ok":true,"result":{}}"#, serde_json::Value::Object(serde_json::Map::new())),
    ];
    for (bytes, expected) in cases {
        assert_eq!(read_response(bytes), Ok(expected));
    }
}

fn member(key: &str, kind: JsonKind, value: serde_json::Value) -> Member {
    Member { key: key.to_string(), kind, value }
}

#[test]
fn envelope_is_read_out_of_a_document() {
    let payload = sum_payload(5);
    let document = Document {
        top: JsonKind::Object,
        members: vec![
            member("extra", JsonKind::Number, serde_json::Value::from(1u64)),
            member("ok", JsonKind::Bool(true), serde_json::Value::Bool(true)),
            member("result", JsonKind::Object, payload.clone()),
        ],
    };
    assert_eq!(
        envelope_of_document(document),
        Ok(Envelope { ok: true, result: Some(payload), error: None })
    );

    let document = Document {
        top: JsonKind::Object,
        members: vec![
            member("error", JsonKind::String("boom".to_string()), serde_json::Value::from("boom")),
            member("ok", JsonKind::Bool(false), serde_json::Value::Bool(false)),
            member("result", JsonKind::Null, serde_json::Value::Null),
        ],
    };
    assert_eq!(
        envelope_of_document(document),
        Ok(Envelope { ok: false, result: None, error: Some("boom".to_string()) })
    );
}

#[test]
fn document_that_is_no_envelope_is_refused() {
    let fault = |m: &str| Err(OperationError::EnvelopeParseFailed(m.to_string()));
    assert_eq!(
        envelope_of_document(Document { top: JsonKind::Array, members: Vec::new() }),
        fault("expected a JSON object")
    );
    assert_eq!(
        envelope_of_document(Document { top: JsonKind::Object, members: Vec::new() }),
        fault("missing field `ok`")
    );
    assert_eq!(
        envelope_of_document(Document {
            top: JsonKind::Object,
            members: vec![member("ok", JsonKind::Number, serde_json::Value::from(1u64))],
        }),
        fault("field `ok` is not a boolean")
    );
    assert_eq!(
        envelope_of_document(Document {
            top: JsonKind::Object,
            members: vec![
                member("ok", JsonKind::Bool(false), serde_json::Value::Bool(false)),
                member("error", JsonKind::Array, serde_json::Value::Array(Vec::new())),
            ],
        }),
        fault("field `error` is not a string")
    );
}

#[test]
fn the_last_member_under_a_key_counts() {
    let document = Document {
        top: JsonKind::Object,
        members: vec![
            member("ok", JsonKind::Bool(false), serde_json::Value::Bool(false)),
            member("result", JsonKind::Number, serde_json::Value::from(1u64)),
            member("ok", JsonKind::Bool(true), serde_json::Value::Bool(true)),
            member("result", JsonKind::Number, serde_json::Value::from(2u64)),
        ],
    };
    assert_eq!(
        envelope_of_document(document),
        Ok(Envelope { ok: true, result: Some(serde_json::Value::from(2u64)), error: None })
    );
}
