use serde_json::Value;
use tauri_async_handler::json::{json_string, map_err, try_json_string};
use tauri_async_handler::wire::{decode, split_envelope, DecodeError};

fn doc(text: &str) -> Value {
    serde_json::from_str::<Value>(text).unwrap()
}

#[test]
fn decode_splits_routing_from_payload() {
    let command =
        decode(r#"{"cmd":"myCustomCommand","argument":"x","callback":"cb1","error":"er1"}"#)
            .unwrap();
    assert_eq!(command.callback_id, "cb1");
    assert_eq!(command.error_id, "er1");
    assert_eq!(command.payload, doc(r#"{"cmd":"myCustomCommand","argument":"x"}"#));
}

#[test]
fn decode_keeps_payload_fields_only() {
    let command = decode(r#"{"callback":"a","error":"b"}"#).unwrap();
    assert_eq!(command.payload, doc("{}"));
    assert!(command.payload.get("callback").is_none());
    assert!(command.payload.get("error").is_none());
}

#[test]
fn decode_accepts_empty_identifiers() {
    let command = decode(r#"{"callback":"","error":"","n":[1,2,3]}"#).unwrap();
    assert_eq!(command.callback_id, "");
    assert_eq!(command.error_id, "");
    assert_eq!(command.payload, doc(r#"{"n":[1,2,3]}"#));
}

#[test]
fn decode_rejects_text_that_is_not_json() {
    match decode("{") {
        Err(DecodeError::Malformed { detail }) => {
            assert_eq!(detail, "EOF while parsing an object at line 1 column 1")
        }
        other => panic!("unexpected: {:?}", other),
    }
    assert!(matches!(decode(""), Err(DecodeError::Malformed { .. })));
    assert!(matches!(decode("not json"), Err(DecodeError::Malformed { .. })));
    assert!(matches!(
        decode(r#"{"callback":"a","error":"b"} trailing"#),
        Err(DecodeError::Malformed { .. })
    ));
}

#[test]
fn decode_rejects_missing_callback() {
    assert_eq!(decode(r#"{"cmd":"x","error":"er1"}"#).unwrap_err(), DecodeError::MissingCallback);
    assert_eq!(decode("{}").unwrap_err(), DecodeError::MissingCallback);
}

#[test]
fn decode_rejects_mistyped_callback() {
    assert_eq!(
        decode(r#"{"callback":5,"error":"er1"}"#).unwrap_err(),
        DecodeError::MissingCallback
    );
    assert_eq!(
        decode(r#"{"callback":null,"error":"er1"}"#).unwrap_err(),
        DecodeError::MissingCallback
    );
}

#[test]
fn decode_rejects_missing_error() {
    assert_eq!(decode(r#"{"cmd":"x","callback":"cb1"}"#).unwrap_err(), DecodeError::MissingError);
}

#[test]
fn decode_rejects_mistyped_error() {
    assert_eq!(
        decode(r#"{"callback":"cb1","error":["er1"]}"#).unwrap_err(),
        DecodeError::MissingError
    );
}

#[test]
fn decode_rejects_documents_that_are_not_objects() {
    assert_eq!(decode(r#"["callback","error"]"#).unwrap_err(), DecodeError::MissingCallback);
    assert_eq!(decode(r#""callback""#).unwrap_err(), DecodeError::MissingCallback);
    assert_eq!(decode("null").unwrap_err(), DecodeError::MissingCallback);
    assert_eq!(decode("17").unwrap_err(), DecodeError::MissingCallback);
}

#[test]
fn split_envelope_takes_a_parsed_document() {
    let command = split_envelope(doc(r#"{"callback":"c","error":"e","k":true}"#)).unwrap();
    assert_eq!(command.callback_id, "c");
    assert_eq!(command.error_id, "e");
    assert_eq!(command.payload, doc(r#"{"k":true}"#));
    assert_eq!(
        split_envelope(doc(r#"{"callback":"c"}"#)).unwrap_err(),
        DecodeError::MissingError
    );
}

#[test]
fn decode_error_messages() {
    assert_eq!(DecodeError::MissingCallback.message(), "missing string field `callback`");
    assert_eq!(DecodeError::MissingError.message(), "missing string field `error`");
    assert_eq!(DecodeError::Malformed { detail: "bad".to_string() }.message(), "bad");
    assert_eq!(DecodeError::Payload { detail: "worse".to_string() }.message(), "worse");
}

#[test]
fn map_err_gives_the_error_message() {
    let e = serde_json::from_str::<Value>("[1,").unwrap_err();
    assert_eq!(map_err(e), "EOF while parsing a value at line 1 column 3");
    let e = serde_json::from_str::<Value>("]").unwrap_err();
    assert_eq!(map_err(e), "expected value at line 1 column 1");
}

#[test]
fn json_string_is_compact_json() {
    assert_eq!(json_string(doc(r#"{ "hello" : "world" }"#)), r#"{"hello":"world"}"#);
    assert_eq!(json_string(doc(r#"[1, 2.5, "a\"b", null, true]"#)), r#"[1,2.5,"a\"b",null,true]"#);
    assert_eq!(json_string(Value::Null), "null");
    assert_eq!(json_string(Value::String("x".to_string())), r#""x""#);
}

#[test]
fn try_json_string_agrees_with_json_string() {
    let value = doc(r#"{"a":{"b":[]}}"#);
    assert_eq!(try_json_string(&value), Some(r#"{"a":{"b":[]}}"#.to_string()));
}
