//! Envelopes as JSON text: the library says which keys an object holds and
//! what was found under them, `serde_json` writes and reads the text.

use jsend::wire::{Key, MalformedEnvelope, Record, Slot};
use jsend::JSendResponse;
use serde::de::DeserializeOwned;
use serde::ser::{SerializeMap, Serializer};
use serde::Serialize;
use serde_json::Value;

/// Writes what stands under one key, or nothing where the key is left out.
fn put<M: SerializeMap, V: Serialize>(object: &mut M, key: Key, slot: &Slot<V>) {
    match slot {
        Slot::Absent => {}
        Slot::Null(_) => object.serialize_entry(key.name(), &()).unwrap(),
        Slot::Value(value) => object.serialize_entry(key.name(), value).unwrap(),
        Slot::Invalid => panic!("nothing to write under `{}`", key.name()),
    }
}

/// The envelope as JSON text.
fn to_string<T: Serialize>(response: &JSendResponse<T>) -> Result<String, MalformedEnvelope> {
    let record = response.as_ref().encode();
    let mut text = Vec::new();
    let mut serializer = serde_json::Serializer::new(&mut text);
    let mut object = serializer.serialize_map(None).unwrap();
    for key in Key::ordered() {
        match key {
            Key::Status => put(&mut object, key, &record.status),
            Key::Message => put(&mut object, key, &record.message),
            Key::Code => put(&mut object, key, &record.code),
            Key::Data => put(&mut object, key, &record.data),
        }
    }
    object.end().unwrap();
    Ok(String::from_utf8(text).unwrap())
}

/// What stands under one key of a parsed object, read as a `V`.
fn take<V: DeserializeOwned>(object: &mut serde_json::Map<String, Value>, key: Key) -> Slot<V> {
    match object.remove(key.name()) {
        None => Slot::Absent,
        Some(Value::Null) => Slot::Null(serde_json::from_value(Value::Null).ok()),
        Some(found) => match serde_json::from_value(found) {
            Ok(value) => Slot::Value(value),
            Err(_) => Slot::Invalid,
        },
    }
}

/// The envelope that a JSON text holds.
fn from_str<T: DeserializeOwned>(text: &str) -> Result<JSendResponse<T>, MalformedEnvelope> {
    let mut object = match serde_json::from_str(text) {
        Ok(Value::Object(object)) => object,
        other => panic!("no JSON object: {:?}", other),
    };
    JSendResponse::decode(Record {
        status: take(&mut object, Key::Status),
        message: take(&mut object, Key::Message),
        code: take(&mut object, Key::Code),
        data: take(&mut object, Key::Data),
    })
}

/// A JSON object of the given entries.
fn object(entries: Vec<(&str, Value)>) -> Value {
    let mut map = serde_json::Map::new();
    for (key, value) in entries {
        map.insert(key.to_string(), value);
    }
    Value::Object(map)
}

#[test]
fn test_serde_success() {
    let response: JSendResponse<Value> = JSendResponse::success(Some(object(vec![(
        "post",
        object(vec![
            ("id", Value::from(1)),
            ("title", Value::from("A blog post")),
            ("body", Value::from("Some useful content")),
        ]),
    )])));
    let serialized = to_string(&response).unwrap();
    assert_eq!(
        serialized,
        r#"{"status":"success","data":{"post":{"body":"Some useful content","id":1,"title":"A blog post"}}}"#
    );

    let deserialized: JSendResponse<Value> = from_str(&serialized).unwrap();
    assert_eq!(response, deserialized);
}

#[test]
fn test_serde_success_no_data() {
    let response: JSendResponse<Value> = JSendResponse::success(None);
    let serialized = to_string(&response).unwrap();
    assert_eq!(serialized, r#"{"status":"success","data":null}"#);

    let deserialized: JSendResponse<Value> = from_str(&serialized).unwrap();
    assert_eq!(response, deserialized);
}

#[test]
fn test_serialization_fail() {
    let response: JSendResponse<Value> =
        JSendResponse::fail(object(vec![("title", Value::from("A title is required"))]));
    let serialized = to_string(&response).unwrap();
    assert_eq!(
        serialized,
        r#"{"status":"fail","data":{"title":"A title is required"}}"#
    );

    let deserialized: JSendResponse<Value> = from_str(&serialized).unwrap();
    assert_eq!(response, deserialized);
}

#[test]
fn test_serialization_error() {
    let response: JSendResponse<Value> = JSendResponse::error(
        "Unable to communicate with database".to_string(),
        None,
        None,
    );
    let serialized = to_string(&response).unwrap();
    assert_eq!(
        serialized,
        r#"{"status":"error","message":"Unable to communicate with database"}"#
    );

    let deserialized: JSendResponse<Value> = from_str(&serialized).unwrap();
    assert_eq!(response, deserialized);
}

#[test]
fn test_serialization_error_with_optional_fields() {
    let response: JSendResponse<Value> = JSendResponse::error(
        "Unable to communicate with database".to_string(),
        Some(100),
        Some(object(vec![("cause", Value::from("timeout"))])),
    );
    let serialized = to_string(&response).unwrap();
    assert_eq!(
        serialized,
        r#"{"status":"error","message":"Unable to communicate with database","code":100,"data":{"cause":"timeout"}}"#
    );

    let deserialized: JSendResponse<Value> = from_str(&serialized).unwrap();
    assert_eq!(response, deserialized);
}

#[test]
fn error_with_elided_message_round_trips() {
    let response: JSendResponse<Value> = JSendResponse::error(
        "...".to_string(),
        Some(100),
        Some(object(vec![("cause", Value::from("timeout"))])),
    );
    let serialized = to_string(&response).unwrap();
    assert_eq!(
        serialized,
        r#"{"status":"error","message":"...","code":100,"data":{"cause":"timeout"}}"#
    );
    assert_eq!(from_str::<Value>(&serialized), Ok(response));
}

#[test]
fn unknown_status_is_rejected() {
    let decoded = from_str::<Value>(r#"{"status":"unknown"}"#);
    assert_eq!(
        decoded,
        Err(MalformedEnvelope::UnknownStatus("unknown".to_string()))
    );
}

#[test]
fn error_without_message_is_rejected() {
    let decoded = from_str::<Value>(r#"{"status":"error"}"#);
    assert_eq!(decoded, Err(MalformedEnvelope::Missing(Key::Message)));
}

#[test]
fn object_without_status_is_rejected() {
    let decoded = from_str::<Value>(r#"{"data":{"id":1}}"#);
    assert_eq!(decoded, Err(MalformedEnvelope::Missing(Key::Status)));
    let decoded = from_str::<Value>("{}");
    assert_eq!(decoded, Err(MalformedEnvelope::Missing(Key::Status)));
}

#[test]
fn status_of_another_shape_is_rejected() {
    let decoded = from_str::<Value>(r#"{"status":200,"data":null}"#);
    assert_eq!(decoded, Err(MalformedEnvelope::Invalid(Key::Status)));
    let decoded = from_str::<Value>(r#"{"status":null,"data":null}"#);
    assert_eq!(decoded, Err(MalformedEnvelope::Invalid(Key::Status)));
}

#[test]
fn tags_are_read_letter_for_letter() {
    let decoded = from_str::<Value>(r#"{"status":"Success","data":null}"#);
    assert_eq!(
        decoded,
        Err(MalformedEnvelope::UnknownStatus("Success".to_string()))
    );
    let decoded = from_str::<Value>(r#"{"status":"fail ","data":1}"#);
    assert_eq!(
        decoded,
        Err(MalformedEnvelope::UnknownStatus("fail ".to_string()))
    );
    let decoded = from_str::<Value>(r#"{"status":"","data":1}"#);
    assert_eq!(decoded, Err(MalformedEnvelope::UnknownStatus(String::new())));
}

#[test]
fn fail_without_data_is_rejected() {
    let decoded = from_str::<Value>(r#"{"status":"fail"}"#);
    assert_eq!(decoded, Err(MalformedEnvelope::Missing(Key::Data)));
    let decoded = from_str::<Option<String>>(r#"{"status":"fail"}"#);
    assert_eq!(decoded, Err(MalformedEnvelope::Missing(Key::Data)));
}

#[test]
fn payload_of_another_shape_is_rejected() {
    let decoded = from_str::<u32>(r#"{"status":"success","data":"seven"}"#);
    assert_eq!(decoded, Err(MalformedEnvelope::Invalid(Key::Data)));
    let decoded = from_str::<u32>(r#"{"status":"fail","data":"seven"}"#);
    assert_eq!(decoded, Err(MalformedEnvelope::Invalid(Key::Data)));
    let decoded = from_str::<u32>(r#"{"status":"fail","data":null}"#);
    assert_eq!(decoded, Err(MalformedEnvelope::Invalid(Key::Data)));
    let decoded = from_str::<u32>(r#"{"status":"error","message":"m","data":[]}"#);
    assert_eq!(decoded, Err(MalformedEnvelope::Invalid(Key::Data)));
}

#[test]
fn message_and_code_of_another_shape_are_rejected() {
    let decoded = from_str::<Value>(r#"{"status":"error","message":5}"#);
    assert_eq!(decoded, Err(MalformedEnvelope::Invalid(Key::Message)));
    let decoded = from_str::<Value>(r#"{"status":"error","message":null}"#);
    assert_eq!(decoded, Err(MalformedEnvelope::Invalid(Key::Message)));
    let decoded = from_str::<Value>(r#"{"status":"error","message":"m","code":"100"}"#);
    assert_eq!(decoded, Err(MalformedEnvelope::Invalid(Key::Code)));
    let decoded = from_str::<Value>(r#"{"status":"error","message":"m","code":1.5}"#);
    assert_eq!(decoded, Err(MalformedEnvelope::Invalid(Key::Code)));
    let decoded =
        from_str::<Value>(r#"{"status":"error","message":"m","code":9223372036854775808}"#);
    assert_eq!(decoded, Err(MalformedEnvelope::Invalid(Key::Code)));
}

#[test]
fn first_failing_key_of_an_error_decides() {
    let decoded = from_str::<u32>(r#"{"status":"error","code":"x","data":"y"}"#);
    assert_eq!(decoded, Err(MalformedEnvelope::Missing(Key::Message)));
    let decoded = from_str::<u32>(r#"{"data":"y","code":"x","message":"m","status":"error"}"#);
    assert_eq!(decoded, Err(MalformedEnvelope::Invalid(Key::Code)));
}

#[test]
fn absent_and_null_both_read_as_no_value() {
    let expected: JSendResponse<Value> = JSendResponse::success(None);
    assert_eq!(from_str(r#"{"status":"success"}"#), Ok(expected.clone()));
    assert_eq!(from_str(r#"{"status":"success","data":null}"#), Ok(expected));

    let expected: JSendResponse<Value> = JSendResponse::error("m".to_string(), None, None);
    assert_eq!(
        from_str(r#"{"status":"error","message":"m","code":null,"data":null}"#),
        Ok(expected)
    );
}

#[test]
fn fail_takes_null_where_the_payload_does() {
    let response: JSendResponse<Option<String>> = JSendResponse::fail(None);
    let serialized = to_string(&response).unwrap();
    assert_eq!(serialized, r#"{"status":"fail","data":null}"#);
    assert_eq!(from_str(&serialized), Ok(response));

    let response: JSendResponse<Value> = JSendResponse::fail(Value::Null);
    let serialized = to_string(&response).unwrap();
    assert_eq!(serialized, r#"{"status":"fail","data":null}"#);
    assert_eq!(from_str(&serialized), Ok(response));

    let response: JSendResponse<()> = JSendResponse::fail(());
    let serialized = to_string(&response).unwrap();
    assert_eq!(serialized, r#"{"status":"fail","data":null}"#);
    assert_eq!(from_str(&serialized), Ok(response));
}

#[test]
fn keys_of_other_kinds_are_not_looked_at() {
    let decoded = from_str::<u32>(
        r#"{"status":"success","data":7,"message":5,"code":"x","more":[1,2]}"#,
    );
    assert_eq!(decoded, Ok(JSendResponse::success(Some(7))));
    let decoded = from_str::<u32>(r#"{"status":"fail","data":7,"message":"m","code":3}"#);
    assert_eq!(decoded, Ok(JSendResponse::fail(7)));
}

#[test]
fn key_order_in_the_text_does_not_matter() {
    let decoded = from_str::<u32>(r#"{"data":7,"code":-3,"message":"m","status":"error"}"#);
    assert_eq!(
        decoded,
        Ok(JSendResponse::error("m".to_string(), Some(-3), Some(7)))
    );
}

#[test]
fn bare_error_has_no_code_and_no_data_key() {
    let response: JSendResponse<Value> = JSendResponse::error("m".to_string(), None, None);
    let serialized = to_string(&response).unwrap();
    let parsed: Value = serde_json::from_str(&serialized).unwrap();
    let keys: Vec<&String> = parsed.as_object().unwrap().keys().collect();
    assert_eq!(keys, vec!["message", "status"]);
    assert!(!serialized.contains("code"));
    assert!(!serialized.contains("data"));
    assert!(!serialized.contains("null"));
}

#[test]
fn empty_success_has_a_null_data_key() {
    let response: JSendResponse<u32> = JSendResponse::success(None);
    let serialized = to_string(&response).unwrap();
    let parsed: Value = serde_json::from_str(&serialized).unwrap();
    assert_eq!(parsed.as_object().unwrap().get("data"), Some(&Value::Null));
    assert_eq!(parsed.as_object().unwrap().len(), 2);
}

#[test]
fn error_with_code_only_or_data_only() {
    let response: JSendResponse<u32> = JSendResponse::error("m".to_string(), Some(i64::MIN), None);
    let serialized = to_string(&response).unwrap();
    assert_eq!(
        serialized,
        r#"{"status":"error","message":"m","code":-9223372036854775808}"#
    );
    assert_eq!(from_str(&serialized), Ok(response));

    let response: JSendResponse<u32> = JSendResponse::error("m".to_string(), None, Some(0));
    let serialized = to_string(&response).unwrap();
    assert_eq!(serialized, r#"{"status":"error","message":"m","data":0}"#);
    assert_eq!(from_str(&serialized), Ok(response));
}

#[test]
fn message_is_written_as_a_json_string() {
    let response: JSendResponse<u32> =
        JSendResponse::error("a \"quoted\"\nline".to_string(), None, None);
    let serialized = to_string(&response).unwrap();
    assert_eq!(
        serialized,
        r#"{"status":"error","message":"a \"quoted\"\nline"}"#
    );
    assert_eq!(from_str(&serialized), Ok(response));
}
