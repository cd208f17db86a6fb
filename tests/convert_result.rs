use cdumay_error_json::JsonErrorConverter;
use serde_json::Value;
use std::collections::BTreeMap;

#[test]
fn test_convert_result_with_context() {
    let result: Result<Value, serde_json::Error> = serde_json::from_str("invalid json");
    let mut context = BTreeMap::new();
    context.insert("test".to_string(), serde_value::Value::String("value".to_string()));

    let converted = JsonErrorConverter::convert_result(result, Some(context), Some("Test error".to_string()));
    assert!(converted.is_err());

    let err = converted.unwrap_err();
    assert_eq!(err.kind.identifier, "JSON-00001");
    assert!(err.message.contains("Test error"));
}

#[test]
fn test_convert_result_without_text() {
    let result: Result<Value, serde_json::Error> = serde_json::from_str("invalid json");
    let mut context = BTreeMap::new();
    context.insert("test".to_string(), serde_value::Value::String("value".to_string()));
    let converted = JsonErrorConverter::convert_result(result, Some(context), None);
    assert!(converted.is_err());

    let err = converted.unwrap_err();
    assert_eq!(err.kind.identifier, "JSON-00001");
}

#[test]
fn test_convert_result_minimal() {
    let result: Result<Value, serde_json::Error> = serde_json::from_str("invalid json");
    let converted = JsonErrorConverter::convert_result(result, None, None);
    assert!(converted.is_err());

    let err = converted.unwrap_err();
    assert_eq!(err.kind.identifier, "JSON-00001");
}

#[test]
fn test_convert_result_success() {
    let result: Result<Value, serde_json::Error> = serde_json::from_str("{}");
    let converted = JsonErrorConverter::convert_result(result, None, None);
    assert!(converted.is_ok());
}

#[test]
fn success_value_passes_through_unchanged() {
    let result: Result<Value, serde_json::Error> = serde_json::from_str("{}");
    let converted = JsonErrorConverter::convert_result(result, None, None);
    assert_eq!(converted.ok(), Some(Value::Object(serde_json::Map::new())));
}

#[test]
fn missing_text_takes_the_failure_text() {
    let err = serde_json::from_str::<Value>("invalid json").unwrap_err();
    let expected = err.to_string();
    let converted = JsonErrorConverter::convert_result::<Value>(Err(err), None, None);
    let err = converted.unwrap_err();
    assert_eq!(err.message, expected);
    assert!(err.details.is_empty());
}

#[test]
fn given_context_is_kept_verbatim() {
    let mut context = BTreeMap::new();
    context.insert("input".to_string(), serde_value::Value::String("{".to_string()));
    context.insert("line".to_string(), serde_value::Value::U64(1));
    let result: Result<Value, serde_json::Error> = serde_json::from_str("{");
    let err = JsonErrorConverter::convert_result(result, Some(context.clone()), Some("bad".to_string()))
        .unwrap_err();
    assert_eq!(err.kind.identifier, "JSON-00003");
    assert_eq!(err.message, "bad");
    assert_eq!(err.details, context);
}
