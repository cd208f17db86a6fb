use cdumay_error_json::{Classification, JsonErrorConverter, StructuredError};
use serde_json::Value;
use std::collections::BTreeMap;
use std::io::Read;

struct FailingReader;

impl Read for FailingReader {
    fn read(&mut self, _buf: &mut [u8]) -> std::io::Result<usize> {
        Err(std::io::Error::new(std::io::ErrorKind::Other, "device unplugged"))
    }
}

fn convert_err(err: serde_json::Error) -> StructuredError {
    let mut context = BTreeMap::new();
    context.insert("k".to_string(), serde_value::Value::Bool(true));
    let e = JsonErrorConverter::convert(&err, "parse failed".to_string(), context.clone());
    assert_eq!(e.message, "parse failed");
    assert_eq!(e.details, context);
    e
}

#[test]
fn trailing_comma_is_a_syntax_error() {
    let err = serde_json::from_str::<Value>("{\"key\": \"value\",}").unwrap_err();
    let e = convert_err(err);
    assert_eq!(e.identifier(), "JSON-00001");
    assert_eq!(e.status(), 400);
    assert_eq!(e.kind.description, "Syntax Error");
    assert_eq!(e.name, "SyntaxError");
}

#[test]
fn wrong_field_type_is_a_data_error() {
    let err = serde_json::from_str::<BTreeMap<String, String>>("{\"key\": 123}").unwrap_err();
    let e = convert_err(err);
    assert_eq!(e.identifier(), "JSON-00002");
    assert_eq!(e.status(), 400);
    assert_eq!(e.kind.description, "Invalid JSON data");
    assert_eq!(e.name, "DataError");
}

#[test]
fn truncated_input_is_an_eof_error() {
    let err = serde_json::from_str::<Value>("{\"key\": \"value\"").unwrap_err();
    let e = convert_err(err);
    assert_eq!(e.identifier(), "JSON-00003");
    assert_eq!(e.status(), 500);
    assert_eq!(e.kind.description, "Reached the end of the input data");
    assert_eq!(e.name, "EofError");
}

#[test]
fn failing_reader_is_an_io_error() {
    let err = serde_json::from_reader::<_, Value>(FailingReader).unwrap_err();
    let e = convert_err(err);
    assert_eq!(e.identifier(), "JSON-00004");
    assert_eq!(e.status(), 500);
    assert_eq!(e.kind.description, "IO Error");
    assert_eq!(e.name, "IoError");
}

#[test]
fn empty_context_gives_empty_details() {
    let err = serde_json::from_str::<Value>("{\"key\": \"value\",}").unwrap_err();
    let e = JsonErrorConverter::convert(&err, "m".to_string(), BTreeMap::new());
    assert!(e.details.is_empty());
}

#[test]
fn classified_conversion_follows_the_table() {
    let table = [
        (Classification::Io, "JSON-00004", 500u16, "IoError"),
        (Classification::Syntax, "JSON-00001", 400u16, "SyntaxError"),
        (Classification::Data, "JSON-00002", 400u16, "DataError"),
        (Classification::Eof, "JSON-00003", 500u16, "EofError"),
    ];
    for (c, id, status, name) in table {
        let e = JsonErrorConverter::convert_classified(c, "msg".to_string(), BTreeMap::new());
        assert_eq!(e.kind.identifier, id);
        assert_eq!(e.kind.status, status);
        assert_eq!(e.name, name);
        assert_eq!(e.message, "msg");
        assert_eq!(c.kind().identifier, id);
    }
}

#[test]
fn identifiers_are_distinct() {
    let cs = [Classification::Io, Classification::Syntax, Classification::Data, Classification::Eof];
    for a in cs {
        for b in cs {
            assert_eq!(a.kind().identifier == b.kind().identifier, a == b);
        }
    }
}
