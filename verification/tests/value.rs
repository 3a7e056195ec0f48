//! The generic JSON value model: lookups, number reading, shape reporting.

use trin_jsonrpc::errors::JsonKind;
use trin_jsonrpc::value::{str_eq, JsonNum, JsonValue};

fn entry(key: &str, value: JsonValue) -> (String, JsonValue) {
    (key.to_string(), value)
}

#[test]
fn get_finds_the_first_field_with_the_name() {
    let doc = JsonValue::Object(vec![
        entry("a", JsonValue::Num(JsonNum::U64(1))),
        entry("b", JsonValue::Num(JsonNum::U64(2))),
        entry("a", JsonValue::Num(JsonNum::U64(3))),
    ]);
    assert_eq!(doc.get("a"), Some(&JsonValue::Num(JsonNum::U64(1))));
    assert_eq!(doc.get("b"), Some(&JsonValue::Num(JsonNum::U64(2))));
    assert_eq!(doc.get("c"), None);
}

#[test]
fn get_on_a_non_object_finds_nothing() {
    assert_eq!(JsonValue::Null.get("a"), None);
    assert_eq!(JsonValue::Array(vec![]).get("a"), None);
}

#[test]
fn as_u64_reads_only_unsigned_numbers() {
    assert_eq!(JsonValue::Num(JsonNum::U64(7)).as_u64(), Some(7));
    assert_eq!(JsonValue::Num(JsonNum::I64(-7)).as_u64(), None);
    let bits = (7.5f64).to_bits();
    assert_eq!(JsonValue::Num(JsonNum::F64Bits(bits)).as_u64(), None);
    assert_eq!(JsonValue::Str("7".to_string()).as_u64(), None);
}

#[test]
fn as_array_exposes_the_elements() {
    let v = JsonValue::Array(vec![JsonValue::Bool(true)]);
    assert_eq!(v.as_array(), Some(&vec![JsonValue::Bool(true)]));
    assert_eq!(JsonValue::Null.as_array(), None);
}

#[test]
fn kind_names_every_shape() {
    assert_eq!(JsonValue::Null.kind(), JsonKind::Null);
    assert_eq!(JsonValue::Bool(false).kind(), JsonKind::Bool);
    assert_eq!(JsonValue::Num(JsonNum::U64(0)).kind(), JsonKind::Number);
    assert_eq!(JsonValue::Str(String::new()).kind(), JsonKind::String);
    assert_eq!(JsonValue::Array(vec![]).kind(), JsonKind::Array);
    assert_eq!(JsonValue::Object(vec![]).kind(), JsonKind::Object);
}

#[test]
fn str_eq_compares_spelling() {
    assert!(str_eq(&"jsonrpc".to_string(), "jsonrpc"));
    assert!(!str_eq(&"jsonrpc".to_string(), "jsonrpd"));
    assert!(!str_eq(&"jsonrpc".to_string(), "jsonrp"));
}
