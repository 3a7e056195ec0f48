//! Strict parsing of the parameter shapes and the lossless conversion back.

use trin_jsonrpc::errors::{DeserializationError, JsonKind};
use trin_jsonrpc::params::Params;
use trin_jsonrpc::value::{JsonNum, JsonValue};

fn entry(key: &str, value: JsonValue) -> (String, JsonValue) {
    (key.to_string(), value)
}

#[test]
fn params_from_array_of_null() {
    let parsed = Params::parse(JsonValue::Array(vec![JsonValue::Null])).unwrap();
    assert_eq!(parsed, Params::Array(vec![JsonValue::Null]));
}

#[test]
fn params_from_array_of_bool() {
    let parsed = Params::parse(JsonValue::Array(vec![JsonValue::Bool(true)])).unwrap();
    assert_eq!(parsed, Params::Array(vec![JsonValue::Bool(true)]));
}

#[test]
fn params_from_array_of_negative_number() {
    let parsed = Params::parse(JsonValue::Array(vec![JsonValue::Num(JsonNum::I64(-1))])).unwrap();
    assert_eq!(parsed, Params::Array(vec![JsonValue::Num(JsonNum::I64(-1))]));
}

#[test]
fn params_from_array_of_positive_number() {
    let parsed = Params::parse(JsonValue::Array(vec![JsonValue::Num(JsonNum::U64(4))])).unwrap();
    assert_eq!(parsed, Params::Array(vec![JsonValue::Num(JsonNum::U64(4))]));
}

#[test]
fn params_from_array_of_fractional_number() {
    let bits = (2.3f64).to_bits();
    let parsed =
        Params::parse(JsonValue::Array(vec![JsonValue::Num(JsonNum::F64Bits(bits))])).unwrap();
    assert_eq!(
        parsed,
        Params::Array(vec![JsonValue::Num(JsonNum::F64Bits(bits))])
    );
}

#[test]
fn params_from_array_of_string() {
    let parsed =
        Params::parse(JsonValue::Array(vec![JsonValue::Str("hello".to_string())])).unwrap();
    assert_eq!(
        parsed,
        Params::Array(vec![JsonValue::Str("hello".to_string())])
    );
}

#[test]
fn params_from_nested_arrays() {
    let input = JsonValue::Array(vec![JsonValue::Array(vec![JsonValue::Num(JsonNum::U64(0))])]);
    let parsed = Params::parse(input).unwrap();
    assert_eq!(
        parsed,
        Params::Array(vec![JsonValue::Array(vec![JsonValue::Num(JsonNum::U64(0))])])
    );

    let parsed = Params::parse(JsonValue::Array(vec![JsonValue::Array(vec![])])).unwrap();
    assert_eq!(parsed, Params::Array(vec![JsonValue::Array(vec![])]));
}

#[test]
fn params_from_array_of_object() {
    let object = JsonValue::Object(vec![entry("key", JsonValue::Str("value".to_string()))]);
    let parsed = Params::parse(JsonValue::Array(vec![object])).unwrap();
    assert_eq!(
        parsed,
        Params::Array(vec![JsonValue::Object(vec![entry(
            "key",
            JsonValue::Str("value".to_string()),
        )])])
    );
}

#[test]
fn params_from_mixed_array() {
    let input = JsonValue::Array(vec![
        JsonValue::Str("abc".to_string()),
        JsonValue::Array(vec![
            JsonValue::Num(JsonNum::U64(0)),
            JsonValue::Num(JsonNum::U64(256)),
        ]),
    ]);
    let parsed = Params::parse(input).unwrap();
    assert_eq!(
        parsed,
        Params::Array(vec![
            JsonValue::Str("abc".to_string()),
            JsonValue::Array(vec![
                JsonValue::Num(JsonNum::U64(0)),
                JsonValue::Num(JsonNum::U64(256)),
            ]),
        ])
    );
}

#[test]
fn params_from_object() {
    let parsed =
        Params::parse(JsonValue::Object(vec![entry("key", JsonValue::Bool(false))])).unwrap();
    assert_eq!(parsed, Params::Named(vec![entry("key", JsonValue::Bool(false))]));
}

#[test]
fn params_from_null() {
    assert_eq!(Params::parse(JsonValue::Null).unwrap(), Params::Absent);
}

#[test]
fn bare_scalars_are_rejected() {
    assert_eq!(
        Params::parse(JsonValue::Str("hello".to_string())),
        Err(DeserializationError::InvalidParams(JsonKind::String))
    );
    assert_eq!(
        Params::parse(JsonValue::Num(JsonNum::U64(3))),
        Err(DeserializationError::InvalidParams(JsonKind::Number))
    );
    assert_eq!(
        Params::parse(JsonValue::Bool(true)),
        Err(DeserializationError::InvalidParams(JsonKind::Bool))
    );
}

#[test]
fn params_round_trip_through_generic_value() {
    let array = JsonValue::Array(vec![
        JsonValue::Str("abc".to_string()),
        JsonValue::Num(JsonNum::U64(256)),
    ]);
    let back = JsonValue::from(Params::parse(array).unwrap());
    assert_eq!(
        back,
        JsonValue::Array(vec![
            JsonValue::Str("abc".to_string()),
            JsonValue::Num(JsonNum::U64(256)),
        ])
    );

    let object = JsonValue::Object(vec![entry("key", JsonValue::Null)]);
    let back = JsonValue::from(Params::parse(object).unwrap());
    assert_eq!(back, JsonValue::Object(vec![entry("key", JsonValue::Null)]));

    let back = JsonValue::from(Params::parse(JsonValue::Null).unwrap());
    assert_eq!(back, JsonValue::Null);
}

#[test]
fn default_params_are_absent() {
    assert_eq!(Params::default(), Params::Absent);
    assert_eq!(JsonValue::from(Params::default()), JsonValue::Null);
}
