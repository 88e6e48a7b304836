//! Tests for the value model and the codec round trip.

use tc_value::{decode, encode, Node, Number, NumberType, UIntType, Value, ValueType};

#[test]
fn value_from_u64() {
    let value = Value::from(123_u64);
    assert!(matches!(value, Value::Number(Number::UInt(_))));
}

#[test]
fn roundtrip_json_number_value() {
    let value = Value::from(42_u64);
    let encoded = encode(&value);
    let decoded: Value = decode(&encoded).expect("decode number");
    assert_eq!(decoded, value);
}

#[test]
fn decode_plain_json_number() {
    let stream = Node::UInt(7);
    let decoded: Value = decode(&stream).expect("decode");
    assert_eq!(decoded, Value::from(7_u64));
}

#[test]
fn roundtrip_string_value() {
    let value = Value::from("hello");
    let encoded = encode(&value);
    let decoded: Value = decode(&encoded).expect("decode string");
    assert_eq!(decoded, value);
}

#[test]
fn roundtrip_absence() {
    let value = Value::Absence;
    let encoded = encode(&value);
    assert_eq!(encoded, Node::Null);
    let decoded: Value = decode(&encoded).expect("decode absence");
    assert_eq!(decoded, value);
}

#[test]
fn value_conversions() {
    assert_eq!(Value::from(()), Value::Absence);
    assert_eq!(Value::from(String::from("abc")), Value::Text(String::from("abc")));
    assert_eq!(Value::from("abc"), Value::Text(String::from("abc")));
    assert_eq!(Value::from(Number::Int(-3)), Value::Number(Number::Int(-3)));
    assert_eq!(Value::default(), Value::Absence);
}

#[test]
fn value_class_matches_variant() {
    assert_eq!(Value::Absence.class(), ValueType::Absence);
    assert_eq!(Value::from(1_u64).class(), ValueType::Number);
    assert_eq!(Value::from("x").class(), ValueType::Text);
}

#[test]
fn number_class_keeps_native_width() {
    assert_eq!(Number::Bool(true).class(), NumberType::Bool);
    assert_eq!(Number::UInt(9).class(), NumberType::UInt(UIntType::U64));
}
