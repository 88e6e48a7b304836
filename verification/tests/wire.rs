//! Tests for the wire forms the codec reads and writes, including the
//! canonical path strings produced and accepted through the path parser.

use tc_value::{decode, encode, DecodeError, Node, Number, Value};

fn tagged(key: &str, payload: Node) -> Node {
    Node::Mapping(vec![(key.to_string(), payload)])
}

#[test]
fn encode_number_tags_with_generic_number_path() {
    let encoded = encode(&Value::from(7_u64));
    match &encoded {
        Node::Mapping(entries) => {
            assert_eq!(entries.len(), 1);
            assert_eq!(entries[0].0, "/state/scalar/value/number");
            assert_eq!(entries[0].1, Node::UInt(7));
        },
        other => panic!("expected a tagged mapping, got {:?}", other),
    }
    assert_eq!(decode(&encoded), Ok(Value::from(7_u64)));
}

#[test]
fn encode_text_tags_with_string_path() {
    let encoded = encode(&Value::from("hello"));
    match &encoded {
        Node::Mapping(entries) => {
            assert_eq!(entries.len(), 1);
            assert_eq!(entries[0].0, "/state/scalar/value/string");
            assert_eq!(entries[0].1, Node::Text(String::from("hello")));
        },
        other => panic!("expected a tagged mapping, got {:?}", other),
    }
    assert_eq!(decode(&encoded), Ok(Value::from("hello")));
}

#[test]
fn decode_bare_primitives() {
    assert_eq!(decode(&Node::Null), Ok(Value::Absence));
    assert_eq!(decode(&Node::Bool(true)), Ok(Value::Number(Number::Bool(true))));
    assert_eq!(decode(&Node::Int(-5)), Ok(Value::Number(Number::Int(-5))));
    assert_eq!(decode(&Node::UInt(7)), Ok(Value::Number(Number::UInt(7))));
    let bits = (2.5_f64).to_bits();
    assert_eq!(decode(&Node::Float(bits)), Ok(Value::Number(Number::Float(bits))));
    assert_eq!(decode(&Node::Text(String::from("hi"))), Ok(Value::from("hi")));
}

#[test]
fn decode_absence_tag_ignores_payload() {
    let node = tagged("/state/scalar/value/none", Node::Text(String::from("ignored-payload")));
    assert_eq!(decode(&node), Ok(Value::Absence));
    let node = tagged("/state/scalar/value/none", Node::UInt(3));
    assert_eq!(decode(&node), Ok(Value::Absence));
}

#[test]
fn decode_tagged_number_and_text_payloads() {
    assert_eq!(
        decode(&tagged("/state/scalar/value/number", Node::Int(-9))),
        Ok(Value::Number(Number::Int(-9))),
    );
    assert_eq!(
        decode(&tagged("/state/scalar/value/string", Node::Text(String::from("abc")))),
        Ok(Value::from("abc")),
    );
}

#[test]
fn decode_ignores_trailing_entries() {
    let node = Node::Mapping(vec![
        (String::from("/state/scalar/value/number"), Node::UInt(1)),
        (String::from("extra"), Node::Null),
        (String::from("more"), Node::Bool(false)),
    ]);
    assert_eq!(decode(&node), Ok(Value::Number(Number::UInt(1))));
}

#[test]
fn decode_unknown_path_names_the_key() {
    let node = tagged("/state/scalar/value/bogus", Node::Null);
    assert_eq!(
        decode(&node),
        Err(DecodeError::UnknownType(String::from("/state/scalar/value/bogus"))),
    );
    let err = decode(&node).unwrap_err();
    assert_eq!(
        err.message(),
        "not a known TinyChain value type path: /state/scalar/value/bogus",
    );
}

#[test]
fn decode_empty_mapping_wants_a_key() {
    let node = Node::Mapping(vec![]);
    assert_eq!(decode(&node), Err(DecodeError::MissingTypeKey));
    assert_eq!(
        decode(&node).unwrap_err().message(),
        "expected a TinyChain type path key",
    );
}

#[test]
fn decode_rejects_malformed_keys() {
    let trailing = tagged("/state/scalar/value/number/", Node::UInt(1));
    assert!(matches!(decode(&trailing), Err(DecodeError::PathParse(_))));
    let unslashed = tagged("state/scalar/value/number", Node::UInt(1));
    assert!(matches!(decode(&unslashed), Err(DecodeError::PathParse(_))));
    let empty_segment = tagged("/state//value/number", Node::UInt(1));
    assert!(matches!(decode(&empty_segment), Err(DecodeError::PathParse(_))));
    let spaced = tagged("/state/sca lar/value/number", Node::UInt(1));
    assert!(matches!(decode(&spaced), Err(DecodeError::PathParse(_))));
}

#[test]
fn decode_rejects_foreign_shapes() {
    assert_eq!(decode(&Node::List(vec![Node::UInt(1)])), Err(DecodeError::Shape));
    let text_payload_for_number = tagged("/state/scalar/value/number", Node::Text(String::from("x")));
    assert_eq!(decode(&text_payload_for_number), Err(DecodeError::Shape));
    let number_payload_for_text = tagged("/state/scalar/value/string", Node::UInt(1));
    assert_eq!(decode(&number_payload_for_text), Err(DecodeError::Shape));
    assert_eq!(
        decode(&Node::List(vec![])).unwrap_err().message(),
        "expected a TinyChain scalar value",
    );
}

#[test]
fn roundtrip_every_payload_kind() {
    let bits = (0.5_f64).to_bits();
    let values = [
        Value::Absence,
        Value::Number(Number::Bool(true)),
        Value::Number(Number::Int(i64::MIN)),
        Value::Number(Number::UInt(u64::MAX)),
        Value::Number(Number::Float(bits)),
        Value::Text(String::new()),
        Value::Text(String::from("hello")),
    ];
    for value in values {
        assert_eq!(decode(&encode(&value)), Ok(value.clone()));
    }
}
