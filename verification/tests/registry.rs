//! Tests for the path-based class registry.

use tc_value::{
    number_type_from_path, number_type_from_suffix, number_type_path, ComplexType, FloatType,
    IntType, NativeClass, NumberType, UIntType, ValueType,
};

fn segs(parts: &[&str]) -> Vec<String> {
    parts.iter().map(|part| part.to_string()).collect()
}

#[test]
fn value_type_paths_round_trip() {
    for vt in [ValueType::Absence, ValueType::Number, ValueType::Text] {
        let path = vt.path();
        assert_eq!(ValueType::resolve(&path), Some(vt.clone()));
        assert_eq!(ValueType::from_path(&path), Some(vt));
    }
}

#[test]
fn value_type_canonical_paths() {
    assert_eq!(ValueType::Absence.path(), segs(&["state", "scalar", "value", "none"]));
    assert_eq!(ValueType::Number.path(), segs(&["state", "scalar", "value", "number"]));
    assert_eq!(ValueType::Text.path(), segs(&["state", "scalar", "value", "string"]));
}

#[test]
fn value_type_rejects_deviant_paths() {
    assert_eq!(ValueType::resolve(&segs(&[])), None);
    assert_eq!(ValueType::resolve(&segs(&["state", "scalar", "value"])), None);
    assert_eq!(ValueType::resolve(&segs(&["state", "scalar", "value", "none", "more"])), None);
    assert_eq!(ValueType::resolve(&segs(&["state", "scalar", "other", "none"])), None);
    assert_eq!(ValueType::resolve(&segs(&["state", "scalar", "value", "bogus"])), None);
}

#[test]
fn number_type_paths_round_trip() {
    let all = [
        NumberType::Number,
        NumberType::Bool,
        NumberType::Complex(ComplexType::Complex),
        NumberType::Complex(ComplexType::C32),
        NumberType::Complex(ComplexType::C64),
        NumberType::Float(FloatType::Float),
        NumberType::Float(FloatType::F32),
        NumberType::Float(FloatType::F64),
        NumberType::Int(IntType::Int),
        NumberType::Int(IntType::I8),
        NumberType::Int(IntType::I16),
        NumberType::Int(IntType::I32),
        NumberType::Int(IntType::I64),
        NumberType::UInt(UIntType::UInt),
        NumberType::UInt(UIntType::U8),
        NumberType::UInt(UIntType::U16),
        NumberType::UInt(UIntType::U32),
        NumberType::UInt(UIntType::U64),
    ];
    for nt in all {
        let path = number_type_path(&nt);
        assert_eq!(number_type_from_path(&path), Some(nt));
    }
}

#[test]
fn number_type_path_shapes() {
    assert_eq!(
        number_type_path(&NumberType::Number),
        segs(&["state", "scalar", "value", "number"]),
    );
    assert_eq!(
        number_type_path(&NumberType::Bool),
        segs(&["state", "scalar", "value", "number", "bool"]),
    );
    assert_eq!(
        number_type_path(&NumberType::Int(IntType::Int)),
        segs(&["state", "scalar", "value", "number", "int"]),
    );
    assert_eq!(
        number_type_path(&NumberType::Int(IntType::I8)),
        segs(&["state", "scalar", "value", "number", "int", "8"]),
    );
    assert_eq!(
        number_type_path(&NumberType::Complex(ComplexType::C64)),
        segs(&["state", "scalar", "value", "number", "complex", "64"]),
    );
}

#[test]
fn number_suffix_int_8_resolves() {
    assert_eq!(number_type_from_suffix(&segs(&["int", "8"])), Some(NumberType::Int(IntType::I8)));
}

#[test]
fn number_type_rejects_deviant_suffixes() {
    assert_eq!(number_type_from_suffix(&segs(&["int", "8", "more"])), None);
    assert_eq!(number_type_from_suffix(&segs(&["bogus"])), None);
    assert_eq!(number_type_from_suffix(&segs(&["int", "7"])), None);
    assert_eq!(number_type_from_suffix(&segs(&["bool", "8"])), None);
    assert_eq!(number_type_from_suffix(&segs(&["bool", "32"])), None);
    assert_eq!(number_type_from_suffix(&segs(&["float", "8"])), None);
    assert_eq!(number_type_from_suffix(&segs(&["complex", "16"])), None);
    assert_eq!(number_type_from_path(&segs(&["state", "scalar", "value", "int", "8"])), None);
    assert_eq!(number_type_from_path(&segs(&["state", "scalar", "value"])), None);
}
