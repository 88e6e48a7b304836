//! Scalar values for a distributed runtime, identified on the wire by
//! hierarchical type paths.
//!
//! A value is one of a closed set of kinds (absence, number, text); each kind
//! is named by a canonical path such as `/state/scalar/value/number`.  This
//! crate provides the registry mapping kinds to paths and back, and a codec
//! that reads and writes values from a self-describing node tree.

use vstd::prelude::*;

pub mod class;
pub mod codec;
pub mod path;

pub use codec::{decode, encode, DecodeError, ErrorView, Node};

pub use class::{number_type_from_path, number_type_from_suffix, number_type_path};
pub use class::{Class, ComplexType, FloatType, IntType, NativeClass, NumberType, UIntType};

verus! {

/// The kind of a scalar [`Value`], named on the wire by a canonical path.
#[derive(Clone, Debug, PartialEq, Eq, Structural)]
pub enum ValueType {
    Absence,
    Number,
    Text,
}

/// The fixed three-segment prefix of every value-type path.
pub open spec fn value_prefix() -> Seq<Seq<char>> {
    seq!["state"@, "scalar"@, "value"@]
}

impl ValueType {
    /// The final segment of this type's canonical path.
    pub open spec fn suffix(self) -> Seq<char> {
        match self {
            ValueType::Absence => "none"@,
            ValueType::Number => "number"@,
            ValueType::Text => "string"@,
        }
    }

    /// The canonical path of this type: the fixed prefix plus one suffix segment.
    pub open spec fn canonical_path(self) -> Seq<Seq<char>> {
        value_prefix().push(self.suffix())
    }

    /// The path has exactly the fixed prefix and one more segment.
    pub open spec fn has_value_prefix(path: Seq<Seq<char>>) -> bool {
        path.len() == 4 && path[0] == "state"@ && path[1] == "scalar"@ && path[2] == "value"@
    }

    /// Which type, if any, a path resolves to: the path must be exactly the
    /// prefix followed by one known suffix segment.
    pub open spec fn resolve_spec(path: Seq<Seq<char>>) -> Option<ValueType> {
        if Self::has_value_prefix(path) {
            if path[3] == "none"@ {
                Some(ValueType::Absence)
            } else if path[3] == "number"@ {
                Some(ValueType::Number)
            } else if path[3] == "string"@ {
                Some(ValueType::Text)
            } else {
                None
            }
        } else {
            None
        }
    }
}

/// True when the segment equals the literal, by characters.
pub(crate) fn seg_eq(seg: &String, lit: &str) -> (r: bool)
    ensures
        r == (seg@ == lit@),
{
    *seg == String::from_str(lit)
}

impl ValueType {
    /// The final segment of `path`, provided the segments before it are
    /// exactly the fixed value-type prefix.
    fn from_suffix(path: &[String]) -> (r: Option<&String>)
        ensures
            Self::has_value_prefix(path.deep_view()) ==> (r matches Some(seg) && seg@
                == path.deep_view()[3]),
            !Self::has_value_prefix(path.deep_view()) ==> r is None,
    {
        assert(path.deep_view().len() == path@.len());
        if path.len() != 4 {
            return None;
        }
        if !seg_eq(&path[0], "state") || !seg_eq(&path[1], "scalar") || !seg_eq(&path[2], "value")
        {
            return None;
        }
        Some(&path[3])
    }

    /// Look up the value type named by `path`, if any.
    pub fn resolve(path: &[String]) -> (r: Option<ValueType>)
        ensures
            r == Self::resolve_spec(path.deep_view()),
    {
        let suffix = match Self::from_suffix(path) {
            Some(seg) => seg,
            None => {
                return None;
            },
        };
        if seg_eq(suffix, "none") {
            Some(ValueType::Absence)
        } else if seg_eq(suffix, "number") {
            Some(ValueType::Number)
        } else if seg_eq(suffix, "string") {
            Some(ValueType::Text)
        } else {
            None
        }
    }
}

impl Class for ValueType {

}

impl NativeClass for ValueType {
    /// Attempt to resolve this class from a fully qualified path.
    fn from_path(path: &[String]) -> (r: Option<Self>)
        ensures
            r == ValueType::resolve_spec(path.deep_view()),
    {
        ValueType::resolve(path)
    }

    /// Return the fully qualified path of this class.
    fn path(&self) -> (r: Vec<String>)
        ensures
            r.deep_view() == self.canonical_path(),
    {
        let mut p: Vec<String> = Vec::new();
        p.push(String::from_str("state"));
        p.push(String::from_str("scalar"));
        p.push(String::from_str("value"));
        match self {
            ValueType::Absence => p.push(String::from_str("none")),
            ValueType::Number => p.push(String::from_str("number")),
            ValueType::Text => p.push(String::from_str("string")),
        }
        assert(p.deep_view() =~= self.canonical_path());
        p
    }
}

/// A path that deviates from the canonical form in any way resolves to
/// nothing: wrong length (including the empty path and paths longer than the
/// prefix plus one), a mismatched prefix, or an unknown suffix word.
pub proof fn lemma_resolve_rejects(path: Seq<Seq<char>>)
    requires
        path.len() != 4 || path[0] != "state"@ || path[1] != "scalar"@ || path[2] != "value"@
            || (path[3] != "none"@ && path[3] != "number"@ && path[3] != "string"@),
    ensures
        ValueType::resolve_spec(path) is None,
{
}

/// Every value type resolves from its own canonical path.
pub proof fn lemma_value_type_round_trip(v: ValueType)
    ensures
        ValueType::resolve_spec(v.canonical_path()) == Some(v),
{
    reveal_strlit("none");
    reveal_strlit("number");
    reveal_strlit("string");
    let p = v.canonical_path();
    assert(p.len() == 4);
    assert(p[0] == "state"@);
    assert(p[1] == "scalar"@);
    assert(p[2] == "value"@);
    assert(p[3] == v.suffix());
    assert("none"@.len() == 4 && "number"@.len() == 6 && "string"@.len() == 6);
    assert("string"@[0] == 's' && "number"@[0] == 'n');
}

/// No two value types share a canonical path.
pub proof fn lemma_canonical_path_injective(a: ValueType, b: ValueType)
    requires
        a.canonical_path() == b.canonical_path(),
    ensures
        a == b,
{
    lemma_value_type_round_trip(a);
    lemma_value_type_round_trip(b);
}

/// A numeric payload.  It keeps the most specific primitive representation
/// the decoder natively offers: a boolean, a 64-bit signed or unsigned
/// integer, or a double-precision float carried as its IEEE-754 bit pattern.
#[derive(Clone, Copy, Debug, PartialEq, Eq, Structural)]
pub enum Number {
    Bool(bool),
    Int(i64),
    UInt(u64),
    /// The bit pattern of an IEEE-754 binary64 value.
    Float(u64),
}

impl Number {
    /// The numeric type of this payload.
    pub open spec fn class_spec(self) -> NumberType {
        match self {
            Number::Bool(_) => NumberType::Bool,
            Number::Int(_) => NumberType::Int(IntType::I64),
            Number::UInt(_) => NumberType::UInt(UIntType::U64),
            Number::Float(_) => NumberType::Float(FloatType::F64),
        }
    }

    /// Return the numeric type of this payload.
    pub fn class(&self) -> (t: NumberType)
        ensures
            t == self.class_spec(),
    {
        match self {
            Number::Bool(_) => NumberType::Bool,
            Number::Int(_) => NumberType::Int(IntType::I64),
            Number::UInt(_) => NumberType::UInt(UIntType::U64),
            Number::Float(_) => NumberType::Float(FloatType::F64),
        }
    }
}

/// A scalar value: absent, numeric, or text.
#[derive(Clone, Debug, PartialEq)]
pub enum Value {
    Absence,
    Number(Number),
    Text(String),
}

/// The mathematical model of a [`Value`]: text is a sequence of characters.
pub enum ValueView {
    Absence,
    Number(Number),
    Text(Seq<char>),
}

impl View for Value {
    type V = ValueView;

    open spec fn view(&self) -> ValueView {
        match self {
            Value::Absence => ValueView::Absence,
            Value::Number(n) => ValueView::Number(*n),
            Value::Text(s) => ValueView::Text(s@),
        }
    }
}

impl ValueView {
    /// The type of a value is fixed by its active variant.
    pub open spec fn class(self) -> ValueType {
        match self {
            ValueView::Absence => ValueType::Absence,
            ValueView::Number(_) => ValueType::Number,
            ValueView::Text(_) => ValueType::Text,
        }
    }
}

impl Value {
    /// Return the type of this value.
    pub fn class(&self) -> (t: ValueType)
        ensures
            t == self@.class(),
    {
        match self {
            Value::Absence => ValueType::Absence,
            Value::Number(_) => ValueType::Number,
            Value::Text(_) => ValueType::Text,
        }
    }
}

impl From<Number> for Value {
    fn from(n: Number) -> (r: Self) {
        Value::Number(n)
    }
}

impl vstd::std_specs::convert::FromSpecImpl<Number> for Value {
    open spec fn obeys_from_spec() -> bool {
        true
    }

    open spec fn from_spec(n: Number) -> Self {
        Value::Number(n)
    }
}

impl From<String> for Value {
    fn from(value: String) -> (r: Self) {
        Value::Text(value)
    }
}

impl vstd::std_specs::convert::FromSpecImpl<String> for Value {
    open spec fn obeys_from_spec() -> bool {
        true
    }

    open spec fn from_spec(value: String) -> Self {
        Value::Text(value)
    }
}

impl From<&str> for Value {
    fn from(value: &str) -> (r: Self)
        ensures
            r@ == ValueView::Text(value@),
    {
        Value::Text(value.to_owned())
    }
}

impl vstd::std_specs::convert::FromSpecImpl<&str> for Value {
    /// A borrowed string has no owned counterpart at the specification
    /// level, so the conversion promises its result through `ensures` on
    /// the implementation instead of through `from_spec`.
    open spec fn obeys_from_spec() -> bool {
        false
    }

    open spec fn from_spec(value: &str) -> Self {
        vstd::pervasive::arbitrary()
    }
}

impl From<u64> for Value {
    fn from(value: u64) -> (r: Self) {
        Value::Number(Number::UInt(value))
    }
}

impl vstd::std_specs::convert::FromSpecImpl<u64> for Value {
    open spec fn obeys_from_spec() -> bool {
        true
    }

    open spec fn from_spec(value: u64) -> Self {
        Value::Number(Number::UInt(value))
    }
}

impl From<()> for Value {
    fn from(_value: ()) -> (r: Self) {
        Value::Absence
    }
}

impl vstd::std_specs::convert::FromSpecImpl<()> for Value {
    open spec fn obeys_from_spec() -> bool {
        true
    }

    open spec fn from_spec(_value: ()) -> Self {
        Value::Absence
    }
}

impl Default for Value {
    fn default() -> (r: Self)
        ensures
            r == Value::Absence,
    {
        Value::Absence
    }
}

} // verus!
