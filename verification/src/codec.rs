//! The codec: values to and from a self-describing node tree.
//!
//! Decoding infers a value's kind from the node's native shape.  A bare
//! primitive needs no tag; a mapping is a tagged form whose first key is a
//! canonical type path in string form.  Encoding is the inverse and always
//! tags numbers and text, while absence is written as a bare null.

use vstd::prelude::*;

use crate::class::NativeClass;
use crate::path::{
    parse_path, parse_path_spec, path_parse_error_of, path_string_spec, render_path, valid_segment,
};
use crate::{Number, Value, ValueType, ValueView};

verus! {

/// One node of a self-describing tree: the shapes a JSON-like wire format
/// can carry.  A float is carried as the bit pattern of an IEEE-754
/// binary64 value.
#[derive(Debug, PartialEq)]
pub enum Node {
    Null,
    Bool(bool),
    Int(i64),
    UInt(u64),
    /// The bit pattern of an IEEE-754 binary64 value.
    Float(u64),
    Text(String),
    List(Vec<Node>),
    Mapping(Vec<(String, Node)>),
}

/// Why a node failed to decode.
#[derive(Clone, Debug, PartialEq)]
pub enum DecodeError {
    /// The node's shape matches no accepted form.
    Shape,
    /// A mapping held no entry at all, so no type path key could be read.
    MissingTypeKey,
    /// A mapping's key failed to parse as a path; carries the parser's message.
    PathParse(String),
    /// A mapping's key parsed as a path but names no known type; carries the key.
    UnknownType(String),
}

/// The mathematical model of a [`DecodeError`].
pub enum ErrorView {
    Shape,
    MissingTypeKey,
    PathParse(Seq<char>),
    UnknownType(Seq<char>),
}

impl View for DecodeError {
    type V = ErrorView;

    open spec fn view(&self) -> ErrorView {
        match self {
            DecodeError::Shape => ErrorView::Shape,
            DecodeError::MissingTypeKey => ErrorView::MissingTypeKey,
            DecodeError::PathParse(m) => ErrorView::PathParse(m@),
            DecodeError::UnknownType(k) => ErrorView::UnknownType(k@),
        }
    }
}

/// The description a decode error carries to the caller.
pub open spec fn message_spec(e: ErrorView) -> Seq<char> {
    match e {
        ErrorView::Shape => "expected a TinyChain scalar value"@,
        ErrorView::MissingTypeKey => "expected a TinyChain type path key"@,
        ErrorView::PathParse(m) => m,
        ErrorView::UnknownType(k) => "not a known TinyChain value type path: "@ + k,
    }
}

impl DecodeError {
    /// Render this error as text.
    pub fn message(&self) -> (r: String)
        ensures
            r@ == message_spec(self@),
    {
        match self {
            DecodeError::Shape => String::from_str("expected a TinyChain scalar value"),
            DecodeError::MissingTypeKey => String::from_str("expected a TinyChain type path key"),
            DecodeError::PathParse(m) => m.clone(),
            DecodeError::UnknownType(k) => String::from_str(
                "not a known TinyChain value type path: ",
            ).concat(k.as_str()),
        }
    }
}

/// The numeric payload a node carries, if its shape is numeric.
pub open spec fn number_payload_spec(node: Node) -> Option<Number> {
    match node {
        Node::Bool(b) => Some(Number::Bool(b)),
        Node::Int(i) => Some(Number::Int(i)),
        Node::UInt(u) => Some(Number::UInt(u)),
        Node::Float(bits) => Some(Number::Float(bits)),
        _ => None,
    }
}

/// What decoding a mapping yields.  Only the first entry is meaningful: its
/// key must parse as a path and resolve to a value type, and its payload
/// must fit that type; any further entries are read and discarded.
pub open spec fn decode_map_spec(entries: Seq<(String, Node)>) -> Result<ValueView, ErrorView> {
    if entries.len() == 0 {
        Err(ErrorView::MissingTypeKey)
    } else {
        let key = entries[0].0@;
        let payload = entries[0].1;
        match parse_path_spec(key) {
            Option::None => Err(ErrorView::PathParse(path_parse_error_of(key))),
            Option::Some(segs) => match ValueType::resolve_spec(segs) {
                Option::None => Err(ErrorView::UnknownType(key)),
                Option::Some(ValueType::Absence) => Ok(ValueView::Absence),
                Option::Some(ValueType::Number) => match number_payload_spec(payload) {
                    Option::Some(n) => Ok(ValueView::Number(n)),
                    Option::None => Err(ErrorView::Shape),
                },
                Option::Some(ValueType::Text) => match payload {
                    Node::Text(s) => Ok(ValueView::Text(s@)),
                    _ => Err(ErrorView::Shape),
                },
            },
        }
    }
}

/// What decoding a node yields: a bare primitive is taken at face value, a
/// mapping is the tagged form, and any other shape is rejected.
pub open spec fn decode_spec(node: Node) -> Result<ValueView, ErrorView> {
    match node {
        Node::Null => Ok(ValueView::Absence),
        Node::Bool(b) => Ok(ValueView::Number(Number::Bool(b))),
        Node::Int(i) => Ok(ValueView::Number(Number::Int(i))),
        Node::UInt(u) => Ok(ValueView::Number(Number::UInt(u))),
        Node::Float(bits) => Ok(ValueView::Number(Number::Float(bits))),
        Node::Text(s) => Ok(ValueView::Text(s@)),
        Node::List(_) => Err(ErrorView::Shape),
        Node::Mapping(entries) => decode_map_spec(entries@),
    }
}

/// Read the numeric payload a node carries, if its shape is numeric.
fn number_payload(node: &Node) -> (r: Option<Number>)
    ensures
        r == number_payload_spec(*node),
{
    match node {
        Node::Bool(b) => Some(Number::Bool(*b)),
        Node::Int(i) => Some(Number::Int(*i)),
        Node::UInt(u) => Some(Number::UInt(*u)),
        Node::Float(bits) => Some(Number::Float(*bits)),
        _ => None,
    }
}

/// Decode the tagged mapping form.
fn decode_map(entries: &Vec<(String, Node)>) -> (r: Result<Value, DecodeError>)
    ensures
        match r {
            Ok(v) => decode_map_spec(entries@) == Ok::<ValueView, ErrorView>(v@),
            Err(e) => decode_map_spec(entries@) == Err::<ValueView, ErrorView>(e@),
        },
{
    if entries.len() == 0 {
        return Err(DecodeError::MissingTypeKey);
    }
    let key: &String = &entries[0].0;
    let payload: &Node = &entries[0].1;
    match parse_path(key.as_str()) {
        Err(m) => Err(DecodeError::PathParse(m)),
        Ok(segments) => match ValueType::resolve(segments.as_slice()) {
            None => Err(DecodeError::UnknownType(key.clone())),
            Some(ValueType::Absence) => Ok(Value::Absence),
            Some(ValueType::Number) => match number_payload(payload) {
                Some(n) => Ok(Value::Number(n)),
                None => Err(DecodeError::Shape),
            },
            Some(ValueType::Text) => match payload {
                Node::Text(s) => Ok(Value::Text(s.clone())),
                _ => Err(DecodeError::Shape),
            },
        },
    }
}

/// Decode a node into a value.
///
/// A bare null, primitive number or string needs no tag.  A mapping is the
/// tagged form: the first key names the type, the first payload carries the
/// value, and any further entries are read and discarded.  Any other shape
/// is an error.
pub fn decode(node: &Node) -> (r: Result<Value, DecodeError>)
    ensures
        match r {
            Ok(v) => decode_spec(*node) == Ok::<ValueView, ErrorView>(v@),
            Err(e) => decode_spec(*node) == Err::<ValueView, ErrorView>(e@),
        },
{
    match node {
        Node::Null => Ok(Value::Absence),
        Node::Bool(b) => Ok(Value::Number(Number::Bool(*b))),
        Node::Int(i) => Ok(Value::Number(Number::Int(*i))),
        Node::UInt(u) => Ok(Value::Number(Number::UInt(*u))),
        Node::Float(bits) => Ok(Value::Number(Number::Float(*bits))),
        Node::Text(s) => Ok(Value::Text(s.clone())),
        Node::List(_) => Err(DecodeError::Shape),
        Node::Mapping(entries) => decode_map(entries),
    }
}

/// The node `node` is the encoded form of the value `v`: absence is a bare
/// null; a number or text is a one-entry mapping tagged with its type's
/// canonical path string.
pub open spec fn encodes(node: Node, v: ValueView) -> bool {
    match v {
        ValueView::Absence => node == Node::Null,
        ValueView::Number(n) => node matches Node::Mapping(entries) && entries@.len() == 1
            && entries@[0].0@ == path_string_spec(ValueType::Number.canonical_path())
            && number_payload_spec(entries@[0].1) == Some(n),
        ValueView::Text(t) => node matches Node::Mapping(entries) && entries@.len() == 1
            && entries@[0].0@ == path_string_spec(ValueType::Text.canonical_path()) && (
        entries@[0].1 matches Node::Text(s) && s@ == t),
    }
}

/// Every segment of a canonical value-type path is a well-formed path
/// segment, and the path is never empty.
pub proof fn lemma_canonical_segments_valid(vt: ValueType)
    ensures
        vt.canonical_path().len() >= 1,
        forall|i: int|
            0 <= i < vt.canonical_path().len() ==> valid_segment(#[trigger] vt.canonical_path()[i]),
{
    reveal_strlit("state");
    reveal_strlit("scalar");
    reveal_strlit("value");
    reveal_strlit("none");
    reveal_strlit("number");
    reveal_strlit("string");
    let p = vt.canonical_path();
    assert(valid_segment("state"@));
    assert(valid_segment("scalar"@));
    assert(valid_segment("value"@));
    assert(valid_segment("none"@));
    assert(valid_segment("number"@));
    assert(valid_segment("string"@));
    assert(forall|i: int| 0 <= i < p.len() ==> valid_segment(#[trigger] p[i]));
}

/// Encode a value as a node.
///
/// Absence becomes a bare null; a number becomes a one-entry mapping keyed
/// by the generic number type's canonical path string; text becomes a
/// one-entry mapping keyed by the text type's canonical path string.
pub fn encode(value: &Value) -> (r: Node)
    ensures
        encodes(r, value@),
{
    match value {
        Value::Absence => Node::Null,
        Value::Number(n) => {
            let path = NativeClass::path(&ValueType::Number);
            proof {
                lemma_canonical_segments_valid(ValueType::Number);
            }
            let key = render_path(&path);
            let payload = match n {
                Number::Bool(b) => Node::Bool(*b),
                Number::Int(i) => Node::Int(*i),
                Number::UInt(u) => Node::UInt(*u),
                Number::Float(bits) => Node::Float(*bits),
            };
            let entries = vec![(key, payload)];
            Node::Mapping(entries)
        },
        Value::Text(s) => {
            let path = NativeClass::path(&ValueType::Text);
            proof {
                lemma_canonical_segments_valid(ValueType::Text);
            }
            let key = render_path(&path);
            let entries = vec![(key, Node::Text(s.clone()))];
            Node::Mapping(entries)
        },
    }
}

/// Round trip: decoding any encoded value yields exactly that value.
/// Decoding is strictly more permissive than encoding, so this is the
/// direction that can be promised for every value.
pub proof fn lemma_decode_of_encoded(node: Node, v: ValueView)
    requires
        encodes(node, v),
    ensures
        decode_spec(node) == Ok::<ValueView, ErrorView>(v),
{
    match v {
        ValueView::Absence => {
        },
        ValueView::Number(_) => {
            lemma_canonical_segments_valid(ValueType::Number);
            crate::path::lemma_parse_of_rendered(ValueType::Number.canonical_path());
            crate::lemma_value_type_round_trip(ValueType::Number);
        },
        ValueView::Text(_) => {
            lemma_canonical_segments_valid(ValueType::Text);
            crate::path::lemma_parse_of_rendered(ValueType::Text.canonical_path());
            crate::lemma_value_type_round_trip(ValueType::Text);
        },
    }
}

/// A bare primitive decodes without any tag, to the value of its own shape:
/// null to absence, a boolean or number to that number at its native width,
/// text to that text.
pub proof fn lemma_decode_bare_primitive(node: Node)
    ensures
        decode_spec(Node::Null) == Ok::<ValueView, ErrorView>(ValueView::Absence),
        node matches Node::Bool(b) ==> decode_spec(node) == Ok::<ValueView, ErrorView>(
            ValueView::Number(Number::Bool(b)),
        ),
        node matches Node::Int(i) ==> decode_spec(node) == Ok::<ValueView, ErrorView>(
            ValueView::Number(Number::Int(i)),
        ),
        node matches Node::UInt(u) ==> decode_spec(node) == Ok::<ValueView, ErrorView>(
            ValueView::Number(Number::UInt(u)),
        ),
        node matches Node::Float(bits) ==> decode_spec(node) == Ok::<ValueView, ErrorView>(
            ValueView::Number(Number::Float(bits)),
        ),
        node matches Node::Text(s) ==> decode_spec(node) == Ok::<ValueView, ErrorView>(
            ValueView::Text(s@),
        ),
{
}

/// A mapping whose first key resolves to the absence type decodes to
/// absence whatever payload stands beside it, and whatever entries follow.
pub proof fn lemma_decode_absence_map(entries: Seq<(String, Node)>, segs: Seq<Seq<char>>)
    requires
        entries.len() >= 1,
        parse_path_spec(entries[0].0@) == Some(segs),
        ValueType::resolve_spec(segs) == Some(ValueType::Absence),
    ensures
        decode_map_spec(entries) == Ok::<ValueView, ErrorView>(ValueView::Absence),
{
}

/// A mapping whose first key parses as a path but resolves to no known type
/// fails with an unknown-type error carrying that key.
pub proof fn lemma_decode_unknown_type(entries: Seq<(String, Node)>, segs: Seq<Seq<char>>)
    requires
        entries.len() >= 1,
        parse_path_spec(entries[0].0@) == Some(segs),
        ValueType::resolve_spec(segs) is None,
    ensures
        decode_map_spec(entries) == Err::<ValueView, ErrorView>(
            ErrorView::UnknownType(entries[0].0@),
        ),
{
}

/// Entries after the first never change what a mapping decodes to: they are
/// consumed and discarded.
pub proof fn lemma_decode_ignores_trailing(entries: Seq<(String, Node)>)
    requires
        entries.len() >= 1,
    ensures
        decode_map_spec(entries) == decode_map_spec(seq![entries[0]]),
{
}

} // verus!
