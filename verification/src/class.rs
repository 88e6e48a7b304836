//! The class registry for numeric subtypes.
//!
//! Numeric types live under the canonical path `/state/scalar/value/number`,
//! followed by a suffix of zero, one or two segments: nothing for the generic
//! number type, a category word (`bool`, `complex`, `float`, `int`, `uint`)
//! for a category's generic form, and a category word plus a bit-width word
//! for a sized form.  Resolution is total: any path outside this table
//! resolves to nothing, never to an error.

use vstd::prelude::*;

use crate::seg_eq;

verus! {

/// Marker for a class of the runtime's type system.
pub trait Class: Sized {

}

/// A class with a native implementation: it resolves from a canonical path
/// and renders one.
pub trait NativeClass: Class {
    /// Attempt to resolve this class from a fully qualified path.
    fn from_path(path: &[String]) -> Option<Self> where Self: Sized;

    /// Return the fully qualified path of this class.
    fn path(&self) -> Vec<String>;
}

/// The subtype of a complex number.
#[derive(Clone, Copy, Debug, PartialEq, Eq, Structural)]
pub enum ComplexType {
    Complex,
    C32,
    C64,
}

/// The subtype of a floating-point number.
#[derive(Clone, Copy, Debug, PartialEq, Eq, Structural)]
pub enum FloatType {
    Float,
    F32,
    F64,
}

/// The subtype of a signed integer.
#[derive(Clone, Copy, Debug, PartialEq, Eq, Structural)]
pub enum IntType {
    Int,
    I8,
    I16,
    I32,
    I64,
}

/// The subtype of an unsigned integer.
#[derive(Clone, Copy, Debug, PartialEq, Eq, Structural)]
pub enum UIntType {
    UInt,
    U8,
    U16,
    U32,
    U64,
}

/// The type of a number: a category, possibly with an explicit bit width.
#[derive(Clone, Copy, Debug, PartialEq, Eq, Structural)]
pub enum NumberType {
    Bool,
    Complex(ComplexType),
    Float(FloatType),
    Int(IntType),
    UInt(UIntType),
    Number,
}

/// The fixed four-segment prefix of every numeric type path.
pub open spec fn number_prefix() -> Seq<Seq<char>> {
    seq!["state"@, "scalar"@, "value"@, "number"@]
}

impl NumberType {
    /// The path suffix of this type after the fixed numeric prefix:
    /// empty for the generic number type, one segment for a category's
    /// generic form, two for a sized form.
    pub open spec fn suffix(self) -> Seq<Seq<char>> {
        match self {
            NumberType::Number => seq![],
            NumberType::Bool => seq!["bool"@],
            NumberType::Complex(ct) => match ct {
                ComplexType::Complex => seq!["complex"@],
                ComplexType::C32 => seq!["complex"@, "32"@],
                ComplexType::C64 => seq!["complex"@, "64"@],
            },
            NumberType::Float(ft) => match ft {
                FloatType::Float => seq!["float"@],
                FloatType::F32 => seq!["float"@, "32"@],
                FloatType::F64 => seq!["float"@, "64"@],
            },
            NumberType::Int(it) => match it {
                IntType::Int => seq!["int"@],
                IntType::I8 => seq!["int"@, "8"@],
                IntType::I16 => seq!["int"@, "16"@],
                IntType::I32 => seq!["int"@, "32"@],
                IntType::I64 => seq!["int"@, "64"@],
            },
            NumberType::UInt(ut) => match ut {
                UIntType::UInt => seq!["uint"@],
                UIntType::U8 => seq!["uint"@, "8"@],
                UIntType::U16 => seq!["uint"@, "16"@],
                UIntType::U32 => seq!["uint"@, "32"@],
                UIntType::U64 => seq!["uint"@, "64"@],
            },
        }
    }

    /// The canonical path of this numeric type.
    pub open spec fn canonical_path(self) -> Seq<Seq<char>> {
        number_prefix() + self.suffix()
    }
}

/// Which numeric type, if any, a suffix resolves to.  The suffix is what
/// follows the fixed numeric prefix.
pub open spec fn resolve_number_suffix_spec(suffix: Seq<Seq<char>>) -> Option<NumberType> {
    if suffix.len() == 0 {
        Some(NumberType::Number)
    } else if suffix.len() == 1 {
        let seg = suffix[0];
        if seg == "bool"@ {
            Some(NumberType::Bool)
        } else if seg == "complex"@ {
            Some(NumberType::Complex(ComplexType::Complex))
        } else if seg == "float"@ {
            Some(NumberType::Float(FloatType::Float))
        } else if seg == "int"@ {
            Some(NumberType::Int(IntType::Int))
        } else if seg == "uint"@ {
            Some(NumberType::UInt(UIntType::UInt))
        } else {
            None
        }
    } else if suffix.len() == 2 {
        let category = suffix[0];
        let size = suffix[1];
        if category == "complex"@ {
            if size == "32"@ {
                Some(NumberType::Complex(ComplexType::C32))
            } else if size == "64"@ {
                Some(NumberType::Complex(ComplexType::C64))
            } else {
                None
            }
        } else if category == "float"@ {
            if size == "32"@ {
                Some(NumberType::Float(FloatType::F32))
            } else if size == "64"@ {
                Some(NumberType::Float(FloatType::F64))
            } else {
                None
            }
        } else if category == "int"@ {
            if size == "8"@ {
                Some(NumberType::Int(IntType::I8))
            } else if size == "16"@ {
                Some(NumberType::Int(IntType::I16))
            } else if size == "32"@ {
                Some(NumberType::Int(IntType::I32))
            } else if size == "64"@ {
                Some(NumberType::Int(IntType::I64))
            } else {
                None
            }
        } else if category == "uint"@ {
            if size == "8"@ {
                Some(NumberType::UInt(UIntType::U8))
            } else if size == "16"@ {
                Some(NumberType::UInt(UIntType::U16))
            } else if size == "32"@ {
                Some(NumberType::UInt(UIntType::U32))
            } else if size == "64"@ {
                Some(NumberType::UInt(UIntType::U64))
            } else {
                None
            }
        } else {
            None
        }
    } else {
        None
    }
}

/// Which numeric type, if any, a fully qualified path resolves to: the path
/// must start with the fixed numeric prefix, and its remainder must resolve
/// as a suffix.
pub open spec fn resolve_number_spec(path: Seq<Seq<char>>) -> Option<NumberType> {
    if path.len() >= 4 && path.subrange(0, 4) == number_prefix() {
        resolve_number_suffix_spec(path.subrange(4, path.len() as int))
    } else {
        None
    }
}

/// Look up the numeric type named by a fully qualified path, if any.
pub fn number_type_from_path(path: &[String]) -> (r: Option<NumberType>)
    ensures
        r == resolve_number_spec(path.deep_view()),
{
    let ghost dv = path.deep_view();
    assert(dv.len() == path@.len());
    if path.len() < 4 {
        return None;
    }
    if !seg_eq(&path[0], "state") || !seg_eq(&path[1], "scalar") || !seg_eq(&path[2], "value")
        || !seg_eq(&path[3], "number") {
        proof {
            if dv.subrange(0, 4) == number_prefix() {
                assert(dv[0] == dv.subrange(0, 4)[0]);
                assert(dv[1] == dv.subrange(0, 4)[1]);
                assert(dv[2] == dv.subrange(0, 4)[2]);
                assert(dv[3] == dv.subrange(0, 4)[3]);
            }
        }
        return None;
    }
    proof {
        assert(dv.subrange(0, 4) =~= number_prefix());
    }
    let suffix = &path[4..path.len()];
    assert(suffix.deep_view() =~= dv.subrange(4, dv.len() as int));
    number_type_from_suffix(suffix)
}

/// Look up the numeric type named by a suffix: what follows the fixed
/// numeric prefix in a fully qualified path.
pub fn number_type_from_suffix(suffix: &[String]) -> (r: Option<NumberType>)
    ensures
        r == resolve_number_suffix_spec(suffix.deep_view()),
{
    assert(suffix.deep_view().len() == suffix@.len());
    if suffix.len() == 0 {
        Some(NumberType::Number)
    } else if suffix.len() == 1 {
        if seg_eq(&suffix[0], "bool") {
            Some(NumberType::Bool)
        } else if seg_eq(&suffix[0], "complex") {
            Some(NumberType::Complex(ComplexType::Complex))
        } else if seg_eq(&suffix[0], "float") {
            Some(NumberType::Float(FloatType::Float))
        } else if seg_eq(&suffix[0], "int") {
            Some(NumberType::Int(IntType::Int))
        } else if seg_eq(&suffix[0], "uint") {
            Some(NumberType::UInt(UIntType::UInt))
        } else {
            None
        }
    } else if suffix.len() == 2 {
        if seg_eq(&suffix[0], "complex") {
            if seg_eq(&suffix[1], "32") {
                Some(NumberType::Complex(ComplexType::C32))
            } else if seg_eq(&suffix[1], "64") {
                Some(NumberType::Complex(ComplexType::C64))
            } else {
                None
            }
        } else if seg_eq(&suffix[0], "float") {
            if seg_eq(&suffix[1], "32") {
                Some(NumberType::Float(FloatType::F32))
            } else if seg_eq(&suffix[1], "64") {
                Some(NumberType::Float(FloatType::F64))
            } else {
                None
            }
        } else if seg_eq(&suffix[0], "int") {
            if seg_eq(&suffix[1], "8") {
                Some(NumberType::Int(IntType::I8))
            } else if seg_eq(&suffix[1], "16") {
                Some(NumberType::Int(IntType::I16))
            } else if seg_eq(&suffix[1], "32") {
                Some(NumberType::Int(IntType::I32))
            } else if seg_eq(&suffix[1], "64") {
                Some(NumberType::Int(IntType::I64))
            } else {
                None
            }
        } else if seg_eq(&suffix[0], "uint") {
            if seg_eq(&suffix[1], "8") {
                Some(NumberType::UInt(UIntType::U8))
            } else if seg_eq(&suffix[1], "16") {
                Some(NumberType::UInt(UIntType::U16))
            } else if seg_eq(&suffix[1], "32") {
                Some(NumberType::UInt(UIntType::U32))
            } else if seg_eq(&suffix[1], "64") {
                Some(NumberType::UInt(UIntType::U64))
            } else {
                None
            }
        } else {
            None
        }
    } else {
        None
    }
}

/// Render the canonical path of a numeric type: the fixed prefix, then the
/// category segment, then the width segment where the subtype has one.
pub fn number_type_path(dtype: &NumberType) -> (r: Vec<String>)
    ensures
        r.deep_view() == dtype.canonical_path(),
{
    let mut prefix: Vec<String> = Vec::new();
    prefix.push(String::from_str("state"));
    prefix.push(String::from_str("scalar"));
    prefix.push(String::from_str("value"));
    prefix.push(String::from_str("number"));
    assert(prefix.deep_view() =~= number_prefix());
    let r = match dtype {
        NumberType::Bool => {
            let mut p = prefix;
            p.push(String::from_str("bool"));
            p
        },
        NumberType::Complex(ct) => append_complex_path(prefix, *ct),
        NumberType::Float(ft) => append_float_path(prefix, *ft),
        NumberType::Int(it) => append_int_path(prefix, *it),
        NumberType::UInt(ut) => append_uint_path(prefix, *ut),
        NumberType::Number => prefix,
    };
    assert(r.deep_view() =~= dtype.canonical_path());
    r
}

/// Append the complex category segment and, for a sized subtype, its width.
fn append_complex_path(prefix: Vec<String>, ct: ComplexType) -> (r: Vec<String>)
    ensures
        r.deep_view() == prefix.deep_view() + NumberType::Complex(ct).suffix(),
{
    let ghost pre = prefix.deep_view();
    let mut p = prefix;
    p.push(String::from_str("complex"));
    match ct {
        ComplexType::Complex => (),
        ComplexType::C32 => p.push(String::from_str("32")),
        ComplexType::C64 => p.push(String::from_str("64")),
    }
    assert(p.deep_view() =~= pre + NumberType::Complex(ct).suffix());
    p
}

/// Append the float category segment and, for a sized subtype, its width.
fn append_float_path(prefix: Vec<String>, ft: FloatType) -> (r: Vec<String>)
    ensures
        r.deep_view() == prefix.deep_view() + NumberType::Float(ft).suffix(),
{
    let ghost pre = prefix.deep_view();
    let mut p = prefix;
    p.push(String::from_str("float"));
    match ft {
        FloatType::Float => (),
        FloatType::F32 => p.push(String::from_str("32")),
        FloatType::F64 => p.push(String::from_str("64")),
    }
    assert(p.deep_view() =~= pre + NumberType::Float(ft).suffix());
    p
}

/// Append the int category segment and, for a sized subtype, its width.
fn append_int_path(prefix: Vec<String>, it: IntType) -> (r: Vec<String>)
    ensures
        r.deep_view() == prefix.deep_view() + NumberType::Int(it).suffix(),
{
    let ghost pre = prefix.deep_view();
    let mut p = prefix;
    p.push(String::from_str("int"));
    match it {
        IntType::Int => (),
        IntType::I8 => p.push(String::from_str("8")),
        IntType::I16 => p.push(String::from_str("16")),
        IntType::I32 => p.push(String::from_str("32")),
        IntType::I64 => p.push(String::from_str("64")),
    }
    assert(p.deep_view() =~= pre + NumberType::Int(it).suffix());
    p
}

/// Append the uint category segment and, for a sized subtype, its width.
fn append_uint_path(prefix: Vec<String>, ut: UIntType) -> (r: Vec<String>)
    ensures
        r.deep_view() == prefix.deep_view() + NumberType::UInt(ut).suffix(),
{
    let ghost pre = prefix.deep_view();
    let mut p = prefix;
    p.push(String::from_str("uint"));
    match ut {
        UIntType::UInt => (),
        UIntType::U8 => p.push(String::from_str("8")),
        UIntType::U16 => p.push(String::from_str("16")),
        UIntType::U32 => p.push(String::from_str("32")),
        UIntType::U64 => p.push(String::from_str("64")),
    }
    assert(p.deep_view() =~= pre + NumberType::UInt(ut).suffix());
    p
}

/// A numeric suffix that deviates from the legal table resolves to nothing:
/// more than two segments, an unknown category word, an unknown width word,
/// or the boolean category paired with any width at all.
pub proof fn lemma_resolve_number_suffix_rejects(suffix: Seq<Seq<char>>)
    requires
        suffix.len() > 2 || (suffix.len() >= 1 && suffix[0] != "bool"@ && suffix[0] != "complex"@
            && suffix[0] != "float"@ && suffix[0] != "int"@ && suffix[0] != "uint"@) || (
        suffix.len() == 2 && suffix[1] != "8"@ && suffix[1] != "16"@ && suffix[1] != "32"@
            && suffix[1] != "64"@) || (suffix.len() == 2 && suffix[0] == "bool"@),
    ensures
        resolve_number_suffix_spec(suffix) is None,
{
    reveal_strlit("bool");
    reveal_strlit("complex");
    reveal_strlit("float");
    reveal_strlit("int");
    reveal_strlit("uint");
    reveal_strlit("8");
    reveal_strlit("16");
    reveal_strlit("32");
    reveal_strlit("64");
    assert("bool"@.len() == 4 && "complex"@.len() == 7 && "float"@.len() == 5
        && "int"@.len() == 3 && "uint"@.len() == 4);
    assert("bool"@[0] == 'b' && "uint"@[0] == 'u');
    assert("8"@.len() == 1 && "16"@.len() == 2 && "32"@.len() == 2 && "64"@.len() == 2);
    assert("16"@[0] == '1' && "32"@[0] == '3' && "64"@[0] == '6');
}

/// Every numeric type resolves from its own canonical path.
pub proof fn lemma_number_type_round_trip(n: NumberType)
    ensures
        resolve_number_spec(n.canonical_path()) == Some(n),
{
    reveal_strlit("bool");
    reveal_strlit("complex");
    reveal_strlit("float");
    reveal_strlit("int");
    reveal_strlit("uint");
    reveal_strlit("8");
    reveal_strlit("16");
    reveal_strlit("32");
    reveal_strlit("64");
    let p = n.canonical_path();
    assert(p.subrange(0, 4) =~= number_prefix());
    assert(p.subrange(4, p.len() as int) =~= n.suffix());
    assert("bool"@.len() == 4 && "complex"@.len() == 7 && "float"@.len() == 5
        && "int"@.len() == 3 && "uint"@.len() == 4);
    assert("bool"@[0] == 'b' && "uint"@[0] == 'u');
    assert("8"@.len() == 1 && "16"@.len() == 2 && "32"@.len() == 2 && "64"@.len() == 2);
    assert("16"@[0] == '1' && "32"@[0] == '3' && "64"@[0] == '6');
}

/// No two numeric types share a canonical path.
pub proof fn lemma_number_path_injective(a: NumberType, b: NumberType)
    requires
        a.canonical_path() == b.canonical_path(),
    ensures
        a == b,
{
    lemma_number_type_round_trip(a);
    lemma_number_type_round_trip(b);
}

} // verus!
