//! The classifier: assigns every supported source type one of the three
//! transfer policies, and maps the primitive vocabulary to the target
//! language's primitive keywords.

use vstd::prelude::*;

use crate::model::ArgKind;
use crate::model::RustType;
use crate::model::TypeV;
use crate::strutil::str_eq;

verus! {

/// The fixed primitive vocabulary: the named types both languages know as
/// fixed-width values.
pub open spec fn is_primitive_name(s: Seq<char>) -> bool {
    ||| s == "i8"@
    ||| s == "i16"@
    ||| s == "i32"@
    ||| s == "i64"@
    ||| s == "u8"@
    ||| s == "u16"@
    ||| s == "u32"@
    ||| s == "u64"@
    ||| s == "f32"@
    ||| s == "f64"@
    ||| s == "char"@
    ||| s == "bool"@
}

/// What `primitive_match` returns: the primitive's own name for a
/// single-segment path naming a primitive, and nothing otherwise.
pub open spec fn primitive_match_spec(segments: Seq<Seq<char>>) -> Option<Seq<char>> {
    if segments.len() == 1 && is_primitive_name(segments[0]) {
        Option::Some(segments[0])
    } else {
        Option::None
    }
}

/// Recognizes a single-segment named type from the fixed primitive
/// vocabulary, returning the primitive's name.
pub fn primitive_match(segments: &Vec<String>) -> (r: Option<&'static str>)
    ensures
        match r {
            Option::Some(p) => primitive_match_spec(segments.deep_view()) == Option::Some(p@),
            Option::None => primitive_match_spec(segments.deep_view()) is None,
        },
{
    if segments.len() != 1 {
        return Option::None;
    }
    let name = segments[0].as_str();
    proof {
        assert(segments.deep_view()[0] == name@);
    }
    if str_eq(name, "i8") {
        Option::Some("i8")
    } else if str_eq(name, "i16") {
        Option::Some("i16")
    } else if str_eq(name, "i32") {
        Option::Some("i32")
    } else if str_eq(name, "i64") {
        Option::Some("i64")
    } else if str_eq(name, "u8") {
        Option::Some("u8")
    } else if str_eq(name, "u16") {
        Option::Some("u16")
    } else if str_eq(name, "u32") {
        Option::Some("u32")
    } else if str_eq(name, "u64") {
        Option::Some("u64")
    } else if str_eq(name, "f32") {
        Option::Some("f32")
    } else if str_eq(name, "f64") {
        Option::Some("f64")
    } else if str_eq(name, "char") {
        Option::Some("char")
    } else if str_eq(name, "bool") {
        Option::Some("bool")
    } else {
        Option::None
    }
}

/// The target-language primitive keyword for a source primitive name.
pub open spec fn primitive_to_java_spec(s: Seq<char>) -> Option<Seq<char>> {
    if s == "i8"@ || s == "u8"@ {
        Option::Some("byte"@)
    } else if s == "i16"@ || s == "u16"@ {
        Option::Some("short"@)
    } else if s == "i32"@ || s == "u32"@ || s == "char"@ {
        Option::Some("int"@)
    } else if s == "i64"@ || s == "u64"@ || s == "isize"@ || s == "usize"@ {
        Option::Some("long"@)
    } else if s == "f32"@ {
        Option::Some("float"@)
    } else if s == "f64"@ {
        Option::Some("double"@)
    } else if s == "bool"@ {
        Option::Some("boolean"@)
    } else {
        Option::None
    }
}

/// Maps a source primitive name to the matching target-language primitive
/// keyword.
pub fn primitive_to_java(s: &str) -> (r: Option<&'static str>)
    ensures
        match r {
            Option::Some(p) => primitive_to_java_spec(s@) == Option::Some(p@),
            Option::None => primitive_to_java_spec(s@) is None,
        },
{
    if str_eq(s, "i8") || str_eq(s, "u8") {
        Option::Some("byte")
    } else if str_eq(s, "i16") || str_eq(s, "u16") {
        Option::Some("short")
    } else if str_eq(s, "i32") || str_eq(s, "u32") || str_eq(s, "char") {
        Option::Some("int")
    } else if str_eq(s, "i64") || str_eq(s, "u64") || str_eq(s, "isize") || str_eq(s, "usize") {
        Option::Some("long")
    } else if str_eq(s, "f32") {
        Option::Some("float")
    } else if str_eq(s, "f64") {
        Option::Some("double")
    } else if str_eq(s, "bool") {
        Option::Some("boolean")
    } else {
        Option::None
    }
}

/// Total classification over the supported type grammar: a single-segment
/// path naming a primitive is `Primitive`, any other named path is `Boxed`,
/// references and raw pointers are `Address`, and every other shape fails.
pub open spec fn classify(t: TypeV) -> Option<ArgKind> {
    match t {
        TypeV::Path { segments } => {
            if segments.len() == 1 && is_primitive_name(segments[0]) {
                Option::Some(ArgKind::Primitive)
            } else {
                Option::Some(ArgKind::Boxed)
            }
        },
        TypeV::Reference { .. } => Option::Some(ArgKind::Address),
        TypeV::Pointer { .. } => Option::Some(ArgKind::Address),
        TypeV::Unsupported => Option::None,
    }
}

/// A descriptor is well formed when its policy tag is exactly what
/// classification assigns to its source type. Every later emission step
/// reads the tag and the type together, so a divergence between the two
/// would let the rewritten stub and the emitted glue disagree.
pub open spec fn arg_wf(a: crate::model::ArgV) -> bool {
    classify(a.ty) == Option::Some(a.kind)
}

impl ArgKind {
    /// Assigns the transfer policy of a source type, or fails on a type
    /// outside the supported grammar.
    pub fn from_type(ty: &RustType) -> (r: Option<ArgKind>)
        ensures
            r == classify(ty@),
    {
        match ty {
            RustType::Path { segments } => {
                if primitive_match(segments).is_some() {
                    Option::Some(ArgKind::Primitive)
                } else {
                    Option::Some(ArgKind::Boxed)
                }
            },
            RustType::Reference { .. } => Option::Some(ArgKind::Address),
            RustType::Pointer { .. } => Option::Some(ArgKind::Address),
            RustType::Unsupported => Option::None,
        }
    }
}

} // verus!
