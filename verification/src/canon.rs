//! The type canonicalizer: derives the canonical cross-language type name
//! of a descriptor, and the layout tag its value takes in a call
//! descriptor.

use vstd::prelude::*;

use crate::classify::arg_wf;
use crate::classify::classify;
use crate::classify::primitive_match;
use crate::classify::primitive_match_spec;
use crate::classify::primitive_to_java;
use crate::classify::primitive_to_java_spec;
use crate::model::ArgKind;
use crate::model::ArgV;
use crate::model::RustFnArg;
use crate::model::RustType;
use crate::model::TypeV;
use crate::strutil::str_eq;
use crate::strutil::to_uppercase;
use crate::strutil::upper_spec;

verus! {

/// The boxed/object counterpart of a target-language primitive keyword;
/// any other name is unchanged. A reference wrapper is a parametrized
/// container, and the target language's bare primitives cannot stand as
/// type parameters.
pub open spec fn boxed_java(s: Seq<char>) -> Seq<char> {
    if s == "byte"@ {
        "Byte"@
    } else if s == "short"@ {
        "Short"@
    } else if s == "int"@ {
        "Integer"@
    } else if s == "long"@ {
        "Long"@
    } else if s == "float"@ {
        "Float"@
    } else if s == "double"@ {
        "Double"@
    } else if s == "boolean"@ {
        "Boolean"@
    } else {
        s
    }
}

/// Replaces a target-language primitive keyword by its boxed/object
/// counterpart, leaving every other name unchanged.
pub fn maybe_primitive_to_boxed<'a>(s: &'a str) -> (r: &'a str)
    ensures
        r@ == boxed_java(s@),
{
    if str_eq(s, "byte") {
        "Byte"
    } else if str_eq(s, "short") {
        "Short"
    } else if str_eq(s, "int") {
        "Integer"
    } else if str_eq(s, "long") {
        "Long"
    } else if str_eq(s, "float") {
        "Float"
    } else if str_eq(s, "double") {
        "Double"
    } else if str_eq(s, "boolean") {
        "Boolean"
    } else {
        s
    }
}

/// The canonical cross-language name of a policy-tagged type, when one
/// exists: the matching primitive keyword for a primitive; the fixed
/// prefix and the terminal path segment for a boxed type; the fixed
/// opaque-address name for a raw pointer; and a `Ref`/`RefMut` wrapper
/// around the pointee's name for a reference, with a primitive pointee
/// boxed to its object counterpart.
pub open spec fn canon_spec(kind: ArgKind, t: TypeV) -> Option<Seq<char>>
    decreases t,
{
    match kind {
        ArgKind::Boxed => match t {
            TypeV::Path { segments } => {
                if segments.len() >= 1 {
                    Option::Some("R"@ + segments[segments.len() - 1])
                } else {
                    Option::None
                }
            },
            _ => Option::None,
        },
        ArgKind::Address => match t {
            TypeV::Pointer { .. } => Option::Some("MemorySegment"@),
            TypeV::Reference { mutable, elem } => match classify(*elem) {
                Option::None => Option::None,
                Option::Some(k) => match canon_spec(k, *elem) {
                    Option::None => Option::None,
                    Option::Some(inner) => Option::Some(
                        (if mutable {
                            "RefMut<"@
                        } else {
                            "Ref<"@
                        }) + boxed_java(inner) + ">"@,
                    ),
                },
            },
            _ => Option::None,
        },
        ArgKind::Primitive => match t {
            TypeV::Path { segments } => match primitive_match_spec(segments) {
                Option::None => Option::None,
                Option::Some(p) => primitive_to_java_spec(p),
            },
            _ => Option::None,
        },
    }
}

pub(crate) fn canon_of_type(kind: ArgKind, ty: &RustType) -> (r: Option<String>)
    ensures
        match r {
            Option::Some(s) => canon_spec(kind, ty@) == Option::Some(s@),
            Option::None => canon_spec(kind, ty@) is None,
        },
    decreases *ty,
{
    match kind {
        ArgKind::Boxed => match ty {
            RustType::Path { segments } => {
                if segments.len() >= 1 {
                    let mut out = "R".to_owned();
                    out.append(segments[segments.len() - 1].as_str());
                    Option::Some(out)
                } else {
                    Option::None
                }
            },
            _ => Option::None,
        },
        ArgKind::Address => match ty {
            RustType::Pointer { .. } => Option::Some("MemorySegment".to_owned()),
            RustType::Reference { mutable, elem } => match ArgKind::from_type(elem) {
                Option::None => Option::None,
                Option::Some(k) => match canon_of_type(k, elem) {
                    Option::None => Option::None,
                    Option::Some(inner) => {
                        let mut out = if *mutable {
                            "RefMut<".to_owned()
                        } else {
                            "Ref<".to_owned()
                        };
                        out.append(maybe_primitive_to_boxed(inner.as_str()));
                        out.append(">");
                        Option::Some(out)
                    },
                },
            },
            _ => Option::None,
        },
        ArgKind::Primitive => match ty {
            RustType::Path { segments } => match primitive_match(segments) {
                Option::None => Option::None,
                Option::Some(p) => match primitive_to_java(p) {
                    Option::None => Option::None,
                    Option::Some(j) => Option::Some(j.to_owned()),
                },
            },
            _ => Option::None,
        },
    }
}

/// The generated holder-type name canonicalization touches beneath a
/// reference: the canonical name of the boxed pointee at the end of a
/// reference chain, if there is one. A primitive or opaque-address
/// pointee needs no generated counterpart.
pub open spec fn addr_names(t: TypeV) -> Seq<Seq<char>>
    decreases t,
{
    match t {
        TypeV::Reference { elem, .. } => match classify(*elem) {
            Option::Some(ArgKind::Boxed) => match canon_spec(ArgKind::Boxed, *elem) {
                Option::Some(n) => seq![n],
                Option::None => Seq::empty(),
            },
            Option::Some(ArgKind::Address) => addr_names(*elem),
            _ => Seq::empty(),
        },
        _ => Seq::empty(),
    }
}

/// The generated holder-type names one descriptor requires: a boxed
/// descriptor's own canonical name, or the boxed pointee's name beneath a
/// reference. The emitted glue references exactly these names, so each of
/// them must have a holder unit.
pub open spec fn holder_names(a: ArgV) -> Seq<Seq<char>> {
    match a.kind {
        ArgKind::Boxed => match canon_spec(ArgKind::Boxed, a.ty) {
            Option::Some(n) => seq![n],
            Option::None => Seq::empty(),
        },
        ArgKind::Address => addr_names(a.ty),
        ArgKind::Primitive => Seq::empty(),
    }
}

/// Walks a reference chain to the canonical name of its boxed pointee,
/// if it ends at one.
pub fn addr_holder_name(t: &RustType) -> (r: Option<String>)
    ensures
        match r {
            Option::Some(n) => addr_names(t@) == seq![n@],
            Option::None => addr_names(t@) == Seq::<Seq<char>>::empty(),
        },
    decreases *t,
{
    match t {
        RustType::Reference { elem, .. } => match ArgKind::from_type(elem) {
            Option::Some(ArgKind::Boxed) => canon_of_type(ArgKind::Boxed, elem),
            Option::Some(ArgKind::Address) => addr_holder_name(elem),
            _ => Option::None,
        },
        _ => Option::None,
    }
}

/// The layout tag a descriptor contributes to a call descriptor: the
/// upper-cased primitive layout for a primitive, and the opaque-address
/// layout for everything passed as an address or a handle.
pub open spec fn layout_spec(a: ArgV) -> Seq<char>
    recommends
        arg_wf(a),
{
    match a.kind {
        ArgKind::Primitive => match a.ty {
            TypeV::Path { segments } => match primitive_match_spec(segments) {
                Option::Some(p) => match primitive_to_java_spec(p) {
                    Option::Some(j) => "ValueLayout.JAVA_"@ + upper_spec(j),
                    Option::None => Seq::empty(),
                },
                Option::None => Seq::empty(),
            },
            _ => Seq::empty(),
        },
        _ => "ValueLayout.ADDRESS"@,
    }
}

/// Derives the layout tag of a descriptor for the call-descriptor line of
/// the emitted glue.
pub fn type_to_value_layout(arg: &RustFnArg) -> (r: String)
    requires
        arg_wf(arg@),
    ensures
        r@ == layout_spec(arg@),
{
    match arg.kind {
        ArgKind::Primitive => match &arg.ty {
            RustType::Path { segments } => match primitive_match(segments) {
                Option::Some(p) => match primitive_to_java(p) {
                    Option::Some(j) => {
                        let mut out = "ValueLayout.JAVA_".to_owned();
                        let upper = to_uppercase(j);
                        out.append(upper.as_str());
                        out
                    },
                    Option::None => vstd::pervasive::unreached(),
                },
                Option::None => vstd::pervasive::unreached(),
            },
            _ => vstd::pervasive::unreached(),
        },
        _ => "ValueLayout.ADDRESS".to_owned(),
    }
}

/// Derives the canonical cross-language name of a descriptor, reading the
/// policy tag and the source type it was assigned for.
pub fn canonicalize_type(arg: &RustFnArg) -> (r: Option<String>)
    ensures
        match r {
            Option::Some(s) => canon_spec(arg.kind, arg.ty@) == Option::Some(s@),
            Option::None => canon_spec(arg.kind, arg.ty@) is None,
        },
{
    canon_of_type(arg.kind, &arg.ty)
}

} // verus!
