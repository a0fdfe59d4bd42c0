//! The data model of the generator: the source-type grammar it accepts, the
//! transfer-policy tag assigned to each type, and the descriptors that carry
//! one analyzed function from the analyzer to the emitters.

use vstd::prelude::*;

verus! {

/// Classification of a type crossing the language boundary: the transfer
/// policy the generator assigns to every parameter and return type.
#[derive(Clone, Copy, Debug, PartialEq, Eq, Structural)]
pub enum ArgKind {
    /// A fixed-width numeric, boolean or character type, passed by value.
    Primitive,
    /// A reference or raw pointer, passed through unchanged and never owned
    /// by the callee.
    Address,
    /// An owned, heap-allocated value whose lifetime crosses the boundary
    /// and must be explicitly released.
    Boxed,
}

/// A source type, reduced to the four structural shapes the generator
/// accepts: a named path, a reference, a raw pointer, or anything else.
/// Generic arguments, tuples, arrays and function types all fall under
/// `Unsupported` and are rejected by classification.
pub enum RustType {
    /// A named type, as the identifiers of its path segments.
    Path { segments: Vec<String> },
    /// `&T` or `&mut T`.
    Reference { mutable: bool, elem: Box<RustType> },
    /// `*const T` or `*mut T`.
    Pointer { mutable: bool, elem: Box<RustType> },
    /// Any other shape of type; always a classification failure.
    Unsupported,
}

/// Mathematical shape of a `RustType`: the same grammar over sequences of
/// characters.
pub enum TypeV {
    Path { segments: Seq<Seq<char>> },
    Reference { mutable: bool, elem: Box<TypeV> },
    Pointer { mutable: bool, elem: Box<TypeV> },
    Unsupported,
}

pub open spec fn type_view(t: RustType) -> TypeV
    decreases t,
{
    match t {
        RustType::Path { segments } => TypeV::Path { segments: segments.deep_view() },
        RustType::Reference { mutable, elem } => TypeV::Reference {
            mutable,
            elem: Box::new(type_view(*elem)),
        },
        RustType::Pointer { mutable, elem } => TypeV::Pointer {
            mutable,
            elem: Box::new(type_view(*elem)),
        },
        RustType::Unsupported => TypeV::Unsupported,
    }
}

impl View for RustType {
    type V = TypeV;

    open spec fn view(&self) -> TypeV {
        type_view(*self)
    }
}

impl Clone for RustType {
    fn clone(&self) -> (r: RustType)
        ensures
            r@ == self@,
        decreases *self,
    {
        match self {
            RustType::Path { segments } => {
                let mut segs: Vec<String> = Vec::new();
                let mut i: usize = 0;
                while i < segments.len()
                    invariant
                        i <= segments.len(),
                        segs@.len() == i as int,
                        forall|j: int| 0 <= j < i ==> segs@[j]@ == segments@[j]@,
                    decreases segments.len() - i,
                {
                    segs.push(segments[i].clone());
                    i = i + 1;
                }
                proof {
                    assert(segs.deep_view() =~= segments.deep_view());
                }
                RustType::Path { segments: segs }
            },
            RustType::Reference { mutable, elem } => RustType::Reference {
                mutable: *mutable,
                elem: Box::new((**elem).clone()),
            },
            RustType::Pointer { mutable, elem } => RustType::Pointer {
                mutable: *mutable,
                elem: Box::new((**elem).clone()),
            },
            RustType::Unsupported => RustType::Unsupported,
        }
    }
}

/// One analyzed parameter or return value: its identifier, the transfer
/// policy assigned by classification, and the source type it was assigned
/// for. Equality of two descriptors is structural.
pub struct RustFnArg {
    pub ident: String,
    pub kind: ArgKind,
    pub ty: RustType,
}

/// Mathematical shape of a `RustFnArg`.
pub struct ArgV {
    pub ident: Seq<char>,
    pub kind: ArgKind,
    pub ty: TypeV,
}

impl View for RustFnArg {
    type V = ArgV;

    open spec fn view(&self) -> ArgV {
        ArgV { ident: self.ident@, kind: self.kind, ty: self.ty@ }
    }
}

impl Clone for RustFnArg {
    fn clone(&self) -> (r: RustFnArg)
        ensures
            r@ == self@,
    {
        RustFnArg { ident: self.ident.clone(), kind: self.kind, ty: self.ty.clone() }
    }
}

/// The binding pattern of one declared parameter. Only a plain identifier
/// binding is supported; destructuring patterns fail analysis.
pub enum ParamPat {
    Ident(String),
    Other,
}

/// Mathematical shape of a `ParamPat`.
pub enum ParamPatV {
    Ident(Seq<char>),
    Other,
}

impl View for ParamPat {
    type V = ParamPatV;

    open spec fn view(&self) -> ParamPatV {
        match self {
            ParamPat::Ident(s) => ParamPatV::Ident(s@),
            ParamPat::Other => ParamPatV::Other,
        }
    }
}

/// One declared parameter of a source function: either a receiver
/// (`self`-like, never supported) or a pattern with a declared type.
pub enum FnParam {
    Receiver,
    Typed { pat: ParamPat, ty: RustType },
}

/// Mathematical shape of a `FnParam`.
pub enum FnParamV {
    Receiver,
    Typed { pat: ParamPatV, ty: TypeV },
}

impl View for FnParam {
    type V = FnParamV;

    open spec fn view(&self) -> FnParamV {
        match self {
            FnParam::Receiver => FnParamV::Receiver,
            FnParam::Typed { pat, ty } => FnParamV::Typed { pat: pat@, ty: ty@ },
        }
    }
}

/// One exported source function as handed to the analyzer: its name, its
/// declared parameters in call order, and its declared return type, if any.
pub struct FnItem {
    pub name: String,
    pub params: Vec<FnParam>,
    pub ret: Option<RustType>,
}

/// Mathematical shape of a `FnItem`.
pub struct FnItemV {
    pub name: Seq<char>,
    pub params: Seq<FnParamV>,
    pub ret: Option<TypeV>,
}

impl View for FnItem {
    type V = FnItemV;

    open spec fn view(&self) -> FnItemV {
        FnItemV {
            name: self.name@,
            params: Seq::new(self.params@.len(), |i: int| self.params@[i]@),
            ret: match self.ret {
                Option::Some(t) => Option::Some(t@),
                Option::None => Option::None,
            },
        }
    }
}

/// A failure of analysis or emission. Every variant locates the offending
/// construct by the name of the function it stands in; parameter failures
/// carry the position of the parameter as well.
#[derive(Debug)]
pub enum BindError {
    /// A receiver (`self`-like) parameter; methods are unsupported.
    Receiver { func: String, param: usize },
    /// A parameter bound by a destructuring pattern instead of a plain
    /// identifier.
    UnsupportedPattern { func: String, param: usize },
    /// A parameter whose type falls outside the supported grammar.
    UnsupportedType { func: String, param: usize },
    /// A declared return type that falls outside the supported grammar.
    InvalidReturnType { func: String },
    /// A descriptor for which no canonical cross-language name exists.
    NoCanonicalName { func: String },
    /// A function whose return value is a reference or raw pointer; such a
    /// return cannot be marshalled.
    AddressReturn { func: String },
}

/// Mathematical shape of a `BindError`.
pub enum BindErrorV {
    Receiver { func: Seq<char>, param: int },
    UnsupportedPattern { func: Seq<char>, param: int },
    UnsupportedType { func: Seq<char>, param: int },
    InvalidReturnType { func: Seq<char> },
    NoCanonicalName { func: Seq<char> },
    AddressReturn { func: Seq<char> },
}

impl View for BindError {
    type V = BindErrorV;

    open spec fn view(&self) -> BindErrorV {
        match self {
            BindError::Receiver { func, param } => BindErrorV::Receiver {
                func: func@,
                param: *param as int,
            },
            BindError::UnsupportedPattern { func, param } => BindErrorV::UnsupportedPattern {
                func: func@,
                param: *param as int,
            },
            BindError::UnsupportedType { func, param } => BindErrorV::UnsupportedType {
                func: func@,
                param: *param as int,
            },
            BindError::InvalidReturnType { func } => BindErrorV::InvalidReturnType { func: func@ },
            BindError::NoCanonicalName { func } => BindErrorV::NoCanonicalName { func: func@ },
            BindError::AddressReturn { func } => BindErrorV::AddressReturn { func: func@ },
        }
    }
}

impl BindError {
    /// The diagnostic text of the failure, as the generator reports it.
    pub fn message(&self) -> (r: &'static str)
        ensures
            r@ == self.message_spec(),
    {
        match self {
            BindError::Receiver { .. } => "self is not supported yet",
            BindError::UnsupportedPattern { .. } => "Unsupported pattern expression",
            BindError::UnsupportedType { .. } => {
                "Only path types, references, and pointers are supported"
            },
            BindError::InvalidReturnType { .. } => "Invalid return type",
            BindError::NoCanonicalName { .. } => "No canonical cross-language type name",
            BindError::AddressReturn { .. } => "Returning a reference or pointer is not supported",
        }
    }

    pub open spec fn message_spec(&self) -> Seq<char> {
        match self {
            BindError::Receiver { .. } => "self is not supported yet"@,
            BindError::UnsupportedPattern { .. } => "Unsupported pattern expression"@,
            BindError::UnsupportedType { .. } => {
                "Only path types, references, and pointers are supported"@
            },
            BindError::InvalidReturnType { .. } => "Invalid return type"@,
            BindError::NoCanonicalName { .. } => "No canonical cross-language type name"@,
            BindError::AddressReturn { .. } => "Returning a reference or pointer is not supported"@,
        }
    }
}

} // verus!
