//! The stub rewriter: turns one analyzed function into an ABI-stable stub.
//! The stub keeps the original name as its stable external symbol, takes a
//! prefixed internal name, wraps every boxed parameter and return type in
//! an owned heap indirection, and calls the original function with each
//! boxed argument dereferenced exactly once.

use vstd::prelude::*;

use crate::analyze::args_view;
use crate::analyze::extract_args;
use crate::analyze::extract_args_spec;
use crate::analyze::extract_return_type;
use crate::analyze::return_arg_spec;
use crate::model::ArgKind;
use crate::model::ArgV;
use crate::model::BindError;
use crate::model::BindErrorV;
use crate::model::FnItem;
use crate::model::FnItemV;
use crate::model::RustFnArg;
use crate::model::RustType;
use crate::model::TypeV;
use crate::strutil::comma_join;
use crate::strutil::count_char;
use crate::strutil::join_comma;
use crate::strutil::join_str;
use crate::strutil::join_with;
use crate::strutil::lemma_count_char_absent;
use crate::strutil::lemma_count_char_concat;

verus! {

/// The source text of a type: path segments joined by `::`, reference and
/// pointer markers written out in front of their element.
pub open spec fn type_text_spec(t: TypeV) -> Seq<char>
    decreases t,
{
    match t {
        TypeV::Path { segments } => join_with(segments, "::"@),
        TypeV::Reference { mutable, elem } => {
            if mutable {
                "&mut "@ + type_text_spec(*elem)
            } else {
                "&"@ + type_text_spec(*elem)
            }
        },
        TypeV::Pointer { mutable, elem } => {
            if mutable {
                "*mut "@ + type_text_spec(*elem)
            } else {
                "*const "@ + type_text_spec(*elem)
            }
        },
        TypeV::Unsupported => Seq::empty(),
    }
}

/// Renders the source text of a type.
pub fn type_text(t: &RustType) -> (r: String)
    ensures
        r@ == type_text_spec(t@),
    decreases *t,
{
    match t {
        RustType::Path { segments } => join_str(segments, "::"),
        RustType::Reference { mutable, elem } => {
            let mut out = if *mutable {
                "&mut ".to_owned()
            } else {
                "&".to_owned()
            };
            let inner = type_text(elem);
            out.append(inner.as_str());
            out
        },
        RustType::Pointer { mutable, elem } => {
            let mut out = if *mutable {
                "*mut ".to_owned()
            } else {
                "*const ".to_owned()
            };
            let inner = type_text(elem);
            out.append(inner.as_str());
            out
        },
        RustType::Unsupported => String::new(),
    }
}

/// Wraps a type's text in an owned heap indirection: `T` becomes `Box<T>`.
pub fn boxify_type(t: &RustType) -> (r: String)
    ensures
        r@ == "Box<"@ + type_text_spec(t@) + ">"@,
{
    let mut out = "Box<".to_owned();
    let inner = type_text(t);
    out.append(inner.as_str());
    out.append(">");
    out
}

/// The type a descriptor takes in the stub's signature: boxed values gain
/// an owned heap indirection, everything else keeps its declared type.
pub open spec fn stub_type_spec(a: ArgV) -> Seq<char> {
    if a.kind == ArgKind::Boxed {
        "Box<"@ + type_text_spec(a.ty) + ">"@
    } else {
        type_text_spec(a.ty)
    }
}

/// One parameter as the original function declares it.
pub open spec fn param_decl_spec(a: ArgV) -> Seq<char> {
    a.ident + ": "@ + type_text_spec(a.ty)
}

/// One parameter as the stub declares it.
pub open spec fn stub_param_decl_spec(a: ArgV) -> Seq<char> {
    a.ident + ": "@ + stub_type_spec(a)
}

/// The argument expression the stub passes for a descriptor: a boxed
/// argument is dereferenced exactly once, an address or primitive argument
/// passes through unchanged.
pub open spec fn call_arg_spec(a: ArgV) -> Seq<char> {
    if a.kind == ArgKind::Boxed {
        "*"@ + a.ident
    } else {
        a.ident
    }
}

/// The return clause of the stub's signature: absent without a declared
/// return type, otherwise the stub type of the return descriptor.
pub open spec fn stub_ret_clause_spec(ret: Option<ArgV>) -> Seq<char> {
    match ret {
        Option::None => Seq::empty(),
        Option::Some(a) => " -> "@ + stub_type_spec(a),
    }
}

/// The return clause of the original function's signature.
pub open spec fn ret_clause_spec(ret: Option<ArgV>) -> Seq<char> {
    match ret {
        Option::None => Seq::empty(),
        Option::Some(a) => " -> "@ + type_text_spec(a.ty),
    }
}

/// The compile-time assertion emitted for one boxed type: the type must be
/// safe to hand across the boundary, concurrently accessible and
/// independently transferable.
pub open spec fn assertion_spec(t: TypeV) -> Seq<char> {
    "const _: () = {\n    trait SendPlusSync: Send + Sync {}\n    impl SendPlusSync for "@
        + type_text_spec(t) + " {}\n};\n"@
}

/// The assertions for a descriptor list: one per boxed descriptor, in
/// order; nothing for the others.
pub open spec fn assertions_spec(descs: Seq<ArgV>) -> Seq<char>
    decreases descs.len(),
{
    if descs.len() == 0 {
        Seq::empty()
    } else {
        (if descs[0].kind == ArgKind::Boxed {
            assertion_spec(descs[0].ty)
        } else {
            Seq::empty()
        }) + assertions_spec(descs.skip(1))
    }
}

/// One more descriptor appends its assertion, if it is boxed.
pub proof fn lemma_assertions_push(descs: Seq<ArgV>, a: ArgV)
    ensures
        assertions_spec(descs.push(a)) == assertions_spec(descs) + (if a.kind == ArgKind::Boxed {
            assertion_spec(a.ty)
        } else {
            Seq::<char>::empty()
        }),
    decreases descs.len(),
{
    let tail: Seq<char> = if a.kind == ArgKind::Boxed {
        assertion_spec(a.ty)
    } else {
        Seq::empty()
    };
    if descs.len() == 0 {
        assert(descs.push(a) =~= seq![a]);
        assert(seq![a].skip(1) =~= Seq::<ArgV>::empty());
        assert(assertions_spec(Seq::<ArgV>::empty()) == Seq::<char>::empty());
        assert(seq![a][0] == a);
        assert(assertions_spec(seq![a]) == tail + Seq::<char>::empty());
        assert(tail + Seq::<char>::empty() =~= tail);
        assert(assertions_spec(descs) == Seq::<char>::empty());
        assert(assertions_spec(descs) + tail =~= tail);
    } else {
        assert(descs.push(a).skip(1) =~= descs.skip(1).push(a));
        lemma_assertions_push(descs.skip(1), a);
        let head: Seq<char> = if descs[0].kind == ArgKind::Boxed {
            assertion_spec(descs[0].ty)
        } else {
            Seq::empty()
        };
        assert(descs.push(a)[0] == descs[0]);
        assert(assertions_spec(descs.push(a)) == head + assertions_spec(descs.skip(1).push(a)));
        assert((head + assertions_spec(descs.skip(1))) + tail =~= head + (assertions_spec(
            descs.skip(1),
        ) + tail));
    }
}

/// The descriptors a signature holds: the parameters in call order,
/// followed by the return descriptor when there is one.
pub open spec fn sig_descs(args: Seq<ArgV>, ret: Option<ArgV>) -> Seq<ArgV> {
    match ret {
        Option::None => args,
        Option::Some(a) => args.push(a),
    }
}

/// The full text of the rewritten stub function: the stable external
/// symbol bound to the original name, the fixed-ABI linkage qualifier, the
/// prefixed internal name, the policy-rewritten parameter and return
/// types, and a body that calls the original function and converts the
/// result back.
pub open spec fn stub_fn_spec(name: Seq<char>, args: Seq<ArgV>, ret: Option<ArgV>) -> Seq<char> {
    "#[export_name = \""@ + name + "\"]\nextern \"C\" fn _"@ + name + "("@ + comma_join(
        args.map_values(|a: ArgV| stub_param_decl_spec(a)),
    ) + ")"@ + stub_ret_clause_spec(ret) + " {\n    "@ + name + "("@ + comma_join(
        args.map_values(|a: ArgV| call_arg_spec(a)),
    ) + ").into()\n}\n"@
}

/// The stub and the compile-time assertions emitted for one function; the
/// original function itself is kept verbatim by the caller, between the
/// two.
pub struct StubUnit {
    pub stub_fn: String,
    pub assertions: String,
}

/// What `rewrite_stub` produces: the stub text and the assertion text, or
/// the failure of the return type, else of the first unsupported
/// parameter.
pub open spec fn rewrite_stub_spec(f: FnItemV) -> Result<(Seq<char>, Seq<char>), BindErrorV> {
    match return_arg_spec(f) {
        Result::Err(e) => Result::Err(e),
        Result::Ok(ret) => match extract_args_spec(f) {
            Result::Err(e) => Result::Err(e),
            Result::Ok(args) => Result::Ok(
                (stub_fn_spec(f.name, args, ret), assertions_spec(sig_descs(args, ret))),
            ),
        },
    }
}

/// Rewrites one analyzed function into its ABI-stable stub and the
/// compile-time assertions for its boxed types.
pub fn rewrite_stub(f: &FnItem) -> (r: Result<StubUnit, BindError>)
    ensures
        match r {
            Result::Ok(u) => rewrite_stub_spec(f@) == Result::<
                (Seq<char>, Seq<char>),
                BindErrorV,
            >::Ok((u.stub_fn@, u.assertions@)),
            Result::Err(e) => rewrite_stub_spec(f@) == Result::<
                (Seq<char>, Seq<char>),
                BindErrorV,
            >::Err(e@),
        },
{
    let ret = match extract_return_type(f) {
        Result::Err(e) => {
            return Result::Err(e);
        },
        Result::Ok(ret) => ret,
    };
    let args = match extract_args(f) {
        Result::Err(e) => {
            return Result::Err(e);
        },
        Result::Ok(args) => args,
    };
    let ghost argsv = args_view(args@);
    let ghost retv = match &ret {
        Option::Some(a) => Option::Some(a@),
        Option::None => Option::<ArgV>::None,
    };

    // Parameter declarations and call arguments, one per descriptor.
    let mut params_txt: Vec<String> = Vec::new();
    let mut call_txt: Vec<String> = Vec::new();
    let mut i: usize = 0;
    while i < args.len()
        invariant
            i <= args.len(),
            argsv == args_view(args@),
            argsv.len() == args@.len(),
            params_txt.deep_view().len() == i as int,
            call_txt.deep_view().len() == i as int,
            forall|j: int| 0 <= j < i ==> params_txt.deep_view()[j] == stub_param_decl_spec(
                argsv[j],
            ),
            forall|j: int| 0 <= j < i ==> call_txt.deep_view()[j] == call_arg_spec(argsv[j]),
        decreases args.len() - i,
    {
        let a = &args[i];
        proof {
            assert(argsv[i as int] == args@[i as int]@);
        }
        let mut decl = a.ident.clone();
        decl.append(": ");
        let ty_txt = if matches!(a.kind, ArgKind::Boxed) {
            boxify_type(&a.ty)
        } else {
            type_text(&a.ty)
        };
        decl.append(ty_txt.as_str());
        let ghost declv = decl@;
        let ghost params_pre = params_txt.deep_view();
        params_txt.push(decl);

        let call: String = if matches!(a.kind, ArgKind::Boxed) {
            let mut c = "*".to_owned();
            c.append(a.ident.as_str());
            c
        } else {
            a.ident.clone()
        };
        let ghost callv = call@;
        let ghost call_pre = call_txt.deep_view();
        call_txt.push(call);
        proof {
            assert(params_txt.deep_view() =~= params_pre.push(declv));
            assert(call_txt.deep_view() =~= call_pre.push(callv));
            assert(declv == stub_param_decl_spec(argsv[i as int]));
            assert(callv == call_arg_spec(argsv[i as int]));
        }
        i = i + 1;
    }
    proof {
        assert(params_txt.deep_view() =~= argsv.map_values(|a: ArgV| stub_param_decl_spec(a)));
        assert(call_txt.deep_view() =~= argsv.map_values(|a: ArgV| call_arg_spec(a)));
    }

    // The return clause, then the stub function.
    let ret_txt: String = match &ret {
        Option::None => String::new(),
        Option::Some(a) => {
            let mut t = " -> ".to_owned();
            let ty_txt = if matches!(a.kind, ArgKind::Boxed) {
                boxify_type(&a.ty)
            } else {
                type_text(&a.ty)
            };
            t.append(ty_txt.as_str());
            t
        },
    };
    proof {
        assert(ret_txt@ =~= stub_ret_clause_spec(retv));
    }

    let mut stub = "#[export_name = \"".to_owned();
    stub.append(f.name.as_str());
    stub.append("\"]\nextern \"C\" fn _");
    stub.append(f.name.as_str());
    stub.append("(");
    let joined_params = join_comma(&params_txt);
    stub.append(joined_params.as_str());
    stub.append(")");
    stub.append(ret_txt.as_str());
    stub.append(" {\n    ");
    stub.append(f.name.as_str());
    stub.append("(");
    let joined_call = join_comma(&call_txt);
    stub.append(joined_call.as_str());
    stub.append(").into()\n}\n");
    proof {
        assert(stub@ == stub_fn_spec(f@.name, argsv, retv));
    }

    // The compile-time assertions, parameters first, then the return.
    let ghost descs = sig_descs(argsv, retv);
    let mut assertions = String::new();
    let mut k: usize = 0;
    while k < args.len()
        invariant
            k <= args.len(),
            argsv == args_view(args@),
            argsv.len() == args@.len(),
            assertions@ == assertions_spec(argsv.take(k as int)),
        decreases args.len() - k,
    {
        let a = &args[k];
        if matches!(a.kind, ArgKind::Boxed) {
            assertions.append("const _: () = {\n    trait SendPlusSync: Send + Sync {}\n    impl SendPlusSync for ");
            let ty_txt = type_text(&a.ty);
            assertions.append(ty_txt.as_str());
            assertions.append(" {}\n};\n");
        }
        proof {
            assert(argsv[k as int] == args@[k as int]@);
            lemma_assertions_push(argsv.take(k as int), argsv[k as int]);
            assert(argsv.take(k as int).push(argsv[k as int]) =~= argsv.take(k + 1));
            assert(assertions@ =~= assertions_spec(argsv.take(k + 1)));
        }
        k = k + 1;
    }
    proof {
        assert(argsv.take(argsv.len() as int) =~= argsv);
    }
    match &ret {
        Option::None => {
            proof {
                assert(descs =~= argsv);
            }
        },
        Option::Some(a) => {
            if matches!(a.kind, ArgKind::Boxed) {
                assertions.append("const _: () = {\n    trait SendPlusSync: Send + Sync {}\n    impl SendPlusSync for ");
                let ty_txt = type_text(&a.ty);
                assertions.append(ty_txt.as_str());
                assertions.append(" {}\n};\n");
            }
            proof {
                lemma_assertions_push(argsv, a@);
                assert(assertions@ =~= assertions_spec(argsv.push(a@)));
            }
        },
    }

    Result::Ok(StubUnit { stub_fn: stub, assertions })
}

/// For a signature whose parameters and return are all primitive, the stub
/// keeps every declared type and passes every argument through unchanged:
/// its parameter list, return clause and argument expressions equal the
/// original's, and no assertion is emitted. The stub then differs from the
/// original function only by the linkage attribute, the internal renaming,
/// and the conversion applied to the call's result.
pub proof fn lemma_primitive_signature_identity(name: Seq<char>, args: Seq<ArgV>, ret: Option<ArgV>)
    requires
        forall|i: int| 0 <= i < args.len() ==> args[i].kind == ArgKind::Primitive,
        ret matches Option::Some(a) ==> a.kind == ArgKind::Primitive,
    ensures
        comma_join(args.map_values(|a: ArgV| stub_param_decl_spec(a))) == comma_join(
            args.map_values(|a: ArgV| param_decl_spec(a)),
        ),
        stub_ret_clause_spec(ret) == ret_clause_spec(ret),
        forall|i: int| 0 <= i < args.len() ==> call_arg_spec(args[i]) == args[i].ident,
        assertions_spec(sig_descs(args, ret)) == Seq::<char>::empty(),
        stub_fn_spec(name, args, ret) == "#[export_name = \""@ + name
            + "\"]\nextern \"C\" fn _"@ + name + "("@ + comma_join(
            args.map_values(|a: ArgV| param_decl_spec(a)),
        ) + ")"@ + ret_clause_spec(ret) + " {\n    "@ + name + "("@ + comma_join(
            args.map_values(|a: ArgV| a.ident),
        ) + ").into()\n}\n"@,
{
    assert(args.map_values(|a: ArgV| stub_param_decl_spec(a)) =~= args.map_values(
        |a: ArgV| param_decl_spec(a),
    ));
    assert(args.map_values(|a: ArgV| call_arg_spec(a)) =~= args.map_values(|a: ArgV| a.ident));
    lemma_assertions_all_unboxed(sig_descs(args, ret));
}

/// A descriptor list without a boxed descriptor emits no assertion.
proof fn lemma_assertions_all_unboxed(descs: Seq<ArgV>)
    requires
        forall|i: int| 0 <= i < descs.len() ==> descs[i].kind != ArgKind::Boxed,
    ensures
        assertions_spec(descs) == Seq::<char>::empty(),
    decreases descs.len(),
{
    if descs.len() > 0 {
        lemma_assertions_all_unboxed(descs.skip(1));
        assert(Seq::<char>::empty() + Seq::<char>::empty() =~= Seq::<char>::empty());
    }
}

/// A boxed parameter is dereferenced exactly once in the stub's call
/// expression: its argument expression is one dereference mark followed by
/// the bare identifier, and, as long as the identifier itself carries no
/// such mark, the mark occurs exactly once in the whole expression.
pub proof fn lemma_boxed_single_deref(a: ArgV)
    requires
        a.kind == ArgKind::Boxed,
        !a.ident.contains('*'),
    ensures
        call_arg_spec(a) == seq!['*'] + a.ident,
        count_char(call_arg_spec(a), '*') == 1,
{
    reveal_strlit("*");
    assert("*"@ =~= seq!['*']);
    lemma_count_char_concat("*"@, a.ident, '*');
    lemma_count_char_absent(a.ident, '*');
    assert(seq!['*'].skip(1) =~= Seq::<char>::empty());
    assert(count_char(Seq::<char>::empty(), '*') == 0);
    assert(seq!['*'][0] == '*');
    assert(count_char(seq!['*'], '*') == 1);
}

} // verus!
