//! The binding emitter: consumes the aggregator once and produces every
//! generated artifact of the run. One holder-type unit is emitted per
//! registered canonical name, and one aggregate glue unit declares a call
//! handle per processed function, resolves each handle from the stable
//! external symbol, and wraps each call behind a typed method that
//! marshals arguments and results.

use vstd::prelude::*;

use crate::canon::canon_spec;
use crate::canon::canonicalize_type;
use crate::canon::holder_names;
use crate::canon::layout_spec;
use crate::canon::type_to_value_layout;
use crate::model::ArgKind;
use crate::model::ArgV;
use crate::model::BindError;
use crate::model::BindErrorV;
use crate::model::FnItem;
use crate::model::FnItemV;
use crate::state::method_wf;
use crate::state::process_fn;
use crate::state::process_fn_spec;
use crate::state::state_wf;
use crate::state::Method;
use crate::state::MethodV;
use crate::state::State;
use crate::state::StateV;
use crate::strutil::comma_join;
use crate::strutil::concat_seq;
use crate::strutil::join_comma;
use crate::strutil::lemma_concat_seq_push;
use crate::stub::sig_descs;

verus! {

/// The source of one holder-type unit: a minimal class around one opaque
/// handle, constructible only from that handle.
pub open spec fn holder_class_spec(name: Seq<char>) -> Seq<char> {
    "import java.lang.foreign.MemorySegment;\n\npublic class "@ + name
        + " {\n\tMemorySegment value;\n\t\n\t"@ + name
        + "(MemorySegment value) {\n\t\tthis.value = value;\n\t}\n}\n"@
}

/// Renders one holder-type unit.
pub fn holder_class_text(name: &str) -> (r: String)
    ensures
        r@ == holder_class_spec(name@),
{
    let mut out = "import java.lang.foreign.MemorySegment;\n\npublic class ".to_owned();
    out.append(name);
    out.append(" {\n\tMemorySegment value;\n\t\n\t");
    out.append(name);
    out.append("(MemorySegment value) {\n\t\tthis.value = value;\n\t}\n}\n");
    out
}

/// The fixed head of the glue unit: imports, the class opening, and the
/// shared symbol-resolution helper.
pub open spec fn glue_header_spec() -> Seq<char> {
    "import java.lang.invoke.MethodHandle;\nimport java.lang.foreign.Arena;\nimport java.lang.foreign.FunctionDescriptor;\nimport java.lang.foreign.Linker;\nimport java.lang.foreign.MemorySegment;\nimport java.lang.foreign.SymbolLookup;\nimport java.lang.foreign.ValueLayout;\n\npublic class RustFns {\n\tstatic MethodHandle getHandle(Linker linker, SymbolLookup lookup, String symbol, FunctionDescriptor descriptor) throws Throwable {\n\tvar addr = lookup.find(symbol).get();\n\t\treturn linker.downcallHandle(addr, descriptor);\n\t}\n\n"@
}

/// One call-handle slot declaration.
pub open spec fn handle_decl_spec(m: MethodV) -> Seq<char> {
    "\tstatic MethodHandle "@ + m.name + "_handle;\n"@
}

/// The first pass of the glue unit: one call-handle slot per processed
/// function, in discovery order.
pub open spec fn handle_decls_spec(ms: Seq<MethodV>) -> Seq<char> {
    concat_seq(ms.map_values(|m: MethodV| handle_decl_spec(m)))
}

/// The opening of the link-time initializer block, binding the given
/// dynamic-library identifier.
pub open spec fn static_open_spec(lib: Seq<char>) -> Seq<char> {
    "\n\t\tstatic {\n\t\ttry {\n\t\t\tvar linker = Linker.nativeLinker();\n\t\t\tvar lib = SymbolLookup.libraryLookup(\""@
        + lib + "\", Arena.global());\n"@
}

/// The call descriptor of one function: the return layout first when a
/// return exists, then each parameter layout in call order. This order
/// mirrors the analyzer's preserved parameter order and must match the
/// calling convention of the rewritten stub exactly.
pub open spec fn descriptor_spec(m: MethodV) -> Seq<char> {
    match m.ret {
        Option::Some(r) => "FunctionDescriptor.of("@ + comma_join(
            seq![layout_spec(r)] + m.args.map_values(|a: ArgV| layout_spec(a)),
        ) + ")"@,
        Option::None => "FunctionDescriptor.ofVoid("@ + comma_join(
            m.args.map_values(|a: ArgV| layout_spec(a)),
        ) + ")"@,
    }
}

/// One line of the initializer block: resolve the stable external symbol
/// and build the call descriptor.
pub open spec fn init_line_spec(m: MethodV) -> Seq<char> {
    "\t\t\t"@ + m.name + "_handle = getHandle(linker, lib, \""@ + m.name + "\", "@
        + descriptor_spec(m) + ");\n"@
}

/// The second pass of the glue unit: one initializer line per processed
/// function, in discovery order.
pub open spec fn init_lines_spec(ms: Seq<MethodV>) -> Seq<char> {
    concat_seq(ms.map_values(|m: MethodV| init_line_spec(m)))
}

/// The close of the initializer block.
pub open spec fn static_close_spec() -> Seq<char> {
    "\t\t} catch (Throwable e) {\n\t\t\te.printStackTrace();\n\t\t}\n\t}\n\n"@
}

/// Renders the call descriptor of one function.
fn descriptor_text(m: &Method) -> (r: String)
    requires
        method_wf(m@),
    ensures
        r@ == descriptor_spec(m@),
{
    let ghost mv = m@;
    let mut parts: Vec<String> = Vec::new();
    match &m.sig.0 {
        Option::Some(ret) => {
            proof {
                assert(mv.ret == Option::Some(ret@));
                assert(sig_descs(mv.args, mv.ret)[mv.args.len() as int] == ret@);
            }
            parts.push(type_to_value_layout(ret));
            proof {
                assert(parts.deep_view() =~= seq![layout_spec(mv.ret->Some_0)]);
            }
        },
        Option::None => {
            proof {
                assert(parts.deep_view() =~= Seq::<Seq<char>>::empty());
            }
        },
    }
    let ghost base = parts.deep_view();
    let mut j: usize = 0;
    while j < m.sig.1.len()
        invariant
            j <= m.sig.1.len(),
            mv == m@,
            method_wf(mv),
            parts.deep_view().len() == base.len() + j as int,
            forall|k: int| 0 <= k < base.len() ==> parts.deep_view()[k] == base[k],
            forall|k: int| 0 <= k < j ==> parts.deep_view()[base.len() + k] == layout_spec(
                mv.args[k],
            ),
        decreases m.sig.1.len() - j,
    {
        let a = &m.sig.1[j];
        proof {
            assert(mv.args[j as int] == m.sig.1@[j as int]@);
            assert(sig_descs(mv.args, mv.ret)[j as int] == mv.args[j as int]);
        }
        let ghost pre = parts.deep_view();
        let lay = type_to_value_layout(a);
        let ghost layv = lay@;
        parts.push(lay);
        proof {
            assert(parts.deep_view() =~= pre.push(layv));
        }
        j = j + 1;
    }
    let joined = join_comma(&parts);
    let mut out = match &m.sig.0 {
        Option::Some(_) => "FunctionDescriptor.of(".to_owned(),
        Option::None => "FunctionDescriptor.ofVoid(".to_owned(),
    };
    out.append(joined.as_str());
    out.append(")");
    proof {
        match mv.ret {
            Option::Some(r) => {
                assert(parts.deep_view() =~= seq![layout_spec(r)] + mv.args.map_values(
                    |a: ArgV| layout_spec(a),
                ));
            },
            Option::None => {
                assert(parts.deep_view() =~= mv.args.map_values(|a: ArgV| layout_spec(a)));
            },
        }
    }
    out
}

/// The canonical name of a descriptor, where it has one.
pub open spec fn canon_of(a: ArgV) -> Seq<char>
    recommends
        canon_spec(a.kind, a.ty) is Some,
{
    canon_spec(a.kind, a.ty)->Some_0
}

/// One typed parameter of a wrapper method.
pub open spec fn wrapper_param_spec(a: ArgV) -> Seq<char> {
    canon_of(a) + " "@ + a.ident
}

/// How a wrapper marshals one argument into the raw call: a primitive
/// passes as is, an address-classified argument is unwrapped through its
/// reference wrapper to the opaque handle, and a boxed argument hands its
/// opaque handle over directly.
pub open spec fn call_expr_spec(a: ArgV) -> Seq<char> {
    match a.kind {
        ArgKind::Primitive => a.ident,
        ArgKind::Address => a.ident + ".get().value"@,
        ArgKind::Boxed => a.ident + ".value"@,
    }
}

/// The raw invocation a wrapper makes through the resolved call handle.
pub open spec fn method_call_spec(m: MethodV) -> Seq<char> {
    m.name + "_handle.invokeExact("@ + comma_join(m.args.map_values(|a: ArgV| call_expr_spec(a)))
        + ")"@
}

/// The head of a wrapper method: its return type, or void, and its name.
pub open spec fn wrapper_head_spec(m: MethodV) -> Seq<char> {
    match m.ret {
        Option::Some(r) => "\tstatic "@ + canon_of(r) + " "@ + m.name + "("@,
        Option::None => "\tstatic void "@ + m.name + "("@,
    }
}

/// The body line of a wrapper method: a primitive result is cast to its
/// canonical primitive type, a boxed result is wrapped in its holder
/// type, and a call without a return is made for its effect.
pub open spec fn wrapper_body_spec(m: MethodV) -> Seq<char> {
    match m.ret {
        Option::Some(r) => {
            if r.kind == ArgKind::Primitive {
                "\t\treturn ("@ + canon_of(r) + ")"@ + method_call_spec(m) + ";"@
            } else {
                "\t\treturn new "@ + canon_of(r) + "((MemorySegment)"@ + method_call_spec(m)
                    + ");"@
            }
        },
        Option::None => "\t\t"@ + method_call_spec(m) + ";"@,
    }
}

/// One wrapper method of the glue unit.
pub open spec fn wrapper_spec(m: MethodV) -> Seq<char> {
    wrapper_head_spec(m) + comma_join(m.args.map_values(|a: ArgV| wrapper_param_spec(a)))
        + ") throws Throwable {\n"@ + wrapper_body_spec(m) + "\n\t}\n"@
}

/// Why one method cannot be emitted, if it cannot: a return or parameter
/// without a canonical name, or a return passed by address, which the
/// wrapper cannot marshal.
pub open spec fn method_check(m: MethodV) -> Option<BindErrorV> {
    if m.ret matches Option::Some(r) && canon_spec(r.kind, r.ty) is None {
        Option::Some(BindErrorV::NoCanonicalName { func: m.name })
    } else if exists|i: int|
        0 <= i < m.args.len() && canon_spec((#[trigger] m.args[i]).kind, m.args[i].ty) is None {
        Option::Some(BindErrorV::NoCanonicalName { func: m.name })
    } else if m.ret matches Option::Some(r) && r.kind == ArgKind::Address {
        Option::Some(BindErrorV::AddressReturn { func: m.name })
    } else {
        Option::None
    }
}

/// The third pass of the glue unit: one wrapper method per processed
/// function, in discovery order, or the failure of the first function
/// that cannot be emitted.
pub open spec fn wrappers_spec(ms: Seq<MethodV>) -> Result<Seq<char>, BindErrorV>
    decreases ms.len(),
{
    if ms.len() == 0 {
        Result::Ok(Seq::empty())
    } else {
        match method_check(ms[0]) {
            Option::Some(e) => Result::Err(e),
            Option::None => match wrappers_spec(ms.skip(1)) {
                Result::Err(e) => Result::Err(e),
                Result::Ok(rest) => Result::Ok(wrapper_spec(ms[0]) + rest),
            },
        }
    }
}

/// If every method before position `i` passes its check and method `i`
/// fails, the pass fails with that method's error.
proof fn lemma_wrappers_first_err(ms: Seq<MethodV>, k: int, i: int)
    requires
        0 <= k <= i < ms.len(),
        forall|j: int| 0 <= j < i ==> method_check(#[trigger] ms[j]) is None,
        method_check(ms[i]) is Some,
    ensures
        wrappers_spec(ms.skip(k)) == Result::<Seq<char>, BindErrorV>::Err(
            method_check(ms[i])->Some_0,
        ),
    decreases i - k,
{
    assert(ms.skip(k)[0] == ms[k]);
    if k == i {
    } else {
        assert(ms.skip(k).skip(1) =~= ms.skip(k + 1));
        lemma_wrappers_first_err(ms, k + 1, i);
    }
}

/// If every method passes its check, the pass emits every wrapper, in
/// order.
proof fn lemma_wrappers_all_ok(ms: Seq<MethodV>, k: int)
    requires
        0 <= k <= ms.len(),
        forall|j: int| 0 <= j < ms.len() ==> method_check(#[trigger] ms[j]) is None,
    ensures
        wrappers_spec(ms.skip(k)) == Result::<Seq<char>, BindErrorV>::Ok(
            concat_seq(ms.skip(k).map_values(|m: MethodV| wrapper_spec(m))),
        ),
    decreases ms.len() - k,
{
    if k == ms.len() {
        assert(ms.skip(k) =~= Seq::<MethodV>::empty());
        assert(ms.skip(k).map_values(|m: MethodV| wrapper_spec(m)) =~= Seq::<Seq<char>>::empty());
    } else {
        assert(ms.skip(k)[0] == ms[k]);
        assert(ms.skip(k).skip(1) =~= ms.skip(k + 1));
        lemma_wrappers_all_ok(ms, k + 1);
        assert(ms.skip(k).map_values(|m: MethodV| wrapper_spec(m)).skip(1) =~= ms.skip(
            k + 1,
        ).map_values(|m: MethodV| wrapper_spec(m)));
        assert(ms.skip(k).map_values(|m: MethodV| wrapper_spec(m))[0] == wrapper_spec(ms[k]));
    }
}

/// Renders one wrapper method, or says why the method cannot be emitted.
fn wrapper_text(m: &Method) -> (r: Result<String, BindError>)
    ensures
        match r {
            Result::Ok(w) => method_check(m@) is None && w@ == wrapper_spec(m@),
            Result::Err(e) => method_check(m@) == Option::Some(e@),
        },
{
    let ghost mv = m@;

    // The canonical name of the return, where a return exists.
    let ret_canon: Option<String> = match &m.sig.0 {
        Option::Some(ret) => {
            proof {
                assert(mv.ret == Option::Some(ret@));
            }
            match canonicalize_type(ret) {
                Option::None => {
                    return Result::Err(BindError::NoCanonicalName { func: m.name.clone() });
                },
                Option::Some(c) => Option::Some(c),
            }
        },
        Option::None => Option::None,
    };

    // The typed parameters and the marshalled arguments, in call order.
    let mut params: Vec<String> = Vec::new();
    let mut exprs: Vec<String> = Vec::new();
    let mut i: usize = 0;
    while i < m.sig.1.len()
        invariant
            i <= m.sig.1.len(),
            mv == m@,
            mv.ret matches Option::Some(r) ==> canon_spec(r.kind, r.ty) is Some,
            params.deep_view().len() == i as int,
            exprs.deep_view().len() == i as int,
            forall|j: int| 0 <= j < i ==> canon_spec(
                (#[trigger] mv.args[j]).kind,
                mv.args[j].ty,
            ) is Some,
            forall|j: int| 0 <= j < i ==> params.deep_view()[j] == wrapper_param_spec(mv.args[j]),
            forall|j: int| 0 <= j < i ==> exprs.deep_view()[j] == call_expr_spec(mv.args[j]),
        decreases m.sig.1.len() - i,
    {
        let a = &m.sig.1[i];
        proof {
            assert(mv.args[i as int] == m.sig.1@[i as int]@);
        }
        let mut p = match canonicalize_type(a) {
            Option::None => {
                proof {
                    assert(canon_spec(mv.args[i as int].kind, mv.args[i as int].ty) is None);
                }
                return Result::Err(BindError::NoCanonicalName { func: m.name.clone() });
            },
            Option::Some(c) => c,
        };
        p.append(" ");
        p.append(a.ident.as_str());
        let ghost pv = p@;
        let ghost params_pre = params.deep_view();
        params.push(p);

        let e: String = match a.kind {
            ArgKind::Primitive => a.ident.clone(),
            ArgKind::Address => {
                let mut e = a.ident.clone();
                e.append(".get().value");
                e
            },
            ArgKind::Boxed => {
                let mut e = a.ident.clone();
                e.append(".value");
                e
            },
        };
        let ghost ev = e@;
        let ghost exprs_pre = exprs.deep_view();
        exprs.push(e);
        proof {
            assert(params.deep_view() =~= params_pre.push(pv));
            assert(exprs.deep_view() =~= exprs_pre.push(ev));
        }
        i = i + 1;
    }
    proof {
        assert(params.deep_view() =~= mv.args.map_values(|a: ArgV| wrapper_param_spec(a)));
        assert(exprs.deep_view() =~= mv.args.map_values(|a: ArgV| call_expr_spec(a)));
    }

    // The raw invocation through the resolved call handle.
    let mut call = m.name.clone();
    call.append("_handle.invokeExact(");
    let joined_exprs = join_comma(&exprs);
    call.append(joined_exprs.as_str());
    call.append(")");
    proof {
        assert(call@ == method_call_spec(mv));
    }

    // The head, the body line, and the whole wrapper.
    let head: String = match &ret_canon {
        Option::Some(c) => {
            let mut h = "\tstatic ".to_owned();
            h.append(c.as_str());
            h.append(" ");
            h.append(m.name.as_str());
            h.append("(");
            h
        },
        Option::None => {
            let mut h = "\tstatic void ".to_owned();
            h.append(m.name.as_str());
            h.append("(");
            h
        },
    };
    let body: String = match &m.sig.0 {
        Option::Some(ret) => {
            let c = match &ret_canon {
                Option::Some(c) => c,
                Option::None => vstd::pervasive::unreached(),
            };
            match ret.kind {
                ArgKind::Primitive => {
                    let mut b = "\t\treturn (".to_owned();
                    b.append(c.as_str());
                    b.append(")");
                    b.append(call.as_str());
                    b.append(";");
                    b
                },
                ArgKind::Boxed => {
                    let mut b = "\t\treturn new ".to_owned();
                    b.append(c.as_str());
                    b.append("((MemorySegment)");
                    b.append(call.as_str());
                    b.append(");");
                    b
                },
                ArgKind::Address => {
                    return Result::Err(BindError::AddressReturn { func: m.name.clone() });
                },
            }
        },
        Option::None => {
            let mut b = "\t\t".to_owned();
            b.append(call.as_str());
            b.append(";");
            b
        },
    };
    proof {
        assert(head@ == wrapper_head_spec(mv));
        assert(body@ == wrapper_body_spec(mv));
    }

    let mut w = head;
    let joined_params = join_comma(&params);
    w.append(joined_params.as_str());
    w.append(") throws Throwable {\n");
    w.append(body.as_str());
    w.append("\n\t}\n");
    proof {
        assert(w@ == wrapper_spec(mv));
    }
    Result::Ok(w)
}

/// One generated source unit: the file it goes to, and its contents.
pub struct HolderUnit {
    pub file_name: String,
    pub contents: String,
}

impl View for HolderUnit {
    type V = (Seq<char>, Seq<char>);

    open spec fn view(&self) -> (Seq<char>, Seq<char>) {
        (self.file_name@, self.contents@)
    }
}

/// Everything one run emits: one holder-type unit per registered
/// canonical name, and the aggregate glue unit.
pub struct Artifacts {
    pub holder_units: Vec<HolderUnit>,
    pub glue: String,
}

impl View for Artifacts {
    type V = (Seq<(Seq<char>, Seq<char>)>, Seq<char>);

    open spec fn view(&self) -> (Seq<(Seq<char>, Seq<char>)>, Seq<char>) {
        (Seq::new(self.holder_units@.len(), |i: int| self.holder_units@[i]@), self.glue@)
    }
}

/// The holder-type units of a registry: one file per canonical name, in
/// registration order.
pub open spec fn holders_spec(types: Seq<Seq<char>>) -> Seq<(Seq<char>, Seq<char>)> {
    types.map_values(|n: Seq<char>| (n + ".java"@, holder_class_spec(n)))
}

/// The whole glue unit: the fixed head, the call-handle slots, the
/// initializer block, the wrapper methods, and the closing brace.
pub open spec fn glue_spec(ms: Seq<MethodV>, lib: Seq<char>, wrappers: Seq<char>) -> Seq<char> {
    glue_header_spec() + handle_decls_spec(ms) + static_open_spec(lib) + init_lines_spec(ms)
        + static_close_spec() + wrappers + "}\n"@
}

/// What `finalize` produces from an aggregator and a library identifier,
/// or the failure of the first function that cannot be emitted.
pub open spec fn finalize_spec(s: StateV, lib: Seq<char>) -> Result<
    (Seq<(Seq<char>, Seq<char>)>, Seq<char>),
    BindErrorV,
> {
    match wrappers_spec(s.methods) {
        Result::Err(e) => Result::Err(e),
        Result::Ok(ws) => Result::Ok((holders_spec(s.types), glue_spec(s.methods, lib, ws))),
    }
}

/// Consumes the aggregator once and emits every artifact of the run: the
/// holder-type units and the aggregate glue unit. Fails on the first
/// processed function whose types cannot be named canonically or whose
/// return is passed by address.
pub fn finalize(state: State, libname: &str) -> (r: Result<Artifacts, BindError>)
    requires
        state_wf(state@),
    ensures
        match r {
            Result::Ok(a) => finalize_spec(state@, libname@) == Result::<
                (Seq<(Seq<char>, Seq<char>)>, Seq<char>),
                BindErrorV,
            >::Ok(a@),
            Result::Err(e) => finalize_spec(state@, libname@) == Result::<
                (Seq<(Seq<char>, Seq<char>)>, Seq<char>),
                BindErrorV,
            >::Err(e@),
        },
{
    let ghost sv = state@;
    let ghost msv = state@.methods;
    let methods = state.methods();
    let types = state.types();

    // Third pass first: the wrapper methods, where emission can fail.
    let mut wrappers = String::new();
    let mut i: usize = 0;
    while i < methods.len()
        invariant
            i <= methods.len(),
            sv == state@,
            msv == sv.methods,
            msv.len() == methods@.len(),
            forall|j: int| 0 <= j < methods@.len() ==> methods@[j]@ == msv[j],
            forall|j: int| 0 <= j < i ==> method_check(#[trigger] msv[j]) is None,
            wrappers@ == concat_seq(msv.take(i as int).map_values(|m: MethodV| wrapper_spec(m))),
        decreases methods.len() - i,
    {
        proof {
            assert(methods@[i as int]@ == msv[i as int]);
        }
        let w = match wrapper_text(&methods[i]) {
            Result::Err(e) => {
                proof {
                    lemma_wrappers_first_err(msv, 0, i as int);
                    assert(msv.skip(0) =~= msv);
                    assert(wrappers_spec(sv.methods) == Result::<Seq<char>, BindErrorV>::Err(e@));
                }
                return Result::Err(e);
            },
            Result::Ok(w) => w,
        };
        wrappers.append(w.as_str());
        proof {
            let f = |m: MethodV| wrapper_spec(m);
            lemma_concat_seq_push(msv.take(i as int).map_values(f), wrapper_spec(msv[i as int]));
            assert(msv.take(i as int).map_values(f).push(wrapper_spec(msv[i as int])) =~= msv.take(
                i + 1,
            ).map_values(f));
        }
        i = i + 1;
    }
    proof {
        assert(msv.take(msv.len() as int) =~= msv);
        lemma_wrappers_all_ok(msv, 0);
        assert(msv.skip(0) =~= msv);
    }

    // The holder-type units, one per registered canonical name.
    let mut holder_units: Vec<HolderUnit> = Vec::new();
    let mut h: usize = 0;
    while h < types.len()
        invariant
            h <= types.len(),
            types.deep_view() == sv.types,
            types.deep_view().len() == types@.len(),
            holder_units@.len() == h as int,
            forall|j: int| 0 <= j < h ==> holder_units@[j]@ == holders_spec(sv.types)[j],
        decreases types.len() - h,
    {
        proof {
            assert(types.deep_view()[h as int] == types@[h as int]@);
        }
        let mut file_name = types[h].clone();
        file_name.append(".java");
        let contents = holder_class_text(types[h].as_str());
        holder_units.push(HolderUnit { file_name, contents });
        h = h + 1;
    }

    // First pass of the glue unit: the call-handle slots.
    let mut glue = "import java.lang.invoke.MethodHandle;\nimport java.lang.foreign.Arena;\nimport java.lang.foreign.FunctionDescriptor;\nimport java.lang.foreign.Linker;\nimport java.lang.foreign.MemorySegment;\nimport java.lang.foreign.SymbolLookup;\nimport java.lang.foreign.ValueLayout;\n\npublic class RustFns {\n\tstatic MethodHandle getHandle(Linker linker, SymbolLookup lookup, String symbol, FunctionDescriptor descriptor) throws Throwable {\n\tvar addr = lookup.find(symbol).get();\n\t\treturn linker.downcallHandle(addr, descriptor);\n\t}\n\n".to_owned();
    let mut k: usize = 0;
    while k < methods.len()
        invariant
            k <= methods.len(),
            msv.len() == methods@.len(),
            forall|j: int| 0 <= j < methods@.len() ==> methods@[j]@ == msv[j],
            glue@ == glue_header_spec() + concat_seq(
                msv.take(k as int).map_values(|m: MethodV| handle_decl_spec(m)),
            ),
        decreases methods.len() - k,
    {
        glue.append("\tstatic MethodHandle ");
        glue.append(methods[k].name.as_str());
        glue.append("_handle;\n");
        proof {
            let f = |m: MethodV| handle_decl_spec(m);
            lemma_concat_seq_push(msv.take(k as int).map_values(f), handle_decl_spec(
                msv[k as int],
            ));
            assert(msv.take(k as int).map_values(f).push(handle_decl_spec(msv[k as int]))
                =~= msv.take(k + 1).map_values(f));
            assert(glue@ =~= glue_header_spec() + concat_seq(msv.take(k + 1).map_values(f)));
        }
        k = k + 1;
    }

    // Second pass: the link-time initializer block.
    glue.append(
        "\n\t\tstatic {\n\t\ttry {\n\t\t\tvar linker = Linker.nativeLinker();\n\t\t\tvar lib = SymbolLookup.libraryLookup(\"",
    );
    glue.append(libname);
    glue.append("\", Arena.global());\n");
    let ghost glue_after_open = glue@;
    proof {
        assert(msv.take(msv.len() as int) =~= msv);
        assert(glue_after_open =~= glue_header_spec() + handle_decls_spec(msv) + static_open_spec(
            libname@,
        ));
    }
    let mut k2: usize = 0;
    while k2 < methods.len()
        invariant
            k2 <= methods.len(),
            msv.len() == methods@.len(),
            forall|j: int| 0 <= j < methods@.len() ==> methods@[j]@ == msv[j],
            state_wf(sv),
            forall|j: int| 0 <= j < msv.len() ==> method_wf(#[trigger] msv[j]),
            glue@ == glue_after_open + concat_seq(
                msv.take(k2 as int).map_values(|m: MethodV| init_line_spec(m)),
            ),
        decreases methods.len() - k2,
    {
        let m = &methods[k2];
        proof {
            assert(methods@[k2 as int]@ == msv[k2 as int]);
            assert(method_wf(msv[k2 as int]));
        }
        let desc = descriptor_text(m);
        glue.append("\t\t\t");
        glue.append(m.name.as_str());
        glue.append("_handle = getHandle(linker, lib, \"");
        glue.append(m.name.as_str());
        glue.append("\", ");
        glue.append(desc.as_str());
        glue.append(");\n");
        proof {
            let f = |m: MethodV| init_line_spec(m);
            lemma_concat_seq_push(msv.take(k2 as int).map_values(f), init_line_spec(
                msv[k2 as int],
            ));
            assert(msv.take(k2 as int).map_values(f).push(init_line_spec(msv[k2 as int]))
                =~= msv.take(k2 + 1).map_values(f));
            assert(glue@ =~= glue_after_open + concat_seq(msv.take(k2 + 1).map_values(f)));
        }
        k2 = k2 + 1;
    }
    glue.append("\t\t} catch (Throwable e) {\n\t\t\te.printStackTrace();\n\t\t}\n\t}\n\n");

    // Third pass, already rendered, and the closing brace.
    glue.append(wrappers.as_str());
    glue.append("}\n");

    let a = Artifacts { holder_units, glue };
    proof {
        assert(msv.take(msv.len() as int) =~= msv);
        assert(a@.0 =~= holders_spec(sv.types));
        assert(a@.1 =~= glue_spec(msv, libname@, wrappers@));
    }
    Result::Ok(a)
}

/// An empty aggregator, as every fresh run starts from.
pub open spec fn empty_state() -> StateV {
    StateV { types: Seq::empty(), methods: Seq::empty() }
}

/// The aggregator a run of the whole input reaches from a given start, or
/// the failure of the first function that cannot be processed.
pub open spec fn run_states(fns: Seq<FnItemV>, s: StateV) -> Result<StateV, BindErrorV>
    decreases fns.len(),
{
    if fns.len() == 0 {
        Result::Ok(s)
    } else {
        match process_fn_spec(fns[0], s) {
            Result::Err(e) => Result::Err(e),
            Result::Ok(s2) => run_states(fns.skip(1), s2),
        }
    }
}

/// The views of a list of source functions.
pub open spec fn fns_view(fns: Seq<FnItem>) -> Seq<FnItemV> {
    fns.map_values(|f: FnItem| f@)
}

/// What one whole run produces from its input alone: the artifacts of
/// processing every function into an empty aggregator and emitting once,
/// or the first failure.
pub open spec fn generate_bindings_spec(fns: Seq<FnItemV>, lib: Seq<char>) -> Result<
    (Seq<(Seq<char>, Seq<char>)>, Seq<char>),
    BindErrorV,
> {
    match run_states(fns, empty_state()) {
        Result::Err(e) => Result::Err(e),
        Result::Ok(s) => finalize_spec(s, lib),
    }
}

/// Runs the whole pipeline: analyzes every exported function in discovery
/// order into a fresh aggregator, and emits all artifacts once. The first
/// unsupported function fails the batch; nothing is emitted then.
/// Exported names are taken to be unique for the run: a duplicate is not
/// detected, and the glue unit then declares its call handle twice, which
/// surfaces when the glue is compiled.
pub fn generate_bindings(fns: &Vec<FnItem>, libname: &str) -> (r: Result<Artifacts, BindError>)
    ensures
        match r {
            Result::Ok(a) => generate_bindings_spec(fns_view(fns@), libname@) == Result::<
                (Seq<(Seq<char>, Seq<char>)>, Seq<char>),
                BindErrorV,
            >::Ok(a@),
            Result::Err(e) => generate_bindings_spec(fns_view(fns@), libname@) == Result::<
                (Seq<(Seq<char>, Seq<char>)>, Seq<char>),
                BindErrorV,
            >::Err(e@),
        },
{
    let ghost fnsv = fns_view(fns@);
    let mut state = State::new();
    proof {
        assert(state@ =~= empty_state());
        assert(fnsv.skip(0) =~= fnsv);
    }
    let mut i: usize = 0;
    while i < fns.len()
        invariant
            i <= fns.len(),
            fnsv == fns_view(fns@),
            fnsv.len() == fns@.len(),
            state_wf(state@),
            run_states(fnsv.skip(i as int), state@) == run_states(fnsv, empty_state()),
        decreases fns.len() - i,
    {
        proof {
            assert(fnsv.skip(i as int)[0] == fnsv[i as int]);
            assert(fnsv[i as int] == fns@[i as int]@);
            assert(fnsv.skip(i as int).skip(1) =~= fnsv.skip(i + 1));
        }
        match process_fn(&fns[i], &mut state) {
            Result::Err(e) => {
                return Result::Err(e);
            },
            Result::Ok(_) => {},
        }
        i = i + 1;
    }
    proof {
        assert(fnsv.skip(fnsv.len() as int) =~= Seq::<FnItemV>::empty());
    }
    finalize(state, libname)
}

/// No emitted glue references an undefined holder type: for a well-formed
/// aggregator, every generated holder-type name any processed signature
/// touches — a boxed parameter or return, or the boxed pointee beneath a
/// reference — has its unit among the emitted holder files, under its
/// canonical file name and with the canonical class source.
pub proof fn lemma_holders_cover_touched(s: StateV, i: int, j: int, k: int)
    requires
        state_wf(s),
        0 <= i < s.methods.len(),
        0 <= j < sig_descs(s.methods[i].args, s.methods[i].ret).len(),
        0 <= k < holder_names(sig_descs(s.methods[i].args, s.methods[i].ret)[j]).len(),
    ensures
        ({
            let n = holder_names(sig_descs(s.methods[i].args, s.methods[i].ret)[j])[k];
            holders_spec(s.types).contains((n + ".java"@, holder_class_spec(n)))
        }),
{
    let n = holder_names(sig_descs(s.methods[i].args, s.methods[i].ret)[j])[k];
    assert(s.types.contains(n));
    let idx = choose|idx: int| 0 <= idx < s.types.len() && s.types[idx] == n;
    assert(holders_spec(s.types)[idx] == (n + ".java"@, holder_class_spec(n)));
}

/// Regeneration is idempotent: a run is a pure function of its input, so
/// two consecutive runs from an empty aggregator on identical input and
/// library identifier produce identical artifacts, byte for byte.
pub proof fn lemma_idempotent_regeneration(
    fns1: Seq<FnItemV>,
    fns2: Seq<FnItemV>,
    lib1: Seq<char>,
    lib2: Seq<char>,
)
    requires
        fns1 == fns2,
        lib1 == lib2,
    ensures
        generate_bindings_spec(fns1, lib1) == generate_bindings_spec(fns2, lib2),
{
}

} // verus!
