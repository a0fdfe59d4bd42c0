//! The aggregator: the process-scoped accumulator of one run. It holds
//! the deduplicated registry of holder-type names and the order-preserving
//! list of processed functions, is fed one function at a time, and is
//! consumed exactly once by the binding emitter.

use vstd::prelude::*;

use crate::analyze::args_view;
use crate::analyze::extract_args;
use crate::analyze::extract_args_spec;
use crate::analyze::extract_return_type;
use crate::analyze::lemma_extract_from_wf;
use crate::analyze::return_arg_spec;
use crate::canon::addr_holder_name;
use crate::canon::addr_names;
use crate::canon::canon_spec;
use crate::canon::canonicalize_type;
use crate::canon::holder_names;
use crate::classify::arg_wf;
use crate::model::ArgKind;
use crate::model::ArgV;
use crate::model::BindError;
use crate::model::BindErrorV;
use crate::model::FnItem;
use crate::model::FnItemV;
use crate::model::RustFnArg;
use crate::strutil::str_eq;
use crate::stub::sig_descs;

verus! {

/// One processed function as the aggregator keeps it: its exported name,
/// and its signature as the optional return descriptor and the parameter
/// descriptors in call order.
pub struct Method {
    pub name: String,
    pub sig: (Option<RustFnArg>, Vec<RustFnArg>),
}

/// Mathematical shape of a `Method`.
#[verifier::ext_equal]
pub struct MethodV {
    pub name: Seq<char>,
    pub ret: Option<ArgV>,
    pub args: Seq<ArgV>,
}

impl View for Method {
    type V = MethodV;

    open spec fn view(&self) -> MethodV {
        MethodV {
            name: self.name@,
            ret: match self.sig.0 {
                Option::Some(a) => Option::Some(a@),
                Option::None => Option::None,
            },
            args: args_view(self.sig.1@),
        }
    }
}

/// Every descriptor of a method is well formed.
pub open spec fn method_wf(m: MethodV) -> bool {
    forall|i: int| 0 <= i < sig_descs(m.args, m.ret).len() ==> arg_wf(
        #[trigger] sig_descs(m.args, m.ret)[i],
    )
}

/// Registers one canonical name: a name already present leaves the
/// registry unchanged, a new one is appended.
pub open spec fn register(ts: Seq<Seq<char>>, n: Seq<char>) -> Seq<Seq<char>> {
    if ts.contains(n) {
        ts
    } else {
        ts.push(n)
    }
}

/// Registers a list of canonical names, in order.
pub open spec fn register_all(ts: Seq<Seq<char>>, ns: Seq<Seq<char>>) -> Seq<Seq<char>>
    decreases ns.len(),
{
    if ns.len() == 0 {
        ts
    } else {
        register_all(register(ts, ns[0]), ns.skip(1))
    }
}

/// Registering one more name registers it last.
pub proof fn lemma_register_all_push(ts: Seq<Seq<char>>, ns: Seq<Seq<char>>, n: Seq<char>)
    ensures
        register_all(ts, ns.push(n)) == register(register_all(ts, ns), n),
    decreases ns.len(),
{
    if ns.len() == 0 {
        assert(ns.push(n)[0] == n);
        assert(ns.push(n).skip(1) =~= Seq::<Seq<char>>::empty());
        assert(register_all(register(ts, n), ns.push(n).skip(1)) == register(ts, n));
        assert(register_all(ts, ns) == ts);
    } else {
        assert(ns.push(n).skip(1) =~= ns.skip(1).push(n));
        lemma_register_all_push(register(ts, ns[0]), ns.skip(1), n);
        assert(ns.push(n)[0] == ns[0]);
    }
}

/// The holder-type names one descriptor registers, or nothing when a
/// boxed descriptor has no canonical name: its own name for a boxed
/// descriptor, the boxed pointee's name beneath a reference, and none for
/// a primitive.
pub open spec fn desc_names(a: ArgV) -> Option<Seq<Seq<char>>> {
    match a.kind {
        ArgKind::Boxed => match canon_spec(ArgKind::Boxed, a.ty) {
            Option::None => Option::None,
            Option::Some(n) => Option::Some(seq![n]),
        },
        ArgKind::Address => Option::Some(addr_names(a.ty)),
        ArgKind::Primitive => Option::Some(Seq::empty()),
    }
}

/// The holder-type names a descriptor list registers, in order, or
/// nothing when a boxed descriptor has no canonical name.
pub open spec fn boxed_names(descs: Seq<ArgV>) -> Option<Seq<Seq<char>>>
    decreases descs.len(),
{
    if descs.len() == 0 {
        Option::Some(Seq::empty())
    } else {
        let rest = boxed_names(descs.skip(1));
        match desc_names(descs[0]) {
            Option::None => Option::None,
            Option::Some(ns) => match rest {
                Option::None => Option::None,
                Option::Some(r) => Option::Some(ns + r),
            },
        }
    }
}

/// One more descriptor registers its names last.
proof fn lemma_boxed_names_push(descs: Seq<ArgV>, a: ArgV)
    ensures
        boxed_names(descs.push(a)) == match boxed_names(descs) {
            Option::None => Option::<Seq<Seq<char>>>::None,
            Option::Some(ns) => match desc_names(a) {
                Option::None => Option::<Seq<Seq<char>>>::None,
                Option::Some(an) => Option::Some(ns + an),
            },
        },
    decreases descs.len(),
{
    if descs.len() == 0 {
        assert(descs.push(a)[0] == a);
        assert(descs.push(a).skip(1) =~= Seq::<ArgV>::empty());
        assert(boxed_names(Seq::<ArgV>::empty()) == Option::Some(Seq::<Seq<char>>::empty()));
        assert(boxed_names(descs) == Option::Some(Seq::<Seq<char>>::empty()));
        if desc_names(a) is Some {
            let an = desc_names(a)->Some_0;
            assert(boxed_names(descs.push(a)) == Option::Some(an + Seq::<Seq<char>>::empty()));
            assert(an + Seq::<Seq<char>>::empty() =~= Seq::<Seq<char>>::empty() + an);
        }
    } else {
        assert(descs.push(a).skip(1) =~= descs.skip(1).push(a));
        lemma_boxed_names_push(descs.skip(1), a);
        assert(descs.push(a)[0] == descs[0]);
        assert(boxed_names(descs.skip(1).push(a)) == boxed_names(descs.push(a).skip(1)));
        if desc_names(descs[0]) is Some {
            let hn = desc_names(descs[0])->Some_0;
            if boxed_names(descs.skip(1)) is Some {
                let r = boxed_names(descs.skip(1))->Some_0;
                assert(boxed_names(descs) == Option::Some(hn + r));
                if desc_names(a) is Some {
                    let an = desc_names(a)->Some_0;
                    assert(boxed_names(descs.skip(1).push(a)) == Option::Some(r + an));
                    assert(boxed_names(descs.push(a)) == Option::Some(hn + (r + an)));
                    assert(hn + (r + an) =~= (hn + r) + an);
                } else {
                    assert(boxed_names(descs.push(a)) is None);
                }
            } else {
                assert(boxed_names(descs) is None);
                assert(boxed_names(descs.skip(1).push(a)) is None);
                assert(boxed_names(descs.push(a)) is None);
            }
        } else {
            assert(boxed_names(descs) is None);
            assert(boxed_names(descs.push(a)) is None);
        }
    }
}

/// A prefix without names keeps the whole list without names.
proof fn lemma_boxed_names_none_prefix(descs: Seq<ArgV>, k: int)
    requires
        0 <= k <= descs.len(),
        boxed_names(descs.take(k)) is None,
    ensures
        boxed_names(descs) is None,
    decreases descs.len() - k,
{
    if k < descs.len() {
        lemma_boxed_names_push(descs.take(k), descs[k]);
        assert(descs.take(k).push(descs[k]) =~= descs.take(k + 1));
        lemma_boxed_names_none_prefix(descs, k + 1);
    } else {
        assert(descs.take(k) =~= descs);
    }
}

/// The aggregator of one run. A fresh run starts from an empty one; the
/// analyzer's results feed it one function at a time, and the binding
/// emitter consumes it exactly once.
pub struct State {
    types: Vec<String>,
    methods: Vec<Method>,
}

/// Mathematical shape of a `State`: the registry of holder-type names and
/// the processed functions in discovery order.
#[verifier::ext_equal]
pub struct StateV {
    pub types: Seq<Seq<char>>,
    pub methods: Seq<MethodV>,
}

impl View for State {
    type V = StateV;

    closed spec fn view(&self) -> StateV {
        StateV {
            types: self.types.deep_view(),
            methods: Seq::new(self.methods@.len(), |i: int| self.methods@[i]@),
        }
    }
}

/// The aggregator's invariant: the registry holds no duplicate, every
/// processed method is well formed, every boxed descriptor of every
/// processed method has a canonical name, and every holder-type name any
/// descriptor touches — a boxed descriptor's own, or the boxed pointee's
/// beneath a reference — stands in the registry. The last point is what
/// keeps the emitted glue from referencing a holder type that was never
/// emitted.
pub open spec fn state_wf(s: StateV) -> bool {
    &&& s.types.no_duplicates()
    &&& forall|i: int| 0 <= i < s.methods.len() ==> method_wf(#[trigger] s.methods[i])
    &&& forall|i: int, j: int|
        0 <= i < s.methods.len() && 0 <= j < sig_descs(s.methods[i].args, s.methods[i].ret).len()
            && (#[trigger] sig_descs(s.methods[i].args, s.methods[i].ret)[j]).kind
            == ArgKind::Boxed ==> canon_spec(
            ArgKind::Boxed,
            sig_descs(s.methods[i].args, s.methods[i].ret)[j].ty,
        ) is Some
    &&& forall|i: int, j: int, k: int|
        0 <= i < s.methods.len() && 0 <= j < sig_descs(s.methods[i].args, s.methods[i].ret).len()
            && 0 <= k < holder_names(sig_descs(s.methods[i].args, s.methods[i].ret)[j]).len()
            ==> s.types.contains(
            #[trigger] holder_names(sig_descs(s.methods[i].args, s.methods[i].ret)[j])[k],
        )
}

impl State {
    /// A fresh, empty aggregator.
    pub fn new() -> (s: State)
        ensures
            s@.types == Seq::<Seq<char>>::empty(),
            s@.methods == Seq::<MethodV>::empty(),
            state_wf(s@),
    {
        let s = State { types: Vec::new(), methods: Vec::new() };
        proof {
            assert(s@.types =~= Seq::<Seq<char>>::empty());
            assert(s@.methods =~= Seq::<MethodV>::empty());
        }
        s
    }

    /// The registry of holder-type names, in registration order.
    pub fn types(&self) -> (r: &Vec<String>)
        ensures
            r.deep_view() == self@.types,
    {
        &self.types
    }

    /// The processed functions, in discovery order.
    pub fn methods(&self) -> (r: &Vec<Method>)
        ensures
            r@.len() == self@.methods.len(),
            forall|i: int| 0 <= i < r@.len() ==> r@[i]@ == self@.methods[i],
    {
        &self.methods
    }
}

/// Registers one canonical name in the registry, keeping it free of
/// duplicates.
pub(crate) fn register_type(types: &mut Vec<String>, name: String)
    ensures
        final(types).deep_view() == register(old(types).deep_view(), name@),
{
    let mut j: usize = 0;
    while j < types.len()
        invariant
            j <= types.len(),
            *types == *old(types),
            forall|k: int| 0 <= k < j ==> types.deep_view()[k] != name@,
        decreases types.len() - j,
    {
        if str_eq(types[j].as_str(), name.as_str()) {
            proof {
                assert(types.deep_view()[j as int] == name@);
                assert(types.deep_view().contains(name@));
            }
            return ;
        }
        j = j + 1;
    }
    proof {
        assert(!old(types).deep_view().contains(name@)) by {
            if old(types).deep_view().contains(name@) {
                let k = choose|k: int|
                    0 <= k < old(types).deep_view().len() && old(types).deep_view()[k] == name@;
                assert(false);
            }
        }
    }
    let ghost pre = types.deep_view();
    types.push(name);
    proof {
        assert(types.deep_view() =~= pre.push(name@));
    }
}

/// What `process_fn` does to the aggregator: on success the function's
/// descriptors are analyzed, the canonical name of every boxed descriptor
/// is registered in order, and the method is appended; the first failure
/// of analysis or canonicalization fails the whole step.
pub open spec fn process_fn_spec(f: FnItemV, s: StateV) -> Result<StateV, BindErrorV> {
    match extract_args_spec(f) {
        Result::Err(e) => Result::Err(e),
        Result::Ok(args) => match return_arg_spec(f) {
            Result::Err(e) => Result::Err(e),
            Result::Ok(ret) => match boxed_names(sig_descs(args, ret)) {
                Option::None => Result::Err(BindErrorV::NoCanonicalName { func: f.name }),
                Option::Some(ns) => Result::Ok(
                    StateV {
                        types: register_all(s.types, ns),
                        methods: s.methods.push(MethodV { name: f.name, ret, args }),
                    },
                ),
            },
        },
    }
}

/// Analyzes one exported function and feeds the result into the
/// aggregator. On failure the aggregator is left untouched.
pub fn process_fn(f: &FnItem, state: &mut State) -> (r: Result<(), BindError>)
    ensures
        match r {
            Result::Ok(_) => process_fn_spec(f@, old(state)@) == Result::<
                StateV,
                BindErrorV,
            >::Ok(final(state)@),
            Result::Err(e) => process_fn_spec(f@, old(state)@) == Result::<
                StateV,
                BindErrorV,
            >::Err(e@) && final(state)@ == old(state)@,
        },
        r is Ok && state_wf(old(state)@) ==> state_wf(final(state)@),
{
    let args = match extract_args(f) {
        Result::Err(e) => {
            return Result::Err(e);
        },
        Result::Ok(args) => args,
    };
    let ret = match extract_return_type(f) {
        Result::Err(e) => {
            return Result::Err(e);
        },
        Result::Ok(ret) => ret,
    };
    let ghost argsv = args_view(args@);
    let ghost retv = match &ret {
        Option::Some(a) => Option::Some(a@),
        Option::None => Option::<ArgV>::None,
    };
    let ghost descs = sig_descs(argsv, retv);

    // The canonical names of the boxed descriptors, in order.
    let mut names: Vec<String> = Vec::new();
    let mut i: usize = 0;
    while i < args.len()
        invariant
            i <= args.len(),
            argsv == args_view(args@),
            argsv.len() == args@.len(),
            boxed_names(argsv.take(i as int)) == Option::Some(names.deep_view()),
            descs == sig_descs(argsv, retv),
            retv == match ret {
                Option::Some(a) => Option::Some(a@),
                Option::None => Option::<ArgV>::None,
            },
            extract_args_spec(f@) == Result::<Seq<ArgV>, BindErrorV>::Ok(argsv),
            return_arg_spec(f@) == Result::<Option<ArgV>, BindErrorV>::Ok(retv),
        decreases args.len() - i,
    {
        let a = &args[i];
        proof {
            assert(argsv[i as int] == args@[i as int]@);
            lemma_boxed_names_push(argsv.take(i as int), argsv[i as int]);
            assert(argsv.take(i as int).push(argsv[i as int]) =~= argsv.take(i + 1));
        }
        match a.kind {
            ArgKind::Boxed => match canonicalize_type(a) {
                Option::None => {
                    proof {
                        assert(argsv[i as int].kind == ArgKind::Boxed);
                        assert(canon_spec(ArgKind::Boxed, argsv[i as int].ty) is None);
                        assert(boxed_names(argsv.take(i + 1)) is None);
                        lemma_boxed_names_none_prefix(argsv, i + 1);
                        if retv is Some {
                            lemma_boxed_names_push(argsv, retv->Some_0);
                            assert(descs == argsv.push(retv->Some_0));
                        } else {
                            assert(descs == argsv);
                        }
                        assert(boxed_names(descs) is None);
                        assert(process_fn_spec(f@, old(state)@) == Result::<
                            StateV,
                            BindErrorV,
                        >::Err(BindErrorV::NoCanonicalName { func: f@.name }));
                    }
                    return Result::Err(BindError::NoCanonicalName { func: f.name.clone() });
                },
                Option::Some(n) => {
                    let ghost pre = names.deep_view();
                    names.push(n);
                    proof {
                        assert(names.deep_view() =~= pre + seq![names@[pre.len() as int]@]);
                    }
                },
            },
            ArgKind::Address => match addr_holder_name(&a.ty) {
                Option::Some(n) => {
                    let ghost pre = names.deep_view();
                    names.push(n);
                    proof {
                        assert(names.deep_view() =~= pre + seq![names@[pre.len() as int]@]);
                    }
                },
                Option::None => {
                    proof {
                        assert(names.deep_view() + Seq::<Seq<char>>::empty() =~= names.deep_view());
                    }
                },
            },
            ArgKind::Primitive => {
                proof {
                    assert(names.deep_view() + Seq::<Seq<char>>::empty() =~= names.deep_view());
                }
            },
        }
        i = i + 1;
    }
    proof {
        assert(argsv.take(argsv.len() as int) =~= argsv);
    }
    match &ret {
        Option::None => {
            proof {
                assert(descs == argsv);
            }
        },
        Option::Some(a) => {
            proof {
                lemma_boxed_names_push(argsv, a@);
                assert(descs == argsv.push(a@));
            }
            match a.kind {
                ArgKind::Boxed => match canonicalize_type(a) {
                    Option::None => {
                        return Result::Err(BindError::NoCanonicalName { func: f.name.clone() });
                    },
                    Option::Some(n) => {
                        let ghost pre = names.deep_view();
                        names.push(n);
                        proof {
                            assert(names.deep_view() =~= pre + seq![names@[pre.len() as int]@]);
                        }
                    },
                },
                ArgKind::Address => match addr_holder_name(&a.ty) {
                    Option::Some(n) => {
                        let ghost pre = names.deep_view();
                        names.push(n);
                        proof {
                            assert(names.deep_view() =~= pre + seq![names@[pre.len() as int]@]);
                        }
                    },
                    Option::None => {
                        proof {
                            assert(names.deep_view() + Seq::<Seq<char>>::empty()
                                =~= names.deep_view());
                        }
                    },
                },
                ArgKind::Primitive => {
                    proof {
                        assert(names.deep_view() + Seq::<Seq<char>>::empty() =~= names.deep_view());
                    }
                },
            }
        },
    }
    proof {
        assert(boxed_names(descs) == Option::Some(names.deep_view()));
    }

    // Register the names, in order.
    let ghost types0 = state.types.deep_view();
    let ghost methods0 = state@.methods;
    let ghost namesv = names.deep_view();
    let mut k: usize = 0;
    while k < names.len()
        invariant
            k <= names.len(),
            namesv == names.deep_view(),
            state.types.deep_view() == register_all(types0, namesv.take(k as int)),
            state@.methods == methods0,
        decreases names.len() - k,
    {
        proof {
            lemma_register_all_push(types0, namesv.take(k as int), namesv[k as int]);
            assert(namesv.take(k as int).push(namesv[k as int]) =~= namesv.take(k + 1));
        }
        register_type(&mut state.types, names[k].clone());
        k = k + 1;
    }
    proof {
        assert(namesv.take(namesv.len() as int) =~= namesv);
    }

    let m = Method { name: f.name.clone(), sig: (ret, args) };
    let ghost mv = m@;
    state.methods.push(m);
    proof {
        assert(state@.methods =~= methods0.push(mv));
        assert(mv == MethodV { name: f@.name, ret: retv, args: argsv });
        assert(state@.types == register_all(types0, namesv));
        assert(types0 == old(state)@.types);
        assert(methods0 == old(state)@.methods);
        assert(state@ =~= StateV {
            types: register_all(old(state)@.types, namesv),
            methods: old(state)@.methods.push(mv),
        });
        assert(process_fn_spec(f@, old(state)@) == Result::<StateV, BindErrorV>::Ok(state@));
        lemma_process_fn_wf(f@, old(state)@, state@);
    }
    Result::Ok(())
}

/// A successful step keeps the aggregator's invariant.
proof fn lemma_process_fn_wf(f: FnItemV, s0: StateV, s1: StateV)
    requires
        process_fn_spec(f, s0) == Result::<StateV, BindErrorV>::Ok(s1),
    ensures
        state_wf(s0) ==> state_wf(s1),
{
    if state_wf(s0) {
        let args = extract_args_spec(f)->Ok_0;
        let ret = return_arg_spec(f)->Ok_0;
        let ns = boxed_names(sig_descs(args, ret))->Some_0;
        lemma_register_all_props(s0.types, ns);
        lemma_extract_from_wf(f.name, f.params, 0);
        let m = MethodV { name: f.name, ret, args };
        assert(method_wf(m)) by {
            assert forall|i: int| 0 <= i < sig_descs(m.args, m.ret).len() implies arg_wf(
                #[trigger] sig_descs(m.args, m.ret)[i],
            ) by {
                if i < args.len() {
                    assert(sig_descs(m.args, m.ret)[i] == args[i]);
                } else {
                    assert(sig_descs(m.args, m.ret)[i] == ret->Some_0);
                }
            }
        }
        lemma_boxed_names_registered(s0.types, sig_descs(args, ret));
        assert forall|i: int, j: int|
            0 <= i < s1.methods.len() && 0 <= j < sig_descs(
                s1.methods[i].args,
                s1.methods[i].ret,
            ).len() && (#[trigger] sig_descs(s1.methods[i].args, s1.methods[i].ret)[j]).kind
            == ArgKind::Boxed implies canon_spec(
            ArgKind::Boxed,
            sig_descs(s1.methods[i].args, s1.methods[i].ret)[j].ty,
        ) is Some by {
            if i < s0.methods.len() {
                assert(s1.methods[i] == s0.methods[i]);
            } else {
                assert(s1.methods[i] == m);
            }
        }
        assert forall|i: int, j: int, k: int|
            0 <= i < s1.methods.len() && 0 <= j < sig_descs(
                s1.methods[i].args,
                s1.methods[i].ret,
            ).len() && 0 <= k < holder_names(
                sig_descs(s1.methods[i].args, s1.methods[i].ret)[j],
            ).len() implies s1.types.contains(
            #[trigger] holder_names(sig_descs(s1.methods[i].args, s1.methods[i].ret)[j])[k],
        ) by {
            if i < s0.methods.len() {
                assert(s1.methods[i] == s0.methods[i]);
                let x = holder_names(sig_descs(s0.methods[i].args, s0.methods[i].ret)[j])[k];
                assert(s0.types.contains(x));
                assert(s1.types.contains(x));
            } else {
                assert(s1.methods[i] == m);
            }
        }
    }
}

/// Registration keeps the registry free of duplicates, keeps every name
/// already present, and makes every registered name present.
proof fn lemma_register_all_props(ts: Seq<Seq<char>>, ns: Seq<Seq<char>>)
    ensures
        ts.no_duplicates() ==> register_all(ts, ns).no_duplicates(),
        forall|n: Seq<char>| ts.contains(n) ==> #[trigger] register_all(ts, ns).contains(n),
        forall|i: int| 0 <= i < ns.len() ==> register_all(ts, ns).contains(#[trigger] ns[i]),
    decreases ns.len(),
{
    if ns.len() > 0 {
        lemma_register_props(ts, ns[0]);
        lemma_register_all_props(register(ts, ns[0]), ns.skip(1));
        assert(register_all(ts, ns) == register_all(register(ts, ns[0]), ns.skip(1)));
        assert forall|n: Seq<char>| ts.contains(n) implies #[trigger] register_all(
            ts,
            ns,
        ).contains(n) by {
            assert(register(ts, ns[0]).contains(n));
            assert(register_all(register(ts, ns[0]), ns.skip(1)).contains(n));
        }
        assert forall|i: int| 0 <= i < ns.len() implies register_all(ts, ns).contains(
            #[trigger] ns[i],
        ) by {
            if i == 0 {
                assert(register(ts, ns[0]).contains(ns[0]));
                assert(register_all(register(ts, ns[0]), ns.skip(1)).contains(ns[0]));
            } else {
                assert(ns.skip(1)[i - 1] == ns[i]);
                assert(register_all(register(ts, ns[0]), ns.skip(1)).contains(ns[i]));
            }
        }
    }
}

/// Registering one name keeps the registry free of duplicates, keeps
/// every present name, and makes the name present.
proof fn lemma_register_props(ts: Seq<Seq<char>>, n: Seq<char>)
    ensures
        ts.no_duplicates() ==> register(ts, n).no_duplicates(),
        forall|x: Seq<char>| ts.contains(x) ==> #[trigger] register(ts, n).contains(x),
        register(ts, n).contains(n),
{
    if !ts.contains(n) {
        assert(ts.push(n)[ts.len() as int] == n);
        assert forall|x: Seq<char>| ts.contains(x) implies #[trigger] ts.push(n).contains(x) by {
            let k = choose|k: int| 0 <= k < ts.len() && ts[k] == x;
            assert(ts.push(n)[k] == x);
        }
    }
}

/// After a step, every holder name the step's own function touches is
/// registered.
proof fn lemma_boxed_names_registered(ts: Seq<Seq<char>>, descs: Seq<ArgV>)
    requires
        boxed_names(descs) is Some,
    ensures
        forall|j: int|
            0 <= j < descs.len() && (#[trigger] descs[j]).kind == ArgKind::Boxed ==> canon_spec(
                ArgKind::Boxed,
                descs[j].ty,
            ) is Some,
        forall|j: int, k: int|
            0 <= j < descs.len() && 0 <= k < holder_names(descs[j]).len() ==> register_all(
                ts,
                boxed_names(descs)->Some_0,
            ).contains(#[trigger] holder_names(descs[j])[k]),
{
    let ns = boxed_names(descs)->Some_0;
    lemma_register_all_props(ts, ns);
    lemma_boxed_names_cover(descs);
    assert forall|j: int, k: int|
        0 <= j < descs.len() && 0 <= k < holder_names(descs[j]).len() implies register_all(
        ts,
        ns,
    ).contains(#[trigger] holder_names(descs[j])[k]) by {
        let x = holder_names(descs[j])[k];
        assert(ns.contains(x));
        let idx = choose|idx: int| 0 <= idx < ns.len() && ns[idx] == x;
        assert(register_all(ts, ns).contains(ns[idx]));
    }
}

/// The name list of a descriptor list covers every holder name of every
/// descriptor, and gives every boxed descriptor a canonical name.
proof fn lemma_boxed_names_cover(descs: Seq<ArgV>)
    requires
        boxed_names(descs) is Some,
    ensures
        forall|j: int|
            0 <= j < descs.len() && (#[trigger] descs[j]).kind == ArgKind::Boxed ==> canon_spec(
                ArgKind::Boxed,
                descs[j].ty,
            ) is Some,
        forall|j: int, k: int|
            0 <= j < descs.len() && 0 <= k < holder_names(descs[j]).len() ==> boxed_names(
                descs,
            )->Some_0.contains(#[trigger] holder_names(descs[j])[k]),
    decreases descs.len(),
{
    if descs.len() > 0 {
        lemma_boxed_names_cover(descs.skip(1));
        let ns = boxed_names(descs)->Some_0;
        let hn = desc_names(descs[0])->Some_0;
        let rest = boxed_names(descs.skip(1))->Some_0;
        assert(ns == hn + rest);
        assert(holder_names(descs[0]) == hn);
        assert forall|j: int|
            0 <= j < descs.len() && (#[trigger] descs[j]).kind == ArgKind::Boxed implies canon_spec(
            ArgKind::Boxed,
            descs[j].ty,
        ) is Some by {
            if j > 0 {
                assert(descs.skip(1)[j - 1] == descs[j]);
            }
        }
        assert forall|j: int, k: int|
            0 <= j < descs.len() && 0 <= k < holder_names(descs[j]).len() implies ns.contains(
            #[trigger] holder_names(descs[j])[k],
        ) by {
            if j == 0 {
                assert(ns[k] == hn[k]);
            } else {
                assert(descs.skip(1)[j - 1] == descs[j]);
                let x = holder_names(descs[j])[k];
                assert(rest.contains(x));
                let idx = choose|idx: int| 0 <= idx < rest.len() && rest[idx] == x;
                assert(ns[hn.len() + idx] == x);
            }
        }
    }
}

/// How often a name occurs in the registry.
pub open spec fn count_in(ts: Seq<Seq<char>>, n: Seq<char>) -> nat
    decreases ts.len(),
{
    if ts.len() == 0 {
        0
    } else {
        (if ts[0] == n {
            1nat
        } else {
            0nat
        }) + count_in(ts.skip(1), n)
    }
}

proof fn lemma_count_in_absent(ts: Seq<Seq<char>>, n: Seq<char>)
    requires
        !ts.contains(n),
    ensures
        count_in(ts, n) == 0,
    decreases ts.len(),
{
    if ts.len() > 0 {
        assert(!ts.skip(1).contains(n)) by {
            if ts.skip(1).contains(n) {
                let k = choose|k: int| 0 <= k < ts.skip(1).len() && ts.skip(1)[k] == n;
                assert(ts[k + 1] == n);
            }
        }
        lemma_count_in_absent(ts.skip(1), n);
    }
}

/// A registry without duplicates holds any present name exactly once.
proof fn lemma_count_in_unique(ts: Seq<Seq<char>>, n: Seq<char>)
    requires
        ts.no_duplicates(),
        ts.contains(n),
    ensures
        count_in(ts, n) == 1,
    decreases ts.len(),
{
    assert(ts.len() > 0);
    if ts[0] == n {
        assert(!ts.skip(1).contains(n)) by {
            if ts.skip(1).contains(n) {
                let k = choose|k: int| 0 <= k < ts.skip(1).len() && ts.skip(1)[k] == n;
                assert(ts[k + 1] == n);
                assert(ts[0] == ts[k + 1]);
            }
        }
        lemma_count_in_absent(ts.skip(1), n);
    } else {
        assert(ts.skip(1).contains(n)) by {
            let k = choose|k: int| 0 <= k < ts.len() && ts[k] == n;
            assert(ts.skip(1)[k - 1] == n);
        }
        assert(ts.skip(1).no_duplicates());
        lemma_count_in_unique(ts.skip(1), n);
    }
}

/// Canonicalization is deterministic and the registry deduplicates:
/// canonicalizing equal descriptors yields equal names, and registering a
/// name a second time leaves the registry exactly as it was, so it does
/// not grow.
pub proof fn lemma_canonicalization_idempotent(a1: ArgV, a2: ArgV, ts: Seq<Seq<char>>)
    requires
        a1 == a2,
    ensures
        canon_spec(a1.kind, a1.ty) == canon_spec(a2.kind, a2.ty),
        forall|n: Seq<char>| #[trigger] register(register(ts, n), n) == register(ts, n),
{
    assert forall|n: Seq<char>| #[trigger] register(register(ts, n), n) == register(ts, n) by {
        lemma_register_props(ts, n);
    }
}

/// A registry fed through any run holds exactly one entry for a boxed
/// type's canonical name as soon as one function used the type, however
/// many functions did.
pub proof fn lemma_registry_dedup(s: StateV, n: Seq<char>)
    requires
        state_wf(s),
        s.types.contains(n),
    ensures
        count_in(s.types, n) == 1,
{
    lemma_count_in_unique(s.types, n);
}

} // verus!
