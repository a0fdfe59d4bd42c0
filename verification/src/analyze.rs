//! The signature analyzer: walks one function's declared parameters and
//! return type, classifies each, and produces the descriptors that every
//! later emission step works from. The first unsupported construct fails
//! the whole function, located by parameter position.

use vstd::prelude::*;

use crate::classify::classify;
use crate::model::ArgKind;
use crate::model::ArgV;
use crate::model::BindError;
use crate::model::BindErrorV;
use crate::model::FnItem;
use crate::model::FnItemV;
use crate::model::FnParam;
use crate::model::FnParamV;
use crate::model::ParamPat;
use crate::model::ParamPatV;
use crate::model::RustFnArg;

verus! {

/// The descriptor one declared parameter analyzes to, or the failure it
/// raises: a receiver, a destructuring pattern, and an unclassifiable type
/// each fail, in that order of discovery.
pub open spec fn param_result(name: Seq<char>, p: FnParamV, i: int) -> Result<ArgV, BindErrorV> {
    match p {
        FnParamV::Receiver => Result::Err(BindErrorV::Receiver { func: name, param: i }),
        FnParamV::Typed { pat, ty } => match pat {
            ParamPatV::Other => Result::Err(
                BindErrorV::UnsupportedPattern { func: name, param: i },
            ),
            ParamPatV::Ident(id) => match classify(ty) {
                Option::None => Result::Err(BindErrorV::UnsupportedType { func: name, param: i }),
                Option::Some(kind) => Result::Ok(ArgV { ident: id, kind, ty }),
            },
        },
    }
}

/// Analyzes the parameters from position `i` on; the first failing
/// parameter decides the result.
pub open spec fn extract_from(name: Seq<char>, params: Seq<FnParamV>, i: int) -> Result<
    Seq<ArgV>,
    BindErrorV,
>
    decreases params.len() - i,
{
    if i < 0 || i >= params.len() {
        Result::Ok(Seq::empty())
    } else {
        match param_result(name, params[i], i) {
            Result::Err(e) => Result::Err(e),
            Result::Ok(a) => match extract_from(name, params, i + 1) {
                Result::Err(e) => Result::Err(e),
                Result::Ok(rest) => Result::Ok(seq![a] + rest),
            },
        }
    }
}

/// What `extract_args` returns: one descriptor per parameter, in call
/// order, or the failure of the first unsupported parameter.
pub open spec fn extract_args_spec(f: FnItemV) -> Result<Seq<ArgV>, BindErrorV> {
    extract_from(f.name, f.params, 0)
}

/// The descriptor views of a descriptor list.
pub open spec fn args_view(args: Seq<RustFnArg>) -> Seq<ArgV> {
    args.map_values(|a: RustFnArg| a@)
}

/// Analyzes one function's declared parameters into descriptors, in call
/// order. Fails on the first receiver, destructuring pattern, or type
/// outside the supported grammar.
pub fn extract_args(f: &FnItem) -> (r: Result<Vec<RustFnArg>, BindError>)
    ensures
        match r {
            Result::Ok(args) => extract_args_spec(f@) == Result::<Seq<ArgV>, BindErrorV>::Ok(
                args_view(args@),
            ),
            Result::Err(e) => extract_args_spec(f@) == Result::<Seq<ArgV>, BindErrorV>::Err(e@),
        },
{
    let ghost name = f.name@;
    let ghost paramsv = f@.params;
    let mut args: Vec<RustFnArg> = Vec::new();
    let mut i: usize = 0;
    while i < f.params.len()
        invariant
            i <= f.params.len(),
            paramsv == f@.params,
            name == f.name@,
            paramsv.len() == f.params@.len(),
            args_view(args@).len() == i as int,
            forall|j: int| 0 <= j < i ==> param_result(name, paramsv[j], j) == Result::<
                ArgV,
                BindErrorV,
            >::Ok(args_view(args@)[j]),
        decreases f.params.len() - i,
    {
        let param = &f.params[i];
        proof {
            assert(param@ == paramsv[i as int]);
        }
        match param {
            FnParam::Receiver => {
                proof {
                    lemma_extract_first_err(name, paramsv, i as int, args_view(args@));
                }
                return Result::Err(
                    BindError::Receiver { func: f.name.clone(), param: i },
                );
            },
            FnParam::Typed { pat, ty } => {
                match pat {
                    ParamPat::Other => {
                        proof {
                            lemma_extract_first_err(name, paramsv, i as int, args_view(args@));
                        }
                        return Result::Err(
                            BindError::UnsupportedPattern { func: f.name.clone(), param: i },
                        );
                    },
                    ParamPat::Ident(id) => {
                        match ArgKind::from_type(ty) {
                            Option::None => {
                                proof {
                                    lemma_extract_first_err(
                                        name,
                                        paramsv,
                                        i as int,
                                        args_view(args@),
                                    );
                                }
                                return Result::Err(
                                    BindError::UnsupportedType { func: f.name.clone(), param: i },
                                );
                            },
                            Option::Some(kind) => {
                                let arg = RustFnArg { ident: id.clone(), kind, ty: ty.clone() };
                                proof {
                                    assert(param_result(name, paramsv[i as int], i as int)
                                        == Result::<ArgV, BindErrorV>::Ok(arg@));
                                }
                                args.push(arg);
                                proof {
                                    assert(args_view(args@) =~= args_view(args@.take(
                                        args@.len() - 1,
                                    )).push(args@[args@.len() - 1]@));
                                }
                            },
                        }
                    },
                }
            },
        }
        i = i + 1;
    }
    proof {
        lemma_extract_all_ok(name, paramsv, args_view(args@));
    }
    Result::Ok(args)
}

/// If every parameter before position `i` analyzed to the matching
/// descriptor and parameter `i` fails, the whole analysis fails with that
/// parameter's error.
proof fn lemma_extract_first_err(name: Seq<char>, params: Seq<FnParamV>, i: int, pre: Seq<ArgV>)
    requires
        0 <= i < params.len(),
        pre.len() == i,
        forall|j: int| 0 <= j < i ==> param_result(name, params[j], j) == Result::<
            ArgV,
            BindErrorV,
        >::Ok(pre[j]),
        param_result(name, params[i], i) is Err,
    ensures
        extract_from(name, params, 0) == Result::<Seq<ArgV>, BindErrorV>::Err(
            param_result(name, params[i], i)->Err_0,
        ),
    decreases i,
{
    if i == 0 {
    } else {
        lemma_extract_shift_err(name, params, 0, i);
    }
}

/// From any start position at or before a failing parameter whose earlier
/// parameters all succeed, the analysis fails with that parameter's error.
proof fn lemma_extract_shift_err(name: Seq<char>, params: Seq<FnParamV>, k: int, i: int)
    requires
        0 <= k <= i < params.len(),
        forall|j: int| 0 <= j < i ==> param_result(name, params[j], j) is Ok,
        param_result(name, params[i], i) is Err,
    ensures
        extract_from(name, params, k) == Result::<Seq<ArgV>, BindErrorV>::Err(
            param_result(name, params[i], i)->Err_0,
        ),
    decreases i - k,
{
    if k == i {
    } else {
        lemma_extract_shift_err(name, params, k + 1, i);
    }
}

/// If every parameter analyzed to the matching descriptor, the whole
/// analysis succeeds with exactly those descriptors.
proof fn lemma_extract_all_ok(name: Seq<char>, params: Seq<FnParamV>, all: Seq<ArgV>)
    requires
        all.len() == params.len(),
        forall|j: int| 0 <= j < params.len() ==> param_result(name, params[j], j) == Result::<
            ArgV,
            BindErrorV,
        >::Ok(all[j]),
    ensures
        extract_from(name, params, 0) == Result::<Seq<ArgV>, BindErrorV>::Ok(all),
{
    lemma_extract_shift_ok(name, params, all, 0);
    assert(all.skip(0) =~= all);
}

proof fn lemma_extract_shift_ok(name: Seq<char>, params: Seq<FnParamV>, all: Seq<ArgV>, k: int)
    requires
        0 <= k <= params.len(),
        all.len() == params.len(),
        forall|j: int| 0 <= j < params.len() ==> param_result(name, params[j], j) == Result::<
            ArgV,
            BindErrorV,
        >::Ok(all[j]),
    ensures
        extract_from(name, params, k) == Result::<Seq<ArgV>, BindErrorV>::Ok(all.skip(k)),
    decreases params.len() - k,
{
    if k >= params.len() {
        assert(all.skip(k) =~= Seq::empty());
    } else {
        lemma_extract_shift_ok(name, params, all, k + 1);
        assert(seq![all[k]] + all.skip(k + 1) =~= all.skip(k));
    }
}

/// Every descriptor a successful analysis produces is well formed: its
/// policy tag is exactly what classification assigns to its type.
pub proof fn lemma_extract_from_wf(name: Seq<char>, params: Seq<FnParamV>, i: int)
    ensures
        extract_from(name, params, i) matches Result::Ok(args) ==> forall|j: int|
            0 <= j < args.len() ==> crate::classify::arg_wf(#[trigger] args[j]),
    decreases params.len() - i,
{
    if 0 <= i < params.len() {
        lemma_extract_from_wf(name, params, i + 1);
        if extract_from(name, params, i) is Ok {
            let args = extract_from(name, params, i)->Ok_0;
            let rest = extract_from(name, params, i + 1)->Ok_0;
            let a = param_result(name, params[i], i)->Ok_0;
            assert(args == seq![a] + rest);
            assert forall|j: int| 0 <= j < args.len() implies crate::classify::arg_wf(
                #[trigger] args[j],
            ) by {
                if j == 0 {
                    assert(args[0] == a);
                } else {
                    assert(args[j] == rest[j - 1]);
                }
            }
        }
    }
}

/// What `extract_return_type` returns: no descriptor for a function
/// without a declared return type; otherwise a descriptor under the fixed
/// synthetic identifier, or a failure when the declared type cannot be
/// classified.
pub open spec fn return_arg_spec(f: FnItemV) -> Result<Option<ArgV>, BindErrorV> {
    match f.ret {
        Option::None => Result::Ok(Option::None),
        Option::Some(t) => match classify(t) {
            Option::None => Result::Err(BindErrorV::InvalidReturnType { func: f.name }),
            Option::Some(kind) => Result::Ok(
                Option::Some(ArgV { ident: "return_type"@, kind, ty: t }),
            ),
        },
    }
}

/// Analyzes one function's declared return type into a descriptor under
/// the fixed synthetic identifier. Fails when the declared type cannot be
/// classified.
pub fn extract_return_type(f: &FnItem) -> (r: Result<Option<RustFnArg>, BindError>)
    ensures
        match r {
            Result::Ok(ret) => return_arg_spec(f@) == Result::<Option<ArgV>, BindErrorV>::Ok(
                match ret {
                    Option::Some(a) => Option::Some(a@),
                    Option::None => Option::<ArgV>::None,
                },
            ),
            Result::Err(e) => return_arg_spec(f@) == Result::<Option<ArgV>, BindErrorV>::Err(e@),
        },
{
    match &f.ret {
        Option::None => Result::Ok(Option::None),
        Option::Some(t) => {
            match ArgKind::from_type(t) {
                Option::None => Result::Err(
                    BindError::InvalidReturnType { func: f.name.clone() },
                ),
                Option::Some(kind) => Result::Ok(
                    Option::Some(
                        RustFnArg { ident: "return_type".to_owned(), kind, ty: t.clone() },
                    ),
                ),
            }
        },
    }
}

} // verus!
