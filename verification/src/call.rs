//! Calls and constructions: the result type of a call or `new` expression.

use vstd::prelude::*;
use crate::ast::{Arg, Expr};
use crate::copy::{copy_member, copy_opt_types, copy_type};
use crate::errors::{errors, result_view, Diag, Error, ErrorV, Unsupported};
use crate::expand::{expand_type, too_deep, types_result};
use crate::expr::type_of;
use crate::model::{ExtractKind, TypeOfMode};
use crate::ops::{
    assign_type, check_arity, expr_key, infer_args, is_word, no_errors, no_members, no_types,
    or_any, push_error, push_member, push_type, same_member, substitute,
};
use crate::rules::{
    arg_types, by_arity_from, call_expr, call_member, call_method_of, callee_key, check_args,
    check_method_call as check_method_call_spec, class_method_from, extract as extract_spec,
    extract_union, instantiated_ret, is_to_string, methods_from, no_signature, object_members,
    required_module, search_signatures, try_instantiate as try_instantiate_spec,
    try_instantiate_simple as try_instantiate_simple_spec,
};
use crate::scope::Env;
use crate::span::Span;
use crate::state::State;
use crate::types::{
    fn_params, members, opt_strs, opt_type, opt_types, strs, types, FnParam, Key, Keyword, Lit,
    Member, Type,
};

verus! {

fn missing_signature(span: Span, kind: ExtractKind) -> (e: Error)
    ensures
        e@ == no_signature(span, kind),
{
    match kind {
        ExtractKind::Call => Error::Diag(Diag::NoCallSignature { span }),
        ExtractKind::New => Error::Diag(Diag::NoNewSignature { span }),
    }
}

fn calls(kind: ExtractKind) -> (b: bool)
    ensures
        b == (kind == ExtractKind::Call),
{
    match kind {
        ExtractKind::Call => true,
        ExtractKind::New => false,
    }
}

/// The types of the arguments of a call.
fn type_of_args(env: &Env, st: &mut State, args: &Vec<Arg>, fuel: usize) -> (r: Result<
    Vec<Type>,
    Error,
>)
    ensures
        (types_result(r), final(st)@) == arg_types(
            env@,
            old(st)@,
            args@,
            0,
            Seq::empty(),
            fuel as nat,
        ),
    decreases fuel, 1nat, args.len(),
{
    let mut acc = no_types();
    let ghost st0 = st@;
    let mut i: usize = 0;
    while i < args.len()
        invariant
            st0 == old(st)@,
            i <= args.len(),
            arg_types(env@, st0, args@, 0, Seq::empty(), fuel as nat) == arg_types(
                env@,
                st@,
                args@,
                i as int,
                types(acc@),
                fuel as nat,
            ),
        decreases args.len() - i,
    {
        match type_of(env, st, &args[i].expr, TypeOfMode::RValue, fuel) {
            Ok(t) => {
                push_type(&mut acc, t);
            },
            Err(e) => {
                return Err(e);
            },
        }
        i += 1;
    }
    Ok(acc)
}

/// Checks the arguments of a call against the parameters of a signature.
fn check_arguments(
    env: &Env,
    st: &mut State,
    span: Span,
    params: &Vec<FnParam>,
    args: &Vec<Arg>,
    fuel: usize,
) -> (r: Result<(), Error>)
    ensures
        (
            match r {
                Ok(_) => Ok::<(), ErrorV>(()),
                Err(e) => Err(e@),
            },
            final(st)@,
        ) == check_args(env@, old(st)@, span, fn_params(params@), args@, 0, fuel as nat),
    decreases fuel, 1nat, params.len(),
{
    let ghost st0 = st@;
    let mut i: usize = 0;
    while i < params.len()
        invariant
            st0 == old(st)@,
            i <= params.len(),
            check_args(env@, st0, span, fn_params(params@), args@, 0, fuel as nat) == check_args(
                env@,
                st@,
                span,
                fn_params(params@),
                args@,
                i as int,
                fuel as nat,
            ),
        decreases params.len() - i,
    {
        assert(fn_params(params@)[i as int] == params@[i as int]@);
        let declared = copy_type(&params[i].ty);
        let lhs = match expand_type(env, st, span, declared, fuel) {
            Ok(t) => t,
            Err(e) => {
                return Err(e);
            },
        };
        if i < args.len() {
            let at = match type_of(env, st, &args[i].expr, TypeOfMode::RValue, fuel) {
                Ok(t) => t,
                Err(e) => {
                    return Err(e);
                },
            };
            match assign_type(&lhs, &at, args[i].expr.span()) {
                Ok(_) => {},
                Err(e) => {
                    return Err(e);
                },
            }
        }
        i += 1;
    }
    Ok(())
}

/// The result type of a call of the method `m`: its declared return type,
/// or `any`, once each argument is assignable to its parameter.
pub fn check_method_call(
    env: &Env,
    st: &mut State,
    span: Span,
    m: &Member,
    args: &Vec<Arg>,
    fuel: usize,
) -> (r: Result<Type, Error>)
    ensures
        (result_view(r), final(st)@) == check_method_call_spec(
            env@,
            old(st)@,
            span,
            m@,
            args@,
            fuel as nat,
        ),
    decreases fuel, 0nat, 0nat,
{
    if fuel == 0 {
        return Err(too_deep(span));
    }
    match m {
        Member::Method { params, ret, .. } => match check_arguments(
            env,
            st,
            span,
            params,
            args,
            fuel - 1,
        ) {
            Ok(_) => Ok(or_any(ret)),
            Err(e) => Err(e),
        },
        _ => Err(Error::Diag(Diag::Unsupported { span, what: Unsupported::NoMethod })),
    }
}

fn to_string_name(prop: &Expr, computed: bool) -> (b: bool)
    ensures
        b == is_to_string(*prop, computed),
{
    match prop {
        Expr::Ident { sym, .. } => !computed && is_word(sym, "toString"),
        Expr::Lit { lit: Lit::Str(s), .. } => is_word(s, "toString"),
        _ => false,
    }
}

fn key_of_callee(prop: &Expr, computed: bool) -> (k: Key)
    ensures
        k@ == callee_key(*prop, computed),
{
    match prop {
        Expr::Ident { sym, .. } => Key::Ident(sym.clone()),
        _ => if computed {
            expr_key(prop, true)
        } else {
            Key::Opaque
        },
    }
}

fn module_of_require(args: &Vec<Arg>) -> (r: Option<&String>)
    ensures
        match r {
            Some(s) => required_module(args@) == Some(s@),
            None => required_module(args@).is_none(),
        },
{
    if args.len() == 0 {
        None
    } else {
        match &args[0].expr {
            Expr::Lit { lit: Lit::Str(s), .. } => Some(s),
            _ => None,
        }
    }
}

fn is_require(callee: &Expr) -> (b: bool)
    ensures
        b == (*callee matches Expr::Ident { sym, .. } && sym@ == "require"@),
{
    match callee {
        Expr::Ident { sym, .. } => is_word(sym, "require"),
        _ => false,
    }
}

/// Computes the result type of a call or `new` expression.
///
/// For a plain callee the type of the callee is inferred and expanded, and
/// the result is extracted from it. For a callee that is a member access
/// the type of the object is inferred and expanded, `number` and `string`
/// stand for their built-in interfaces, and the method that the name means
/// is called. A call of `toString` gives `string` whatever the object is.
pub fn extract_call_new_expr_member(
    env: &Env,
    st: &mut State,
    callee: &Expr,
    kind: ExtractKind,
    args: &Vec<Arg>,
    type_args: &Option<Vec<Type>>,
    fuel: usize,
) -> (r: Result<Type, Error>)
    ensures
        (result_view(r), final(st)@) == call_expr(
            env@,
            old(st)@,
            *callee,
            kind,
            args@,
            opt_types(*type_args),
            fuel as nat,
        ),
    decreases fuel, 0nat, 0nat,
{
    let span = callee.span();
    if fuel == 0 {
        return Err(too_deep(span));
    }
    let f = fuel - 1;
    match callee {
        Expr::Member { obj, prop, computed, .. } => {
            if to_string_name(prop, *computed) {
                return Ok(Type::Keyword(Keyword::String));
            }
            let t = match type_of(env, st, obj, TypeOfMode::RValue, f) {
                Ok(t) => t,
                Err(e) => {
                    return Err(e);
                },
            };
            let obj_ty = match expand_type(env, st, span, t.generalize_lit(), f) {
                Ok(t) => t,
                Err(e) => {
                    return Err(e);
                },
            };
            call_of_member(env, st, span, obj_ty, &key_of_callee(prop, *computed), *computed, kind, args, f)
        },
        _ => {
            if is_require(callee) {
                let found = match module_of_require(args) {
                    Some(name) => env.import(name).is_some(),
                    None => false,
                };
                if found {
                    return Err(
                        Error::Diag(Diag::Unsupported { span, what: Unsupported::Require }),
                    );
                } else {
                    return Err(Error::Diag(Diag::UndefinedSymbol { span }));
                }
            }
            let t = match type_of(env, st, callee, TypeOfMode::RValue, f) {
                Ok(t) => t,
                Err(e) => {
                    return Err(e);
                },
            };
            let ty = match expand_type(env, st, span, t, f) {
                Ok(t) => t,
                Err(e) => {
                    return Err(e);
                },
            };
            extract(env, st, span, &ty, kind, args, type_args, f)
        },
    }
}

fn class_method(body: &Vec<Member>, key: &Key) -> (r: Option<Type>)
    ensures
        opt_type(r) == class_method_from(members(body@), key@, 0),
{
    let mut i: usize = 0;
    while i < body.len()
        invariant
            i <= body.len(),
            class_method_from(members(body@), key@, 0) == class_method_from(
                members(body@),
                key@,
                i as int,
            ),
        decreases body.len() - i,
    {
        assert(members(body@)[i as int] == body@[i as int]@);
        match &body[i] {
            Member::Method { key: k, ret, .. } => {
                if same_member(k, key) {
                    return Some(or_any(ret));
                }
            },
            _ => {},
        }
        i += 1;
    }
    None
}

/// The result type of a call of the member that `key` names of an object
/// of the expanded type `obj`.
fn call_of_member(
    env: &Env,
    st: &mut State,
    span: Span,
    obj: Type,
    key: &Key,
    computed: bool,
    kind: ExtractKind,
    args: &Vec<Arg>,
    fuel: usize,
) -> (r: Result<Type, Error>)
    ensures
        (result_view(r), final(st)@) == call_member(
            env@,
            old(st)@,
            span,
            obj@,
            key@,
            computed,
            kind,
            args@,
            fuel as nat,
        ),
    decreases fuel, 0nat, 0nat,
{
    if fuel == 0 {
        return Err(too_deep(span));
    }
    let f = fuel - 1;
    let redirected = match obj {
        Type::Keyword(Keyword::Number) => {
            let name = "Number".to_owned();
            match env.builtin_type(&name) {
                Some(t) => Some(copy_type(t)),
                None => None,
            }
        },
        Type::Keyword(Keyword::String) => {
            let name = "String".to_owned();
            match env.builtin_type(&name) {
                Some(t) => Some(copy_type(t)),
                None => None,
            }
        },
        t => Some(t),
    };
    let fallback = if computed {
        Error::Diag(Diag::Unsupported { span, what: Unsupported::ComputedCall })
    } else {
        missing_signature(span, kind)
    };
    match redirected {
        None => Err(Error::Diag(Diag::NameNotFound { span })),
        Some(Type::Function { ret, .. }) => if calls(kind) {
            Ok(*ret)
        } else {
            Err(fallback)
        },
        Some(Type::Keyword(Keyword::Any)) => Ok(Type::Keyword(Keyword::Any)),
        Some(Type::Interface { body, .. }) => call_method(env, st, span, &body, key, kind, args, f),
        Some(Type::TypeLit(ms)) => call_method(env, st, span, &ms, key, kind, args, f),
        Some(Type::Class { body, .. }) => match class_method(&body, key) {
            Some(t) => Ok(t),
            None => Err(fallback),
        },
        Some(Type::Keyword(Keyword::Symbol)) => {
            let name = "Symbol".to_owned();
            match env.builtin_type(&name) {
                Some(t) => Ok(copy_type(t)),
                None => Err(fallback),
            }
        },
        Some(_) => Err(fallback),
    }
}

fn collect_methods(ms: &Vec<Member>, key: &Key, acc: &mut Vec<Member>)
    ensures
        members(final(acc)@) == methods_from(members(ms@), key@, 0, members(old(acc)@)),
{
    let ghost start = members(acc@);
    let mut i: usize = 0;
    while i < ms.len()
        invariant
            i <= ms.len(),
            methods_from(members(ms@), key@, 0, start) == methods_from(
                members(ms@),
                key@,
                i as int,
                members(acc@),
            ),
        decreases ms.len() - i,
    {
        assert(members(ms@)[i as int] == ms@[i as int]@);
        match &ms[i] {
            Member::Method { key: k, .. } => {
                if same_member(k, key) {
                    push_member(acc, copy_member(&ms[i]));
                }
            },
            _ => {},
        }
        i += 1;
    }
}

fn by_arity(cs: &Vec<Member>, n: usize) -> (r: Option<usize>)
    ensures
        match r {
            Some(i) => i < cs.len() && by_arity_from(members(cs@), n as nat, 0) == Some(
                cs@[i as int]@,
            ),
            None => by_arity_from(members(cs@), n as nat, 0).is_none(),
        },
{
    let mut i: usize = 0;
    while i < cs.len()
        invariant
            i <= cs.len(),
            by_arity_from(members(cs@), n as nat, 0) == by_arity_from(
                members(cs@),
                n as nat,
                i as int,
            ),
        decreases cs.len() - i,
    {
        assert(members(cs@)[i as int] == cs@[i as int]@);
        match &cs[i] {
            Member::Method { params, .. } => {
                assert(fn_params(params@).len() == params.len());
                if params.len() == n {
                    return Some(i);
                }
            },
            _ => {},
        }
        i += 1;
    }
    None
}

/// The result type of a call of the method that `key` names among the
/// members `ms` and those of the built-in interface `Object`. One
/// candidate is called as it is; of several the first that takes as many
/// arguments as are given.
fn call_method(
    env: &Env,
    st: &mut State,
    span: Span,
    ms: &Vec<Member>,
    key: &Key,
    kind: ExtractKind,
    args: &Vec<Arg>,
    fuel: usize,
) -> (r: Result<Type, Error>)
    ensures
        (result_view(r), final(st)@) == call_method_of(
            env@,
            old(st)@,
            span,
            members(ms@),
            key@,
            kind,
            args@,
            fuel as nat,
        ),
    decreases fuel, 1nat, 0nat,
{
    let mut cs = no_members();
    if calls(kind) {
        collect_methods(ms, key, &mut cs);
        let name = "Object".to_owned();
        match env.builtin_type(&name) {
            Some(Type::Interface { body, .. }) => {
                collect_methods(body, key, &mut cs);
            },
            _ => {
                assert(object_members(env@) =~= Seq::empty());
            },
        }
    }
    assert(members(cs@).len() == cs.len());
    if cs.len() == 0 {
        return Err(Error::Diag(Diag::Unsupported { span, what: Unsupported::NoMethod }));
    }
    let picked = if cs.len() == 1 {
        assert(members(cs@)[0] == cs@[0]@);
        0
    } else {
        match by_arity(&cs, args.len()) {
            Some(i) => i,
            None => {
                return Err(
                    Error::Diag(Diag::Unsupported { span, what: Unsupported::AmbiguousMethod }),
                );
            },
        }
    };
    check_method_call(env, st, span, &cs[picked], args, fuel)
}

/// The result type of a signature without type parameters for a call with
/// `n` arguments: the declared return type, if the number of the arguments
/// lies between the number of the required parameters and the number of
/// all parameters.
pub fn try_instantiate_simple(
    span: Span,
    callee: Span,
    ret: &Type,
    params: &Vec<FnParam>,
    type_params: &Option<Vec<String>>,
    n: usize,
) -> (r: Result<Type, Error>)
    ensures
        result_view(r) == try_instantiate_simple_spec(
            span,
            callee,
            ret@,
            fn_params(params@),
            opt_strs(*type_params),
            n as nat,
        ),
{
    match check_arity(span, callee, params, n) {
        Some(e) => Err(e),
        None => if type_params.is_some() {
            Err(Error::Diag(Diag::Unsupported { span, what: Unsupported::GenericSignature }))
        } else {
            Ok(copy_type(ret))
        },
    }
}

/// The result type of a call of a function type.
///
/// The number of the arguments is checked first. A function without type
/// parameters gives its declared return type. Otherwise the type arguments
/// are those that the call gives, or each type parameter takes the type of
/// the argument in the first position that is declared as it, and they are
/// substituted through the whole function type, whose return type is the
/// result.
pub fn try_instantiate(
    env: &Env,
    st: &mut State,
    span: Span,
    type_params: &Option<Vec<String>>,
    params: &Vec<FnParam>,
    ret: &Type,
    args: &Vec<Arg>,
    type_args: &Option<Vec<Type>>,
    fuel: usize,
) -> (r: Result<Type, Error>)
    ensures
        (result_view(r), final(st)@) == try_instantiate_spec(
            env@,
            old(st)@,
            span,
            opt_strs(*type_params),
            fn_params(params@),
            ret@,
            args@,
            opt_types(*type_args),
            fuel as nat,
        ),
    decreases fuel, 0nat, 0nat,
{
    if fuel == 0 {
        return Err(too_deep(span));
    }
    match check_arity(span, span, params, args.len()) {
        Some(e) => {
            return Err(e);
        },
        None => {},
    }
    match type_params {
        None => Ok(copy_type(ret)),
        Some(tps) => match type_args {
            Some(given) => Ok(return_of_instance(tps, given, params, ret)),
            None => match type_of_args(env, st, args, fuel - 1) {
                Err(e) => Err(e),
                Ok(tys) => {
                    let inferred = infer_args(tps, params, &tys);
                    Ok(return_of_instance(tps, &inferred, params, ret))
                },
            },
        },
    }
}

fn return_of_instance(
    tps: &Vec<String>,
    given: &Vec<Type>,
    params: &Vec<FnParam>,
    ret: &Type,
) -> (r: Type)
    ensures
        r@ == instantiated_ret(strs(tps@), types(given@), fn_params(params@), ret@),
{
    let whole = Type::Function {
        type_params: Some(crate::copy::copy_strings(tps)),
        params: crate::copy::copy_params(params),
        ret: Box::new(copy_type(ret)),
    };
    match substitute(tps, given, &whole) {
        Type::Function { ret, .. } => *ret,
        t => t,
    }
}

/// Extracts the result type of a call or construction of a value of the
/// expanded type `ty`.
///
/// `any` gives `any`. A function type is instantiated, where it is called.
/// A class gives an instance of itself, where it is constructed. The
/// members of a union are tried in their order: the first that succeeds
/// gives the result. An interface and a type literal are scanned for call
/// signatures, or construct signatures, and the first that takes the
/// arguments by their number and their types gives the result.
pub fn extract(
    env: &Env,
    st: &mut State,
    span: Span,
    ty: &Type,
    kind: ExtractKind,
    args: &Vec<Arg>,
    type_args: &Option<Vec<Type>>,
    fuel: usize,
) -> (r: Result<Type, Error>)
    ensures
        (result_view(r), final(st)@) == extract_spec(
            env@,
            old(st)@,
            span,
            ty@,
            kind,
            args@,
            opt_types(*type_args),
            fuel as nat,
        ),
    decreases fuel, 0nat, 0nat,
{
    if fuel == 0 {
        return Err(too_deep(span));
    }
    let f = fuel - 1;
    match ty {
        Type::Keyword(Keyword::Any) => Ok(Type::Keyword(Keyword::Any)),
        Type::Keyword(Keyword::Unknown) => Err(Error::Diag(Diag::Unknown { span })),
        Type::Function { type_params, params, ret } => if calls(kind) {
            try_instantiate(env, st, span, type_params, params, ret, args, type_args, f)
        } else {
            Err(missing_signature(span, kind))
        },
        Type::Union(ts) => extract_from_union(env, st, span, ts, kind, args, type_args, f),
        Type::Interface { body, .. } => match find_signature(env, st, span, body, kind, args, f) {
            Some(t) => Ok(t),
            None => Err(missing_signature(span, kind)),
        },
        Type::TypeLit(ms) => match find_signature(env, st, span, ms, kind, args, f) {
            Some(t) => Ok(t),
            None => Err(missing_signature(span, kind)),
        },
        Type::Class { .. } => if calls(kind) {
            Err(missing_signature(span, kind))
        } else {
            Ok(Type::ClassInstance { cls: Box::new(copy_type(ty)), type_args: copy_opt_types(type_args) })
        },
        Type::Query { path } => {
            assert(strs(path@).len() == path.len());
            if path.len() == 1 {
                assert(strs(path@)[0] == path@[0]@);
            }
            if path.len() == 1 && env.is_declaring_fn(&path[0]) {
                Ok(Type::Keyword(Keyword::Any))
            } else {
                Err(missing_signature(span, kind))
            }
        },
        _ => Err(missing_signature(span, kind)),
    }
}

/// The result of the first member of a union that can be called or
/// constructed; the errors of all of its members if none can.
fn extract_from_union(
    env: &Env,
    st: &mut State,
    span: Span,
    ts: &Vec<Type>,
    kind: ExtractKind,
    args: &Vec<Arg>,
    type_args: &Option<Vec<Type>>,
    fuel: usize,
) -> (r: Result<Type, Error>)
    ensures
        (result_view(r), final(st)@) == extract_union(
            env@,
            old(st)@,
            span,
            types(ts@),
            kind,
            args@,
            opt_types(*type_args),
            0,
            Seq::empty(),
            fuel as nat,
        ),
    decreases fuel, 1nat, ts.len(),
{
    let mut errs = no_errors();
    let ghost st0 = st@;
    let mut i: usize = 0;
    while i < ts.len()
        invariant
            st0 == old(st)@,
            i <= ts.len(),
            extract_union(
                env@,
                st0,
                span,
                types(ts@),
                kind,
                args@,
                opt_types(*type_args),
                0,
                Seq::empty(),
                fuel as nat,
            ) == extract_union(
                env@,
                st@,
                span,
                types(ts@),
                kind,
                args@,
                opt_types(*type_args),
                i as int,
                errors(errs@),
                fuel as nat,
            ),
        decreases ts.len() - i,
    {
        assert(types(ts@)[i as int] == ts@[i as int]@);
        match extract(env, st, span, &ts[i], kind, args, type_args, fuel) {
            Ok(t) => {
                return Ok(t);
            },
            Err(e) => {
                push_error(&mut errs, e);
            },
        }
        i += 1;
    }
    Err(Error::UnionError { span, errors: errs })
}

/// The result type of the first call or construct signature among `ms`
/// that takes the arguments.
fn find_signature(
    env: &Env,
    st: &mut State,
    span: Span,
    ms: &Vec<Member>,
    kind: ExtractKind,
    args: &Vec<Arg>,
    fuel: usize,
) -> (r: Option<Type>)
    ensures
        (opt_type(r), final(st)@) == search_signatures(
            env@,
            old(st)@,
            span,
            members(ms@),
            kind,
            args@,
            0,
            fuel as nat,
        ),
    decreases fuel, 2nat, ms.len(),
{
    let ghost st0 = st@;
    let mut i: usize = 0;
    while i < ms.len()
        invariant
            st0 == old(st)@,
            i <= ms.len(),
            search_signatures(env@, st0, span, members(ms@), kind, args@, 0, fuel as nat)
                == search_signatures(
                env@,
                st@,
                span,
                members(ms@),
                kind,
                args@,
                i as int,
                fuel as nat,
            ),
        decreases ms.len() - i,
    {
        assert(members(ms@)[i as int] == ms@[i as int]@);
        let sig = match &ms[i] {
            Member::Call { type_params, params, ret } => if calls(kind) {
                Some((type_params, params, ret))
            } else {
                None
            },
            Member::Construct { type_params, params, ret } => if calls(kind) {
                None
            } else {
                Some((type_params, params, ret))
            },
            _ => None,
        };
        match sig {
            None => {},
            Some((type_params, params, ret)) => {
                let declared = or_any(ret);
                match try_instantiate_simple(span, span, &declared, params, type_params, args.len()) {
                    Err(_) => {},
                    Ok(t) => match check_arguments(env, st, span, params, args, fuel) {
                        Ok(_) => {
                            return Some(t);
                        },
                        Err(_) => {},
                    },
                }
            },
        }
        i += 1;
    }
    None
}

} // verus!
