//! Expansion: the canonical form of a type.

use vstd::prelude::*;
use crate::copy::copy_type;
use crate::errors::{result_view, Diag, Error, ErrorV, Unsupported};
use crate::expr::type_of_ident;
use crate::member::access_property;
use crate::model::TypeOfMode;
use crate::ops::{is_word, no_types, push_type, substitute, PropRef};
use crate::rules::{expand, expand_all, type_of_entity_name};
use crate::scope::Env;
use crate::span::Span;
use crate::state::State;
use crate::types::{strs, types, Keyword, Type, TypeV};

verus! {

/// The error of an inference that is out of depth.
pub fn too_deep(span: Span) -> (e: Error)
    ensures
        e@ == crate::rules::unsupported(span, Unsupported::Depth),
{
    Error::Diag(Diag::Unsupported { span, what: Unsupported::Depth })
}

/// The view of the result of a function that gives several types.
pub open spec fn types_result(r: Result<Vec<Type>, Error>) -> Result<Seq<TypeV>, ErrorV> {
    match r {
        Ok(v) => Ok(types(v@)),
        Err(e) => Err(e@),
    }
}

/// Expands the type `t`: a named reference is resolved, first among the
/// built-in types and then through the scopes, an alias gives what it
/// stands for, with its type arguments put in, and the members of a union,
/// an intersection or a tuple, the element of an array and the return type
/// of a function are expanded each on its own. A reference to an enum, an
/// interface or a class gives the declaration itself. A name that no
/// declaration stands behind is not found, and type arguments are not
/// given to a declaration that declares no type parameters.
pub fn expand_type(env: &Env, st: &mut State, span: Span, t: Type, fuel: usize) -> (r: Result<
    Type,
    Error,
>)
    ensures
        (result_view(r), final(st)@) == expand(env@, old(st)@, span, t@, fuel as nat),
    decreases fuel, 0nat, 0nat,
{
    if fuel == 0 {
        return Err(too_deep(span));
    }
    let f = fuel - 1;
    match t {
        Type::Ref { path, type_args } => {
            assert(strs(path@).len() == path.len());
            if path.len() == 1 {
                assert(strs(path@) =~= seq![path@[0]@]);
                expand_name(env, st, span, &path[0], &type_args, f)
            } else if path.len() == 2 {
                assert(strs(path@)[0] == path@[0]@);
                assert(strs(path@)[1] == path@[1]@);
                if is_word(&path[0], "void") {
                    Ok(Type::Keyword(Keyword::Any))
                } else {
                    match env.find_type(&path[0]) {
                        Some(Type::Enum { .. }) => Ok(
                            Type::EnumVariant {
                                enum_name: path[0].clone(),
                                name: path[1].clone(),
                            },
                        ),
                        _ => Err(Error::Diag(Diag::NameNotFound { span })),
                    }
                }
            } else {
                Err(Error::Diag(Diag::Unsupported { span, what: Unsupported::EntityName }))
            }
        },
        Type::Query { path } => type_of_ts_entity_name(env, st, span, &path, f),
        Type::Union(ts) => match expand_types(env, st, span, ts, f) {
            Ok(xs) => Ok(Type::union(xs)),
            Err(e) => Err(e),
        },
        Type::Intersection(ts) => match expand_types(env, st, span, ts, f) {
            Ok(xs) => Ok(Type::Intersection(xs)),
            Err(e) => Err(e),
        },
        Type::Array(elem) => match expand_type(env, st, span, *elem, f) {
            Ok(x) => Ok(Type::Array(Box::new(x))),
            Err(e) => Err(e),
        },
        Type::Tuple(ts) => match expand_types(env, st, span, ts, f) {
            Ok(xs) => Ok(Type::Tuple(xs)),
            Err(e) => Err(e),
        },
        Type::Alias { type_params: None, ty } => Ok(*ty),
        Type::Function { type_params, params, ret } => match expand_type(env, st, span, *ret, f) {
            Ok(x) => Ok(Type::Function { type_params, params, ret: Box::new(x) }),
            Err(e) => Err(e),
        },
        t => Ok(t),
    }
}

/// Expands a reference to the name `name` with the type arguments
/// `type_args`.
fn expand_name(
    env: &Env,
    st: &mut State,
    span: Span,
    name: &String,
    type_args: &Option<Vec<Type>>,
    fuel: usize,
) -> (r: Result<Type, Error>)
    ensures
        (result_view(r), final(st)@) == expand(
            env@,
            old(st)@,
            span,
            TypeV::Ref { path: seq![name@], type_args: crate::types::opt_types(*type_args) },
            (fuel + 1) as nat,
        ),
    decreases fuel, 1nat, 0nat,
{
    match env.builtin_type(name) {
        Some(b) => {
            let b = copy_type(b);
            expand_type(env, st, span, b, fuel)
        },
        None => match env.find_type(name) {
            None => Err(Error::Diag(Diag::NameNotFound { span })),
            Some(d) => match d {
                Type::Enum { .. } => if type_args.is_some() {
                    Err(Error::Diag(Diag::NotGeneric { span }))
                } else {
                    Ok(copy_type(d))
                },
                Type::Param { .. } => if type_args.is_some() {
                    Err(Error::Diag(Diag::NotGeneric { span }))
                } else {
                    Ok(copy_type(d))
                },
                Type::Interface { .. } => if type_args.is_some() {
                    Err(Error::Diag(Diag::NotGeneric { span }))
                } else {
                    Ok(copy_type(d))
                },
                Type::Class { type_params, .. } => if type_args.is_some() && type_params.is_none() {
                    Err(Error::Diag(Diag::NotGeneric { span }))
                } else {
                    Ok(copy_type(d))
                },
                Type::Alias { type_params: None, ty } => if type_args.is_some() {
                    Err(Error::Diag(Diag::NotGeneric { span }))
                } else {
                    Ok(copy_type(ty))
                },
                Type::Alias { type_params: Some(tps), ty } => {
                    let body = match type_args {
                        Some(args) => substitute(tps, args, ty),
                        None => copy_type(ty),
                    };
                    expand_type(env, st, span, body, fuel)
                },
                _ => Err(Error::Diag(Diag::Unsupported { span, what: Unsupported::Declaration })),
            },
        },
    }
}

/// Expands each of the types `ts`.
pub fn expand_types(env: &Env, st: &mut State, span: Span, ts: Vec<Type>, fuel: usize) -> (r:
    Result<Vec<Type>, Error>)
    ensures
        (types_result(r), final(st)@) == expand_all(
            env@,
            old(st)@,
            span,
            types(ts@),
            0,
            Seq::empty(),
            fuel as nat,
        ),
    decreases fuel, 1nat, ts.len(),
{
    let mut out = no_types();
    let ghost st0 = st@;
    let ghost all = types(ts@);
    let mut i: usize = 0;
    while i < ts.len()
        invariant
            st0 == old(st)@,
            i <= ts.len(),
            all == types(ts@),
            expand_all(env@, st0, span, all, 0, Seq::empty(), fuel as nat) == expand_all(
                env@,
                st@,
                span,
                all,
                i as int,
                types(out@),
                fuel as nat,
            ),
        decreases ts.len() - i,
    {
        assert(all[i as int] == ts@[i as int]@);
        let t = copy_type(&ts[i]);
        match expand_type(env, st, span, t, fuel) {
            Ok(x) => {
                push_type(&mut out, x);
            },
            Err(e) => {
                return Err(e);
            },
        }
        i += 1;
    }
    Ok(out)
}

/// The type of the value that the dotted name `path` means.
pub fn type_of_ts_entity_name(
    env: &Env,
    st: &mut State,
    span: Span,
    path: &Vec<String>,
    fuel: usize,
) -> (r: Result<Type, Error>)
    ensures
        (result_view(r), final(st)@) == type_of_entity_name(
            env@,
            old(st)@,
            span,
            strs(path@),
            fuel as nat,
        ),
    decreases fuel, 1nat, 0nat,
{
    proof {
        assert(strs(path@).take(path.len() as int) =~= strs(path@));
    }
    entity_name_prefix(env, st, span, path, path.len(), fuel)
}

/// The type of the value that the first `n` parts of `path` mean.
fn entity_name_prefix(
    env: &Env,
    st: &mut State,
    span: Span,
    path: &Vec<String>,
    n: usize,
    fuel: usize,
) -> (r: Result<Type, Error>)
    requires
        n <= path.len(),
    ensures
        (result_view(r), final(st)@) == type_of_entity_name(
            env@,
            old(st)@,
            span,
            strs(path@).take(n as int),
            fuel as nat,
        ),
    decreases fuel, 0nat, 0nat,
{
    let ghost p = strs(path@).take(n as int);
    if fuel == 0 {
        return Err(too_deep(span));
    }
    if n == 0 {
        return Err(Error::Diag(Diag::NameNotFound { span }));
    }
    if n == 1 {
        assert(p[0] == path@[0]@);
        return type_of_ident(env, span, &path[0], TypeOfMode::RValue);
    }
    assert(p.drop_last() =~= strs(path@).take(n - 1));
    assert(p.last() == path@[n - 1]@);
    match entity_name_prefix(env, st, span, path, n - 1, fuel - 1) {
        Err(e) => Err(e),
        Ok(t) => access_property(
            env,
            st,
            span,
            t,
            &PropRef::Name { span, sym: &path[n - 1] },
            TypeOfMode::RValue,
            fuel - 1,
        ),
    }
}

} // verus!

