//! The types of functions and of classes.

use vstd::prelude::*;
use crate::ast::{Class, ClassItem, Function, PropName};
use crate::copy::{copy_opt_strings, copy_opt_type, copy_type};
use crate::errors::{errors, result_view, Diag, Error, ErrorV};
use crate::expand::{expand_type, too_deep};
use crate::expr::type_of;
use crate::model::TypeOfMode;
use crate::ops::{
    assign_type, ctor_params, expr_key, instance_of, no_errors, no_members, pat_params,
    prop_name_key, push_error, push_member,
};
use crate::rules::{
    class_member_of, class_members_from, declared_return, function_type,
    type_of_arrow_fn as type_of_arrow_fn_spec, type_of_class as type_of_class_spec,
    type_of_fn as type_of_fn_spec, type_of_fn_detail as type_of_fn_detail_spec,
};
use crate::scope::Env;
use crate::state::State;
use crate::types::{members, opt_str, Keyword, Member, Type, TypeV};

verus! {

/// Whether the property name is a computed one.
pub fn is_computed(key: &PropName) -> (b: bool)
    ensures
        b == (*key is Computed),
{
    match key {
        PropName::Computed { .. } => true,
        _ => false,
    }
}

/// The member of a class that a class item declares.
pub fn class_member(st: &mut State, item: &ClassItem) -> (r: Option<Member>)
    ensures
        (
            match r {
                Some(m) => Some(m@),
                None => None,
            },
            final(st)@,
        ) == class_member_of(old(st)@, *item),
{
    match item {
        ClassItem::Constructor { params, .. } => Some(
            Member::Construct { type_params: None, params: ctor_params(params), ret: None },
        ),
        ClassItem::Method { key, is_static, function, .. } => {
            let ret = match &function.return_type {
                Some(t) => copy_type(t),
                None => match st.infer_return_type(function.span) {
                    Some(t) => t,
                    None => Type::Keyword(Keyword::Any),
                },
            };
            Some(
                Member::Method {
                    key: prop_name_key(key),
                    computed: is_computed(key),
                    optional: false,
                    is_static: *is_static,
                    type_params: copy_opt_strings(&function.type_params),
                    params: pat_params(&function.params),
                    ret: Some(ret),
                },
            )
        },
        ClassItem::Prop { key, computed, type_ann, is_static, is_optional, readonly, .. } => Some(
            Member::Property {
                key: expr_key(key, *computed),
                computed: *computed,
                optional: *is_optional,
                readonly: *readonly,
                is_static: *is_static,
                ty: copy_opt_type(type_ann),
            },
        ),
        ClassItem::Index { readonly, key_ty, type_ann, .. } => Some(
            Member::Index {
                readonly: *readonly,
                key_ty: copy_type(key_ty),
                ty: copy_opt_type(type_ann),
            },
        ),
        ClassItem::PrivateMethod { .. } => None,
        ClassItem::PrivateProp { .. } => None,
    }
}

/// The members that the items of a class body declare.
pub fn class_members(st: &mut State, items: &Vec<ClassItem>) -> (r: Vec<Member>)
    ensures
        (members(r@), final(st)@) == class_members_from(old(st)@, items@, 0, Seq::empty()),
{
    let mut acc = no_members();
    let ghost st0 = st@;
    let mut i: usize = 0;
    while i < items.len()
        invariant
            st0 == old(st)@,
            i <= items.len(),
            class_members_from(st0, items@, 0, Seq::empty()) == class_members_from(
                st@,
                items@,
                i as int,
                members(acc@),
            ),
        decreases items.len() - i,
    {
        match class_member(st, &items[i]) {
            Some(m) => {
                push_member(&mut acc, m);
            },
            None => {},
        }
        i += 1;
    }
    acc
}

/// The type of the class `c` under the name `name`: its superclass is the
/// type of the expression that it extends, and its members are those that
/// its items declare, the private ones left out.
pub fn type_of_class(env: &Env, st: &mut State, name: Option<String>, c: &Class, fuel: usize) -> (r:
    Result<Type, Error>)
    ensures
        (result_view(r), final(st)@) == type_of_class_spec(
            env@,
            old(st)@,
            opt_str(name),
            *c,
            fuel as nat,
        ),
    decreases fuel, 0nat, 0nat,
{
    if fuel == 0 {
        return Err(too_deep(c.span));
    }
    let super_class = match &c.super_class {
        Some(e) => match type_of(env, st, e, TypeOfMode::RValue, fuel - 1) {
            Ok(t) => Some(Box::new(t)),
            Err(x) => {
                return Err(x);
            },
        },
        None => None,
    };
    let body = class_members(st, &c.body);
    Ok(
        Type::Class {
            name,
            is_abstract: c.is_abstract,
            super_class,
            type_params: copy_opt_strings(&c.type_params),
            body,
        },
    )
}

/// The type of the class `c`, once its properties were looked at.
pub fn validate_type_of_class(
    env: &Env,
    st: &mut State,
    name: Option<String>,
    c: &Class,
    fuel: usize,
) -> (r: Result<Type, Error>)
    ensures
        (result_view(r), final(st)@) == type_of_class_spec(
            env@,
            old(st)@,
            opt_str(name),
            *c,
            fuel as nat,
        ),
{
    type_of_class(env, st, name, c, fuel)
}

fn declared_return_type(env: &Env, st: &mut State, f: &Function, fuel: usize) -> (r: Option<
    Result<Type, Error>,
>)
    ensures
        (
            match r {
                Some(x) => Some(result_view(x)),
                None => None,
            },
            final(st)@,
        ) == declared_return(env@, old(st)@, *f, fuel as nat),
    decreases fuel, 1nat, 0nat,
{
    match &f.return_type {
        None => None,
        Some(t) => match expand_type(env, st, f.span, copy_type(t), fuel) {
            Ok(x) => Some(Ok(instance_of(x))),
            Err(e) => Some(Err(e)),
        },
    }
}

fn fn_type(f: &Function, ret: Type) -> (t: Type)
    ensures
        t@ == function_type(*f, ret@),
{
    Type::Function {
        type_params: copy_opt_strings(&f.type_params),
        params: pat_params(&f.params),
        ret: Box::new(ret),
    }
}

/// The type of an arrow function. Its return type is the declared one,
/// expanded, to which the inferred one must be assignable; without a
/// declared one it is the inferred one, or `any`.
pub fn type_of_arrow_fn(env: &Env, st: &mut State, f: &Function, fuel: usize) -> (r: Result<
    Type,
    Error,
>)
    ensures
        (result_view(r), final(st)@) == type_of_arrow_fn_spec(env@, old(st)@, *f, fuel as nat),
    decreases fuel, 0nat, 0nat,
{
    if fuel == 0 {
        return Err(too_deep(f.span));
    }
    match declared_return_type(env, st, f, fuel - 1) {
        Some(Err(e)) => Err(e),
        Some(Ok(declared)) => {
            match st.infer_return_type(f.span) {
                Some(i) => match assign_type(&declared, &i, f.span) {
                    Err(e) => {
                        return Err(e);
                    },
                    Ok(_) => {},
                },
                None => {},
            }
            Ok(fn_type(f, declared))
        },
        None => {
            let ret = match st.infer_return_type(f.span) {
                Some(t) => t,
                None => Type::Keyword(Keyword::Any),
            };
            Ok(fn_type(f, ret))
        },
    }
}

/// The view of the result of `type_of_fn_detail`.
pub open spec fn detail_result(r: Result<(Type, Vec<Error>), Error>) -> Result<
    (TypeV, Seq<ErrorV>),
    ErrorV,
> {
    match r {
        Ok((t, es)) => Ok((t@, errors(es@))),
        Err(e) => Err(e@),
    }
}

/// The type of a function with its recoverable errors.
pub fn type_of_fn_detail(env: &Env, st: &mut State, f: &Function, fuel: usize) -> (r: Result<
    (Type, Vec<Error>),
    Error,
>)
    ensures
        (detail_result(r), final(st)@) == type_of_fn_detail_spec(env@, old(st)@, *f, fuel as nat),
    decreases fuel, 0nat, 0nat,
{
    if fuel == 0 {
        return Err(too_deep(f.span));
    }
    let mut errs = no_errors();
    let declared = match declared_return_type(env, st, f, fuel - 1) {
        Some(Ok(t)) => Some(t),
        Some(Err(e)) => {
            let ghost ev = e@;
            push_error(&mut errs, e);
            assert(errors(errs@) =~= seq![ev]);
            copy_opt_type(&f.return_type)
        },
        None => None,
    };
    if !f.has_body {
        let ret = match declared {
            Some(t) => t,
            None => Type::Keyword(Keyword::Any),
        };
        return Ok((fn_type(f, ret), errs));
    }
    match st.infer_return_type(f.span) {
        Some(i) => match declared {
            Some(dt) => match assign_type(&dt, &i, f.span) {
                Err(e) => Err(e),
                Ok(_) => Ok((fn_type(f, dt), errs)),
            },
            None => Ok((fn_type(f, i), errs)),
        },
        None => match declared {
            Some(dt) => {
                if !(dt.is_any() || dt.is_keyword(Keyword::Void)) {
                    push_error(&mut errs, Error::Diag(Diag::ReturnRequired { span: f.span }));
                }
                Ok((fn_type(f, dt), errs))
            },
            None => Ok((fn_type(f, Type::Keyword(Keyword::Any)), errs)),
        },
    }
}

/// The type of a function: its recoverable errors are fatal here.
pub fn type_of_fn(env: &Env, st: &mut State, f: &Function, fuel: usize) -> (r: Result<Type, Error>)
    ensures
        (result_view(r), final(st)@) == type_of_fn_spec(env@, old(st)@, *f, fuel as nat),
    decreases fuel, 0nat, 0nat,
{
    if fuel == 0 {
        return Err(too_deep(f.span));
    }
    match type_of_fn_detail(env, st, f, fuel - 1) {
        Err(e) => Err(e),
        Ok((t, errs)) => {
            assert(errors(errs@).len() == errs.len());
            if errs.len() == 0 {
                Ok(t)
            } else {
                Err(Error::Errors { span: f.span, errors: errs })
            }
        },
    }
}

} // verus!
