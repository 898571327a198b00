//! Member access: the type of a property of an object.

use vstd::prelude::*;
use crate::copy::{copy_opt_strings, copy_params, copy_type};
use crate::errors::{errors, result_view, Diag, Error, Unsupported};
use crate::expand::{expand_type, too_deep};
use crate::expr::type_of;
use crate::model::TypeOfMode;
use crate::ops::{no_errors, no_types, or_any, push_error, push_type, same_member, PropRef};
use crate::rules::{
    access_class_from, access_enum, access_index_from, access_members, access_module_from,
    access_array, access_expanded, access_named_from, access_object,
    access_property as access_property_spec, access_tuple, access_union, access_union_members,
    builtin_interface, enum_member_from,
};
use crate::scope::Env;
use crate::span::Span;
use crate::state::State;
use crate::types::{
    enum_members, members, opt_str, strs, types, EnumMember, Key, Keyword, Lit, Member, Type,
    TypeV,
};

verus! {

/// The member of an enum that is named `name`.
pub fn find_enum_member<'a>(ms: &'a Vec<EnumMember>, name: &String) -> (r: Option<&'a EnumMember>)
    ensures
        match r {
            Some(m) => enum_member_from(enum_members(ms@), name@, 0) == Some(m@),
            None => enum_member_from(enum_members(ms@), name@, 0).is_none(),
        },
{
    let mut i: usize = 0;
    while i < ms.len()
        invariant
            i <= ms.len(),
            enum_member_from(enum_members(ms@), name@, 0) == enum_member_from(
                enum_members(ms@),
                name@,
                i as int,
            ),
        decreases ms.len() - i,
    {
        if ms[i].name == *name {
            return Some(&ms[i]);
        }
        i += 1;
    }
    None
}

fn enum_member_type(span: Span, ms: &Vec<EnumMember>, name: &String) -> (r: Result<Type, Error>)
    ensures
        result_view(r) == (match enum_member_from(enum_members(ms@), name@, 0) {
            Some(m) => Ok(TypeV::Lit(m.value)),
            None => Err(crate::rules::err(Diag::NoSuchProperty { span })),
        }),
{
    match find_enum_member(ms, name) {
        Some(m) => Ok(Type::Lit(m.value.copy())),
        None => Err(Error::Diag(Diag::NoSuchProperty { span })),
    }
}

/// The type of a member access on an enum: the literal that the named
/// member stands for. A constant enum takes no computed access and is not
/// written to.
pub fn access_enum_member(
    span: Span,
    is_const: bool,
    ms: &Vec<EnumMember>,
    prop: &PropRef,
    mode: TypeOfMode,
) -> (r: Result<Type, Error>)
    ensures
        result_view(r) == access_enum(span, is_const, enum_members(ms@), prop@, mode),
{
    if is_const && prop.computed() {
        return Err(Error::Diag(Diag::ConstEnumNonIndexAccess { span: prop.span() }));
    }
    let writes = match mode {
        TypeOfMode::LValue => true,
        TypeOfMode::RValue => false,
    };
    if is_const && writes {
        return Err(Error::Diag(Diag::InvalidLValue { span: prop.span() }));
    }
    match prop.key() {
        Key::Ident(s) => enum_member_type(span, ms, &s),
        Key::Str(s) => enum_member_type(span, ms, &s),
        Key::Num(n) => {
            let r = n.round();
            if r >= 0 && (r as u64) < (ms.len() as u64) {
                Ok(Type::Lit(ms[r as usize].value.copy()))
            } else {
                Ok(Type::Keyword(Keyword::String))
            }
        },
        _ => Err(Error::Diag(Diag::Unsupported { span, what: Unsupported::EnumAccess })),
    }
}

/// The type of the member of a class body that the key names.
pub fn access_class(
    span: Span,
    body: &Vec<Member>,
    key: &Key,
    mode: TypeOfMode,
    declaring: Option<&String>,
) -> (r: Result<Type, Error>)
    ensures
        result_view(r) == access_class_from(
            span,
            members(body@),
            key@,
            mode,
            match declaring {
                Some(s) => Some(s@),
                None => None,
            },
            0,
        ),
{
    let ghost d = match declaring {
        Some(s) => Some(s@),
        None => None,
    };
    let writes = match mode {
        TypeOfMode::LValue => true,
        TypeOfMode::RValue => false,
    };
    let mut i: usize = 0;
    while i < body.len()
        invariant
            i <= body.len(),
            d == (match declaring {
                Some(s) => Some(s@),
                None => None,
            }),
            writes == (mode == TypeOfMode::LValue),
            access_class_from(span, members(body@), key@, mode, d, 0) == access_class_from(
                span,
                members(body@),
                key@,
                mode,
                d,
                i as int,
            ),
        decreases body.len() - i,
    {
        assert(members(body@)[i as int] == body@[i as int]@);
        match &body[i] {
            Member::Property { key: k, readonly, ty, .. } => {
                let blocked = match declaring {
                    Some(s) => match k {
                        Key::Ident(n) => *n == *s,
                        _ => false,
                    },
                    None => false,
                };
                if blocked {
                    return Err(Error::Diag(Diag::ReferencedInInit { span }));
                }
                if same_member(k, key) {
                    if writes && *readonly {
                        return Err(Error::Diag(Diag::ReadOnly { span }));
                    }
                    return Ok(or_any(ty));
                }
            },
            Member::Method { key: k, type_params, params, ret, .. } => {
                if same_member(k, key) {
                    return Ok(
                        Type::Function {
                            type_params: copy_opt_strings(type_params),
                            params: copy_params(params),
                            ret: Box::new(or_any(ret)),
                        },
                    );
                }
            },
            _ => {},
        }
        i += 1;
    }
    Err(Error::Diag(Diag::NoSuchProperty { span }))
}

fn access_named(span: Span, ms: &Vec<Member>, key: &Key, mode: TypeOfMode) -> (r: Option<
    Result<Type, Error>,
>)
    ensures
        match r {
            Some(x) => access_named_from(span, members(ms@), key@, mode, 0) == Some(result_view(x)),
            None => access_named_from(span, members(ms@), key@, mode, 0).is_none(),
        },
{
    let writes = match mode {
        TypeOfMode::LValue => true,
        TypeOfMode::RValue => false,
    };
    let mut i: usize = 0;
    while i < ms.len()
        invariant
            i <= ms.len(),
            writes == (mode == TypeOfMode::LValue),
            access_named_from(span, members(ms@), key@, mode, 0) == access_named_from(
                span,
                members(ms@),
                key@,
                mode,
                i as int,
            ),
        decreases ms.len() - i,
    {
        assert(members(ms@)[i as int] == ms@[i as int]@);
        match &ms[i] {
            Member::Property { key: k, readonly, ty, .. } => {
                if same_member(k, key) {
                    if writes && *readonly {
                        return Some(Err(Error::Diag(Diag::ReadOnly { span })));
                    }
                    return Some(Ok(or_any(ty)));
                }
            },
            Member::Method { key: k, type_params, params, ret, .. } => {
                if same_member(k, key) {
                    return Some(
                        Ok(
                            Type::Function {
                                type_params: copy_opt_strings(type_params),
                                params: copy_params(params),
                                ret: Box::new(or_any(ret)),
                            },
                        ),
                    );
                }
            },
            _ => {},
        }
        i += 1;
    }
    None
}

fn access_index(ms: &Vec<Member>, key_ty: &Type) -> (r: Option<Type>)
    ensures
        crate::types::opt_type(r) == access_index_from(members(ms@), key_ty@, 0),
{
    let mut i: usize = 0;
    while i < ms.len()
        invariant
            i <= ms.len(),
            access_index_from(members(ms@), key_ty@, 0) == access_index_from(
                members(ms@),
                key_ty@,
                i as int,
            ),
        decreases ms.len() - i,
    {
        assert(members(ms@)[i as int] == ms@[i as int]@);
        match &ms[i] {
            Member::Index { key_ty: k, ty, .. } => {
                if crate::equal::eq_type(k, key_ty) {
                    return Some(or_any(ty));
                }
            },
            _ => {},
        }
        i += 1;
    }
    None
}

/// The type of a member access on the members of an interface or of a type
/// literal: the named member that the key names, else the index signature
/// that takes a key of type `key_ty`.
pub fn access_member_list(
    span: Span,
    ms: &Vec<Member>,
    key: &Key,
    key_ty: &Type,
    mode: TypeOfMode,
) -> (r: Result<Type, Error>)
    ensures
        result_view(r) == access_members(span, members(ms@), key@, key_ty@, mode),
{
    match access_named(span, ms, key, mode) {
        Some(r) => r,
        None => match access_index(ms, key_ty) {
            Some(t) => Ok(t),
            None => Err(Error::Diag(Diag::NoSuchProperty { span })),
        },
    }
}

fn access_module(names: &Vec<String>, tys: &Vec<Type>, name: &String) -> (r: Option<Type>)
    ensures
        crate::types::opt_type(r) == access_module_from(strs(names@), types(tys@), name@, 0),
{
    let mut i: usize = 0;
    while i < names.len() && i < tys.len()
        invariant
            i <= names.len(),
            i <= tys.len(),
            access_module_from(strs(names@), types(tys@), name@, 0) == access_module_from(
                strs(names@),
                types(tys@),
                name@,
                i as int,
            ),
        decreases names.len() - i,
    {
        if names[i] == *name {
            return Some(copy_type(&tys[i]));
        }
        i += 1;
    }
    None
}

fn interface_name(k: Keyword) -> (r: Option<String>)
    ensures
        opt_str(r) == builtin_interface(k),
{
    match k {
        Keyword::String => Some("String".to_owned()),
        Keyword::Number => Some("Number".to_owned()),
        Keyword::Boolean => Some("Boolean".to_owned()),
        Keyword::Object => Some("Object".to_owned()),
        Keyword::Symbol => Some("Symbol".to_owned()),
        _ => None,
    }
}

fn any_read_only(errs: &Vec<Error>) -> (b: bool)
    ensures
        b == exists|k: int| 0 <= k < errors(errs@).len() && (#[trigger] errors(errs@)[k]).is_read_only(),
{
    let mut i: usize = 0;
    while i < errs.len()
        invariant
            i <= errs.len(),
            forall|k: int| 0 <= k < i ==> !(#[trigger] errors(errs@)[k]).is_read_only(),
        decreases errs.len() - i,
    {
        if errs[i].is_read_only() {
            assert(errors(errs@)[i as int].is_read_only());
            return true;
        }
        i += 1;
    }
    false
}

/// Resolves the property `prop` against the type of the object, which is
/// widened and expanded first.
///
/// An enum gives the literal value of the named member. A member of an
/// enum stands for its literal value. A class and an instance of a class
/// are scanned for the member with the key; a read-only property is not
/// written. A keyword type stands for its built-in interface. An array
/// gives its element type for a numeric index and stands for the built-in
/// interface `Array` otherwise. An interface and a type literal are scanned
/// for the named member, and their index signatures are the fallback. A
/// union is accessed member by member. A tuple is indexed within its
/// bounds by a numeric literal, and gives the union of its elements for
/// another index. A module gives the type that it exports under the name.
/// `this` stands for the type of `this` at the place.
pub fn access_property(
    env: &Env,
    st: &mut State,
    span: Span,
    obj: Type,
    prop: &PropRef,
    mode: TypeOfMode,
    fuel: usize,
) -> (r: Result<Type, Error>)
    ensures
        (result_view(r), final(st)@) == access_property_spec(
            env@,
            old(st)@,
            span,
            obj@,
            prop@,
            mode,
            fuel as nat,
        ),
    decreases fuel, 0nat, 0nat,
{
    if fuel == 0 {
        return Err(too_deep(span));
    }
    let f = fuel - 1;
    match expand_type(env, st, span, obj.generalize_lit(), f) {
        Ok(t) => access_expanded_type(env, st, span, t, prop, mode, f),
        Err(e) => Err(e),
    }
}

/// Resolves the property `prop` against the expanded type `obj`.
fn access_expanded_type(
    env: &Env,
    st: &mut State,
    span: Span,
    obj: Type,
    prop: &PropRef,
    mode: TypeOfMode,
    fuel: usize,
) -> (r: Result<Type, Error>)
    ensures
        (result_view(r), final(st)@) == access_expanded(
            env@,
            old(st)@,
            span,
            obj@,
            prop@,
            mode,
            fuel as nat,
        ),
    decreases fuel, 3nat, 0nat,
{
    match &obj {
        Type::Enum { .. } => access_declared(env, st, span, &obj, prop, mode, fuel),
        Type::Class { .. } => access_declared(env, st, span, &obj, prop, mode, fuel),
        Type::ClassInstance { .. } => access_declared(env, st, span, &obj, prop, mode, fuel),
        Type::Module { .. } => access_declared(env, st, span, &obj, prop, mode, fuel),
        Type::EnumVariant { .. } => access_redirected(env, st, span, &obj, prop, mode, fuel),
        Type::Keyword(_) => access_redirected(env, st, span, &obj, prop, mode, fuel),
        Type::This => access_redirected(env, st, span, &obj, prop, mode, fuel),
        Type::Array(_) => match obj {
            Type::Array(elem) => access_array_element(env, st, span, *elem, prop, mode, fuel),
            _ => Err(Error::Diag(Diag::Unsupported { span, what: Unsupported::Access })),
        },
        Type::Interface { body, .. } => access_object_members(env, st, span, body, prop, mode, fuel),
        Type::TypeLit(ms) => access_object_members(env, st, span, ms, prop, mode, fuel),
        Type::Union(_) => match obj {
            Type::Union(ts) => access_union_type(env, st, span, ts, prop, mode, fuel),
            _ => Err(Error::Diag(Diag::Unsupported { span, what: Unsupported::Access })),
        },
        Type::Tuple(_) => match obj {
            Type::Tuple(ts) => access_tuple_element(ts, prop),
            _ => Err(Error::Diag(Diag::Unsupported { span, what: Unsupported::Access })),
        },
        _ => Err(Error::Diag(Diag::Unsupported { span, what: Unsupported::Access })),
    }
}

/// The type of a member access on a declaration that holds its members
/// itself: an enum, a class, an instance of a class or a module.
fn access_declared(
    env: &Env,
    st: &State,
    span: Span,
    obj: &Type,
    prop: &PropRef,
    mode: TypeOfMode,
    fuel: usize,
) -> (r: Result<Type, Error>)
    requires
        *obj is Enum || *obj is Class || *obj is ClassInstance || *obj is Module,
    ensures
        (result_view(r), st@) == access_expanded(env@, st@, span, obj@, prop@, mode, fuel as nat),
{
    match obj {
        Type::Enum { is_const, members, .. } => access_enum_member(
            span,
            *is_const,
            members,
            prop,
            mode,
        ),
        Type::Class { body, .. } => access_class(
            span,
            body,
            &prop.key(),
            mode,
            env.declaring_prop(),
        ),
        Type::ClassInstance { cls, .. } => {
            assert(crate::types::type_view(**cls) == (**cls)@);
            match &**cls {
                Type::Class { body, .. } => access_class(span, body, &prop.key(), mode, None),
                _ => Err(Error::Diag(Diag::NoSuchProperty { span })),
            }
        },
        Type::Module { names, types } => match prop {
            PropRef::Name { sym, .. } => match access_module(names, types, sym) {
                Some(t) => Ok(t),
                None => Err(Error::Diag(Diag::NoSuchProperty { span })),
            },
            _ => Err(Error::Diag(Diag::NoSuchProperty { span })),
        },
        _ => Err(Error::Diag(Diag::NoSuchProperty { span })),
    }
}

/// The type of a member access on a type that stands for another one: a
/// member of an enum, a keyword type or `this`.
fn access_redirected(
    env: &Env,
    st: &mut State,
    span: Span,
    obj: &Type,
    prop: &PropRef,
    mode: TypeOfMode,
    fuel: usize,
) -> (r: Result<Type, Error>)
    requires
        *obj is EnumVariant || *obj is Keyword || *obj is This,
    ensures
        (result_view(r), final(st)@) == access_expanded(
            env@,
            old(st)@,
            span,
            obj@,
            prop@,
            mode,
            fuel as nat,
        ),
    decreases fuel, 2nat, 0nat,
{
    match obj {
        Type::EnumVariant { enum_name, name } => match env.find_type(enum_name) {
            Some(Type::Enum { members, .. }) => match find_enum_member(members, name) {
                Some(m) => {
                    let lit = Type::Lit(m.value.copy());
                    access_property(env, st, span, lit, prop, mode, fuel)
                },
                None => Err(Error::Diag(Diag::NoSuchProperty { span })),
            },
            _ => Err(Error::Diag(Diag::NoSuchProperty { span })),
        },
        Type::Keyword(Keyword::Any) => Ok(Type::Keyword(Keyword::Any)),
        Type::Keyword(Keyword::Unknown) => Err(Error::Diag(Diag::Unknown { span })),
        Type::Keyword(k) => match interface_name(*k) {
            None => Err(Error::Diag(Diag::Unsupported { span, what: Unsupported::KeywordAccess })),
            Some(name) => match env.builtin_type(&name) {
                None => Err(Error::Diag(Diag::NameNotFound { span })),
                Some(t) => {
                    let t = copy_type(t);
                    access_property(env, st, span, t, prop, mode, fuel)
                },
            },
        },
        _ => match env.this_type() {
            Some(t) => {
                let t = copy_type(t);
                access_property(env, st, span, t, prop, mode, fuel)
            },
            None => Err(Error::Diag(Diag::NoSuchProperty { span })),
        },
    }
}

/// The type of an element access on a tuple with the elements `ts`.
pub fn access_tuple_element(ts: Vec<Type>, prop: &PropRef) -> (r: Result<Type, Error>)
    ensures
        result_view(r) == access_tuple(types(ts@), prop@),
{
    assert(types(ts@).len() == ts.len());
    match prop.key() {
        Key::Num(n) => {
            let r = n.round();
            if r >= 0 && (r as u64) < (ts.len() as u64) {
                assert(types(ts@)[r as int] == ts@[r as int]@);
                Ok(copy_type(&ts[r as usize]))
            } else {
                Err(
                    Error::Diag(
                        Diag::TupleIndexError { span: prop.span(), index: r, len: ts.len() as u64 },
                    ),
                )
            }
        },
        _ => if ts.len() == 0 {
            Ok(Type::Keyword(Keyword::Any))
        } else {
            Ok(Type::union(ts))
        },
    }
}

/// The type of a member access on an array with the element type `elem`.
fn access_array_element(
    env: &Env,
    st: &mut State,
    span: Span,
    elem: Type,
    prop: &PropRef,
    mode: TypeOfMode,
    fuel: usize,
) -> (r: Result<Type, Error>)
    ensures
        (result_view(r), final(st)@) == access_array(
            env@,
            old(st)@,
            span,
            elem@,
            prop@,
            mode,
            fuel as nat,
        ),
    decreases fuel, 2nat, 0nat,
{
    let p = match prop {
        PropRef::Computed(e) => type_of(env, st, e, TypeOfMode::RValue, fuel),
        PropRef::Name { .. } => Ok(Type::Keyword(Keyword::String)),
    };
    let numeric = match &p {
        Ok(t) => t.is_number_like(),
        Err(_) => false,
    };
    if numeric {
        Ok(elem)
    } else {
        let name = "Array".to_owned();
        match env.builtin_type(&name) {
            None => Err(Error::Diag(Diag::NameNotFound { span })),
            Some(t) => {
                let t = copy_type(t);
                access_property(env, st, span, t, prop, mode, fuel)
            },
        }
    }
}

/// The type of a member access on a union with the members `ts`.
fn access_union_type(
    env: &Env,
    st: &mut State,
    span: Span,
    ts: Vec<Type>,
    prop: &PropRef,
    mode: TypeOfMode,
    fuel: usize,
) -> (r: Result<Type, Error>)
    ensures
        (result_view(r), final(st)@) == access_union_members(
            env@,
            old(st)@,
            span,
            types(ts@),
            prop@,
            mode,
            fuel as nat,
        ),
    decreases fuel, 2nat, 0nat,
{
    let mut tys = no_types();
    let mut errs = no_errors();
    let ghost st0 = st@;
    let ghost all = types(ts@);
    let mut i: usize = 0;
    while i < ts.len()
        invariant
            i <= ts.len(),
            all == types(ts@),
            access_union(
                env@,
                st0,
                span,
                all,
                prop@,
                mode,
                0,
                Seq::empty(),
                Seq::empty(),
                fuel as nat,
            ) == access_union(
                env@,
                st@,
                span,
                all,
                prop@,
                mode,
                i as int,
                types(tys@),
                errors(errs@),
                fuel as nat,
            ),
        decreases ts.len() - i,
    {
        assert(all[i as int] == ts@[i as int]@);
        let t = copy_type(&ts[i]);
        match access_property(env, st, span, t, prop, mode, fuel) {
            Ok(t) => {
                push_type(&mut tys, t);
            },
            Err(e) => {
                push_error(&mut errs, e);
            },
        }
        i += 1;
    }
    let failed = match mode {
        TypeOfMode::RValue => errs.len() > 0,
        TypeOfMode::LValue => tys.len() == 0 || any_read_only(&errs),
    };
    assert(errors(errs@).len() == errs.len());
    assert(types(tys@).len() == tys.len());
    if failed {
        Err(Error::UnionError { span, errors: errs })
    } else {
        Ok(Type::union(tys))
    }
}

/// The type of a member access on the members of an interface or of a type
/// literal.
fn access_object_members(
    env: &Env,
    st: &mut State,
    span: Span,
    ms: &Vec<Member>,
    prop: &PropRef,
    mode: TypeOfMode,
    fuel: usize,
) -> (r: Result<Type, Error>)
    ensures
        (result_view(r), final(st)@) == access_object(
            env@,
            old(st)@,
            span,
            members(ms@),
            prop@,
            mode,
            fuel as nat,
        ),
    decreases fuel, 1nat, 0nat,
{
    match prop {
        PropRef::Name { sym, .. } => access_member_list(
            span,
            ms,
            &Key::Ident((*sym).clone()),
            &Type::Keyword(Keyword::String),
            mode,
        ),
        PropRef::Computed(e) => match type_of(env, st, e, TypeOfMode::RValue, fuel) {
            Err(x) => Err(x),
            Ok(t) => access_member_list(
                span,
                ms,
                &crate::ops::expr_key(e, true),
                &t.generalize_lit(),
                mode,
            ),
        },
    }
}

} // verus!
