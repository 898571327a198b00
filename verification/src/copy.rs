//! Deep copies of types. A copy has the view of what it was copied from.

use vstd::prelude::*;
use crate::types::{
    enum_members, members, opt_str, opt_strs, opt_type, opt_types, fn_params, strs, types,
    EnumMember, FnParam, Key, Lit, Member, Type,
};

verus! {

/// A copy of the names `v`.
pub fn copy_strings(v: &Vec<String>) -> (r: Vec<String>)
    ensures
        strs(r@) == strs(v@),
{
    let mut out: Vec<String> = Vec::new();
    let mut i: usize = 0;
    while i < v.len()
        invariant
            i <= v.len(),
            out.len() == i,
            forall|j: int| 0 <= j < i ==> out@[j]@ == v@[j]@,
        decreases v.len() - i,
    {
        out.push(v[i].clone());
        i += 1;
    }
    assert(strs(out@) =~= strs(v@));
    out
}

/// A copy of the names `o`, if there are any.
pub fn copy_opt_strings(o: &Option<Vec<String>>) -> (r: Option<Vec<String>>)
    ensures
        opt_strs(r) == opt_strs(*o),
{
    match o {
        Some(v) => Some(copy_strings(v)),
        None => None,
    }
}

/// A copy of the name `o`, if there is one.
pub fn copy_opt_string(o: &Option<String>) -> (r: Option<String>)
    ensures
        opt_str(r) == opt_str(*o),
{
    match o {
        Some(s) => Some(s.clone()),
        None => None,
    }
}

impl Lit {
    /// A copy of the literal.
    pub fn copy(&self) -> (r: Lit)
        ensures
            r@ == self@,
    {
        match self {
            Lit::Str(s) => Lit::Str(s.clone()),
            Lit::Num(n) => Lit::Num(*n),
            Lit::Bool(b) => Lit::Bool(*b),
        }
    }
}

impl Key {
    /// A copy of the key.
    pub fn copy(&self) -> (r: Key)
        ensures
            r@ == self@,
    {
        match self {
            Key::Ident(s) => Key::Ident(s.clone()),
            Key::Str(s) => Key::Str(s.clone()),
            Key::Num(n) => Key::Num(*n),
            Key::Symbol(s) => Key::Symbol(s.clone()),
            Key::Opaque => Key::Opaque,
        }
    }
}

/// A copy of the members of an enum.
pub fn copy_enum_members(v: &Vec<EnumMember>) -> (r: Vec<EnumMember>)
    ensures
        enum_members(r@) == enum_members(v@),
{
    let mut out: Vec<EnumMember> = Vec::new();
    let mut i: usize = 0;
    while i < v.len()
        invariant
            i <= v.len(),
            out.len() == i,
            forall|j: int| 0 <= j < i ==> out@[j]@ == v@[j]@,
        decreases v.len() - i,
    {
        out.push(EnumMember { name: v[i].name.clone(), value: v[i].value.copy() });
        i += 1;
    }
    assert(enum_members(out@) =~= enum_members(v@));
    out
}

/// A copy of the type `t`.
pub fn copy_type(t: &Type) -> (r: Type)
    ensures
        r@ == t@,
    decreases t, 0nat,
{
    match t {
        Type::Keyword(k) => Type::Keyword(*k),
        Type::Lit(l) => Type::Lit(l.copy()),
        Type::Union(ts) => Type::Union(copy_types(ts)),
        Type::Intersection(ts) => Type::Intersection(copy_types(ts)),
        Type::Array(e) => Type::Array(Box::new(copy_type(e))),
        Type::Tuple(ts) => Type::Tuple(copy_types(ts)),
        Type::TypeLit(ms) => Type::TypeLit(copy_members(ms)),
        Type::Interface { name, body, extends } => Type::Interface {
            name: name.clone(),
            body: copy_members(body),
            extends: copy_types(extends),
        },
        Type::Class { name, is_abstract, super_class, type_params, body } => Type::Class {
            name: copy_opt_string(name),
            is_abstract: *is_abstract,
            super_class: match super_class {
                Some(s) => Some(Box::new(copy_type(s))),
                None => None,
            },
            type_params: copy_opt_strings(type_params),
            body: copy_members(body),
        },
        Type::ClassInstance { cls, type_args } => Type::ClassInstance {
            cls: Box::new(copy_type(cls)),
            type_args: match type_args {
                Some(ts) => Some(copy_types(ts)),
                None => None,
            },
        },
        Type::Enum { name, is_const, members } => Type::Enum {
            name: name.clone(),
            is_const: *is_const,
            members: copy_enum_members(members),
        },
        Type::EnumVariant { enum_name, name } => Type::EnumVariant {
            enum_name: enum_name.clone(),
            name: name.clone(),
        },
        Type::Function { type_params, params, ret } => Type::Function {
            type_params: copy_opt_strings(type_params),
            params: copy_params(params),
            ret: Box::new(copy_type(ret)),
        },
        Type::Alias { type_params, ty } => Type::Alias {
            type_params: copy_opt_strings(type_params),
            ty: Box::new(copy_type(ty)),
        },
        Type::Module { names, types } => Type::Module {
            names: copy_strings(names),
            types: copy_types(types),
        },
        Type::Param { name } => Type::Param { name: name.clone() },
        Type::This => Type::This,
        Type::Ref { path, type_args } => Type::Ref {
            path: copy_strings(path),
            type_args: match type_args {
                Some(ts) => Some(copy_types(ts)),
                None => None,
            },
        },
        Type::Query { path } => Type::Query { path: copy_strings(path) },
        Type::UniqueSymbol => Type::UniqueSymbol,
    }
}

/// A copy of the types `ts`.
pub fn copy_types(ts: &Vec<Type>) -> (r: Vec<Type>)
    ensures
        types(r@) == types(ts@),
    decreases ts, 1nat,
{
    let mut out: Vec<Type> = Vec::new();
    let mut i: usize = 0;
    while i < ts.len()
        invariant
            i <= ts.len(),
            out.len() == i,
            forall|j: int| 0 <= j < i ==> out@[j]@ == ts@[j]@,
        decreases ts.len() - i,
    {
        out.push(copy_type(&ts[i]));
        i += 1;
    }
    assert(types(out@) =~= types(ts@));
    out
}

/// A copy of the type `o`, if there is one.
pub fn copy_opt_type(o: &Option<Type>) -> (r: Option<Type>)
    ensures
        opt_type(r) == opt_type(*o),
    decreases o, 1nat,
{
    match o {
        Some(t) => Some(copy_type(t)),
        None => None,
    }
}

/// A copy of the types `o`, if there are any.
pub fn copy_opt_types(o: &Option<Vec<Type>>) -> (r: Option<Vec<Type>>)
    ensures
        opt_types(r) == opt_types(*o),
{
    match o {
        Some(ts) => Some(copy_types(ts)),
        None => None,
    }
}

/// A copy of the parameter `p`.
pub fn copy_param(p: &FnParam) -> (r: FnParam)
    ensures
        r@ == p@,
    decreases p, 0nat,
{
    FnParam { required: p.required, ty: copy_type(&p.ty) }
}

/// A copy of the parameters `ps`.
pub fn copy_params(ps: &Vec<FnParam>) -> (r: Vec<FnParam>)
    ensures
        fn_params(r@) == fn_params(ps@),
    decreases ps, 1nat,
{
    let mut out: Vec<FnParam> = Vec::new();
    let mut i: usize = 0;
    while i < ps.len()
        invariant
            i <= ps.len(),
            out.len() == i,
            forall|j: int| 0 <= j < i ==> out@[j]@ == ps@[j]@,
        decreases ps.len() - i,
    {
        out.push(copy_param(&ps[i]));
        i += 1;
    }
    assert(fn_params(out@) =~= fn_params(ps@));
    out
}

/// A copy of the member `m`.
pub fn copy_member(m: &Member) -> (r: Member)
    ensures
        r@ == m@,
    decreases m, 0nat,
{
    match m {
        Member::Call { type_params, params, ret } => Member::Call {
            type_params: copy_opt_strings(type_params),
            params: copy_params(params),
            ret: copy_opt_type(ret),
        },
        Member::Construct { type_params, params, ret } => Member::Construct {
            type_params: copy_opt_strings(type_params),
            params: copy_params(params),
            ret: copy_opt_type(ret),
        },
        Member::Property { key, computed, optional, readonly, is_static, ty } => Member::Property {
            key: key.copy(),
            computed: *computed,
            optional: *optional,
            readonly: *readonly,
            is_static: *is_static,
            ty: copy_opt_type(ty),
        },
        Member::Method { key, computed, optional, is_static, type_params, params, ret } => Member::Method {
            key: key.copy(),
            computed: *computed,
            optional: *optional,
            is_static: *is_static,
            type_params: copy_opt_strings(type_params),
            params: copy_params(params),
            ret: copy_opt_type(ret),
        },
        Member::Index { readonly, key_ty, ty } => Member::Index {
            readonly: *readonly,
            key_ty: copy_type(key_ty),
            ty: copy_opt_type(ty),
        },
    }
}

/// A copy of the members `ms`.
pub fn copy_members(ms: &Vec<Member>) -> (r: Vec<Member>)
    ensures
        members(r@) == members(ms@),
    decreases ms, 1nat,
{
    let mut out: Vec<Member> = Vec::new();
    let mut i: usize = 0;
    while i < ms.len()
        invariant
            i <= ms.len(),
            out.len() == i,
            forall|j: int| 0 <= j < i ==> out@[j]@ == ms@[j]@,
        decreases ms.len() - i,
    {
        out.push(copy_member(&ms[i]));
        i += 1;
    }
    assert(members(out@) =~= members(ms@));
    out
}

impl Clone for Type {
    fn clone(&self) -> (r: Type)
        ensures
            r@ == self@,
    {
        copy_type(self)
    }
}

impl Clone for Member {
    fn clone(&self) -> (r: Member)
        ensures
            r@ == self@,
    {
        copy_member(self)
    }
}

impl Clone for FnParam {
    fn clone(&self) -> (r: FnParam)
        ensures
            r@ == self@,
    {
        copy_param(self)
    }
}

} // verus!
