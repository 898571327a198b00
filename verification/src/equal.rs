//! Structural equality of types: two types are equal when their views are.

use vstd::prelude::*;
use crate::types::{
    enum_members, fn_params, members, opt_str, opt_strs, opt_type, opt_types, strs,
    types, EnumMember, FnParam, Key, Lit, Member, Type,
};

verus! {

/// Whether the two lists of names are equal.
pub fn eq_strings(a: &Vec<String>, b: &Vec<String>) -> (r: bool)
    ensures
        r == (strs(a@) == strs(b@)),
{
    if a.len() != b.len() {
        assert(strs(a@).len() != strs(b@).len());
        return false;
    }
    let mut i: usize = 0;
    while i < a.len()
        invariant
            i <= a.len(),
            a.len() == b.len(),
            forall|j: int| 0 <= j < i ==> a@[j]@ == b@[j]@,
        decreases a.len() - i,
    {
        if a[i] != b[i] {
            assert(strs(a@)[i as int] != strs(b@)[i as int]);
            return false;
        }
        i += 1;
    }
    assert(strs(a@) =~= strs(b@));
    true
}

/// Whether the two optional lists of names are equal.
pub fn eq_opt_strings(a: &Option<Vec<String>>, b: &Option<Vec<String>>) -> (r: bool)
    ensures
        r == (opt_strs(*a) == opt_strs(*b)),
{
    match a {
        Some(x) => match b {
            Some(y) => eq_strings(x, y),
            None => false,
        },
        None => match b {
            Some(_) => false,
            None => true,
        },
    }
}

/// Whether the two optional names are equal.
pub fn eq_opt_string(a: &Option<String>, b: &Option<String>) -> (r: bool)
    ensures
        r == (opt_str(*a) == opt_str(*b)),
{
    match a {
        Some(x) => match b {
            Some(y) => *x == *y,
            None => false,
        },
        None => match b {
            Some(_) => false,
            None => true,
        },
    }
}

impl Lit {
    /// Whether the two literals are equal.
    pub fn same(&self, other: &Lit) -> (r: bool)
        ensures
            r == (self@ == other@),
    {
        match self {
            Lit::Str(x) => match other {
                Lit::Str(y) => *x == *y,
                _ => false,
            },
            Lit::Num(x) => match other {
                Lit::Num(y) => *x == *y,
                _ => false,
            },
            Lit::Bool(x) => match other {
                Lit::Bool(y) => *x == *y,
                _ => false,
            },
        }
    }
}

impl Key {
    /// Whether the two keys are equal.
    pub fn same(&self, other: &Key) -> (r: bool)
        ensures
            r == (self@ == other@),
    {
        match self {
            Key::Ident(x) => match other {
                Key::Ident(y) => *x == *y,
                _ => false,
            },
            Key::Str(x) => match other {
                Key::Str(y) => *x == *y,
                _ => false,
            },
            Key::Num(x) => match other {
                Key::Num(y) => *x == *y,
                _ => false,
            },
            Key::Symbol(x) => match other {
                Key::Symbol(y) => *x == *y,
                _ => false,
            },
            Key::Opaque => match other {
                Key::Opaque => true,
                _ => false,
            },
        }
    }
}

/// Whether the two lists of members of an enum are equal.
pub fn eq_enum_members(a: &Vec<EnumMember>, b: &Vec<EnumMember>) -> (r: bool)
    ensures
        r == (enum_members(a@) == enum_members(b@)),
{
    if a.len() != b.len() {
        assert(enum_members(a@).len() != enum_members(b@).len());
        return false;
    }
    let mut i: usize = 0;
    while i < a.len()
        invariant
            i <= a.len(),
            a.len() == b.len(),
            forall|j: int| 0 <= j < i ==> a@[j]@ == b@[j]@,
        decreases a.len() - i,
    {
        if !(a[i].name == b[i].name && a[i].value.same(&b[i].value)) {
            assert(enum_members(a@)[i as int] != enum_members(b@)[i as int]);
            return false;
        }
        i += 1;
    }
    assert(enum_members(a@) =~= enum_members(b@));
    true
}

/// Whether the two types are the same type.
pub fn eq_type(a: &Type, b: &Type) -> (r: bool)
    ensures
        r == (a@ == b@),
    decreases a, 0nat,
{
    match a {
        Type::Keyword(x) => match b {
            Type::Keyword(y) => *x == *y,
            _ => false,
        },
        Type::Lit(x) => match b {
            Type::Lit(y) => x.same(y),
            _ => false,
        },
        Type::Union(x) => match b {
            Type::Union(y) => eq_types(x, y),
            _ => false,
        },
        Type::Intersection(x) => match b {
            Type::Intersection(y) => eq_types(x, y),
            _ => false,
        },
        Type::Array(x) => match b {
            Type::Array(y) => eq_type(x, y),
            _ => false,
        },
        Type::Tuple(x) => match b {
            Type::Tuple(y) => eq_types(x, y),
            _ => false,
        },
        Type::TypeLit(x) => match b {
            Type::TypeLit(y) => eq_members(x, y),
            _ => false,
        },
        Type::Interface { name, body, extends } => match b {
            Type::Interface { name: name2, body: body2, extends: extends2 } => {
                *name == *name2 && eq_members(body, body2) && eq_types(extends, extends2)
            },
            _ => false,
        },
        Type::Class { name, is_abstract, super_class, type_params, body } => match b {
            Type::Class {
                name: name2,
                is_abstract: is_abstract2,
                super_class: super_class2,
                type_params: type_params2,
                body: body2,
            } => {
                let same_super = match super_class {
                    Some(x) => match super_class2 {
                        Some(y) => eq_type(x, y),
                        None => false,
                    },
                    None => match super_class2 {
                        Some(_) => false,
                        None => true,
                    },
                };
                same_super && eq_opt_string(name, name2) && *is_abstract == *is_abstract2
                    && eq_opt_strings(type_params, type_params2) && eq_members(body, body2)
            },
            _ => false,
        },
        Type::ClassInstance { cls, type_args } => match b {
            Type::ClassInstance { cls: cls2, type_args: type_args2 } => {
                eq_type(cls, cls2) && eq_opt_types(type_args, type_args2)
            },
            _ => false,
        },
        Type::Enum { name, is_const, members } => match b {
            Type::Enum { name: name2, is_const: is_const2, members: members2 } => {
                *name == *name2 && *is_const == *is_const2 && eq_enum_members(members, members2)
            },
            _ => false,
        },
        Type::EnumVariant { enum_name, name } => match b {
            Type::EnumVariant { enum_name: enum_name2, name: name2 } => {
                *enum_name == *enum_name2 && *name == *name2
            },
            _ => false,
        },
        Type::Function { type_params, params, ret } => match b {
            Type::Function { type_params: type_params2, params: params2, ret: ret2 } => {
                eq_opt_strings(type_params, type_params2) && eq_params(params, params2) && eq_type(
                    ret,
                    ret2,
                )
            },
            _ => false,
        },
        Type::Alias { type_params, ty } => match b {
            Type::Alias { type_params: type_params2, ty: ty2 } => {
                eq_opt_strings(type_params, type_params2) && eq_type(ty, ty2)
            },
            _ => false,
        },
        Type::Module { names, types } => match b {
            Type::Module { names: names2, types: types2 } => {
                eq_strings(names, names2) && eq_types(types, types2)
            },
            _ => false,
        },
        Type::Param { name } => match b {
            Type::Param { name: name2 } => *name == *name2,
            _ => false,
        },
        Type::This => match b {
            Type::This => true,
            _ => false,
        },
        Type::Ref { path, type_args } => match b {
            Type::Ref { path: path2, type_args: type_args2 } => {
                eq_strings(path, path2) && eq_opt_types(type_args, type_args2)
            },
            _ => false,
        },
        Type::Query { path } => match b {
            Type::Query { path: path2 } => eq_strings(path, path2),
            _ => false,
        },
        Type::UniqueSymbol => match b {
            Type::UniqueSymbol => true,
            _ => false,
        },
    }
}

/// Whether the two lists of types are equal.
pub fn eq_types(a: &Vec<Type>, b: &Vec<Type>) -> (r: bool)
    ensures
        r == (types(a@) == types(b@)),
    decreases a, 1nat,
{
    if a.len() != b.len() {
        assert(types(a@).len() != types(b@).len());
        return false;
    }
    let mut i: usize = 0;
    while i < a.len()
        invariant
            i <= a.len(),
            a.len() == b.len(),
            forall|j: int| 0 <= j < i ==> a@[j]@ == b@[j]@,
        decreases a.len() - i,
    {
        if !eq_type(&a[i], &b[i]) {
            assert(types(a@)[i as int] != types(b@)[i as int]);
            return false;
        }
        i += 1;
    }
    assert(types(a@) =~= types(b@));
    true
}

/// Whether the two optional lists of types are equal.
pub fn eq_opt_types(a: &Option<Vec<Type>>, b: &Option<Vec<Type>>) -> (r: bool)
    ensures
        r == (opt_types(*a) == opt_types(*b)),
    decreases a, 2nat,
{
    match a {
        Some(x) => match b {
            Some(y) => eq_types(x, y),
            None => false,
        },
        None => match b {
            Some(_) => false,
            None => true,
        },
    }
}

/// Whether the two optional types are equal.
pub fn eq_opt_type(a: &Option<Type>, b: &Option<Type>) -> (r: bool)
    ensures
        r == (opt_type(*a) == opt_type(*b)),
    decreases a, 1nat,
{
    match a {
        Some(x) => match b {
            Some(y) => eq_type(x, y),
            None => false,
        },
        None => match b {
            Some(_) => false,
            None => true,
        },
    }
}

/// Whether the two parameters are equal.
pub fn eq_param(a: &FnParam, b: &FnParam) -> (r: bool)
    ensures
        r == (a@ == b@),
    decreases a, 0nat,
{
    a.required == b.required && eq_type(&a.ty, &b.ty)
}

/// Whether the two lists of parameters are equal.
pub fn eq_params(a: &Vec<FnParam>, b: &Vec<FnParam>) -> (r: bool)
    ensures
        r == (fn_params(a@) == fn_params(b@)),
    decreases a, 1nat,
{
    if a.len() != b.len() {
        assert(fn_params(a@).len() != fn_params(b@).len());
        return false;
    }
    let mut i: usize = 0;
    while i < a.len()
        invariant
            i <= a.len(),
            a.len() == b.len(),
            forall|j: int| 0 <= j < i ==> a@[j]@ == b@[j]@,
        decreases a.len() - i,
    {
        if !eq_param(&a[i], &b[i]) {
            assert(fn_params(a@)[i as int] != fn_params(b@)[i as int]);
            return false;
        }
        i += 1;
    }
    assert(fn_params(a@) =~= fn_params(b@));
    true
}

/// Whether the two members are equal.
pub fn eq_member(a: &Member, b: &Member) -> (r: bool)
    ensures
        r == (a@ == b@),
    decreases a, 0nat,
{
    match a {
        Member::Call { type_params, params, ret } => match b {
            Member::Call { type_params: type_params2, params: params2, ret: ret2 } => {
                eq_opt_strings(type_params, type_params2) && eq_params(params, params2)
                    && eq_opt_type(ret, ret2)
            },
            _ => false,
        },
        Member::Construct { type_params, params, ret } => match b {
            Member::Construct { type_params: type_params2, params: params2, ret: ret2 } => {
                eq_opt_strings(type_params, type_params2) && eq_params(params, params2)
                    && eq_opt_type(ret, ret2)
            },
            _ => false,
        },
        Member::Property { key, computed, optional, readonly, is_static, ty } => match b {
            Member::Property {
                key: key2,
                computed: computed2,
                optional: optional2,
                readonly: readonly2,
                is_static: is_static2,
                ty: ty2,
            } => {
                key.same(key2) && *computed == *computed2 && *optional == *optional2 && *readonly
                    == *readonly2 && *is_static == *is_static2 && eq_opt_type(ty, ty2)
            },
            _ => false,
        },
        Member::Method { key, computed, optional, is_static, type_params, params, ret } => match b {
            Member::Method {
                key: key2,
                computed: computed2,
                optional: optional2,
                is_static: is_static2,
                type_params: type_params2,
                params: params2,
                ret: ret2,
            } => {
                key.same(key2) && *computed == *computed2 && *optional == *optional2 && *is_static
                    == *is_static2 && eq_opt_strings(type_params, type_params2) && eq_params(
                    params,
                    params2,
                ) && eq_opt_type(ret, ret2)
            },
            _ => false,
        },
        Member::Index { readonly, key_ty, ty } => match b {
            Member::Index { readonly: readonly2, key_ty: key_ty2, ty: ty2 } => {
                *readonly == *readonly2 && eq_type(key_ty, key_ty2) && eq_opt_type(ty, ty2)
            },
            _ => false,
        },
    }
}

/// Whether the two lists of members are equal.
pub fn eq_members(a: &Vec<Member>, b: &Vec<Member>) -> (r: bool)
    ensures
        r == (members(a@) == members(b@)),
    decreases a, 1nat,
{
    if a.len() != b.len() {
        assert(members(a@).len() != members(b@).len());
        return false;
    }
    let mut i: usize = 0;
    while i < a.len()
        invariant
            i <= a.len(),
            a.len() == b.len(),
            forall|j: int| 0 <= j < i ==> a@[j]@ == b@[j]@,
        decreases a.len() - i,
    {
        if !eq_member(&a[i], &b[i]) {
            assert(members(a@)[i as int] != members(b@)[i as int]);
            return false;
        }
        i += 1;
    }
    assert(members(a@) =~= members(b@));
    true
}

impl Type {
    /// Whether the two types are the same type.
    pub fn same(&self, other: &Type) -> (r: bool)
        ensures
            r == (self@ == other@),
    {
        eq_type(self, other)
    }
}

} // verus!
