//! The structural type model.
//!
//! A type is a tree. The executable form owns its parts in vectors and
//! boxes; its view is the same tree over mathematical sequences, and every
//! contract of the analyzer speaks of that view. Two types are the same type
//! when their views are equal: a type carries no source position.

use vstd::prelude::*;
use crate::number::Number;

verus! {

/// The keyword types.
#[derive(Clone, Copy, Debug, PartialEq, Eq, Hash, Structural)]
pub enum Keyword {
    Any,
    Unknown,
    String,
    Number,
    Boolean,
    Void,
    Null,
    Undefined,
    Object,
    Symbol,
    BigInt,
}

/// The value of a literal type.
#[derive(Clone, Debug, PartialEq, Eq)]
pub enum Lit {
    Str(String),
    Num(Number),
    Bool(bool),
}

/// The view of the value of a literal type.
pub ghost enum LitV {
    Str(Seq<char>),
    Num(Number),
    Bool(bool),
}

impl View for Lit {
    type V = LitV;

    open spec fn view(&self) -> LitV {
        match self {
            Lit::Str(s) => LitV::Str(s@),
            Lit::Num(n) => LitV::Num(*n),
            Lit::Bool(b) => LitV::Bool(*b),
        }
    }
}

/// The key of a member, normalised: a member is found by its key, not by
/// its place. A computed key that is neither a literal nor an access to a
/// well-known symbol is opaque and equal to no key.
#[derive(Clone, Debug, PartialEq, Eq)]
pub enum Key {
    Ident(String),
    Str(String),
    Num(Number),
    Symbol(String),
    Opaque,
}

/// The view of a key.
pub ghost enum KeyV {
    Ident(Seq<char>),
    Str(Seq<char>),
    Num(Number),
    Symbol(Seq<char>),
    Opaque,
}

impl View for Key {
    type V = KeyV;

    open spec fn view(&self) -> KeyV {
        match self {
            Key::Ident(s) => KeyV::Ident(s@),
            Key::Str(s) => KeyV::Str(s@),
            Key::Num(n) => KeyV::Num(*n),
            Key::Symbol(s) => KeyV::Symbol(s@),
            Key::Opaque => KeyV::Opaque,
        }
    }
}

/// A member of an enum with the literal that it stands for.
#[derive(Clone, Debug, PartialEq, Eq)]
pub struct EnumMember {
    pub name: String,
    pub value: Lit,
}

/// The view of a member of an enum.
pub ghost struct EnumMemberV {
    pub name: Seq<char>,
    pub value: LitV,
}

impl View for EnumMember {
    type V = EnumMemberV;

    open spec fn view(&self) -> EnumMemberV {
        EnumMemberV { name: self.name@, value: self.value@ }
    }
}

/// A parameter of a signature.
#[derive(Debug, PartialEq, Eq)]
pub struct FnParam {
    pub required: bool,
    pub ty: Type,
}

/// The view of a parameter.
pub ghost struct FnParamV {
    pub required: bool,
    pub ty: TypeV,
}

/// A member of an interface, of a type literal or of a class.
#[derive(Debug, PartialEq, Eq)]
pub enum Member {
    Call { type_params: Option<Vec<String>>, params: Vec<FnParam>, ret: Option<Type> },
    Construct { type_params: Option<Vec<String>>, params: Vec<FnParam>, ret: Option<Type> },
    Property {
        key: Key,
        computed: bool,
        optional: bool,
        readonly: bool,
        is_static: bool,
        ty: Option<Type>,
    },
    Method {
        key: Key,
        computed: bool,
        optional: bool,
        is_static: bool,
        type_params: Option<Vec<String>>,
        params: Vec<FnParam>,
        ret: Option<Type>,
    },
    Index { readonly: bool, key_ty: Type, ty: Option<Type> },
}

/// The view of a member.
pub ghost enum MemberV {
    Call { type_params: Option<Seq<Seq<char>>>, params: Seq<FnParamV>, ret: Option<TypeV> },
    Construct { type_params: Option<Seq<Seq<char>>>, params: Seq<FnParamV>, ret: Option<TypeV> },
    Property {
        key: KeyV,
        computed: bool,
        optional: bool,
        readonly: bool,
        is_static: bool,
        ty: Option<TypeV>,
    },
    Method {
        key: KeyV,
        computed: bool,
        optional: bool,
        is_static: bool,
        type_params: Option<Seq<Seq<char>>>,
        params: Seq<FnParamV>,
        ret: Option<TypeV>,
    },
    Index { readonly: bool, key_ty: TypeV, ty: Option<TypeV> },
}

/// A type.
#[derive(Debug, PartialEq, Eq)]
pub enum Type {
    Keyword(Keyword),
    Lit(Lit),
    /// An ordered set of member types, never empty in a well-formed type.
    Union(Vec<Type>),
    Intersection(Vec<Type>),
    Array(Box<Type>),
    Tuple(Vec<Type>),
    TypeLit(Vec<Member>),
    Interface { name: String, body: Vec<Member>, extends: Vec<Type> },
    Class {
        name: Option<String>,
        is_abstract: bool,
        super_class: Option<Box<Type>>,
        type_params: Option<Vec<String>>,
        body: Vec<Member>,
    },
    /// An instance of the class `cls`.
    ClassInstance { cls: Box<Type>, type_args: Option<Vec<Type>> },
    Enum { name: String, is_const: bool, members: Vec<EnumMember> },
    /// A member of an enum, by the two names: a reference into the enum.
    EnumVariant { enum_name: String, name: String },
    Function { type_params: Option<Vec<String>>, params: Vec<FnParam>, ret: Box<Type> },
    Alias { type_params: Option<Vec<String>>, ty: Box<Type> },
    /// A module, by the table of the types that it exports.
    Module { names: Vec<String>, types: Vec<Type> },
    /// A type parameter that is bound by an enclosing declaration.
    Param { name: String },
    This,
    /// A named reference as it was written, not yet resolved.
    Ref { path: Vec<String>, type_args: Option<Vec<Type>> },
    /// `typeof` of a name, not yet resolved.
    Query { path: Vec<String> },
    UniqueSymbol,
}

/// The view of a type: the type as a mathematical tree.
pub ghost enum TypeV {
    Keyword(Keyword),
    Lit(LitV),
    Union(Seq<TypeV>),
    Intersection(Seq<TypeV>),
    Array(Box<TypeV>),
    Tuple(Seq<TypeV>),
    TypeLit(Seq<MemberV>),
    Interface { name: Seq<char>, body: Seq<MemberV>, extends: Seq<TypeV> },
    Class {
        name: Option<Seq<char>>,
        is_abstract: bool,
        super_class: Option<Box<TypeV>>,
        type_params: Option<Seq<Seq<char>>>,
        body: Seq<MemberV>,
    },
    ClassInstance { cls: Box<TypeV>, type_args: Option<Seq<TypeV>> },
    Enum { name: Seq<char>, is_const: bool, members: Seq<EnumMemberV> },
    EnumVariant { enum_name: Seq<char>, name: Seq<char> },
    Function { type_params: Option<Seq<Seq<char>>>, params: Seq<FnParamV>, ret: Box<TypeV> },
    Alias { type_params: Option<Seq<Seq<char>>>, ty: Box<TypeV> },
    Module { names: Seq<Seq<char>>, types: Seq<TypeV> },
    Param { name: Seq<char> },
    This,
    Ref { path: Seq<Seq<char>>, type_args: Option<Seq<TypeV>> },
    Query { path: Seq<Seq<char>> },
    UniqueSymbol,
}

/// The names in `v`, each as its sequence of characters.
pub open spec fn strs(v: Seq<String>) -> Seq<Seq<char>> {
    v.map_values(|s: String| s@)
}

/// The names in `o`, if there are any.
pub open spec fn opt_strs(o: Option<Vec<String>>) -> Option<Seq<Seq<char>>> {
    match o {
        Some(v) => Some(strs(v@)),
        None => None,
    }
}

/// The name `o`, if there is one.
pub open spec fn opt_str(o: Option<String>) -> Option<Seq<char>> {
    match o {
        Some(s) => Some(s@),
        None => None,
    }
}

/// The views of the members of an enum in `v`, in their order.
pub open spec fn enum_members(v: Seq<EnumMember>) -> Seq<EnumMemberV> {
    v.map_values(|m: EnumMember| m@)
}

/// The view of the type `t`.
pub open spec fn type_view(t: Type) -> TypeV
    decreases t, 0nat,
{
    match t {
        Type::Keyword(k) => TypeV::Keyword(k),
        Type::Lit(l) => TypeV::Lit(l@),
        Type::Union(ts) => TypeV::Union(types(ts@)),
        Type::Intersection(ts) => TypeV::Intersection(types(ts@)),
        Type::Array(e) => TypeV::Array(Box::new(type_view(*e))),
        Type::Tuple(ts) => TypeV::Tuple(types(ts@)),
        Type::TypeLit(ms) => TypeV::TypeLit(members(ms@)),
        Type::Interface { name, body, extends } => TypeV::Interface {
            name: name@,
            body: members(body@),
            extends: types(extends@),
        },
        Type::Class { name, is_abstract, super_class, type_params, body } => TypeV::Class {
            name: opt_str(name),
            is_abstract,
            super_class: match super_class {
                Some(s) => Some(Box::new(type_view(*s))),
                None => None,
            },
            type_params: opt_strs(type_params),
            body: members(body@),
        },
        Type::ClassInstance { cls, type_args } => TypeV::ClassInstance {
            cls: Box::new(type_view(*cls)),
            type_args: match type_args {
                Some(ts) => Some(types(ts@)),
                None => None,
            },
        },
        Type::Enum { name, is_const, members } => TypeV::Enum {
            name: name@,
            is_const,
            members: enum_members(members@),
        },
        Type::EnumVariant { enum_name, name } => TypeV::EnumVariant {
            enum_name: enum_name@,
            name: name@,
        },
        Type::Function { type_params, params, ret } => TypeV::Function {
            type_params: opt_strs(type_params),
            params: fn_params(params@),
            ret: Box::new(type_view(*ret)),
        },
        Type::Alias { type_params, ty } => TypeV::Alias {
            type_params: opt_strs(type_params),
            ty: Box::new(type_view(*ty)),
        },
        Type::Module { names, types: tys } => TypeV::Module {
            names: strs(names@),
            types: types(tys@),
        },
        Type::Param { name } => TypeV::Param { name: name@ },
        Type::This => TypeV::This,
        Type::Ref { path, type_args } => TypeV::Ref {
            path: strs(path@),
            type_args: match type_args {
                Some(ts) => Some(types(ts@)),
                None => None,
            },
        },
        Type::Query { path } => TypeV::Query { path: strs(path@) },
        Type::UniqueSymbol => TypeV::UniqueSymbol,
    }
}

/// The views of the types in `s`, in their order.
pub open spec fn types(s: Seq<Type>) -> Seq<TypeV>
    decreases s, 1nat,
{
    Seq::new(
        s.len(),
        |i: int|
            if 0 <= i < s.len() {
                type_view(s[i])
            } else {
                TypeV::This
            },
    )
}

/// The view of the parameter `p`.
pub open spec fn param_view(p: FnParam) -> FnParamV
    decreases p, 0nat,
{
    FnParamV { required: p.required, ty: type_view(p.ty) }
}

/// The views of the parameters in `s`, in their order.
pub open spec fn fn_params(s: Seq<FnParam>) -> Seq<FnParamV>
    decreases s, 1nat,
{
    Seq::new(
        s.len(),
        |i: int|
            if 0 <= i < s.len() {
                param_view(s[i])
            } else {
                FnParamV { required: false, ty: TypeV::This }
            },
    )
}

/// The view of the member `m`.
pub open spec fn member_view(m: Member) -> MemberV
    decreases m, 0nat,
{
    match m {
        Member::Call { type_params, params, ret } => MemberV::Call {
            type_params: opt_strs(type_params),
            params: fn_params(params@),
            ret: match ret {
                Some(t) => Some(type_view(t)),
                None => None,
            },
        },
        Member::Construct { type_params, params, ret } => MemberV::Construct {
            type_params: opt_strs(type_params),
            params: fn_params(params@),
            ret: match ret {
                Some(t) => Some(type_view(t)),
                None => None,
            },
        },
        Member::Property { key, computed, optional, readonly, is_static, ty } => MemberV::Property {
            key: key@,
            computed,
            optional,
            readonly,
            is_static,
            ty: match ty {
                Some(t) => Some(type_view(t)),
                None => None,
            },
        },
        Member::Method { key, computed, optional, is_static, type_params, params, ret } => MemberV::Method {
            key: key@,
            computed,
            optional,
            is_static,
            type_params: opt_strs(type_params),
            params: fn_params(params@),
            ret: match ret {
                Some(t) => Some(type_view(t)),
                None => None,
            },
        },
        Member::Index { readonly, key_ty, ty } => MemberV::Index {
            readonly,
            key_ty: type_view(key_ty),
            ty: match ty {
                Some(t) => Some(type_view(t)),
                None => None,
            },
        },
    }
}

/// The views of the members in `s`, in their order.
pub open spec fn members(s: Seq<Member>) -> Seq<MemberV>
    decreases s, 1nat,
{
    Seq::new(
        s.len(),
        |i: int|
            if 0 <= i < s.len() {
                member_view(s[i])
            } else {
                MemberV::Index { readonly: false, key_ty: TypeV::This, ty: None }
            },
    )
}

impl View for Type {
    type V = TypeV;

    open spec fn view(&self) -> TypeV {
        type_view(*self)
    }
}

impl View for FnParam {
    type V = FnParamV;

    open spec fn view(&self) -> FnParamV {
        param_view(*self)
    }
}

impl View for Member {
    type V = MemberV;

    open spec fn view(&self) -> MemberV {
        member_view(*self)
    }
}

/// The view of the type `o`, if there is one.
pub open spec fn opt_type(o: Option<Type>) -> Option<TypeV> {
    match o {
        Some(t) => Some(t@),
        None => None,
    }
}

/// The views of the types in `o`, if there are any.
pub open spec fn opt_types(o: Option<Vec<Type>>) -> Option<Seq<TypeV>> {
    match o {
        Some(ts) => Some(types(ts@)),
        None => None,
    }
}

} // verus!
