//! The parts of the typing rules that depend on nothing but their
//! arguments: keys, parameters, negation, assignability, substitution and
//! the rules of the binary operators.

use vstd::prelude::*;
use crate::ast::{CtorParam, Expr, Pat, PropName};
use crate::errors::{Diag, ErrorV};

use crate::span::Span;
use crate::types::{FnParamV, KeyV, Keyword, Lit, LitV, MemberV, TypeV};

verus! {

/// Whether a member is read or written.
#[derive(Clone, Copy, Debug, PartialEq, Eq, Hash, Structural)]
pub enum TypeOfMode {
    /// The member is the target of an assignment.
    LValue,
    RValue,
}

/// Whether a callee is called or constructed.
#[derive(Clone, Copy, Debug, PartialEq, Eq, Hash, Structural)]
pub enum ExtractKind {
    Call,
    New,
}

/// The property that a member access names: the name behind a dot, or the
/// expression between brackets.
pub ghost enum PropV {
    Name { span: Span, sym: Seq<char> },
    Computed(Expr),
}

impl PropV {
    /// The place of the property in the source.
    pub open spec fn span(self) -> Span {
        match self {
            PropV::Name { span, .. } => span,
            PropV::Computed(e) => e.spec_span(),
        }
    }

    /// Whether the property stands between brackets.
    pub open spec fn computed(self) -> bool {
        self is Computed
    }
}

/// Whether `e` reads the variable `Symbol`.
pub open spec fn is_symbol_ident(e: Expr) -> bool {
    e matches Expr::Ident { sym, .. } && sym@ == "Symbol"@
}

/// The key that the expression `e` stands for where it is written as the
/// key of a member.
pub open spec fn key_of_expr(e: Expr, computed: bool) -> KeyV {
    match e {
        Expr::Ident { sym, .. } => if computed {
            KeyV::Opaque
        } else {
            KeyV::Ident(sym@)
        },
        Expr::Lit { lit: Lit::Str(s), .. } => KeyV::Str(s@),
        Expr::Lit { lit: Lit::Num(n), .. } => KeyV::Num(n),
        Expr::Member { obj, prop, computed: false, .. } => match *prop {
            Expr::Ident { sym, .. } => if is_symbol_ident(*obj) {
                KeyV::Symbol(sym@)
            } else {
                KeyV::Opaque
            },
            _ => KeyV::Opaque,
        },
        _ => KeyV::Opaque,
    }
}

/// The key that a property name stands for.
pub open spec fn key_of(p: PropName) -> KeyV {
    match p {
        PropName::Ident { sym, .. } => KeyV::Ident(sym@),
        PropName::Str { value, .. } => KeyV::Str(value@),
        PropName::Num { value, .. } => KeyV::Num(value),
        PropName::Computed { expr, .. } => key_of_expr(*expr, true),
    }
}

/// The key that a member access asks for.
pub open spec fn prop_key(p: PropV) -> KeyV {
    match p {
        PropV::Name { sym, .. } => KeyV::Ident(sym),
        PropV::Computed(e) => key_of_expr(e, true),
    }
}

/// The text of a key that is a name or a string.
pub open spec fn key_text(k: KeyV) -> Option<Seq<char>> {
    match k {
        KeyV::Ident(s) => Some(s),
        KeyV::Str(s) => Some(s),
        _ => None,
    }
}

/// Whether two keys name the same member. A name and a string of the same
/// text do; an opaque key matches nothing.
pub open spec fn keys_match(a: KeyV, b: KeyV) -> bool {
    match a {
        KeyV::Ident(s) => key_text(b) == Some(s),
        KeyV::Str(s) => key_text(b) == Some(s),
        KeyV::Num(n) => b == KeyV::Num(n),
        KeyV::Symbol(s) => b == KeyV::Symbol(s),
        KeyV::Opaque => false,
    }
}

/// Whether two property names name the same member.
pub open spec fn prop_names_match(a: PropName, b: PropName) -> bool {
    keys_match(key_of(a), key_of(b))
}

/// The type `o`, or `any` where there is none.
pub open spec fn type_or_any(o: Option<TypeV>) -> TypeV {
    match o {
        Some(t) => t,
        None => TypeV::Keyword(Keyword::Any),
    }
}

/// The parameter that a pattern declares. A pattern with a default value
/// declares what its left side declares.
pub open spec fn param_of(p: Pat) -> FnParamV
    decreases p,
{
    match p {
        Pat::Ident { optional, type_ann, .. } => FnParamV {
            required: !optional,
            ty: type_or_any(crate::types::opt_type(type_ann)),
        },
        Pat::Array { type_ann, .. } => FnParamV {
            required: true,
            ty: type_or_any(crate::types::opt_type(type_ann)),
        },
        Pat::Rest { type_ann, .. } => FnParamV {
            required: false,
            ty: type_or_any(crate::types::opt_type(type_ann)),
        },
        Pat::Object { type_ann, .. } => FnParamV {
            required: true,
            ty: type_or_any(crate::types::opt_type(type_ann)),
        },
        Pat::Assign { left, .. } => param_of(*left),
        Pat::Other { .. } => FnParamV { required: true, ty: TypeV::Keyword(Keyword::Any) },
    }
}

/// The parameters that the patterns declare, in their order.
pub open spec fn params_of(ps: Seq<Pat>) -> Seq<FnParamV> {
    ps.map_values(|p: Pat| param_of(p))
}

/// The parameter that a parameter of a constructor declares.
pub open spec fn ctor_param_of(p: CtorParam) -> FnParamV {
    match p {
        CtorParam::Pat(p) => param_of(p),
        CtorParam::Prop { optional, type_ann, .. } => FnParamV {
            required: !optional,
            ty: type_or_any(crate::types::opt_type(type_ann)),
        },
    }
}

/// The parameters that the parameters of a constructor declare.
pub open spec fn ctor_params_of(ps: Seq<CtorParam>) -> Seq<FnParamV> {
    ps.map_values(|p: CtorParam| ctor_param_of(p))
}

/// The number of the parameters from position `i` on that a call must give.
pub open spec fn required_from(ps: Seq<FnParamV>, i: int) -> nat
    decreases ps.len() - i,
{
    if i < 0 || i >= ps.len() {
        0
    } else if ps[i].required {
        1 + required_from(ps, i + 1)
    } else {
        required_from(ps, i + 1)
    }
}

/// The number of the parameters that a call must give.
pub open spec fn required_count(ps: Seq<FnParamV>) -> nat {
    required_from(ps, 0)
}

/// The error of a call with `actual` arguments to a signature with the
/// parameters `ps`, if their number does not fit.
pub open spec fn arity_error(span: Span, callee: Span, ps: Seq<FnParamV>, actual: nat) -> Option<
    ErrorV,
> {
    if required_count(ps) <= actual <= ps.len() {
        None
    } else {
        Some(
            ErrorV::Diag(
                Diag::WrongParams {
                    span,
                    callee,
                    min: required_count(ps) as usize,
                    max: ps.len() as usize,
                    actual: actual as usize,
                },
            ),
        )
    }
}

/// The type of `!e` for an operand of type `t`: for a boolean literal its
/// negation, for another literal whether its value is truthy, and `boolean`
/// for every other type.
pub open spec fn negate(t: TypeV) -> TypeV {
    match t {
        TypeV::Lit(LitV::Bool(b)) => TypeV::Lit(LitV::Bool(!b)),
        TypeV::Lit(LitV::Num(n)) => TypeV::Lit(LitV::Bool(!n.is_zero())),
        TypeV::Lit(LitV::Str(s)) => TypeV::Lit(LitV::Bool(s.len() != 0)),
        _ => TypeV::Keyword(Keyword::Boolean),
    }
}

/// A class where an instance of it is meant: the type of its instances.
pub open spec fn instantiate_class(t: TypeV) -> TypeV {
    match t {
        TypeV::Class { .. } => TypeV::ClassInstance { cls: Box::new(t), type_args: None },
        _ => t,
    }
}

/// Whether `t` is `null` or `undefined`.
pub open spec fn is_nullish(t: TypeV) -> bool {
    t == TypeV::Keyword(Keyword::Null) || t == TypeV::Keyword(Keyword::Undefined)
}

/// The members of `ts` from position `i` on that are neither `null` nor
/// `undefined`, behind `acc`.
pub open spec fn non_nullish_from(ts: Seq<TypeV>, i: int, acc: Seq<TypeV>) -> Seq<TypeV>
    decreases ts.len() - i,
{
    if i < 0 || i >= ts.len() {
        acc
    } else if is_nullish(ts[i]) {
        non_nullish_from(ts, i + 1, acc)
    } else {
        non_nullish_from(ts, i + 1, acc.push(ts[i]))
    }
}

/// The type of `e!` for an operand of type `t`: a union loses its members
/// `null` and `undefined`.
pub open spec fn remove_nullish(t: TypeV) -> TypeV {
    match t {
        TypeV::Union(ts) => crate::union::union_of(non_nullish_from(ts, 0, Seq::empty())),
        _ => t,
    }
}

/// Whether a value of type `from` may be used where `to` is expected.
///
/// `any` and `unknown` take every value, and `any` is taken everywhere. A
/// type takes itself and the literals of its kind. A union is given if
/// each of its members is taken, and a union takes what one of its members
/// takes. An array takes an array whose elements its element takes, and a
/// tuple all of whose members its element takes. A tuple takes a tuple of
/// the same length, member by member.
pub open spec fn assignable(to: TypeV, from: TypeV) -> bool
    decreases to, from, 0nat,
{
    if to.is_any() || to.is_unknown() || from.is_any() || to == from || to
        == from.generalize_lit() {
        true
    } else {
        match from {
            TypeV::Union(fs) => all_assignable_from(to, fs, 0),
            _ => match to {
                TypeV::Union(ms) => any_assignable_from(ms, from, 0),
                TypeV::Array(a) => match from {
                    TypeV::Array(b) => assignable(*a, *b),
                    TypeV::Tuple(bs) => all_assignable_from(*a, bs, 0),
                    _ => false,
                },
                TypeV::Tuple(xs) => match from {
                    TypeV::Tuple(bs) => xs.len() == bs.len() && pairs_assignable_from(xs, bs, 0),
                    _ => false,
                },
                _ => false,
            },
        }
    }
}

/// Whether `to` takes each of the types `fs` from position `i` on.
pub open spec fn all_assignable_from(to: TypeV, fs: Seq<TypeV>, i: int) -> bool
    decreases to, fs, fs.len() - i,
{
    if i < 0 || i >= fs.len() {
        true
    } else {
        assignable(to, fs[i]) && all_assignable_from(to, fs, i + 1)
    }
}

/// Whether one of the types `ms` from position `i` on takes `from`.
pub open spec fn any_assignable_from(ms: Seq<TypeV>, from: TypeV, i: int) -> bool
    decreases ms, from, ms.len() - i,
{
    if i < 0 || i >= ms.len() {
        false
    } else {
        assignable(ms[i], from) || any_assignable_from(ms, from, i + 1)
    }
}

/// Whether each of the types `xs` from position `i` on takes the type at
/// its position in `bs`.
pub open spec fn pairs_assignable_from(xs: Seq<TypeV>, bs: Seq<TypeV>, i: int) -> bool
    decreases xs, bs, xs.len() - i,
{
    if i < 0 || i >= xs.len() || i >= bs.len() {
        true
    } else {
        assignable(xs[i], bs[i]) && pairs_assignable_from(xs, bs, i + 1)
    }
}

/// The result of assigning a value of type `from` to a place of type `to`.
pub open spec fn assign(to: TypeV, from: TypeV, span: Span) -> Result<(), ErrorV> {
    if assignable(to, from) {
        Ok(())
    } else {
        Err(ErrorV::Diag(Diag::AssignFailed { span }))
    }
}

/// The position of `name` in `names` at or after `i`.
pub open spec fn name_index_from(names: Seq<Seq<char>>, name: Seq<char>, i: int) -> Option<int>
    decreases names.len() - i,
{
    if i < 0 || i >= names.len() {
        None
    } else if names[i] == name {
        Some(i)
    } else {
        name_index_from(names, name, i + 1)
    }
}

/// The type argument that stands for the type parameter `name`: `any` where
/// no argument is given for it.
pub open spec fn type_arg_for(names: Seq<Seq<char>>, args: Seq<TypeV>, name: Seq<char>) -> Option<
    TypeV,
> {
    match name_index_from(names, name, 0) {
        Some(i) => if i < args.len() {
            Some(args[i])
        } else {
            Some(TypeV::Keyword(Keyword::Any))
        },
        None => None,
    }
}

/// The type `t` with the type parameters `names` replaced by `args`. A
/// parameter is written as a bound parameter or as a plain reference to
/// its name.
pub open spec fn subst(names: Seq<Seq<char>>, args: Seq<TypeV>, t: TypeV) -> TypeV
    decreases t, 0nat,
{
    match t {
        TypeV::Param { name } => match type_arg_for(names, args, name) {
            Some(a) => a,
            None => t,
        },
        TypeV::Ref { path, type_args } => if path.len() == 1 && type_args.is_none()
            && type_arg_for(names, args, path[0]).is_some() {
            type_arg_for(names, args, path[0]).unwrap()
        } else {
            match type_args {
                Some(ts) => TypeV::Ref { path, type_args: Some(subst_all(names, args, ts)) },
                None => t,
            }
        },
        TypeV::Union(ts) => TypeV::Union(subst_all(names, args, ts)),
        TypeV::Intersection(ts) => TypeV::Intersection(subst_all(names, args, ts)),
        TypeV::Array(e) => TypeV::Array(Box::new(subst(names, args, *e))),
        TypeV::Tuple(ts) => TypeV::Tuple(subst_all(names, args, ts)),
        TypeV::TypeLit(ms) => TypeV::TypeLit(subst_members(names, args, ms)),
        TypeV::Function { type_params, params, ret } => TypeV::Function {
            type_params,
            params: subst_params(names, args, params),
            ret: Box::new(subst(names, args, *ret)),
        },
        _ => t,
    }
}

/// The types `ts`, each with the type parameters replaced.
pub open spec fn subst_all(names: Seq<Seq<char>>, args: Seq<TypeV>, ts: Seq<TypeV>) -> Seq<TypeV>
    decreases ts, 1nat,
{
    Seq::new(
        ts.len(),
        |i: int|
            if 0 <= i < ts.len() {
                subst(names, args, ts[i])
            } else {
                TypeV::This
            },
    )
}

/// The parameter `p` with the type parameters replaced in its type.
pub open spec fn subst_param(names: Seq<Seq<char>>, args: Seq<TypeV>, p: FnParamV) -> FnParamV
    decreases p, 0nat,
{
    FnParamV { required: p.required, ty: subst(names, args, p.ty) }
}

/// The parameters `ps`, each with the type parameters replaced.
pub open spec fn subst_params(names: Seq<Seq<char>>, args: Seq<TypeV>, ps: Seq<FnParamV>) -> Seq<
    FnParamV,
>
    decreases ps, 1nat,
{
    Seq::new(
        ps.len(),
        |i: int|
            if 0 <= i < ps.len() {
                subst_param(names, args, ps[i])
            } else {
                ps[i]
            },
    )
}

/// The type `o`, if there is one, with the type parameters replaced.
pub open spec fn subst_opt(names: Seq<Seq<char>>, args: Seq<TypeV>, o: Option<TypeV>) -> Option<
    TypeV,
>
    decreases o, 1nat,
{
    match o {
        Some(t) => Some(subst(names, args, t)),
        None => None,
    }
}

/// The member `m` with the type parameters replaced in its types.
pub open spec fn subst_member(names: Seq<Seq<char>>, args: Seq<TypeV>, m: MemberV) -> MemberV
    decreases m, 0nat,
{
    match m {
        MemberV::Call { type_params, params, ret } => MemberV::Call {
            type_params,
            params: subst_params(names, args, params),
            ret: subst_opt(names, args, ret),
        },
        MemberV::Construct { type_params, params, ret } => MemberV::Construct {
            type_params,
            params: subst_params(names, args, params),
            ret: subst_opt(names, args, ret),
        },
        MemberV::Property { key, computed, optional, readonly, is_static, ty } => MemberV::Property {
            key,
            computed,
            optional,
            readonly,
            is_static,
            ty: subst_opt(names, args, ty),
        },
        MemberV::Method { key, computed, optional, is_static, type_params, params, ret } => MemberV::Method {
            key,
            computed,
            optional,
            is_static,
            type_params,
            params: subst_params(names, args, params),
            ret: subst_opt(names, args, ret),
        },
        MemberV::Index { readonly, key_ty, ty } => MemberV::Index {
            readonly,
            key_ty: subst(names, args, key_ty),
            ty: subst_opt(names, args, ty),
        },
    }
}

/// The members `ms`, each with the type parameters replaced.
pub open spec fn subst_members(names: Seq<Seq<char>>, args: Seq<TypeV>, ms: Seq<MemberV>) -> Seq<
    MemberV,
>
    decreases ms, 1nat,
{
    Seq::new(
        ms.len(),
        |i: int|
            if 0 <= i < ms.len() {
                subst_member(names, args, ms[i])
            } else {
                ms[i]
            },
    )
}

/// Whether the declared type `t` of a parameter is the type parameter
/// `name` itself.
pub open spec fn is_type_param(t: TypeV, name: Seq<char>) -> bool {
    t == (TypeV::Param { name }) || t == (TypeV::Ref { path: seq![name], type_args: None })
}

/// The type that the type parameter `name` stands for where a value of
/// type `actual` is given for the declared type `declared`.
///
/// Where the declared type is the type parameter itself, it stands for the
/// type of the value. Otherwise the two types are walked through side by
/// side: the elements of two arrays, the members of two tuples in their
/// order, the return types of two functions, and each member of a declared
/// union against the whole type of the value. The first place that tells
/// what the type parameter stands for decides.
pub open spec fn unify(name: Seq<char>, declared: TypeV, actual: TypeV) -> Option<TypeV>
    decreases declared, 0nat,
{
    if is_type_param(declared, name) {
        Some(actual)
    } else {
        match declared {
            TypeV::Array(d) => match actual {
                TypeV::Array(a) => unify(name, *d, *a),
                _ => None,
            },
            TypeV::Tuple(ds) => match actual {
                TypeV::Tuple(xs) => unify_pairs_from(name, ds, xs, 0),
                _ => None,
            },
            TypeV::Function { ret: d, .. } => match actual {
                TypeV::Function { ret: a, .. } => unify(name, *d, *a),
                _ => None,
            },
            TypeV::Union(ds) => unify_members_from(name, ds, actual, 0),
            _ => None,
        }
    }
}

/// What the first pair of a declared type and a type of a value from
/// position `i` on tells of the type parameter `name`.
pub open spec fn unify_pairs_from(name: Seq<char>, ds: Seq<TypeV>, xs: Seq<TypeV>, i: int) -> Option<
    TypeV,
>
    decreases ds, ds.len() - i,
{
    if i < 0 || i >= ds.len() || i >= xs.len() {
        None
    } else {
        match unify(name, ds[i], xs[i]) {
            Some(t) => Some(t),
            None => unify_pairs_from(name, ds, xs, i + 1),
        }
    }
}

/// What the first of the declared types from position `i` on tells of the
/// type parameter `name` for a value of type `actual`.
pub open spec fn unify_members_from(name: Seq<char>, ds: Seq<TypeV>, actual: TypeV, i: int) -> Option<
    TypeV,
>
    decreases ds, ds.len() - i,
{
    if i < 0 || i >= ds.len() {
        None
    } else {
        match unify(name, ds[i], actual) {
            Some(t) => Some(t),
            None => unify_members_from(name, ds, actual, i + 1),
        }
    }
}

/// The type that the type parameter `name` stands for by the arguments
/// from position `i` on: what the first parameter that tells it gives, and
/// `any` if none does.
pub open spec fn infer_from(
    name: Seq<char>,
    params: Seq<FnParamV>,
    arg_tys: Seq<TypeV>,
    i: int,
) -> TypeV
    decreases params.len() - i,
{
    if i < 0 || i >= params.len() || i >= arg_tys.len() {
        TypeV::Keyword(Keyword::Any)
    } else {
        match unify(name, params[i].ty, arg_tys[i]) {
            Some(t) => t,
            None => infer_from(name, params, arg_tys, i + 1),
        }
    }
}

/// The type arguments of a call that gives none: each type parameter takes
/// what the declared types of the parameters and the types of the arguments
/// tell of it, position by position.
pub open spec fn infer_type_args(
    names: Seq<Seq<char>>,
    params: Seq<FnParamV>,
    arg_tys: Seq<TypeV>,
) -> Seq<TypeV> {
    Seq::new(names.len(), |k: int| infer_from(names[k], params, arg_tys, 0))
}

} // verus!
