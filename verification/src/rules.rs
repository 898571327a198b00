//! The typing rules, as mathematical functions.
//!
//! A rule takes the environment, the state before it and what it is about,
//! and gives its result with the state after it. The rules call each other
//! to any depth, so each takes the depth that is left to it: a rule that is
//! out of depth fails. The executable analyzer is proved to compute exactly
//! these functions.

use vstd::prelude::*;
use crate::ast::{Arg, ArrayElem, BinaryOp, Class, ClassItem, Expr, Function, Prop, UnaryOp};
use crate::bin::{bin_diags, bin_result};
use crate::errors::{Diag, ErrorV, Unsupported};
use crate::model::{
    arity_error, assign, ctor_params_of, infer_type_args, instantiate_class, key_of, key_of_expr,
    keys_match, negate, params_of, prop_key, remove_nullish, subst, type_or_any, ExtractKind,
    PropV, TypeOfMode,
};
use crate::scope::EnvV;
use crate::span::Span;
use crate::state::StateV;
use crate::types::{
    opt_strs, opt_type, opt_types, EnumMemberV, FnParamV, KeyV, Keyword, LitV, MemberV, TypeV,
};
use crate::union::union_of;

verus! {

/// The result of an inference with the state behind it.
pub type Outcome = (Result<TypeV, ErrorV>, StateV);

/// The error of one diagnostic.
pub open spec fn err(d: Diag) -> ErrorV {
    ErrorV::Diag(d)
}

/// The error of a construct that is not handled.
pub open spec fn unsupported(span: Span, what: Unsupported) -> ErrorV {
    ErrorV::Diag(Diag::Unsupported { span, what })
}

/// The keyword type `k`.
pub open spec fn kw(k: Keyword) -> TypeV {
    TypeV::Keyword(k)
}

/// The type of the identifier `sym` at `span`.
pub open spec fn type_of_ident(env: EnvV, span: Span, sym: Seq<char>, mode: TypeOfMode) -> Result<
    TypeV,
    ErrorV,
> {
    if sym == "arguments"@ {
        Ok(kw(Keyword::Any))
    } else if sym == "Symbol"@ {
        match env.builtin_var(sym) {
            Some(t) => Ok(t),
            None => Err(err(Diag::TS2585 { span })),
        }
    } else if sym == "undefined"@ {
        Ok(kw(Keyword::Undefined))
    } else if sym == "void"@ {
        Ok(kw(Keyword::Any))
    } else if sym == "eval"@ {
        match mode {
            TypeOfMode::LValue => Err(err(Diag::CannotAssignToNonVariable { span })),
            TypeOfMode::RValue => Ok(
                TypeV::Function {
                    type_params: None,
                    params: Seq::empty(),
                    ret: Box::new(kw(Keyword::Any)),
                },
            ),
        }
    } else if sym == "require"@ {
        Err(unsupported(span, Unsupported::Require))
    } else if env.import(sym).is_some() {
        Ok(env.import(sym).unwrap())
    } else if env.find_type(sym).is_some() {
        Ok(env.find_type(sym).unwrap())
    } else if env.is_declaring(sym) {
        if env.allow_ref_declaring {
            Ok(kw(Keyword::Any))
        } else {
            Err(err(Diag::ReferencedInInit { span }))
        }
    } else if env.find_var_type(sym).is_some() {
        Ok(env.find_var_type(sym).unwrap())
    } else if env.find_var(sym).is_some() {
        Ok(kw(Keyword::Any))
    } else if env.builtin_var(sym).is_some() {
        Ok(env.builtin_var(sym).unwrap())
    } else {
        Err(err(Diag::UndefinedSymbol { span }))
    }
}

/// Whether `sym` is one of the names whose type is fixed.
pub open spec fn is_fixed_name(sym: Seq<char>) -> bool {
    sym == "arguments"@ || sym == "Symbol"@ || sym == "undefined"@ || sym == "void"@ || sym
        == "eval"@ || sym == "require"@
}

/// The guard against self-reference: a name that the current scope is
/// initializing, and that is neither a fixed name, an import nor a type, is
/// not read by its own initializer. Where such a reference is permitted it
/// has the type `any`, and else the lookup fails.
pub proof fn lemma_self_reference_guard(env: EnvV, span: Span, sym: Seq<char>, mode: TypeOfMode)
    requires
        env.is_declaring(sym),
        !is_fixed_name(sym),
        env.import(sym).is_none(),
        env.find_type(sym).is_none(),
    ensures
        type_of_ident(env, span, sym, mode) == (if env.allow_ref_declaring {
            Ok::<TypeV, ErrorV>(kw(Keyword::Any))
        } else {
            Err::<TypeV, ErrorV>(err(Diag::ReferencedInInit { span }))
        }),
{
}

/// The type of a unary expression whose operand has the type `t`.
pub open spec fn unary_type(op: UnaryOp, arg_span: Span, t: TypeV) -> Result<TypeV, ErrorV> {
    if t.is_unknown() {
        Err(err(Diag::Unknown { span: arg_span }))
    } else {
        Ok(
            match op {
                UnaryOp::TypeOf => kw(Keyword::String),
                UnaryOp::Delete => kw(Keyword::Boolean),
                UnaryOp::Void => kw(Keyword::Undefined),
                UnaryOp::Minus => kw(Keyword::Number),
                UnaryOp::Plus => kw(Keyword::Number),
                UnaryOp::Tilde => kw(Keyword::Number),
                UnaryOp::Bang => negate(t),
            },
        )
    }
}

/// Whether an expression in a sequence can have no effect: a literal, an
/// identifier, an arrow, or `-`, `+` or `!` applied to anything.
pub open spec fn is_effect_free(e: Expr) -> bool {
    match e {
        Expr::Ident { .. } => true,
        Expr::Lit { .. } => true,
        Expr::Null { .. } => true,
        Expr::Regex { .. } => true,
        Expr::Arrow { .. } => true,
        Expr::Unary { op: UnaryOp::Minus, .. } => true,
        Expr::Unary { op: UnaryOp::Plus, .. } => true,
        Expr::Unary { op: UnaryOp::Bang, .. } => true,
        _ => false,
    }
}

/// Whether `e` is an identifier that the current scope is initializing.
pub open spec fn is_declaring_ident(env: EnvV, e: Expr) -> bool {
    e matches Expr::Ident { sym, .. } && env.is_declaring(sym@)
}

/// The member named `name` of an enum.
pub open spec fn enum_member_from(ms: Seq<EnumMemberV>, name: Seq<char>, i: int) -> Option<
    EnumMemberV,
>
    decreases ms.len() - i,
{
    if i < 0 || i >= ms.len() {
        None
    } else if ms[i].name == name {
        Some(ms[i])
    } else {
        enum_member_from(ms, name, i + 1)
    }
}

/// The type of a member access on an enum.
pub open spec fn access_enum(
    span: Span,
    is_const: bool,
    ms: Seq<EnumMemberV>,
    prop: PropV,
    mode: TypeOfMode,
) -> Result<TypeV, ErrorV> {
    if is_const && prop.computed() {
        Err(err(Diag::ConstEnumNonIndexAccess { span: prop.span() }))
    } else if is_const && mode == TypeOfMode::LValue {
        Err(err(Diag::InvalidLValue { span: prop.span() }))
    } else {
        match prop_key(prop) {
            KeyV::Ident(s) => match enum_member_from(ms, s, 0) {
                Some(m) => Ok(TypeV::Lit(m.value)),
                None => Err(err(Diag::NoSuchProperty { span })),
            },
            KeyV::Str(s) => match enum_member_from(ms, s, 0) {
                Some(m) => Ok(TypeV::Lit(m.value)),
                None => Err(err(Diag::NoSuchProperty { span })),
            },
            KeyV::Num(n) => if 0 <= n.spec_round() < ms.len() {
                Ok(TypeV::Lit(ms[n.spec_round()].value))
            } else {
                Ok(kw(Keyword::String))
            },
            _ => Err(unsupported(span, Unsupported::EnumAccess)),
        }
    }
}

/// The type of the member of a class body that the key names, from
/// position `i` on. While the class property `declaring` is being
/// initialized, a scan that meets it fails.
pub open spec fn access_class_from(
    span: Span,
    body: Seq<MemberV>,
    key: KeyV,
    mode: TypeOfMode,
    declaring: Option<Seq<char>>,
    i: int,
) -> Result<TypeV, ErrorV>
    decreases body.len() - i,
{
    if i < 0 || i >= body.len() {
        Err(err(Diag::NoSuchProperty { span }))
    } else {
        match body[i] {
            MemberV::Property { key: k, readonly, ty, .. } => if declaring.is_some() && k
                == KeyV::Ident(declaring.unwrap()) {
                Err(err(Diag::ReferencedInInit { span }))
            } else if keys_match(k, key) {
                if mode == TypeOfMode::LValue && readonly {
                    Err(err(Diag::ReadOnly { span }))
                } else {
                    Ok(type_or_any(ty))
                }
            } else {
                access_class_from(span, body, key, mode, declaring, i + 1)
            },
            MemberV::Method { key: k, type_params, params, ret, .. } => if keys_match(k, key) {
                Ok(TypeV::Function { type_params, params, ret: Box::new(type_or_any(ret)) })
            } else {
                access_class_from(span, body, key, mode, declaring, i + 1)
            },
            _ => access_class_from(span, body, key, mode, declaring, i + 1),
        }
    }
}

/// The type of the named member that the key names, from position `i` on.
pub open spec fn access_named_from(
    span: Span,
    ms: Seq<MemberV>,
    key: KeyV,
    mode: TypeOfMode,
    i: int,
) -> Option<Result<TypeV, ErrorV>>
    decreases ms.len() - i,
{
    if i < 0 || i >= ms.len() {
        None
    } else {
        match ms[i] {
            MemberV::Property { key: k, readonly, ty, .. } => if keys_match(k, key) {
                if mode == TypeOfMode::LValue && readonly {
                    Some(Err(err(Diag::ReadOnly { span })))
                } else {
                    Some(Ok(type_or_any(ty)))
                }
            } else {
                access_named_from(span, ms, key, mode, i + 1)
            },
            MemberV::Method { key: k, type_params, params, ret, .. } => if keys_match(k, key) {
                Some(
                    Ok(TypeV::Function { type_params, params, ret: Box::new(type_or_any(ret)) }),
                )
            } else {
                access_named_from(span, ms, key, mode, i + 1)
            },
            _ => access_named_from(span, ms, key, mode, i + 1),
        }
    }
}

/// The value type of the first index signature from position `i` on whose
/// key type is `key_ty`.
pub open spec fn access_index_from(ms: Seq<MemberV>, key_ty: TypeV, i: int) -> Option<TypeV>
    decreases ms.len() - i,
{
    if i < 0 || i >= ms.len() {
        None
    } else {
        match ms[i] {
            MemberV::Index { key_ty: k, ty, .. } => if k == key_ty {
                Some(type_or_any(ty))
            } else {
                access_index_from(ms, key_ty, i + 1)
            },
            _ => access_index_from(ms, key_ty, i + 1),
        }
    }
}

/// The type of a member access on the members of an interface or of a type
/// literal: the named member that the key names, else the index signature
/// that takes a key of type `key_ty`.
pub open spec fn access_members(
    span: Span,
    ms: Seq<MemberV>,
    key: KeyV,
    key_ty: TypeV,
    mode: TypeOfMode,
) -> Result<TypeV, ErrorV> {
    match access_named_from(span, ms, key, mode, 0) {
        Some(r) => r,
        None => match access_index_from(ms, key_ty, 0) {
            Some(t) => Ok(t),
            None => Err(err(Diag::NoSuchProperty { span })),
        },
    }
}

/// The type that a module exports under `name`, from position `i` on.
pub open spec fn access_module_from(
    names: Seq<Seq<char>>,
    tys: Seq<TypeV>,
    name: Seq<char>,
    i: int,
) -> Option<TypeV>
    decreases names.len() - i,
{
    if i < 0 || i >= names.len() || i >= tys.len() {
        None
    } else if names[i] == name {
        Some(tys[i])
    } else {
        access_module_from(names, tys, name, i + 1)
    }
}

/// The name of the built-in interface that stands for a keyword type.
pub open spec fn builtin_interface(k: Keyword) -> Option<Seq<char>> {
    match k {
        Keyword::String => Some("String"@),
        Keyword::Number => Some("Number"@),
        Keyword::Boolean => Some("Boolean"@),
        Keyword::Object => Some("Object"@),
        Keyword::Symbol => Some("Symbol"@),
        _ => None,
    }
}

/// The methods among `ms` from position `i` on that the key names, behind
/// `acc`.
pub open spec fn methods_from(ms: Seq<MemberV>, key: KeyV, i: int, acc: Seq<MemberV>) -> Seq<
    MemberV,
>
    decreases ms.len() - i,
{
    if i < 0 || i >= ms.len() {
        acc
    } else {
        match ms[i] {
            MemberV::Method { key: k, .. } => if keys_match(k, key) {
                methods_from(ms, key, i + 1, acc.push(ms[i]))
            } else {
                methods_from(ms, key, i + 1, acc)
            },
            _ => methods_from(ms, key, i + 1, acc),
        }
    }
}

/// The members of the built-in interface `Object`.
pub open spec fn object_members(env: EnvV) -> Seq<MemberV> {
    match env.builtin_type("Object"@) {
        Some(TypeV::Interface { body, .. }) => body,
        _ => Seq::empty(),
    }
}

/// The first candidate from position `i` on that takes `n` arguments.
pub open spec fn by_arity_from(cs: Seq<MemberV>, n: nat, i: int) -> Option<MemberV>
    decreases cs.len() - i,
{
    if i < 0 || i >= cs.len() {
        None
    } else {
        match cs[i] {
            MemberV::Method { params, .. } => if params.len() == n {
                Some(cs[i])
            } else {
                by_arity_from(cs, n, i + 1)
            },
            _ => by_arity_from(cs, n, i + 1),
        }
    }
}

/// The method that a call with `n` arguments means among the candidates:
/// the only one, or the first that takes `n` arguments.
pub open spec fn pick_method(span: Span, cs: Seq<MemberV>, n: nat) -> Result<MemberV, ErrorV> {
    if cs.len() == 0 {
        Err(unsupported(span, Unsupported::NoMethod))
    } else if cs.len() == 1 {
        Ok(cs[0])
    } else {
        match by_arity_from(cs, n, 0) {
            Some(m) => Ok(m),
            None => Err(unsupported(span, Unsupported::AmbiguousMethod)),
        }
    }
}

/// The return type of the first method of a class body from position `i`
/// on that the key names.
pub open spec fn class_method_from(body: Seq<MemberV>, key: KeyV, i: int) -> Option<TypeV>
    decreases body.len() - i,
{
    if i < 0 || i >= body.len() {
        None
    } else {
        match body[i] {
            MemberV::Method { key: k, ret, .. } => if keys_match(k, key) {
                Some(type_or_any(ret))
            } else {
                class_method_from(body, key, i + 1)
            },
            _ => class_method_from(body, key, i + 1),
        }
    }
}

/// The error of a callee without a signature of the kind `kind`.
pub open spec fn no_signature(span: Span, kind: ExtractKind) -> ErrorV {
    match kind {
        ExtractKind::Call => err(Diag::NoCallSignature { span }),
        ExtractKind::New => err(Diag::NoNewSignature { span }),
    }
}

/// The member of a class that a class item declares, with the state behind
/// it. A method without a declared return type takes the one that was
/// inferred for its body. A private item declares no member.
pub open spec fn class_member_of(st: StateV, item: ClassItem) -> (Option<MemberV>, StateV) {
    match item {
        ClassItem::Constructor { params, .. } => (
            Some(
                MemberV::Construct {
                    type_params: None,
                    params: ctor_params_of(params@),
                    ret: None,
                },
            ),
            st,
        ),
        ClassItem::Method { key, is_static, function, .. } => {
            let (ret, st1) = match function.return_type {
                Some(t) => (t@, st),
                None => {
                    let (inferred, st1) = st.infer_return_type(function.span);
                    (type_or_any(inferred), st1)
                },
            };
            (
                Some(
                    MemberV::Method {
                        key: key_of(key),
                        computed: key is Computed,
                        optional: false,
                        is_static,
                        type_params: opt_strs(function.type_params),
                        params: params_of(function.params@),
                        ret: Some(ret),
                    },
                ),
                st1,
            )
        },
        ClassItem::Prop { key, computed, type_ann, is_static, is_optional, readonly, .. } => (
            Some(
                MemberV::Property {
                    key: key_of_expr(key, computed),
                    computed,
                    optional: is_optional,
                    readonly,
                    is_static,
                    ty: opt_type(type_ann),
                },
            ),
            st,
        ),
        ClassItem::Index { readonly, key_ty, type_ann, .. } => (
            Some(MemberV::Index { readonly, key_ty: key_ty@, ty: opt_type(type_ann) }),
            st,
        ),
        ClassItem::PrivateMethod { .. } => (None, st),
        ClassItem::PrivateProp { .. } => (None, st),
    }
}

/// The members that the class items from position `i` on declare, behind
/// `acc`.
pub open spec fn class_members_from(st: StateV, items: Seq<ClassItem>, i: int, acc: Seq<MemberV>) -> (
    Seq<MemberV>,
    StateV,
)
    decreases items.len() - i,
{
    if i < 0 || i >= items.len() {
        (acc, st)
    } else {
        let (m, st1) = class_member_of(st, items[i]);
        match m {
            Some(m) => class_members_from(st1, items, i + 1, acc.push(m)),
            None => class_members_from(st1, items, i + 1, acc),
        }
    }
}

/// The type of the expression `e`.
pub open spec fn type_of(env: EnvV, st: StateV, e: Expr, mode: TypeOfMode, fuel: nat) -> Outcome
    decreases fuel, 0nat, 0nat,
{
    if fuel == 0 {
        (Err(unsupported(e.spec_span(), Unsupported::Depth)), st)
    } else {
        let f = (fuel - 1) as nat;
        match e {
            Expr::This { .. } => (
                Ok(
                    match env.this_type() {
                        Some(t) => t,
                        None => TypeV::This,
                    },
                ),
                st,
            ),
            Expr::Ident { span, sym } => (type_of_ident(env, span, sym@, mode), st),
            Expr::Array { elems, .. } => array_elems(env, st, elems@, 0, Seq::empty(), f),
            Expr::Lit { lit, .. } => (Ok(TypeV::Lit(lit@)), st),
            Expr::Null { .. } => (Ok(kw(Keyword::Null)), st),
            Expr::Regex { .. } => (
                Ok(TypeV::Ref { path: seq!["RegExp"@], type_args: None }),
                st,
            ),
            Expr::Paren { expr, .. } => type_of(env, st, *expr, TypeOfMode::RValue, f),
            Expr::Tpl { text, exprs, .. } => (
                Ok(
                    if exprs@.len() == 0 {
                        TypeV::Lit(LitV::Str(text@))
                    } else {
                        kw(Keyword::String)
                    },
                ),
                st,
            ),
            Expr::Bin { span, op, left, right } => bin_expr(env, st, span, op, *left, *right, f),
            Expr::Unary { op, arg, .. } => {
                let (r, st1) = type_of(env, st, *arg, TypeOfMode::RValue, f);
                match r {
                    Ok(t) => (unary_type(op, arg.spec_span(), t), st1),
                    Err(e) => (Err(e), st1),
                }
            },
            Expr::TsAs { ty, .. } => (Ok(instantiate_class(ty@)), st),
            Expr::TsTypeAssertion { ty, .. } => (Ok(ty@), st),
            Expr::TsNonNull { expr, .. } => {
                let (r, st1) = type_of(env, st, *expr, TypeOfMode::RValue, f);
                match r {
                    Ok(t) => (Ok(remove_nullish(t)), st1),
                    Err(e) => (Err(e), st1),
                }
            },
            Expr::Object { props, .. } => object_props(env, st, props@, 0, Seq::empty(), None, f),
            Expr::Yield { .. } => (Ok(kw(Keyword::Any)), st),
            Expr::Update { .. } => (Ok(kw(Keyword::Number)), st),
            Expr::Cond { span, test, cons, alt } => if is_declaring_ident(env, *test) {
                if env.allow_ref_declaring {
                    (Ok(kw(Keyword::Any)), st)
                } else {
                    (Err(err(Diag::ReferencedInInit { span })), st)
                }
            } else {
                let (c, st1) = type_of(env, st, *cons, TypeOfMode::RValue, f);
                match c {
                    Err(e) => (Err(e), st1),
                    Ok(ct) => {
                        let (a, st2) = type_of(env, st1, *alt, TypeOfMode::RValue, f);
                        match a {
                            Err(e) => (Err(e), st2),
                            Ok(at) => (Ok(union_of(seq![ct, at])), st2),
                        }
                    },
                }
            },
            Expr::New { callee, args, type_args, .. } => call_expr(
                env,
                st,
                *callee,
                ExtractKind::New,
                args@,
                opt_types(type_args),
                f,
            ),
            Expr::Call { callee, args, type_args, .. } => call_expr(
                env,
                st,
                *callee,
                ExtractKind::Call,
                args@,
                opt_types(type_args),
                f,
            ),
            Expr::SuperCall { .. } => (Ok(kw(Keyword::Any)), st),
            Expr::Sequence { span, exprs } => if exprs@.len() == 0 {
                (Err(unsupported(span, Unsupported::Expr)), st)
            } else {
                let (flagged, st1) = sequence_exprs(
                    env,
                    st,
                    exprs@,
                    exprs@[0].spec_span().lo,
                    0,
                    false,
                    f,
                );
                if flagged {
                    (Ok(kw(Keyword::Any)), st1)
                } else {
                    type_of(env, st1, exprs@.last(), TypeOfMode::RValue, f)
                }
            },
            Expr::Await { span } => (Err(unsupported(span, Unsupported::AwaitExpr)), st),
            Expr::MetaProp { span } => (Err(unsupported(span, Unsupported::MetaProp)), st),
            Expr::Class { class, .. } => type_of_class(env, st, None, *class, f),
            Expr::Arrow { function } => type_of_arrow_fn(env, st, *function, f),
            Expr::Fn { function } => type_of_fn(env, st, *function, f),
            Expr::Member { span, obj, prop, computed } => type_of_member_expr(
                env,
                st,
                span,
                *obj,
                *prop,
                computed,
                mode,
                f,
            ),
            Expr::SuperMember { span } => (Err(unsupported(span, Unsupported::SuperMember)), st),
            Expr::Assign { target, right, .. } => if target.is_some() && env.is_declaring(
                target.unwrap()@,
            ) {
                (Ok(kw(Keyword::Any)), st)
            } else {
                type_of(env, st, *right, TypeOfMode::RValue, f)
            },
            Expr::Invalid { .. } => (Ok(kw(Keyword::Any)), st),
            Expr::Other { span } => (Err(unsupported(span, Unsupported::Expr)), st),
        }
    }
}

/// The tuple of the types of the elements from position `i` on, behind
/// `acc`. A hole has the type `undefined`.
pub open spec fn array_elems(
    env: EnvV,
    st: StateV,
    elems: Seq<ArrayElem>,
    i: int,
    acc: Seq<TypeV>,
    fuel: nat,
) -> Outcome
    decreases fuel, 1nat, elems.len() - i,
{
    if i < 0 || i >= elems.len() {
        (Ok(TypeV::Tuple(acc)), st)
    } else {
        match elems[i] {
            ArrayElem::Hole { .. } => array_elems(
                env,
                st,
                elems,
                i + 1,
                acc.push(kw(Keyword::Undefined)),
                fuel,
            ),
            ArrayElem::Item(e) => {
                let (r, st1) = type_of(env, st, e, TypeOfMode::RValue, fuel);
                match r {
                    Ok(t) => array_elems(env, st1, elems, i + 1, acc.push(t), fuel),
                    Err(e) => (Err(e), st1),
                }
            },
            ArrayElem::Spread(e) => (
                Err(unsupported(e.spec_span(), Unsupported::ArraySpread)),
                st,
            ),
        }
    }
}

/// The member that a property of an object literal declares.
pub open spec fn type_of_prop(env: EnvV, st: StateV, p: Prop, fuel: nat) -> (
    Result<MemberV, ErrorV>,
    StateV,
)
    decreases fuel, 0nat, 0nat,
{
    if fuel == 0 {
        (Err(unsupported(prop_span(p), Unsupported::Depth)), st)
    } else {
        let f = (fuel - 1) as nat;
        match p {
            Prop::Shorthand { sym, .. } => (Ok(property(KeyV::Ident(sym@), None)), st),
            Prop::KeyValue { span, key, value } => {
                let (r, st1) = type_of(env, st, value, TypeOfMode::RValue, f);
                match r {
                    Err(e) => (Err(e), st1),
                    Ok(t) => {
                        let (x, st2) = expand(env, st1, span, t, f);
                        match x {
                            Err(e) => (Err(e), st2),
                            Ok(t) => (Ok(property(key_of(key), Some(t))), st2),
                        }
                    },
                }
            },
            Prop::Assign { span, .. } => (Err(unsupported(span, Unsupported::Prop)), st),
            Prop::Getter { span, key } => {
                let (t, st1) = st.infer_return_type(span);
                (Ok(property(key_of(key), t)), st1)
            },
            Prop::Setter { span, .. } => (Err(unsupported(span, Unsupported::Prop)), st),
            Prop::Method { key, function, .. } => (
                Ok(
                    MemberV::Method {
                        key: key_of(key),
                        computed: false,
                        optional: false,
                        is_static: false,
                        type_params: opt_strs(function.type_params),
                        params: params_of(function.params@),
                        ret: opt_type(function.return_type),
                    },
                ),
                st,
            ),
            Prop::Spread { span, .. } => (Err(unsupported(span, Unsupported::ObjectSpread)), st),
        }
    }
}

/// The place of a property of an object literal in the source.
pub open spec fn prop_span(p: Prop) -> Span {
    match p {
        Prop::Shorthand { span, .. } => span,
        Prop::KeyValue { span, .. } => span,
        Prop::Assign { span, .. } => span,
        Prop::Getter { span, .. } => span,
        Prop::Setter { span, .. } => span,
        Prop::Method { span, .. } => span,
        Prop::Spread { span, .. } => span,
    }
}

/// A plain property of an object literal.
pub open spec fn property(key: KeyV, ty: Option<TypeV>) -> MemberV {
    MemberV::Property {
        key,
        computed: false,
        optional: false,
        readonly: false,
        is_static: false,
        ty,
    }
}

/// The type of an object literal whose properties from position `i` on
/// are still to be read. `acc` holds the members so far, and `special` the
/// type of the last spread source that was `any` or `unknown`.
pub open spec fn object_props(
    env: EnvV,
    st: StateV,
    props: Seq<Prop>,
    i: int,
    acc: Seq<MemberV>,
    special: Option<TypeV>,
    fuel: nat,
) -> Outcome
    decreases fuel, 1nat, props.len() - i,
{
    if i < 0 || i >= props.len() {
        match special {
            Some(t) => (Ok(t), st),
            None => (Ok(TypeV::TypeLit(acc)), st),
        }
    } else {
        match props[i] {
            Prop::Spread { span, expr } => {
                let (r, st1) = type_of(env, st, expr, TypeOfMode::RValue, fuel);
                match r {
                    Err(e) => (Err(e), st1),
                    Ok(TypeV::TypeLit(ms)) => object_props(
                        env,
                        st1,
                        props,
                        i + 1,
                        acc + ms,
                        special,
                        fuel,
                    ),
                    Ok(t) => if t.is_any() || t.is_unknown() {
                        object_props(env, st1, props, i + 1, acc, Some(t), fuel)
                    } else {
                        (Err(unsupported(span, Unsupported::ObjectSpread)), st1)
                    },
                }
            },
            p => {
                let (r, st1) = type_of_prop(env, st, p, fuel);
                match r {
                    Err(e) => (Err(e), st1),
                    Ok(m) => object_props(env, st1, props, i + 1, acc.push(m), special, fuel),
                }
            },
        }
    }
}

/// Validates the expressions of a sequence before its last one, from
/// position `i` on. The result says whether one of them reads a name that
/// is being initialized.
pub open spec fn sequence_exprs(
    env: EnvV,
    st: StateV,
    exprs: Seq<Expr>,
    first_lo: u32,
    i: int,
    flagged: bool,
    fuel: nat,
) -> (bool, StateV)
    decreases fuel, 1nat, exprs.len() - i,
{
    if i < 0 || i + 1 >= exprs.len() {
        (flagged, st)
    } else {
        let e = exprs[i];
        if is_declaring_ident(env, e) {
            sequence_exprs(
                env,
                st.report(err(Diag::ImplicitAny { span: e.spec_span() })),
                exprs,
                first_lo,
                i + 1,
                true,
                fuel,
            )
        } else if is_effect_free(e) && !env.allow_unreachable_code {
            sequence_exprs(
                env,
                st.report(err(Diag::UselessSeqExpr { span: e.spec_span().spec_with_lo(first_lo) })),
                exprs,
                first_lo,
                i + 1,
                flagged,
                fuel,
            )
        } else {
            let (r, st1) = type_of(env, st, e, TypeOfMode::RValue, fuel);
            match r {
                Ok(_) => sequence_exprs(env, st1, exprs, first_lo, i + 1, flagged, fuel),
                Err(x) => if x.is_referenced_in_init() {
                    sequence_exprs(
                        env,
                        st1.report(err(Diag::ImplicitAny { span: e.spec_span() })),
                        exprs,
                        first_lo,
                        i + 1,
                        true,
                        fuel,
                    )
                } else {
                    sequence_exprs(env, st1.report(x), exprs, first_lo, i + 1, flagged, fuel)
                },
            }
        }
    }
}

/// The type of a binary expression.
pub open spec fn bin_expr(
    env: EnvV,
    st: StateV,
    span: Span,
    op: BinaryOp,
    left: Expr,
    right: Expr,
    fuel: nat,
) -> Outcome
    decreases fuel, 0nat, 0nat,
{
    if fuel == 0 {
        (Err(unsupported(span, Unsupported::Depth)), st)
    } else {
        let f = (fuel - 1) as nat;
        let (l, st1) = type_of(env, st, left, TypeOfMode::RValue, f);
        let (r, st2) = type_of(env, st1, right, TypeOfMode::RValue, f);
        let lt = match l {
            Ok(t) => Some(t),
            Err(_) => None,
        };
        let rt = match r {
            Ok(t) => Some(t),
            Err(_) => None,
        };
        let st3 = st2.report_all(
            bin_diags(op, span, left.spec_span(), right.spec_span(), lt, rt),
        );
        match (l, r) {
            (Ok(a), Ok(b)) => (bin_result(op, span, a, b), st3),
            (Err(a), Ok(_)) => (Err(ErrorV::Errors { span, errors: seq![a] }), st3),
            (Ok(_), Err(b)) => (Err(ErrorV::Errors { span, errors: seq![b] }), st3),
            (Err(a), Err(b)) => (Err(ErrorV::Errors { span, errors: seq![a, b] }), st3),
        }
    }
}

/// The type of the member access `obj.prop` or `obj[prop]`.
pub open spec fn type_of_member_expr(
    env: EnvV,
    st: StateV,
    span: Span,
    obj: Expr,
    prop: Expr,
    computed: bool,
    mode: TypeOfMode,
    fuel: nat,
) -> Outcome
    decreases fuel, 0nat, 0nat,
{
    if fuel == 0 {
        (Err(unsupported(span, Unsupported::Depth)), st)
    } else {
        let f = (fuel - 1) as nat;
        let (o, st1) = type_of(env, st, obj, TypeOfMode::RValue, f);
        if computed {
            let (obj_ty, errs1) = match o {
                Ok(t) => (t, Seq::<ErrorV>::empty()),
                Err(e) => (kw(Keyword::Any), seq![e]),
            };
            let (a, st2) = access_property(env, st1, span, obj_ty, PropV::Computed(prop), mode, f);
            let errs2 = match a {
                Ok(_) => errs1,
                Err(e) => errs1.push(e),
            };
            if errs2.len() == 0 {
                (a, st2)
            } else {
                let (p, st3) = type_of(env, st2, prop, TypeOfMode::RValue, f);
                let errs3 = match p {
                    Ok(_) => errs2,
                    Err(e) => errs2.push(e),
                };
                (Err(ErrorV::Errors { span, errors: errs3 }), st3)
            }
        } else {
            match o {
                Err(e) => (Err(e), st1),
                Ok(obj_ty) => match prop {
                    Expr::Ident { span: prop_span, sym } => {
                        let (a, st2) = access_property(
                            env,
                            st1,
                            span,
                            obj_ty,
                            PropV::Name { span: prop_span, sym: sym@ },
                            mode,
                            f,
                        );
                        match a {
                            Ok(t) => (Ok(t), st2),
                            Err(e) => (Err(ErrorV::Errors { span, errors: seq![e] }), st2),
                        }
                    },
                    _ => (Err(unsupported(span, Unsupported::Expr)), st1),
                },
            }
        }
    }
}

/// The type of the property `prop` of an object of type `obj`: the type is
/// widened and expanded, and the property is resolved against the result.
pub open spec fn access_property(
    env: EnvV,
    st: StateV,
    span: Span,
    obj: TypeV,
    prop: PropV,
    mode: TypeOfMode,
    fuel: nat,
) -> Outcome
    decreases fuel, 0nat, 0nat,
{
    if fuel == 0 {
        (Err(unsupported(span, Unsupported::Depth)), st)
    } else {
        let f = (fuel - 1) as nat;
        let (x, st1) = expand(env, st, span, obj.generalize_lit(), f);
        match x {
            Err(e) => (Err(e), st1),
            Ok(t) => access_expanded(env, st1, span, t, prop, mode, f),
        }
    }
}

/// The type of the property `prop` of an object of the expanded type `obj`.
pub open spec fn access_expanded(
    env: EnvV,
    st: StateV,
    span: Span,
    obj: TypeV,
    prop: PropV,
    mode: TypeOfMode,
    fuel: nat,
) -> Outcome
    decreases fuel, 3nat, 0nat,
{
    match obj {
        TypeV::Enum { is_const, members, .. } => (
            access_enum(span, is_const, members, prop, mode),
            st,
        ),
        TypeV::EnumVariant { enum_name, name } => match env.find_type(enum_name) {
            Some(TypeV::Enum { members, .. }) => match enum_member_from(members, name, 0) {
                Some(m) => access_property(env, st, span, TypeV::Lit(m.value), prop, mode, fuel),
                None => (Err(err(Diag::NoSuchProperty { span })), st),
            },
            _ => (Err(err(Diag::NoSuchProperty { span })), st),
        },
        TypeV::Class { body, .. } => (
            access_class_from(span, body, prop_key(prop), mode, env.declaring_prop(), 0),
            st,
        ),
        TypeV::ClassInstance { cls, .. } => match *cls {
            TypeV::Class { body, .. } => (
                access_class_from(span, body, prop_key(prop), mode, None, 0),
                st,
            ),
            _ => (Err(err(Diag::NoSuchProperty { span })), st),
        },
        TypeV::Keyword(Keyword::Any) => (Ok(kw(Keyword::Any)), st),
        TypeV::Keyword(Keyword::Unknown) => (Err(err(Diag::Unknown { span })), st),
        TypeV::Keyword(k) => match builtin_interface(k) {
            None => (Err(unsupported(span, Unsupported::KeywordAccess)), st),
            Some(name) => match env.builtin_type(name) {
                None => (Err(err(Diag::NameNotFound { span })), st),
                Some(t) => access_property(env, st, span, t, prop, mode, fuel),
            },
        },
        TypeV::Array(elem) => access_array(env, st, span, *elem, prop, mode, fuel),
        TypeV::Interface { body, .. } => access_object(env, st, span, body, prop, mode, fuel),
        TypeV::TypeLit(ms) => access_object(env, st, span, ms, prop, mode, fuel),
        TypeV::Union(ts) => access_union_members(env, st, span, ts, prop, mode, fuel),
        TypeV::Tuple(ts) => (access_tuple(ts, prop), st),
        TypeV::Module { names, types } => match prop {
            PropV::Name { sym, .. } => match access_module_from(names, types, sym, 0) {
                Some(t) => (Ok(t), st),
                None => (Err(err(Diag::NoSuchProperty { span })), st),
            },
            _ => (Err(err(Diag::NoSuchProperty { span })), st),
        },
        TypeV::This => match env.this_type() {
            Some(t) => access_property(env, st, span, t, prop, mode, fuel),
            None => (Err(err(Diag::NoSuchProperty { span })), st),
        },
        _ => (Err(unsupported(span, Unsupported::Access)), st),
    }
}

/// The type of an element access on a tuple with the elements `ts`: the
/// element at a numeric literal index within the bounds, and the union of
/// the elements for every other index.
pub open spec fn access_tuple(ts: Seq<TypeV>, prop: PropV) -> Result<TypeV, ErrorV> {
    match prop_key(prop) {
        KeyV::Num(n) => if 0 <= n.spec_round() < ts.len() {
            Ok(ts[n.spec_round()])
        } else {
            Err(
                err(
                    Diag::TupleIndexError {
                        span: prop.span(),
                        index: n.spec_round() as i64,
                        len: ts.len() as u64,
                    },
                ),
            )
        },
        _ => if ts.len() == 0 {
            Ok(kw(Keyword::Any))
        } else {
            Ok(union_of(ts))
        },
    }
}

/// The type of a member access on an array with the element type `elem`: a
/// numeric index between brackets gives the element type, and everything
/// else is resolved against the built-in interface `Array`.
pub open spec fn access_array(
    env: EnvV,
    st: StateV,
    span: Span,
    elem: TypeV,
    prop: PropV,
    mode: TypeOfMode,
    fuel: nat,
) -> Outcome
    decreases fuel, 2nat, 0nat,
{
    let (p, st2) = match prop {
        PropV::Computed(e) => type_of(env, st, e, TypeOfMode::RValue, fuel),
        PropV::Name { .. } => (Ok(kw(Keyword::String)), st),
    };
    if p matches Ok(pt) && pt.is_number_like() {
        (Ok(elem), st2)
    } else {
        match env.builtin_type("Array"@) {
            None => (Err(err(Diag::NameNotFound { span })), st2),
            Some(t) => access_property(env, st2, span, t, prop, mode, fuel),
        }
    }
}

/// The type of a member access on a union with the members `ts`. A read
/// fails if the access fails on one member. A write fails if it succeeds
/// on no member, or if one member holds the property read-only.
pub open spec fn access_union_members(
    env: EnvV,
    st: StateV,
    span: Span,
    ts: Seq<TypeV>,
    prop: PropV,
    mode: TypeOfMode,
    fuel: nat,
) -> Outcome
    decreases fuel, 2nat, 0nat,
{
    let (tys, errs, st2) = access_union(
        env,
        st,
        span,
        ts,
        prop,
        mode,
        0,
        Seq::empty(),
        Seq::empty(),
        fuel,
    );
    let failed = match mode {
        TypeOfMode::RValue => errs.len() > 0,
        TypeOfMode::LValue => tys.len() == 0 || exists|k: int|
            0 <= k < errs.len() && (#[trigger] errs[k]).is_read_only(),
    };
    if failed {
        (Err(ErrorV::UnionError { span, errors: errs }), st2)
    } else {
        (Ok(union_of(tys)), st2)
    }
}

/// The type of a member access on the members of an interface or of a type
/// literal. The type of a key between brackets is inferred and widened; a
/// name behind a dot is a string.
pub open spec fn access_object(
    env: EnvV,
    st: StateV,
    span: Span,
    ms: Seq<MemberV>,
    prop: PropV,
    mode: TypeOfMode,
    fuel: nat,
) -> Outcome
    decreases fuel, 1nat, 0nat,
{
    match prop {
        PropV::Name { sym, .. } => (
            access_members(span, ms, KeyV::Ident(sym), kw(Keyword::String), mode),
            st,
        ),
        PropV::Computed(e) => {
            let (p, st1) = type_of(env, st, e, TypeOfMode::RValue, fuel);
            match p {
                Err(x) => (Err(x), st1),
                Ok(t) => (
                    access_members(span, ms, key_of_expr(e, true), t.generalize_lit(), mode),
                    st1,
                ),
            }
        },
    }
}

/// The types and the errors of a member access on the members of a union
/// from position `i` on, behind `tys` and `errs`.
pub open spec fn access_union(
    env: EnvV,
    st: StateV,
    span: Span,
    ts: Seq<TypeV>,
    prop: PropV,
    mode: TypeOfMode,
    i: int,
    tys: Seq<TypeV>,
    errs: Seq<ErrorV>,
    fuel: nat,
) -> (Seq<TypeV>, Seq<ErrorV>, StateV)
    decreases fuel, 1nat, ts.len() - i,
{
    if i < 0 || i >= ts.len() {
        (tys, errs, st)
    } else {
        let (r, st1) = access_property(env, st, span, ts[i], prop, mode, fuel);
        match r {
            Ok(t) => access_union(env, st1, span, ts, prop, mode, i + 1, tys.push(t), errs, fuel),
            Err(e) => access_union(env, st1, span, ts, prop, mode, i + 1, tys, errs.push(e), fuel),
        }
    }
}

/// The type `t` in canonical form: a named reference is resolved, an alias
/// gives what it stands for, and the parts of a compound type are
/// expanded.
pub open spec fn expand(env: EnvV, st: StateV, span: Span, t: TypeV, fuel: nat) -> Outcome
    decreases fuel, 0nat, 0nat,
{
    if fuel == 0 {
        (Err(unsupported(span, Unsupported::Depth)), st)
    } else {
        let f = (fuel - 1) as nat;
        match t {
            TypeV::Ref { path, type_args } => if path.len() == 1 {
                match env.builtin_type(path[0]) {
                    Some(b) => expand(env, st, span, b, f),
                    None => match env.find_type(path[0]) {
                        None => (Err(err(Diag::NameNotFound { span })), st),
                        Some(TypeV::Enum { name, is_const, members }) => if type_args.is_some() {
                            (Err(err(Diag::NotGeneric { span })), st)
                        } else {
                            (Ok(TypeV::Enum { name, is_const, members }), st)
                        },
                        Some(TypeV::Param { name }) => if type_args.is_some() {
                            (Err(err(Diag::NotGeneric { span })), st)
                        } else {
                            (Ok(TypeV::Param { name }), st)
                        },
                        Some(TypeV::Interface { name, body, extends }) => if type_args.is_some() {
                            (Err(err(Diag::NotGeneric { span })), st)
                        } else {
                            (Ok(TypeV::Interface { name, body, extends }), st)
                        },
                        Some(
                            TypeV::Class { name, is_abstract, super_class, type_params, body },
                        ) => if type_args.is_some() && type_params.is_none() {
                            (Err(err(Diag::NotGeneric { span })), st)
                        } else {
                            (
                                Ok(
                                    TypeV::Class {
                                        name,
                                        is_abstract,
                                        super_class,
                                        type_params,
                                        body,
                                    },
                                ),
                                st,
                            )
                        },
                        Some(TypeV::Alias { type_params: None, ty }) => if type_args.is_some() {
                            (Err(err(Diag::NotGeneric { span })), st)
                        } else {
                            (Ok(*ty), st)
                        },
                        Some(TypeV::Alias { type_params: Some(tps), ty }) => expand(
                            env,
                            st,
                            span,
                            match type_args {
                                Some(args) => subst(tps, args, *ty),
                                None => *ty,
                            },
                            f,
                        ),
                        Some(_) => (Err(unsupported(span, Unsupported::Declaration)), st),
                    },
                }
            } else if path.len() == 2 {
                if path[0] == "void"@ {
                    (Ok(kw(Keyword::Any)), st)
                } else {
                    match env.find_type(path[0]) {
                        Some(TypeV::Enum { .. }) => (
                            Ok(TypeV::EnumVariant { enum_name: path[0], name: path[1] }),
                            st,
                        ),
                        _ => (Err(err(Diag::NameNotFound { span })), st),
                    }
                }
            } else {
                (Err(unsupported(span, Unsupported::EntityName)), st)
            },
            TypeV::Query { path } => type_of_entity_name(env, st, span, path, f),
            TypeV::Union(ts) => {
                let (r, st1) = expand_all(env, st, span, ts, 0, Seq::empty(), f);
                match r {
                    Ok(xs) => (Ok(union_of(xs)), st1),
                    Err(e) => (Err(e), st1),
                }
            },
            TypeV::Intersection(ts) => {
                let (r, st1) = expand_all(env, st, span, ts, 0, Seq::empty(), f);
                match r {
                    Ok(xs) => (Ok(TypeV::Intersection(xs)), st1),
                    Err(e) => (Err(e), st1),
                }
            },
            TypeV::Array(elem) => {
                let (r, st1) = expand(env, st, span, *elem, f);
                match r {
                    Ok(x) => (Ok(TypeV::Array(Box::new(x))), st1),
                    Err(e) => (Err(e), st1),
                }
            },
            TypeV::Tuple(ts) => {
                let (r, st1) = expand_all(env, st, span, ts, 0, Seq::empty(), f);
                match r {
                    Ok(xs) => (Ok(TypeV::Tuple(xs)), st1),
                    Err(e) => (Err(e), st1),
                }
            },
            TypeV::Alias { type_params: None, ty } => (Ok(*ty), st),
            TypeV::Function { type_params, params, ret } => {
                let (r, st1) = expand(env, st, span, *ret, f);
                match r {
                    Ok(x) => (Ok(TypeV::Function { type_params, params, ret: Box::new(x) }), st1),
                    Err(e) => (Err(e), st1),
                }
            },
            _ => (Ok(t), st),
        }
    }
}

/// The types from position `i` on, each expanded, behind `acc`.
pub open spec fn expand_all(
    env: EnvV,
    st: StateV,
    span: Span,
    ts: Seq<TypeV>,
    i: int,
    acc: Seq<TypeV>,
    fuel: nat,
) -> (Result<Seq<TypeV>, ErrorV>, StateV)
    decreases fuel, 1nat, ts.len() - i,
{
    if i < 0 || i >= ts.len() {
        (Ok(acc), st)
    } else {
        let (r, st1) = expand(env, st, span, ts[i], fuel);
        match r {
            Ok(x) => expand_all(env, st1, span, ts, i + 1, acc.push(x), fuel),
            Err(e) => (Err(e), st1),
        }
    }
}

/// The type of the value that a dotted name means.
pub open spec fn type_of_entity_name(
    env: EnvV,
    st: StateV,
    span: Span,
    path: Seq<Seq<char>>,
    fuel: nat,
) -> Outcome
    decreases fuel, 0nat, 0nat,
{
    if fuel == 0 {
        (Err(unsupported(span, Unsupported::Depth)), st)
    } else if path.len() == 0 {
        (Err(err(Diag::NameNotFound { span })), st)
    } else if path.len() == 1 {
        (type_of_ident(env, span, path[0], TypeOfMode::RValue), st)
    } else {
        let f = (fuel - 1) as nat;
        let (o, st1) = type_of_entity_name(env, st, span, path.drop_last(), f);
        match o {
            Err(e) => (Err(e), st1),
            Ok(t) => access_property(
                env,
                st1,
                span,
                t,
                PropV::Name { span, sym: path.last() },
                TypeOfMode::RValue,
                f,
            ),
        }
    }
}

/// The types of the arguments from position `i` on, behind `acc`.
pub open spec fn arg_types(
    env: EnvV,
    st: StateV,
    args: Seq<Arg>,
    i: int,
    acc: Seq<TypeV>,
    fuel: nat,
) -> (Result<Seq<TypeV>, ErrorV>, StateV)
    decreases fuel, 1nat, args.len() - i,
{
    if i < 0 || i >= args.len() {
        (Ok(acc), st)
    } else {
        let (r, st1) = type_of(env, st, args[i].expr, TypeOfMode::RValue, fuel);
        match r {
            Ok(t) => arg_types(env, st1, args, i + 1, acc.push(t), fuel),
            Err(e) => (Err(e), st1),
        }
    }
}

/// Checks the arguments of a call against the parameters from position `i`
/// on: the type of each argument must be assignable to the expanded type of
/// its parameter.
pub open spec fn check_args(
    env: EnvV,
    st: StateV,
    span: Span,
    params: Seq<FnParamV>,
    args: Seq<Arg>,
    i: int,
    fuel: nat,
) -> (Result<(), ErrorV>, StateV)
    decreases fuel, 1nat, params.len() - i,
{
    if i < 0 || i >= params.len() {
        (Ok(()), st)
    } else {
        let (x, st1) = expand(env, st, span, params[i].ty, fuel);
        match x {
            Err(e) => (Err(e), st1),
            Ok(lhs) => if i < args.len() {
                let (a, st2) = type_of(env, st1, args[i].expr, TypeOfMode::RValue, fuel);
                match a {
                    Err(e) => (Err(e), st2),
                    Ok(at) => match assign(lhs, at, args[i].expr.spec_span()) {
                        Err(e) => (Err(e), st2),
                        Ok(_) => check_args(env, st2, span, params, args, i + 1, fuel),
                    },
                }
            } else {
                check_args(env, st1, span, params, args, i + 1, fuel)
            },
        }
    }
}

/// The result type of a call of the method `m`.
pub open spec fn check_method_call(
    env: EnvV,
    st: StateV,
    span: Span,
    m: MemberV,
    args: Seq<Arg>,
    fuel: nat,
) -> Outcome
    decreases fuel, 0nat, 0nat,
{
    if fuel == 0 {
        (Err(unsupported(span, Unsupported::Depth)), st)
    } else {
        match m {
            MemberV::Method { params, ret, .. } => {
                let (r, st1) = check_args(env, st, span, params, args, 0, (fuel - 1) as nat);
                match r {
                    Ok(_) => (Ok(type_or_any(ret)), st1),
                    Err(e) => (Err(e), st1),
                }
            },
            _ => (Err(unsupported(span, Unsupported::NoMethod)), st),
        }
    }
}

/// Whether `e` names the method `toString`.
pub open spec fn is_to_string(prop: Expr, computed: bool) -> bool {
    match prop {
        Expr::Ident { sym, .. } => !computed && sym@ == "toString"@,
        Expr::Lit { lit: crate::types::Lit::Str(s), .. } => s@ == "toString"@,
        _ => false,
    }
}

/// The key that the callee `obj.prop` or `obj[prop]` asks for.
pub open spec fn callee_key(prop: Expr, computed: bool) -> KeyV {
    match prop {
        Expr::Ident { sym, .. } => KeyV::Ident(sym@),
        _ => if computed {
            key_of_expr(prop, true)
        } else {
            KeyV::Opaque
        },
    }
}

/// The first string literal argument of a call of `require`.
pub open spec fn required_module(args: Seq<Arg>) -> Option<Seq<char>> {
    if args.len() == 0 {
        None
    } else {
        match args[0].expr {
            Expr::Lit { lit: crate::types::Lit::Str(s), .. } => Some(s@),
            _ => None,
        }
    }
}

/// The result type of a call or `new` expression.
pub open spec fn call_expr(
    env: EnvV,
    st: StateV,
    callee: Expr,
    kind: ExtractKind,
    args: Seq<Arg>,
    type_args: Option<Seq<TypeV>>,
    fuel: nat,
) -> Outcome
    decreases fuel, 0nat, 0nat,
{
    let span = callee.spec_span();
    if fuel == 0 {
        (Err(unsupported(span, Unsupported::Depth)), st)
    } else {
        let f = (fuel - 1) as nat;
        match callee {
            Expr::Member { obj, prop, computed, .. } => if is_to_string(*prop, computed) {
                (Ok(kw(Keyword::String)), st)
            } else {
                let (o, st1) = type_of(env, st, *obj, TypeOfMode::RValue, f);
                match o {
                    Err(e) => (Err(e), st1),
                    Ok(t) => {
                        let (x, st2) = expand(env, st1, span, t.generalize_lit(), f);
                        match x {
                            Err(e) => (Err(e), st2),
                            Ok(obj_ty) => call_member(
                                env,
                                st2,
                                span,
                                obj_ty,
                                callee_key(*prop, computed),
                                computed,
                                kind,
                                args,
                                f,
                            ),
                        }
                    },
                }
            },
            _ => if callee matches Expr::Ident { sym, .. } && sym@ == "require"@ {
                if required_module(args).is_some() && env.import(
                    required_module(args).unwrap(),
                ).is_some() {
                    (Err(unsupported(span, Unsupported::Require)), st)
                } else {
                    (Err(err(Diag::UndefinedSymbol { span })), st)
                }
            } else {
                let (c, st1) = type_of(env, st, callee, TypeOfMode::RValue, f);
                match c {
                    Err(e) => (Err(e), st1),
                    Ok(t) => {
                        let (x, st2) = expand(env, st1, span, t, f);
                        match x {
                            Err(e) => (Err(e), st2),
                            Ok(ty) => extract(env, st2, span, ty, kind, args, type_args, f),
                        }
                    },
                }
            },
        }
    }
}

/// The result type of a call of the member that `key` names of an object of
/// the expanded type `obj`.
pub open spec fn call_member(
    env: EnvV,
    st: StateV,
    span: Span,
    obj: TypeV,
    key: KeyV,
    computed: bool,
    kind: ExtractKind,
    args: Seq<Arg>,
    fuel: nat,
) -> Outcome
    decreases fuel, 0nat, 0nat,
{
    if fuel == 0 {
        (Err(unsupported(span, Unsupported::Depth)), st)
    } else {
        let f = (fuel - 1) as nat;
        let redirected = match obj {
            TypeV::Keyword(Keyword::Number) => env.builtin_type("Number"@),
            TypeV::Keyword(Keyword::String) => env.builtin_type("String"@),
            _ => Some(obj),
        };
        let fallback = if computed {
            unsupported(span, Unsupported::ComputedCall)
        } else {
            no_signature(span, kind)
        };
        match redirected {
            None => (Err(err(Diag::NameNotFound { span })), st),
            Some(TypeV::Function { ret, .. }) => if kind == ExtractKind::Call {
                (Ok(*ret), st)
            } else {
                (Err(fallback), st)
            },
            Some(TypeV::Keyword(Keyword::Any)) => (Ok(kw(Keyword::Any)), st),
            Some(TypeV::Interface { body, .. }) => call_method_of(
                env,
                st,
                span,
                body,
                key,
                kind,
                args,
                f,
            ),
            Some(TypeV::TypeLit(ms)) => call_method_of(env, st, span, ms, key, kind, args, f),
            Some(TypeV::Class { body, .. }) => match class_method_from(body, key, 0) {
                Some(t) => (Ok(t), st),
                None => (Err(fallback), st),
            },
            Some(TypeV::Keyword(Keyword::Symbol)) => match env.builtin_type("Symbol"@) {
                Some(t) => (Ok(t), st),
                None => (Err(fallback), st),
            },
            Some(_) => (Err(fallback), st),
        }
    }
}

/// The result type of a call of the method that `key` names among the
/// members `ms` and those of the built-in interface `Object`.
pub open spec fn call_method_of(
    env: EnvV,
    st: StateV,
    span: Span,
    ms: Seq<MemberV>,
    key: KeyV,
    kind: ExtractKind,
    args: Seq<Arg>,
    fuel: nat,
) -> Outcome
    decreases fuel, 1nat, 0nat,
{
    let cs = if kind == ExtractKind::Call {
        methods_from(object_members(env), key, 0, methods_from(ms, key, 0, Seq::empty()))
    } else {
        Seq::empty()
    };
    match pick_method(span, cs, args.len()) {
        Err(e) => (Err(e), st),
        Ok(m) => check_method_call(env, st, span, m, args, fuel),
    }
}

/// The result type of a call or construction of a value of the expanded
/// type `ty`.
pub open spec fn extract(
    env: EnvV,
    st: StateV,
    span: Span,
    ty: TypeV,
    kind: ExtractKind,
    args: Seq<Arg>,
    type_args: Option<Seq<TypeV>>,
    fuel: nat,
) -> Outcome
    decreases fuel, 0nat, 0nat,
{
    if fuel == 0 {
        (Err(unsupported(span, Unsupported::Depth)), st)
    } else {
        let f = (fuel - 1) as nat;
        match ty {
            TypeV::Keyword(Keyword::Any) => (Ok(kw(Keyword::Any)), st),
            TypeV::Keyword(Keyword::Unknown) => (Err(err(Diag::Unknown { span })), st),
            TypeV::Function { type_params, params, ret } => if kind == ExtractKind::Call {
                try_instantiate(env, st, span, type_params, params, *ret, args, type_args, f)
            } else {
                (Err(no_signature(span, kind)), st)
            },
            TypeV::Union(ts) => extract_union(
                env,
                st,
                span,
                ts,
                kind,
                args,
                type_args,
                0,
                Seq::empty(),
                f,
            ),
            TypeV::Interface { body, .. } => {
                let (r, st1) = search_signatures(env, st, span, body, kind, args, 0, f);
                match r {
                    Some(t) => (Ok(t), st1),
                    None => (Err(no_signature(span, kind)), st1),
                }
            },
            TypeV::TypeLit(ms) => {
                let (r, st1) = search_signatures(env, st, span, ms, kind, args, 0, f);
                match r {
                    Some(t) => (Ok(t), st1),
                    None => (Err(no_signature(span, kind)), st1),
                }
            },
            TypeV::Class { .. } => if kind == ExtractKind::New {
                (Ok(TypeV::ClassInstance { cls: Box::new(ty), type_args }), st)
            } else {
                (Err(no_signature(span, kind)), st)
            },
            TypeV::Query { path } => if path.len() == 1 && env.is_declaring_fn(path[0]) {
                (Ok(kw(Keyword::Any)), st)
            } else {
                (Err(no_signature(span, kind)), st)
            },
            _ => (Err(no_signature(span, kind)), st),
        }
    }
}

/// The result of the first member of a union from position `i` on that can
/// be called; the errors of all of them if none can.
pub open spec fn extract_union(
    env: EnvV,
    st: StateV,
    span: Span,
    ts: Seq<TypeV>,
    kind: ExtractKind,
    args: Seq<Arg>,
    type_args: Option<Seq<TypeV>>,
    i: int,
    errs: Seq<ErrorV>,
    fuel: nat,
) -> Outcome
    decreases fuel, 1nat, ts.len() - i,
{
    if i < 0 || i >= ts.len() {
        (Err(ErrorV::UnionError { span, errors: errs }), st)
    } else {
        let (r, st1) = extract(env, st, span, ts[i], kind, args, type_args, fuel);
        match r {
            Ok(t) => (Ok(t), st1),
            Err(e) => extract_union(
                env,
                st1,
                span,
                ts,
                kind,
                args,
                type_args,
                i + 1,
                errs.push(e),
                fuel,
            ),
        }
    }
}

/// The result type of a signature without type parameters for a call with
/// `n` arguments.
pub open spec fn try_instantiate_simple(
    span: Span,
    callee: Span,
    ret: TypeV,
    params: Seq<FnParamV>,
    type_params: Option<Seq<Seq<char>>>,
    n: nat,
) -> Result<TypeV, ErrorV> {
    match arity_error(span, callee, params, n) {
        Some(e) => Err(e),
        None => if type_params.is_some() {
            Err(unsupported(span, Unsupported::GenericSignature))
        } else {
            Ok(ret)
        },
    }
}

/// The result type of the first call or construct signature from position
/// `i` on that takes the arguments, by their number and their types.
pub open spec fn search_signatures(
    env: EnvV,
    st: StateV,
    span: Span,
    ms: Seq<MemberV>,
    kind: ExtractKind,
    args: Seq<Arg>,
    i: int,
    fuel: nat,
) -> (Option<TypeV>, StateV)
    decreases fuel, 2nat, ms.len() - i,
{
    if i < 0 || i >= ms.len() {
        (None, st)
    } else {
        let sig = match ms[i] {
            MemberV::Call { type_params, params, ret } => if kind == ExtractKind::Call {
                Some((type_params, params, ret))
            } else {
                None
            },
            MemberV::Construct { type_params, params, ret } => if kind == ExtractKind::New {
                Some((type_params, params, ret))
            } else {
                None
            },
            _ => None,
        };
        match sig {
            None => search_signatures(env, st, span, ms, kind, args, i + 1, fuel),
            Some((type_params, params, ret)) => match try_instantiate_simple(
                span,
                span,
                type_or_any(ret),
                params,
                type_params,
                args.len(),
            ) {
                Err(_) => search_signatures(env, st, span, ms, kind, args, i + 1, fuel),
                Ok(t) => {
                    let (c, st1) = check_args(env, st, span, params, args, 0, fuel);
                    match c {
                        Ok(_) => (Some(t), st1),
                        Err(_) => search_signatures(env, st1, span, ms, kind, args, i + 1, fuel),
                    }
                },
            },
        }
    }
}

/// The result type of a call of a function type: the number of the
/// arguments is checked, and the type arguments, given or inferred from the
/// arguments, are substituted through the whole signature.
pub open spec fn try_instantiate(
    env: EnvV,
    st: StateV,
    span: Span,
    type_params: Option<Seq<Seq<char>>>,
    params: Seq<FnParamV>,
    ret: TypeV,
    args: Seq<Arg>,
    type_args: Option<Seq<TypeV>>,
    fuel: nat,
) -> Outcome
    decreases fuel, 0nat, 0nat,
{
    if fuel == 0 {
        (Err(unsupported(span, Unsupported::Depth)), st)
    } else {
        match arity_error(span, span, params, args.len()) {
            Some(e) => (Err(e), st),
            None => match type_params {
                None => (Ok(ret), st),
                Some(tps) => match type_args {
                    Some(given) => (Ok(instantiated_ret(tps, given, params, ret)), st),
                    None => {
                        let (a, st1) = arg_types(
                            env,
                            st,
                            args,
                            0,
                            Seq::empty(),
                            (fuel - 1) as nat,
                        );
                        match a {
                            Err(e) => (Err(e), st1),
                            Ok(tys) => (
                                Ok(
                                    instantiated_ret(
                                        tps,
                                        infer_type_args(tps, params, tys),
                                        params,
                                        ret,
                                    ),
                                ),
                                st1,
                            ),
                        }
                    },
                },
            },
        }
    }
}

/// The return type of the function type with the parameters `params` and
/// the return type `ret` after the type arguments `given` are substituted
/// for `tps` through the whole of it.
pub open spec fn instantiated_ret(
    tps: Seq<Seq<char>>,
    given: Seq<TypeV>,
    params: Seq<FnParamV>,
    ret: TypeV,
) -> TypeV {
    match subst(
        tps,
        given,
        TypeV::Function { type_params: Some(tps), params, ret: Box::new(ret) },
    ) {
        TypeV::Function { ret, .. } => *ret,
        t => t,
    }
}

/// The type of a class.
pub open spec fn type_of_class(
    env: EnvV,
    st: StateV,
    name: Option<Seq<char>>,
    c: Class,
    fuel: nat,
) -> Outcome
    decreases fuel, 0nat, 0nat,
{
    if fuel == 0 {
        (Err(unsupported(c.span, Unsupported::Depth)), st)
    } else {
        let (sup, st1) = match c.super_class {
            Some(e) => {
                let (r, st1) = type_of(env, st, *e, TypeOfMode::RValue, (fuel - 1) as nat);
                match r {
                    Ok(t) => (Ok(Some(Box::new(t))), st1),
                    Err(x) => (Err(x), st1),
                }
            },
            None => (Ok(None), st),
        };
        match sup {
            Err(x) => (Err(x), st1),
            Ok(super_class) => {
                let (body, st2) = class_members_from(st1, c.body@, 0, Seq::empty());
                (
                    Ok(
                        TypeV::Class {
                            name,
                            is_abstract: c.is_abstract,
                            super_class,
                            type_params: opt_strs(c.type_params),
                            body,
                        },
                    ),
                    st2,
                )
            },
        }
    }
}

/// The declared return type of a function, expanded. A class stands for
/// its instances.
pub open spec fn declared_return(env: EnvV, st: StateV, f: Function, fuel: nat) -> (
    Option<Result<TypeV, ErrorV>>,
    StateV,
)
    decreases fuel, 1nat, 0nat,
{
    match f.return_type {
        None => (None, st),
        Some(t) => {
            let (r, st1) = expand(env, st, f.span, t@, fuel);
            match r {
                Ok(x) => (Some(Ok(instantiate_class(x))), st1),
                Err(e) => (Some(Err(e)), st1),
            }
        },
    }
}

/// The type of an arrow function.
pub open spec fn type_of_arrow_fn(env: EnvV, st: StateV, f: Function, fuel: nat) -> Outcome
    decreases fuel, 0nat, 0nat,
{
    if fuel == 0 {
        (Err(unsupported(f.span, Unsupported::Depth)), st)
    } else {
        let (d, st1) = declared_return(env, st, f, (fuel - 1) as nat);
        match d {
            Some(Err(e)) => (Err(e), st1),
            Some(Ok(declared)) => {
                let (inferred, st2) = st1.infer_return_type(f.span);
                let bad = match inferred {
                    Some(i) => assign(declared, i, f.span),
                    None => Ok(()),
                };
                match bad {
                    Err(e) => (Err(e), st2),
                    Ok(_) => (Ok(function_type(f, declared)), st2),
                }
            },
            None => {
                let (inferred, st2) = st1.infer_return_type(f.span);
                (Ok(function_type(f, type_or_any(inferred))), st2)
            },
        }
    }
}

/// The function type of `f` with the return type `ret`.
pub open spec fn function_type(f: Function, ret: TypeV) -> TypeV {
    TypeV::Function {
        type_params: opt_strs(f.type_params),
        params: params_of(f.params@),
        ret: Box::new(ret),
    }
}

/// The type of a function with its recoverable errors. Where the declared
/// return type cannot be expanded, it stays as it is written and the
/// failure is recoverable. A body without a return where a type other than
/// `any` or `void` is declared is recoverable too.
pub open spec fn type_of_fn_detail(env: EnvV, st: StateV, f: Function, fuel: nat) -> (
    Result<(TypeV, Seq<ErrorV>), ErrorV>,
    StateV,
)
    decreases fuel, 0nat, 0nat,
{
    if fuel == 0 {
        (Err(unsupported(f.span, Unsupported::Depth)), st)
    } else {
        let (d, st1) = declared_return(env, st, f, (fuel - 1) as nat);
        let (declared, errs1) = match d {
            Some(Ok(t)) => (Some(t), Seq::<ErrorV>::empty()),
            Some(Err(e)) => (opt_type(f.return_type), seq![e]),
            None => (None, Seq::<ErrorV>::empty()),
        };
        if !f.has_body {
            (Ok((function_type(f, type_or_any(declared)), errs1)), st1)
        } else {
            let (inferred, st2) = st1.infer_return_type(f.span);
            match inferred {
                Some(i) => match declared {
                    Some(dt) => match assign(dt, i, f.span) {
                        Err(e) => (Err(e), st2),
                        Ok(_) => (Ok((function_type(f, dt), errs1)), st2),
                    },
                    None => (Ok((function_type(f, i), errs1)), st2),
                },
                None => match declared {
                    Some(dt) => (
                        Ok(
                            (
                                function_type(f, dt),
                                if dt.is_any() || dt.is_keyword(Keyword::Void) {
                                    errs1
                                } else {
                                    errs1.push(err(Diag::ReturnRequired { span: f.span }))
                                },
                            ),
                        ),
                        st2,
                    ),
                    None => (Ok((function_type(f, kw(Keyword::Any)), errs1)), st2),
                },
            }
        }
    }
}

/// The type of a function: its recoverable errors are fatal here.
pub open spec fn type_of_fn(env: EnvV, st: StateV, f: Function, fuel: nat) -> Outcome
    decreases fuel, 0nat, 0nat,
{
    if fuel == 0 {
        (Err(unsupported(f.span, Unsupported::Depth)), st)
    } else {
        let (r, st1) = type_of_fn_detail(env, st, f, (fuel - 1) as nat);
        match r {
            Err(e) => (Err(e), st1),
            Ok((t, errs)) => if errs.len() == 0 {
                (Ok(t), st1)
            } else {
                (Err(ErrorV::Errors { span: f.span, errors: errs }), st1)
            },
        }
    }
}

} // verus!
