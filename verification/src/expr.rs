//! Expression inference: the type of every expression form.

use vstd::prelude::*;
use crate::ast::{ArrayElem, BinaryOp, Expr, Prop, UnaryOp};
use crate::bin::{bin_type, validate_bin_inner};
use crate::call::extract_call_new_expr_member;
use crate::copy::{copy_opt_strings, copy_opt_type, copy_type};
use crate::errors::{errors, result_view, Diag, Error, ErrorV, Unsupported};
use crate::expand::{expand_type, too_deep};
use crate::function::{type_of_arrow_fn, type_of_class, type_of_fn};
use crate::member::access_property;
use crate::model::{ExtractKind, TypeOfMode};
use crate::ops::{
    instance_of, is_word, negate_type, no_errors, no_members, no_types, pat_params, prop_name_key,
    push_error, push_member, push_type, without_nullish, PropRef,
};
use crate::rules::{
    array_elems, bin_expr, is_declaring_ident, is_effect_free, object_props, prop_span, property,
    sequence_exprs, type_of as type_of_spec, type_of_ident as type_of_ident_spec,
    type_of_member_expr as type_of_member_expr_spec, type_of_prop as type_of_prop_spec, unary_type,
};
use crate::scope::Env;
use crate::span::Span;
use crate::state::State;
use crate::types::{members, types, Key, Keyword, Lit, Member, MemberV, Type};

verus! {

/// The view of the result of a function that gives a member.
pub open spec fn member_result(r: Result<Member, Error>) -> Result<MemberV, ErrorV> {
    match r {
        Ok(m) => Ok(m@),
        Err(e) => Err(e@),
    }
}

/// The type of the identifier `sym` at `span`.
///
/// `arguments` and `void` are `any`, `undefined` is `undefined`, `eval` is
/// a function that cannot be assigned to, and `Symbol` is the built-in
/// variable of that name, which the target library must declare. Every other name is looked up
/// among the imports, the types and the variables of the scopes, and the
/// built-in variables, in this order. A name that the current scope is
/// initializing, and that is neither an import nor a type, is `any` where
/// such a reference is permitted, and an error where it is not.
pub fn type_of_ident(env: &Env, span: Span, sym: &String, mode: TypeOfMode) -> (r: Result<
    Type,
    Error,
>)
    ensures
        result_view(r) == type_of_ident_spec(env@, span, sym@, mode),
{
    if is_word(sym, "arguments") {
        return Ok(Type::Keyword(Keyword::Any));
    }
    if is_word(sym, "Symbol") {
        return match env.builtin_var(sym) {
            Some(t) => Ok(copy_type(t)),
            None => Err(Error::Diag(Diag::TS2585 { span })),
        };
    }
    if is_word(sym, "undefined") {
        return Ok(Type::Keyword(Keyword::Undefined));
    }
    if is_word(sym, "void") {
        return Ok(Type::Keyword(Keyword::Any));
    }
    if is_word(sym, "eval") {
        return match mode {
            TypeOfMode::LValue => Err(Error::Diag(Diag::CannotAssignToNonVariable { span })),
            TypeOfMode::RValue => {
                let params: Vec<crate::types::FnParam> = Vec::new();
                assert(crate::types::fn_params(params@) =~= Seq::empty());
                Ok(
                    Type::Function {
                        type_params: None,
                        params,
                        ret: Box::new(Type::Keyword(Keyword::Any)),
                    },
                )
            },
        };
    }
    if is_word(sym, "require") {
        return Err(Error::Diag(Diag::Unsupported { span, what: Unsupported::Require }));
    }
    match env.import(sym) {
        Some(t) => {
            return Ok(copy_type(t));
        },
        None => {},
    }
    match env.find_type(sym) {
        Some(t) => {
            return Ok(copy_type(t));
        },
        None => {},
    }
    if env.is_declaring(sym) {
        if env.allow_ref_declaring {
            return Ok(Type::Keyword(Keyword::Any));
        } else {
            return Err(Error::Diag(Diag::ReferencedInInit { span }));
        }
    }
    match env.find_var_type(sym) {
        Some(t) => {
            return Ok(copy_type(t));
        },
        None => {},
    }
    match env.find_var(sym) {
        Some(_) => {
            return Ok(Type::Keyword(Keyword::Any));
        },
        None => {},
    }
    match env.builtin_var(sym) {
        Some(t) => Ok(copy_type(t)),
        None => Err(Error::Diag(Diag::UndefinedSymbol { span })),
    }
}

fn unary(op: UnaryOp, arg_span: Span, t: Type) -> (r: Result<Type, Error>)
    ensures
        result_view(r) == unary_type(op, arg_span, t@),
{
    if t.is_unknown() {
        return Err(Error::Diag(Diag::Unknown { span: arg_span }));
    }
    Ok(
        match op {
            UnaryOp::TypeOf => Type::Keyword(Keyword::String),
            UnaryOp::Delete => Type::Keyword(Keyword::Boolean),
            UnaryOp::Void => Type::Keyword(Keyword::Undefined),
            UnaryOp::Minus => Type::Keyword(Keyword::Number),
            UnaryOp::Plus => Type::Keyword(Keyword::Number),
            UnaryOp::Tilde => Type::Keyword(Keyword::Number),
            UnaryOp::Bang => negate_type(&t),
        },
    )
}

/// Whether an expression in a sequence can have no effect.
pub fn effect_free(e: &Expr) -> (b: bool)
    ensures
        b == is_effect_free(*e),
{
    match e {
        Expr::Ident { .. } => true,
        Expr::Lit { .. } => true,
        Expr::Null { .. } => true,
        Expr::Regex { .. } => true,
        Expr::Arrow { .. } => true,
        Expr::Unary { op: UnaryOp::Minus, .. } => true,
        Expr::Unary { op: UnaryOp::Plus, .. } => true,
        Expr::Unary { op: UnaryOp::Bang, .. } => true,
        _ => false,
    }
}

fn declaring_ident(env: &Env, e: &Expr) -> (b: bool)
    ensures
        b == is_declaring_ident(env@, *e),
{
    match e {
        Expr::Ident { sym, .. } => env.is_declaring(sym),
        _ => false,
    }
}

/// Infers the type of the expression `e` within the depth `fuel`.
///
/// A literal has its own literal type, `null` the type `null`. A template
/// without embedded expressions has the string literal type of its text,
/// and `string` otherwise. An array literal is the tuple of the types of
/// its elements. An object literal is the type literal of the members that
/// its properties declare. A conditional is the union of its two branches.
/// A unary expression fails on an operand of type `unknown`, and has the
/// type of its operator otherwise. An assignment has the type of its right
/// side. A sequence has the type of its last expression; the expressions
/// before it are validated, and what is found in them is recorded and not
/// fatal. Binary expressions, member accesses, calls, functions and
/// classes have the types that their own rules give.
pub fn type_of(env: &Env, st: &mut State, e: &Expr, mode: TypeOfMode, fuel: usize) -> (r: Result<
    Type,
    Error,
>)
    ensures
        (result_view(r), final(st)@) == type_of_spec(env@, old(st)@, *e, mode, fuel as nat),
    decreases fuel, 0nat, 1nat,
{
    if fuel == 0 {
        return Err(too_deep(e.span()));
    }
    let f = fuel - 1;
    match e {
        Expr::Array { elems, .. } => type_of_array(env, st, elems, f),
        Expr::Paren { expr, .. } => type_of(env, st, expr, TypeOfMode::RValue, f),
        Expr::Bin { span, op, left, right } => validate_bin_expr(
            env,
            st,
            *span,
            *op,
            left,
            right,
            f,
        ),
        Expr::Unary { op, arg, .. } => match type_of(env, st, arg, TypeOfMode::RValue, f) {
            Ok(t) => unary(*op, arg.span(), t),
            Err(e) => Err(e),
        },
        Expr::TsNonNull { expr, .. } => match type_of(env, st, expr, TypeOfMode::RValue, f) {
            Ok(t) => Ok(without_nullish(t)),
            Err(e) => Err(e),
        },
        Expr::Object { props, .. } => type_of_object(env, st, props, f),
        Expr::Cond { .. } => type_of_cond(env, st, e, mode, fuel),
        Expr::New { callee, args, type_args, .. } => extract_call_new_expr_member(
            env,
            st,
            callee,
            ExtractKind::New,
            args,
            type_args,
            f,
        ),
        Expr::Call { callee, args, type_args, .. } => extract_call_new_expr_member(
            env,
            st,
            callee,
            ExtractKind::Call,
            args,
            type_args,
            f,
        ),
        Expr::Sequence { .. } => type_of_sequence(env, st, e, mode, fuel),
        Expr::Class { class, .. } => type_of_class(env, st, None, class, f),
        Expr::Arrow { function } => type_of_arrow_fn(env, st, function, f),
        Expr::Fn { function } => type_of_fn(env, st, function, f),
        Expr::Member { span, obj, prop, computed } => type_of_member_expr(
            env,
            st,
            *span,
            obj,
            prop,
            *computed,
            mode,
            f,
        ),
        Expr::Assign { target, right, .. } => {
            let declaring = match target {
                Some(name) => env.is_declaring(name),
                None => false,
            };
            if declaring {
                Ok(Type::Keyword(Keyword::Any))
            } else {
                type_of(env, st, right, TypeOfMode::RValue, f)
            }
        },
        _ => type_of_leaf(env, st, e, mode, fuel),
    }
}

/// Whether the expression has a type that depends on no other expression.
pub open spec fn is_leaf(e: Expr) -> bool {
    match e {
        Expr::This { .. } => true,
        Expr::Ident { .. } => true,
        Expr::Lit { .. } => true,
        Expr::Null { .. } => true,
        Expr::Regex { .. } => true,
        Expr::Tpl { .. } => true,
        Expr::TsAs { .. } => true,
        Expr::TsTypeAssertion { .. } => true,
        Expr::Yield { .. } => true,
        Expr::Update { .. } => true,
        Expr::SuperCall { .. } => true,
        Expr::Await { .. } => true,
        Expr::MetaProp { .. } => true,
        Expr::SuperMember { .. } => true,
        Expr::Invalid { .. } => true,
        Expr::Other { .. } => true,
        _ => false,
    }
}

/// The type of an expression whose type depends on no other expression.
fn type_of_leaf(env: &Env, st: &State, e: &Expr, mode: TypeOfMode, fuel: usize) -> (r: Result<
    Type,
    Error,
>)
    requires
        is_leaf(*e),
        fuel > 0,
    ensures
        (result_view(r), st@) == type_of_spec(env@, st@, *e, mode, fuel as nat),
{
    match e {
        Expr::This { .. } => match env.this_type() {
            Some(t) => Ok(copy_type(t)),
            None => Ok(Type::This),
        },
        Expr::Ident { span, sym } => type_of_ident(env, *span, sym, mode),
        Expr::Lit { lit, .. } => Ok(Type::Lit(lit.copy())),
        Expr::Null { .. } => Ok(Type::Keyword(Keyword::Null)),
        Expr::Regex { .. } => {
            let mut path: Vec<String> = Vec::new();
            path.push("RegExp".to_owned());
            assert(crate::types::strs(path@) =~= seq!["RegExp"@]);
            Ok(Type::Ref { path, type_args: None })
        },
        Expr::Tpl { text, exprs, .. } => if exprs.len() == 0 {
            Ok(Type::Lit(Lit::Str(text.clone())))
        } else {
            Ok(Type::Keyword(Keyword::String))
        },
        Expr::TsAs { ty, .. } => Ok(instance_of(copy_type(ty))),
        Expr::TsTypeAssertion { ty, .. } => Ok(copy_type(ty)),
        Expr::Yield { .. } => Ok(Type::Keyword(Keyword::Any)),
        Expr::Update { .. } => Ok(Type::Keyword(Keyword::Number)),
        Expr::SuperCall { .. } => Ok(Type::Keyword(Keyword::Any)),
        Expr::Await { span } => Err(
            Error::Diag(Diag::Unsupported { span: *span, what: Unsupported::AwaitExpr }),
        ),
        Expr::MetaProp { span } => Err(
            Error::Diag(Diag::Unsupported { span: *span, what: Unsupported::MetaProp }),
        ),
        Expr::SuperMember { span } => Err(
            Error::Diag(Diag::Unsupported { span: *span, what: Unsupported::SuperMember }),
        ),
        Expr::Invalid { .. } => Ok(Type::Keyword(Keyword::Any)),
        Expr::Other { span } => Err(
            Error::Diag(Diag::Unsupported { span: *span, what: Unsupported::Expr }),
        ),
        _ => Ok(Type::Keyword(Keyword::Any)),
    }
}

/// The type of a conditional expression.
fn type_of_cond(env: &Env, st: &mut State, e: &Expr, mode: TypeOfMode, fuel: usize) -> (r: Result<
    Type,
    Error,
>)
    requires
        *e is Cond,
        fuel > 0,
    ensures
        (result_view(r), final(st)@) == type_of_spec(env@, old(st)@, *e, mode, fuel as nat),
    decreases fuel, 0nat, 0nat,
{
    let f = fuel - 1;
    match e {
        Expr::Cond { span, test, cons, alt } => {
            if declaring_ident(env, test) {
                if env.allow_ref_declaring {
                    return Ok(Type::Keyword(Keyword::Any));
                } else {
                    return Err(Error::Diag(Diag::ReferencedInInit { span: *span }));
                }
            }
            let ct = match type_of(env, st, cons, TypeOfMode::RValue, f) {
                Ok(t) => t,
                Err(e) => {
                    return Err(e);
                },
            };
            let at = match type_of(env, st, alt, TypeOfMode::RValue, f) {
                Ok(t) => t,
                Err(e) => {
                    return Err(e);
                },
            };
            let mut both = no_types();
            let ghost cv = ct@;
            let ghost av = at@;
            push_type(&mut both, ct);
            push_type(&mut both, at);
            assert(types(both@) =~= seq![cv, av]);
            Ok(Type::union(both))
        },
        _ => Ok(Type::Keyword(Keyword::Any)),
    }
}

/// The type of a sequence expression.
fn type_of_sequence(env: &Env, st: &mut State, e: &Expr, mode: TypeOfMode, fuel: usize) -> (r: Result<
    Type,
    Error,
>)
    requires
        *e is Sequence,
        fuel > 0,
    ensures
        (result_view(r), final(st)@) == type_of_spec(env@, old(st)@, *e, mode, fuel as nat),
    decreases fuel, 0nat, 0nat,
{
    let f = fuel - 1;
    match e {
        Expr::Sequence { span, exprs } => {
            if exprs.len() == 0 {
                return Err(Error::Diag(Diag::Unsupported { span: *span, what: Unsupported::Expr }));
            }
            let first_lo = exprs[0].span().lo;
            let flagged = validate_sequence(env, st, exprs, first_lo, f);
            if flagged {
                Ok(Type::Keyword(Keyword::Any))
            } else {
                type_of(env, st, &exprs[exprs.len() - 1], TypeOfMode::RValue, f)
            }
        },
        _ => Ok(Type::Keyword(Keyword::Any)),
    }
}

/// The tuple of the types of the elements of an array literal.
fn type_of_array(env: &Env, st: &mut State, elems: &Vec<ArrayElem>, fuel: usize) -> (r: Result<
    Type,
    Error,
>)
    ensures
        (result_view(r), final(st)@) == array_elems(
            env@,
            old(st)@,
            elems@,
            0,
            Seq::empty(),
            fuel as nat,
        ),
    decreases fuel, 1nat, elems.len(),
{
    let mut acc = no_types();
    let ghost st0 = st@;
    let mut i: usize = 0;
    while i < elems.len()
        invariant
            st0 == old(st)@,
            i <= elems.len(),
            array_elems(env@, st0, elems@, 0, Seq::empty(), fuel as nat) == array_elems(
                env@,
                st@,
                elems@,
                i as int,
                types(acc@),
                fuel as nat,
            ),
        decreases elems.len() - i,
    {
        match &elems[i] {
            ArrayElem::Hole { .. } => {
                push_type(&mut acc, Type::Keyword(Keyword::Undefined));
            },
            ArrayElem::Item(e) => match type_of(env, st, e, TypeOfMode::RValue, fuel) {
                Ok(t) => {
                    push_type(&mut acc, t);
                },
                Err(e) => {
                    return Err(e);
                },
            },
            ArrayElem::Spread(e) => {
                return Err(
                    Error::Diag(
                        Diag::Unsupported { span: e.span(), what: Unsupported::ArraySpread },
                    ),
                );
            },
        }
        i += 1;
    }
    Ok(Type::Tuple(acc))
}

fn plain_property(key: Key, ty: Option<Type>) -> (m: Member)
    ensures
        m@ == property(key@, crate::types::opt_type(ty)),
{
    Member::Property {
        key,
        computed: false,
        optional: false,
        readonly: false,
        is_static: false,
        ty,
    }
}

/// The place of a property of an object literal in the source.
pub fn span_of_prop(p: &Prop) -> (s: Span)
    ensures
        s == prop_span(*p),
{
    match p {
        Prop::Shorthand { span, .. } => *span,
        Prop::KeyValue { span, .. } => *span,
        Prop::Assign { span, .. } => *span,
        Prop::Getter { span, .. } => *span,
        Prop::Setter { span, .. } => *span,
        Prop::Method { span, .. } => *span,
        Prop::Spread { span, .. } => *span,
    }
}

/// The member that a property of an object literal declares.
pub fn type_of_prop(env: &Env, st: &mut State, p: &Prop, fuel: usize) -> (r: Result<
    Member,
    Error,
>)
    ensures
        (member_result(r), final(st)@) == type_of_prop_spec(env@, old(st)@, *p, fuel as nat),
    decreases fuel, 0nat, 0nat,
{
    if fuel == 0 {
        return Err(too_deep(span_of_prop(p)));
    }
    let f = fuel - 1;
    match p {
        Prop::Shorthand { sym, .. } => Ok(plain_property(Key::Ident(sym.clone()), None)),
        Prop::KeyValue { span, key, value } => {
            let t = match type_of(env, st, value, TypeOfMode::RValue, f) {
                Ok(t) => t,
                Err(e) => {
                    return Err(e);
                },
            };
            match expand_type(env, st, *span, t, f) {
                Ok(t) => Ok(plain_property(prop_name_key(key), Some(t))),
                Err(e) => Err(e),
            }
        },
        Prop::Assign { span, .. } => Err(
            Error::Diag(Diag::Unsupported { span: *span, what: Unsupported::Prop }),
        ),
        Prop::Getter { span, key } => {
            let t = st.infer_return_type(*span);
            Ok(plain_property(prop_name_key(key), t))
        },
        Prop::Setter { span, .. } => Err(
            Error::Diag(Diag::Unsupported { span: *span, what: Unsupported::Prop }),
        ),
        Prop::Method { key, function, .. } => Ok(
            Member::Method {
                key: prop_name_key(key),
                computed: false,
                optional: false,
                is_static: false,
                type_params: copy_opt_strings(&function.type_params),
                params: pat_params(&function.params),
                ret: copy_opt_type(&function.return_type),
            },
        ),
        Prop::Spread { span, .. } => Err(
            Error::Diag(Diag::Unsupported { span: *span, what: Unsupported::ObjectSpread }),
        ),
    }
}

/// The type of an object literal with the properties `props`.
fn type_of_object(env: &Env, st: &mut State, props: &Vec<Prop>, fuel: usize) -> (r: Result<
    Type,
    Error,
>)
    ensures
        (result_view(r), final(st)@) == object_props(
            env@,
            old(st)@,
            props@,
            0,
            Seq::empty(),
            None,
            fuel as nat,
        ),
    decreases fuel, 1nat, props.len(),
{
    let mut acc = no_members();
    let mut special: Option<Type> = None;
    let ghost st0 = st@;
    let mut i: usize = 0;
    while i < props.len()
        invariant
            st0 == old(st)@,
            i <= props.len(),
            object_props(env@, st0, props@, 0, Seq::empty(), None, fuel as nat) == object_props(
                env@,
                st@,
                props@,
                i as int,
                members(acc@),
                crate::types::opt_type(special),
                fuel as nat,
            ),
        decreases props.len() - i,
    {
        match &props[i] {
            Prop::Spread { span, expr } => match type_of(env, st, expr, TypeOfMode::RValue, fuel) {
                Err(e) => {
                    return Err(e);
                },
                Ok(Type::TypeLit(ms)) => {
                    let ghost before = members(acc@);
                    let mut ms = ms;
                    let ghost added = ms@;
                    acc.append(&mut ms);
                    assert(members(acc@) =~= before + members(added));
                },
                Ok(t) => {
                    if t.is_any() || t.is_unknown() {
                        special = Some(t);
                    } else {
                        return Err(
                            Error::Diag(
                                Diag::Unsupported {
                                    span: *span,
                                    what: Unsupported::ObjectSpread,
                                },
                            ),
                        );
                    }
                },
            },
            p => match type_of_prop(env, st, p, fuel) {
                Err(e) => {
                    return Err(e);
                },
                Ok(m) => {
                    push_member(&mut acc, m);
                },
            },
        }
        i += 1;
    }
    match special {
        Some(t) => Ok(t),
        None => Ok(Type::TypeLit(acc)),
    }
}

/// Validates the expressions of a sequence before its last one. Each of
/// them that reads a name that is being initialized is recorded as an
/// implicit `any`, each that can have no effect as useless, and the error
/// of each other one that fails is recorded. The result says whether one
/// of them reads a name that is being initialized.
fn validate_sequence(env: &Env, st: &mut State, exprs: &Vec<Expr>, first_lo: u32, fuel: usize) -> (flagged:
    bool)
    ensures
        (flagged, final(st)@) == sequence_exprs(
            env@,
            old(st)@,
            exprs@,
            first_lo,
            0,
            false,
            fuel as nat,
        ),
    decreases fuel, 1nat, exprs.len(),
{
    let mut flagged = false;
    let ghost st0 = st@;
    if exprs.len() == 0 {
        return false;
    }
    let n = exprs.len() - 1;
    let mut i: usize = 0;
    while i < n
        invariant
            st0 == old(st)@,
            n + 1 == exprs.len(),
            i <= n,
            sequence_exprs(env@, st0, exprs@, first_lo, 0, false, fuel as nat) == sequence_exprs(
                env@,
                st@,
                exprs@,
                first_lo,
                i as int,
                flagged,
                fuel as nat,
            ),
        decreases exprs.len() - i,
    {
        let e = &exprs[i];
        if declaring_ident(env, e) {
            st.report(Error::Diag(Diag::ImplicitAny { span: e.span() }));
            flagged = true;
        } else if effect_free(e) && !env.allow_unreachable_code {
            st.report(Error::Diag(Diag::UselessSeqExpr { span: e.span().with_lo(first_lo) }));
        } else {
            match type_of(env, st, e, TypeOfMode::RValue, fuel) {
                Ok(_) => {},
                Err(x) => {
                    if x.is_referenced_in_init() {
                        st.report(Error::Diag(Diag::ImplicitAny { span: e.span() }));
                        flagged = true;
                    } else {
                        st.report(x);
                    }
                },
            }
        }
        i += 1;
    }
    flagged
}

/// The type of a binary expression. Both operands are inferred, the
/// recoverable diagnostics of the operator are recorded, and the type is
/// the one that the operator gives for the types of its operands. An
/// operand that fails makes the expression fail with the errors of its
/// operands.
pub fn validate_bin_expr(
    env: &Env,
    st: &mut State,
    span: Span,
    op: BinaryOp,
    left: &Expr,
    right: &Expr,
    fuel: usize,
) -> (r: Result<Type, Error>)
    ensures
        (result_view(r), final(st)@) == bin_expr(
            env@,
            old(st)@,
            span,
            op,
            *left,
            *right,
            fuel as nat,
        ),
    decreases fuel, 0nat, 0nat,
{
    if fuel == 0 {
        return Err(too_deep(span));
    }
    let f = fuel - 1;
    let l = type_of(env, st, left, TypeOfMode::RValue, f);
    let r = type_of(env, st, right, TypeOfMode::RValue, f);
    let lt = match &l {
        Ok(t) => Some(t),
        Err(_) => None,
    };
    let rt = match &r {
        Ok(t) => Some(t),
        Err(_) => None,
    };
    validate_bin_inner(st, span, op, left.span(), right.span(), lt, rt);
    match l {
        Ok(a) => match r {
            Ok(b) => bin_type(op, span, a, b),
            Err(b) => {
                let mut es = no_errors();
                let ghost bv = b@;
                push_error(&mut es, b);
                assert(errors(es@) =~= seq![bv]);
                Err(Error::Errors { span, errors: es })
            },
        },
        Err(a) => match r {
            Ok(_) => {
                let mut es = no_errors();
                let ghost av = a@;
                push_error(&mut es, a);
                assert(errors(es@) =~= seq![av]);
                Err(Error::Errors { span, errors: es })
            },
            Err(b) => {
                let mut es = no_errors();
                let ghost av = a@;
                let ghost bv = b@;
                push_error(&mut es, a);
                push_error(&mut es, b);
                assert(errors(es@) =~= seq![av, bv]);
                Err(Error::Errors { span, errors: es })
            },
        },
    }
}

/// The type of the member access `obj.prop` or `obj[prop]`. A computed
/// access collects the errors of its object, of the access and of its
/// property; the error of an access by name is wrapped alone.
pub fn type_of_member_expr(
    env: &Env,
    st: &mut State,
    span: Span,
    obj: &Expr,
    prop: &Expr,
    computed: bool,
    mode: TypeOfMode,
    fuel: usize,
) -> (r: Result<Type, Error>)
    ensures
        (result_view(r), final(st)@) == type_of_member_expr_spec(
            env@,
            old(st)@,
            span,
            *obj,
            *prop,
            computed,
            mode,
            fuel as nat,
        ),
    decreases fuel, 0nat, 0nat,
{
    if fuel == 0 {
        return Err(too_deep(span));
    }
    let f = fuel - 1;
    let o = type_of(env, st, obj, TypeOfMode::RValue, f);
    if computed {
        let mut errs = no_errors();
        let obj_ty = match o {
            Ok(t) => t,
            Err(e) => {
                let ghost ev = e@;
                push_error(&mut errs, e);
                assert(errors(errs@) =~= seq![ev]);
                Type::Keyword(Keyword::Any)
            },
        };
        let a = access_property(env, st, span, obj_ty, &PropRef::Computed(prop), mode, f);
        assert(errors(errs@).len() == errs.len());
        match a {
            Ok(t) => {
                if errs.len() == 0 {
                    return Ok(t);
                }
            },
            Err(e) => {
                push_error(&mut errs, e);
            },
        }
        assert(errors(errs@).len() == errs.len());
        match type_of(env, st, prop, TypeOfMode::RValue, f) {
            Ok(_) => {},
            Err(e) => {
                push_error(&mut errs, e);
            },
        }
        Err(Error::Errors { span, errors: errs })
    } else {
        match o {
            Err(e) => Err(e),
            Ok(obj_ty) => match prop {
                Expr::Ident { span: prop_span, sym } => {
                    match access_property(
                        env,
                        st,
                        span,
                        obj_ty,
                        &PropRef::Name { span: *prop_span, sym },
                        mode,
                        f,
                    ) {
                        Ok(t) => Ok(t),
                        Err(e) => {
                            let mut es = no_errors();
                            let ghost ev = e@;
                            push_error(&mut es, e);
                            assert(errors(es@) =~= seq![ev]);
                            Err(Error::Errors { span, errors: es })
                        },
                    }
                },
                _ => Err(Error::Diag(Diag::Unsupported { span, what: Unsupported::Expr })),
            },
        }
    }
}

} // verus!
