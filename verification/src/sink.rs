//! The diagnostic sink of a module keeps what it holds: an inference adds
//! diagnostics behind those that were recorded before it, and takes none
//! away.

use vstd::prelude::*;
use crate::ast::{Arg, ArrayElem, BinaryOp, Class, ClassItem, Expr, Function, Prop};
use crate::errors::{Diag, ErrorV};
use crate::model::{arity_error, subst, type_or_any, ExtractKind, PropV, TypeOfMode};
use crate::rules::{
    access_array, access_expanded, access_object, access_property, access_union,
    access_union_members, arg_types, array_elems, bin_expr, builtin_interface, call_expr,
    call_member, call_method_of, callee_key, check_args, check_method_call, class_member_of,
    class_members_from, declared_return, enum_member_from, err, expand, expand_all, extract,
    extract_union, is_declaring_ident, is_effect_free, is_to_string, methods_from, object_members,
    object_props, pick_method, search_signatures, sequence_exprs, try_instantiate,
    try_instantiate_simple, type_of, type_of_arrow_fn, type_of_class, type_of_entity_name,
    type_of_fn, type_of_fn_detail, type_of_member_expr, type_of_prop,
};
use crate::scope::EnvV;
use crate::span::Span;
use crate::state::StateV;
use crate::types::{FnParamV, KeyV, Keyword, MemberV, TypeV};

verus! {

/// Whether the state `b` holds every diagnostic of the state `a`, in the
/// same order and before every other.
pub open spec fn keeps(a: StateV, b: StateV) -> bool {
    a.errors.is_prefix_of(b.errors)
}

proof fn chain(a: StateV, b: StateV, c: StateV)
    requires
        keeps(a, b),
        keeps(b, c),
    ensures
        keeps(a, c),
{
    assert(a.errors =~= c.errors.subrange(0, a.errors.len() as int));
}

proof fn keeps_report(a: StateV, e: ErrorV)
    ensures
        keeps(a, a.report(e)),
{
    assert(a.errors =~= a.report(e).errors.subrange(0, a.errors.len() as int));
}

proof fn keeps_report_all(a: StateV, es: Seq<ErrorV>)
    ensures
        keeps(a, a.report_all(es)),
{
    assert(a.errors =~= a.report_all(es).errors.subrange(0, a.errors.len() as int));
}

proof fn keeps_self(a: StateV)
    ensures
        keeps(a, a),
{
    assert(a.errors =~= a.errors.subrange(0, a.errors.len() as int));
}

proof fn keeps_infer(a: StateV, span: Span)
    ensures
        keeps(a, a.infer_return_type(span).1),
{
    keeps_self(a);
}

proof fn keeps_class_members(st: StateV, items: Seq<ClassItem>, i: int, acc: Seq<MemberV>)
    requires
        0 <= i,
    ensures
        keeps(st, class_members_from(st, items, i, acc).1),
    decreases items.len() - i,
{
    keeps_self(st);
    if i < items.len() {
        let (m, st1) = class_member_of(st, items[i]);
        assert(st1.errors == st.errors);
        match m {
            Some(m) => keeps_class_members(st1, items, i + 1, acc.push(m)),
            None => keeps_class_members(st1, items, i + 1, acc),
        }
    }
}

/// The inference of the type of an expression keeps the diagnostics.
pub proof fn lemma_type_of_keeps(env: EnvV, st: StateV, e: Expr, mode: TypeOfMode, fuel: nat)
    ensures
        keeps(st, type_of(env, st, e, mode, fuel).1),
    decreases fuel, 0nat, 0nat,
{
    keeps_self(st);
    if fuel > 0 {
        let f = (fuel - 1) as nat;
        match e {
            Expr::Array { elems, .. } => keep_array_elems(env, st, elems@, 0, Seq::empty(), f),
            Expr::Paren { expr, .. } => lemma_type_of_keeps(env, st, *expr, TypeOfMode::RValue, f),
            Expr::Bin { span, op, left, right } => keep_bin_expr(
                env,
                st,
                span,
                op,
                *left,
                *right,
                f,
            ),
            Expr::Unary { arg, .. } => lemma_type_of_keeps(env, st, *arg, TypeOfMode::RValue, f),
            Expr::TsNonNull { expr, .. } => lemma_type_of_keeps(
                env,
                st,
                *expr,
                TypeOfMode::RValue,
                f,
            ),
            Expr::Object { props, .. } => keep_object_props(
                env,
                st,
                props@,
                0,
                Seq::empty(),
                None,
                f,
            ),
            Expr::Cond { cons, alt, test, .. } => {
                if !is_declaring_ident(env, *test) {
                    let (c, st1) = type_of(env, st, *cons, TypeOfMode::RValue, f);
                    lemma_type_of_keeps(env, st, *cons, TypeOfMode::RValue, f);
                    if c is Ok {
                        lemma_type_of_keeps(env, st1, *alt, TypeOfMode::RValue, f);
                        chain(st, st1, type_of(env, st1, *alt, TypeOfMode::RValue, f).1);
                    }
                }
            },
            Expr::New { callee, args, type_args, .. } => keep_call_expr(
                env,
                st,
                *callee,
                ExtractKind::New,
                args@,
                crate::types::opt_types(type_args),
                f,
            ),
            Expr::Call { callee, args, type_args, .. } => keep_call_expr(
                env,
                st,
                *callee,
                ExtractKind::Call,
                args@,
                crate::types::opt_types(type_args),
                f,
            ),
            Expr::Sequence { exprs, .. } => {
                if exprs@.len() > 0 {
                    let lo = exprs@[0].spec_span().lo;
                    let (flagged, st1) = sequence_exprs(env, st, exprs@, lo, 0, false, f);
                    keep_sequence(env, st, exprs@, lo, 0, false, f);
                    if !flagged {
                        lemma_type_of_keeps(env, st1, exprs@.last(), TypeOfMode::RValue, f);
                        chain(st, st1, type_of(env, st1, exprs@.last(), TypeOfMode::RValue, f).1);
                    }
                }
            },
            Expr::Class { class, .. } => keep_type_of_class(env, st, None, *class, f),
            Expr::Arrow { function } => keep_arrow(env, st, *function, f),
            Expr::Fn { function } => keep_fn(env, st, *function, f),
            Expr::Member { span, obj, prop, computed } => keep_member_expr(
                env,
                st,
                span,
                *obj,
                *prop,
                computed,
                mode,
                f,
            ),
            Expr::Assign { target, right, .. } => {
                if !(target.is_some() && env.is_declaring(target.unwrap()@)) {
                    lemma_type_of_keeps(env, st, *right, TypeOfMode::RValue, f);
                }
            },
            _ => {},
        }
    }
}

proof fn keep_array_elems(
    env: EnvV,
    st: StateV,
    elems: Seq<ArrayElem>,
    i: int,
    acc: Seq<TypeV>,
    fuel: nat,
)
    requires
        0 <= i,
    ensures
        keeps(st, array_elems(env, st, elems, i, acc, fuel).1),
    decreases fuel, 1nat, elems.len() - i,
{
    keeps_self(st);
    if i < elems.len() {
        match elems[i] {
            ArrayElem::Hole { .. } => keep_array_elems(
                env,
                st,
                elems,
                i + 1,
                acc.push(TypeV::Keyword(Keyword::Undefined)),
                fuel,
            ),
            ArrayElem::Item(e) => {
                let (r, st1) = type_of(env, st, e, TypeOfMode::RValue, fuel);
                lemma_type_of_keeps(env, st, e, TypeOfMode::RValue, fuel);
                match r {
                    Ok(t) => {
                        keep_array_elems(env, st1, elems, i + 1, acc.push(t), fuel);
                        chain(st, st1, array_elems(env, st1, elems, i + 1, acc.push(t), fuel).1);
                    },
                    Err(_) => {},
                }
            },
            ArrayElem::Spread(_) => {},
        }
    }
}

proof fn keep_type_of_prop(env: EnvV, st: StateV, p: Prop, fuel: nat)
    ensures
        keeps(st, type_of_prop(env, st, p, fuel).1),
    decreases fuel, 0nat, 0nat,
{
    keeps_self(st);
    if fuel > 0 {
        let f = (fuel - 1) as nat;
        match p {
            Prop::KeyValue { span, value, .. } => {
                let (r, st1) = type_of(env, st, value, TypeOfMode::RValue, f);
                lemma_type_of_keeps(env, st, value, TypeOfMode::RValue, f);
                match r {
                    Ok(t) => {
                        lemma_expand_keeps(env, st1, span, t, f);
                        chain(st, st1, expand(env, st1, span, t, f).1);
                    },
                    Err(_) => {},
                }
            },
            Prop::Getter { span, .. } => keeps_infer(st, span),
            _ => {},
        }
    }
}

proof fn keep_object_props(
    env: EnvV,
    st: StateV,
    props: Seq<Prop>,
    i: int,
    acc: Seq<MemberV>,
    special: Option<TypeV>,
    fuel: nat,
)
    requires
        0 <= i,
    ensures
        keeps(st, object_props(env, st, props, i, acc, special, fuel).1),
    decreases fuel, 1nat, props.len() - i,
{
    keeps_self(st);
    if i < props.len() {
        match props[i] {
            Prop::Spread { expr, .. } => {
                let (r, st1) = type_of(env, st, expr, TypeOfMode::RValue, fuel);
                lemma_type_of_keeps(env, st, expr, TypeOfMode::RValue, fuel);
                match r {
                    Err(_) => {},
                    Ok(TypeV::TypeLit(ms)) => {
                        keep_object_props(env, st1, props, i + 1, acc + ms, special, fuel);
                        chain(
                            st,
                            st1,
                            object_props(env, st1, props, i + 1, acc + ms, special, fuel).1,
                        );
                    },
                    Ok(t) => {
                        if t.is_any() || t.is_unknown() {
                            keep_object_props(env, st1, props, i + 1, acc, Some(t), fuel);
                            chain(
                                st,
                                st1,
                                object_props(env, st1, props, i + 1, acc, Some(t), fuel).1,
                            );
                        }
                    },
                }
            },
            p => {
                let (r, st1) = type_of_prop(env, st, p, fuel);
                keep_type_of_prop(env, st, p, fuel);
                match r {
                    Err(_) => {},
                    Ok(m) => {
                        keep_object_props(env, st1, props, i + 1, acc.push(m), special, fuel);
                        chain(
                            st,
                            st1,
                            object_props(env, st1, props, i + 1, acc.push(m), special, fuel).1,
                        );
                    },
                }
            },
        }
    }
}

proof fn keep_sequence(
    env: EnvV,
    st: StateV,
    exprs: Seq<Expr>,
    first_lo: u32,
    i: int,
    flagged: bool,
    fuel: nat,
)
    requires
        0 <= i,
    ensures
        keeps(st, sequence_exprs(env, st, exprs, first_lo, i, flagged, fuel).1),
    decreases fuel, 1nat, exprs.len() - i,
{
    keeps_self(st);
    if i + 1 < exprs.len() {
        let e = exprs[i];
        if is_declaring_ident(env, e) {
            let st1 = st.report(err(Diag::ImplicitAny { span: e.spec_span() }));
            keeps_report(st, err(Diag::ImplicitAny { span: e.spec_span() }));
            keep_sequence(env, st1, exprs, first_lo, i + 1, true, fuel);
            chain(st, st1, sequence_exprs(env, st1, exprs, first_lo, i + 1, true, fuel).1);
        } else if is_effect_free(e) && !env.allow_unreachable_code {
            let d = err(
                Diag::UselessSeqExpr { span: e.spec_span().spec_with_lo(first_lo) },
            );
            let st1 = st.report(d);
            keeps_report(st, d);
            keep_sequence(env, st1, exprs, first_lo, i + 1, flagged, fuel);
            chain(st, st1, sequence_exprs(env, st1, exprs, first_lo, i + 1, flagged, fuel).1);
        } else {
            let (r, st1) = type_of(env, st, e, TypeOfMode::RValue, fuel);
            lemma_type_of_keeps(env, st, e, TypeOfMode::RValue, fuel);
            match r {
                Ok(_) => {
                    keep_sequence(env, st1, exprs, first_lo, i + 1, flagged, fuel);
                    chain(
                        st,
                        st1,
                        sequence_exprs(env, st1, exprs, first_lo, i + 1, flagged, fuel).1,
                    );
                },
                Err(x) => {
                    if x.is_referenced_in_init() {
                        let d = err(
                            Diag::ImplicitAny { span: e.spec_span() },
                        );
                        let st2 = st1.report(d);
                        keeps_report(st1, d);
                        chain(st, st1, st2);
                        keep_sequence(env, st2, exprs, first_lo, i + 1, true, fuel);
                        chain(
                            st,
                            st2,
                            sequence_exprs(env, st2, exprs, first_lo, i + 1, true, fuel).1,
                        );
                    } else {
                        let st2 = st1.report(x);
                        keeps_report(st1, x);
                        chain(st, st1, st2);
                        keep_sequence(env, st2, exprs, first_lo, i + 1, flagged, fuel);
                        chain(
                            st,
                            st2,
                            sequence_exprs(env, st2, exprs, first_lo, i + 1, flagged, fuel).1,
                        );
                    }
                },
            }
        }
    }
}

proof fn keep_bin_expr(
    env: EnvV,
    st: StateV,
    span: Span,
    op: BinaryOp,
    left: Expr,
    right: Expr,
    fuel: nat,
)
    ensures
        keeps(st, bin_expr(env, st, span, op, left, right, fuel).1),
    decreases fuel, 0nat, 0nat,
{
    keeps_self(st);
    if fuel > 0 {
        let f = (fuel - 1) as nat;
        let (l, st1) = type_of(env, st, left, TypeOfMode::RValue, f);
        let (r, st2) = type_of(env, st1, right, TypeOfMode::RValue, f);
        lemma_type_of_keeps(env, st, left, TypeOfMode::RValue, f);
        lemma_type_of_keeps(env, st1, right, TypeOfMode::RValue, f);
        chain(st, st1, st2);
        let st3 = bin_expr(env, st, span, op, left, right, fuel).1;
        let lt = match l {
            Ok(t) => Some(t),
            Err(_) => None,
        };
        let rt = match r {
            Ok(t) => Some(t),
            Err(_) => None,
        };
        keeps_report_all(
            st2,
            crate::bin::bin_diags(op, span, left.spec_span(), right.spec_span(), lt, rt),
        );
        chain(st, st2, st3);
    }
}

proof fn keep_member_expr(
    env: EnvV,
    st: StateV,
    span: Span,
    obj: Expr,
    prop: Expr,
    computed: bool,
    mode: TypeOfMode,
    fuel: nat,
)
    ensures
        keeps(st, type_of_member_expr(env, st, span, obj, prop, computed, mode, fuel).1),
    decreases fuel, 0nat, 0nat,
{
    keeps_self(st);
    if fuel > 0 {
        let f = (fuel - 1) as nat;
        let (o, st1) = type_of(env, st, obj, TypeOfMode::RValue, f);
        lemma_type_of_keeps(env, st, obj, TypeOfMode::RValue, f);
        if computed {
            let obj_ty = match o {
                Ok(t) => t,
                Err(_) => TypeV::Keyword(Keyword::Any),
            };
            let (a, st2) = access_property(env, st1, span, obj_ty, PropV::Computed(prop), mode, f);
            lemma_access_property_keeps(env, st1, span, obj_ty, PropV::Computed(prop), mode, f);
            chain(st, st1, st2);
            lemma_type_of_keeps(env, st2, prop, TypeOfMode::RValue, f);
            chain(st, st2, type_of(env, st2, prop, TypeOfMode::RValue, f).1);
        } else {
            match o {
                Err(_) => {},
                Ok(obj_ty) => match prop {
                    Expr::Ident { span: prop_span, sym } => {
                        let p = PropV::Name { span: prop_span, sym: sym@ };
                        lemma_access_property_keeps(env, st1, span, obj_ty, p, mode, f);
                        chain(st, st1, access_property(env, st1, span, obj_ty, p, mode, f).1);
                    },
                    _ => {},
                },
            }
        }
    }
}

/// The resolution of a property keeps the diagnostics.
pub proof fn lemma_access_property_keeps(
    env: EnvV,
    st: StateV,
    span: Span,
    obj: TypeV,
    prop: PropV,
    mode: TypeOfMode,
    fuel: nat,
)
    ensures
        keeps(st, access_property(env, st, span, obj, prop, mode, fuel).1),
    decreases fuel, 0nat, 0nat,
{
    keeps_self(st);
    if fuel > 0 {
        let f = (fuel - 1) as nat;
        let (x, st1) = expand(env, st, span, obj.generalize_lit(), f);
        lemma_expand_keeps(env, st, span, obj.generalize_lit(), f);
        match x {
            Err(_) => {},
            Ok(t) => {
                keep_access_expanded(env, st1, span, t, prop, mode, f);
                chain(st, st1, access_expanded(env, st1, span, t, prop, mode, f).1);
            },
        }
    }
}

proof fn keep_access_expanded(
    env: EnvV,
    st: StateV,
    span: Span,
    obj: TypeV,
    prop: PropV,
    mode: TypeOfMode,
    fuel: nat,
)
    ensures
        keeps(st, access_expanded(env, st, span, obj, prop, mode, fuel).1),
    decreases fuel, 3nat, 0nat,
{
    keeps_self(st);
    match obj {
        TypeV::EnumVariant { enum_name, name } => match env.find_type(enum_name) {
            Some(TypeV::Enum { members, .. }) => match enum_member_from(members, name, 0) {
                Some(m) => lemma_access_property_keeps(
                    env,
                    st,
                    span,
                    TypeV::Lit(m.value),
                    prop,
                    mode,
                    fuel,
                ),
                None => {},
            },
            _ => {},
        },
        TypeV::Keyword(Keyword::Any) => {},
        TypeV::Keyword(Keyword::Unknown) => {},
        TypeV::Keyword(k) => match builtin_interface(k) {
            None => {},
            Some(name) => match env.builtin_type(name) {
                None => {},
                Some(t) => lemma_access_property_keeps(env, st, span, t, prop, mode, fuel),
            },
        },
        TypeV::Array(elem) => keep_access_array(env, st, span, *elem, prop, mode, fuel),
        TypeV::Interface { body, .. } => keep_access_object(env, st, span, body, prop, mode, fuel),
        TypeV::TypeLit(ms) => keep_access_object(env, st, span, ms, prop, mode, fuel),
        TypeV::Union(ts) => keep_access_union_members(env, st, span, ts, prop, mode, fuel),
        TypeV::This => match env.this_type() {
            Some(t) => lemma_access_property_keeps(env, st, span, t, prop, mode, fuel),
            None => {},
        },
        _ => {},
    }
}

proof fn keep_access_array(
    env: EnvV,
    st: StateV,
    span: Span,
    elem: TypeV,
    prop: PropV,
    mode: TypeOfMode,
    fuel: nat,
)
    ensures
        keeps(st, access_array(env, st, span, elem, prop, mode, fuel).1),
    decreases fuel, 2nat, 0nat,
{
    keeps_self(st);
    let (p, st2) = match prop {
        PropV::Computed(e) => type_of(env, st, e, TypeOfMode::RValue, fuel),
        PropV::Name { .. } => (Ok(TypeV::Keyword(Keyword::String)), st),
    };
    match prop {
        PropV::Computed(e) => lemma_type_of_keeps(env, st, e, TypeOfMode::RValue, fuel),
        PropV::Name { .. } => {},
    }
    if !(p matches Ok(pt) && pt.is_number_like()) {
        match env.builtin_type("Array"@) {
            None => {},
            Some(t) => {
                lemma_access_property_keeps(env, st2, span, t, prop, mode, fuel);
                chain(st, st2, access_property(env, st2, span, t, prop, mode, fuel).1);
            },
        }
    }
}

proof fn keep_access_union_members(
    env: EnvV,
    st: StateV,
    span: Span,
    ts: Seq<TypeV>,
    prop: PropV,
    mode: TypeOfMode,
    fuel: nat,
)
    ensures
        keeps(st, access_union_members(env, st, span, ts, prop, mode, fuel).1),
    decreases fuel, 2nat, 0nat,
{
    keep_access_union(env, st, span, ts, prop, mode, 0, Seq::empty(), Seq::empty(), fuel);
}

proof fn keep_access_object(
    env: EnvV,
    st: StateV,
    span: Span,
    ms: Seq<MemberV>,
    prop: PropV,
    mode: TypeOfMode,
    fuel: nat,
)
    ensures
        keeps(st, access_object(env, st, span, ms, prop, mode, fuel).1),
    decreases fuel, 1nat, 0nat,
{
    keeps_self(st);
    match prop {
        PropV::Name { .. } => {},
        PropV::Computed(e) => lemma_type_of_keeps(env, st, e, TypeOfMode::RValue, fuel),
    }
}

proof fn keep_access_union(
    env: EnvV,
    st: StateV,
    span: Span,
    ts: Seq<TypeV>,
    prop: PropV,
    mode: TypeOfMode,
    i: int,
    tys: Seq<TypeV>,
    errs: Seq<ErrorV>,
    fuel: nat,
)
    requires
        0 <= i,
    ensures
        keeps(st, access_union(env, st, span, ts, prop, mode, i, tys, errs, fuel).2),
    decreases fuel, 1nat, ts.len() - i,
{
    keeps_self(st);
    if i < ts.len() {
        let (r, st1) = access_property(env, st, span, ts[i], prop, mode, fuel);
        lemma_access_property_keeps(env, st, span, ts[i], prop, mode, fuel);
        match r {
            Ok(t) => {
                keep_access_union(env, st1, span, ts, prop, mode, i + 1, tys.push(t), errs, fuel);
                chain(
                    st,
                    st1,
                    access_union(env, st1, span, ts, prop, mode, i + 1, tys.push(t), errs, fuel).2,
                );
            },
            Err(e) => {
                keep_access_union(env, st1, span, ts, prop, mode, i + 1, tys, errs.push(e), fuel);
                chain(
                    st,
                    st1,
                    access_union(env, st1, span, ts, prop, mode, i + 1, tys, errs.push(e), fuel).2,
                );
            },
        }
    }
}

/// Expansion keeps the diagnostics.
pub proof fn lemma_expand_keeps(env: EnvV, st: StateV, span: Span, t: TypeV, fuel: nat)
    ensures
        keeps(st, expand(env, st, span, t, fuel).1),
    decreases fuel, 0nat, 0nat,
{
    keeps_self(st);
    if fuel > 0 {
        let f = (fuel - 1) as nat;
        match t {
            TypeV::Ref { path, type_args } => {
                if path.len() == 1 {
                    match env.builtin_type(path[0]) {
                        Some(b) => lemma_expand_keeps(env, st, span, b, f),
                        None => match env.find_type(path[0]) {
                            Some(TypeV::Alias { type_params: Some(tps), ty }) => {
                                let body = match type_args {
                                    Some(args) => subst(tps, args, *ty),
                                    None => *ty,
                                };
                                lemma_expand_keeps(env, st, span, body, f);
                            },
                            _ => {},
                        },
                    }
                }
            },
            TypeV::Query { path } => keep_entity_name(env, st, span, path, f),
            TypeV::Union(ts) => keep_expand_all(env, st, span, ts, 0, Seq::empty(), f),
            TypeV::Intersection(ts) => keep_expand_all(env, st, span, ts, 0, Seq::empty(), f),
            TypeV::Array(elem) => lemma_expand_keeps(env, st, span, *elem, f),
            TypeV::Tuple(ts) => keep_expand_all(env, st, span, ts, 0, Seq::empty(), f),
            TypeV::Function { ret, .. } => lemma_expand_keeps(env, st, span, *ret, f),
            _ => {},
        }
    }
}

proof fn keep_expand_all(
    env: EnvV,
    st: StateV,
    span: Span,
    ts: Seq<TypeV>,
    i: int,
    acc: Seq<TypeV>,
    fuel: nat,
)
    requires
        0 <= i,
    ensures
        keeps(st, expand_all(env, st, span, ts, i, acc, fuel).1),
    decreases fuel, 1nat, ts.len() - i,
{
    keeps_self(st);
    if i < ts.len() {
        let (r, st1) = expand(env, st, span, ts[i], fuel);
        lemma_expand_keeps(env, st, span, ts[i], fuel);
        match r {
            Ok(x) => {
                keep_expand_all(env, st1, span, ts, i + 1, acc.push(x), fuel);
                chain(st, st1, expand_all(env, st1, span, ts, i + 1, acc.push(x), fuel).1);
            },
            Err(_) => {},
        }
    }
}

proof fn keep_entity_name(env: EnvV, st: StateV, span: Span, path: Seq<Seq<char>>, fuel: nat)
    ensures
        keeps(st, type_of_entity_name(env, st, span, path, fuel).1),
    decreases fuel, 0nat, 0nat,
{
    keeps_self(st);
    if fuel > 0 && path.len() >= 2 {
        let f = (fuel - 1) as nat;
        let (o, st1) = type_of_entity_name(env, st, span, path.drop_last(), f);
        keep_entity_name(env, st, span, path.drop_last(), f);
        match o {
            Err(_) => {},
            Ok(t) => {
                let p = PropV::Name { span, sym: path.last() };
                lemma_access_property_keeps(env, st1, span, t, p, TypeOfMode::RValue, f);
                chain(st, st1, access_property(env, st1, span, t, p, TypeOfMode::RValue, f).1);
            },
        }
    }
}

proof fn keep_arg_types(
    env: EnvV,
    st: StateV,
    args: Seq<Arg>,
    i: int,
    acc: Seq<TypeV>,
    fuel: nat,
)
    requires
        0 <= i,
    ensures
        keeps(st, arg_types(env, st, args, i, acc, fuel).1),
    decreases fuel, 1nat, args.len() - i,
{
    keeps_self(st);
    if i < args.len() {
        let (r, st1) = type_of(env, st, args[i].expr, TypeOfMode::RValue, fuel);
        lemma_type_of_keeps(env, st, args[i].expr, TypeOfMode::RValue, fuel);
        match r {
            Ok(t) => {
                keep_arg_types(env, st1, args, i + 1, acc.push(t), fuel);
                chain(st, st1, arg_types(env, st1, args, i + 1, acc.push(t), fuel).1);
            },
            Err(_) => {},
        }
    }
}

proof fn keep_check_args(
    env: EnvV,
    st: StateV,
    span: Span,
    params: Seq<FnParamV>,
    args: Seq<Arg>,
    i: int,
    fuel: nat,
)
    requires
        0 <= i,
    ensures
        keeps(st, check_args(env, st, span, params, args, i, fuel).1),
    decreases fuel, 1nat, params.len() - i,
{
    keeps_self(st);
    if i < params.len() {
        let (x, st1) = expand(env, st, span, params[i].ty, fuel);
        lemma_expand_keeps(env, st, span, params[i].ty, fuel);
        match x {
            Err(_) => {},
            Ok(lhs) => {
                if i < args.len() {
                    let (a, st2) = type_of(env, st1, args[i].expr, TypeOfMode::RValue, fuel);
                    lemma_type_of_keeps(env, st1, args[i].expr, TypeOfMode::RValue, fuel);
                    chain(st, st1, st2);
                    match a {
                        Err(_) => {},
                        Ok(at) => {
                            if crate::model::assign(lhs, at, args[i].expr.spec_span()) is Ok {
                                keep_check_args(env, st2, span, params, args, i + 1, fuel);
                                chain(
                                    st,
                                    st2,
                                    check_args(env, st2, span, params, args, i + 1, fuel).1,
                                );
                            }
                        },
                    }
                } else {
                    keep_check_args(env, st1, span, params, args, i + 1, fuel);
                    chain(st, st1, check_args(env, st1, span, params, args, i + 1, fuel).1);
                }
            },
        }
    }
}

proof fn keep_check_method_call(
    env: EnvV,
    st: StateV,
    span: Span,
    m: MemberV,
    args: Seq<Arg>,
    fuel: nat,
)
    ensures
        keeps(st, check_method_call(env, st, span, m, args, fuel).1),
    decreases fuel, 0nat, 0nat,
{
    keeps_self(st);
    if fuel > 0 {
        match m {
            MemberV::Method { params, .. } => keep_check_args(
                env,
                st,
                span,
                params,
                args,
                0,
                (fuel - 1) as nat,
            ),
            _ => {},
        }
    }
}

proof fn keep_call_expr(
    env: EnvV,
    st: StateV,
    callee: Expr,
    kind: ExtractKind,
    args: Seq<Arg>,
    type_args: Option<Seq<TypeV>>,
    fuel: nat,
)
    ensures
        keeps(st, call_expr(env, st, callee, kind, args, type_args, fuel).1),
    decreases fuel, 0nat, 0nat,
{
    keeps_self(st);
    let span = callee.spec_span();
    if fuel > 0 {
        let f = (fuel - 1) as nat;
        match callee {
            Expr::Member { obj, prop, computed, .. } => {
                if !is_to_string(*prop, computed) {
                    let (o, st1) = type_of(env, st, *obj, TypeOfMode::RValue, f);
                    lemma_type_of_keeps(env, st, *obj, TypeOfMode::RValue, f);
                    match o {
                        Err(_) => {},
                        Ok(t) => {
                            let (x, st2) = expand(env, st1, span, t.generalize_lit(), f);
                            lemma_expand_keeps(env, st1, span, t.generalize_lit(), f);
                            chain(st, st1, st2);
                            match x {
                                Err(_) => {},
                                Ok(obj_ty) => {
                                    let key = callee_key(*prop, computed);
                                    keep_call_member(
                                        env,
                                        st2,
                                        span,
                                        obj_ty,
                                        key,
                                        computed,
                                        kind,
                                        args,
                                        f,
                                    );
                                    chain(
                                        st,
                                        st2,
                                        call_member(
                                            env,
                                            st2,
                                            span,
                                            obj_ty,
                                            key,
                                            computed,
                                            kind,
                                            args,
                                            f,
                                        ).1,
                                    );
                                },
                            }
                        },
                    }
                }
            },
            _ => {
                if !(callee matches Expr::Ident { sym, .. } && sym@ == "require"@) {
                    let (c, st1) = type_of(env, st, callee, TypeOfMode::RValue, f);
                    lemma_type_of_keeps(env, st, callee, TypeOfMode::RValue, f);
                    match c {
                        Err(_) => {},
                        Ok(t) => {
                            let (x, st2) = expand(env, st1, span, t, f);
                            lemma_expand_keeps(env, st1, span, t, f);
                            chain(st, st1, st2);
                            match x {
                                Err(_) => {},
                                Ok(ty) => {
                                    keep_extract(env, st2, span, ty, kind, args, type_args, f);
                                    chain(
                                        st,
                                        st2,
                                        extract(env, st2, span, ty, kind, args, type_args, f).1,
                                    );
                                },
                            }
                        },
                    }
                }
            },
        }
    }
}

proof fn keep_call_member(
    env: EnvV,
    st: StateV,
    span: Span,
    obj: TypeV,
    key: KeyV,
    computed: bool,
    kind: ExtractKind,
    args: Seq<Arg>,
    fuel: nat,
)
    ensures
        keeps(st, call_member(env, st, span, obj, key, computed, kind, args, fuel).1),
    decreases fuel, 0nat, 0nat,
{
    keeps_self(st);
    if fuel > 0 {
        let f = (fuel - 1) as nat;
        let redirected = match obj {
            TypeV::Keyword(Keyword::Number) => env.builtin_type("Number"@),
            TypeV::Keyword(Keyword::String) => env.builtin_type("String"@),
            _ => Some(obj),
        };
        match redirected {
            Some(TypeV::Interface { body, .. }) => keep_call_method_of(
                env,
                st,
                span,
                body,
                key,
                kind,
                args,
                f,
            ),
            Some(TypeV::TypeLit(ms)) => keep_call_method_of(env, st, span, ms, key, kind, args, f),
            _ => {},
        }
    }
}

proof fn keep_call_method_of(
    env: EnvV,
    st: StateV,
    span: Span,
    ms: Seq<MemberV>,
    key: KeyV,
    kind: ExtractKind,
    args: Seq<Arg>,
    fuel: nat,
)
    ensures
        keeps(st, call_method_of(env, st, span, ms, key, kind, args, fuel).1),
    decreases fuel, 1nat, 0nat,
{
    keeps_self(st);
    let cs = if kind == ExtractKind::Call {
        methods_from(object_members(env), key, 0, methods_from(ms, key, 0, Seq::empty()))
    } else {
        Seq::empty()
    };
    match pick_method(span, cs, args.len()) {
        Err(_) => {},
        Ok(m) => keep_check_method_call(env, st, span, m, args, fuel),
    }
}

proof fn keep_extract(
    env: EnvV,
    st: StateV,
    span: Span,
    ty: TypeV,
    kind: ExtractKind,
    args: Seq<Arg>,
    type_args: Option<Seq<TypeV>>,
    fuel: nat,
)
    ensures
        keeps(st, extract(env, st, span, ty, kind, args, type_args, fuel).1),
    decreases fuel, 0nat, 0nat,
{
    keeps_self(st);
    if fuel > 0 {
        let f = (fuel - 1) as nat;
        match ty {
            TypeV::Keyword(Keyword::Any) => {},
            TypeV::Keyword(Keyword::Unknown) => {},
            TypeV::Function { type_params, params, ret } => {
                if kind == ExtractKind::Call {
                    keep_try_instantiate(
                        env,
                        st,
                        span,
                        type_params,
                        params,
                        *ret,
                        args,
                        type_args,
                        f,
                    );
                }
            },
            TypeV::Union(ts) => keep_extract_union(
                env,
                st,
                span,
                ts,
                kind,
                args,
                type_args,
                0,
                Seq::empty(),
                f,
            ),
            TypeV::Interface { body, .. } => keep_search_signatures(
                env,
                st,
                span,
                body,
                kind,
                args,
                0,
                f,
            ),
            TypeV::TypeLit(ms) => keep_search_signatures(env, st, span, ms, kind, args, 0, f),
            _ => {},
        }
    }
}

proof fn keep_extract_union(
    env: EnvV,
    st: StateV,
    span: Span,
    ts: Seq<TypeV>,
    kind: ExtractKind,
    args: Seq<Arg>,
    type_args: Option<Seq<TypeV>>,
    i: int,
    errs: Seq<ErrorV>,
    fuel: nat,
)
    requires
        0 <= i,
    ensures
        keeps(st, extract_union(env, st, span, ts, kind, args, type_args, i, errs, fuel).1),
    decreases fuel, 1nat, ts.len() - i,
{
    keeps_self(st);
    if i < ts.len() {
        let (r, st1) = extract(env, st, span, ts[i], kind, args, type_args, fuel);
        keep_extract(env, st, span, ts[i], kind, args, type_args, fuel);
        match r {
            Ok(_) => {},
            Err(e) => {
                keep_extract_union(
                    env,
                    st1,
                    span,
                    ts,
                    kind,
                    args,
                    type_args,
                    i + 1,
                    errs.push(e),
                    fuel,
                );
                chain(
                    st,
                    st1,
                    extract_union(
                        env,
                        st1,
                        span,
                        ts,
                        kind,
                        args,
                        type_args,
                        i + 1,
                        errs.push(e),
                        fuel,
                    ).1,
                );
            },
        }
    }
}

proof fn keep_search_signatures(
    env: EnvV,
    st: StateV,
    span: Span,
    ms: Seq<MemberV>,
    kind: ExtractKind,
    args: Seq<Arg>,
    i: int,
    fuel: nat,
)
    requires
        0 <= i,
    ensures
        keeps(st, search_signatures(env, st, span, ms, kind, args, i, fuel).1),
    decreases fuel, 2nat, ms.len() - i,
{
    keeps_self(st);
    if i < ms.len() {
        let sig = match ms[i] {
            MemberV::Call { type_params, params, ret } => if kind == ExtractKind::Call {
                Some((type_params, params, ret))
            } else {
                None
            },
            MemberV::Construct { type_params, params, ret } => if kind == ExtractKind::New {
                Some((type_params, params, ret))
            } else {
                None
            },
            _ => None,
        };
        match sig {
            None => keep_search_signatures(env, st, span, ms, kind, args, i + 1, fuel),
            Some((type_params, params, ret)) => match try_instantiate_simple(
                span,
                span,
                type_or_any(ret),
                params,
                type_params,
                args.len(),
            ) {
                Err(_) => keep_search_signatures(env, st, span, ms, kind, args, i + 1, fuel),
                Ok(_) => {
                    let (c, st1) = check_args(env, st, span, params, args, 0, fuel);
                    keep_check_args(env, st, span, params, args, 0, fuel);
                    match c {
                        Ok(_) => {},
                        Err(_) => {
                            keep_search_signatures(env, st1, span, ms, kind, args, i + 1, fuel);
                            chain(
                                st,
                                st1,
                                search_signatures(env, st1, span, ms, kind, args, i + 1, fuel).1,
                            );
                        },
                    }
                },
            },
        }
    }
}

proof fn keep_try_instantiate(
    env: EnvV,
    st: StateV,
    span: Span,
    type_params: Option<Seq<Seq<char>>>,
    params: Seq<FnParamV>,
    ret: TypeV,
    args: Seq<Arg>,
    type_args: Option<Seq<TypeV>>,
    fuel: nat,
)
    ensures
        keeps(
            st,
            try_instantiate(env, st, span, type_params, params, ret, args, type_args, fuel).1,
        ),
    decreases fuel, 0nat, 0nat,
{
    keeps_self(st);
    if fuel > 0 {
        if arity_error(span, span, params, args.len()).is_none() && type_params.is_some()
            && type_args.is_none() {
            keep_arg_types(env, st, args, 0, Seq::empty(), (fuel - 1) as nat);
        }
    }
}

proof fn keep_type_of_class(env: EnvV, st: StateV, name: Option<Seq<char>>, c: Class, fuel: nat)
    ensures
        keeps(st, type_of_class(env, st, name, c, fuel).1),
    decreases fuel, 0nat, 0nat,
{
    keeps_self(st);
    if fuel > 0 {
        match c.super_class {
            Some(e) => {
                let (r, st1) = type_of(env, st, *e, TypeOfMode::RValue, (fuel - 1) as nat);
                lemma_type_of_keeps(env, st, *e, TypeOfMode::RValue, (fuel - 1) as nat);
                if r is Ok {
                    keeps_class_members(st1, c.body@, 0, Seq::empty());
                    chain(st, st1, class_members_from(st1, c.body@, 0, Seq::empty()).1);
                }
            },
            None => keeps_class_members(st, c.body@, 0, Seq::empty()),
        }
    }
}

proof fn keep_declared_return(env: EnvV, st: StateV, f: Function, fuel: nat)
    ensures
        keeps(st, declared_return(env, st, f, fuel).1),
    decreases fuel, 1nat, 0nat,
{
    keeps_self(st);
    match f.return_type {
        None => {},
        Some(t) => lemma_expand_keeps(env, st, f.span, t@, fuel),
    }
}

proof fn keep_arrow(env: EnvV, st: StateV, f: Function, fuel: nat)
    ensures
        keeps(st, type_of_arrow_fn(env, st, f, fuel).1),
    decreases fuel, 0nat, 0nat,
{
    keeps_self(st);
    if fuel > 0 {
        let (d, st1) = declared_return(env, st, f, (fuel - 1) as nat);
        keep_declared_return(env, st, f, (fuel - 1) as nat);
        keeps_infer(st1, f.span);
        chain(st, st1, st1.infer_return_type(f.span).1);
    }
}

proof fn keep_fn_detail(env: EnvV, st: StateV, f: Function, fuel: nat)
    ensures
        keeps(st, type_of_fn_detail(env, st, f, fuel).1),
    decreases fuel, 0nat, 0nat,
{
    keeps_self(st);
    if fuel > 0 {
        let (d, st1) = declared_return(env, st, f, (fuel - 1) as nat);
        keep_declared_return(env, st, f, (fuel - 1) as nat);
        keeps_infer(st1, f.span);
        chain(st, st1, st1.infer_return_type(f.span).1);
    }
}

proof fn keep_fn(env: EnvV, st: StateV, f: Function, fuel: nat)
    ensures
        keeps(st, type_of_fn(env, st, f, fuel).1),
    decreases fuel, 0nat, 0nat,
{
    keeps_self(st);
    if fuel > 0 {
        keep_fn_detail(env, st, f, (fuel - 1) as nat);
    }
}

} // verus!
