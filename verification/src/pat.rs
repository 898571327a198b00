//! Patterns: the names that a pattern binds, their declaration, and the
//! rules on rest patterns and on patterns with a default value.

use vstd::prelude::*;
use crate::ast::{Expr, ObjectPatProp, Pat, Prop, PropName, VarKind};
use crate::copy::copy_opt_type;
use crate::errors::{errors, Diag, Error, ErrorV};
use crate::expr::type_of;
use crate::model::{param_of, prop_names_match, TypeOfMode};
use crate::ops::{no_errors, pat_param, prop_name_key, push_error, same_member};
use crate::rules::{err, prop_span, type_of as type_of_spec};
use crate::scope::{Env, EnvV};
use crate::span::Span;
use crate::state::{State, StateV};
use crate::types::{opt_type, strs, FnParam, FnParamV, Keyword, Type, TypeV};

verus! {

/// A name that a pattern binds, with the place of the name and the type
/// that it is annotated with.
#[derive(Debug, PartialEq, Eq)]
pub struct Binding {
    pub span: Span,
    pub name: String,
    pub ty: Option<Type>,
}

/// The view of a binding.
pub ghost struct BindingV {
    pub span: Span,
    pub name: Seq<char>,
    pub ty: Option<TypeV>,
}

impl View for Binding {
    type V = BindingV;

    open spec fn view(&self) -> BindingV {
        BindingV { span: self.span, name: self.name@, ty: opt_type(self.ty) }
    }
}

/// The views of the bindings in `s`, in their order.
pub open spec fn bindings_view(s: Seq<Binding>) -> Seq<BindingV> {
    s.map_values(|b: Binding| b@)
}

/// The names that the pattern `p` binds, in their order, behind `acc`.
pub open spec fn bindings_into(p: Pat, acc: Seq<BindingV>) -> Seq<BindingV>
    decreases p, 0nat,
{
    match p {
        Pat::Ident { span, sym, type_ann, .. } => acc.push(
            BindingV { span, name: sym@, ty: opt_type(type_ann) },
        ),
        Pat::Array { elems, .. } => bindings_of_pats(elems@, 0, acc),
        Pat::Rest { arg, .. } => bindings_into(*arg, acc),
        Pat::Object { props, .. } => bindings_of_props(props@, 0, acc),
        Pat::Assign { left, .. } => bindings_into(*left, acc),
        Pat::Other { .. } => acc,
    }
}

/// The names that the patterns from position `i` on bind, behind `acc`.
pub open spec fn bindings_of_pats(ps: Seq<Pat>, i: int, acc: Seq<BindingV>) -> Seq<BindingV>
    decreases ps, ps.len() - i,
{
    if i < 0 || i >= ps.len() {
        acc
    } else {
        bindings_of_pats(ps, i + 1, bindings_into(ps[i], acc))
    }
}

/// The names that the properties of an object pattern from position `i`
/// on bind, behind `acc`.
pub open spec fn bindings_of_props(ps: Seq<ObjectPatProp>, i: int, acc: Seq<BindingV>) -> Seq<
    BindingV,
>
    decreases ps, ps.len() - i,
{
    if i < 0 || i >= ps.len() {
        acc
    } else {
        bindings_of_props(
            ps,
            i + 1,
            match ps[i] {
                ObjectPatProp::KeyValue { value, .. } => bindings_into(value, acc),
                ObjectPatProp::Assign { span, sym } => acc.push(
                    BindingV { span, name: sym@, ty: None },
                ),
                ObjectPatProp::Rest { arg } => bindings_into(arg, acc),
            },
        )
    }
}

/// The names that the pattern `p` binds.
pub open spec fn bindings(p: Pat) -> Seq<BindingV> {
    bindings_into(p, Seq::empty())
}

/// The names of the bindings, in their order.
pub open spec fn names_of(bs: Seq<BindingV>) -> Seq<Seq<char>> {
    bs.map_values(|b: BindingV| b.name)
}

/// Declares the bindings from position `i` on in the current scope, up to
/// the first that fails.
pub open spec fn declare_all(env: EnvV, kind: VarKind, bs: Seq<BindingV>, i: int) -> (
    Result<(), ErrorV>,
    EnvV,
)
    decreases bs.len() - i,
{
    if i < 0 || i >= bs.len() {
        (Ok(()), env)
    } else {
        let (r, env1) = env.declare_var(bs[i].span, kind, bs[i].name, bs[i].ty, true, false);
        match r {
            Ok(_) => declare_all(env1, kind, bs, i + 1),
            Err(e) => (Err(e), env1),
        }
    }
}

/// Declares every name that the pattern `p` binds in the current scope.
pub open spec fn declare_vars(env: EnvV, kind: VarKind, p: Pat) -> (Result<(), ErrorV>, EnvV) {
    declare_all(env, kind, bindings(p), 0)
}

/// The state after the default value of the pattern, if it has one, is
/// validated: a failure is recorded.
pub open spec fn validate_default(env: EnvV, st: StateV, p: Pat, fuel: nat) -> StateV {
    match p {
        Pat::Assign { right, .. } => {
            let (r, st1) = type_of_spec(env, st, *right, TypeOfMode::RValue, fuel);
            match r {
                Ok(_) => st1,
                Err(e) => st1.report(e),
            }
        },
        _ => st,
    }
}

/// Validates the pattern `p` as a parameter. While its default value is
/// validated and its names are declared, the names that it binds are being
/// initialized, and they are no longer so afterwards. A declaration that
/// fails is recorded.
pub open spec fn validate_pat_spec(env: EnvV, st: StateV, p: Pat, fuel: nat) -> (
    FnParamV,
    EnvV,
    StateV,
) {
    let names = names_of(bindings(p));
    let env1 = env.add_declaring(names);
    let st1 = validate_default(env1, st, p, fuel);
    let (r, env2) = declare_vars(env1, VarKind::Let, p);
    let st2 = match r {
        Ok(_) => st1,
        Err(e) => st1.report(e),
    };
    (param_of(p), env2.remove_declaring(names), st2)
}

fn push_binding(out: &mut Vec<Binding>, b: Binding)
    ensures
        bindings_view(final(out)@) == bindings_view(old(out)@).push(b@),
{
    out.push(b);
    assert(bindings_view(out@) =~= bindings_view(old(out)@).push(b@));
}

/// Collects the names that the pattern `p` binds behind those in `out`.
pub fn collect_bindings(p: &Pat, out: &mut Vec<Binding>)
    ensures
        bindings_view(final(out)@) == bindings_into(*p, bindings_view(old(out)@)),
    decreases p, 0nat,
{
    match p {
        Pat::Ident { span, sym, type_ann, .. } => {
            push_binding(out, Binding { span: *span, name: sym.clone(), ty: copy_opt_type(type_ann) });
        },
        Pat::Array { elems, .. } => {
            collect_pat_bindings(elems, out);
        },
        Pat::Rest { arg, .. } => {
            collect_bindings(arg, out);
        },
        Pat::Object { props, .. } => {
            collect_prop_bindings(props, out);
        },
        Pat::Assign { left, .. } => {
            collect_bindings(left, out);
        },
        Pat::Other { .. } => {},
    }
}

fn collect_pat_bindings(ps: &Vec<Pat>, out: &mut Vec<Binding>)
    ensures
        bindings_view(final(out)@) == bindings_of_pats(ps@, 0, bindings_view(old(out)@)),
    decreases ps, ps.len(),
{
    let mut i: usize = 0;
    while i < ps.len()
        invariant
            i <= ps.len(),
            bindings_of_pats(ps@, 0, bindings_view(old(out)@)) == bindings_of_pats(
                ps@,
                i as int,
                bindings_view(out@),
            ),
        decreases ps.len() - i,
    {
        collect_bindings(&ps[i], out);
        i += 1;
    }
}

fn collect_prop_bindings(ps: &Vec<ObjectPatProp>, out: &mut Vec<Binding>)
    ensures
        bindings_view(final(out)@) == bindings_of_props(ps@, 0, bindings_view(old(out)@)),
    decreases ps, ps.len(),
{
    let mut i: usize = 0;
    while i < ps.len()
        invariant
            i <= ps.len(),
            bindings_of_props(ps@, 0, bindings_view(old(out)@)) == bindings_of_props(
                ps@,
                i as int,
                bindings_view(out@),
            ),
        decreases ps.len() - i,
    {
        match &ps[i] {
            ObjectPatProp::KeyValue { value, .. } => {
                collect_bindings(value, out);
            },
            ObjectPatProp::Assign { span, sym } => {
                push_binding(out, Binding { span: *span, name: sym.clone(), ty: None });
            },
            ObjectPatProp::Rest { arg } => {
                collect_bindings(arg, out);
            },
        }
        i += 1;
    }
}

/// The names that the pattern `p` binds.
pub fn pat_bindings(p: &Pat) -> (r: Vec<Binding>)
    ensures
        bindings_view(r@) == bindings(*p),
{
    let mut out: Vec<Binding> = Vec::new();
    assert(bindings_view(out@) =~= Seq::empty());
    collect_bindings(p, &mut out);
    out
}

fn binding_names(bs: &Vec<Binding>) -> (r: Vec<String>)
    ensures
        strs(r@) == names_of(bindings_view(bs@)),
{
    let mut out: Vec<String> = Vec::new();
    let mut i: usize = 0;
    while i < bs.len()
        invariant
            i <= bs.len(),
            out.len() == i,
            forall|j: int| 0 <= j < i ==> out@[j]@ == bs@[j].name@,
        decreases bs.len() - i,
    {
        out.push(bs[i].name.clone());
        i += 1;
    }
    assert(strs(out@) =~= names_of(bindings_view(bs@)));
    out
}

fn declare_bindings(env: &mut Env, kind: VarKind, bs: &Vec<Binding>) -> (r: Result<(), Error>)
    ensures
        (
            match r {
                Ok(_) => Ok::<(), ErrorV>(()),
                Err(e) => Err(e@),
            },
            final(env)@,
        ) == declare_all(old(env)@, kind, bindings_view(bs@), 0),
{
    let ghost env0 = env@;
    let mut i: usize = 0;
    while i < bs.len()
        invariant
            env0 == old(env)@,
            i <= bs.len(),
            declare_all(env0, kind, bindings_view(bs@), 0) == declare_all(
                env@,
                kind,
                bindings_view(bs@),
                i as int,
            ),
        decreases bs.len() - i,
    {
        let b = &bs[i];
        assert(bindings_view(bs@)[i as int] == b@);
        match env.declare_var(b.span, kind, b.name.clone(), copy_opt_type(&b.ty), true, false) {
            Ok(_) => {},
            Err(e) => {
                return Err(e);
            },
        }
        i += 1;
    }
    Ok(())
}

/// Declares every name that the pattern `p` binds in the current scope, up
/// to the first declaration that fails.
pub fn declare_pat_vars(env: &mut Env, kind: VarKind, p: &Pat) -> (r: Result<(), Error>)
    ensures
        (
            match r {
                Ok(_) => Ok::<(), ErrorV>(()),
                Err(e) => Err(e@),
            },
            final(env)@,
        ) == declare_vars(old(env)@, kind, *p),
{
    let bs = pat_bindings(p);
    declare_bindings(env, kind, &bs)
}

/// Validates the pattern `p` as a parameter within the depth `fuel`.
pub fn validate_pat(env: &mut Env, st: &mut State, p: &Pat, fuel: usize) -> (r: FnParam)
    ensures
        (r@, final(env)@, final(st)@) == validate_pat_spec(
            old(env)@,
            old(st)@,
            *p,
            fuel as nat,
        ),
{
    let bs = pat_bindings(p);
    let names = binding_names(&bs);
    env.add_declaring(&names);
    match p {
        Pat::Assign { right, .. } => match type_of(env, st, right, TypeOfMode::RValue, fuel) {
            Ok(_) => {},
            Err(e) => {
                st.report(e);
            },
        },
        _ => {},
    }
    match declare_bindings(env, VarKind::Let, &bs) {
        Ok(_) => {},
        Err(e) => {
            st.report(e);
        },
    }
    env.remove_declaring(&names);
    pat_param(p)
}

/// Whether `t` is the type of a rest parameter: an array, or `any`.
pub open spec fn is_rest_type(t: TypeV) -> bool {
    t is Array || t.is_any()
}

/// The state after a rest pattern is validated. The type of its default
/// value, or else its annotation, must be an array or `any`.
pub open spec fn validate_rest_spec(
    env: EnvV,
    st: StateV,
    dot3: Span,
    arg: Pat,
    type_ann: Option<TypeV>,
    fuel: nat,
) -> StateV {
    match arg {
        Pat::Assign { right, .. } => {
            let (r, st1) = type_of_spec(env, st, *right, TypeOfMode::RValue, fuel);
            match r {
                Ok(t) => if is_rest_type(t) {
                    st1
                } else {
                    st1.report(err(Diag::TS2370 { span: dot3 }))
                },
                Err(e) => st1.report(e),
            }
        },
        _ => match type_ann {
            Some(t) => if is_rest_type(t) {
                st
            } else {
                st.report(err(Diag::TS2370 { span: dot3 }))
            },
            None => st,
        },
    }
}

fn rest_type(t: &Type) -> (b: bool)
    ensures
        b == is_rest_type(t@),
{
    match t {
        Type::Array(_) => true,
        Type::Keyword(Keyword::Any) => true,
        _ => false,
    }
}

/// Validates a rest pattern with the argument `arg` and the annotation
/// `type_ann`, whose dots stand at `dot3`.
pub fn validate_rest_pat(
    env: &Env,
    st: &mut State,
    dot3: Span,
    arg: &Pat,
    type_ann: &Option<Type>,
    fuel: usize,
)
    ensures
        final(st)@ == validate_rest_spec(
            env@,
            old(st)@,
            dot3,
            *arg,
            opt_type(*type_ann),
            fuel as nat,
        ),
{
    match arg {
        Pat::Assign { right, .. } => match type_of(env, st, right, TypeOfMode::RValue, fuel) {
            Ok(t) => {
                if !rest_type(&t) {
                    st.report(Error::Diag(Diag::TS2370 { span: dot3 }));
                }
            },
            Err(e) => {
                st.report(e);
            },
        },
        _ => match type_ann {
            Some(t) => {
                if !rest_type(t) {
                    st.report(Error::Diag(Diag::TS2370 { span: dot3 }));
                }
            },
            None => {},
        },
    }
}

/// Whether the object pattern has a property from position `i` on, given
/// by a key and a value, whose key is `key`.
pub open spec fn has_key_from(ps: Seq<ObjectPatProp>, key: PropName, i: int) -> bool
    decreases ps.len() - i,
{
    if i < 0 || i >= ps.len() {
        false
    } else {
        (ps[i] matches ObjectPatProp::KeyValue { key: k, .. } && prop_names_match(k, key))
            || has_key_from(ps, key, i + 1)
    }
}

/// The diagnostics of the properties of an object literal from position
/// `i` on that is the default value of the object pattern `left`, behind
/// `acc`: each property that the pattern lacks is one.
pub open spec fn excess_props_from(
    left: Seq<ObjectPatProp>,
    right: Seq<Prop>,
    i: int,
    acc: Seq<ErrorV>,
) -> Seq<ErrorV>
    decreases right.len() - i,
{
    if i < 0 || i >= right.len() {
        acc
    } else {
        match right[i] {
            Prop::Spread { .. } => excess_props_from(left, right, i + 1, acc),
            Prop::KeyValue { span, key, .. } => if has_key_from(left, key, 0) {
                excess_props_from(left, right, i + 1, acc)
            } else {
                excess_props_from(left, right, i + 1, acc.push(err(Diag::TS2353 { span })))
            },
            p => excess_props_from(
                left,
                right,
                i + 1,
                acc.push(err(Diag::TS2353 { span: prop_span(p) })),
            ),
        }
    }
}

/// The diagnostics of a pattern with a default value.
pub open spec fn assign_pat_diags(left: Pat, right: Expr) -> Seq<ErrorV> {
    match left {
        Pat::Object { props: lp, .. } => match right {
            Expr::Object { props: rp, .. } => excess_props_from(lp@, rp@, 0, Seq::empty()),
            _ => Seq::empty(),
        },
        _ => Seq::empty(),
    }
}

fn has_key(ps: &Vec<ObjectPatProp>, key: &PropName) -> (b: bool)
    ensures
        b == has_key_from(ps@, *key, 0),
{
    let mut i: usize = 0;
    while i < ps.len()
        invariant
            i <= ps.len(),
            has_key_from(ps@, *key, 0) == has_key_from(ps@, *key, i as int),
        decreases ps.len() - i,
    {
        match &ps[i] {
            ObjectPatProp::KeyValue { key: k, .. } => {
                if same_member(&prop_name_key(k), &prop_name_key(key)) {
                    return true;
                }
            },
            _ => {},
        }
        i += 1;
    }
    false
}

/// Validates a pattern with a default value: where an object pattern has
/// an object literal as its default, each property of the literal must be
/// one that the pattern names.
pub fn validate_assign_pat(st: &mut State, left: &Pat, right: &Expr)
    ensures
        final(st)@ == old(st)@.report_all(assign_pat_diags(*left, *right)),
{
    let mut out = no_errors();
    match left {
        Pat::Object { props: lp, .. } => match right {
            Expr::Object { props: rp, .. } => {
                let mut i: usize = 0;
                while i < rp.len()
                    invariant
                        i <= rp.len(),
                        excess_props_from(lp@, rp@, 0, Seq::empty()) == excess_props_from(
                            lp@,
                            rp@,
                            i as int,
                            errors(out@),
                        ),
                    decreases rp.len() - i,
                {
                    match &rp[i] {
                        Prop::Spread { .. } => {},
                        Prop::KeyValue { span, key, .. } => {
                            if !has_key(lp, key) {
                                push_error(&mut out, Error::Diag(Diag::TS2353 { span: *span }));
                            }
                        },
                        p => {
                            push_error(
                                &mut out,
                                Error::Diag(Diag::TS2353 { span: crate::expr::span_of_prop(p) }),
                            );
                        },
                    }
                    i += 1;
                }
            },
            _ => {},
        },
        _ => {},
    }
    st.report_all(out);
}

} // verus!
