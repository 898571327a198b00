//! What a validation inside a child scope leaves behind: nothing. The
//! bindings of a child scope vanish when the scope is left.

use vstd::prelude::*;
use crate::ast::{Class, ClassItem, CtorParam, Function, MethodKind, Pat, PropName, VarKind};
use crate::class::{
    validate_class_spec, validate_constructor_spec, validate_ctor_param_spec,
    validate_ctor_params_from, validate_member_spec, validate_members_from, validate_method_spec,
    validate_pats_from,
};
use crate::pat::{declare_all, validate_pat_spec, BindingV};
use crate::scope::{EnvV, ScopeKind, ScopeV};
use crate::state::StateV;
use crate::types::MemberV;

verus! {

/// Whether the two environments differ in their current scope at most.
pub open spec fn same_outside(a: EnvV, b: EnvV) -> bool {
    &&& a.scopes.len() == b.scopes.len()
    &&& a.scopes.drop_last() == b.scopes.drop_last()
    &&& a.builtin_types == b.builtin_types
    &&& a.builtin_vars == b.builtin_vars
    &&& a.imports == b.imports
    &&& a.allow_ref_declaring == b.allow_ref_declaring
    &&& a.in_declare == b.in_declare
    &&& a.is_builtin == b.is_builtin
    &&& a.allow_unreachable_code == b.allow_unreachable_code
}

/// A change of the current scope changes nothing outside it.
pub proof fn lemma_with_current(env: EnvV, s: ScopeV)
    ensures
        same_outside(env.with_current(s), env),
{
    if env.scopes.len() > 0 {
        assert(env.with_current(s).scopes.drop_last() =~= env.scopes.drop_last());
    }
}

/// Entering a scope and leaving it again gives the environment back,
/// whatever happened to the scope in between.
pub proof fn lemma_child_vanishes(env: EnvV, kind: ScopeKind, inside: EnvV)
    requires
        same_outside(inside, env.with_child(kind)),
    ensures
        inside.without_child() == env,
{
    assert(env.with_child(kind).scopes.drop_last() =~= env.scopes);
}

proof fn lemma_declare_all(env: EnvV, kind: VarKind, bs: Seq<BindingV>, i: int)
    requires
        0 <= i,
    ensures
        same_outside(declare_all(env, kind, bs, i).1, env),
    decreases bs.len() - i,
{
    if i < bs.len() {
        let (r, env1) = env.declare_var(bs[i].span, kind, bs[i].name, bs[i].ty, true, false);
        if env.scopes.len() > 0 {
            lemma_with_current(
                env,
                env.scopes.last().declare_var(bs[i].span, kind, bs[i].name, bs[i].ty, true, false).1,
            );
        }
        if r is Ok {
            lemma_declare_all(env1, kind, bs, i + 1);
        }
    }
}

/// The validation of a pattern changes the current scope only.
pub proof fn lemma_validate_pat(env: EnvV, st: StateV, p: Pat, fuel: nat)
    ensures
        same_outside(validate_pat_spec(env, st, p, fuel).1, env),
{
    let names = crate::pat::names_of(crate::pat::bindings(p));
    let env1 = env.add_declaring(names);
    if env.scopes.len() > 0 {
        let s = env.scopes.last();
        lemma_with_current(env, ScopeV { declaring: s.declaring + names, ..s });
    }
    let (r, env2) = crate::pat::declare_vars(env1, VarKind::Let, p);
    lemma_declare_all(env1, VarKind::Let, crate::pat::bindings(p), 0);
    if env2.scopes.len() > 0 {
        let s = env2.scopes.last();
        lemma_with_current(
            env2,
            ScopeV {
                declaring: crate::scope::without_from(s.declaring, names, 0, Seq::empty()),
                ..s
            },
        );
    }
}

proof fn lemma_validate_pats(env: EnvV, st: StateV, ps: Seq<Pat>, i: int, fuel: nat)
    requires
        0 <= i,
    ensures
        same_outside(validate_pats_from(env, st, ps, i, fuel).0, env),
    decreases ps.len() - i,
{
    if i < ps.len() {
        let (_p, env1, st1) = validate_pat_spec(env, st, ps[i], fuel);
        lemma_validate_pat(env, st, ps[i], fuel);
        lemma_validate_pats(env1, st1, ps, i + 1, fuel);
    }
}

proof fn lemma_validate_ctor_param(env: EnvV, st: StateV, p: CtorParam, fuel: nat)
    ensures
        same_outside(validate_ctor_param_spec(env, st, p, fuel).1, env),
{
    match p {
        CtorParam::Pat(pat) => {
            lemma_validate_pat(env, st, pat, fuel);
        },
        CtorParam::Prop { ident_span, sym, type_ann, .. } => {
            let names = seq![sym@];
            let env1 = env.add_declaring(names);
            if env.scopes.len() > 0 {
                let s = env.scopes.last();
                lemma_with_current(env, ScopeV { declaring: s.declaring + names, ..s });
            }
            let out = validate_ctor_param_spec(env, st, p, fuel);
            let env2 = if out.0 is Ok {
                let ty = match type_ann {
                    Some(t) => Some(
                        crate::rules::expand(env1, st, ident_span, t@, fuel).0->Ok_0,
                    ),
                    None => None,
                };
                let e = env1.declare_var(ident_span, VarKind::Let, sym@, ty, true, false).1;
                if env1.scopes.len() > 0 {
                    lemma_with_current(
                        env1,
                        env1.scopes.last().declare_var(
                            ident_span,
                            VarKind::Let,
                            sym@,
                            ty,
                            true,
                            false,
                        ).1,
                    );
                }
                e
            } else {
                env1
            };
            if env2.scopes.len() > 0 {
                let s = env2.scopes.last();
                lemma_with_current(
                    env2,
                    ScopeV {
                        declaring: crate::scope::without_from(
                            s.declaring,
                            names,
                            0,
                            Seq::empty(),
                        ),
                        ..s
                    },
                );
            }
        },
    }
}

proof fn lemma_validate_ctor_params(env: EnvV, st: StateV, ps: Seq<CtorParam>, i: int, fuel: nat)
    requires
        0 <= i,
    ensures
        same_outside(validate_ctor_params_from(env, st, ps, i, fuel).1, env),
    decreases ps.len() - i,
{
    if i < ps.len() {
        let (r, env1, st1) = validate_ctor_param_spec(env, st, ps[i], fuel);
        lemma_validate_ctor_param(env, st, ps[i], fuel);
        if r is Ok {
            lemma_validate_ctor_params(env1, st1, ps, i + 1, fuel);
        }
    }
}

/// The validation of a constructor leaves the environment as it was.
pub proof fn lemma_constructor_leaves_no_binding(
    env: EnvV,
    st: StateV,
    params: Seq<CtorParam>,
    fuel: nat,
)
    ensures
        validate_constructor_spec(env, st, params, fuel).1 == env,
{
    let env1 = env.with_child(ScopeKind::Fn);
    let st1 = st.report_all(
        crate::class::ctor_optional_order_from(params, 0, false, Seq::empty()),
    );
    lemma_validate_ctor_params(env1, st1, params, 0, fuel);
    lemma_child_vanishes(
        env,
        ScopeKind::Fn,
        validate_ctor_params_from(env1, st1, params, 0, fuel).1,
    );
}

/// The validation of a method leaves the environment as it was.
pub proof fn lemma_method_leaves_no_binding(
    env: EnvV,
    st: StateV,
    key: PropName,
    kind: MethodKind,
    is_static: bool,
    is_abstract: bool,
    f: Function,
    fuel: nat,
)
    ensures
        validate_method_spec(env, st, key, kind, is_static, is_abstract, f, fuel).1 == env,
{
    let at = key.spec_span();
    let env1 = env.with_child(ScopeKind::Fn);
    let st1 = crate::class::report_if(
        st,
        is_abstract && f.has_body,
        crate::errors::Diag::TS1318 { span: at },
    );
    let st2 = st1.report_all(
        crate::class::optional_order_from(f.params@, 0, false, Seq::empty()),
    );
    lemma_validate_pats(env1, st2, f.params@, 0, fuel);
    lemma_child_vanishes(env, ScopeKind::Fn, validate_pats_from(env1, st2, f.params@, 0, fuel).0);
}

proof fn lemma_member_leaves_no_binding(env: EnvV, st: StateV, item: ClassItem, fuel: nat)
    ensures
        validate_member_spec(env, st, item, fuel).1 == env,
{
    match item {
        ClassItem::Constructor { params, .. } => {
            lemma_constructor_leaves_no_binding(env, st, params@, fuel);
        },
        ClassItem::Method { key, kind, is_static, is_abstract, function, .. } => {
            lemma_method_leaves_no_binding(
                env,
                st,
                key,
                kind,
                is_static,
                is_abstract,
                function,
                fuel,
            );
        },
        _ => {},
    }
}

proof fn lemma_members_leave_no_binding(
    env: EnvV,
    st: StateV,
    items: Seq<ClassItem>,
    i: int,
    acc: Seq<MemberV>,
    fuel: nat,
)
    requires
        0 <= i,
    ensures
        validate_members_from(env, st, items, i, acc, fuel).1 == env,
    decreases items.len() - i,
{
    if i < items.len() {
        let (r, env1, st1) = validate_member_spec(env, st, items[i], fuel);
        lemma_member_leaves_no_binding(env, st, items[i], fuel);
        match r {
            Err(_) => {},
            Ok(Some(m)) => {
                lemma_members_leave_no_binding(env, st1, items, i + 1, acc.push(m), fuel);
            },
            Ok(None) => {
                lemma_members_leave_no_binding(env, st1, items, i + 1, acc, fuel);
            },
        }
    }
}

/// The validation of a class leaves the environment as it was: the scope
/// of the class and the scopes of its members are left, and their bindings
/// have vanished.
pub proof fn lemma_class_leaves_no_binding(
    env: EnvV,
    st: StateV,
    name: Option<Seq<char>>,
    c: Class,
    fuel: nat,
)
    ensures
        validate_class_spec(env, st, name, c, fuel).1 == env,
{
    let env1 = env.with_child(ScopeKind::Class);
    assert(env1.without_child() == env) by {
        assert(env1.scopes.drop_last() =~= env.scopes);
    }
    let st1 = match c.super_class {
        Some(e) => crate::rules::type_of(env1, st, *e, crate::model::TypeOfMode::RValue, fuel).1,
        None => st,
    };
    lemma_members_leave_no_binding(env1, st1, c.body@, 0, Seq::empty(), fuel);
}

} // verus!
