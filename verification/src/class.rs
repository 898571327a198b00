//! The structural validation of classes.

use vstd::prelude::*;
use crate::ast::{Class, ClassItem, CtorParam, Expr, Function, MethodKind, Pat, PropName, VarKind};
use crate::child::{
    lemma_class_leaves_no_binding, lemma_constructor_leaves_no_binding,
    lemma_method_leaves_no_binding,
};
use crate::copy::{copy_opt_strings, copy_opt_type, copy_type};
use crate::errors::{errors, result_view, Diag, Error, ErrorV};
use crate::expand::expand_type;
use crate::expr::{member_result, type_of};
use crate::function::is_computed;
use crate::model::{
    ctor_params_of, is_symbol_ident, key_of, key_of_expr, keys_match, params_of, type_or_any,
    TypeOfMode,
};
use crate::ops::{
    ctor_params, expr_key, no_errors, no_members, pat_params, prop_name_key, push_error,
    push_member, same_member, symbol_ident,
};
use crate::pat::{validate_pat, validate_pat_spec};
use crate::rules::{err, expand, kw, type_of as type_of_spec};
use crate::scope::{Env, EnvV, ScopeKind};
use crate::span::Span;
use crate::state::{State, StateV};
use crate::types::{
    members, opt_str, opt_strs, opt_type, Key, KeyV, Keyword, Member, MemberV, Type, TypeV,
};

verus! {

/// The diagnostics that are given once for each of several spans.
#[derive(Clone, Copy, Debug, PartialEq, Eq, Hash, Structural)]
pub enum Repeated {
    TS2389,
    TS2391,
    TS2394,
}

/// The diagnostic of the kind `kind` at `span`.
pub open spec fn repeated_diag(kind: Repeated, span: Span) -> Diag {
    match kind {
        Repeated::TS2389 => Diag::TS2389 { span },
        Repeated::TS2391 => Diag::TS2391 { span },
        Repeated::TS2394 => Diag::TS2394 { span },
    }
}

/// One diagnostic of the kind `kind` for each of the spans.
pub open spec fn each_span(spans: Seq<Span>, kind: Repeated) -> Seq<ErrorV> {
    spans.map_values(|s: Span| err(repeated_diag(kind, s)))
}

/// One diagnostic for each overload without an implementation.
pub open spec fn ts2391(spans: Seq<Span>) -> Seq<ErrorV> {
    each_span(spans, Repeated::TS2391)
}

/// One diagnostic for each overload that another implementation follows.
pub open spec fn ts2389(spans: Seq<Span>) -> Seq<ErrorV> {
    each_span(spans, Repeated::TS2389)
}

/// One diagnostic for each constructor overload in conflict.
pub open spec fn ts2394(spans: Seq<Span>) -> Seq<ErrorV> {
    each_span(spans, Repeated::TS2394)
}

/// What a scan of the members of a class for overloads knows: the name of
/// the overloads that wait for their implementation, the spans of their
/// names, and the diagnostics so far.
pub ghost struct Overloads {
    pub name: Option<KeyV>,
    pub spans: Seq<Span>,
    pub errs: Seq<ErrorV>,
}

/// Whether the key is the name of the constructor.
pub open spec fn is_constructor_key(k: KeyV) -> bool {
    keys_match(k, KeyV::Ident("constructor"@))
}

/// The scan after a member with the key `key` at `span`, with or without a
/// body.
///
/// A signature joins the overloads that wait if it has their name, and
/// makes them fail if it has another. An implementation ends the overloads
/// of its own name. After overloads of another name it makes them fail, if
/// they are those of the constructor; else it fails itself, or if it is
/// the constructor, the overloads fail in its place.
pub open spec fn overload_step(s: Overloads, key: KeyV, span: Span, has_body: bool) -> Overloads {
    if !has_body {
        if s.name.is_some() && !keys_match(s.name.unwrap(), key) {
            Overloads { name: Some(key), spans: seq![span], errs: s.errs + ts2391(s.spans) }
        } else {
            Overloads { name: Some(key), spans: s.spans.push(span), errs: s.errs }
        }
    } else if s.name.is_none() || keys_match(s.name.unwrap(), key) {
        Overloads { name: None, spans: Seq::empty(), errs: s.errs }
    } else if is_constructor_key(s.name.unwrap()) {
        Overloads { name: None, spans: Seq::empty(), errs: s.errs + ts2391(s.spans) }
    } else if is_constructor_key(key) {
        Overloads { name: None, spans: Seq::empty(), errs: s.errs + ts2389(s.spans) }
    } else {
        Overloads {
            name: None,
            spans: Seq::empty(),
            errs: s.errs.push(err(Diag::TS2389 { span })),
        }
    }
}

/// The scan after the class item `item`. Only constructors and methods
/// that are not abstract, with a key that is not computed, take part.
pub open spec fn overload_item(s: Overloads, item: ClassItem) -> Overloads {
    match item {
        ClassItem::Constructor { key, has_body, .. } => if key is Computed {
            s
        } else {
            overload_step(s, key_of(key), key.spec_span(), has_body)
        },
        ClassItem::Method { key, is_abstract, function, .. } => if is_abstract || key is Computed {
            s
        } else {
            overload_step(s, key_of(key), key.spec_span(), function.has_body)
        },
        _ => s,
    }
}

/// The scan after the class items from position `i` on.
pub open spec fn overloads_from(items: Seq<ClassItem>, i: int, s: Overloads) -> Overloads
    decreases items.len() - i,
{
    if i < 0 || i >= items.len() {
        s
    } else {
        overloads_from(items, i + 1, overload_item(s, items[i]))
    }
}

/// The diagnostics of the overloads among the members of a class. The
/// overloads that still wait for their implementation where the class ends
/// fail. An ambient class is not checked.
pub open spec fn overload_diags(items: Seq<ClassItem>, declare: bool) -> Seq<ErrorV> {
    if declare {
        Seq::empty()
    } else {
        let s = overloads_from(
            items,
            0,
            Overloads { name: None, spans: Seq::empty(), errs: Seq::empty() },
        );
        s.errs + ts2391(s.spans)
    }
}

fn push_each(out: &mut Vec<Error>, spans: &Vec<Span>, kind: Repeated)
    ensures
        errors(final(out)@) == errors(old(out)@) + each_span(spans@, kind),
{
    let ghost start = errors(out@);
    let ghost all = each_span(spans@, kind);
    let mut i: usize = 0;
    assert(start + all.take(0) =~= start);
    while i < spans.len()
        invariant
            i <= spans.len(),
            all == each_span(spans@, kind),
            errors(out@) == start + all.take(i as int),
        decreases spans.len() - i,
    {
        let span = spans[i];
        let d = match kind {
            Repeated::TS2389 => Diag::TS2389 { span },
            Repeated::TS2391 => Diag::TS2391 { span },
            Repeated::TS2394 => Diag::TS2394 { span },
        };
        push_error(out, Error::Diag(d));
        assert(start + all.take(i + 1) =~= (start + all.take(i as int)).push(all[i as int]));
        i += 1;
    }
    assert(all.take(spans.len() as int) =~= all);
}

fn constructor_key(k: &Key) -> (b: bool)
    ensures
        b == is_constructor_key(k@),
{
    let c = Key::Ident("constructor".to_owned());
    same_member(k, &c)
}

/// Validates the overloads among the members of the class `c`, which is
/// ambient if `declare` holds, and records what it finds.
pub fn validate_class_members(st: &mut State, c: &Class, declare: bool)
    ensures
        final(st)@ == old(st)@.report_all(overload_diags(c.body@, declare)),
{
    let mut errs = no_errors();
    if !declare {
        let mut name: Option<Key> = None;
        let mut spans: Vec<Span> = Vec::new();
        let ghost init = Overloads { name: None, spans: Seq::empty(), errs: Seq::empty() };
        let mut i: usize = 0;
        assert(spans@ =~= Seq::empty());
        while i < c.body.len()
            invariant
                i <= c.body.len(),
                overloads_from(c.body@, 0, init) == overloads_from(
                    c.body@,
                    i as int,
                    Overloads {
                        name: match name {
                            Some(k) => Some(k@),
                            None => None,
                        },
                        spans: spans@,
                        errs: errors(errs@),
                    },
                ),
            decreases c.body.len() - i,
        {
            let step = match &c.body[i] {
                ClassItem::Constructor { key, has_body, .. } => if is_computed(key) {
                    None
                } else {
                    Some((key, *has_body))
                },
                ClassItem::Method { key, is_abstract, function, .. } => if *is_abstract
                    || is_computed(key) {
                    None
                } else {
                    Some((key, function.has_body))
                },
                _ => None,
            };
            match step {
                None => {},
                Some((key, has_body)) => {
                    let k = prop_name_key(key);
                    let span = key.span();
                    let same = match &name {
                        Some(n) => same_member(n, &k),
                        None => false,
                    };
                    if !has_body {
                        if name.is_some() && !same {
                            push_each(&mut errs, &spans, Repeated::TS2391);
                            spans = Vec::new();
                            spans.push(span);
                            assert(spans@ =~= seq![span]);
                        } else {
                            spans.push(span);
                        }
                        name = Some(k);
                    } else {
                        if name.is_none() || same {
                        } else {
                            let waits_for_constructor = match &name {
                                Some(n) => constructor_key(n),
                                None => false,
                            };
                            if waits_for_constructor {
                                push_each(&mut errs, &spans, Repeated::TS2391);
                            } else if constructor_key(&k) {
                                push_each(&mut errs, &spans, Repeated::TS2389);
                            } else {
                                push_error(&mut errs, Error::Diag(Diag::TS2389 { span }));
                            }
                        }
                        name = None;
                        spans = Vec::new();
                        assert(spans@ =~= Seq::empty());
                    }
                },
            }
            i += 1;
        }
        push_each(&mut errs, &spans, Repeated::TS2391);
    }
    st.report_all(errs);
}

/// Whether a parameter of a constructor must be given: every one but an
/// optional identifier.
pub open spec fn ctor_required(p: CtorParam) -> bool {
    !(p matches CtorParam::Pat(Pat::Ident { optional: true, .. }))
}

/// The number of the parameters from position `i` on that must be given.
pub open spec fn ctor_required_from(ps: Seq<CtorParam>, i: int) -> nat
    decreases ps.len() - i,
{
    if i < 0 || i >= ps.len() {
        0
    } else if ctor_required(ps[i]) {
        1 + ctor_required_from(ps, i + 1)
    } else {
        ctor_required_from(ps, i + 1)
    }
}

/// The diagnostics of the parameter properties from position `i` on of a
/// constructor overload.
pub open spec fn param_props_from(ps: Seq<CtorParam>, i: int, acc: Seq<ErrorV>) -> Seq<ErrorV>
    decreases ps.len() - i,
{
    if i < 0 || i >= ps.len() {
        acc
    } else {
        match ps[i] {
            CtorParam::Prop { span, .. } => param_props_from(
                ps,
                i + 1,
                acc.push(err(Diag::TS2369 { span })),
            ),
            _ => param_props_from(ps, i + 1, acc),
        }
    }
}

/// What a scan of the constructors of a class knows: the number of the
/// required parameters of the first one, the spans of the constructors
/// that no later one has disagreed with, and the diagnostics so far.
pub ghost struct Constructors {
    pub count: Option<nat>,
    pub spans: Seq<Span>,
    pub errs: Seq<ErrorV>,
}

/// The scan after the class item `item`. A constructor whose number of
/// required parameters differs from that of the first one makes every
/// earlier constructor fail that has not failed yet.
pub open spec fn constructor_item(s: Constructors, item: ClassItem) -> Constructors {
    match item {
        ClassItem::Constructor { span, params, has_body, .. } => {
            let errs1 = if has_body {
                s.errs
            } else {
                param_props_from(params@, 0, s.errs)
            };
            let n = ctor_required_from(params@, 0);
            match s.count {
                Some(v) => if n != v {
                    Constructors { count: s.count, spans: seq![span], errs: errs1 + ts2394(s.spans) }
                } else {
                    Constructors { count: s.count, spans: s.spans.push(span), errs: errs1 }
                },
                None => Constructors { count: Some(n), spans: s.spans.push(span), errs: errs1 },
            }
        },
        _ => s,
    }
}

/// The scan after the class items from position `i` on.
pub open spec fn constructors_from(items: Seq<ClassItem>, i: int, s: Constructors) -> Constructors
    decreases items.len() - i,
{
    if i < 0 || i >= items.len() {
        s
    } else {
        constructors_from(items, i + 1, constructor_item(s, items[i]))
    }
}

/// The diagnostics of the constructors of a class.
pub open spec fn constructor_diags(items: Seq<ClassItem>) -> Seq<ErrorV> {
    constructors_from(
        items,
        0,
        Constructors { count: None, spans: Seq::empty(), errs: Seq::empty() },
    ).errs
}

/// Whether none of the parameters is a parameter property.
pub open spec fn no_param_props(ps: Seq<CtorParam>) -> bool {
    forall|j: int| 0 <= j < ps.len() ==> !(#[trigger] ps[j] is Prop)
}

proof fn lemma_no_param_props(ps: Seq<CtorParam>, i: int, acc: Seq<ErrorV>)
    requires
        no_param_props(ps),
        0 <= i,
    ensures
        param_props_from(ps, i, acc) == acc,
    decreases ps.len() - i,
{
    if i < ps.len() {
        assert(!(ps[i] is Prop));
        lemma_no_param_props(ps, i + 1, acc);
    }
}

/// Two constructor overloads without parameter properties whose numbers of
/// required parameters differ give one diagnostic, at the span of the
/// first: each earlier overload in conflict fails once, and the later one
/// does not.
pub proof fn lemma_two_constructor_overloads(a: ClassItem, b: ClassItem)
    requires
        a matches ClassItem::Constructor { params: pa, .. } && b matches ClassItem::Constructor {
            params: pb,
            ..
        } && ctor_required_from(pa@, 0) != ctor_required_from(pb@, 0) && no_param_props(pa@)
            && no_param_props(pb@),
    ensures
        constructor_diags(seq![a, b]) == seq![
            err(Diag::TS2394 { span: a->Constructor_span }),
        ],
{
    let init = Constructors { count: None, spans: Seq::empty(), errs: Seq::empty() };
    let items = seq![a, b];
    let s1 = constructor_item(init, a);
    let s2 = constructor_item(s1, b);
    lemma_no_param_props(a->Constructor_params@, 0, init.errs);
    lemma_no_param_props(b->Constructor_params@, 0, s1.errs);
    assert(constructors_from(items, 2, s2) == s2);
    assert(constructors_from(items, 1, s1) == s2);
    assert(constructors_from(items, 0, init) == s2);
    assert(s1.spans =~= seq![a->Constructor_span]);
    assert(s2.errs =~= seq![err(Diag::TS2394 { span: a->Constructor_span })]);
}

fn count_ctor_required(ps: &Vec<CtorParam>) -> (n: usize)
    ensures
        n == ctor_required_from(ps@, 0),
{
    let mut n: usize = 0;
    let mut i: usize = ps.len();
    while i > 0
        invariant
            i <= ps.len(),
            n == ctor_required_from(ps@, i as int),
            n <= ps.len() - i,
        decreases i,
    {
        i -= 1;
        let required = match &ps[i] {
            CtorParam::Pat(Pat::Ident { optional: true, .. }) => false,
            _ => true,
        };
        if required {
            n += 1;
        }
    }
    n
}

/// Validates the constructors of a class body and records what it finds.
pub fn validate_constructors(st: &mut State, items: &Vec<ClassItem>)
    ensures
        final(st)@ == old(st)@.report_all(constructor_diags(items@)),
{
    let mut errs = no_errors();
    let mut count: Option<usize> = None;
    let mut spans: Vec<Span> = Vec::new();
    let ghost init = Constructors { count: None, spans: Seq::empty(), errs: Seq::empty() };
    assert(spans@ =~= Seq::empty());
    let mut i: usize = 0;
    while i < items.len()
        invariant
            i <= items.len(),
            constructors_from(items@, 0, init) == constructors_from(
                items@,
                i as int,
                Constructors {
                    count: match count {
                        Some(c) => Some(c as nat),
                        None => None,
                    },
                    spans: spans@,
                    errs: errors(errs@),
                },
            ),
        decreases items.len() - i,
    {
        match &items[i] {
            ClassItem::Constructor { span, params, has_body, .. } => {
                if !*has_body {
                    let ghost start = errors(errs@);
                    let mut j: usize = 0;
                    while j < params.len()
                        invariant
                            j <= params.len(),
                            param_props_from(params@, 0, start) == param_props_from(
                                params@,
                                j as int,
                                errors(errs@),
                            ),
                        decreases params.len() - j,
                    {
                        match &params[j] {
                            CtorParam::Prop { span, .. } => {
                                push_error(&mut errs, Error::Diag(Diag::TS2369 { span: *span }));
                            },
                            _ => {},
                        }
                        j += 1;
                    }
                }
                let n = count_ctor_required(params);
                match count {
                    Some(v) => {
                        if n != v {
                            push_each(&mut errs, &spans, Repeated::TS2394);
                            spans = Vec::new();
                            spans.push(*span);
                            assert(spans@ =~= seq![*span]);
                        } else {
                            spans.push(*span);
                        }
                    },
                    None => {
                        count = Some(n);
                        spans.push(*span);
                    },
                }
            },
            _ => {},
        }
        i += 1;
    }
    st.report_all(errs);
}

/// Whether the key `e` is an access to a member of `Symbol`.
pub open spec fn is_symbol_access(e: Expr) -> bool {
    e matches Expr::Member { obj, .. } && is_symbol_ident(*obj)
}

/// The result of the validation of a computed key of a class property:
/// the type of the key must be a literal or a unique symbol, or the key an
/// access to a member of `Symbol`. The built-in libraries are not checked.
pub open spec fn computed_key_result(env: EnvV, st: StateV, span: Span, key: Expr, fuel: nat) -> (
    Result<(), ErrorV>,
    StateV,
) {
    if env.is_builtin {
        (Ok(()), st)
    } else {
        let (r, st1) = type_of_spec(env, st, key, TypeOfMode::RValue, fuel);
        match r {
            Err(ErrorV::Diag(Diag::TS2585 { span: s })) => (
                Err(err(Diag::TS2585 { span: s })),
                st1,
            ),
            _ => {
                let (ty, errs) = match r {
                    Ok(t) => (t, Seq::<ErrorV>::empty()),
                    Err(e) => (kw(Keyword::Any), seq![e]),
                };
                let fine = ty is Lit || ty is UniqueSymbol || is_symbol_access(key);
                let errs2 = if fine {
                    errs
                } else {
                    errs.push(err(Diag::TS1166 { span }))
                };
                if errs2.len() == 0 {
                    (Ok(()), st1)
                } else {
                    (Err(ErrorV::Errors { span, errors: errs2 }), st1)
                }
            },
        }
    }
}

/// The state after the computed key `key` of a class property is
/// validated: a failure is recorded.
pub open spec fn computed_key_spec(env: EnvV, st: StateV, span: Span, key: Expr, fuel: nat) -> StateV {
    let (r, st1) = computed_key_result(env, st, span, key, fuel);
    match r {
        Ok(_) => st1,
        Err(e) => st1.report(e),
    }
}

fn symbol_access(e: &Expr) -> (b: bool)
    ensures
        b == is_symbol_access(*e),
{
    match e {
        Expr::Member { obj, .. } => symbol_ident(obj),
        _ => false,
    }
}

fn check_computed_key(env: &Env, st: &mut State, span: Span, key: &Expr, fuel: usize) -> (r: Result<
    (),
    Error,
>)
    ensures
        (
            match r {
                Ok(_) => Ok::<(), ErrorV>(()),
                Err(e) => Err(e@),
            },
            final(st)@,
        ) == computed_key_result(env@, old(st)@, span, *key, fuel as nat),
{
    if env.is_builtin {
        return Ok(());
    }
    let mut errs = no_errors();
    let ty = match type_of(env, st, key, TypeOfMode::RValue, fuel) {
        Ok(t) => t,
        Err(Error::Diag(Diag::TS2585 { span: s })) => {
            return Err(Error::Diag(Diag::TS2585 { span: s }));
        },
        Err(e) => {
            let ghost ev = e@;
            push_error(&mut errs, e);
            assert(errors(errs@) =~= seq![ev]);
            Type::Keyword(Keyword::Any)
        },
    };
    let fine = match ty {
        Type::Lit(_) => true,
        Type::UniqueSymbol => true,
        _ => symbol_access(key),
    };
    if !fine {
        push_error(&mut errs, Error::Diag(Diag::TS1166 { span }));
    }
    assert(errors(errs@).len() == errs.len());
    if errs.len() == 0 {
        Ok(())
    } else {
        Err(Error::Errors { span, errors: errs })
    }
}

/// Validates the computed key `key` of a class property at `span`.
pub fn validate_computed_prop_key(env: &Env, st: &mut State, span: Span, key: &Expr, fuel: usize)
    ensures
        final(st)@ == computed_key_spec(env@, old(st)@, span, *key, fuel as nat),
{
    match check_computed_key(env, st, span, key, fuel) {
        Ok(_) => {},
        Err(e) => {
            st.report(e);
        },
    }
}

/// Whether the class body has a method from position `i` on that the key
/// names.
pub open spec fn has_method_from(body: Seq<MemberV>, key: KeyV, i: int) -> bool
    decreases body.len() - i,
{
    if i < 0 || i >= body.len() {
        false
    } else {
        (body[i] matches MemberV::Method { key: k, .. } && keys_match(k, key)) || has_method_from(
            body,
            key,
            i + 1,
        )
    }
}

/// One diagnostic at `span` for each method of the superclass from
/// position `i` on that the class body lacks, behind `acc`.
pub open spec fn missing_methods_from(
    span: Span,
    sup: Seq<MemberV>,
    body: Seq<MemberV>,
    i: int,
    acc: Seq<ErrorV>,
) -> Seq<ErrorV>
    decreases sup.len() - i,
{
    if i < 0 || i >= sup.len() {
        acc
    } else {
        match sup[i] {
            MemberV::Method { key, .. } => if has_method_from(body, key, 0) {
                missing_methods_from(span, sup, body, i + 1, acc)
            } else {
                missing_methods_from(span, sup, body, i + 1, acc.push(err(Diag::TS2515 { span })))
            },
            _ => missing_methods_from(span, sup, body, i + 1, acc),
        }
    }
}

/// The diagnostics of the members that the class `class` inherits: where
/// the class is neither abstract nor ambient and its superclass is a class,
/// every method of the superclass must have a method of the same name in
/// the class. Other inherited members are not checked.
pub open spec fn inherited_diags(env: EnvV, span: Span, class: TypeV) -> Seq<ErrorV> {
    match class {
        TypeV::Class { is_abstract, super_class, body, .. } => if is_abstract || env.in_declare {
            Seq::empty()
        } else {
            match super_class {
                Some(sc) => match *sc {
                    TypeV::Class { body: sup, .. } => missing_methods_from(
                        span,
                        sup,
                        body,
                        0,
                        Seq::empty(),
                    ),
                    _ => Seq::empty(),
                },
                None => Seq::empty(),
            }
        },
        _ => Seq::empty(),
    }
}

fn has_method(body: &Vec<Member>, key: &Key) -> (b: bool)
    ensures
        b == has_method_from(members(body@), key@, 0),
{
    let mut i: usize = 0;
    while i < body.len()
        invariant
            i <= body.len(),
            has_method_from(members(body@), key@, 0) == has_method_from(
                members(body@),
                key@,
                i as int,
            ),
        decreases body.len() - i,
    {
        assert(members(body@)[i as int] == body@[i as int]@);
        match &body[i] {
            Member::Method { key: k, .. } => {
                if same_member(k, key) {
                    return true;
                }
            },
            _ => {},
        }
        i += 1;
    }
    false
}

/// Validates the members that the class type `class` inherits and records
/// what it finds at the span of the name of the class, or at `class_span`
/// where there is none.
pub fn validate_inherited_members(
    env: &Env,
    st: &mut State,
    name: Option<Span>,
    class_span: Span,
    class: &Type,
)
    ensures
        final(st)@ == old(st)@.report_all(
            inherited_diags(
                env@,
                match name {
                    Some(s) => s,
                    None => class_span,
                },
                class@,
            ),
        ),
{
    let span = match name {
        Some(s) => s,
        None => class_span,
    };
    let mut errs = no_errors();
    match class {
        Type::Class { is_abstract, super_class, body, .. } => {
            if !(*is_abstract || env.in_declare) {
                match super_class {
                    Some(sc) => {
                        assert(crate::types::type_view(**sc) == (**sc)@);
                        match &**sc {
                            Type::Class { body: sup, .. } => {
                                let mut i: usize = 0;
                                while i < sup.len()
                                    invariant
                                        i <= sup.len(),
                                        missing_methods_from(
                                            span,
                                            members(sup@),
                                            members(body@),
                                            0,
                                            Seq::empty(),
                                        ) == missing_methods_from(
                                            span,
                                            members(sup@),
                                            members(body@),
                                            i as int,
                                            errors(errs@),
                                        ),
                                    decreases sup.len() - i,
                                {
                                    assert(members(sup@)[i as int] == sup@[i as int]@);
                                    match &sup[i] {
                                        Member::Method { key, .. } => {
                                            if !has_method(body, key) {
                                                push_error(
                                                    &mut errs,
                                                    Error::Diag(Diag::TS2515 { span }),
                                                );
                                            }
                                        },
                                        _ => {},
                                    }
                                    i += 1;
                                }
                            },
                            _ => {},
                        }
                    },
                    None => {},
                }
            }
        },
        _ => {},
    }
    st.report_all(errs);
}

/// Whether the pattern is an identifier with the mark of an optional
/// parameter.
pub open spec fn is_optional_ident(p: Pat) -> bool {
    p matches Pat::Ident { optional: true, .. }
}

/// One diagnostic for each parameter from position `i` on that follows an
/// optional one, behind `acc`. `seen` says whether an optional parameter
/// stands before position `i`.
pub open spec fn optional_order_from(ps: Seq<Pat>, i: int, seen: bool, acc: Seq<ErrorV>) -> Seq<
    ErrorV,
>
    decreases ps.len() - i,
{
    if i < 0 || i >= ps.len() {
        acc
    } else {
        optional_order_from(
            ps,
            i + 1,
            seen || is_optional_ident(ps[i]),
            if seen {
                acc.push(err(Diag::TS1016 { span: ps[i].spec_span() }))
            } else {
                acc
            },
        )
    }
}

/// One diagnostic for each parameter of a constructor from position `i` on
/// that follows an optional one, behind `acc`.
pub open spec fn ctor_optional_order_from(
    ps: Seq<CtorParam>,
    i: int,
    seen: bool,
    acc: Seq<ErrorV>,
) -> Seq<ErrorV>
    decreases ps.len() - i,
{
    if i < 0 || i >= ps.len() {
        acc
    } else {
        ctor_optional_order_from(
            ps,
            i + 1,
            seen || !ctor_required(ps[i]),
            if seen {
                acc.push(err(Diag::TS1016 { span: ps[i].spec_span() }))
            } else {
                acc
            },
        )
    }
}

fn optional_ident(p: &Pat) -> (b: bool)
    ensures
        b == is_optional_ident(*p),
{
    match p {
        Pat::Ident { optional: true, .. } => true,
        _ => false,
    }
}

fn check_optional_order(st: &mut State, ps: &Vec<Pat>)
    ensures
        final(st)@ == old(st)@.report_all(optional_order_from(ps@, 0, false, Seq::empty())),
{
    let mut errs = no_errors();
    let mut seen = false;
    let mut i: usize = 0;
    while i < ps.len()
        invariant
            i <= ps.len(),
            optional_order_from(ps@, 0, false, Seq::empty()) == optional_order_from(
                ps@,
                i as int,
                seen,
                errors(errs@),
            ),
        decreases ps.len() - i,
    {
        if seen {
            push_error(&mut errs, Error::Diag(Diag::TS1016 { span: ps[i].span() }));
        }
        if optional_ident(&ps[i]) {
            seen = true;
        }
        i += 1;
    }
    st.report_all(errs);
}

fn check_ctor_optional_order(st: &mut State, ps: &Vec<CtorParam>)
    ensures
        final(st)@ == old(st)@.report_all(ctor_optional_order_from(ps@, 0, false, Seq::empty())),
{
    let mut errs = no_errors();
    let mut seen = false;
    let mut i: usize = 0;
    while i < ps.len()
        invariant
            i <= ps.len(),
            ctor_optional_order_from(ps@, 0, false, Seq::empty()) == ctor_optional_order_from(
                ps@,
                i as int,
                seen,
                errors(errs@),
            ),
        decreases ps.len() - i,
    {
        if seen {
            push_error(&mut errs, Error::Diag(Diag::TS1016 { span: ps[i].span() }));
        }
        let optional = match &ps[i] {
            CtorParam::Pat(Pat::Ident { optional: true, .. }) => true,
            _ => false,
        };
        if optional {
            seen = true;
        }
        i += 1;
    }
    st.report_all(errs);
}

/// Validates the parameters from position `i` on, one after the other.
pub open spec fn validate_pats_from(env: EnvV, st: StateV, ps: Seq<Pat>, i: int, fuel: nat) -> (
    EnvV,
    StateV,
)
    decreases ps.len() - i,
{
    if i < 0 || i >= ps.len() {
        (env, st)
    } else {
        let (_p, env1, st1) = validate_pat_spec(env, st, ps[i], fuel);
        validate_pats_from(env1, st1, ps, i + 1, fuel)
    }
}

fn validate_pats(env: &mut Env, st: &mut State, ps: &Vec<Pat>, fuel: usize)
    ensures
        (final(env)@, final(st)@) == validate_pats_from(old(env)@, old(st)@, ps@, 0, fuel as nat),
{
    let mut i: usize = 0;
    while i < ps.len()
        invariant
            i <= ps.len(),
            validate_pats_from(old(env)@, old(st)@, ps@, 0, fuel as nat) == validate_pats_from(
                env@,
                st@,
                ps@,
                i as int,
                fuel as nat,
            ),
        decreases ps.len() - i,
    {
        let _p = validate_pat(env, st, &ps[i], fuel);
        i += 1;
    }
}

/// Validates one parameter of a constructor. A parameter property declares
/// its name with its annotation, expanded; if the annotation cannot be
/// expanded, the validation fails. The name is being initialized in the
/// meantime, and no longer so afterwards.
pub open spec fn validate_ctor_param_spec(env: EnvV, st: StateV, p: CtorParam, fuel: nat) -> (
    Result<(), ErrorV>,
    EnvV,
    StateV,
) {
    match p {
        CtorParam::Pat(pat) => {
            let (_p, env1, st1) = validate_pat_spec(env, st, pat, fuel);
            (Ok(()), env1, st1)
        },
        CtorParam::Prop { ident_span, sym, type_ann, .. } => {
            let names = seq![sym@];
            let env1 = env.add_declaring(names);
            let (x, st1) = match type_ann {
                Some(t) => {
                    let (r, st1) = expand(env1, st, ident_span, t@, fuel);
                    match r {
                        Ok(x) => (Ok(Some(x)), st1),
                        Err(e) => (Err(e), st1),
                    }
                },
                None => (Ok(None), st),
            };
            match x {
                Err(e) => (Err(e), env1.remove_declaring(names), st1),
                Ok(ty) => {
                    let (r, env2) = env1.declare_var(
                        ident_span,
                        VarKind::Let,
                        sym@,
                        ty,
                        true,
                        false,
                    );
                    (
                        Ok(()),
                        env2.remove_declaring(names),
                        match r {
                            Ok(_) => st1,
                            Err(e) => st1.report(e),
                        },
                    )
                },
            }
        },
    }
}

/// Validates the parameters of a constructor from position `i` on, up to
/// the first that fails.
pub open spec fn validate_ctor_params_from(
    env: EnvV,
    st: StateV,
    ps: Seq<CtorParam>,
    i: int,
    fuel: nat,
) -> (Result<(), ErrorV>, EnvV, StateV)
    decreases ps.len() - i,
{
    if i < 0 || i >= ps.len() {
        (Ok(()), env, st)
    } else {
        let (r, env1, st1) = validate_ctor_param_spec(env, st, ps[i], fuel);
        match r {
            Ok(_) => validate_ctor_params_from(env1, st1, ps, i + 1, fuel),
            Err(e) => (Err(e), env1, st1),
        }
    }
}

/// Validates a constructor with the parameters `params` inside a scope of
/// its own, which is left afterwards.
pub open spec fn validate_constructor_spec(env: EnvV, st: StateV, params: Seq<CtorParam>, fuel: nat) -> (
    Result<MemberV, ErrorV>,
    EnvV,
    StateV,
) {
    let env1 = env.with_child(ScopeKind::Fn);
    let st1 = st.report_all(ctor_optional_order_from(params, 0, false, Seq::empty()));
    let (r, env2, st2) = validate_ctor_params_from(env1, st1, params, 0, fuel);
    (
        match r {
            Ok(_) => Ok(
                MemberV::Construct { type_params: None, params: ctor_params_of(params), ret: None },
            ),
            Err(e) => Err(e),
        },
        env2.without_child(),
        st2,
    )
}

/// The view of the result of a validation that gives nothing.
pub open spec fn unit_result(r: Result<(), Error>) -> Result<(), ErrorV> {
    match r {
        Ok(_) => Ok(()),
        Err(e) => Err(e@),
    }
}

fn validate_ctor_param(env: &mut Env, st: &mut State, p: &CtorParam, fuel: usize) -> (r: Result<
    (),
    Error,
>)
    ensures
        (unit_result(r), final(env)@, final(st)@) == validate_ctor_param_spec(
            old(env)@,
            old(st)@,
            *p,
            fuel as nat,
        ),
{
    match p {
        CtorParam::Pat(pat) => {
            let _p = validate_pat(env, st, pat, fuel);
            Ok(())
        },
        CtorParam::Prop { ident_span, sym, type_ann, .. } => {
            let mut names: Vec<String> = Vec::new();
            names.push(sym.clone());
            assert(crate::types::strs(names@) =~= seq![sym@]);
            env.add_declaring(&names);
            let ty = match type_ann {
                Some(t) => match expand_type(env, st, *ident_span, copy_type(t), fuel) {
                    Ok(x) => Some(x),
                    Err(e) => {
                        env.remove_declaring(&names);
                        return Err(e);
                    },
                },
                None => None,
            };
            match env.declare_var(*ident_span, VarKind::Let, sym.clone(), ty, true, false) {
                Ok(_) => {},
                Err(e) => {
                    st.report(e);
                },
            }
            env.remove_declaring(&names);
            Ok(())
        },
    }
}

/// Validates a constructor with the parameters `params`.
pub fn validate_constructor(env: &mut Env, st: &mut State, params: &Vec<CtorParam>, fuel: usize) -> (r:
    Result<Member, Error>)
    ensures
        (member_result(r), final(env)@, final(st)@) == validate_constructor_spec(
            old(env)@,
            old(st)@,
            params@,
            fuel as nat,
        ),
        final(env)@ == old(env)@,
{
    proof {
        lemma_constructor_leaves_no_binding(old(env)@, old(st)@, params@, fuel as nat);
    }
    env.with_child(ScopeKind::Fn);
    check_ctor_optional_order(st, params);
    let ghost env1 = env@;
    let ghost st1 = st@;
    let mut i: usize = 0;
    let mut failed: Option<Error> = None;
    while i < params.len() && failed.is_none()
        invariant
            i <= params.len(),
            match failed {
                None => validate_ctor_params_from(env1, st1, params@, 0, fuel as nat)
                    == validate_ctor_params_from(env@, st@, params@, i as int, fuel as nat),
                Some(e) => validate_ctor_params_from(env1, st1, params@, 0, fuel as nat) == (
                    Err::<(), ErrorV>(e@),
                    env@,
                    st@,
                ),
            },
        decreases params.len() - i + (if failed.is_none() { 1int } else { 0int }),
    {
        match validate_ctor_param(env, st, &params[i], fuel) {
            Ok(_) => {
                i += 1;
            },
            Err(e) => {
                failed = Some(e);
            },
        }
    }
    env.without_child();
    match failed {
        Some(e) => Err(e),
        None => Ok(Member::Construct { type_params: None, params: ctor_params(params), ret: None }),
    }
}

/// Whether the method is a getter or a setter.
pub open spec fn is_accessor(kind: MethodKind) -> bool {
    kind == MethodKind::Getter || kind == MethodKind::Setter
}

/// The state with the diagnostic `d` recorded, if `cond` holds.
pub open spec fn report_if(st: StateV, cond: bool, d: Diag) -> StateV {
    if cond {
        st.report(err(d))
    } else {
        st
    }
}

/// Validates a method inside a scope of its own, which is left afterwards.
///
/// An abstract method has no body. No parameter follows an optional one.
/// An accessor has no type parameters. In an ambient context a method has
/// no body. A setter declares no return type. A getter with a body returns
/// a value. The return type of the method is the declared one, else the
/// one that was inferred for its body, else `any`.
pub open spec fn validate_method_spec(
    env: EnvV,
    st: StateV,
    key: PropName,
    kind: MethodKind,
    is_static: bool,
    is_abstract: bool,
    f: Function,
    fuel: nat,
) -> (MemberV, EnvV, StateV) {
    let at = key.spec_span();
    let env1 = env.with_child(ScopeKind::Fn);
    let st1 = report_if(st, is_abstract && f.has_body, Diag::TS1318 { span: at });
    let st2 = st1.report_all(optional_order_from(f.params@, 0, false, Seq::empty()));
    let (env2, st3) = validate_pats_from(env1, st2, f.params@, 0, fuel);
    let st4 = report_if(
        st3,
        is_accessor(kind) && f.type_params.is_some(),
        Diag::TS1094 { span: at },
    );
    let st5 = report_if(st4, env.in_declare && f.has_body, Diag::TS1183 { span: at });
    let st6 = report_if(
        st5,
        kind == MethodKind::Setter && f.return_type.is_some(),
        Diag::TS1095 { span: at },
    );
    let (inferred, st7) = if f.has_body {
        st6.infer_return_type(f.span)
    } else {
        (None, st6)
    };
    let st8 = report_if(
        st7,
        kind == MethodKind::Getter && f.has_body && inferred.is_none(),
        Diag::TS2378 { span: at },
    );
    (
        MemberV::Method {
            key: key_of(key),
            computed: key is Computed,
            optional: false,
            is_static,
            type_params: opt_strs(f.type_params),
            params: params_of(f.params@),
            ret: Some(
                match f.return_type {
                    Some(t) => t@,
                    None => type_or_any(inferred),
                },
            ),
        },
        env2.without_child(),
        st8,
    )
}

fn report_when(st: &mut State, cond: bool, d: Diag)
    ensures
        final(st)@ == report_if(old(st)@, cond, d),
{
    if cond {
        st.report(Error::Diag(d));
    }
}

/// Validates the method `f` of a class with the key `key`.
pub fn validate_class_method(
    env: &mut Env,
    st: &mut State,
    key: &PropName,
    kind: MethodKind,
    is_static: bool,
    is_abstract: bool,
    f: &Function,
    fuel: usize,
) -> (r: Member)
    ensures
        (r@, final(env)@, final(st)@) == validate_method_spec(
            old(env)@,
            old(st)@,
            *key,
            kind,
            is_static,
            is_abstract,
            *f,
            fuel as nat,
        ),
        final(env)@ == old(env)@,
{
    proof {
        lemma_method_leaves_no_binding(
            old(env)@,
            old(st)@,
            *key,
            kind,
            is_static,
            is_abstract,
            *f,
            fuel as nat,
        );
    }
    let at = key.span();
    let in_declare = env.in_declare;
    env.with_child(ScopeKind::Fn);
    report_when(st, is_abstract && f.has_body, Diag::TS1318 { span: at });
    check_optional_order(st, &f.params);
    validate_pats(env, st, &f.params, fuel);
    let (getter, setter) = match kind {
        MethodKind::Getter => (true, false),
        MethodKind::Setter => (false, true),
        MethodKind::Method => (false, false),
    };
    report_when(st, (getter || setter) && f.type_params.is_some(), Diag::TS1094 { span: at });
    report_when(st, in_declare && f.has_body, Diag::TS1183 { span: at });
    report_when(st, setter && f.return_type.is_some(), Diag::TS1095 { span: at });
    let inferred = if f.has_body {
        st.infer_return_type(f.span)
    } else {
        None
    };
    env.without_child();
    report_when(st, getter && f.has_body && inferred.is_none(), Diag::TS2378 { span: at });
    let ret = match &f.return_type {
        Some(t) => copy_type(t),
        None => match inferred {
            Some(t) => t,
            None => Type::Keyword(Keyword::Any),
        },
    };
    Member::Method {
        key: prop_name_key(key),
        computed: is_computed(key),
        optional: false,
        is_static,
        type_params: copy_opt_strings(&f.type_params),
        params: pat_params(&f.params),
        ret: Some(ret),
    }
}

/// Validates a property of a class. A computed key is validated. The type
/// of the property is its annotation, else the type of its value; the
/// value is validated in either case, and its failure is fatal.
pub open spec fn validate_prop_spec(
    env: EnvV,
    st: StateV,
    span: Span,
    key: Expr,
    computed: bool,
    value: Option<Expr>,
    type_ann: Option<TypeV>,
    is_static: bool,
    is_optional: bool,
    readonly: bool,
    fuel: nat,
) -> (Result<MemberV, ErrorV>, StateV) {
    let st1 = if computed {
        computed_key_spec(env, st, span, key, fuel)
    } else {
        st
    };
    let (v, st2) = match value {
        Some(e) => {
            let (r, st2) = type_of_spec(env, st1, e, TypeOfMode::RValue, fuel);
            match r {
                Ok(t) => (Ok(Some(t)), st2),
                Err(x) => (Err(x), st2),
            }
        },
        None => (Ok(None), st1),
    };
    match v {
        Err(x) => (Err(x), st2),
        Ok(vt) => (
            Ok(
                MemberV::Property {
                    key: key_of_expr(key, computed),
                    computed,
                    optional: is_optional,
                    readonly,
                    is_static,
                    ty: if type_ann.is_some() {
                        type_ann
                    } else {
                        vt
                    },
                },
            ),
            st2,
        ),
    }
}

/// Validates the member of a class that the item declares. A private item
/// declares none.
pub open spec fn validate_member_spec(env: EnvV, st: StateV, item: ClassItem, fuel: nat) -> (
    Result<Option<MemberV>, ErrorV>,
    EnvV,
    StateV,
) {
    match item {
        ClassItem::Constructor { params, .. } => {
            let (r, env1, st1) = validate_constructor_spec(env, st, params@, fuel);
            (
                match r {
                    Ok(m) => Ok(Some(m)),
                    Err(e) => Err(e),
                },
                env1,
                st1,
            )
        },
        ClassItem::Method { key, kind, is_static, is_abstract, function, .. } => {
            let (m, env1, st1) = validate_method_spec(
                env,
                st,
                key,
                kind,
                is_static,
                is_abstract,
                function,
                fuel,
            );
            (Ok(Some(m)), env1, st1)
        },
        ClassItem::Prop {
            span,
            key,
            computed,
            value,
            type_ann,
            is_static,
            is_optional,
            readonly,
        } => {
            let (r, st1) = validate_prop_spec(
                env,
                st,
                span,
                key,
                computed,
                value,
                opt_type(type_ann),
                is_static,
                is_optional,
                readonly,
                fuel,
            );
            (
                match r {
                    Ok(m) => Ok(Some(m)),
                    Err(e) => Err(e),
                },
                env,
                st1,
            )
        },
        ClassItem::Index { readonly, key_ty, type_ann, .. } => (
            Ok(Some(MemberV::Index { readonly, key_ty: key_ty@, ty: opt_type(type_ann) })),
            env,
            st,
        ),
        ClassItem::PrivateMethod { .. } => (Ok(None), env, st),
        ClassItem::PrivateProp { .. } => (Ok(None), env, st),
    }
}

/// The view of the result of the validation of a class item.
pub open spec fn opt_member_result(r: Result<Option<Member>, Error>) -> Result<
    Option<MemberV>,
    ErrorV,
> {
    match r {
        Ok(Some(m)) => Ok(Some(m@)),
        Ok(None) => Ok(None),
        Err(e) => Err(e@),
    }
}

/// Validates the member of a class that the item declares.
pub fn validate_class_member(env: &mut Env, st: &mut State, item: &ClassItem, fuel: usize) -> (r:
    Result<Option<Member>, Error>)
    ensures
        (opt_member_result(r), final(env)@, final(st)@) == validate_member_spec(
            old(env)@,
            old(st)@,
            *item,
            fuel as nat,
        ),
        final(env)@ == old(env)@,
{
    match item {
        ClassItem::Constructor { params, .. } => match validate_constructor(env, st, params, fuel) {
            Ok(m) => Ok(Some(m)),
            Err(e) => Err(e),
        },
        ClassItem::Method { key, kind, is_static, is_abstract, function, .. } => Ok(
            Some(
                validate_class_method(
                    env,
                    st,
                    key,
                    *kind,
                    *is_static,
                    *is_abstract,
                    function,
                    fuel,
                ),
            ),
        ),
        ClassItem::Prop { span, key, computed, value, type_ann, is_static, is_optional, readonly } => {
            if *computed {
                validate_computed_prop_key(env, st, *span, key, fuel);
            }
            let vt = match value {
                Some(e) => match type_of(env, st, e, TypeOfMode::RValue, fuel) {
                    Ok(t) => Some(t),
                    Err(x) => {
                        return Err(x);
                    },
                },
                None => None,
            };
            let ty = match type_ann {
                Some(t) => Some(copy_type(t)),
                None => vt,
            };
            Ok(
                Some(
                    Member::Property {
                        key: expr_key(key, *computed),
                        computed: *computed,
                        optional: *is_optional,
                        readonly: *readonly,
                        is_static: *is_static,
                        ty,
                    },
                ),
            )
        },
        ClassItem::Index { readonly, key_ty, type_ann, .. } => Ok(
            Some(
                Member::Index {
                    readonly: *readonly,
                    key_ty: copy_type(key_ty),
                    ty: copy_opt_type(type_ann),
                },
            ),
        ),
        ClassItem::PrivateMethod { .. } => Ok(None),
        ClassItem::PrivateProp { .. } => Ok(None),
    }
}

/// Validates the class items from position `i` on, up to the first that
/// fails, and gives the members that they declare behind `acc`.
pub open spec fn validate_members_from(
    env: EnvV,
    st: StateV,
    items: Seq<ClassItem>,
    i: int,
    acc: Seq<MemberV>,
    fuel: nat,
) -> (Result<Seq<MemberV>, ErrorV>, EnvV, StateV)
    decreases items.len() - i,
{
    if i < 0 || i >= items.len() {
        (Ok(acc), env, st)
    } else {
        let (r, env1, st1) = validate_member_spec(env, st, items[i], fuel);
        match r {
            Err(e) => (Err(e), env1, st1),
            Ok(Some(m)) => validate_members_from(env1, st1, items, i + 1, acc.push(m), fuel),
            Ok(None) => validate_members_from(env1, st1, items, i + 1, acc, fuel),
        }
    }
}

/// Validates the class `c` under the name `name` inside a scope of its own,
/// which is left afterwards, and gives its type. The superclass is the
/// type of the expression that the class extends. The members are
/// validated in their order; the first that fails makes the class fail.
/// The constructors and the inherited members are validated at the end.
pub open spec fn validate_class_spec(
    env: EnvV,
    st: StateV,
    name: Option<Seq<char>>,
    c: Class,
    fuel: nat,
) -> (Result<TypeV, ErrorV>, EnvV, StateV) {
    let env1 = env.with_child(ScopeKind::Class);
    let (sup, st1) = match c.super_class {
        Some(e) => {
            let (r, st1) = type_of_spec(env1, st, *e, TypeOfMode::RValue, fuel);
            match r {
                Ok(t) => (Ok(Some(Box::new(t))), st1),
                Err(x) => (Err(x), st1),
            }
        },
        None => (Ok(None), st),
    };
    match sup {
        Err(x) => (Err(x), env1.without_child(), st1),
        Ok(super_class) => {
            let (b, env2, st2) = validate_members_from(env1, st1, c.body@, 0, Seq::empty(), fuel);
            match b {
                Err(x) => (Err(x), env2.without_child(), st2),
                Ok(body) => {
                    let class = TypeV::Class {
                        name,
                        is_abstract: c.is_abstract,
                        super_class,
                        type_params: opt_strs(c.type_params),
                        body,
                    };
                    let st3 = st2.report_all(constructor_diags(c.body@));
                    let st4 = st3.report_all(inherited_diags(env2, c.span, class));
                    (Ok(class), env2.without_child(), st4)
                },
            }
        },
    }
}

/// Validates the class `c` under the name `name` and gives its type.
pub fn validate_class(env: &mut Env, st: &mut State, name: Option<String>, c: &Class, fuel: usize) -> (r:
    Result<Type, Error>)
    ensures
        (result_view(r), final(env)@, final(st)@) == validate_class_spec(
            old(env)@,
            old(st)@,
            opt_str(name),
            *c,
            fuel as nat,
        ),
        final(env)@ == old(env)@,
{
    proof {
        lemma_class_leaves_no_binding(old(env)@, old(st)@, opt_str(name), *c, fuel as nat);
    }
    env.with_child(ScopeKind::Class);
    let super_class = match &c.super_class {
        Some(e) => match type_of(env, st, e, TypeOfMode::RValue, fuel) {
            Ok(t) => Some(Box::new(t)),
            Err(x) => {
                env.without_child();
                return Err(x);
            },
        },
        None => None,
    };
    let ghost env1 = env@;
    let ghost st1 = st@;
    let mut body = no_members();
    let mut failed: Option<Error> = None;
    let mut i: usize = 0;
    while i < c.body.len() && failed.is_none()
        invariant
            i <= c.body.len(),
            match failed {
                None => validate_members_from(env1, st1, c.body@, 0, Seq::empty(), fuel as nat)
                    == validate_members_from(
                    env@,
                    st@,
                    c.body@,
                    i as int,
                    members(body@),
                    fuel as nat,
                ),
                Some(e) => validate_members_from(
                    env1,
                    st1,
                    c.body@,
                    0,
                    Seq::empty(),
                    fuel as nat,
                ) == (Err::<Seq<MemberV>, ErrorV>(e@), env@, st@),
            },
        decreases c.body.len() - i + (if failed.is_none() { 1int } else { 0int }),
    {
        match validate_class_member(env, st, &c.body[i], fuel) {
            Ok(Some(m)) => {
                push_member(&mut body, m);
                i += 1;
            },
            Ok(None) => {
                i += 1;
            },
            Err(e) => {
                failed = Some(e);
            },
        }
    }
    match failed {
        Some(e) => {
            env.without_child();
            return Err(e);
        },
        None => {},
    }
    validate_constructors(st, &c.body);
    let class = Type::Class {
        name,
        is_abstract: c.is_abstract,
        super_class,
        type_params: copy_opt_strings(&c.type_params),
        body,
    };
    validate_inherited_members(env, st, None, c.span, &class);
    env.without_child();
    Ok(class)
}

/// Validates a class declaration with the name `name` at `span` and
/// declares it: the overloads among its members are validated, then the
/// class itself, whose failure is recorded and leaves `any` as its type,
/// and the type is registered and bound to the name as a variable.
pub open spec fn visit_class_decl_spec(
    env: EnvV,
    st: StateV,
    name: Seq<char>,
    span: Span,
    declare: bool,
    c: Class,
    fuel: nat,
) -> (EnvV, StateV) {
    let st1 = st.report_all(overload_diags(c.body@, declare));
    let (r, env1, st2) = validate_class_spec(env, st1, Some(name), c, fuel);
    let (ty, st3) = match r {
        Ok(t) => (t, st2),
        Err(e) => (kw(Keyword::Any), st2.report(e)),
    };
    let env2 = env1.register_type(name, ty);
    let (d, env3) = env2.declare_var(span, VarKind::Var, name, Some(ty), true, false);
    (
        env3,
        match d {
            Ok(_) => st3,
            Err(e) => st3.report(e),
        },
    )
}

/// Validates and declares the class `c` that is declared under the name
/// `name` at `span`, ambient if `declare` holds.
pub fn visit_class_decl(
    env: &mut Env,
    st: &mut State,
    name: &String,
    span: Span,
    declare: bool,
    c: &Class,
    fuel: usize,
)
    ensures
        (final(env)@, final(st)@) == visit_class_decl_spec(
            old(env)@,
            old(st)@,
            name@,
            span,
            declare,
            *c,
            fuel as nat,
        ),
{
    validate_class_members(st, c, declare);
    let ty = match validate_class(env, st, Some(name.clone()), c, fuel) {
        Ok(t) => t,
        Err(e) => {
            st.report(e);
            Type::Keyword(Keyword::Any)
        },
    };
    env.register_type(name.clone(), copy_type(&ty));
    match env.declare_var(span, VarKind::Var, name.clone(), Some(ty), true, false) {
        Ok(_) => {},
        Err(e) => {
            st.report(e);
        },
    }
}

/// What the visit of a class expression does to the state: the class is
/// validated, and its failure is recorded and leaves `any` as its type. A
/// class expression with a name validates the overloads among its
/// members, and registers and binds its type under the name inside a scope
/// of its own, which is left afterwards.
pub open spec fn visit_class_expr_spec(
    env: EnvV,
    st: StateV,
    name: Option<Seq<char>>,
    span: Span,
    c: Class,
    fuel: nat,
) -> StateV {
    let (r, _env, st1) = validate_class_spec(env, st, name, c, fuel);
    let (ty, st2) = match r {
        Ok(t) => (t, st1),
        Err(e) => (kw(Keyword::Any), st1.report(e)),
    };
    match name {
        Some(n) => {
            let env1 = env.with_child(ScopeKind::Block).register_type(n, ty);
            let st3 = st2.report_all(overload_diags(c.body@, false));
            match env1.declare_var(span, VarKind::Var, n, Some(ty), true, false).0 {
                Ok(_) => st3,
                Err(e) => st3.report(e),
            }
        },
        None => st2,
    }
}

/// Visits the class expression `c` at `span` with the name `name`. The
/// environment is afterwards as it was.
pub fn visit_class_expr(
    env: &mut Env,
    st: &mut State,
    name: Option<&String>,
    span: Span,
    c: &Class,
    fuel: usize,
)
    ensures
        final(st)@ == visit_class_expr_spec(
            old(env)@,
            old(st)@,
            match name {
                Some(n) => Some(n@),
                None => None,
            },
            span,
            *c,
            fuel as nat,
        ),
        final(env)@ == old(env)@,
{
    let own = match name {
        Some(n) => Some(n.clone()),
        None => None,
    };
    let ty = match validate_class(env, st, own, c, fuel) {
        Ok(t) => t,
        Err(e) => {
            st.report(e);
            Type::Keyword(Keyword::Any)
        },
    };
    match name {
        Some(n) => {
            env.with_child(ScopeKind::Block);
            env.register_type(n.clone(), copy_type(&ty));
            validate_class_members(st, c, false);
            match env.declare_var(span, VarKind::Var, n.clone(), Some(ty), true, false) {
                Ok(_) => {},
                Err(e) => {
                    st.report(e);
                },
            }
            proof {
                let inside = old(env)@.with_child(ScopeKind::Block);
                crate::child::lemma_with_current(
                    inside,
                    inside.scopes.last().register_type(n@, ty@),
                );
                let registered = inside.register_type(n@, ty@);
                crate::child::lemma_with_current(
                    registered,
                    registered.scopes.last().declare_var(
                        span,
                        VarKind::Var,
                        n@,
                        Some(ty@),
                        true,
                        false,
                    ).1,
                );
                crate::child::lemma_child_vanishes(old(env)@, ScopeKind::Block, env@);
            }
            env.without_child();
        },
        None => {},
    }
}

} // verus!
