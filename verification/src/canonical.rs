//! Canonical form: what expansion gives, and what it leaves as it is.

use vstd::prelude::*;
use crate::errors::ErrorV;
use crate::model::{subst, subst_all, type_arg_for};
use crate::model::TypeOfMode;
use crate::rules::{expand, expand_all, type_of_entity_name, type_of_ident};
use crate::scope::EnvV;
use crate::span::Span;
use crate::state::StateV;
use crate::types::TypeV;
use crate::union::{dedup_from, flatten_from, union_members, union_of};

verus! {

/// Whether the type `t` is in canonical form. A named reference, a type
/// query and an alias without type parameters are not. A union is, if its
/// members are, none of them is a union or occurs twice, and there is not
/// exactly one of them. An intersection and a tuple are, if their members
/// are; an array, if its element is; a function, if its return type is.
/// Every other type is: a declaration is not looked into.
pub open spec fn canonical(t: TypeV) -> bool
    decreases t,
{
    match t {
        TypeV::Ref { .. } => false,
        TypeV::Query { .. } => false,
        TypeV::Alias { type_params: None, .. } => false,
        TypeV::Union(ts) => ts.len() != 1 && ts.no_duplicates() && forall|i: int|
            0 <= i < ts.len() ==> canonical(#[trigger] ts[i]) && !(ts[i] is Union),
        TypeV::Intersection(ts) => forall|i: int| 0 <= i < ts.len() ==> canonical(#[trigger] ts[i]),
        TypeV::Tuple(ts) => forall|i: int| 0 <= i < ts.len() ==> canonical(#[trigger] ts[i]),
        TypeV::Array(e) => canonical(*e),
        TypeV::Function { ret, .. } => canonical(*ret),
        _ => true,
    }
}

/// Whether the depth `fuel` is enough to walk through the type `t`.
pub open spec fn fits(t: TypeV, fuel: nat) -> bool
    decreases t,
{
    fuel > 0 && match t {
        TypeV::Union(ts) => forall|i: int|
            0 <= i < ts.len() ==> fits(#[trigger] ts[i], (fuel - 1) as nat),
        TypeV::Intersection(ts) => forall|i: int|
            0 <= i < ts.len() ==> fits(#[trigger] ts[i], (fuel - 1) as nat),
        TypeV::Tuple(ts) => forall|i: int|
            0 <= i < ts.len() ==> fits(#[trigger] ts[i], (fuel - 1) as nat),
        TypeV::Array(e) => fits(*e, (fuel - 1) as nat),
        TypeV::Function { ret, .. } => fits(*ret, (fuel - 1) as nat),
        _ => true,
    }
}

/// Whether the value that `sym` names has a type in canonical form, if it
/// has a type at all.
pub open spec fn names_canonical(env: EnvV, sym: Seq<char>) -> bool {
    match type_of_ident(env, Span { lo: 0, hi: 0 }, sym, TypeOfMode::RValue) {
        Ok(t) => canonical(t),
        Err(_) => true,
    }
}

/// Whether expansion brings the type `t` into canonical form. Where it
/// holds an alias without type parameters, what the alias stands for is in
/// canonical form; where it holds a type query, the query is of one name,
/// and the value of that name has a type in canonical form.
pub open spec fn expandable(env: EnvV, t: TypeV) -> bool
    decreases t,
{
    match t {
        TypeV::Query { path } => path.len() == 1 && names_canonical(env, path[0]),
        TypeV::Alias { type_params: None, ty } => canonical(*ty),
        TypeV::Ref { type_args: Some(args), .. } => forall|i: int|
            0 <= i < args.len() ==> expandable(env, #[trigger] args[i]),
        TypeV::Union(ts) => forall|i: int| 0 <= i < ts.len() ==> expandable(env, #[trigger] ts[i]),
        TypeV::Intersection(ts) => forall|i: int|
            0 <= i < ts.len() ==> expandable(env, #[trigger] ts[i]),
        TypeV::Tuple(ts) => forall|i: int| 0 <= i < ts.len() ==> expandable(env, #[trigger] ts[i]),
        TypeV::Array(e) => expandable(env, *e),
        TypeV::Function { ret, .. } => expandable(env, *ret),
        _ => true,
    }
}

/// Whether what a named reference stands for in the environment can be
/// brought into canonical form: every built-in type can be, and of the
/// aliases that the scopes declare, one without type parameters stands for
/// a type in canonical form, and one with type parameters for a type that
/// can be brought into it.
pub open spec fn settled(env: EnvV) -> bool {
    &&& forall|name: Seq<char>|
        (#[trigger] env.builtin_type(name)).is_some() ==> expandable(
            env,
            env.builtin_type(name).unwrap(),
        )
    &&& forall|name: Seq<char>|
        (#[trigger] env.find_type(name)).is_some() ==> match env.find_type(name).unwrap() {
            TypeV::Alias { type_params: None, ty } => canonical(*ty),
            TypeV::Alias { type_params: Some(_), ty } => expandable(env, *ty),
            _ => true,
        }
}

proof fn lemma_expand_all_fixed(
    env: EnvV,
    st: StateV,
    span: Span,
    ts: Seq<TypeV>,
    i: int,
    acc: Seq<TypeV>,
    fuel: nat,
)
    requires
        0 <= i <= ts.len(),
        forall|j: int|
            0 <= j < ts.len() ==> expand(env, st, span, #[trigger] ts[j], fuel) == (
                Ok::<TypeV, ErrorV>(ts[j]),
                st,
            ),
    ensures
        expand_all(env, st, span, ts, i, acc, fuel) == (
            Ok::<Seq<TypeV>, ErrorV>(acc + ts.skip(i)),
            st,
        ),
    decreases ts.len() - i,
{
    if i < ts.len() {
        lemma_expand_all_fixed(env, st, span, ts, i + 1, acc.push(ts[i]), fuel);
        assert(acc.push(ts[i]) + ts.skip(i + 1) =~= acc + ts.skip(i));
    } else {
        assert(acc + ts.skip(i) =~= acc);
    }
}

proof fn lemma_flatten_plain(ts: Seq<TypeV>, i: int, acc: Seq<TypeV>)
    requires
        0 <= i <= ts.len(),
        forall|j: int| 0 <= j < ts.len() ==> !(#[trigger] ts[j] is Union),
    ensures
        flatten_from(ts, i, acc) == acc + ts.skip(i),
    decreases ts.len() - i,
{
    if i < ts.len() {
        assert(!(ts[i] is Union));
        lemma_flatten_plain(ts, i + 1, acc.push(ts[i]));
        assert(acc.push(ts[i]) + ts.skip(i + 1) =~= acc + ts.skip(i));
    } else {
        assert(acc + ts.skip(i) =~= acc);
    }
}

proof fn lemma_dedup_distinct(ts: Seq<TypeV>, i: int)
    requires
        0 <= i <= ts.len(),
        ts.no_duplicates(),
    ensures
        dedup_from(ts, i, ts.take(i)) == ts,
    decreases ts.len() - i,
{
    if i < ts.len() {
        let before = ts.take(i);
        assert(!before.contains(ts[i])) by {
            if before.contains(ts[i]) {
                let j = choose|j: int| 0 <= j < before.len() && before[j] == ts[i];
                assert(ts[j] == ts[i]);
            }
        }
        assert(before.push(ts[i]) =~= ts.take(i + 1));
        lemma_dedup_distinct(ts, i + 1);
    } else {
        assert(ts.take(i) =~= ts);
    }
}

/// The union of the members of a union in canonical form is that union.
proof fn lemma_union_of_canonical_members(ts: Seq<TypeV>)
    requires
        canonical(TypeV::Union(ts)),
    ensures
        union_of(ts) == TypeV::Union(ts),
{
    assert forall|j: int| 0 <= j < ts.len() implies !(#[trigger] ts[j] is Union) by {
        assert(canonical(ts[j]) && !(ts[j] is Union));
    }
    lemma_flatten_plain(ts, 0, Seq::empty());
    assert(Seq::<TypeV>::empty() + ts.skip(0) =~= ts);
    lemma_dedup_distinct(ts, 0);
    assert(ts.take(0) =~= Seq::<TypeV>::empty());
}

/// A type in canonical form is a fixed point of expansion: within a depth
/// that is enough to walk through it, expansion gives the type itself and
/// leaves the state as it is.
pub proof fn lemma_canonical_is_fixed(env: EnvV, st: StateV, span: Span, t: TypeV, fuel: nat)
    requires
        canonical(t),
        fits(t, fuel),
    ensures
        expand(env, st, span, t, fuel) == (Ok::<TypeV, ErrorV>(t), st),
    decreases t,
{
    let f = (fuel - 1) as nat;
    match t {
        TypeV::Union(ts) => {
            assert forall|j: int| 0 <= j < ts.len() implies expand(
                env,
                st,
                span,
                #[trigger] ts[j],
                f,
            ) == (Ok::<TypeV, ErrorV>(ts[j]), st) by {
                assert(canonical(ts[j]) && !(ts[j] is Union));
                assert(fits(ts[j], f));
                lemma_canonical_is_fixed(env, st, span, ts[j], f);
            }
            lemma_expand_all_fixed(env, st, span, ts, 0, Seq::empty(), f);
            assert(Seq::<TypeV>::empty() + ts.skip(0) =~= ts);
            lemma_union_of_canonical_members(ts);
        },
        TypeV::Intersection(ts) => {
            assert forall|j: int| 0 <= j < ts.len() implies expand(
                env,
                st,
                span,
                #[trigger] ts[j],
                f,
            ) == (Ok::<TypeV, ErrorV>(ts[j]), st) by {
                assert(canonical(ts[j]));
                assert(fits(ts[j], f));
                lemma_canonical_is_fixed(env, st, span, ts[j], f);
            }
            lemma_expand_all_fixed(env, st, span, ts, 0, Seq::empty(), f);
            assert(Seq::<TypeV>::empty() + ts.skip(0) =~= ts);
        },
        TypeV::Tuple(ts) => {
            assert forall|j: int| 0 <= j < ts.len() implies expand(
                env,
                st,
                span,
                #[trigger] ts[j],
                f,
            ) == (Ok::<TypeV, ErrorV>(ts[j]), st) by {
                assert(canonical(ts[j]));
                assert(fits(ts[j], f));
                lemma_canonical_is_fixed(env, st, span, ts[j], f);
            }
            lemma_expand_all_fixed(env, st, span, ts, 0, Seq::empty(), f);
            assert(Seq::<TypeV>::empty() + ts.skip(0) =~= ts);
        },
        TypeV::Array(e) => {
            lemma_canonical_is_fixed(env, st, span, *e, f);
        },
        TypeV::Function { ret, .. } => {
            lemma_canonical_is_fixed(env, st, span, *ret, f);
        },
        _ => {},
    }
}

/// Whether every type in `s` is in canonical form and no union.
pub open spec fn plain_members(s: Seq<TypeV>) -> bool {
    forall|j: int| 0 <= j < s.len() ==> canonical(#[trigger] s[j]) && !(s[j] is Union)
}

proof fn lemma_flatten_canonical(ts: Seq<TypeV>, i: int, acc: Seq<TypeV>)
    requires
        0 <= i <= ts.len(),
        forall|j: int| 0 <= j < ts.len() ==> canonical(#[trigger] ts[j]),
        plain_members(acc),
    ensures
        plain_members(flatten_from(ts, i, acc)),
    decreases ts.len() - i,
{
    if i < ts.len() {
        assert(canonical(ts[i]));
        match ts[i] {
            TypeV::Union(inner) => {
                let next = acc + inner;
                assert forall|j: int| 0 <= j < next.len() implies canonical(#[trigger] next[j])
                    && !(next[j] is Union) by {
                    if j < acc.len() {
                        assert(next[j] == acc[j]);
                    } else {
                        assert(next[j] == inner[j - acc.len()]);
                        assert(canonical(inner[j - acc.len()]) && !(inner[j - acc.len()] is Union));
                    }
                }
                lemma_flatten_canonical(ts, i + 1, next);
            },
            t => {
                let next = acc.push(t);
                assert forall|j: int| 0 <= j < next.len() implies canonical(#[trigger] next[j])
                    && !(next[j] is Union) by {
                    if j < acc.len() {
                        assert(next[j] == acc[j]);
                    }
                }
                lemma_flatten_canonical(ts, i + 1, next);
            },
        }
    }
}

proof fn lemma_dedup_canonical(ts: Seq<TypeV>, i: int, acc: Seq<TypeV>)
    requires
        0 <= i <= ts.len(),
        plain_members(ts),
        plain_members(acc),
        acc.no_duplicates(),
    ensures
        plain_members(dedup_from(ts, i, acc)),
        dedup_from(ts, i, acc).no_duplicates(),
    decreases ts.len() - i,
{
    if i < ts.len() {
        if acc.contains(ts[i]) {
            lemma_dedup_canonical(ts, i + 1, acc);
        } else {
            let next = acc.push(ts[i]);
            assert(canonical(ts[i]) && !(ts[i] is Union));
            assert forall|j: int| 0 <= j < next.len() implies canonical(#[trigger] next[j])
                && !(next[j] is Union) by {
                if j < acc.len() {
                    assert(next[j] == acc[j]);
                }
            }
            assert(next.no_duplicates()) by {
                assert forall|a: int, b: int|
                    0 <= a < next.len() && 0 <= b < next.len() && a != b implies next[a]
                    != next[b] by {
                    if a < acc.len() && b < acc.len() {
                        assert(acc[a] != acc[b]);
                    } else if a < acc.len() {
                        assert(acc.contains(acc[a]));
                    } else {
                        assert(acc.contains(acc[b]));
                    }
                }
            }
            lemma_dedup_canonical(ts, i + 1, next);
        }
    }
}

/// The union of types in canonical form is in canonical form.
pub proof fn lemma_union_of_is_canonical(ts: Seq<TypeV>)
    requires
        forall|j: int| 0 <= j < ts.len() ==> canonical(#[trigger] ts[j]),
    ensures
        canonical(union_of(ts)),
{
    let flat = flatten_from(ts, 0, Seq::empty());
    lemma_flatten_canonical(ts, 0, Seq::empty());
    lemma_dedup_canonical(flat, 0, Seq::empty());
    let ms = union_members(ts);
    if ms.len() == 1 {
        assert(canonical(ms[0]) && !(ms[0] is Union));
    }
}

proof fn lemma_subst_all_expandable(
    env: EnvV,
    names: Seq<Seq<char>>,
    args: Seq<TypeV>,
    ts: Seq<TypeV>,
)
    requires
        forall|i: int| 0 <= i < args.len() ==> expandable(env, #[trigger] args[i]),
        forall|i: int| 0 <= i < ts.len() ==> expandable(env, #[trigger] ts[i]),
    ensures
        forall|i: int|
            0 <= i < subst_all(names, args, ts).len() ==> expandable(env, #[trigger] subst_all(names, args, ts)[i],
            ),
        subst_all(names, args, ts).len() == ts.len(),
    decreases ts, 0nat,
{
    assert forall|i: int| 0 <= i < subst_all(names, args, ts).len() implies expandable(env, #[trigger] subst_all(names, args, ts)[i],
    ) by {
        assert(expandable(env, ts[i]));
        lemma_subst_expandable(env, names, args, ts[i]);
    }
}

/// Substitution of type arguments that can be brought into canonical form
/// into a type that can be gives a type that can be.
pub proof fn lemma_subst_expandable(
    env: EnvV,
    names: Seq<Seq<char>>,
    args: Seq<TypeV>,
    t: TypeV,
)
    requires
        forall|i: int| 0 <= i < args.len() ==> expandable(env, #[trigger] args[i]),
        expandable(env, t),
    ensures
        expandable(env, subst(names, args, t)),
    decreases t, 1nat,
{
    match t {
        TypeV::Param { name } => {
            match type_arg_for(names, args, name) {
                Some(a) => {
                    lemma_type_arg_expandable(env, names, args, name);
                },
                None => {},
            }
        },
        TypeV::Ref { path, type_args } => {
            if path.len() == 1 && type_args.is_none() && type_arg_for(
                names,
                args,
                path[0],
            ).is_some() {
                lemma_type_arg_expandable(env, names, args, path[0]);
            } else {
                match type_args {
                    Some(ts) => {
                        assert forall|i: int| 0 <= i < ts.len() implies expandable(env, #[trigger] ts[i],
                        ) by {}
                        lemma_subst_all_expandable(env, names, args, ts);
                    },
                    None => {},
                }
            }
        },
        TypeV::Union(ts) => {
            lemma_subst_all_expandable(env, names, args, ts);
        },
        TypeV::Intersection(ts) => {
            lemma_subst_all_expandable(env, names, args, ts);
        },
        TypeV::Tuple(ts) => {
            lemma_subst_all_expandable(env, names, args, ts);
        },
        TypeV::Array(e) => {
            lemma_subst_expandable(env, names, args, *e);
        },
        TypeV::Function { ret, .. } => {
            lemma_subst_expandable(env, names, args, *ret);
        },
        _ => {},
    }
}

proof fn lemma_type_arg_expandable(
    env: EnvV,
    names: Seq<Seq<char>>,
    args: Seq<TypeV>,
    name: Seq<char>,
)
    requires
        forall|i: int| 0 <= i < args.len() ==> expandable(env, #[trigger] args[i]),
    ensures
        type_arg_for(names, args, name).is_some() ==> expandable(env, type_arg_for(names, args, name).unwrap(),
        ),
{
    match crate::model::name_index_from(names, name, 0) {
        Some(i) => {
            lemma_name_index_bound(names, name, 0);
            if i < args.len() {
                assert(expandable(env, args[i]));
            }
        },
        None => {},
    }
}

proof fn lemma_name_index_bound(names: Seq<Seq<char>>, name: Seq<char>, i: int)
    requires
        0 <= i,
    ensures
        match crate::model::name_index_from(names, name, i) {
            Some(k) => 0 <= k < names.len(),
            None => true,
        },
    decreases names.len() - i,
{
    if i < names.len() && names[i] != name {
        lemma_name_index_bound(names, name, i + 1);
    }
}

proof fn lemma_expand_all_canonical(
    env: EnvV,
    st: StateV,
    span: Span,
    ts: Seq<TypeV>,
    i: int,
    acc: Seq<TypeV>,
    fuel: nat,
)
    requires
        settled(env),
        0 <= i <= ts.len(),
        forall|j: int| 0 <= j < ts.len() ==> expandable(env, #[trigger] ts[j]),
        forall|j: int| 0 <= j < acc.len() ==> canonical(#[trigger] acc[j]),
        expand_all(env, st, span, ts, i, acc, fuel).0 is Ok,
    ensures
        forall|j: int|
            0 <= j < expand_all(env, st, span, ts, i, acc, fuel).0->Ok_0.len() ==> canonical(
                #[trigger] expand_all(env, st, span, ts, i, acc, fuel).0->Ok_0[j],
            ),
    decreases fuel, 1nat, ts.len() - i,
{
    if i < ts.len() {
        let (r, st1) = expand(env, st, span, ts[i], fuel);
        match r {
            Ok(x) => {
                assert(expandable(env, ts[i]));
                lemma_expand_gives_canonical(env, st, span, ts[i], fuel);
                let next = acc.push(x);
                assert forall|j: int| 0 <= j < next.len() implies canonical(#[trigger] next[j]) by {
                    if j < acc.len() {
                        assert(next[j] == acc[j]);
                    }
                }
                lemma_expand_all_canonical(env, st1, span, ts, i + 1, next, fuel);
            },
            Err(_) => {},
        }
    }
}

/// The type that an identifier has does not depend on where the
/// identifier stands.
proof fn lemma_type_of_ident_span(env: EnvV, span: Span, sym: Seq<char>)
    ensures
        type_of_ident(env, span, sym, TypeOfMode::RValue) is Ok ==> type_of_ident(
            env,
            span,
            sym,
            TypeOfMode::RValue,
        ) == type_of_ident(env, Span { lo: 0, hi: 0 }, sym, TypeOfMode::RValue),
{
}

/// Expansion gives a type in canonical form. This holds in an environment
/// whose aliases and built-in types are settled, of every type that
/// expansion can bring into canonical form.
pub proof fn lemma_expand_gives_canonical(env: EnvV, st: StateV, span: Span, t: TypeV, fuel: nat)
    requires
        settled(env),
        expandable(env, t),
        expand(env, st, span, t, fuel).0 is Ok,
    ensures
        canonical(expand(env, st, span, t, fuel).0->Ok_0),
    decreases fuel, 0nat, 0nat,
{
    let f = (fuel - 1) as nat;
    match t {
        TypeV::Ref { path, type_args } => {
            if path.len() == 1 {
                match env.builtin_type(path[0]) {
                    Some(b) => {
                        assert(env.builtin_type(path[0]).is_some());
                        lemma_expand_gives_canonical(env, st, span, b, f);
                    },
                    None => {
                        match env.find_type(path[0]) {
                            Some(TypeV::Alias { type_params: Some(tps), ty }) => {
                                assert(env.find_type(path[0]).is_some());
                                match type_args {
                                    Some(args) => {
                                        assert forall|i: int| 0 <= i < args.len() implies expandable(env, #[trigger] args[i],
                                        ) by {}
                                        lemma_subst_expandable(env, tps, args, *ty);
                                        lemma_expand_gives_canonical(
                                            env,
                                            st,
                                            span,
                                            subst(tps, args, *ty),
                                            f,
                                        );
                                    },
                                    None => {
                                        lemma_expand_gives_canonical(env, st, span, *ty, f);
                                    },
                                }
                            },
                            Some(_) => {
                                assert(env.find_type(path[0]).is_some());
                            },
                            None => {},
                        }
                    },
                }
            }
        },
        TypeV::Query { path } => {
            assert(expand(env, st, span, t, fuel) == type_of_entity_name(env, st, span, path, f));
            assert(type_of_entity_name(env, st, span, path, f).0 == type_of_ident(
                env,
                span,
                path[0],
                TypeOfMode::RValue,
            ));
            lemma_type_of_ident_span(env, span, path[0]);
        },
        TypeV::Union(ts) => {
            lemma_expand_all_canonical(env, st, span, ts, 0, Seq::empty(), f);
            lemma_union_of_is_canonical(expand_all(env, st, span, ts, 0, Seq::empty(), f).0->Ok_0);
        },
        TypeV::Intersection(ts) => {
            lemma_expand_all_canonical(env, st, span, ts, 0, Seq::empty(), f);
        },
        TypeV::Tuple(ts) => {
            lemma_expand_all_canonical(env, st, span, ts, 0, Seq::empty(), f);
        },
        TypeV::Array(e) => {
            lemma_expand_gives_canonical(env, st, span, *e, f);
        },
        TypeV::Function { ret, .. } => {
            lemma_expand_gives_canonical(env, st, span, *ret, f);
        },
        _ => {},
    }
}

/// Expansion is idempotent: the expansion of what an expansion gave gives
/// the same type again, and leaves the state as it is.
///
/// This is stated of an environment whose aliases and built-in types are
/// settled, of a type that expansion can bring into canonical form, and
/// within a depth that is enough to walk through the result.
pub proof fn lemma_expand_is_idempotent(env: EnvV, st: StateV, span: Span, t: TypeV, fuel: nat)
    requires
        settled(env),
        expandable(env, t),
        expand(env, st, span, t, fuel).0 is Ok,
        fits(expand(env, st, span, t, fuel).0->Ok_0, fuel),
    ensures
        ({
            let (r, st1) = expand(env, st, span, t, fuel);
            expand(env, st1, span, r->Ok_0, fuel) == (r, st1)
        }),
{
    let (r, st1) = expand(env, st, span, t, fuel);
    lemma_expand_gives_canonical(env, st, span, t, fuel);
    lemma_canonical_is_fixed(env, st1, span, r->Ok_0, fuel);
}

} // verus!
