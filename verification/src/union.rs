//! Unions in normal form, and the other small operations on types that the
//! rules share.

use vstd::prelude::*;
use crate::copy::{copy_type, copy_types};
use crate::equal::eq_type;
use crate::types::{types, Keyword, Lit, LitV, Type, TypeV};

verus! {

/// The members of `ts` from position `i` on, the members of a union among
/// them taken in its place, behind `acc`.
pub open spec fn flatten_from(ts: Seq<TypeV>, i: int, acc: Seq<TypeV>) -> Seq<TypeV>
    decreases ts.len() - i,
{
    if i < 0 || i >= ts.len() {
        acc
    } else {
        match ts[i] {
            TypeV::Union(inner) => flatten_from(ts, i + 1, acc + inner),
            t => flatten_from(ts, i + 1, acc.push(t)),
        }
    }
}

/// The members of `ts` from position `i` on that are not in `acc` and do
/// not repeat an earlier one, behind `acc`.
pub open spec fn dedup_from(ts: Seq<TypeV>, i: int, acc: Seq<TypeV>) -> Seq<TypeV>
    decreases ts.len() - i,
{
    if i < 0 || i >= ts.len() {
        acc
    } else if acc.contains(ts[i]) {
        dedup_from(ts, i + 1, acc)
    } else {
        dedup_from(ts, i + 1, acc.push(ts[i]))
    }
}

/// The members of the union of `ts`: the unions among `ts` are opened, and
/// of equal members the first stays.
pub open spec fn union_members(ts: Seq<TypeV>) -> Seq<TypeV> {
    dedup_from(flatten_from(ts, 0, Seq::empty()), 0, Seq::empty())
}

/// The union of `ts` in normal form. The union of one member is that member.
pub open spec fn union_of(ts: Seq<TypeV>) -> TypeV {
    let ms = union_members(ts);
    if ms.len() == 1 {
        ms[0]
    } else {
        TypeV::Union(ms)
    }
}

proof fn lemma_flatten_keeps(ts: Seq<TypeV>, i: int, acc: Seq<TypeV>, x: TypeV)
    requires
        0 <= i,
        acc.contains(x),
    ensures
        flatten_from(ts, i, acc).contains(x),
    decreases ts.len() - i,
{
    if i < ts.len() {
        let k = choose|k: int| 0 <= k < acc.len() && acc[k] == x;
        match ts[i] {
            TypeV::Union(inner) => {
                assert((acc + inner)[k] == x);
                lemma_flatten_keeps(ts, i + 1, acc + inner, x);
            },
            t => {
                assert(acc.push(t)[k] == x);
                lemma_flatten_keeps(ts, i + 1, acc.push(t), x);
            },
        }
    }
}

proof fn lemma_flatten_holds(ts: Seq<TypeV>, i: int, acc: Seq<TypeV>, k: int)
    requires
        0 <= i <= k < ts.len(),
        !(ts[k] is Union),
    ensures
        flatten_from(ts, i, acc).contains(ts[k]),
    decreases ts.len() - i,
{
    if i == k {
        assert(acc.push(ts[k])[acc.len() as int] == ts[k]);
        lemma_flatten_keeps(ts, i + 1, acc.push(ts[k]), ts[k]);
    } else {
        match ts[i] {
            TypeV::Union(inner) => lemma_flatten_holds(ts, i + 1, acc + inner, k),
            t => lemma_flatten_holds(ts, i + 1, acc.push(t), k),
        }
    }
}

proof fn lemma_dedup_grows(ts: Seq<TypeV>, i: int, acc: Seq<TypeV>)
    requires
        0 <= i,
    ensures
        dedup_from(ts, i, acc).len() >= acc.len(),
    decreases ts.len() - i,
{
    if i < ts.len() {
        if acc.contains(ts[i]) {
            lemma_dedup_grows(ts, i + 1, acc);
        } else {
            lemma_dedup_grows(ts, i + 1, acc.push(ts[i]));
        }
    }
}

/// A union never loses all of its members: where one of the types is no
/// union itself, the union of the types has a member.
pub proof fn lemma_union_has_a_member(ts: Seq<TypeV>, k: int)
    requires
        0 <= k < ts.len(),
        !(ts[k] is Union),
    ensures
        union_members(ts).len() > 0,
{
    let flat = flatten_from(ts, 0, Seq::empty());
    lemma_flatten_holds(ts, 0, Seq::empty(), k);
    let j = choose|j: int| 0 <= j < flat.len() && flat[j] == ts[k];
    assert(flat.len() > 0);
    assert(!Seq::<TypeV>::empty().contains(flat[0]));
    lemma_dedup_grows(flat, 1, Seq::<TypeV>::empty().push(flat[0]));
}

/// Whether `v` holds a type equal to `t`.
pub fn contains_type(v: &Vec<Type>, t: &Type) -> (b: bool)
    ensures
        b == types(v@).contains(t@),
{
    let mut i: usize = 0;
    while i < v.len()
        invariant
            i <= v.len(),
            forall|j: int| 0 <= j < i ==> types(v@)[j] != t@,
        decreases v.len() - i,
    {
        if eq_type(&v[i], t) {
            assert(types(v@)[i as int] == t@);
            return true;
        }
        i += 1;
    }
    false
}

fn flatten(ts: Vec<Type>) -> (r: Vec<Type>)
    ensures
        types(r@) == flatten_from(types(ts@), 0, Seq::empty()),
{
    let mut out: Vec<Type> = Vec::new();
    let ghost all = types(ts@);
    assert(types(out@) =~= Seq::empty());
    let mut i: usize = 0;
    while i < ts.len()
        invariant
            i <= ts.len(),
            all == types(ts@),
            flatten_from(all, 0, Seq::empty()) == flatten_from(all, i as int, types(out@)),
        decreases ts.len() - i,
    {
        let ghost before = types(out@);
        match &ts[i] {
            Type::Union(inner) => {
                let mut more = copy_types(inner);
                let ghost added = more@;
                out.append(&mut more);
                assert(types(out@) =~= before + types(added));
                assert(all[i as int] == TypeV::Union(types(inner@)));
            },
            t => {
                out.push(copy_type(t));
                assert(types(out@) =~= before.push(t@));
            },
        }
        i += 1;
    }
    out
}

fn dedup(ts: Vec<Type>) -> (r: Vec<Type>)
    ensures
        types(r@) == dedup_from(types(ts@), 0, Seq::empty()),
{
    let mut out: Vec<Type> = Vec::new();
    let ghost all = types(ts@);
    assert(types(out@) =~= Seq::empty());
    let mut i: usize = 0;
    while i < ts.len()
        invariant
            i <= ts.len(),
            all == types(ts@),
            dedup_from(all, 0, Seq::empty()) == dedup_from(all, i as int, types(out@)),
        decreases ts.len() - i,
    {
        let ghost before = types(out@);
        if !contains_type(&out, &ts[i]) {
            out.push(copy_type(&ts[i]));
            assert(types(out@) =~= before.push(ts@[i as int]@));
        }
        i += 1;
    }
    out
}

impl Type {
    /// The union of `ts` in normal form.
    pub fn union(ts: Vec<Type>) -> (r: Type)
        ensures
            r@ == union_of(types(ts@)),
    {
        let mut ms = dedup(flatten(ts));
        if ms.len() == 1 {
            let t = ms.pop().unwrap();
            t
        } else {
            Type::Union(ms)
        }
    }

    /// The type `any`.
    pub fn any() -> (r: Type)
        ensures
            r@ == TypeV::Keyword(Keyword::Any),
    {
        Type::Keyword(Keyword::Any)
    }

    /// The type `undefined`.
    pub fn undefined() -> (r: Type)
        ensures
            r@ == TypeV::Keyword(Keyword::Undefined),
    {
        Type::Keyword(Keyword::Undefined)
    }
}

impl TypeV {
    /// The type `any`.
    pub open spec fn any() -> TypeV {
        TypeV::Keyword(Keyword::Any)
    }

    /// Whether the type is `any`.
    pub open spec fn is_any(self) -> bool {
        self == TypeV::Keyword(Keyword::Any)
    }

    /// Whether the type is `unknown`.
    pub open spec fn is_unknown(self) -> bool {
        self == TypeV::Keyword(Keyword::Unknown)
    }

    /// Whether the type is the keyword type `k`.
    pub open spec fn is_keyword(self, k: Keyword) -> bool {
        self == TypeV::Keyword(k)
    }

    /// The type with a literal widened to the keyword of its kind.
    pub open spec fn generalize_lit(self) -> TypeV {
        match self {
            TypeV::Lit(LitV::Str(_)) => TypeV::Keyword(Keyword::String),
            TypeV::Lit(LitV::Num(_)) => TypeV::Keyword(Keyword::Number),
            TypeV::Lit(LitV::Bool(_)) => TypeV::Keyword(Keyword::Boolean),
            t => t,
        }
    }

    /// `number`, or a numeric literal.
    pub open spec fn is_number_like(self) -> bool {
        self matches TypeV::Keyword(Keyword::Number) || self matches TypeV::Lit(LitV::Num(_))
    }

    /// `string`, or a string literal.
    pub open spec fn is_string_like(self) -> bool {
        self matches TypeV::Keyword(Keyword::String) || self matches TypeV::Lit(LitV::Str(_))
    }

    /// `boolean`, or a boolean literal.
    pub open spec fn is_boolean_like(self) -> bool {
        self matches TypeV::Keyword(Keyword::Boolean) || self matches TypeV::Lit(LitV::Bool(_))
    }
}

impl Type {
    /// Whether the type is `any`.
    pub fn is_any(&self) -> (b: bool)
        ensures
            b == self@.is_any(),
    {
        match self {
            Type::Keyword(Keyword::Any) => true,
            _ => false,
        }
    }

    /// Whether the type is `unknown`.
    pub fn is_unknown(&self) -> (b: bool)
        ensures
            b == self@.is_unknown(),
    {
        match self {
            Type::Keyword(Keyword::Unknown) => true,
            _ => false,
        }
    }

    /// Whether the type is the keyword type `k`.
    pub fn is_keyword(&self, k: Keyword) -> (b: bool)
        ensures
            b == self@.is_keyword(k),
    {
        match self {
            Type::Keyword(x) => *x == k,
            _ => false,
        }
    }

    /// The type with a literal widened to the keyword of its kind.
    pub fn generalize_lit(self) -> (r: Type)
        ensures
            r@ == self@.generalize_lit(),
    {
        match self {
            Type::Lit(Lit::Str(_)) => Type::Keyword(Keyword::String),
            Type::Lit(Lit::Num(_)) => Type::Keyword(Keyword::Number),
            Type::Lit(Lit::Bool(_)) => Type::Keyword(Keyword::Boolean),
            t => t,
        }
    }

    /// `number`, or a numeric literal.
    pub fn is_number_like(&self) -> (b: bool)
        ensures
            b == self@.is_number_like(),
    {
        match self {
            Type::Keyword(Keyword::Number) => true,
            Type::Lit(Lit::Num(_)) => true,
            _ => false,
        }
    }

    /// `string`, or a string literal.
    pub fn is_string_like(&self) -> (b: bool)
        ensures
            b == self@.is_string_like(),
    {
        match self {
            Type::Keyword(Keyword::String) => true,
            Type::Lit(Lit::Str(_)) => true,
            _ => false,
        }
    }

    /// `boolean`, or a boolean literal.
    pub fn is_boolean_like(&self) -> (b: bool)
        ensures
            b == self@.is_boolean_like(),
    {
        match self {
            Type::Keyword(Keyword::Boolean) => true,
            Type::Lit(Lit::Bool(_)) => true,
            _ => false,
        }
    }
}

} // verus!
