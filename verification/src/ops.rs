//! The executable forms of the operations that the typing rules share.

use vstd::prelude::*;
use crate::ast::{CtorParam, Expr, Pat, PropName};
use crate::copy::{copy_opt_strings, copy_type};
use crate::equal::eq_type;
use crate::errors::{errors, Diag, Error, ErrorV};
use crate::model::{
    all_assignable_from, any_assignable_from, arity_error, assign, assignable, ctor_param_of,
    ctor_params_of, infer_from, infer_type_args, instantiate_class, is_nullish, is_symbol_ident,
    is_type_param, key_of, key_of_expr, key_text, keys_match, name_index_from, negate,
    non_nullish_from, pairs_assignable_from, param_of, params_of, prop_key, remove_nullish,
    required_count, required_from, subst, subst_all, subst_member, subst_members, subst_opt,
    subst_param, subst_params, type_arg_for, type_or_any, unify, unify_members_from,
    unify_pairs_from, PropV,
};
use crate::span::Span;
use crate::types::{
    fn_params, members, opt_type, opt_types, strs, types, FnParam, FnParamV, Key, Keyword, Lit,
    Member, MemberV, Type, TypeV,
};

verus! {

/// The property that a member access names.
pub enum PropRef<'a> {
    Name { span: Span, sym: &'a String },
    Computed(&'a Expr),
}

impl<'a> View for PropRef<'a> {
    type V = PropV;

    open spec fn view(&self) -> PropV {
        match self {
            PropRef::Name { span, sym } => PropV::Name { span: *span, sym: sym@ },
            PropRef::Computed(e) => PropV::Computed(**e),
        }
    }
}

impl<'a> PropRef<'a> {
    /// The place of the property in the source.
    pub fn span(&self) -> (s: Span)
        ensures
            s == self@.span(),
    {
        match self {
            PropRef::Name { span, .. } => *span,
            PropRef::Computed(e) => e.span(),
        }
    }

    /// Whether the property stands between brackets.
    pub fn computed(&self) -> (b: bool)
        ensures
            b == self@.computed(),
    {
        match self {
            PropRef::Name { .. } => false,
            PropRef::Computed(_) => true,
        }
    }

    /// The same property once more.
    pub fn copy(&self) -> (r: PropRef<'a>)
        ensures
            r@ == self@,
    {
        match self {
            PropRef::Name { span, sym } => PropRef::Name { span: *span, sym: *sym },
            PropRef::Computed(e) => PropRef::Computed(*e),
        }
    }

    /// The key that the access asks for.
    pub fn key(&self) -> (k: Key)
        ensures
            k@ == prop_key(self@),
    {
        match self {
            PropRef::Name { sym, .. } => Key::Ident((*sym).clone()),
            PropRef::Computed(e) => expr_key(e, true),
        }
    }
}

/// Whether the name is the word `word`.
pub fn is_word(name: &String, word: &str) -> (b: bool)
    ensures
        b == (name@ == word@),
{
    let w = word.to_owned();
    *name == w
}

/// Whether `e` reads the variable `Symbol`.
pub fn symbol_ident(e: &Expr) -> (b: bool)
    ensures
        b == is_symbol_ident(*e),
{
    match e {
        Expr::Ident { sym, .. } => is_word(sym, "Symbol"),
        _ => false,
    }
}

/// The key that the expression stands for where it is written as the key
/// of a member.
pub fn expr_key(e: &Expr, computed: bool) -> (k: Key)
    ensures
        k@ == key_of_expr(*e, computed),
{
    match e {
        Expr::Ident { sym, .. } => if computed {
            Key::Opaque
        } else {
            Key::Ident(sym.clone())
        },
        Expr::Lit { lit: Lit::Str(s), .. } => Key::Str(s.clone()),
        Expr::Lit { lit: Lit::Num(n), .. } => Key::Num(*n),
        Expr::Member { obj, prop, computed: false, .. } => match &**prop {
            Expr::Ident { sym, .. } => if symbol_ident(obj) {
                Key::Symbol(sym.clone())
            } else {
                Key::Opaque
            },
            _ => Key::Opaque,
        },
        _ => Key::Opaque,
    }
}

/// The key that a property name stands for.
pub fn prop_name_key(p: &PropName) -> (k: Key)
    ensures
        k@ == key_of(*p),
{
    match p {
        PropName::Ident { sym, .. } => Key::Ident(sym.clone()),
        PropName::Str { value, .. } => Key::Str(value.clone()),
        PropName::Num { value, .. } => Key::Num(*value),
        PropName::Computed { expr, .. } => expr_key(expr, true),
    }
}

fn key_text_of(k: &Key) -> (r: Option<&String>)
    ensures
        match r {
            Some(s) => key_text(k@) == Some(s@),
            None => key_text(k@).is_none(),
        },
{
    match k {
        Key::Ident(s) => Some(s),
        Key::Str(s) => Some(s),
        _ => None,
    }
}

/// Whether two keys name the same member.
pub fn same_member(a: &Key, b: &Key) -> (r: bool)
    ensures
        r == keys_match(a@, b@),
{
    match a {
        Key::Ident(s) => match key_text_of(b) {
            Some(t) => *s == *t,
            None => false,
        },
        Key::Str(s) => match key_text_of(b) {
            Some(t) => *s == *t,
            None => false,
        },
        Key::Num(n) => match b {
            Key::Num(m) => *n == *m,
            _ => false,
        },
        Key::Symbol(s) => match b {
            Key::Symbol(t) => *s == *t,
            _ => false,
        },
        Key::Opaque => false,
    }
}

/// A copy of the type `o`, or `any` where there is none.
pub fn or_any(o: &Option<Type>) -> (r: Type)
    ensures
        r@ == type_or_any(opt_type(*o)),
{
    match o {
        Some(t) => copy_type(t),
        None => Type::Keyword(Keyword::Any),
    }
}

/// The parameter that a pattern declares.
pub fn pat_param(p: &Pat) -> (r: FnParam)
    ensures
        r@ == param_of(*p),
    decreases p,
{
    match p {
        Pat::Ident { optional, type_ann, .. } => FnParam {
            required: !*optional,
            ty: or_any(type_ann),
        },
        Pat::Array { type_ann, .. } => FnParam { required: true, ty: or_any(type_ann) },
        Pat::Rest { type_ann, .. } => FnParam { required: false, ty: or_any(type_ann) },
        Pat::Object { type_ann, .. } => FnParam { required: true, ty: or_any(type_ann) },
        Pat::Assign { left, .. } => pat_param(left),
        Pat::Other { .. } => FnParam { required: true, ty: Type::Keyword(Keyword::Any) },
    }
}

/// The parameters that the patterns declare.
pub fn pat_params(ps: &Vec<Pat>) -> (r: Vec<FnParam>)
    ensures
        fn_params(r@) == params_of(ps@),
{
    let mut out: Vec<FnParam> = Vec::new();
    let mut i: usize = 0;
    while i < ps.len()
        invariant
            i <= ps.len(),
            out.len() == i,
            forall|j: int| 0 <= j < i ==> out@[j]@ == param_of(ps@[j]),
        decreases ps.len() - i,
    {
        out.push(pat_param(&ps[i]));
        i += 1;
    }
    assert(fn_params(out@) =~= params_of(ps@));
    out
}

/// The parameter that a parameter of a constructor declares.
pub fn ctor_param(p: &CtorParam) -> (r: FnParam)
    ensures
        r@ == ctor_param_of(*p),
{
    match p {
        CtorParam::Pat(p) => pat_param(p),
        CtorParam::Prop { optional, type_ann, .. } => FnParam {
            required: !*optional,
            ty: or_any(type_ann),
        },
    }
}

/// The parameters that the parameters of a constructor declare.
pub fn ctor_params(ps: &Vec<CtorParam>) -> (r: Vec<FnParam>)
    ensures
        fn_params(r@) == ctor_params_of(ps@),
{
    let mut out: Vec<FnParam> = Vec::new();
    let mut i: usize = 0;
    while i < ps.len()
        invariant
            i <= ps.len(),
            out.len() == i,
            forall|j: int| 0 <= j < i ==> out@[j]@ == ctor_param_of(ps@[j]),
        decreases ps.len() - i,
    {
        out.push(ctor_param(&ps[i]));
        i += 1;
    }
    assert(fn_params(out@) =~= ctor_params_of(ps@));
    out
}

proof fn lemma_required_bound(ps: Seq<FnParamV>, i: int)
    requires
        0 <= i <= ps.len(),
    ensures
        required_from(ps, i) <= ps.len() - i,
    decreases ps.len() - i,
{
    if i < ps.len() {
        lemma_required_bound(ps, i + 1);
    }
}

/// The number of the parameters that a call must give.
pub fn count_required(ps: &Vec<FnParam>) -> (n: usize)
    ensures
        n == required_count(fn_params(ps@)),
        n <= ps.len(),
{
    let mut n: usize = 0;
    let mut i: usize = ps.len();
    while i > 0
        invariant
            i <= ps.len(),
            n == required_from(fn_params(ps@), i as int),
            n <= ps.len() - i,
        decreases i,
    {
        i -= 1;
        if ps[i].required {
            n += 1;
        }
    }
    n
}

/// The error of a call with `actual` arguments to a signature with the
/// parameters `ps`, if their number does not fit.
pub fn check_arity(span: Span, callee: Span, ps: &Vec<FnParam>, actual: usize) -> (r: Option<Error>)
    ensures
        match r {
            Some(e) => arity_error(span, callee, fn_params(ps@), actual as nat) == Some(e@),
            None => arity_error(span, callee, fn_params(ps@), actual as nat).is_none(),
        },
{
    let min = count_required(ps);
    if min <= actual && actual <= ps.len() {
        None
    } else {
        Some(Error::Diag(Diag::WrongParams { span, callee, min, max: ps.len(), actual }))
    }
}

/// The type of `!e` for an operand of type `t`.
pub fn negate_type(t: &Type) -> (r: Type)
    ensures
        r@ == negate(t@),
{
    match t {
        Type::Lit(Lit::Bool(b)) => Type::Lit(Lit::Bool(!*b)),
        Type::Lit(Lit::Num(n)) => Type::Lit(Lit::Bool(!n.is_zero())),
        Type::Lit(Lit::Str(s)) => Type::Lit(Lit::Bool(!s.as_str().is_empty())),
        _ => Type::Keyword(Keyword::Boolean),
    }
}

/// A class where an instance of it is meant: the type of its instances.
pub fn instance_of(t: Type) -> (r: Type)
    ensures
        r@ == instantiate_class(t@),
{
    match t {
        Type::Class { .. } => Type::ClassInstance { cls: Box::new(t), type_args: None },
        _ => t,
    }
}

fn nullish(t: &Type) -> (b: bool)
    ensures
        b == is_nullish(t@),
{
    t.is_keyword(Keyword::Null) || t.is_keyword(Keyword::Undefined)
}

/// The type of `e!` for an operand of type `t`.
pub fn without_nullish(t: Type) -> (r: Type)
    ensures
        r@ == remove_nullish(t@),
{
    match t {
        Type::Union(ts) => {
            let mut out: Vec<Type> = Vec::new();
            assert(types(out@) =~= Seq::empty());
            let mut i: usize = 0;
            while i < ts.len()
                invariant
                    i <= ts.len(),
                    non_nullish_from(types(ts@), 0, Seq::empty()) == non_nullish_from(
                        types(ts@),
                        i as int,
                        types(out@),
                    ),
                decreases ts.len() - i,
            {
                if !nullish(&ts[i]) {
                    let ghost before = types(out@);
                    out.push(copy_type(&ts[i]));
                    assert(types(out@) =~= before.push(ts@[i as int]@));
                }
                i += 1;
            }
            Type::union(out)
        },
        _ => t,
    }
}

/// Whether a value of type `from` may be used where `to` is expected.
pub fn is_assignable(to: &Type, from: &Type) -> (b: bool)
    ensures
        b == assignable(to@, from@),
    decreases to, from, 0nat,
{
    if to.is_any() || to.is_unknown() || from.is_any() || eq_type(to, from) {
        return true;
    }
    let wide = copy_type(from).generalize_lit();
    if eq_type(to, &wide) {
        return true;
    }
    match from {
        Type::Union(fs) => all_assignable(to, fs),
        _ => match to {
            Type::Union(ms) => any_assignable(ms, from),
            Type::Array(a) => match from {
                Type::Array(b) => is_assignable(a, b),
                Type::Tuple(bs) => all_assignable(a, bs),
                _ => false,
            },
            Type::Tuple(xs) => match from {
                Type::Tuple(bs) => {
                    assert(types(xs@).len() == xs.len());
                    assert(types(bs@).len() == bs.len());
                    xs.len() == bs.len() && pairs_assignable(xs, bs)
                },
                _ => false,
            },
            _ => false,
        },
    }
}

fn all_assignable(to: &Type, fs: &Vec<Type>) -> (b: bool)
    ensures
        b == all_assignable_from(to@, types(fs@), 0),
    decreases to, fs, fs.len(),
{
    let mut i: usize = 0;
    while i < fs.len()
        invariant
            i <= fs.len(),
            all_assignable_from(to@, types(fs@), 0) == all_assignable_from(
                to@,
                types(fs@),
                i as int,
            ),
        decreases fs.len() - i,
    {
        assert(types(fs@)[i as int] == fs@[i as int]@);
        if !is_assignable(to, &fs[i]) {
            return false;
        }
        i += 1;
    }
    true
}

fn any_assignable(ms: &Vec<Type>, from: &Type) -> (b: bool)
    ensures
        b == any_assignable_from(types(ms@), from@, 0),
    decreases ms, from, ms.len(),
{
    let mut i: usize = 0;
    while i < ms.len()
        invariant
            i <= ms.len(),
            any_assignable_from(types(ms@), from@, 0) == any_assignable_from(
                types(ms@),
                from@,
                i as int,
            ),
        decreases ms.len() - i,
    {
        assert(types(ms@)[i as int] == ms@[i as int]@);
        if is_assignable(&ms[i], from) {
            return true;
        }
        i += 1;
    }
    false
}

fn pairs_assignable(xs: &Vec<Type>, bs: &Vec<Type>) -> (b: bool)
    ensures
        b == pairs_assignable_from(types(xs@), types(bs@), 0),
    decreases xs, bs, xs.len(),
{
    let mut i: usize = 0;
    while i < xs.len() && i < bs.len()
        invariant
            i <= xs.len(),
            i <= bs.len(),
            pairs_assignable_from(types(xs@), types(bs@), 0) == pairs_assignable_from(
                types(xs@),
                types(bs@),
                i as int,
            ),
        decreases xs.len() - i,
    {
        assert(types(xs@)[i as int] == xs@[i as int]@);
        assert(types(bs@)[i as int] == bs@[i as int]@);
        if !is_assignable(&xs[i], &bs[i]) {
            return false;
        }
        i += 1;
    }
    true
}

/// Assigns a value of type `from` to a place of type `to`.
pub fn assign_type(to: &Type, from: &Type, span: Span) -> (r: Result<(), Error>)
    ensures
        match r {
            Ok(_) => assign(to@, from@, span).is_ok(),
            Err(e) => assign(to@, from@, span) == Err::<(), ErrorV>(e@),
        },
{
    if is_assignable(to, from) {
        Ok(())
    } else {
        Err(Error::Diag(Diag::AssignFailed { span }))
    }
}

fn name_index(names: &Vec<String>, name: &String) -> (r: Option<usize>)
    ensures
        match r {
            Some(i) => name_index_from(strs(names@), name@, 0) == Some(i as int) && i
                < names.len(),
            None => name_index_from(strs(names@), name@, 0).is_none(),
        },
{
    let mut i: usize = 0;
    while i < names.len()
        invariant
            i <= names.len(),
            name_index_from(strs(names@), name@, 0) == name_index_from(
                strs(names@),
                name@,
                i as int,
            ),
        decreases names.len() - i,
    {
        if names[i] == *name {
            return Some(i);
        }
        i += 1;
    }
    None
}

fn arg_for(names: &Vec<String>, args: &Vec<Type>, name: &String) -> (r: Option<Type>)
    ensures
        opt_type(r) == type_arg_for(strs(names@), types(args@), name@),
{
    match name_index(names, name) {
        Some(i) => if i < args.len() {
            Some(copy_type(&args[i]))
        } else {
            Some(Type::Keyword(Keyword::Any))
        },
        None => None,
    }
}

/// The type `t` with the type parameters `names` replaced by `args`.
pub fn substitute(names: &Vec<String>, args: &Vec<Type>, t: &Type) -> (r: Type)
    ensures
        r@ == subst(strs(names@), types(args@), t@),
    decreases t, 0nat,
{
    match t {
        Type::Param { name } => match arg_for(names, args, name) {
            Some(a) => a,
            None => copy_type(t),
        },
        Type::Ref { path, type_args } => {
            assert(strs(path@).len() == path.len());
            if path.len() == 1 && type_args.is_none() {
                assert(strs(path@)[0] == path@[0]@);
                match arg_for(names, args, &path[0]) {
                    Some(a) => {
                        return a;
                    },
                    None => {},
                }
            }
            match type_args {
                Some(ts) => {
                    assert(path.len() == 1 ==> strs(path@)[0] == path@[0]@);
                    Type::Ref {
                        path: crate::copy::copy_strings(path),
                        type_args: Some(substitute_all(names, args, ts)),
                    }
                },
                None => copy_type(t),
            }
        },
        Type::Union(ts) => Type::Union(substitute_all(names, args, ts)),
        Type::Intersection(ts) => Type::Intersection(substitute_all(names, args, ts)),
        Type::Array(e) => Type::Array(Box::new(substitute(names, args, e))),
        Type::Tuple(ts) => Type::Tuple(substitute_all(names, args, ts)),
        Type::TypeLit(ms) => Type::TypeLit(substitute_members(names, args, ms)),
        Type::Function { type_params, params, ret } => Type::Function {
            type_params: copy_opt_strings(type_params),
            params: substitute_params(names, args, params),
            ret: Box::new(substitute(names, args, ret)),
        },
        _ => copy_type(t),
    }
}

fn substitute_all(names: &Vec<String>, args: &Vec<Type>, ts: &Vec<Type>) -> (r: Vec<Type>)
    ensures
        types(r@) == subst_all(strs(names@), types(args@), types(ts@)),
    decreases ts, 1nat,
{
    let mut out: Vec<Type> = Vec::new();
    let mut i: usize = 0;
    while i < ts.len()
        invariant
            i <= ts.len(),
            out.len() == i,
            forall|j: int|
                0 <= j < i ==> out@[j]@ == subst(strs(names@), types(args@), ts@[j]@),
        decreases ts.len() - i,
    {
        out.push(substitute(names, args, &ts[i]));
        i += 1;
    }
    assert(types(out@) =~= subst_all(strs(names@), types(args@), types(ts@)));
    out
}

fn substitute_param(names: &Vec<String>, args: &Vec<Type>, p: &FnParam) -> (r: FnParam)
    ensures
        r@ == subst_param(strs(names@), types(args@), p@),
    decreases p, 0nat,
{
    FnParam { required: p.required, ty: substitute(names, args, &p.ty) }
}

fn substitute_params(names: &Vec<String>, args: &Vec<Type>, ps: &Vec<FnParam>) -> (r: Vec<FnParam>)
    ensures
        fn_params(r@) == subst_params(strs(names@), types(args@), fn_params(ps@)),
    decreases ps, 1nat,
{
    let mut out: Vec<FnParam> = Vec::new();
    let mut i: usize = 0;
    while i < ps.len()
        invariant
            i <= ps.len(),
            out.len() == i,
            forall|j: int|
                0 <= j < i ==> out@[j]@ == subst_param(strs(names@), types(args@), ps@[j]@),
        decreases ps.len() - i,
    {
        out.push(substitute_param(names, args, &ps[i]));
        i += 1;
    }
    assert(fn_params(out@) =~= subst_params(strs(names@), types(args@), fn_params(ps@)));
    out
}

fn substitute_opt(names: &Vec<String>, args: &Vec<Type>, o: &Option<Type>) -> (r: Option<Type>)
    ensures
        opt_type(r) == subst_opt(strs(names@), types(args@), opt_type(*o)),
    decreases o, 1nat,
{
    match o {
        Some(t) => Some(substitute(names, args, t)),
        None => None,
    }
}

fn substitute_member(names: &Vec<String>, args: &Vec<Type>, m: &Member) -> (r: Member)
    ensures
        r@ == subst_member(strs(names@), types(args@), m@),
    decreases m, 0nat,
{
    match m {
        Member::Call { type_params, params, ret } => Member::Call {
            type_params: copy_opt_strings(type_params),
            params: substitute_params(names, args, params),
            ret: substitute_opt(names, args, ret),
        },
        Member::Construct { type_params, params, ret } => Member::Construct {
            type_params: copy_opt_strings(type_params),
            params: substitute_params(names, args, params),
            ret: substitute_opt(names, args, ret),
        },
        Member::Property { key, computed, optional, readonly, is_static, ty } => Member::Property {
            key: key.copy(),
            computed: *computed,
            optional: *optional,
            readonly: *readonly,
            is_static: *is_static,
            ty: substitute_opt(names, args, ty),
        },
        Member::Method { key, computed, optional, is_static, type_params, params, ret } => Member::Method {
            key: key.copy(),
            computed: *computed,
            optional: *optional,
            is_static: *is_static,
            type_params: copy_opt_strings(type_params),
            params: substitute_params(names, args, params),
            ret: substitute_opt(names, args, ret),
        },
        Member::Index { readonly, key_ty, ty } => Member::Index {
            readonly: *readonly,
            key_ty: substitute(names, args, key_ty),
            ty: substitute_opt(names, args, ty),
        },
    }
}

fn substitute_members(names: &Vec<String>, args: &Vec<Type>, ms: &Vec<Member>) -> (r: Vec<Member>)
    ensures
        members(r@) == subst_members(strs(names@), types(args@), members(ms@)),
    decreases ms, 1nat,
{
    let mut out: Vec<Member> = Vec::new();
    let mut i: usize = 0;
    while i < ms.len()
        invariant
            i <= ms.len(),
            out.len() == i,
            forall|j: int|
                0 <= j < i ==> out@[j]@ == subst_member(strs(names@), types(args@), ms@[j]@),
        decreases ms.len() - i,
    {
        out.push(substitute_member(names, args, &ms[i]));
        i += 1;
    }
    assert(members(out@) =~= subst_members(strs(names@), types(args@), members(ms@)));
    out
}

fn type_param(t: &Type, name: &String) -> (b: bool)
    ensures
        b == is_type_param(t@, name@),
{
    match t {
        Type::Param { name: n } => *n == *name,
        Type::Ref { path, type_args } => {
            assert(strs(path@).len() == path.len());
            if path.len() == 1 && type_args.is_none() {
                assert(strs(path@)[0] == path@[0]@);
                let b = path[0] == *name;
                assert(b == (strs(path@) == seq![name@])) by {
                    if b {
                        assert(strs(path@) =~= seq![name@]);
                    } else {
                        assert(seq![name@][0] == name@);
                    }
                }
                b
            } else {
                assert(type_args.is_some() ==> opt_types(*type_args).is_some());
                assert(path.len() != 1 ==> strs(path@).len() != seq![name@].len());
                false
            }
        },
        _ => false,
    }
}

/// The type that the type parameter `name` stands for where a value of
/// type `actual` is given for the declared type `declared`.
pub fn unify_types(name: &String, declared: &Type, actual: &Type) -> (r: Option<Type>)
    ensures
        opt_type(r) == unify(name@, declared@, actual@),
    decreases declared, 0nat,
{
    if type_param(declared, name) {
        return Some(copy_type(actual));
    }
    match declared {
        Type::Array(d) => match actual {
            Type::Array(a) => unify_types(name, d, a),
            _ => None,
        },
        Type::Tuple(ds) => match actual {
            Type::Tuple(xs) => unify_pairs(name, ds, xs),
            _ => None,
        },
        Type::Function { ret: d, .. } => match actual {
            Type::Function { ret: a, .. } => unify_types(name, d, a),
            _ => None,
        },
        Type::Union(ds) => unify_members(name, ds, actual),
        _ => None,
    }
}

fn unify_pairs(name: &String, ds: &Vec<Type>, xs: &Vec<Type>) -> (r: Option<Type>)
    ensures
        opt_type(r) == unify_pairs_from(name@, types(ds@), types(xs@), 0),
    decreases ds, ds.len(),
{
    let mut i: usize = 0;
    while i < ds.len() && i < xs.len()
        invariant
            i <= ds.len(),
            i <= xs.len(),
            unify_pairs_from(name@, types(ds@), types(xs@), 0) == unify_pairs_from(
                name@,
                types(ds@),
                types(xs@),
                i as int,
            ),
        decreases ds.len() - i,
    {
        assert(types(ds@)[i as int] == ds@[i as int]@);
        assert(types(xs@)[i as int] == xs@[i as int]@);
        match unify_types(name, &ds[i], &xs[i]) {
            Some(t) => {
                return Some(t);
            },
            None => {},
        }
        i += 1;
    }
    None
}

fn unify_members(name: &String, ds: &Vec<Type>, actual: &Type) -> (r: Option<Type>)
    ensures
        opt_type(r) == unify_members_from(name@, types(ds@), actual@, 0),
    decreases ds, ds.len(),
{
    let mut i: usize = 0;
    while i < ds.len()
        invariant
            i <= ds.len(),
            unify_members_from(name@, types(ds@), actual@, 0) == unify_members_from(
                name@,
                types(ds@),
                actual@,
                i as int,
            ),
        decreases ds.len() - i,
    {
        assert(types(ds@)[i as int] == ds@[i as int]@);
        match unify_types(name, &ds[i], actual) {
            Some(t) => {
                return Some(t);
            },
            None => {},
        }
        i += 1;
    }
    None
}

fn infer_one(name: &String, params: &Vec<FnParam>, arg_tys: &Vec<Type>) -> (r: Type)
    ensures
        r@ == infer_from(name@, fn_params(params@), types(arg_tys@), 0),
{
    let mut i: usize = 0;
    while i < params.len() && i < arg_tys.len()
        invariant
            i <= params.len(),
            i <= arg_tys.len(),
            infer_from(name@, fn_params(params@), types(arg_tys@), 0) == infer_from(
                name@,
                fn_params(params@),
                types(arg_tys@),
                i as int,
            ),
        decreases params.len() - i,
    {
        assert(fn_params(params@)[i as int] == params@[i as int]@);
        assert(types(arg_tys@)[i as int] == arg_tys@[i as int]@);
        match unify_types(name, &params[i].ty, &arg_tys[i]) {
            Some(t) => {
                return t;
            },
            None => {},
        }
        i += 1;
    }
    Type::Keyword(Keyword::Any)
}

/// The type arguments of a call that gives none.
pub fn infer_args(names: &Vec<String>, params: &Vec<FnParam>, arg_tys: &Vec<Type>) -> (r: Vec<Type>)
    ensures
        types(r@) == infer_type_args(strs(names@), fn_params(params@), types(arg_tys@)),
{
    let mut out: Vec<Type> = Vec::new();
    let mut k: usize = 0;
    while k < names.len()
        invariant
            k <= names.len(),
            out.len() == k,
            forall|j: int|
                0 <= j < k ==> out@[j]@ == infer_from(
                    strs(names@)[j],
                    fn_params(params@),
                    types(arg_tys@),
                    0,
                ),
        decreases names.len() - k,
    {
        out.push(infer_one(&names[k], params, arg_tys));
        k += 1;
    }
    assert(types(out@) =~= infer_type_args(strs(names@), fn_params(params@), types(arg_tys@)));
    out
}

/// Puts the type `t` behind the types `v`.
pub fn push_type(v: &mut Vec<Type>, t: Type)
    ensures
        types(final(v)@) == types(old(v)@).push(t@),
{
    v.push(t);
    assert(types(v@) =~= types(old(v)@).push(t@));
}

/// Puts the member `m` behind the members `v`.
pub fn push_member(v: &mut Vec<Member>, m: Member)
    ensures
        members(final(v)@) == members(old(v)@).push(m@),
{
    v.push(m);
    assert(members(v@) =~= members(old(v)@).push(m@));
}

/// Puts the error `e` behind the errors `v`.
pub fn push_error(v: &mut Vec<Error>, e: Error)
    ensures
        errors(final(v)@) == errors(old(v)@).push(e@),
{
    v.push(e);
    assert(errors(v@) =~= errors(old(v)@).push(e@));
}

/// No types.
pub fn no_types() -> (v: Vec<Type>)
    ensures
        types(v@) == Seq::<TypeV>::empty(),
{
    let v: Vec<Type> = Vec::new();
    assert(types(v@) =~= Seq::empty());
    v
}

/// No members.
pub fn no_members() -> (v: Vec<Member>)
    ensures
        members(v@) == Seq::<MemberV>::empty(),
{
    let v: Vec<Member> = Vec::new();
    assert(members(v@) =~= Seq::empty());
    v
}

/// No errors.
pub fn no_errors() -> (v: Vec<Error>)
    ensures
        errors(v@) == Seq::<ErrorV>::empty(),
{
    let v: Vec<Error> = Vec::new();
    assert(errors(v@) =~= Seq::empty());
    v
}

} // verus!
