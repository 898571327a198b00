//! The rules of the binary operators on the types of their operands.

use vstd::prelude::*;
use crate::ast::BinaryOp;
use crate::equal::eq_type;
use crate::errors::{Diag, Error, ErrorV, Unsupported, result_view};
use crate::span::Span;
use crate::state::State;
use crate::types::{types, Keyword, Lit, LitV, Type, TypeV};

verus! {

/// Whether a value of type `l` may be a value of type `r`, as far as `l`
/// tells: a literal meets everything but another literal, and a union is
/// taken to meet everything.
pub open spec fn overlaps_from(l: TypeV, r: TypeV) -> bool {
    match l {
        TypeV::Lit(a) => match r {
            TypeV::Lit(b) => a == b,
            _ => true,
        },
        TypeV::Union(_) => true,
        _ => false,
    }
}

/// Whether the types of the two operands of a strict comparison overlap.
pub open spec fn overlaps(l: TypeV, r: TypeV) -> bool {
    l == r || overlaps_from(l, r) || overlaps_from(r, l)
}

/// Whether `t` is the type of an operand of an arithmetic operator.
pub open spec fn is_numeric_operand(t: TypeV) -> bool {
    match t {
        TypeV::Keyword(Keyword::Any) => true,
        TypeV::Keyword(Keyword::Number) => true,
        TypeV::Keyword(Keyword::BigInt) => true,
        TypeV::Lit(LitV::Num(_)) => true,
        TypeV::Enum { .. } => true,
        TypeV::EnumVariant { .. } => true,
        _ => false,
    }
}

/// Whether `t` is the type of a left operand of `in`.
pub open spec fn is_key_operand(t: TypeV) -> bool {
    match t {
        TypeV::Keyword(Keyword::String) => true,
        TypeV::Lit(LitV::Str(_)) => true,
        _ => is_numeric_operand(t),
    }
}

/// Whether `t` is the type of a right operand of `in`: an object type, or
/// a union of such.
pub open spec fn is_object_like(t: TypeV) -> bool
    decreases t, 0nat,
{
    match t {
        TypeV::Keyword(Keyword::Any) => true,
        TypeV::Keyword(Keyword::Object) => true,
        TypeV::TypeLit(_) => true,
        TypeV::Param { .. } => true,
        TypeV::Array(_) => true,
        TypeV::Tuple(_) => true,
        TypeV::Interface { .. } => true,
        TypeV::Union(ts) => all_object_like_from(ts, 0),
        _ => false,
    }
}

/// Whether the types from position `i` on are all object types.
pub open spec fn all_object_like_from(ts: Seq<TypeV>, i: int) -> bool
    decreases ts, ts.len() - i,
{
    if i < 0 || i >= ts.len() {
        true
    } else {
        is_object_like(ts[i]) && all_object_like_from(ts, i + 1)
    }
}

/// Whether the operator is `===` or `!==`.
pub open spec fn is_strict_equality(op: BinaryOp) -> bool {
    op == BinaryOp::EqEqEq || op == BinaryOp::NotEqEq
}

/// Whether the operator is `||` or `&&`.
pub open spec fn is_logical(op: BinaryOp) -> bool {
    op == BinaryOp::LogicalOr || op == BinaryOp::LogicalAnd
}

/// Whether the operator is `&`, `^` or `|`.
pub open spec fn is_bitwise(op: BinaryOp) -> bool {
    op == BinaryOp::BitAnd || op == BinaryOp::BitXor || op == BinaryOp::BitOr
}

/// The operators whose operands must be numbers.
pub open spec fn is_arithmetic(op: BinaryOp) -> bool {
    match op {
        BinaryOp::Mul => true,
        BinaryOp::Div => true,
        BinaryOp::Mod => true,
        BinaryOp::Sub => true,
        BinaryOp::LShift => true,
        BinaryOp::RShift => true,
        BinaryOp::ZeroFillRShift => true,
        BinaryOp::BitAnd => true,
        BinaryOp::BitXor => true,
        BinaryOp::BitOr => true,
        BinaryOp::Exp => true,
        _ => false,
    }
}

/// The one diagnostic `d`.
pub open spec fn one(d: Diag) -> Seq<ErrorV> {
    seq![ErrorV::Diag(d)]
}

/// The diagnostics of the operands of an arithmetic operator.
pub open spec fn arithmetic_diags(
    op: BinaryOp,
    span: Span,
    left: Span,
    right: Span,
    l: TypeV,
    r: TypeV,
) -> Seq<ErrorV> {
    if is_bitwise(op) && l.is_boolean_like() && r.is_boolean_like() {
        one(Diag::TS2447 { span })
    } else {
        (if is_numeric_operand(l) {
            Seq::empty()
        } else {
            one(Diag::TS2362 { span: left })
        }) + (if is_numeric_operand(r) {
            Seq::empty()
        } else {
            one(Diag::TS2363 { span: right })
        })
    }
}

/// The recoverable diagnostics of a binary expression at `span` whose
/// operands, at `left` and `right`, have the types `lt` and `rt`. An operand
/// whose inference failed has no type.
pub open spec fn bin_diags(
    op: BinaryOp,
    span: Span,
    left: Span,
    right: Span,
    lt: Option<TypeV>,
    rt: Option<TypeV>,
) -> Seq<ErrorV> {
    if is_strict_equality(op) {
        if lt.is_some() && rt.is_some() && !overlaps(lt.unwrap(), rt.unwrap()) {
            one(Diag::NoOverlap { span, value: op != BinaryOp::EqEqEq, left, right })
        } else {
            Seq::empty()
        }
    } else if is_logical(op) {
        if lt == Some(TypeV::Keyword(Keyword::Void)) {
            one(Diag::TS1345 { span })
        } else {
            Seq::empty()
        }
    } else if is_arithmetic(op) {
        if lt.is_some() && rt.is_some() {
            arithmetic_diags(op, span, left, right, lt.unwrap(), rt.unwrap())
        } else {
            Seq::empty()
        }
    } else if op == BinaryOp::In {
        (if lt.is_some() && !is_key_operand(lt.unwrap()) {
            one(Diag::TS2360 { span: left })
        } else {
            Seq::empty()
        }) + (if rt.is_some() && !is_object_like(rt.unwrap()) {
            one(Diag::TS2361 { span: right })
        } else {
            Seq::empty()
        })
    } else {
        Seq::empty()
    }
}

/// The keyword type `k` as the result of an inference.
pub open spec fn keyword(k: Keyword) -> Result<TypeV, ErrorV> {
    Ok(TypeV::Keyword(k))
}

/// The type of `l + r`.
pub open spec fn plus_type(span: Span, l: TypeV, r: TypeV) -> Result<TypeV, ErrorV> {
    if l.is_string_like() || r.is_string_like() {
        keyword(Keyword::String)
    } else if l.is_number_like() && r.is_number_like() {
        keyword(Keyword::Number)
    } else if l.is_any() || r.is_any() {
        keyword(Keyword::Any)
    } else if crate::model::is_nullish(l) || crate::model::is_nullish(r) {
        Err(ErrorV::Diag(Diag::TS2365 { span }))
    } else if l == TypeV::Keyword(Keyword::Boolean) && r == TypeV::Keyword(Keyword::Number) {
        keyword(Keyword::Boolean)
    } else {
        Err(ErrorV::Diag(Diag::Unsupported { span, what: Unsupported::Plus }))
    }
}

/// Whether the operator may not be applied to an operand of type `unknown`.
pub open spec fn rejects_unknown(op: BinaryOp) -> bool {
    match op {
        BinaryOp::EqEq => false,
        BinaryOp::NotEq => false,
        BinaryOp::EqEqEq => false,
        BinaryOp::NotEqEq => false,
        BinaryOp::NullishCoalescing => false,
        _ => true,
    }
}

/// The type of a binary expression at `span` whose operands have the types
/// `l` and `r`.
pub open spec fn bin_result(op: BinaryOp, span: Span, l: TypeV, r: TypeV) -> Result<
    TypeV,
    ErrorV,
> {
    if op == BinaryOp::NullishCoalescing {
        Err(ErrorV::Diag(Diag::Unsupported { span, what: Unsupported::NullishCoalescing }))
    } else if rejects_unknown(op) && (l.is_unknown() || r.is_unknown()) {
        Err(ErrorV::Diag(Diag::Unknown { span }))
    } else if op == BinaryOp::Add {
        plus_type(span, l, r)
    } else if is_arithmetic(op) {
        keyword(Keyword::Number)
    } else if is_logical(op) {
        if l.is_any() {
            keyword(Keyword::Any)
        } else {
            Ok(r)
        }
    } else {
        keyword(Keyword::Boolean)
    }
}

/// The sum of two operands that are numbers or numeric literals is a
/// number.
pub proof fn lemma_plus_of_numbers(span: Span, l: TypeV, r: TypeV)
    requires
        l.is_number_like(),
        r.is_number_like(),
    ensures
        bin_result(BinaryOp::Add, span, l, r) == Ok::<TypeV, ErrorV>(TypeV::Keyword(Keyword::Number)),
{
}

fn overlaps_from_exec(l: &Type, r: &Type) -> (b: bool)
    ensures
        b == overlaps_from(l@, r@),
{
    match l {
        Type::Lit(a) => match r {
            Type::Lit(b) => a.same(b),
            _ => true,
        },
        Type::Union(_) => true,
        _ => false,
    }
}

/// Whether the types of the two operands of a strict comparison overlap.
pub fn types_overlap(l: &Type, r: &Type) -> (b: bool)
    ensures
        b == overlaps(l@, r@),
{
    eq_type(l, r) || overlaps_from_exec(l, r) || overlaps_from_exec(r, l)
}

/// Whether `t` is the type of an operand of an arithmetic operator.
pub fn numeric_operand(t: &Type) -> (b: bool)
    ensures
        b == is_numeric_operand(t@),
{
    match t {
        Type::Keyword(Keyword::Any) => true,
        Type::Keyword(Keyword::Number) => true,
        Type::Keyword(Keyword::BigInt) => true,
        Type::Lit(Lit::Num(_)) => true,
        Type::Enum { .. } => true,
        Type::EnumVariant { .. } => true,
        _ => false,
    }
}

/// Whether `t` is the type of a left operand of `in`.
pub fn key_operand(t: &Type) -> (b: bool)
    ensures
        b == is_key_operand(t@),
{
    match t {
        Type::Keyword(Keyword::String) => true,
        Type::Lit(Lit::Str(_)) => true,
        _ => numeric_operand(t),
    }
}

/// Whether `t` is the type of a right operand of `in`.
pub fn object_like(t: &Type) -> (b: bool)
    ensures
        b == is_object_like(t@),
    decreases t, 0nat,
{
    match t {
        Type::Keyword(Keyword::Any) => true,
        Type::Keyword(Keyword::Object) => true,
        Type::TypeLit(_) => true,
        Type::Param { .. } => true,
        Type::Array(_) => true,
        Type::Tuple(_) => true,
        Type::Interface { .. } => true,
        Type::Union(ts) => all_object_like(ts),
        _ => false,
    }
}

fn all_object_like(ts: &Vec<Type>) -> (b: bool)
    ensures
        b == all_object_like_from(types(ts@), 0),
    decreases ts, 1nat,
{
    let mut i: usize = 0;
    while i < ts.len()
        invariant
            i <= ts.len(),
            all_object_like_from(types(ts@), 0) == all_object_like_from(types(ts@), i as int),
        decreases ts.len() - i,
    {
        if !object_like(&ts[i]) {
            return false;
        }
        i += 1;
    }
    true
}

fn strict_equality(op: BinaryOp) -> (b: bool)
    ensures
        b == is_strict_equality(op),
{
    match op {
        BinaryOp::EqEqEq => true,
        BinaryOp::NotEqEq => true,
        _ => false,
    }
}

fn logical(op: BinaryOp) -> (b: bool)
    ensures
        b == is_logical(op),
{
    match op {
        BinaryOp::LogicalOr => true,
        BinaryOp::LogicalAnd => true,
        _ => false,
    }
}

fn bitwise(op: BinaryOp) -> (b: bool)
    ensures
        b == is_bitwise(op),
{
    match op {
        BinaryOp::BitAnd => true,
        BinaryOp::BitXor => true,
        BinaryOp::BitOr => true,
        _ => false,
    }
}

fn arithmetic(op: BinaryOp) -> (b: bool)
    ensures
        b == is_arithmetic(op),
{
    match op {
        BinaryOp::Mul => true,
        BinaryOp::Div => true,
        BinaryOp::Mod => true,
        BinaryOp::Sub => true,
        BinaryOp::LShift => true,
        BinaryOp::RShift => true,
        BinaryOp::ZeroFillRShift => true,
        BinaryOp::BitAnd => true,
        BinaryOp::BitXor => true,
        BinaryOp::BitOr => true,
        BinaryOp::Exp => true,
        _ => false,
    }
}

/// Records the recoverable diagnostics of a binary expression.
pub fn validate_bin_inner(
    st: &mut State,
    span: Span,
    op: BinaryOp,
    left: Span,
    right: Span,
    lt: Option<&Type>,
    rt: Option<&Type>,
)
    ensures
        final(st)@ == old(st)@.report_all(
            bin_diags(
                op,
                span,
                left,
                right,
                match lt {
                    Some(t) => Some(t@),
                    None => None,
                },
                match rt {
                    Some(t) => Some(t@),
                    None => None,
                },
            ),
        ),
{
    let ghost before = st@;
    assert(before.report_all(Seq::empty()) == before) by {
        assert(before.errors + Seq::<ErrorV>::empty() =~= before.errors);
    }
    if strict_equality(op) {
        match (lt, rt) {
            (Some(l), Some(r)) => {
                if !types_overlap(l, r) {
                    let value = match op {
                        BinaryOp::EqEqEq => false,
                        _ => true,
                    };
                    st.report(Error::Diag(Diag::NoOverlap { span, value, left, right }));
                    assert(st@.errors =~= before.errors + one(
                        Diag::NoOverlap { span, value, left, right },
                    ));
                }
            },
            _ => {},
        }
    } else if logical(op) {
        match lt {
            Some(l) => {
                if l.is_keyword(Keyword::Void) {
                    st.report(Error::Diag(Diag::TS1345 { span }));
                    assert(st@.errors =~= before.errors + one(Diag::TS1345 { span }));
                }
            },
            None => {},
        }
    } else if arithmetic(op) {
        match (lt, rt) {
            (Some(l), Some(r)) => {
                if bitwise(op) && l.is_boolean_like() && r.is_boolean_like() {
                    st.report(Error::Diag(Diag::TS2447 { span }));
                    assert(st@.errors =~= before.errors + one(Diag::TS2447 { span }));
                } else {
                    let ghost mut said: Seq<ErrorV> = Seq::empty();
                    if !numeric_operand(l) {
                        st.report(Error::Diag(Diag::TS2362 { span: left }));
                        proof {
                            said = one(Diag::TS2362 { span: left });
                        }
                    }
                    assert(st@.errors =~= before.errors + said);
                    if !numeric_operand(r) {
                        st.report(Error::Diag(Diag::TS2363 { span: right }));
                        proof {
                            said = said + one(Diag::TS2363 { span: right });
                        }
                    }
                    assert(st@.errors =~= before.errors + said);
                    assert(said =~= arithmetic_diags(op, span, left, right, l@, r@));
                }
            },
            _ => {},
        }
    } else {
        match op {
            BinaryOp::In => {
                let ghost mut said: Seq<ErrorV> = Seq::empty();
                match lt {
                    Some(l) => {
                        if !key_operand(l) {
                            st.report(Error::Diag(Diag::TS2360 { span: left }));
                            proof {
                                said = one(Diag::TS2360 { span: left });
                            }
                        }
                    },
                    None => {},
                }
                assert(st@.errors =~= before.errors + said);
                let ghost first = said;
                match rt {
                    Some(r) => {
                        if !object_like(r) {
                            st.report(Error::Diag(Diag::TS2361 { span: right }));
                            proof {
                                said = said + one(Diag::TS2361 { span: right });
                            }
                        }
                    },
                    None => {},
                }
                assert(st@.errors =~= before.errors + said);
                assert(said =~= first + (if rt.is_some() && !is_object_like(rt.unwrap()@) {
                    one(Diag::TS2361 { span: right })
                } else {
                    Seq::empty()
                }));
            },
            _ => {},
        }
    }
}

fn plus(span: Span, l: Type, r: Type) -> (res: Result<Type, Error>)
    ensures
        result_view(res) == plus_type(span, l@, r@),
{
    if l.is_string_like() || r.is_string_like() {
        Ok(Type::Keyword(Keyword::String))
    } else if l.is_number_like() && r.is_number_like() {
        Ok(Type::Keyword(Keyword::Number))
    } else if l.is_any() || r.is_any() {
        Ok(Type::Keyword(Keyword::Any))
    } else if l.is_keyword(Keyword::Null) || l.is_keyword(Keyword::Undefined) || r.is_keyword(
        Keyword::Null,
    ) || r.is_keyword(Keyword::Undefined) {
        Err(Error::Diag(Diag::TS2365 { span }))
    } else if l.is_keyword(Keyword::Boolean) && r.is_keyword(Keyword::Number) {
        Ok(Type::Keyword(Keyword::Boolean))
    } else {
        Err(Error::Diag(Diag::Unsupported { span, what: Unsupported::Plus }))
    }
}

/// The type of a binary expression at `span` whose operands have the types
/// `l` and `r`.
pub fn bin_type(op: BinaryOp, span: Span, l: Type, r: Type) -> (res: Result<Type, Error>)
    ensures
        result_view(res) == bin_result(op, span, l@, r@),
{
    let rejects = match op {
        BinaryOp::EqEq => false,
        BinaryOp::NotEq => false,
        BinaryOp::EqEqEq => false,
        BinaryOp::NotEqEq => false,
        BinaryOp::NullishCoalescing => false,
        _ => true,
    };
    match op {
        BinaryOp::NullishCoalescing => {
            return Err(
                Error::Diag(Diag::Unsupported { span, what: Unsupported::NullishCoalescing }),
            );
        },
        _ => {},
    }
    if rejects && (l.is_unknown() || r.is_unknown()) {
        return Err(Error::Diag(Diag::Unknown { span }));
    }
    match op {
        BinaryOp::Add => plus(span, l, r),
        _ => {
            if arithmetic(op) {
                Ok(Type::Keyword(Keyword::Number))
            } else if logical(op) {
                if l.is_any() {
                    Ok(Type::Keyword(Keyword::Any))
                } else {
                    Ok(r)
                }
            } else {
                Ok(Type::Keyword(Keyword::Boolean))
            }
        },
    }
}

} // verus!
