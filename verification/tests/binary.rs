use ts_checker::analyzer::{Analyzer, DEFAULT_DEPTH};
use ts_checker::ast::{BinaryOp, Expr, VarKind};
use ts_checker::bin::{bin_type, types_overlap, validate_bin_inner};
use ts_checker::errors::{Diag, Error, Unsupported};
use ts_checker::number::Number;
use ts_checker::scope::Env;
use ts_checker::span::Span;
use ts_checker::state::State;
use ts_checker::types::{Keyword, Lit, Type};

fn sp(lo: u32, hi: u32) -> Span {
    Span { lo, hi }
}

fn kw(k: Keyword) -> Type {
    Type::Keyword(k)
}

fn lit_num(v: i64) -> Type {
    Type::Lit(Lit::Num(Number::from_int(v)))
}

fn lit_str(s: &str) -> Type {
    Type::Lit(Lit::Str(s.to_string()))
}

fn ident(span: Span, name: &str) -> Expr {
    Expr::Ident { span, sym: name.to_string() }
}

const ALL: Span = Span { lo: 0, hi: 9 };
const LEFT: Span = Span { lo: 0, hi: 1 };
const RIGHT: Span = Span { lo: 8, hi: 9 };

/// An analyzer in whose scope `l` and `r` have the given types.
fn with_operands(l: Type, r: Type) -> Analyzer {
    let mut env = Env::new();
    env.declare_var(LEFT, VarKind::Let, "l".to_string(), Some(l), true, false).unwrap();
    env.declare_var(RIGHT, VarKind::Let, "r".to_string(), Some(r), true, false).unwrap();
    Analyzer::new(env, DEFAULT_DEPTH)
}

fn bin(op: BinaryOp) -> Expr {
    Expr::Bin {
        span: ALL,
        op,
        left: Box::new(ident(LEFT, "l")),
        right: Box::new(ident(RIGHT, "r")),
    }
}

fn check(op: BinaryOp, l: Type, r: Type) -> (Result<Type, Error>, Vec<Error>) {
    let mut a = with_operands(l, r);
    let t = a.validate_expr(&bin(op));
    (t, a.state.errors)
}

fn ok(k: Keyword) -> Result<Type, Error> {
    Ok(kw(k))
}

#[test]
fn plus_of_number_like_operands_is_number() {
    for l in [kw(Keyword::Number), lit_num(1)] {
        for r in [kw(Keyword::Number), lit_num(2)] {
            assert_eq!(bin_type(BinaryOp::Add, ALL, l.clone(), r.clone()), ok(Keyword::Number));
            assert_eq!(check(BinaryOp::Add, l.clone(), r), (ok(Keyword::Number), vec![]));
        }
    }
}

#[test]
fn plus_with_a_string_like_operand_is_string() {
    assert_eq!(check(BinaryOp::Add, lit_str("a"), lit_num(1)).0, ok(Keyword::String));
    assert_eq!(check(BinaryOp::Add, kw(Keyword::Number), kw(Keyword::String)).0, ok(Keyword::String));
    assert_eq!(check(BinaryOp::Add, kw(Keyword::Any), kw(Keyword::String)).0, ok(Keyword::String));
    assert_eq!(check(BinaryOp::Add, kw(Keyword::Null), lit_str("a")).0, ok(Keyword::String));
}

#[test]
fn plus_propagates_any() {
    assert_eq!(check(BinaryOp::Add, kw(Keyword::Any), kw(Keyword::Boolean)).0, ok(Keyword::Any));
    assert_eq!(check(BinaryOp::Add, kw(Keyword::Null), kw(Keyword::Any)).0, ok(Keyword::Any));
}

#[test]
fn plus_of_null_or_undefined_fails() {
    let err = Err(Error::Diag(Diag::TS2365 { span: ALL }));
    assert_eq!(check(BinaryOp::Add, kw(Keyword::Null), kw(Keyword::Number)).0, err);
    assert_eq!(check(BinaryOp::Add, kw(Keyword::Boolean), kw(Keyword::Undefined)).0, err);
    assert_eq!(check(BinaryOp::Add, kw(Keyword::Undefined), kw(Keyword::Null)).0, err);
}

#[test]
fn plus_of_boolean_and_number_is_boolean() {
    assert_eq!(check(BinaryOp::Add, kw(Keyword::Boolean), kw(Keyword::Number)).0, ok(Keyword::Boolean));
    assert_eq!(
        check(BinaryOp::Add, kw(Keyword::Number), kw(Keyword::Boolean)).0,
        Err(Error::Diag(Diag::Unsupported { span: ALL, what: Unsupported::Plus }))
    );
}

#[test]
fn unknown_operand_is_fatal() {
    let err = Err(Error::Diag(Diag::Unknown { span: ALL }));
    for op in [
        BinaryOp::Add,
        BinaryOp::Mul,
        BinaryOp::Sub,
        BinaryOp::Lt,
        BinaryOp::In,
        BinaryOp::InstanceOf,
        BinaryOp::LogicalAnd,
        BinaryOp::BitOr,
    ] {
        assert_eq!(check(op, kw(Keyword::Unknown), kw(Keyword::Number)).0, err);
        assert_eq!(check(op, kw(Keyword::Number), kw(Keyword::Unknown)).0, err);
    }
    for op in [BinaryOp::EqEq, BinaryOp::NotEq, BinaryOp::EqEqEq, BinaryOp::NotEqEq] {
        assert_eq!(check(op, kw(Keyword::Unknown), kw(Keyword::Unknown)).0, ok(Keyword::Boolean));
    }
}

#[test]
fn arithmetic_operators_give_number() {
    for op in [
        BinaryOp::Mul,
        BinaryOp::Div,
        BinaryOp::Mod,
        BinaryOp::Sub,
        BinaryOp::LShift,
        BinaryOp::RShift,
        BinaryOp::ZeroFillRShift,
        BinaryOp::BitAnd,
        BinaryOp::BitXor,
        BinaryOp::BitOr,
        BinaryOp::Exp,
    ] {
        assert_eq!(check(op, kw(Keyword::Number), lit_num(2)), (ok(Keyword::Number), vec![]));
        assert_eq!(check(op, kw(Keyword::Any), kw(Keyword::BigInt)), (ok(Keyword::Number), vec![]));
    }
}

#[test]
fn arithmetic_operands_must_be_numbers() {
    assert_eq!(
        check(BinaryOp::Mul, kw(Keyword::String), kw(Keyword::Number)),
        (ok(Keyword::Number), vec![Error::Diag(Diag::TS2362 { span: LEFT })])
    );
    assert_eq!(
        check(BinaryOp::Sub, kw(Keyword::Number), kw(Keyword::Boolean)),
        (ok(Keyword::Number), vec![Error::Diag(Diag::TS2363 { span: RIGHT })])
    );
    assert_eq!(
        check(BinaryOp::Exp, lit_str("a"), kw(Keyword::Object)),
        (
            ok(Keyword::Number),
            vec![
                Error::Diag(Diag::TS2362 { span: LEFT }),
                Error::Diag(Diag::TS2363 { span: RIGHT }),
            ]
        )
    );
    let e = Type::Enum { name: "E".to_string(), is_const: false, members: vec![] };
    let v = Type::EnumVariant { enum_name: "E".to_string(), name: "A".to_string() };
    assert_eq!(check(BinaryOp::Div, e, v), (ok(Keyword::Number), vec![]));
}

#[test]
fn bitwise_operators_forbid_two_booleans() {
    for op in [BinaryOp::BitAnd, BinaryOp::BitXor, BinaryOp::BitOr] {
        assert_eq!(
            check(op, kw(Keyword::Boolean), Type::Lit(Lit::Bool(true))),
            (ok(Keyword::Number), vec![Error::Diag(Diag::TS2447 { span: ALL })])
        );
    }
    assert_eq!(
        check(BinaryOp::Mul, kw(Keyword::Boolean), kw(Keyword::Boolean)),
        (
            ok(Keyword::Number),
            vec![
                Error::Diag(Diag::TS2362 { span: LEFT }),
                Error::Diag(Diag::TS2363 { span: RIGHT }),
            ]
        )
    );
}

#[test]
fn strict_equality_requires_overlap() {
    assert_eq!(check(BinaryOp::EqEqEq, lit_num(1), lit_num(1)), (ok(Keyword::Boolean), vec![]));
    assert_eq!(
        check(BinaryOp::EqEqEq, lit_str("foo"), lit_str("bar")),
        (
            ok(Keyword::Boolean),
            vec![Error::Diag(Diag::NoOverlap { span: ALL, value: false, left: LEFT, right: RIGHT })]
        )
    );
    assert_eq!(
        check(BinaryOp::NotEqEq, lit_num(1), lit_num(2)),
        (
            ok(Keyword::Boolean),
            vec![Error::Diag(Diag::NoOverlap { span: ALL, value: true, left: LEFT, right: RIGHT })]
        )
    );
    assert_eq!(
        check(BinaryOp::EqEqEq, lit_num(1), Type::Union(vec![lit_num(2), lit_num(3)])),
        (ok(Keyword::Boolean), vec![])
    );
    assert_eq!(check(BinaryOp::EqEqEq, lit_num(1), kw(Keyword::Number)), (ok(Keyword::Boolean), vec![]));
    assert_eq!(
        check(BinaryOp::EqEqEq, kw(Keyword::String), kw(Keyword::Number)).1,
        vec![Error::Diag(Diag::NoOverlap { span: ALL, value: false, left: LEFT, right: RIGHT })]
    );
    assert_eq!(check(BinaryOp::EqEq, lit_str("foo"), lit_str("bar")), (ok(Keyword::Boolean), vec![]));
    assert_eq!(check(BinaryOp::NotEq, lit_num(1), lit_num(2)), (ok(Keyword::Boolean), vec![]));
}

#[test]
fn overlap_of_types() {
    assert!(types_overlap(&kw(Keyword::Number), &kw(Keyword::Number)));
    assert!(!types_overlap(&lit_num(1), &lit_num(2)));
    assert!(types_overlap(&lit_num(1), &kw(Keyword::String)));
    assert!(types_overlap(&kw(Keyword::String), &Type::Union(vec![lit_num(1)])));
    assert!(!types_overlap(&kw(Keyword::String), &kw(Keyword::Boolean)));
}

#[test]
fn logical_operators_give_the_right_operand() {
    assert_eq!(check(BinaryOp::LogicalOr, kw(Keyword::Number), lit_str("a")), (Ok(lit_str("a")), vec![]));
    assert_eq!(check(BinaryOp::LogicalAnd, kw(Keyword::Any), lit_str("a")), (ok(Keyword::Any), vec![]));
    assert_eq!(
        check(BinaryOp::LogicalAnd, kw(Keyword::Void), kw(Keyword::Number)),
        (ok(Keyword::Number), vec![Error::Diag(Diag::TS1345 { span: ALL })])
    );
}

#[test]
fn relational_operators_give_boolean() {
    for op in [BinaryOp::Lt, BinaryOp::LtEq, BinaryOp::Gt, BinaryOp::GtEq, BinaryOp::InstanceOf] {
        assert_eq!(check(op, kw(Keyword::Number), lit_str("a")), (ok(Keyword::Boolean), vec![]));
    }
}

#[test]
fn in_operator_checks_both_operands() {
    let object = Type::TypeLit(vec![]);
    assert_eq!(check(BinaryOp::In, lit_str("a"), object.clone()), (ok(Keyword::Boolean), vec![]));
    assert_eq!(
        check(BinaryOp::In, kw(Keyword::Number), Type::Union(vec![object.clone(), kw(Keyword::Object)])),
        (ok(Keyword::Boolean), vec![])
    );
    assert_eq!(
        check(BinaryOp::In, kw(Keyword::Boolean), object.clone()),
        (ok(Keyword::Boolean), vec![Error::Diag(Diag::TS2360 { span: LEFT })])
    );
    assert_eq!(
        check(BinaryOp::In, lit_num(0), kw(Keyword::Number)),
        (ok(Keyword::Boolean), vec![Error::Diag(Diag::TS2361 { span: RIGHT })])
    );
    assert_eq!(
        check(BinaryOp::In, kw(Keyword::Object), Type::Union(vec![object, kw(Keyword::String)])),
        (
            ok(Keyword::Boolean),
            vec![
                Error::Diag(Diag::TS2360 { span: LEFT }),
                Error::Diag(Diag::TS2361 { span: RIGHT }),
            ]
        )
    );
}

#[test]
fn nullish_coalescing_is_unsupported() {
    assert_eq!(
        check(BinaryOp::NullishCoalescing, kw(Keyword::Number), kw(Keyword::Number)).0,
        Err(Error::Diag(Diag::Unsupported { span: ALL, what: Unsupported::NullishCoalescing }))
    );
}

#[test]
fn failed_operands_fail_the_expression() {
    let mut a = Analyzer::new(Env::new(), DEFAULT_DEPTH);
    let e = Expr::Bin {
        span: ALL,
        op: BinaryOp::Mul,
        left: Box::new(ident(LEFT, "l")),
        right: Box::new(ident(RIGHT, "r")),
    };
    assert_eq!(
        a.validate_expr(&e),
        Err(Error::Errors {
            span: ALL,
            errors: vec![
                Error::Diag(Diag::UndefinedSymbol { span: LEFT }),
                Error::Diag(Diag::UndefinedSymbol { span: RIGHT }),
            ],
        })
    );
    let e = Expr::Bin {
        span: ALL,
        op: BinaryOp::LogicalOr,
        left: Box::new(Expr::Unary {
            span: LEFT,
            op: ts_checker::ast::UnaryOp::Void,
            arg: Box::new(Expr::Null { span: LEFT }),
        }),
        right: Box::new(ident(RIGHT, "r")),
    };
    assert_eq!(
        a.validate_expr(&e),
        Err(Error::Errors {
            span: ALL,
            errors: vec![Error::Diag(Diag::UndefinedSymbol { span: RIGHT })],
        })
    );
    assert_eq!(a.state.errors, vec![]);
}

#[test]
fn diagnostics_of_one_resolved_operand() {
    let mut st = State::new();
    validate_bin_inner(&mut st, ALL, BinaryOp::LogicalOr, LEFT, RIGHT, Some(&kw(Keyword::Void)), None);
    validate_bin_inner(&mut st, ALL, BinaryOp::In, LEFT, RIGHT, None, Some(&kw(Keyword::String)));
    validate_bin_inner(&mut st, ALL, BinaryOp::Mul, LEFT, RIGHT, Some(&kw(Keyword::String)), None);
    validate_bin_inner(&mut st, ALL, BinaryOp::EqEqEq, LEFT, RIGHT, Some(&lit_num(1)), None);
    assert_eq!(
        st.errors,
        vec![
            Error::Diag(Diag::TS1345 { span: ALL }),
            Error::Diag(Diag::TS2361 { span: RIGHT }),
        ]
    );
}

#[test]
fn inference_adds_its_diagnostics_behind_the_recorded_ones() {
    let mut a = with_operands(kw(Keyword::String), kw(Keyword::Number));
    let before = Diag::UselessSeqExpr { span: sp(40, 41) };
    a.state.report(Error::Diag(before));
    assert_eq!(a.validate_expr(&bin(BinaryOp::Mul)), ok(Keyword::Number));
    assert_eq!(a.state.errors.len(), 2);
    assert_eq!(a.state.errors[0], Error::Diag(before));
    assert_eq!(a.validate_expr(&ident(sp(50, 51), "missing")).is_err(), true);
    assert_eq!(a.state.errors.len(), 2);
    assert_eq!(a.state.errors[0], Error::Diag(before));
}
