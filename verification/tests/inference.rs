use ts_checker::analyzer::{Analyzer, DEFAULT_DEPTH};
use ts_checker::ast::{ArrayElem, BinaryOp, Expr, UnaryOp, VarKind};
use ts_checker::errors::{Diag, Error, Unsupported};
use ts_checker::model::TypeOfMode;
use ts_checker::number::Number;
use ts_checker::scope::{Env, Named, ScopeKind};
use ts_checker::span::Span;
use ts_checker::types::{Keyword, Lit, Type};

fn sp(lo: u32, hi: u32) -> Span {
    Span { lo, hi }
}

fn num(span: Span, v: i64) -> Expr {
    Expr::Lit { span, lit: Lit::Num(Number::from_int(v)) }
}

fn text(span: Span, s: &str) -> Expr {
    Expr::Lit { span, lit: Lit::Str(s.to_string()) }
}

fn boolean(span: Span, b: bool) -> Expr {
    Expr::Lit { span, lit: Lit::Bool(b) }
}

fn ident(span: Span, name: &str) -> Expr {
    Expr::Ident { span, sym: name.to_string() }
}

fn analyzer() -> Analyzer {
    Analyzer::new(Env::new(), DEFAULT_DEPTH)
}

#[test]
fn empty_array_literal_is_the_empty_tuple() {
    let mut a = analyzer();
    let e = Expr::Array { span: sp(0, 2), elems: vec![] };
    assert_eq!(a.validate_expr(&e), Ok(Type::Tuple(vec![])));
}

#[test]
fn array_literal_is_the_tuple_of_its_element_types() {
    let mut a = analyzer();
    let e = Expr::Array {
        span: sp(0, 14),
        elems: vec![
            ArrayElem::Item(num(sp(1, 2), 1)),
            ArrayElem::Item(text(sp(3, 6), "a")),
            ArrayElem::Item(boolean(sp(7, 11), true)),
        ],
    };
    assert_eq!(
        a.validate_expr(&e),
        Ok(Type::Tuple(vec![
            Type::Lit(Lit::Num(Number::from_int(1))),
            Type::Lit(Lit::Str("a".to_string())),
            Type::Lit(Lit::Bool(true)),
        ]))
    );
}

#[test]
fn array_hole_is_undefined() {
    let mut a = analyzer();
    let e = Expr::Array { span: sp(0, 3), elems: vec![ArrayElem::Hole { span: sp(1, 1) }] };
    assert_eq!(a.validate_expr(&e), Ok(Type::Tuple(vec![Type::Keyword(Keyword::Undefined)])));
}

#[test]
fn array_spread_is_unsupported() {
    let mut a = analyzer();
    let e = Expr::Array {
        span: sp(0, 8),
        elems: vec![ArrayElem::Spread(ident(sp(4, 5), "undefined"))],
    };
    assert_eq!(
        a.validate_expr(&e),
        Err(Error::Diag(Diag::Unsupported { span: sp(4, 5), what: Unsupported::ArraySpread }))
    );
}

#[test]
fn sum_of_two_numbers_is_a_number() {
    let mut a = analyzer();
    let e = Expr::Bin {
        span: sp(0, 5),
        op: BinaryOp::Add,
        left: Box::new(num(sp(0, 1), 1)),
        right: Box::new(num(sp(4, 5), 2)),
    };
    assert_eq!(a.validate_expr(&e), Ok(Type::Keyword(Keyword::Number)));
}

#[test]
fn self_reference_in_initializer_fails() {
    let mut env = Env::new();
    env.add_declaring(&vec!["a".to_string()]);
    let mut a = Analyzer::new(env, DEFAULT_DEPTH);
    let e = ident(sp(8, 9), "a");
    assert_eq!(
        a.validate_expr(&e),
        Err(Error::Diag(Diag::ReferencedInInit { span: sp(8, 9) }))
    );
}

#[test]
fn self_reference_in_permissive_context_is_any() {
    let mut env = Env::new();
    env.add_declaring(&vec!["a".to_string()]);
    env.allow_ref_declaring = true;
    let mut a = Analyzer::new(env, DEFAULT_DEPTH);
    let e = ident(sp(8, 9), "a");
    assert_eq!(a.validate_expr(&e), Ok(Type::Keyword(Keyword::Any)));
}

#[test]
fn negation_of_literals() {
    let mut a = analyzer();
    let not = |arg: Expr| Expr::Unary { span: sp(0, 9), op: UnaryOp::Bang, arg: Box::new(arg) };
    assert_eq!(a.validate_expr(&not(boolean(sp(1, 5), true))), Ok(Type::Lit(Lit::Bool(false))));
    assert_eq!(a.validate_expr(&not(num(sp(1, 2), 0))), Ok(Type::Lit(Lit::Bool(false))));
    assert_eq!(a.validate_expr(&not(num(sp(1, 2), 7))), Ok(Type::Lit(Lit::Bool(true))));
    assert_eq!(a.validate_expr(&not(text(sp(1, 3), ""))), Ok(Type::Lit(Lit::Bool(false))));
    assert_eq!(a.validate_expr(&not(text(sp(1, 4), "x"))), Ok(Type::Lit(Lit::Bool(true))));
    assert_eq!(
        a.validate_expr_with_extra(&not(ident(sp(1, 10), "undefined")), TypeOfMode::RValue, None),
        Ok(Type::Keyword(Keyword::Boolean))
    );
}

fn kw(k: Keyword) -> Type {
    Type::Keyword(k)
}

fn diag(d: Diag) -> Result<Type, Error> {
    Err(Error::Diag(d))
}

fn unary(op: UnaryOp, arg: Expr) -> Expr {
    Expr::Unary { span: sp(0, 20), op, arg: Box::new(arg) }
}

fn env_with_var(name: &str, ty: Option<Type>) -> Env {
    let mut env = Env::new();
    env.declare_var(sp(0, 1), VarKind::Let, name.to_string(), ty, true, false)
        .unwrap();
    env
}

#[test]
fn literals_have_their_own_type() {
    let mut a = analyzer();
    assert_eq!(a.validate_expr(&num(sp(0, 1), 3)), Ok(Type::Lit(Lit::Num(Number::from_int(3)))));
    assert_eq!(a.validate_expr(&text(sp(0, 3), "x")), Ok(Type::Lit(Lit::Str("x".to_string()))));
    assert_eq!(a.validate_expr(&boolean(sp(0, 5), false)), Ok(Type::Lit(Lit::Bool(false))));
    assert_eq!(a.validate_expr(&Expr::Null { span: sp(0, 4) }), Ok(kw(Keyword::Null)));
    assert_eq!(a.validate_expr(&ident(sp(0, 9), "undefined")), Ok(kw(Keyword::Undefined)));
}

#[test]
fn template_without_expressions_is_a_string_literal() {
    let mut a = analyzer();
    let plain = Expr::Tpl { span: sp(0, 7), text: "hello".to_string(), exprs: vec![] };
    assert_eq!(a.validate_expr(&plain), Ok(Type::Lit(Lit::Str("hello".to_string()))));
    let mixed =
        Expr::Tpl { span: sp(0, 12), text: "a".to_string(), exprs: vec![num(sp(4, 5), 1)] };
    assert_eq!(a.validate_expr(&mixed), Ok(kw(Keyword::String)));
}

#[test]
fn unary_operators_have_the_type_of_their_operator() {
    let mut a = analyzer();
    let one = || num(sp(7, 8), 1);
    assert_eq!(a.validate_expr(&unary(UnaryOp::TypeOf, one())), Ok(kw(Keyword::String)));
    assert_eq!(a.validate_expr(&unary(UnaryOp::Delete, one())), Ok(kw(Keyword::Boolean)));
    assert_eq!(a.validate_expr(&unary(UnaryOp::Void, one())), Ok(kw(Keyword::Undefined)));
    assert_eq!(a.validate_expr(&unary(UnaryOp::Minus, one())), Ok(kw(Keyword::Number)));
    assert_eq!(a.validate_expr(&unary(UnaryOp::Plus, one())), Ok(kw(Keyword::Number)));
    assert_eq!(a.validate_expr(&unary(UnaryOp::Tilde, one())), Ok(kw(Keyword::Number)));
}

#[test]
fn unary_operator_on_unknown_fails() {
    let env = env_with_var("u", Some(kw(Keyword::Unknown)));
    let ops = [
        UnaryOp::TypeOf,
        UnaryOp::Delete,
        UnaryOp::Void,
        UnaryOp::Minus,
        UnaryOp::Plus,
        UnaryOp::Tilde,
        UnaryOp::Bang,
    ];
    let mut a = Analyzer::new(env, DEFAULT_DEPTH);
    for op in ops {
        assert_eq!(
            a.validate_expr(&unary(op, ident(sp(3, 4), "u"))),
            diag(Diag::Unknown { span: sp(3, 4) })
        );
    }
}

#[test]
fn conditional_is_the_union_of_its_branches() {
    let mut a = analyzer();
    let e = Expr::Cond {
        span: sp(0, 20),
        test: Box::new(boolean(sp(0, 4), true)),
        cons: Box::new(num(sp(7, 8), 1)),
        alt: Box::new(text(sp(11, 14), "a")),
    };
    assert_eq!(
        a.validate_expr(&e),
        Ok(Type::Union(vec![
            Type::Lit(Lit::Num(Number::from_int(1))),
            Type::Lit(Lit::Str("a".to_string())),
        ]))
    );
    let same = Expr::Cond {
        span: sp(0, 20),
        test: Box::new(boolean(sp(0, 4), true)),
        cons: Box::new(num(sp(7, 8), 1)),
        alt: Box::new(num(sp(11, 12), 1)),
    };
    assert_eq!(a.validate_expr(&same), Ok(Type::Lit(Lit::Num(Number::from_int(1)))));
}

#[test]
fn conditional_test_is_checked_for_self_reference() {
    let mut env = Env::new();
    env.add_declaring(&vec!["a".to_string()]);
    let cond = || Expr::Cond {
        span: sp(0, 20),
        test: Box::new(ident(sp(0, 1), "a")),
        cons: Box::new(num(sp(7, 8), 1)),
        alt: Box::new(num(sp(11, 12), 2)),
    };
    let mut strict = Analyzer::new(env, DEFAULT_DEPTH);
    assert_eq!(strict.validate_expr(&cond()), diag(Diag::ReferencedInInit { span: sp(0, 20) }));
    let mut env = Env::new();
    env.add_declaring(&vec!["a".to_string()]);
    env.allow_ref_declaring = true;
    let mut permissive = Analyzer::new(env, DEFAULT_DEPTH);
    assert_eq!(permissive.validate_expr(&cond()), Ok(kw(Keyword::Any)));
}

#[test]
fn assignment_has_the_type_of_its_right_side() {
    let mut a = analyzer();
    let e = Expr::Assign {
        span: sp(0, 5),
        target: Some("x".to_string()),
        right: Box::new(num(sp(4, 5), 5)),
    };
    assert_eq!(a.validate_expr(&e), Ok(Type::Lit(Lit::Num(Number::from_int(5)))));
    let mut env = Env::new();
    env.add_declaring(&vec!["x".to_string()]);
    let mut b = Analyzer::new(env, DEFAULT_DEPTH);
    assert_eq!(b.validate_expr(&e), Ok(kw(Keyword::Any)));
}

#[test]
fn fixed_expression_kinds() {
    let mut a = analyzer();
    assert_eq!(a.validate_expr(&Expr::This { span: sp(0, 4) }), Ok(Type::This));
    assert_eq!(a.validate_expr(&Expr::Yield { span: sp(0, 5) }), Ok(kw(Keyword::Any)));
    assert_eq!(a.validate_expr(&Expr::Update { span: sp(0, 3) }), Ok(kw(Keyword::Number)));
    assert_eq!(a.validate_expr(&Expr::SuperCall { span: sp(0, 7) }), Ok(kw(Keyword::Any)));
    assert_eq!(a.validate_expr(&Expr::Invalid { span: sp(0, 1) }), Ok(kw(Keyword::Any)));
    assert_eq!(
        a.validate_expr(&Expr::Regex { span: sp(0, 3) }),
        Ok(Type::Ref { path: vec!["RegExp".to_string()], type_args: None })
    );
    assert_eq!(
        a.validate_expr(&Expr::Paren { span: sp(0, 3), expr: Box::new(num(sp(1, 2), 1)) }),
        Ok(Type::Lit(Lit::Num(Number::from_int(1))))
    );
}

#[test]
fn unsupported_expression_kinds() {
    let mut a = analyzer();
    let at = sp(2, 9);
    assert_eq!(
        a.validate_expr(&Expr::Await { span: at }),
        diag(Diag::Unsupported { span: at, what: Unsupported::AwaitExpr })
    );
    assert_eq!(
        a.validate_expr(&Expr::MetaProp { span: at }),
        diag(Diag::Unsupported { span: at, what: Unsupported::MetaProp })
    );
    assert_eq!(
        a.validate_expr(&Expr::SuperMember { span: at }),
        diag(Diag::Unsupported { span: at, what: Unsupported::SuperMember })
    );
    assert_eq!(
        a.validate_expr(&Expr::Other { span: at }),
        diag(Diag::Unsupported { span: at, what: Unsupported::Expr })
    );
    assert_eq!(
        a.validate_expr(&Expr::Sequence { span: at, exprs: vec![] }),
        diag(Diag::Unsupported { span: at, what: Unsupported::Expr })
    );
}

#[test]
fn this_has_the_type_of_the_scope() {
    let mut env = Env::new();
    env.scopes[0].this = Some(kw(Keyword::Number));
    env.with_child(ScopeKind::Block);
    let mut a = Analyzer::new(env, DEFAULT_DEPTH);
    assert_eq!(a.validate_expr(&Expr::This { span: sp(0, 4) }), Ok(kw(Keyword::Number)));
}

#[test]
fn identifiers_with_a_fixed_type() {
    let mut a = analyzer();
    assert_eq!(a.validate_expr(&ident(sp(0, 9), "arguments")), Ok(kw(Keyword::Any)));
    assert_eq!(a.validate_expr(&ident(sp(0, 4), "void")), Ok(kw(Keyword::Any)));
    assert_eq!(
        a.validate_expr(&ident(sp(0, 4), "eval")),
        Ok(Type::Function { type_params: None, params: vec![], ret: Box::new(kw(Keyword::Any)) })
    );
    assert_eq!(
        a.validate_expr_with_extra(&ident(sp(0, 4), "eval"), TypeOfMode::LValue, None),
        diag(Diag::CannotAssignToNonVariable { span: sp(0, 4) })
    );
    assert_eq!(
        a.validate_expr(&ident(sp(0, 6), "Symbol")),
        diag(Diag::TS2585 { span: sp(0, 6) })
    );
    assert_eq!(
        a.validate_expr(&ident(sp(0, 7), "require")),
        diag(Diag::Unsupported { span: sp(0, 7), what: Unsupported::Require })
    );
    assert_eq!(
        a.validate_expr(&ident(sp(0, 7), "missing")),
        diag(Diag::UndefinedSymbol { span: sp(0, 7) })
    );
}

#[test]
fn identifiers_are_looked_up_in_order() {
    let name = || "x".to_string();
    let mut env = Env::new();
    env.builtin_vars.push(Named { name: name(), ty: kw(Keyword::BigInt) });
    let mut a = Analyzer::new(env, DEFAULT_DEPTH);
    assert_eq!(a.validate_expr(&ident(sp(0, 1), "x")), Ok(kw(Keyword::BigInt)));

    a.env.declare_var(sp(0, 1), VarKind::Let, name(), None, true, false).unwrap();
    assert_eq!(a.validate_expr(&ident(sp(0, 1), "x")), Ok(kw(Keyword::Any)));

    a.env
        .declare_var(
            sp(0, 1),
            VarKind::Let,
            name(),
            Some(kw(Keyword::Number)),
            true,
            true,
        )
        .unwrap();
    assert_eq!(a.validate_expr(&ident(sp(0, 1), "x")), Ok(kw(Keyword::Number)));

    a.env.add_declaring(&vec![name()]);
    assert_eq!(
        a.validate_expr(&ident(sp(0, 1), "x")),
        diag(Diag::ReferencedInInit { span: sp(0, 1) })
    );

    a.env.register_type(name(), kw(Keyword::String));
    assert_eq!(a.validate_expr(&ident(sp(0, 1), "x")), Ok(kw(Keyword::String)));

    a.env.imports.push(Named { name: name(), ty: kw(Keyword::Boolean) });
    assert_eq!(a.validate_expr(&ident(sp(0, 1), "x")), Ok(kw(Keyword::Boolean)));
}

#[test]
fn inner_scope_shadows_outer_scope() {
    let mut env = env_with_var("x", Some(kw(Keyword::Number)));
    env.with_child(ScopeKind::Block);
    env.declare_var(sp(0, 1), VarKind::Let, "x".to_string(), Some(kw(Keyword::String)), true, false)
        .unwrap();
    let mut a = Analyzer::new(env, DEFAULT_DEPTH);
    assert_eq!(a.validate_expr(&ident(sp(0, 1), "x")), Ok(kw(Keyword::String)));
    a.env.without_child();
    assert_eq!(a.validate_expr(&ident(sp(0, 1), "x")), Ok(kw(Keyword::Number)));
}

#[test]
fn sequence_has_the_type_of_its_last_expression() {
    let mut env = Env::new();
    env.allow_unreachable_code = true;
    let mut a = Analyzer::new(env, DEFAULT_DEPTH);
    let e = Expr::Sequence {
        span: sp(0, 8),
        exprs: vec![num(sp(0, 1), 1), text(sp(3, 6), "a")],
    };
    assert_eq!(a.validate_expr(&e), Ok(Type::Lit(Lit::Str("a".to_string()))));
    assert_eq!(a.state.errors, vec![]);
}

#[test]
fn sequence_records_useless_expressions() {
    let mut a = analyzer();
    let e = Expr::Sequence {
        span: sp(0, 12),
        exprs: vec![num(sp(2, 3), 1), num(sp(5, 6), 2), text(sp(8, 11), "a")],
    };
    assert_eq!(a.validate_expr(&e), Ok(Type::Lit(Lit::Str("a".to_string()))));
    assert_eq!(
        a.state.errors,
        vec![
            Error::Diag(Diag::UselessSeqExpr { span: sp(2, 3) }),
            Error::Diag(Diag::UselessSeqExpr { span: sp(2, 6) }),
        ]
    );
}

#[test]
fn sequence_that_reads_a_declaring_name_is_any() {
    let mut env = Env::new();
    env.add_declaring(&vec!["a".to_string()]);
    let mut a = Analyzer::new(env, DEFAULT_DEPTH);
    let e = Expr::Sequence {
        span: sp(0, 8),
        exprs: vec![ident(sp(0, 1), "a"), num(sp(3, 4), 2)],
    };
    assert_eq!(a.validate_expr(&e), Ok(kw(Keyword::Any)));
    assert_eq!(a.state.errors, vec![Error::Diag(Diag::ImplicitAny { span: sp(0, 1) })]);
}

#[test]
fn sequence_records_the_errors_of_earlier_expressions() {
    let mut a = analyzer();
    let call = Expr::Paren { span: sp(0, 9), expr: Box::new(ident(sp(1, 8), "missing")) };
    let e = Expr::Sequence { span: sp(0, 14), exprs: vec![call, num(sp(11, 12), 2)] };
    assert_eq!(a.validate_expr(&e), Ok(Type::Lit(Lit::Num(Number::from_int(2)))));
    assert_eq!(a.state.errors, vec![Error::Diag(Diag::UndefinedSymbol { span: sp(1, 8) })]);
}

#[test]
fn fold_records_useless_expressions_and_errors() {
    let mut a = analyzer();
    let call = Expr::Paren { span: sp(4, 13), expr: Box::new(ident(sp(5, 12), "missing")) };
    a.fold(&vec![num(sp(1, 2), 1), call, num(sp(15, 16), 2)]);
    assert_eq!(
        a.state.errors,
        vec![
            Error::Diag(Diag::UselessSeqExpr { span: sp(1, 2) }),
            Error::Diag(Diag::UndefinedSymbol { span: sp(5, 12) }),
        ]
    );
    let mut env = Env::new();
    env.allow_unreachable_code = true;
    let mut b = Analyzer::new(env, DEFAULT_DEPTH);
    b.fold(&vec![num(sp(1, 2), 1), num(sp(4, 5), 2)]);
    assert_eq!(b.state.errors, vec![]);
}

#[test]
fn inference_out_of_depth_fails() {
    let mut a = Analyzer::new(Env::new(), 2);
    let deep = Expr::Paren {
        span: sp(0, 5),
        expr: Box::new(Expr::Paren { span: sp(1, 4), expr: Box::new(num(sp(2, 3), 1)) }),
    };
    assert_eq!(
        a.validate_expr(&deep),
        diag(Diag::Unsupported { span: sp(2, 3), what: Unsupported::Depth })
    );
    let mut b = Analyzer::new(Env::new(), 3);
    assert_eq!(b.validate_expr(&deep), Ok(Type::Lit(Lit::Num(Number::from_int(1)))));
    let mut c = Analyzer::new(Env::new(), 0);
    assert_eq!(
        c.validate_expr(&deep),
        diag(Diag::Unsupported { span: sp(0, 5), what: Unsupported::Depth })
    );
}

#[test]
fn type_assertions_have_the_asserted_type() {
    let mut a = analyzer();
    let class = || Type::Class {
        name: Some("C".to_string()),
        is_abstract: false,
        super_class: None,
        type_params: None,
        body: vec![],
    };
    let e = Expr::TsAs { span: sp(0, 6), expr: Box::new(num(sp(0, 1), 1)), ty: class() };
    assert_eq!(
        a.validate_expr(&e),
        Ok(Type::ClassInstance { cls: Box::new(class()), type_args: None })
    );
    let e =
        Expr::TsTypeAssertion { span: sp(0, 6), expr: Box::new(num(sp(0, 1), 1)), ty: class() };
    assert_eq!(a.validate_expr(&e), Ok(class()));
    let e = Expr::TsAs {
        span: sp(0, 6),
        expr: Box::new(num(sp(0, 1), 1)),
        ty: kw(Keyword::String),
    };
    assert_eq!(a.validate_expr(&e), Ok(kw(Keyword::String)));
}

#[test]
fn non_null_assertion_removes_null_and_undefined() {
    let env = env_with_var(
        "x",
        Some(Type::Union(vec![kw(Keyword::Number), kw(Keyword::Null), kw(Keyword::Undefined)])),
    );
    let mut a = Analyzer::new(env, DEFAULT_DEPTH);
    let e = Expr::TsNonNull { span: sp(0, 2), expr: Box::new(ident(sp(0, 1), "x")) };
    assert_eq!(a.validate_expr(&e), Ok(kw(Keyword::Number)));
    let env = env_with_var("x", Some(kw(Keyword::Null)));
    let mut b = Analyzer::new(env, DEFAULT_DEPTH);
    assert_eq!(b.validate_expr(&e), Ok(kw(Keyword::Null)));
}
