use ts_checker::analyzer::{Analyzer, DEFAULT_DEPTH};
use ts_checker::ast::{Arg, Expr, VarKind};
use ts_checker::call::{extract, try_instantiate, try_instantiate_simple};
use ts_checker::errors::{Diag, Error, Unsupported};
use ts_checker::model::ExtractKind;
use ts_checker::number::Number;
use ts_checker::scope::{Env, Named};
use ts_checker::span::Span;
use ts_checker::state::State;
use ts_checker::types::{FnParam, Key, Keyword, Lit, Member, Type};

fn sp(lo: u32, hi: u32) -> Span {
    Span { lo, hi }
}

fn kw(k: Keyword) -> Type {
    Type::Keyword(k)
}

fn lit_num(v: i64) -> Type {
    Type::Lit(Lit::Num(Number::from_int(v)))
}

fn num(span: Span, v: i64) -> Expr {
    Expr::Lit { span, lit: Lit::Num(Number::from_int(v)) }
}

fn text(span: Span, s: &str) -> Expr {
    Expr::Lit { span, lit: Lit::Str(s.to_string()) }
}

fn ident(span: Span, name: &str) -> Expr {
    Expr::Ident { span, sym: name.to_string() }
}

fn arg(expr: Expr) -> Arg {
    Arg { spread: false, expr }
}

fn param(ty: Type) -> FnParam {
    FnParam { required: true, ty }
}

fn optional(ty: Type) -> FnParam {
    FnParam { required: false, ty }
}

fn function(type_params: Option<Vec<&str>>, params: Vec<FnParam>, ret: Type) -> Type {
    Type::Function {
        type_params: type_params.map(|v| v.into_iter().map(|s| s.to_string()).collect()),
        params,
        ret: Box::new(ret),
    }
}

fn method(key: &str, params: Vec<FnParam>, ret: Option<Type>) -> Member {
    Member::Method {
        key: Key::Ident(key.to_string()),
        computed: false,
        optional: false,
        is_static: false,
        type_params: None,
        params,
        ret,
    }
}

fn diag(d: Diag) -> Result<Type, Error> {
    Err(Error::Diag(d))
}

const CALLEE: Span = Span { lo: 0, hi: 1 };

fn env_with(name: &str, ty: Type) -> Env {
    let mut env = Env::new();
    env.declare_var(CALLEE, VarKind::Let, name.to_string(), Some(ty), true, false).unwrap();
    env
}

fn call(a: &mut Analyzer, args: Vec<Arg>) -> Result<Type, Error> {
    a.extract_call_new_expr_member(&ident(CALLEE, "f"), ExtractKind::Call, &args, &None)
}

fn construct(a: &mut Analyzer, args: Vec<Arg>) -> Result<Type, Error> {
    a.extract_call_new_expr_member(&ident(CALLEE, "f"), ExtractKind::New, &args, &None)
}

#[test]
fn call_of_a_function_gives_its_return_type() {
    let f = function(None, vec![param(kw(Keyword::Number))], kw(Keyword::String));
    let mut a = Analyzer::new(env_with("f", f), DEFAULT_DEPTH);
    assert_eq!(call(&mut a, vec![arg(num(sp(2, 3), 1))]), Ok(kw(Keyword::String)));
    let e = Expr::Call {
        span: sp(0, 4),
        callee: Box::new(ident(CALLEE, "f")),
        args: vec![arg(num(sp(2, 3), 1))],
        type_args: None,
    };
    assert_eq!(a.validate_expr(&e), Ok(kw(Keyword::String)));
    assert_eq!(construct(&mut a, vec![]), diag(Diag::NoNewSignature { span: CALLEE }));
}

#[test]
fn number_of_arguments_must_fit() {
    let f = function(
        None,
        vec![param(kw(Keyword::Number)), optional(kw(Keyword::Number)), optional(kw(Keyword::Any))],
        kw(Keyword::Void),
    );
    let mut a = Analyzer::new(env_with("f", f), DEFAULT_DEPTH);
    let wrong = |actual: usize| {
        diag(Diag::WrongParams { span: CALLEE, callee: CALLEE, min: 1, max: 3, actual })
    };
    let one = || arg(num(sp(2, 3), 1));
    assert_eq!(call(&mut a, vec![]), wrong(0));
    assert_eq!(call(&mut a, vec![one()]), Ok(kw(Keyword::Void)));
    assert_eq!(call(&mut a, vec![one(), one(), one()]), Ok(kw(Keyword::Void)));
    assert_eq!(call(&mut a, vec![one(), one(), one(), one()]), wrong(4));
}

#[test]
fn arity_of_a_simple_signature() {
    let params = vec![param(kw(Keyword::Number)), optional(kw(Keyword::Number))];
    let ret = kw(Keyword::Boolean);
    assert_eq!(try_instantiate_simple(CALLEE, sp(5, 6), &ret, &params, &None, 1), Ok(kw(Keyword::Boolean)));
    assert_eq!(try_instantiate_simple(CALLEE, sp(5, 6), &ret, &params, &None, 2), Ok(kw(Keyword::Boolean)));
    assert_eq!(
        try_instantiate_simple(CALLEE, sp(5, 6), &ret, &params, &None, 3),
        diag(Diag::WrongParams { span: CALLEE, callee: sp(5, 6), min: 1, max: 2, actual: 3 })
    );
    assert_eq!(
        try_instantiate_simple(CALLEE, sp(5, 6), &ret, &params, &Some(vec!["T".to_string()]), 1),
        diag(Diag::Unsupported { span: CALLEE, what: Unsupported::GenericSignature })
    );
}

#[test]
fn type_arguments_are_inferred_by_position() {
    let t = || Type::Param { name: "T".to_string() };
    let u = || Type::Ref { path: vec!["U".to_string()], type_args: None };
    let f = function(
        Some(vec!["T", "U"]),
        vec![param(kw(Keyword::Number)), param(t()), param(u()), optional(t())],
        Type::Tuple(vec![t(), Type::Param { name: "U".to_string() }, Type::Array(Box::new(t()))]),
    );
    let mut a = Analyzer::new(env_with("f", f), DEFAULT_DEPTH);
    assert_eq!(
        call(&mut a, vec![arg(num(sp(2, 3), 1)), arg(text(sp(4, 7), "a")), arg(num(sp(8, 9), 2))]),
        Ok(Type::Tuple(vec![
            Type::Lit(Lit::Str("a".to_string())),
            lit_num(2),
            Type::Array(Box::new(Type::Lit(Lit::Str("a".to_string())))),
        ]))
    );
}

#[test]
fn type_arguments_are_inferred_by_unification() {
    let t = || Type::Param { name: "T".to_string() };
    let u = || Type::Param { name: "U".to_string() };
    let f = function(
        Some(vec!["T", "U"]),
        vec![
            param(Type::Array(Box::new(t()))),
            param(Type::Tuple(vec![kw(Keyword::Number), Type::Union(vec![kw(Keyword::Null), u()])])),
        ],
        Type::Tuple(vec![t(), u()]),
    );
    let mut env = env_with("f", f);
    env.declare_var(
        CALLEE,
        VarKind::Let,
        "xs".to_string(),
        Some(Type::Array(Box::new(kw(Keyword::Boolean)))),
        true,
        false,
    )
    .unwrap();
    let mut a = Analyzer::new(env, DEFAULT_DEPTH);
    let pair = Expr::Array {
        span: sp(6, 14),
        elems: vec![
            ts_checker::ast::ArrayElem::Item(num(sp(7, 8), 1)),
            ts_checker::ast::ArrayElem::Item(text(sp(10, 13), "a")),
        ],
    };
    assert_eq!(
        call(&mut a, vec![arg(ident(sp(2, 4), "xs")), arg(pair)]),
        Ok(Type::Tuple(vec![kw(Keyword::Boolean), Type::Lit(Lit::Str("a".to_string()))]))
    );
    assert_eq!(
        call(&mut a, vec![arg(num(sp(2, 3), 1)), arg(num(sp(4, 5), 2))]),
        Ok(Type::Tuple(vec![kw(Keyword::Any), kw(Keyword::Any)]))
    );
}

#[test]
fn type_parameter_without_an_argument_is_any() {
    let t = || Type::Param { name: "T".to_string() };
    let f = function(Some(vec!["T"]), vec![optional(t())], t());
    let mut a = Analyzer::new(env_with("f", f), DEFAULT_DEPTH);
    assert_eq!(call(&mut a, vec![]), Ok(kw(Keyword::Any)));
}

#[test]
fn explicit_type_arguments_are_substituted() {
    let t = || Type::Param { name: "T".to_string() };
    let f = function(Some(vec!["T"]), vec![param(t())], Type::Union(vec![t(), kw(Keyword::Null)]));
    let mut a = Analyzer::new(env_with("f", f), DEFAULT_DEPTH);
    let r = a.extract_call_new_expr_member(
        &ident(CALLEE, "f"),
        ExtractKind::Call,
        &vec![arg(num(sp(2, 3), 1))],
        &Some(vec![kw(Keyword::String)]),
    );
    assert_eq!(r, Ok(Type::Union(vec![kw(Keyword::String), kw(Keyword::Null)])));
    let mut st = State::new();
    let r = try_instantiate(
        &Env::new(),
        &mut st,
        CALLEE,
        &Some(vec!["T".to_string()]),
        &vec![param(t())],
        &t(),
        &vec![arg(ident(sp(2, 3), "missing"))],
        &None,
        DEFAULT_DEPTH,
    );
    assert_eq!(r, diag(Diag::UndefinedSymbol { span: sp(2, 3) }));
}

#[test]
fn call_of_any_and_unknown() {
    let mut a = Analyzer::new(env_with("f", kw(Keyword::Any)), DEFAULT_DEPTH);
    assert_eq!(call(&mut a, vec![]), Ok(kw(Keyword::Any)));
    let mut b = Analyzer::new(env_with("f", kw(Keyword::Unknown)), DEFAULT_DEPTH);
    assert_eq!(call(&mut b, vec![]), diag(Diag::Unknown { span: CALLEE }));
    let mut c = Analyzer::new(env_with("f", kw(Keyword::Number)), DEFAULT_DEPTH);
    assert_eq!(call(&mut c, vec![]), diag(Diag::NoCallSignature { span: CALLEE }));
    assert_eq!(construct(&mut c, vec![]), diag(Diag::NoNewSignature { span: CALLEE }));
}

#[test]
fn construction_of_a_class_gives_an_instance() {
    let class = || Type::Class {
        name: Some("C".to_string()),
        is_abstract: false,
        super_class: None,
        type_params: None,
        body: vec![],
    };
    let mut a = Analyzer::new(env_with("f", class()), DEFAULT_DEPTH);
    assert_eq!(
        construct(&mut a, vec![]),
        Ok(Type::ClassInstance { cls: Box::new(class()), type_args: None })
    );
    let e = Expr::New {
        span: sp(0, 9),
        callee: Box::new(ident(CALLEE, "f")),
        args: vec![],
        type_args: Some(vec![kw(Keyword::Number)]),
    };
    assert_eq!(
        a.validate_expr(&e),
        Ok(Type::ClassInstance { cls: Box::new(class()), type_args: Some(vec![kw(Keyword::Number)]) })
    );
    assert_eq!(call(&mut a, vec![]), diag(Diag::NoCallSignature { span: CALLEE }));
}

#[test]
fn union_callee_takes_the_first_member_that_succeeds() {
    let u = Type::Union(vec![
        kw(Keyword::Number),
        function(None, vec![param(kw(Keyword::Number))], kw(Keyword::String)),
        function(None, vec![], kw(Keyword::Boolean)),
    ]);
    let mut a = Analyzer::new(env_with("f", u), DEFAULT_DEPTH);
    assert_eq!(call(&mut a, vec![]), Ok(kw(Keyword::Boolean)));
    assert_eq!(call(&mut a, vec![arg(num(sp(2, 3), 1))]), Ok(kw(Keyword::String)));
    assert_eq!(
        call(&mut a, vec![arg(num(sp(2, 3), 1)), arg(num(sp(4, 5), 1))]),
        Err(Error::UnionError {
            span: CALLEE,
            errors: vec![
                Error::Diag(Diag::NoCallSignature { span: CALLEE }),
                Error::Diag(Diag::WrongParams {
                    span: CALLEE,
                    callee: CALLEE,
                    min: 1,
                    max: 1,
                    actual: 2,
                }),
                Error::Diag(Diag::WrongParams {
                    span: CALLEE,
                    callee: CALLEE,
                    min: 0,
                    max: 0,
                    actual: 2,
                }),
            ],
        })
    );
}

#[test]
fn signatures_are_tried_by_arity_and_type() {
    let t = Type::TypeLit(vec![
        Member::Construct { type_params: None, params: vec![], ret: Some(kw(Keyword::Object)) },
        Member::Call { type_params: None, params: vec![param(kw(Keyword::String))], ret: Some(kw(Keyword::String)) },
        Member::Call { type_params: None, params: vec![param(kw(Keyword::Number))], ret: Some(kw(Keyword::Number)) },
        Member::Call { type_params: None, params: vec![], ret: None },
    ]);
    let mut a = Analyzer::new(env_with("f", t), DEFAULT_DEPTH);
    assert_eq!(call(&mut a, vec![arg(num(sp(2, 3), 1))]), Ok(kw(Keyword::Number)));
    assert_eq!(call(&mut a, vec![arg(text(sp(2, 5), "a"))]), Ok(kw(Keyword::String)));
    assert_eq!(call(&mut a, vec![]), Ok(kw(Keyword::Any)));
    assert_eq!(construct(&mut a, vec![]), Ok(kw(Keyword::Object)));
    assert_eq!(
        call(&mut a, vec![arg(Expr::Null { span: sp(2, 6) })]),
        diag(Diag::NoCallSignature { span: CALLEE })
    );
    assert_eq!(
        construct(&mut a, vec![arg(num(sp(2, 3), 1))]),
        diag(Diag::NoNewSignature { span: CALLEE })
    );
}

#[test]
fn extract_on_a_query_of_a_function_that_is_being_inferred() {
    let mut env = Env::new();
    env.scopes[0].declaring_fn.push("f".to_string());
    let mut st = State::new();
    let q = Type::Query { path: vec!["f".to_string()] };
    assert_eq!(
        extract(&env, &mut st, CALLEE, &q, ExtractKind::Call, &vec![], &None, DEFAULT_DEPTH),
        Ok(kw(Keyword::Any))
    );
    let other = Type::Query { path: vec!["g".to_string()] };
    assert_eq!(
        extract(&env, &mut st, CALLEE, &other, ExtractKind::Call, &vec![], &None, DEFAULT_DEPTH),
        diag(Diag::NoCallSignature { span: CALLEE })
    );
}

fn member_call(obj: &str, name: &str, computed: bool, args: Vec<Arg>) -> Expr {
    Expr::Call {
        span: sp(0, 20),
        callee: Box::new(Expr::Member {
            span: sp(0, 5),
            obj: Box::new(ident(sp(0, 1), obj)),
            prop: Box::new(if computed { text(sp(2, 5), name) } else { ident(sp(2, 5), name) }),
            computed,
        }),
        args,
        type_args: None,
    }
}

#[test]
fn to_string_gives_string() {
    let mut a = Analyzer::new(Env::new(), DEFAULT_DEPTH);
    assert_eq!(a.validate_expr(&member_call("missing", "toString", false, vec![])), Ok(kw(Keyword::String)));
    assert_eq!(a.validate_expr(&member_call("missing", "toString", true, vec![])), Ok(kw(Keyword::String)));
}

#[test]
fn method_call_picks_by_name_and_arity() {
    let o = Type::Interface {
        name: "O".to_string(),
        body: vec![
            method("one", vec![param(kw(Keyword::Number))], Some(kw(Keyword::Number))),
            method("two", vec![], Some(kw(Keyword::Boolean))),
            method("two", vec![param(kw(Keyword::String))], Some(kw(Keyword::String))),
            method("two", vec![param(kw(Keyword::Number))], None),
        ],
        extends: vec![],
    };
    let mut env = env_with("o", o);
    env.builtin_types.push(Named {
        name: "Object".to_string(),
        ty: Type::Interface {
            name: "Object".to_string(),
            body: vec![method("valueOf", vec![], Some(kw(Keyword::Object)))],
            extends: vec![],
        },
    });
    let mut a = Analyzer::new(env, DEFAULT_DEPTH);
    let one = || arg(num(sp(8, 9), 1));
    assert_eq!(a.validate_expr(&member_call("o", "one", false, vec![one()])), Ok(kw(Keyword::Number)));
    assert_eq!(a.validate_expr(&member_call("o", "one", false, vec![])), Ok(kw(Keyword::Number)));
    assert_eq!(
        a.validate_expr(&member_call("o", "one", false, vec![arg(text(sp(8, 11), "a"))])),
        diag(Diag::AssignFailed { span: sp(8, 11) })
    );
    assert_eq!(a.validate_expr(&member_call("o", "two", false, vec![])), Ok(kw(Keyword::Boolean)));
    assert_eq!(
        a.validate_expr(&member_call("o", "two", true, vec![arg(text(sp(8, 11), "a"))])),
        Ok(kw(Keyword::String))
    );
    assert_eq!(
        a.validate_expr(&member_call("o", "two", false, vec![one(), one()])),
        diag(Diag::Unsupported { span: sp(0, 5), what: Unsupported::AmbiguousMethod })
    );
    assert_eq!(a.validate_expr(&member_call("o", "valueOf", false, vec![])), Ok(kw(Keyword::Object)));
    assert_eq!(
        a.validate_expr(&member_call("o", "none", false, vec![])),
        diag(Diag::Unsupported { span: sp(0, 5), what: Unsupported::NoMethod })
    );
}

#[test]
fn method_call_on_primitives_and_classes() {
    let mut env = env_with("n", kw(Keyword::Number));
    env.declare_var(sp(0, 1), VarKind::Let, "s".to_string(), Some(Type::Lit(Lit::Str("x".to_string()))), true, false).unwrap();
    env.declare_var(sp(0, 1), VarKind::Let, "a".to_string(), Some(kw(Keyword::Any)), true, false).unwrap();
    env.declare_var(sp(0, 1), VarKind::Let, "b".to_string(), Some(kw(Keyword::Boolean)), true, false).unwrap();
    env.declare_var(
        sp(0, 1),
        VarKind::Let,
        "g".to_string(),
        Some(function(None, vec![], kw(Keyword::Void))),
        true,
        false,
    )
    .unwrap();
    env.declare_var(
        sp(0, 1),
        VarKind::Let,
        "c".to_string(),
        Some(Type::Class {
            name: None,
            is_abstract: false,
            super_class: None,
            type_params: None,
            body: vec![method("m", vec![], Some(kw(Keyword::BigInt)))],
        }),
        true,
        false,
    )
    .unwrap();
    for (name, ret) in [("Number", Keyword::Number), ("String", Keyword::String)] {
        env.builtin_types.push(Named {
            name: name.to_string(),
            ty: Type::Interface {
                name: name.to_string(),
                body: vec![method("fixed", vec![], Some(kw(ret)))],
                extends: vec![],
            },
        });
    }
    let mut a = Analyzer::new(env, DEFAULT_DEPTH);
    assert_eq!(a.validate_expr(&member_call("n", "fixed", false, vec![])), Ok(kw(Keyword::Number)));
    assert_eq!(a.validate_expr(&member_call("s", "fixed", false, vec![])), Ok(kw(Keyword::String)));
    assert_eq!(a.validate_expr(&member_call("a", "fixed", false, vec![])), Ok(kw(Keyword::Any)));
    assert_eq!(a.validate_expr(&member_call("g", "call", false, vec![])), Ok(kw(Keyword::Void)));
    assert_eq!(a.validate_expr(&member_call("c", "m", false, vec![])), Ok(kw(Keyword::BigInt)));
    assert_eq!(
        a.validate_expr(&member_call("c", "z", false, vec![])),
        diag(Diag::NoCallSignature { span: sp(0, 5) })
    );
    assert_eq!(
        a.validate_expr(&member_call("b", "z", true, vec![])),
        diag(Diag::Unsupported { span: sp(0, 5), what: Unsupported::ComputedCall })
    );
    assert_eq!(
        a.validate_expr(&member_call("missing", "z", false, vec![])),
        diag(Diag::UndefinedSymbol { span: sp(0, 1) })
    );
}

#[test]
fn require_is_not_resolved() {
    let mut env = Env::new();
    env.imports.push(Named { name: "dep".to_string(), ty: kw(Keyword::Any) });
    let mut a = Analyzer::new(env, DEFAULT_DEPTH);
    let r = |path: &str| Expr::Call {
        span: sp(0, 20),
        callee: Box::new(ident(sp(0, 7), "require")),
        args: vec![arg(text(sp(8, 12), path))],
        type_args: None,
    };
    assert_eq!(
        a.validate_expr(&r("dep")),
        diag(Diag::Unsupported { span: sp(0, 7), what: Unsupported::Require })
    );
    assert_eq!(a.validate_expr(&r("other")), diag(Diag::UndefinedSymbol { span: sp(0, 7) }));
}
