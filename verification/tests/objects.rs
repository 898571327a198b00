use ts_checker::analyzer::{Analyzer, DEFAULT_DEPTH};
use ts_checker::ast::{Expr, Function, Pat, Prop, PropName, VarKind};
use ts_checker::errors::{Diag, Error, Unsupported};
use ts_checker::number::Number;
use ts_checker::scope::Env;
use ts_checker::span::Span;
use ts_checker::types::{FnParam, Key, Keyword, Lit, Member, Type};

fn sp(lo: u32, hi: u32) -> Span {
    Span { lo, hi }
}

fn kw(k: Keyword) -> Type {
    Type::Keyword(k)
}

fn num(span: Span, v: i64) -> Expr {
    Expr::Lit { span, lit: Lit::Num(Number::from_int(v)) }
}

fn ident(span: Span, name: &str) -> Expr {
    Expr::Ident { span, sym: name.to_string() }
}

fn name(span: Span, s: &str) -> PropName {
    PropName::Ident { span, sym: s.to_string() }
}

fn property(key: Key, ty: Option<Type>) -> Member {
    Member::Property {
        key,
        computed: false,
        optional: false,
        readonly: false,
        is_static: false,
        ty,
    }
}

fn env_with_var(name: &str, ty: Type) -> Env {
    let mut env = Env::new();
    env.declare_var(sp(0, 1), VarKind::Let, name.to_string(), Some(ty), true, false).unwrap();
    env
}

#[test]
fn object_literal_is_a_type_literal_of_its_properties() {
    let mut a = Analyzer::new(Env::new(), DEFAULT_DEPTH);
    let e = Expr::Object {
        span: sp(0, 30),
        props: vec![
            Prop::KeyValue { span: sp(1, 5), key: name(sp(1, 2), "a"), value: num(sp(4, 5), 1) },
            Prop::Shorthand { span: sp(7, 8), sym: "b".to_string() },
            Prop::KeyValue {
                span: sp(10, 16),
                key: PropName::Str { span: sp(10, 13), value: "c".to_string() },
                value: Expr::Null { span: sp(15, 19) },
            },
            Prop::KeyValue {
                span: sp(20, 25),
                key: PropName::Num { span: sp(20, 21), value: Number::from_int(0) },
                value: num(sp(23, 24), 2),
            },
        ],
    };
    assert_eq!(
        a.validate_expr(&e),
        Ok(Type::TypeLit(vec![
            property(Key::Ident("a".to_string()), Some(Type::Lit(Lit::Num(Number::from_int(1))))),
            property(Key::Ident("b".to_string()), None),
            property(Key::Str("c".to_string()), Some(kw(Keyword::Null))),
            property(
                Key::Num(Number::from_int(0)),
                Some(Type::Lit(Lit::Num(Number::from_int(2))))
            ),
        ]))
    );
}

#[test]
fn object_literal_method_keeps_its_signature() {
    let mut a = Analyzer::new(Env::new(), DEFAULT_DEPTH);
    let function = Function {
        span: sp(1, 20),
        params: vec![
            Pat::Ident {
                span: sp(3, 4),
                sym: "x".to_string(),
                optional: false,
                type_ann: Some(kw(Keyword::Number)),
            },
            Pat::Ident { span: sp(6, 8), sym: "y".to_string(), optional: true, type_ann: None },
        ],
        type_params: Some(vec!["T".to_string()]),
        return_type: Some(kw(Keyword::String)),
        has_body: true,
    };
    let e = Expr::Object {
        span: sp(0, 22),
        props: vec![Prop::Method { span: sp(1, 20), key: name(sp(1, 2), "m"), function }],
    };
    assert_eq!(
        a.validate_expr(&e),
        Ok(Type::TypeLit(vec![Member::Method {
            key: Key::Ident("m".to_string()),
            computed: false,
            optional: false,
            is_static: false,
            type_params: Some(vec!["T".to_string()]),
            params: vec![
                FnParam { required: true, ty: kw(Keyword::Number) },
                FnParam { required: false, ty: kw(Keyword::Any) },
            ],
            ret: Some(kw(Keyword::String)),
        }]))
    );
}

#[test]
fn getter_takes_the_inferred_return_type_once() {
    let mut a = Analyzer::new(Env::new(), DEFAULT_DEPTH);
    a.state.record_return(sp(1, 9), kw(Keyword::Number));
    a.state.record_return(sp(1, 9), kw(Keyword::String));
    let getter = || Expr::Object {
        span: sp(0, 10),
        props: vec![Prop::Getter { span: sp(1, 9), key: name(sp(5, 6), "g") }],
    };
    assert_eq!(
        a.validate_expr(&getter()),
        Ok(Type::TypeLit(vec![property(
            Key::Ident("g".to_string()),
            Some(Type::Union(vec![kw(Keyword::Number), kw(Keyword::String)]))
        )]))
    );
    assert_eq!(
        a.validate_expr(&getter()),
        Ok(Type::TypeLit(vec![property(Key::Ident("g".to_string()), None)]))
    );
}

#[test]
fn spread_of_a_type_literal_merges_its_members() {
    let inner = Type::TypeLit(vec![property(Key::Ident("a".to_string()), Some(kw(Keyword::Number)))]);
    let mut a = Analyzer::new(env_with_var("o", inner), DEFAULT_DEPTH);
    let e = Expr::Object {
        span: sp(0, 20),
        props: vec![
            Prop::Spread { span: sp(1, 5), expr: ident(sp(4, 5), "o") },
            Prop::Shorthand { span: sp(7, 8), sym: "b".to_string() },
        ],
    };
    assert_eq!(
        a.validate_expr(&e),
        Ok(Type::TypeLit(vec![
            property(Key::Ident("a".to_string()), Some(kw(Keyword::Number))),
            property(Key::Ident("b".to_string()), None),
        ]))
    );
}

#[test]
fn spread_of_any_or_unknown_gives_that_type() {
    for k in [Keyword::Any, Keyword::Unknown] {
        let mut a = Analyzer::new(env_with_var("o", kw(k)), DEFAULT_DEPTH);
        let e = Expr::Object {
            span: sp(0, 20),
            props: vec![
                Prop::Shorthand { span: sp(1, 2), sym: "b".to_string() },
                Prop::Spread { span: sp(4, 8), expr: ident(sp(7, 8), "o") },
            ],
        };
        assert_eq!(a.validate_expr(&e), Ok(kw(k)));
    }
}

#[test]
fn spread_of_another_type_is_unsupported() {
    let mut a = Analyzer::new(env_with_var("o", kw(Keyword::Number)), DEFAULT_DEPTH);
    let e = Expr::Object {
        span: sp(0, 20),
        props: vec![Prop::Spread { span: sp(4, 8), expr: ident(sp(7, 8), "o") }],
    };
    assert_eq!(
        a.validate_expr(&e),
        Err(Error::Diag(Diag::Unsupported { span: sp(4, 8), what: Unsupported::ObjectSpread }))
    );
}

#[test]
fn unsupported_properties() {
    let mut a = Analyzer::new(Env::new(), DEFAULT_DEPTH);
    let e = Expr::Object {
        span: sp(0, 20),
        props: vec![Prop::Setter { span: sp(4, 8), key: name(sp(4, 5), "s") }],
    };
    assert_eq!(
        a.validate_expr(&e),
        Err(Error::Diag(Diag::Unsupported { span: sp(4, 8), what: Unsupported::Prop }))
    );
    let e = Expr::Object {
        span: sp(0, 20),
        props: vec![Prop::Assign { span: sp(4, 9), sym: "s".to_string() }],
    };
    assert_eq!(
        a.validate_expr(&e),
        Err(Error::Diag(Diag::Unsupported { span: sp(4, 9), what: Unsupported::Prop }))
    );
}

#[test]
fn property_value_is_expanded() {
    let mut env = Env::new();
    env.register_type(
        "N".to_string(),
        Type::Alias { type_params: None, ty: Box::new(kw(Keyword::Number)) },
    );
    let mut a = Analyzer::new(env, DEFAULT_DEPTH);
    let e = Expr::Object {
        span: sp(0, 20),
        props: vec![Prop::KeyValue {
            span: sp(1, 12),
            key: name(sp(1, 2), "a"),
            value: Expr::TsAs {
                span: sp(4, 12),
                expr: Box::new(num(sp(4, 5), 1)),
                ty: Type::Ref { path: vec!["N".to_string()], type_args: None },
            },
        }],
    };
    assert_eq!(
        a.validate_expr(&e),
        Ok(Type::TypeLit(vec![property(Key::Ident("a".to_string()), Some(kw(Keyword::Number)))]))
    );
}
