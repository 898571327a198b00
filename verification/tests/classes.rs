use ts_checker::analyzer::{Analyzer, DEFAULT_DEPTH};
use ts_checker::ast::{Class, ClassItem, CtorParam, Expr, Function, MethodKind, Pat, PropName};
use ts_checker::class::{
    validate_class_members, validate_computed_prop_key, validate_constructors,
    validate_inherited_members,
};
use ts_checker::errors::{Diag, Error};
use ts_checker::number::Number;
use ts_checker::scope::{Env, Named};
use ts_checker::span::Span;
use ts_checker::state::State;
use ts_checker::types::{FnParam, Key, Keyword, Lit, Member, Type};

fn sp(lo: u32, hi: u32) -> Span {
    Span { lo, hi }
}

fn kw(k: Keyword) -> Type {
    Type::Keyword(k)
}

fn name(span: Span, s: &str) -> PropName {
    PropName::Ident { span, sym: s.to_string() }
}

fn ident_pat(span: Span, s: &str, optional: bool, ty: Option<Type>) -> Pat {
    Pat::Ident { span, sym: s.to_string(), optional, type_ann: ty }
}

fn function(span: Span, params: Vec<Pat>, ret: Option<Type>, has_body: bool) -> Function {
    Function { span, params, type_params: None, return_type: ret, has_body }
}

fn method(at: u32, key: &str, has_body: bool) -> ClassItem {
    ClassItem::Method {
        span: sp(at, at + 9),
        key: name(sp(at, at + 1), key),
        kind: MethodKind::Method,
        is_static: false,
        is_abstract: false,
        function: function(sp(at, at + 9), vec![], None, has_body),
    }
}

fn constructor(at: u32, params: Vec<CtorParam>, has_body: bool) -> ClassItem {
    ClassItem::Constructor {
        span: sp(at, at + 9),
        key: name(sp(at, at + 1), "constructor"),
        params,
        has_body,
    }
}

fn class(body: Vec<ClassItem>) -> Class {
    Class {
        span: sp(0, 99),
        is_abstract: false,
        super_class: None,
        super_type_args: None,
        type_params: None,
        body,
    }
}

fn overloads(body: Vec<ClassItem>, declare: bool) -> Vec<Error> {
    let mut st = State::new();
    validate_class_members(&mut st, &class(body), declare);
    st.errors
}

fn ts2391(at: u32) -> Error {
    Error::Diag(Diag::TS2391 { span: sp(at, at + 1) })
}

fn ts2389(at: u32) -> Error {
    Error::Diag(Diag::TS2389 { span: sp(at, at + 1) })
}

#[test]
fn overloads_that_end_in_an_implementation_are_fine() {
    assert_eq!(overloads(vec![method(10, "f", false), method(20, "f", false), method(30, "f", true)], false), vec![]);
    assert_eq!(overloads(vec![method(10, "f", true), method(20, "g", true)], false), vec![]);
    assert_eq!(overloads(vec![], false), vec![]);
}

#[test]
fn overload_without_an_implementation_fails() {
    assert_eq!(overloads(vec![method(10, "f", false)], false), vec![ts2391(10)]);
    assert_eq!(
        overloads(vec![method(10, "f", false), method(20, "f", false)], false),
        vec![ts2391(10), ts2391(20)]
    );
    assert_eq!(
        overloads(vec![method(10, "f", false), method(20, "g", false), method(30, "g", true)], false),
        vec![ts2391(10)]
    );
}

#[test]
fn overload_followed_by_another_implementation_fails() {
    assert_eq!(overloads(vec![method(10, "f", false), method(20, "g", true)], false), vec![ts2389(20)]);
    assert_eq!(
        overloads(vec![constructor(10, vec![], false), method(20, "g", true)], false),
        vec![ts2391(10)]
    );
    assert_eq!(
        overloads(vec![method(10, "f", false), method(20, "f", false), constructor(30, vec![], true)], false),
        vec![ts2389(10), ts2389(20)]
    );
}

#[test]
fn ambient_abstract_and_computed_members_are_not_checked() {
    assert_eq!(overloads(vec![method(10, "f", false)], true), vec![]);
    let abstract_method = ClassItem::Method {
        span: sp(10, 19),
        key: name(sp(10, 11), "f"),
        kind: MethodKind::Method,
        is_static: false,
        is_abstract: true,
        function: function(sp(10, 19), vec![], None, false),
    };
    assert_eq!(overloads(vec![abstract_method], false), vec![]);
    let computed = ClassItem::Method {
        span: sp(10, 19),
        key: PropName::Computed {
            span: sp(10, 13),
            expr: Box::new(Expr::Ident { span: sp(11, 12), sym: "k".to_string() }),
        },
        kind: MethodKind::Method,
        is_static: false,
        is_abstract: false,
        function: function(sp(10, 19), vec![], None, false),
    };
    assert_eq!(overloads(vec![computed], false), vec![]);
    let quoted = ClassItem::Method {
        span: sp(20, 29),
        key: PropName::Str { span: sp(20, 21), value: "f".to_string() },
        kind: MethodKind::Method,
        is_static: false,
        is_abstract: false,
        function: function(sp(20, 29), vec![], None, true),
    };
    assert_eq!(overloads(vec![method(10, "f", false), quoted], false), vec![]);
}

fn constructors(body: Vec<ClassItem>) -> Vec<Error> {
    let mut st = State::new();
    validate_constructors(&mut st, &body);
    st.errors
}

fn required(n: usize) -> Vec<CtorParam> {
    (0..n).map(|i| CtorParam::Pat(ident_pat(sp(i as u32, i as u32 + 1), "p", false, None))).collect()
}

fn ts2394(at: u32) -> Error {
    Error::Diag(Diag::TS2394 { span: sp(at, at + 9) })
}

#[test]
fn constructor_overloads_must_agree_on_their_required_parameters() {
    assert_eq!(
        constructors(vec![constructor(10, required(1), false), constructor(20, required(2), false)]),
        vec![ts2394(10)]
    );
    assert_eq!(
        constructors(vec![constructor(10, required(1), false), constructor(20, required(1), true)]),
        vec![]
    );
    assert_eq!(
        constructors(vec![
            constructor(10, required(1), false),
            constructor(20, required(1), false),
            constructor(30, required(2), false),
            constructor(40, required(3), true),
        ]),
        vec![ts2394(10), ts2394(20), ts2394(30)]
    );
    let mut with_optional = required(1);
    with_optional.push(CtorParam::Pat(ident_pat(sp(5, 6), "o", true, None)));
    assert_eq!(
        constructors(vec![constructor(10, required(1), false), constructor(20, with_optional, true)]),
        vec![]
    );
}

#[test]
fn constructor_overload_takes_no_parameter_property() {
    let prop = || CtorParam::Prop {
        span: sp(3, 12),
        ident_span: sp(10, 11),
        sym: "x".to_string(),
        optional: false,
        type_ann: None,
    };
    assert_eq!(
        constructors(vec![constructor(10, vec![prop()], false), constructor(20, vec![prop()], true)]),
        vec![Error::Diag(Diag::TS2369 { span: sp(3, 12) })]
    );
}

fn validate(c: &Class, env: Env) -> (Result<Type, Error>, Vec<Error>, Env) {
    let mut a = Analyzer::new(env, DEFAULT_DEPTH);
    let t = a.validate_class(Some("C".to_string()), c);
    (t, a.state.errors, a.env)
}

fn method_item(kind: MethodKind, is_abstract: bool, f: Function) -> ClassItem {
    ClassItem::Method {
        span: sp(10, 30),
        key: name(sp(10, 11), "m"),
        kind,
        is_static: false,
        is_abstract,
        function: f,
    }
}

const KEY: Span = Span { lo: 10, hi: 11 };

#[test]
fn class_type_holds_the_validated_members() {
    let c = class(vec![
        constructor(1, vec![CtorParam::Pat(ident_pat(sp(2, 3), "a", false, Some(kw(Keyword::Number))))], true),
        method_item(
            MethodKind::Method,
            false,
            function(sp(10, 30), vec![ident_pat(sp(12, 13), "x", true, None)], Some(kw(Keyword::String)), true),
        ),
        ClassItem::Prop {
            span: sp(40, 50),
            key: Expr::Ident { span: sp(40, 41), sym: "p".to_string() },
            computed: false,
            value: Some(Expr::Lit { span: sp(44, 45), lit: Lit::Num(Number::from_int(1)) }),
            type_ann: None,
            is_static: true,
            is_optional: false,
            readonly: true,
        },
        ClassItem::PrivateProp { span: sp(60, 70) },
        ClassItem::PrivateMethod { span: sp(70, 80) },
        ClassItem::Index { span: sp(80, 90), readonly: false, key_ty: kw(Keyword::String), type_ann: None },
    ]);
    let (t, errors, env) = validate(&c, Env::new());
    assert_eq!(
        t,
        Ok(Type::Class {
            name: Some("C".to_string()),
            is_abstract: false,
            super_class: None,
            type_params: None,
            body: vec![
                Member::Construct {
                    type_params: None,
                    params: vec![FnParam { required: true, ty: kw(Keyword::Number) }],
                    ret: None,
                },
                Member::Method {
                    key: Key::Ident("m".to_string()),
                    computed: false,
                    optional: false,
                    is_static: false,
                    type_params: None,
                    params: vec![FnParam { required: false, ty: kw(Keyword::Any) }],
                    ret: Some(kw(Keyword::String)),
                },
                Member::Property {
                    key: Key::Ident("p".to_string()),
                    computed: false,
                    optional: false,
                    readonly: true,
                    is_static: true,
                    ty: Some(Type::Lit(Lit::Num(Number::from_int(1)))),
                },
                Member::Index { readonly: false, key_ty: kw(Keyword::String), ty: None },
            ],
        })
    );
    assert_eq!(errors, vec![]);
    assert_eq!(env, Env::new());
}

#[test]
fn method_rules() {
    let body = |f: Function, kind: MethodKind, is_abstract: bool| {
        validate(&class(vec![method_item(kind, is_abstract, f)]), Env::new()).1
    };
    assert_eq!(
        body(function(sp(10, 30), vec![], None, true), MethodKind::Method, true),
        vec![Error::Diag(Diag::TS1318 { span: KEY })]
    );
    assert_eq!(
        body(
            function(
                sp(10, 30),
                vec![
                    ident_pat(sp(12, 13), "a", true, None),
                    ident_pat(sp(14, 15), "b", false, None),
                    ident_pat(sp(16, 17), "c", true, None),
                ],
                None,
                true
            ),
            MethodKind::Method,
            false
        ),
        vec![
            Error::Diag(Diag::TS1016 { span: sp(14, 15) }),
            Error::Diag(Diag::TS1016 { span: sp(16, 17) }),
        ]
    );
    let mut generic = function(sp(10, 30), vec![], None, false);
    generic.type_params = Some(vec!["T".to_string()]);
    assert_eq!(body(generic, MethodKind::Setter, false), vec![Error::Diag(Diag::TS1094 { span: KEY })]);
    assert_eq!(
        body(function(sp(10, 30), vec![], Some(kw(Keyword::Void)), false), MethodKind::Setter, false),
        vec![Error::Diag(Diag::TS1095 { span: KEY })]
    );
    assert_eq!(
        body(function(sp(10, 30), vec![], None, true), MethodKind::Getter, false),
        vec![Error::Diag(Diag::TS2378 { span: KEY })]
    );
    assert_eq!(body(function(sp(10, 30), vec![], None, false), MethodKind::Getter, false), vec![]);
    let mut ambient = Env::new();
    ambient.in_declare = true;
    assert_eq!(
        validate(
            &class(vec![method_item(MethodKind::Method, false, function(sp(10, 30), vec![], None, true))]),
            ambient
        )
        .1,
        vec![Error::Diag(Diag::TS1183 { span: KEY })]
    );
}

#[test]
fn method_return_type_is_declared_or_inferred() {
    let c = class(vec![method_item(MethodKind::Getter, false, function(sp(10, 30), vec![], None, true))]);
    let mut a = Analyzer::new(Env::new(), DEFAULT_DEPTH);
    a.state.record_return(sp(10, 30), kw(Keyword::Number));
    let t = a.validate_class(None, &c).unwrap();
    match t {
        Type::Class { body, .. } => match &body[0] {
            Member::Method { ret, .. } => assert_eq!(ret, &Some(kw(Keyword::Number))),
            m => panic!("{:?}", m),
        },
        t => panic!("{:?}", t),
    }
    assert_eq!(a.state.errors, vec![]);
}

#[test]
fn duplicate_parameter_is_recorded() {
    let c = class(vec![method_item(
        MethodKind::Method,
        false,
        function(
            sp(10, 30),
            vec![ident_pat(sp(12, 13), "a", false, None), ident_pat(sp(14, 15), "a", false, None)],
            None,
            false,
        ),
    )]);
    let (t, errors, env) = validate(&c, Env::new());
    assert!(t.is_ok());
    assert_eq!(errors, vec![Error::Diag(Diag::DuplicateDeclaration { span: sp(14, 15) })]);
    assert_eq!(env, Env::new());
}

#[test]
fn default_value_that_reads_its_own_parameter_is_recorded() {
    let default = Pat::Assign {
        span: sp(12, 17),
        left: Box::new(ident_pat(sp(12, 13), "a", false, None)),
        right: Box::new(Expr::Ident { span: sp(16, 17), sym: "a".to_string() }),
    };
    let c = class(vec![method_item(
        MethodKind::Method,
        false,
        function(sp(10, 30), vec![default], None, false),
    )]);
    let (t, errors, _) = validate(&c, Env::new());
    assert!(t.is_ok());
    assert_eq!(errors, vec![Error::Diag(Diag::ReferencedInInit { span: sp(16, 17) })]);
}

#[test]
fn parameter_property_is_declared_with_its_expanded_type() {
    let prop = |ty: Option<Type>| CtorParam::Prop {
        span: sp(3, 12),
        ident_span: sp(10, 11),
        sym: "x".to_string(),
        optional: false,
        type_ann: ty,
    };
    let missing = Type::Ref { path: vec!["Missing".to_string()], type_args: None };
    let (t, errors, env) = validate(&class(vec![constructor(1, vec![prop(Some(missing))], true)]), Env::new());
    assert_eq!(t, Err(Error::Diag(Diag::NameNotFound { span: sp(10, 11) })));
    assert_eq!(errors, vec![]);
    assert_eq!(env, Env::new());
    let (t, errors, _) = validate(
        &class(vec![constructor(1, vec![prop(Some(kw(Keyword::Number))), prop(None)], true)]),
        Env::new(),
    );
    assert!(t.is_ok());
    assert_eq!(errors, vec![Error::Diag(Diag::DuplicateDeclaration { span: sp(10, 11) })]);
}

#[test]
fn constructor_parameter_after_an_optional_one_is_recorded() {
    let params = vec![
        CtorParam::Pat(ident_pat(sp(2, 3), "a", true, None)),
        CtorParam::Prop {
            span: sp(5, 14),
            ident_span: sp(12, 13),
            sym: "b".to_string(),
            optional: true,
            type_ann: None,
        },
        CtorParam::Pat(ident_pat(sp(16, 17), "c", false, None)),
    ];
    let (t, errors, env) = validate(&class(vec![constructor(1, params, true)]), Env::new());
    assert!(t.is_ok());
    assert_eq!(
        errors,
        vec![
            Error::Diag(Diag::TS1016 { span: sp(5, 14) }),
            Error::Diag(Diag::TS1016 { span: sp(16, 17) }),
        ]
    );
    assert_eq!(env, Env::new());
}

#[test]
fn property_value_that_fails_fails_the_class() {
    let c = class(vec![ClassItem::Prop {
        span: sp(40, 50),
        key: Expr::Ident { span: sp(40, 41), sym: "p".to_string() },
        computed: false,
        value: Some(Expr::Ident { span: sp(44, 45), sym: "q".to_string() }),
        type_ann: Some(kw(Keyword::Number)),
        is_static: false,
        is_optional: false,
        readonly: false,
    }]);
    let (t, _, env) = validate(&c, Env::new());
    assert_eq!(t, Err(Error::Diag(Diag::UndefinedSymbol { span: sp(44, 45) })));
    assert_eq!(env, Env::new());
}

fn computed_key(env: &Env, key: &Expr) -> Vec<Error> {
    let mut st = State::new();
    validate_computed_prop_key(env, &mut st, sp(0, 9), key, DEFAULT_DEPTH);
    st.errors
}

#[test]
fn computed_key_must_be_a_literal_or_a_symbol() {
    let mut env = Env::new();
    env.builtin_vars.push(Named { name: "Symbol".to_string(), ty: Type::TypeLit(vec![]) });
    env.builtin_vars.push(Named { name: "unique".to_string(), ty: Type::UniqueSymbol });
    env.builtin_vars.push(Named { name: "n".to_string(), ty: kw(Keyword::Number) });
    let ident = |s: &str| Expr::Ident { span: sp(1, 2), sym: s.to_string() };
    let lit = Expr::Lit { span: sp(1, 4), lit: Lit::Str("a".to_string()) };
    assert_eq!(computed_key(&env, &lit), vec![]);
    assert_eq!(computed_key(&env, &ident("unique")), vec![]);
    let symbol = Expr::Member {
        span: sp(1, 9),
        obj: Box::new(ident("Symbol")),
        prop: Box::new(ident("iterator")),
        computed: false,
    };
    assert_eq!(
        computed_key(&env, &symbol),
        vec![Error::Errors {
            span: sp(0, 9),
            errors: vec![Error::Errors {
                span: sp(1, 9),
                errors: vec![Error::Diag(Diag::NoSuchProperty { span: sp(1, 9) })],
            }],
        }]
    );
    assert_eq!(
        computed_key(&env, &ident("n")),
        vec![Error::Errors { span: sp(0, 9), errors: vec![Error::Diag(Diag::TS1166 { span: sp(0, 9) })] }]
    );
    assert_eq!(
        computed_key(&env, &ident("missing")),
        vec![Error::Errors {
            span: sp(0, 9),
            errors: vec![
                Error::Diag(Diag::UndefinedSymbol { span: sp(1, 2) }),
                Error::Diag(Diag::TS1166 { span: sp(0, 9) }),
            ],
        }]
    );
    assert_eq!(
        computed_key(&Env::new(), &ident("Symbol")),
        vec![Error::Diag(Diag::TS2585 { span: sp(1, 2) })]
    );
    let mut builtin = Env::new();
    builtin.is_builtin = true;
    assert_eq!(computed_key(&builtin, &ident("missing")), vec![]);
}

fn class_type(is_abstract: bool, super_class: Option<Type>, methods: Vec<&str>) -> Type {
    Type::Class {
        name: None,
        is_abstract,
        super_class: super_class.map(Box::new),
        type_params: None,
        body: methods
            .into_iter()
            .map(|m| Member::Method {
                key: Key::Ident(m.to_string()),
                computed: false,
                optional: false,
                is_static: false,
                type_params: None,
                params: vec![],
                ret: None,
            })
            .chain(std::iter::once(Member::Property {
                key: Key::Ident("p".to_string()),
                computed: false,
                optional: false,
                readonly: false,
                is_static: false,
                ty: None,
            }))
            .collect(),
    }
}

fn inherited(env: &Env, name: Option<Span>, class: &Type) -> Vec<Error> {
    let mut st = State::new();
    validate_inherited_members(env, &mut st, name, sp(0, 99), class);
    st.errors
}

#[test]
fn methods_of_the_superclass_must_be_implemented() {
    let base = || class_type(true, None, vec!["a", "b", "c"]);
    let env = Env::new();
    assert_eq!(inherited(&env, None, &class_type(false, Some(base()), vec!["a", "b", "c", "d"])), vec![]);
    assert_eq!(
        inherited(&env, None, &class_type(false, Some(base()), vec!["b"])),
        vec![
            Error::Diag(Diag::TS2515 { span: sp(0, 99) }),
            Error::Diag(Diag::TS2515 { span: sp(0, 99) }),
        ]
    );
    assert_eq!(
        inherited(&env, Some(sp(6, 7)), &class_type(false, Some(base()), vec!["a", "b"])),
        vec![Error::Diag(Diag::TS2515 { span: sp(6, 7) })]
    );
    assert_eq!(inherited(&env, None, &class_type(true, Some(base()), vec![])), vec![]);
    assert_eq!(inherited(&env, None, &class_type(false, Some(kw(Keyword::Any)), vec![])), vec![]);
    assert_eq!(inherited(&env, None, &class_type(false, None, vec![])), vec![]);
    let mut ambient = Env::new();
    ambient.in_declare = true;
    assert_eq!(inherited(&ambient, None, &class_type(false, Some(base()), vec![])), vec![]);
}

#[test]
fn class_declaration_is_registered_and_bound() {
    let mut env = Env::new();
    env.declare_var(
        sp(0, 1),
        ts_checker::ast::VarKind::Let,
        "Base".to_string(),
        Some(class_type(false, None, vec!["run"])),
        true,
        false,
    )
    .unwrap();
    let mut c = class(vec![method(10, "walk", false)]);
    c.super_class = Some(Box::new(Expr::Ident { span: sp(20, 24), sym: "Base".to_string() }));
    let mut a = Analyzer::new(env, DEFAULT_DEPTH);
    a.visit_class_decl(&"C".to_string(), sp(0, 99), false, &c);
    assert_eq!(
        a.state.errors,
        vec![ts2391(10), Error::Diag(Diag::TS2515 { span: sp(0, 99) })]
    );
    let expected = Type::Class {
        name: Some("C".to_string()),
        is_abstract: false,
        super_class: Some(Box::new(class_type(false, None, vec!["run"]))),
        type_params: None,
        body: vec![Member::Method {
            key: Key::Ident("walk".to_string()),
            computed: false,
            optional: false,
            is_static: false,
            type_params: None,
            params: vec![],
            ret: Some(kw(Keyword::Any)),
        }],
    };
    assert_eq!(a.env.find_type(&"C".to_string()), Some(&expected));
    assert_eq!(a.env.find_var_type(&"C".to_string()), Some(&expected));
    a.visit_class_decl(&"C".to_string(), sp(100, 199), true, &class(vec![]));
    assert_eq!(a.state.errors.len(), 2);
    assert_eq!(a.env.find_types(&"C".to_string()).map(|v| v.len()), Some(2));

    let mut b = Analyzer::new(Env::new(), DEFAULT_DEPTH);
    b.env.declare_var(sp(0, 1), ts_checker::ast::VarKind::Let, "C".to_string(), None, true, false).unwrap();
    b.visit_class_decl(&"C".to_string(), sp(0, 99), false, &c);
    assert_eq!(
        b.state.errors,
        vec![
            ts2391(10),
            Error::Diag(Diag::UndefinedSymbol { span: sp(20, 24) }),
            Error::Diag(Diag::DuplicateDeclaration { span: sp(0, 99) }),
        ]
    );
    assert_eq!(b.env.find_type(&"C".to_string()), Some(&kw(Keyword::Any)));
}

#[test]
fn named_class_expression_is_visited_in_a_scope_of_its_own() {
    let c = class(vec![method(10, "walk", false)]);
    let mut a = Analyzer::new(Env::new(), DEFAULT_DEPTH);
    a.visit_class_expr(Some(&"C".to_string()), sp(0, 99), &c);
    assert_eq!(a.state.errors, vec![ts2391(10)]);
    assert_eq!(a.env, Env::new());
    a.visit_class_expr(None, sp(0, 99), &c);
    assert_eq!(a.state.errors, vec![ts2391(10)]);
    let mut broken = class(vec![]);
    broken.super_class = Some(Box::new(Expr::Ident { span: sp(20, 24), sym: "Base".to_string() }));
    a.visit_class_expr(None, sp(0, 99), &broken);
    assert_eq!(
        a.state.errors,
        vec![ts2391(10), Error::Diag(Diag::UndefinedSymbol { span: sp(20, 24) })]
    );
    assert_eq!(a.env, Env::new());
}

#[test]
fn class_expression_has_the_type_of_the_class() {
    let mut a = Analyzer::new(Env::new(), DEFAULT_DEPTH);
    a.state.record_return(sp(10, 19), kw(Keyword::Boolean));
    let e = Expr::Class { span: sp(0, 99), class: Box::new(class(vec![method(10, "m", true)])) };
    assert_eq!(
        a.validate_expr(&e),
        Ok(Type::Class {
            name: None,
            is_abstract: false,
            super_class: None,
            type_params: None,
            body: vec![Member::Method {
                key: Key::Ident("m".to_string()),
                computed: false,
                optional: false,
                is_static: false,
                type_params: None,
                params: vec![],
                ret: Some(kw(Keyword::Boolean)),
            }],
        })
    );
}
