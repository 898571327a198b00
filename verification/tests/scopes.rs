use ts_checker::analyzer::{Analyzer, DEFAULT_DEPTH};
use ts_checker::ast::{Expr, ObjectPatProp, Pat, Prop, PropName, VarKind};
use ts_checker::errors::{Diag, Error};
use ts_checker::number::Number;
use ts_checker::pat::{
    declare_pat_vars, pat_bindings, validate_assign_pat, validate_rest_pat, Binding,
};
use ts_checker::scope::{Env, Scope, ScopeKind, Var};
use ts_checker::span::Span;
use ts_checker::state::State;
use ts_checker::types::{FnParam, Keyword, Lit, Type};

fn sp(lo: u32, hi: u32) -> Span {
    Span { lo, hi }
}

fn kw(k: Keyword) -> Type {
    Type::Keyword(k)
}

fn s(x: &str) -> String {
    x.to_string()
}

fn id(span: Span, name: &str, ty: Option<Type>) -> Pat {
    Pat::Ident { span, sym: s(name), optional: false, type_ann: ty }
}

fn dup(span: Span) -> Result<(), Error> {
    Err(Error::Diag(Diag::DuplicateDeclaration { span }))
}

#[test]
fn variable_is_bound_in_the_current_scope() {
    let mut env = Env::new();
    assert_eq!(env.declare_var(sp(0, 1), VarKind::Let, s("a"), Some(kw(Keyword::Number)), false, false), Ok(()));
    assert_eq!(
        env.find_var(&s("a")),
        Some(&Var { name: s("a"), kind: VarKind::Let, ty: Some(kw(Keyword::Number)), initialized: false })
    );
    assert_eq!(env.find_var_type(&s("a")), Some(&kw(Keyword::Number)));
    assert_eq!(env.find_var(&s("b")), None);
    assert_eq!(env.find_var_type(&s("b")), None);
}

#[test]
fn redeclaration_rules() {
    let mut env = Env::new();
    env.declare_var(sp(0, 1), VarKind::Let, s("a"), None, true, false).unwrap();
    assert_eq!(env.declare_var(sp(2, 3), VarKind::Let, s("a"), None, true, false), dup(sp(2, 3)));
    assert_eq!(env.declare_var(sp(4, 5), VarKind::Var, s("a"), None, true, false), dup(sp(4, 5)));
    assert_eq!(
        env.declare_var(sp(6, 7), VarKind::Const, s("a"), Some(kw(Keyword::String)), false, true),
        Ok(())
    );
    assert_eq!(
        env.find_var(&s("a")),
        Some(&Var { name: s("a"), kind: VarKind::Const, ty: Some(kw(Keyword::String)), initialized: true })
    );
    env.declare_var(sp(0, 1), VarKind::Var, s("v"), Some(kw(Keyword::Number)), false, false).unwrap();
    assert_eq!(env.declare_var(sp(2, 3), VarKind::Var, s("v"), None, true, false), Ok(()));
    assert_eq!(
        env.find_var(&s("v")),
        Some(&Var { name: s("v"), kind: VarKind::Var, ty: Some(kw(Keyword::Number)), initialized: true })
    );
    assert_eq!(env.declare_var(sp(4, 5), VarKind::Let, s("v"), None, true, false), dup(sp(4, 5)));
    env.with_child(ScopeKind::Block);
    assert_eq!(env.declare_var(sp(6, 7), VarKind::Let, s("v"), None, true, false), Ok(()));
}

#[test]
fn child_scope_and_its_bindings_vanish() {
    let mut env = Env::new();
    env.register_type(s("T"), kw(Keyword::Number));
    let before = Env::new().scopes.len();
    env.with_child(ScopeKind::Fn);
    assert_eq!(env.scopes.len(), before + 1);
    assert_eq!(env.scopes[1], Scope::new(ScopeKind::Fn));
    env.declare_var(sp(0, 1), VarKind::Let, s("x"), None, true, false).unwrap();
    env.register_type(s("T"), kw(Keyword::String));
    env.register_type(s("T"), kw(Keyword::Boolean));
    assert_eq!(env.find_type(&s("T")), Some(&kw(Keyword::String)));
    assert_eq!(env.find_types(&s("T")), Some(&vec![kw(Keyword::String), kw(Keyword::Boolean)]));
    env.without_child();
    assert_eq!(env.find_var(&s("x")), None);
    assert_eq!(env.find_type(&s("T")), Some(&kw(Keyword::Number)));
    env.without_child();
    env.without_child();
    assert_eq!(env.scopes.len(), 0);
    assert_eq!(env.find_type(&s("T")), None);
    assert_eq!(env.declare_var(sp(0, 1), VarKind::Let, s("x"), None, true, false), Ok(()));
    assert_eq!(env.find_var(&s("x")), None);
}

#[test]
fn declaring_set_of_the_current_scope() {
    let mut env = Env::new();
    env.add_declaring(&vec![s("a"), s("b")]);
    env.add_declaring(&vec![s("c"), s("a")]);
    assert!(env.is_declaring(&s("a")));
    assert!(env.is_declaring(&s("c")));
    env.with_child(ScopeKind::Block);
    assert!(!env.is_declaring(&s("a")));
    env.without_child();
    env.remove_declaring(&vec![s("a"), s("z")]);
    assert!(!env.is_declaring(&s("a")));
    assert_eq!(env.scopes[0].declaring, vec![s("b"), s("c")]);
    env.scopes[0].declaring_fn.push(s("f"));
    env.with_child(ScopeKind::Fn);
    assert!(env.is_declaring_fn(&s("f")));
    assert!(!env.is_declaring_fn(&s("g")));
    assert_eq!(env.declaring_prop(), None);
    env.scopes[1].declaring_prop = Some(s("p"));
    assert_eq!(env.declaring_prop(), Some(&s("p")));
}

fn nested() -> Pat {
    Pat::Object {
        span: sp(0, 40),
        props: vec![
            ObjectPatProp::KeyValue {
                key: PropName::Ident { span: sp(1, 2), sym: s("k") },
                value: Pat::Array {
                    span: sp(4, 14),
                    elems: vec![
                        id(sp(5, 6), "a", Some(kw(Keyword::Number))),
                        Pat::Rest { span: sp(8, 13), dot3: sp(8, 11), arg: Box::new(id(sp(11, 12), "b", None)), type_ann: None },
                    ],
                    type_ann: None,
                },
            },
            ObjectPatProp::Assign { span: sp(16, 17), sym: s("c") },
            ObjectPatProp::Rest {
                arg: Pat::Assign {
                    span: sp(22, 27),
                    left: Box::new(id(sp(22, 23), "d", None)),
                    right: Box::new(Expr::Null { span: sp(26, 30) }),
                },
            },
            ObjectPatProp::Rest { arg: Pat::Other { span: sp(30, 31) } },
        ],
        type_ann: None,
    }
}

#[test]
fn names_that_a_pattern_binds() {
    assert_eq!(
        pat_bindings(&nested()),
        vec![
            Binding { span: sp(5, 6), name: s("a"), ty: Some(kw(Keyword::Number)) },
            Binding { span: sp(11, 12), name: s("b"), ty: None },
            Binding { span: sp(16, 17), name: s("c"), ty: None },
            Binding { span: sp(22, 23), name: s("d"), ty: None },
        ]
    );
}

#[test]
fn names_of_a_pattern_are_declared_up_to_the_first_failure() {
    let mut env = Env::new();
    env.declare_var(sp(0, 1), VarKind::Let, s("c"), None, true, false).unwrap();
    assert_eq!(declare_pat_vars(&mut env, VarKind::Let, &nested()), dup(sp(16, 17)));
    assert_eq!(env.find_var_type(&s("a")), Some(&kw(Keyword::Number)));
    assert!(env.find_var(&s("b")).is_some());
    assert!(env.find_var(&s("d")).is_none());
}

#[test]
fn pattern_is_validated_as_a_parameter() {
    let mut a = Analyzer::new(Env::new(), DEFAULT_DEPTH);
    let p = Pat::Assign {
        span: sp(0, 9),
        left: Box::new(Pat::Ident { span: sp(0, 1), sym: s("a"), optional: true, type_ann: Some(kw(Keyword::String)) }),
        right: Box::new(Expr::Ident { span: sp(4, 5), sym: s("a") }),
    };
    assert_eq!(a.validate(&p), FnParam { required: false, ty: kw(Keyword::String) });
    assert_eq!(a.state.errors, vec![Error::Diag(Diag::ReferencedInInit { span: sp(4, 5) })]);
    assert!(!a.env.is_declaring(&s("a")));
    assert_eq!(a.env.find_var_type(&s("a")), Some(&kw(Keyword::String)));
    assert_eq!(a.validate(&id(sp(10, 11), "a", None)), FnParam { required: true, ty: kw(Keyword::Any) });
    assert_eq!(a.state.errors.len(), 2);
    assert_eq!(a.state.errors[1], Error::Diag(Diag::DuplicateDeclaration { span: sp(10, 11) }));
    let rest = Pat::Rest { span: sp(0, 5), dot3: sp(0, 3), arg: Box::new(id(sp(3, 4), "r", None)), type_ann: None };
    assert_eq!(a.validate(&rest), FnParam { required: false, ty: kw(Keyword::Any) });
    assert_eq!(a.validate(&Pat::Other { span: sp(0, 1) }), FnParam { required: true, ty: kw(Keyword::Any) });
    let mut permissive = Env::new();
    permissive.allow_ref_declaring = true;
    let mut b = Analyzer::new(permissive, DEFAULT_DEPTH);
    b.validate(&p);
    assert_eq!(b.state.errors, vec![]);
}

fn rest(env: &Env, arg: &Pat, ann: Option<Type>) -> Vec<Error> {
    let mut st = State::new();
    validate_rest_pat(env, &mut st, sp(0, 3), arg, &ann, DEFAULT_DEPTH);
    st.errors
}

#[test]
fn rest_pattern_must_be_an_array() {
    let env = Env::new();
    let plain = id(sp(3, 4), "r", None);
    let ts2370 = vec![Error::Diag(Diag::TS2370 { span: sp(0, 3) })];
    assert_eq!(rest(&env, &plain, None), vec![]);
    assert_eq!(rest(&env, &plain, Some(Type::Array(Box::new(kw(Keyword::Number))))), vec![]);
    assert_eq!(rest(&env, &plain, Some(kw(Keyword::Any))), vec![]);
    assert_eq!(rest(&env, &plain, Some(kw(Keyword::Number))), ts2370);
    let with_default = |right: Expr| Pat::Assign {
        span: sp(3, 9),
        left: Box::new(id(sp(3, 4), "r", None)),
        right: Box::new(right),
    };
    let one = Expr::Lit { span: sp(7, 8), lit: Lit::Num(Number::from_int(1)) };
    assert_eq!(rest(&env, &with_default(one), Some(kw(Keyword::Any))), ts2370);
    assert_eq!(
        rest(&env, &with_default(Expr::Ident { span: sp(7, 8), sym: s("q") }), None),
        vec![Error::Diag(Diag::UndefinedSymbol { span: sp(7, 8) })]
    );
    let any = Expr::Yield { span: sp(7, 8) };
    assert_eq!(rest(&env, &with_default(any), Some(kw(Keyword::Number))), vec![]);
}

#[test]
fn default_object_names_only_properties_of_the_pattern() {
    let key = |at: u32, k: &str| PropName::Ident { span: sp(at, at + 1), sym: s(k) };
    let left = Pat::Object {
        span: sp(0, 10),
        props: vec![
            ObjectPatProp::KeyValue { key: key(1, "a"), value: id(sp(3, 4), "x", None) },
            ObjectPatProp::Assign { span: sp(6, 7), sym: s("b") },
        ],
        type_ann: None,
    };
    let value = |at: u32| Expr::Null { span: sp(at, at + 4) };
    let right = Expr::Object {
        span: sp(20, 60),
        props: vec![
            Prop::KeyValue { span: sp(21, 26), key: key(21, "a"), value: value(23) },
            Prop::KeyValue { span: sp(28, 33), key: key(28, "b"), value: value(30) },
            Prop::Shorthand { span: sp(35, 36), sym: s("a") },
            Prop::Spread { span: sp(38, 42), expr: value(41) },
            Prop::KeyValue {
                span: sp(44, 49),
                key: PropName::Str { span: sp(44, 47), value: s("a") },
                value: value(48),
            },
        ],
    };
    let mut st = State::new();
    validate_assign_pat(&mut st, &left, &right);
    assert_eq!(
        st.errors,
        vec![
            Error::Diag(Diag::TS2353 { span: sp(28, 33) }),
            Error::Diag(Diag::TS2353 { span: sp(35, 36) }),
        ]
    );
    let mut st = State::new();
    validate_assign_pat(&mut st, &left, &value(0));
    validate_assign_pat(&mut st, &id(sp(0, 1), "x", None), &right);
    assert_eq!(st.errors, vec![]);
}
