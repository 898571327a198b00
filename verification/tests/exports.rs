use ts_checker::analyzer::{Analyzer, ModuleInfo, DEFAULT_DEPTH};
use ts_checker::ast::{Class, Expr, Function, Pat, VarKind};
use ts_checker::errors::{Diag, Error, Unsupported};
use ts_checker::export::{
    export, validate_export_default_decl, DefaultDecl, ExportedDecl, Exports, PendingExport,
};
use ts_checker::number::Number;
use ts_checker::scope::{Env, Named, TypeDecl};
use ts_checker::span::Span;
use ts_checker::state::State;
use ts_checker::types::{Keyword, Lit, Type};

fn sp(lo: u32, hi: u32) -> Span {
    Span { lo, hi }
}

fn kw(k: Keyword) -> Type {
    Type::Keyword(k)
}

fn ident(span: Span, name: &str) -> Expr {
    Expr::Ident { span, sym: name.to_string() }
}

fn decl(name: &str, types: Vec<Type>) -> TypeDecl {
    TypeDecl { name: name.to_string(), types }
}

fn var(name: &str, ty: Type) -> Named {
    Named { name: name.to_string(), ty }
}

fn module() -> Analyzer {
    let mut env = Env::new();
    env.declare_var(sp(0, 1), VarKind::Let, "a".to_string(), Some(kw(Keyword::Number)), true, false).unwrap();
    env.declare_var(sp(0, 1), VarKind::Let, "b".to_string(), None, true, false).unwrap();
    env.register_type("T".to_string(), kw(Keyword::String));
    env.register_type("T".to_string(), kw(Keyword::Boolean));
    env.register_type("U".to_string(), kw(Keyword::Object));
    Analyzer::new(env, DEFAULT_DEPTH)
}

#[test]
fn module_without_explicit_export_exports_every_binding() {
    let mut a = module();
    a.handle_pending_exports();
    assert_eq!(
        a.exports,
        Exports {
            vars: vec![var("a", kw(Keyword::Number)), var("b", kw(Keyword::Any))],
            types: vec![
                decl("T", vec![kw(Keyword::String), kw(Keyword::Boolean)]),
                decl("U", vec![kw(Keyword::Object)]),
            ],
        }
    );
    assert_eq!(a.env.find_var(&"a".to_string()), None);
    assert_eq!(a.env.find_type(&"T".to_string()), None);
    let ModuleInfo { exports, errors } = a.finish();
    assert_eq!(exports.vars.len(), 2);
    assert_eq!(errors, vec![]);
}

#[test]
fn module_with_an_explicit_export_exports_only_what_is_named() {
    let mut a = module();
    a.export_decl(&ExportedDecl::Named { span: sp(0, 9), name: "U".to_string() });
    a.handle_pending_exports();
    assert_eq!(a.exports, Exports { vars: vec![], types: vec![decl("U", vec![kw(Keyword::Object)])] });
    assert!(a.env.find_var(&"a".to_string()).is_some());
    assert_eq!(a.state.errors, vec![]);
}

#[test]
fn export_of_a_type() {
    let a = module();
    let mut st = State::new();
    let mut exports = Exports::new();
    export(&a.env, &mut st, &mut exports, sp(0, 9), "T".to_string(), None);
    export(&a.env, &mut st, &mut exports, sp(0, 9), "T".to_string(), Some("U".to_string()));
    export(&a.env, &mut st, &mut exports, sp(0, 9), "V".to_string(), Some("U".to_string()));
    export(&a.env, &mut st, &mut exports, sp(3, 4), "W".to_string(), None);
    assert_eq!(
        exports.types,
        vec![
            decl("T", vec![kw(Keyword::String), kw(Keyword::Boolean), kw(Keyword::Object)]),
            decl("V", vec![kw(Keyword::Object)]),
        ]
    );
    assert_eq!(st.errors, vec![Error::Diag(Diag::UnresolvedExport { span: sp(3, 4) })]);
}

#[test]
fn export_of_declarations() {
    let mut a = module();
    a.export_decl(&ExportedDecl::Var {
        span: sp(0, 20),
        kind: VarKind::Const,
        decls: vec![
            Pat::Array {
                span: sp(6, 12),
                elems: vec![
                    Pat::Ident { span: sp(7, 8), sym: "x".to_string(), optional: false, type_ann: Some(kw(Keyword::Number)) },
                    Pat::Ident { span: sp(10, 11), sym: "a".to_string(), optional: false, type_ann: None },
                ],
                type_ann: None,
            },
            Pat::Ident { span: sp(14, 15), sym: "y".to_string(), optional: false, type_ann: None },
        ],
    });
    a.export_decl(&ExportedDecl::Enum { span: sp(20, 30), name: "E".to_string(), ty: kw(Keyword::Number) });
    a.export_decl(&ExportedDecl::Module { span: sp(30, 40) });
    a.export_decl(&ExportedDecl::Class {
        name: "C".to_string(),
        span: sp(40, 50),
        declare: false,
        class: Class {
            span: sp(40, 50),
            is_abstract: true,
            super_class: None,
            super_type_args: None,
            type_params: None,
            body: vec![],
        },
    });
    let class = Type::Class {
        name: Some("C".to_string()),
        is_abstract: true,
        super_class: None,
        type_params: None,
        body: vec![],
    };
    assert_eq!(
        a.exports,
        Exports {
            vars: vec![var("x", kw(Keyword::Number)), var("y", kw(Keyword::Any))],
            types: vec![decl("E", vec![kw(Keyword::Number)]), decl("C", vec![class])],
        }
    );
    assert_eq!(
        a.state.errors,
        vec![
            Error::Diag(Diag::DuplicateDeclaration { span: sp(10, 11) }),
            Error::Diag(Diag::Unsupported { span: sp(30, 40), what: Unsupported::Export }),
        ]
    );
    assert_eq!(a.env.find_var_type(&"x".to_string()), Some(&kw(Keyword::Number)));
}

#[test]
fn default_export_of_an_expression() {
    let mut a = module();
    a.export_default_expr(ident(sp(15, 16), "a"));
    assert_eq!(a.exports.vars, vec![var("default", kw(Keyword::Number))]);
    a.export_default_expr(ident(sp(35, 36), "b"));
    assert_eq!(a.exports.vars, vec![var("default", kw(Keyword::Number))]);
    assert_eq!(a.state.errors, vec![Error::Diag(Diag::DuplicateDeclaration { span: sp(35, 36) })]);
    assert_eq!(a.pending_exports, vec![]);

    let mut b = module();
    b.env.add_declaring(&vec!["a".to_string()]);
    b.export_default_expr(ident(sp(15, 16), "a"));
    assert_eq!(b.exports.vars, vec![]);
    assert_eq!(b.state.errors, vec![Error::Diag(Diag::ReferencedInInit { span: sp(15, 16) })]);
}

#[test]
fn default_export_of_a_later_declaration_is_resolved_at_the_end() {
    let mut a = Analyzer::new(Env::new(), DEFAULT_DEPTH);
    a.export_default_expr(ident(sp(9, 14), "React"));
    assert_eq!(
        a.pending_exports,
        vec![PendingExport { name: "default".to_string(), span: sp(9, 14), expr: ident(sp(9, 14), "React") }]
    );
    assert_eq!(a.state.errors, vec![]);
    a.env.register_type("React".to_string(), kw(Keyword::Object));
    a.env.register_type("Other".to_string(), kw(Keyword::Number));
    a.handle_pending_exports();
    assert_eq!(a.pending_exports, vec![]);
    assert_eq!(a.exports, Exports { vars: vec![], types: vec![decl("default", vec![kw(Keyword::Object)])] });
    assert_eq!(a.env.find_type(&"React".to_string()), None);
    assert_eq!(a.env.find_type(&"Other".to_string()), Some(&kw(Keyword::Number)));
}

#[test]
fn pending_export_that_stays_unresolved_is_recorded() {
    let mut a = Analyzer::new(Env::new(), DEFAULT_DEPTH);
    a.export_default_expr(ident(sp(9, 14), "React"));
    a.pending_exports.push(PendingExport {
        name: "named".to_string(),
        span: sp(20, 30),
        expr: Expr::Lit { span: sp(20, 21), lit: Lit::Num(Number::from_int(1)) },
    });
    a.env.declare_var(sp(0, 1), VarKind::Let, "v".to_string(), None, true, false).unwrap();
    a.handle_pending_exports();
    assert_eq!(a.state.errors, vec![Error::Diag(Diag::UndefinedSymbol { span: sp(9, 14) })]);
    assert_eq!(
        a.exports,
        Exports {
            vars: vec![],
            types: vec![decl("named", vec![Type::Lit(Lit::Num(Number::from_int(1)))])],
        }
    );
    assert!(a.env.find_var(&"v".to_string()).is_some());
}

#[test]
fn default_export_of_declarations() {
    let mut env = Env::new();
    env.register_type("I".to_string(), kw(Keyword::Object));
    let mut st = State::new();
    let mut exports = Exports::new();
    let f = |ret: Option<Type>| Function {
        span: sp(0, 30),
        params: vec![],
        type_params: None,
        return_type: ret,
        has_body: true,
    };
    let fn_ty = Type::Function { type_params: None, params: vec![], ret: Box::new(kw(Keyword::Any)) };
    validate_export_default_decl(
        &mut env,
        &mut st,
        &mut exports,
        &DefaultDecl::Fn { span: sp(0, 30), name: Some("f".to_string()), function: f(None) },
        DEFAULT_DEPTH,
    );
    assert_eq!(exports.types, vec![decl("default", vec![fn_ty.clone()])]);
    assert_eq!(env.find_type(&"f".to_string()), Some(&fn_ty));
    validate_export_default_decl(
        &mut env,
        &mut st,
        &mut exports,
        &DefaultDecl::Interface { span: sp(40, 50), name: "I".to_string() },
        DEFAULT_DEPTH,
    );
    validate_export_default_decl(&mut env, &mut st, &mut exports, &DefaultDecl::Class { span: sp(50, 60) }, DEFAULT_DEPTH);
    validate_export_default_decl(
        &mut env,
        &mut st,
        &mut exports,
        &DefaultDecl::Fn { span: sp(0, 30), name: None, function: f(Some(kw(Keyword::Number))) },
        DEFAULT_DEPTH,
    );
    assert_eq!(exports.types, vec![decl("default", vec![fn_ty, kw(Keyword::Object)])]);
    assert_eq!(
        st.errors,
        vec![
            Error::Diag(Diag::Unsupported { span: sp(50, 60), what: Unsupported::Export }),
            Error::Errors {
                span: sp(0, 30),
                errors: vec![Error::Diag(Diag::ReturnRequired { span: sp(0, 30) })],
            },
        ]
    );
}
