use ts_checker::analyzer::{Analyzer, DEFAULT_DEPTH};
use ts_checker::ast::{Expr, Function, Pat};
use ts_checker::errors::{Diag, Error};
use ts_checker::function::type_of_fn_detail;
use ts_checker::number::Number;
use ts_checker::ops::is_assignable;
use ts_checker::scope::Env;
use ts_checker::span::Span;
use ts_checker::state::State;
use ts_checker::types::{FnParam, Keyword, Lit, Type};

fn sp(lo: u32, hi: u32) -> Span {
    Span { lo, hi }
}

fn kw(k: Keyword) -> Type {
    Type::Keyword(k)
}

const F: Span = Span { lo: 0, hi: 30 };

fn function(ret: Option<Type>, has_body: bool) -> Function {
    Function {
        span: F,
        params: vec![Pat::Ident {
            span: sp(1, 2),
            sym: "x".to_string(),
            optional: false,
            type_ann: Some(kw(Keyword::Number)),
        }],
        type_params: Some(vec!["T".to_string()]),
        return_type: ret,
        has_body,
    }
}

fn fn_type(ret: Type) -> Type {
    Type::Function {
        type_params: Some(vec!["T".to_string()]),
        params: vec![FnParam { required: true, ty: kw(Keyword::Number) }],
        ret: Box::new(ret),
    }
}

fn with_returns(types: Vec<Type>) -> Analyzer {
    let mut a = Analyzer::new(Env::new(), DEFAULT_DEPTH);
    for t in types {
        a.state.record_return(F, t);
    }
    a
}

fn arrow(a: &mut Analyzer, ret: Option<Type>) -> Result<Type, Error> {
    a.validate_expr(&Expr::Arrow { function: Box::new(function(ret, true)) })
}

fn func(a: &mut Analyzer, ret: Option<Type>, has_body: bool) -> Result<Type, Error> {
    a.validate_expr(&Expr::Fn { function: Box::new(function(ret, has_body)) })
}

#[test]
fn return_type_is_inferred_from_the_body() {
    let lit = Type::Lit(Lit::Num(Number::from_int(1)));
    let mut a = with_returns(vec![lit.clone(), kw(Keyword::String), lit.clone()]);
    assert_eq!(arrow(&mut a, None), Ok(fn_type(Type::Union(vec![lit.clone(), kw(Keyword::String)]))));
    assert_eq!(arrow(&mut a, None), Ok(fn_type(kw(Keyword::Any))));
    let mut b = with_returns(vec![lit.clone()]);
    assert_eq!(func(&mut b, None, true), Ok(fn_type(lit)));
    assert_eq!(func(&mut b, None, true), Ok(fn_type(kw(Keyword::Any))));
    let mut c = with_returns(vec![kw(Keyword::String)]);
    assert_eq!(func(&mut c, None, false), Ok(fn_type(kw(Keyword::Any))));
    assert_eq!(c.state.infer_return_type(F), Some(kw(Keyword::String)));
    assert_eq!(c.state.infer_return_type(F), None);
    assert_eq!(c.state.infer_return_type(sp(1, 2)), None);
}

#[test]
fn inferred_return_type_must_be_assignable_to_the_declared_one() {
    let lit = Type::Lit(Lit::Num(Number::from_int(1)));
    let mut a = with_returns(vec![lit.clone()]);
    assert_eq!(arrow(&mut a, Some(kw(Keyword::Number))), Ok(fn_type(kw(Keyword::Number))));
    let mut b = with_returns(vec![lit.clone()]);
    assert_eq!(arrow(&mut b, Some(kw(Keyword::String))), Err(Error::Diag(Diag::AssignFailed { span: F })));
    let mut c = with_returns(vec![lit.clone()]);
    assert_eq!(func(&mut c, Some(kw(Keyword::String)), true), Err(Error::Diag(Diag::AssignFailed { span: F })));
    let mut d = with_returns(vec![lit]);
    assert_eq!(
        func(&mut d, Some(Type::Union(vec![kw(Keyword::String), kw(Keyword::Number)])), true),
        Ok(fn_type(Type::Union(vec![kw(Keyword::String), kw(Keyword::Number)])))
    );
}

#[test]
fn declared_return_type_is_expanded() {
    let class = || Type::Class {
        name: Some("C".to_string()),
        is_abstract: false,
        super_class: None,
        type_params: None,
        body: vec![],
    };
    let mut env = Env::new();
    env.register_type("C".to_string(), class());
    let named = |n: &str| Type::Ref { path: vec![n.to_string()], type_args: None };
    let instance = Type::ClassInstance { cls: Box::new(class()), type_args: None };
    let mut a = Analyzer::new(env, DEFAULT_DEPTH);
    assert_eq!(arrow(&mut a, Some(named("C"))), Ok(fn_type(instance.clone())));
    assert_eq!(func(&mut a, Some(named("C")), false), Ok(fn_type(instance)));
    assert_eq!(arrow(&mut a, Some(named("Missing"))), Err(Error::Diag(Diag::NameNotFound { span: F })));
    assert_eq!(
        func(&mut a, Some(named("Missing")), false),
        Err(Error::Errors { span: F, errors: vec![Error::Diag(Diag::NameNotFound { span: F })] })
    );
}

#[test]
fn function_detail_keeps_recoverable_errors_apart() {
    let env = Env::new();
    let mut st = State::new();
    let missing = Type::Ref { path: vec!["Missing".to_string()], type_args: None };
    assert_eq!(
        type_of_fn_detail(&env, &mut st, &function(Some(missing.clone()), true), DEFAULT_DEPTH),
        Ok((
            fn_type(missing),
            vec![
                Error::Diag(Diag::NameNotFound { span: F }),
                Error::Diag(Diag::ReturnRequired { span: F }),
            ]
        ))
    );
    for quiet in [Keyword::Any, Keyword::Void] {
        assert_eq!(
            type_of_fn_detail(&env, &mut st, &function(Some(kw(quiet)), true), DEFAULT_DEPTH),
            Ok((fn_type(kw(quiet)), vec![]))
        );
    }
    assert_eq!(
        type_of_fn_detail(&env, &mut st, &function(Some(kw(Keyword::Number)), true), DEFAULT_DEPTH),
        Ok((fn_type(kw(Keyword::Number)), vec![Error::Diag(Diag::ReturnRequired { span: F })]))
    );
    assert_eq!(st.errors, vec![]);
}

#[test]
fn class_type_by_either_name() {
    let mut st = State::new();
    let c = ts_checker::ast::Class {
        span: F,
        is_abstract: true,
        super_class: None,
        super_type_args: None,
        type_params: None,
        body: vec![],
    };
    let expected = Type::Class {
        name: Some("C".to_string()),
        is_abstract: true,
        super_class: None,
        type_params: None,
        body: vec![],
    };
    assert_eq!(
        ts_checker::function::validate_type_of_class(&Env::new(), &mut st, Some("C".to_string()), &c, DEFAULT_DEPTH),
        Ok(expected)
    );
}

#[test]
fn assignability() {
    let lit = Type::Lit(Lit::Str("a".to_string()));
    assert!(is_assignable(&kw(Keyword::Any), &kw(Keyword::Number)));
    assert!(is_assignable(&kw(Keyword::Unknown), &kw(Keyword::Number)));
    assert!(is_assignable(&kw(Keyword::Number), &kw(Keyword::Any)));
    assert!(is_assignable(&kw(Keyword::String), &kw(Keyword::String)));
    assert!(is_assignable(&kw(Keyword::String), &lit));
    assert!(is_assignable(&Type::Union(vec![kw(Keyword::Number), kw(Keyword::String)]), &lit));
    assert!(is_assignable(&Type::Union(vec![kw(Keyword::Number), lit.clone()]), &lit));
    assert!(!is_assignable(&lit, &kw(Keyword::String)));
    assert!(!is_assignable(&kw(Keyword::Number), &kw(Keyword::String)));
    assert!(!is_assignable(&Type::Union(vec![kw(Keyword::Number)]), &kw(Keyword::String)));
}

#[test]
fn assignability_of_compound_types() {
    let lit = Type::Lit(Lit::Str("a".to_string()));
    let one = Type::Lit(Lit::Num(Number::from_int(1)));
    let array = |t: Type| Type::Array(Box::new(t));
    let either = || Type::Union(vec![kw(Keyword::Number), kw(Keyword::String)]);
    assert!(is_assignable(&either(), &Type::Union(vec![lit.clone(), one.clone()])));
    assert!(!is_assignable(&kw(Keyword::String), &Type::Union(vec![lit.clone(), one.clone()])));
    assert!(is_assignable(&array(kw(Keyword::String)), &array(lit.clone())));
    assert!(is_assignable(&array(either()), &array(kw(Keyword::Any))));
    assert!(!is_assignable(&array(either()), &array(array(kw(Keyword::Any)))));
    assert!(!is_assignable(&array(kw(Keyword::String)), &array(one.clone())));
    assert!(is_assignable(&array(either()), &Type::Tuple(vec![lit.clone(), one.clone()])));
    assert!(!is_assignable(&array(kw(Keyword::String)), &Type::Tuple(vec![lit.clone(), one.clone()])));
    assert!(is_assignable(&array(kw(Keyword::String)), &Type::Tuple(vec![])));
    let pair = Type::Tuple(vec![kw(Keyword::String), kw(Keyword::Number)]);
    assert!(is_assignable(&pair, &Type::Tuple(vec![lit.clone(), one.clone()])));
    assert!(!is_assignable(&pair, &Type::Tuple(vec![one.clone(), lit.clone()])));
    assert!(!is_assignable(&pair, &Type::Tuple(vec![lit.clone()])));
    assert!(!is_assignable(&pair, &array(kw(Keyword::String))));
    assert!(is_assignable(&Type::Union(vec![pair, kw(Keyword::Null)]), &Type::Tuple(vec![lit, one])));
}
