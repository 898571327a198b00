//! The syntax tree that the analyzer reads. A parser builds it; the
//! analyzer never changes it. Each node holds what the rules read of it, and
//! its place in the source.

use vstd::prelude::*;
use crate::number::Number;
use crate::span::Span;
use crate::types::{Lit, Type};

verus! {

/// The binary operators.
#[derive(Clone, Copy, Debug, PartialEq, Eq, Hash, Structural)]
pub enum BinaryOp {
    EqEq,
    NotEq,
    EqEqEq,
    NotEqEq,
    Lt,
    LtEq,
    Gt,
    GtEq,
    LShift,
    RShift,
    ZeroFillRShift,
    Add,
    Sub,
    Mul,
    Div,
    Mod,
    BitOr,
    BitXor,
    BitAnd,
    LogicalOr,
    LogicalAnd,
    In,
    InstanceOf,
    Exp,
    NullishCoalescing,
}

/// The unary operators.
#[derive(Clone, Copy, Debug, PartialEq, Eq, Hash, Structural)]
pub enum UnaryOp {
    Minus,
    Plus,
    Bang,
    Tilde,
    TypeOf,
    Void,
    Delete,
}

/// Whether a method of a class is a plain method or an accessor.
#[derive(Clone, Copy, Debug, PartialEq, Eq, Hash, Structural)]
pub enum MethodKind {
    Method,
    Getter,
    Setter,
}

/// The kind of a variable declaration.
#[derive(Clone, Copy, Debug, PartialEq, Eq, Hash, Structural)]
pub enum VarKind {
    Var,
    Let,
    Const,
}

/// The name of a property as it is written.
#[derive(Debug, PartialEq, Eq)]
pub enum PropName {
    Ident { span: Span, sym: String },
    Str { span: Span, value: String },
    Num { span: Span, value: Number },
    Computed { span: Span, expr: Box<Expr> },
}

/// An element of an array literal.
#[derive(Debug, PartialEq, Eq)]
pub enum ArrayElem {
    /// An elided element.
    Hole { span: Span },
    Item(Expr),
    Spread(Expr),
}

/// An argument of a call.
#[derive(Debug, PartialEq, Eq)]
pub struct Arg {
    pub spread: bool,
    pub expr: Expr,
}

/// A property of an object literal.
#[derive(Debug, PartialEq, Eq)]
pub enum Prop {
    Shorthand { span: Span, sym: String },
    KeyValue { span: Span, key: PropName, value: Expr },
    Assign { span: Span, sym: String },
    Getter { span: Span, key: PropName },
    Setter { span: Span, key: PropName },
    Method { span: Span, key: PropName, function: Function },
    Spread { span: Span, expr: Expr },
}

/// A property of an object pattern.
#[derive(Debug, PartialEq, Eq)]
pub enum ObjectPatProp {
    KeyValue { key: PropName, value: Pat },
    Assign { span: Span, sym: String },
    Rest { arg: Pat },
}

/// A pattern: what a declaration or a parameter binds.
#[derive(Debug, PartialEq, Eq)]
pub enum Pat {
    Ident { span: Span, sym: String, optional: bool, type_ann: Option<Type> },
    Array { span: Span, elems: Vec<Pat>, type_ann: Option<Type> },
    Rest { span: Span, dot3: Span, arg: Box<Pat>, type_ann: Option<Type> },
    Object { span: Span, props: Vec<ObjectPatProp>, type_ann: Option<Type> },
    Assign { span: Span, left: Box<Pat>, right: Box<Expr> },
    /// A pattern that binds nothing that the analyzer reads.
    Other { span: Span },
}

/// A function: a declaration, a function expression, an arrow or a method.
/// The statements of its body are not held here: the types of the values
/// that the body returns are recorded under the function's span.
#[derive(Debug, PartialEq, Eq)]
pub struct Function {
    pub span: Span,
    pub params: Vec<Pat>,
    pub type_params: Option<Vec<String>>,
    pub return_type: Option<Type>,
    pub has_body: bool,
}

/// A parameter of a constructor.
#[derive(Debug, PartialEq, Eq)]
pub enum CtorParam {
    Pat(Pat),
    /// A parameter that also declares a property. `sym` and `type_ann` are
    /// those of the identifier that it binds.
    Prop { span: Span, ident_span: Span, sym: String, optional: bool, type_ann: Option<Type> },
}

/// A member of a class as it is written.
#[derive(Debug, PartialEq, Eq)]
pub enum ClassItem {
    Constructor { span: Span, key: PropName, params: Vec<CtorParam>, has_body: bool },
    Method {
        span: Span,
        key: PropName,
        kind: MethodKind,
        is_static: bool,
        is_abstract: bool,
        function: Function,
    },
    PrivateMethod { span: Span },
    Prop {
        span: Span,
        key: Expr,
        computed: bool,
        value: Option<Expr>,
        type_ann: Option<Type>,
        is_static: bool,
        is_optional: bool,
        readonly: bool,
    },
    PrivateProp { span: Span },
    Index { span: Span, readonly: bool, key_ty: Type, type_ann: Option<Type> },
}

/// A class as it is written.
#[derive(Debug, PartialEq, Eq)]
pub struct Class {
    pub span: Span,
    pub is_abstract: bool,
    pub super_class: Option<Box<Expr>>,
    pub super_type_args: Option<Vec<Type>>,
    pub type_params: Option<Vec<String>>,
    pub body: Vec<ClassItem>,
}

/// An expression.
#[derive(Debug, PartialEq, Eq)]
pub enum Expr {
    This { span: Span },
    Ident { span: Span, sym: String },
    Array { span: Span, elems: Vec<ArrayElem> },
    Lit { span: Span, lit: Lit },
    Null { span: Span },
    Regex { span: Span },
    Paren { span: Span, expr: Box<Expr> },
    /// A template literal. `text` is the text of its first quasi.
    Tpl { span: Span, text: String, exprs: Vec<Expr> },
    Bin { span: Span, op: BinaryOp, left: Box<Expr>, right: Box<Expr> },
    Unary { span: Span, op: UnaryOp, arg: Box<Expr> },
    /// `e as T`, and the same written as a cast.
    TsAs { span: Span, expr: Box<Expr>, ty: Type },
    /// `<T>e`.
    TsTypeAssertion { span: Span, expr: Box<Expr>, ty: Type },
    TsNonNull { span: Span, expr: Box<Expr> },
    Object { span: Span, props: Vec<Prop> },
    Yield { span: Span },
    Update { span: Span },
    Cond { span: Span, test: Box<Expr>, cons: Box<Expr>, alt: Box<Expr> },
    New { span: Span, callee: Box<Expr>, args: Vec<Arg>, type_args: Option<Vec<Type>> },
    Call { span: Span, callee: Box<Expr>, args: Vec<Arg>, type_args: Option<Vec<Type>> },
    SuperCall { span: Span },
    Sequence { span: Span, exprs: Vec<Expr> },
    Await { span: Span },
    MetaProp { span: Span },
    Class { span: Span, class: Box<Class> },
    Arrow { function: Box<Function> },
    Fn { function: Box<Function> },
    Member { span: Span, obj: Box<Expr>, prop: Box<Expr>, computed: bool },
    SuperMember { span: Span },
    /// An assignment. `target` is the name on the left where the left side
    /// is one identifier.
    Assign { span: Span, target: Option<String>, right: Box<Expr> },
    Invalid { span: Span },
    /// An expression of a kind that the analyzer has no rule for.
    Other { span: Span },
}

impl Expr {
    /// The place of the node in the source.
    pub open spec fn spec_span(&self) -> Span {
        match *self {
            Expr::This { span } => span,
            Expr::Ident { span, .. } => span,
            Expr::Array { span, .. } => span,
            Expr::Lit { span, .. } => span,
            Expr::Null { span } => span,
            Expr::Regex { span } => span,
            Expr::Paren { span, .. } => span,
            Expr::Tpl { span, .. } => span,
            Expr::Bin { span, .. } => span,
            Expr::Unary { span, .. } => span,
            Expr::TsAs { span, .. } => span,
            Expr::TsTypeAssertion { span, .. } => span,
            Expr::TsNonNull { span, .. } => span,
            Expr::Object { span, .. } => span,
            Expr::Yield { span } => span,
            Expr::Update { span } => span,
            Expr::Cond { span, .. } => span,
            Expr::New { span, .. } => span,
            Expr::Call { span, .. } => span,
            Expr::SuperCall { span } => span,
            Expr::Sequence { span, .. } => span,
            Expr::Await { span } => span,
            Expr::MetaProp { span } => span,
            Expr::Class { span, .. } => span,
            Expr::Arrow { function } => function.span,
            Expr::Fn { function } => function.span,
            Expr::Member { span, .. } => span,
            Expr::SuperMember { span } => span,
            Expr::Assign { span, .. } => span,
            Expr::Invalid { span } => span,
            Expr::Other { span } => span,
        }
    }

    /// The place of the expression in the source.
    #[verifier::when_used_as_spec(spec_span)]
    pub fn span(&self) -> (s: Span)
        ensures
            s == self.spec_span(),
    {
        match self {
            Expr::This { span } => *span,
            Expr::Ident { span, .. } => *span,
            Expr::Array { span, .. } => *span,
            Expr::Lit { span, .. } => *span,
            Expr::Null { span } => *span,
            Expr::Regex { span } => *span,
            Expr::Paren { span, .. } => *span,
            Expr::Tpl { span, .. } => *span,
            Expr::Bin { span, .. } => *span,
            Expr::Unary { span, .. } => *span,
            Expr::TsAs { span, .. } => *span,
            Expr::TsTypeAssertion { span, .. } => *span,
            Expr::TsNonNull { span, .. } => *span,
            Expr::Object { span, .. } => *span,
            Expr::Yield { span } => *span,
            Expr::Update { span } => *span,
            Expr::Cond { span, .. } => *span,
            Expr::New { span, .. } => *span,
            Expr::Call { span, .. } => *span,
            Expr::SuperCall { span } => *span,
            Expr::Sequence { span, .. } => *span,
            Expr::Await { span } => *span,
            Expr::MetaProp { span } => *span,
            Expr::Class { span, .. } => *span,
            Expr::Arrow { function } => function.span,
            Expr::Fn { function } => function.span,
            Expr::Member { span, .. } => *span,
            Expr::SuperMember { span } => *span,
            Expr::Assign { span, .. } => *span,
            Expr::Invalid { span } => *span,
            Expr::Other { span } => *span,
        }
    }
}

impl PropName {
    /// The place of the node in the source.
    pub open spec fn spec_span(&self) -> Span {
        match *self {
            PropName::Ident { span, .. } => span,
            PropName::Str { span, .. } => span,
            PropName::Num { span, .. } => span,
            PropName::Computed { span, .. } => span,
        }
    }

    /// The place of the property name in the source.
    #[verifier::when_used_as_spec(spec_span)]
    pub fn span(&self) -> (s: Span)
        ensures
            s == self.spec_span(),
    {
        match self {
            PropName::Ident { span, .. } => *span,
            PropName::Str { span, .. } => *span,
            PropName::Num { span, .. } => *span,
            PropName::Computed { span, .. } => *span,
        }
    }
}

impl Pat {
    /// The place of the node in the source.
    pub open spec fn spec_span(&self) -> Span {
        match *self {
            Pat::Ident { span, .. } => span,
            Pat::Array { span, .. } => span,
            Pat::Rest { span, .. } => span,
            Pat::Object { span, .. } => span,
            Pat::Assign { span, .. } => span,
            Pat::Other { span } => span,
        }
    }

    /// The place of the pattern in the source.
    #[verifier::when_used_as_spec(spec_span)]
    pub fn span(&self) -> (s: Span)
        ensures
            s == self.spec_span(),
    {
        match self {
            Pat::Ident { span, .. } => *span,
            Pat::Array { span, .. } => *span,
            Pat::Rest { span, .. } => *span,
            Pat::Object { span, .. } => *span,
            Pat::Assign { span, .. } => *span,
            Pat::Other { span } => *span,
        }
    }
}

impl CtorParam {
    /// The place of the node in the source.
    pub open spec fn spec_span(&self) -> Span {
        match *self {
            CtorParam::Pat(p) => p.spec_span(),
            CtorParam::Prop { span, .. } => span,
        }
    }

    /// The place of the parameter in the source.
    #[verifier::when_used_as_spec(spec_span)]
    pub fn span(&self) -> (s: Span)
        ensures
            s == self.spec_span(),
    {
        match self {
            CtorParam::Pat(p) => p.span(),
            CtorParam::Prop { span, .. } => *span,
        }
    }
}

} // verus!
