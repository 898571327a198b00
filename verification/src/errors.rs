//! Diagnostics. A diagnostic names a rule that the source breaks and the
//! place where it does. A fatal error ends the inference that met it; a
//! recoverable one is recorded and the inference goes on.

use vstd::prelude::*;
use crate::span::Span;

verus! {

/// A construct that the analyzer does not handle.
#[derive(Clone, Copy, Debug, PartialEq, Eq, Hash, Structural)]
pub enum Unsupported {
    /// A spread element in an array literal.
    ArraySpread,
    /// A spread property whose source is no type literal.
    ObjectSpread,
    AwaitExpr,
    MetaProp,
    /// An expression kind without a rule.
    Expr,
    /// A property of an object literal without a rule.
    Prop,
    /// A member access on `super`.
    SuperMember,
    /// A qualified name of more than two parts.
    EntityName,
    /// A named type that resolves to a declaration without a rule.
    Declaration,
    /// `+` on operands without a rule.
    Plus,
    /// The operator `??`.
    NullishCoalescing,
    /// A member access on a keyword type without a built-in interface.
    KeywordAccess,
    /// A member access on an enum with a property without a rule.
    EnumAccess,
    /// A member access on an object type without a rule.
    Access,
    /// A method call for which no member has the name.
    NoMethod,
    /// A method call for which no candidate has the arity.
    AmbiguousMethod,
    /// A call of a computed member.
    ComputedCall,
    /// A call of `require`.
    Require,
    /// A signature with type parameters where none can be instantiated.
    GenericSignature,
    /// An export form without a rule.
    Export,
    /// The nesting of the input exceeds the depth that the analyzer was
    /// given.
    Depth,
}

/// One diagnostic.
#[derive(Clone, Copy, Debug, PartialEq, Eq, Hash, Structural)]
pub enum Diag {
    /// A name is read by its own initializer.
    ReferencedInInit { span: Span },
    UndefinedSymbol { span: Span },
    NameNotFound { span: Span },
    /// Type arguments are given to a type that takes none.
    NotGeneric { span: Span },
    /// A value of type `unknown` is used.
    Unknown { span: Span },
    NoSuchProperty { span: Span },
    /// A read-only property is written.
    ReadOnly { span: Span },
    TupleIndexError { span: Span, index: i64, len: u64 },
    ConstEnumNonIndexAccess { span: Span },
    InvalidLValue { span: Span },
    CannotAssignToNonVariable { span: Span },
    NoCallSignature { span: Span },
    NoNewSignature { span: Span },
    /// A call with `actual` arguments where `min` to `max` are taken.
    WrongParams { span: Span, callee: Span, min: usize, max: usize, actual: usize },
    /// A strict comparison of two types that share no value. `value` is what
    /// the comparison always gives.
    NoOverlap { span: Span, value: bool, left: Span, right: Span },
    DuplicateDeclaration { span: Span },
    /// A value is not assignable to the type that is expected.
    AssignFailed { span: Span },
    ReturnRequired { span: Span },
    UselessSeqExpr { span: Span },
    ImplicitAny { span: Span },
    /// An export names nothing that the module declares.
    UnresolvedExport { span: Span },
    Unsupported { span: Span, what: Unsupported },
    /// A parameter follows an optional one.
    TS1016 { span: Span },
    /// An accessor has type parameters.
    TS1094 { span: Span },
    /// A setter declares a return type.
    TS1095 { span: Span },
    /// A computed key of a class property is no literal and no symbol.
    TS1166 { span: Span },
    /// A body in an ambient context.
    TS1183 { span: Span },
    /// An abstract method with a body.
    TS1318 { span: Span },
    /// The left operand of `&&` or `||` is of type `void`.
    TS1345 { span: Span },
    /// The left operand of `in` is no key.
    TS2360 { span: Span },
    /// The right operand of `in` is no object.
    TS2361 { span: Span },
    /// The left operand of an arithmetic operator is no number.
    TS2362 { span: Span },
    /// The right operand of an arithmetic operator is no number.
    TS2363 { span: Span },
    /// `+` on `null` or `undefined`.
    TS2365 { span: Span },
    /// A parameter property in a constructor overload.
    TS2369 { span: Span },
    /// A rest parameter that is no array.
    TS2370 { span: Span },
    /// An object literal names a property that the pattern lacks.
    TS2353 { span: Span },
    /// A getter without a return statement.
    TS2378 { span: Span },
    /// An overload is followed by the implementation of another name.
    TS2389 { span: Span },
    /// An overload without an implementation.
    TS2391 { span: Span },
    /// Constructor overloads differ in their required parameters.
    TS2394 { span: Span },
    /// A bitwise operator on two booleans.
    TS2447 { span: Span },
    /// A method of the superclass is not implemented.
    TS2515 { span: Span },
    /// `Symbol` is used as a value, and the target library does not declare
    /// it.
    TS2585 { span: Span },
}

/// A fatal error: one diagnostic, or the errors of the parts of a construct.
#[derive(Debug, PartialEq, Eq)]
pub enum Error {
    Diag(Diag),
    Errors { span: Span, errors: Vec<Error> },
    /// The errors of the members of a union.
    UnionError { span: Span, errors: Vec<Error> },
}

/// The view of an error.
pub ghost enum ErrorV {
    Diag(Diag),
    Errors { span: Span, errors: Seq<ErrorV> },
    UnionError { span: Span, errors: Seq<ErrorV> },
}

/// The view of the error `e`.
pub open spec fn error_view(e: Error) -> ErrorV
    decreases e, 0nat,
{
    match e {
        Error::Diag(d) => ErrorV::Diag(d),
        Error::Errors { span, errors: es } => ErrorV::Errors { span, errors: errors(es@) },
        Error::UnionError { span, errors: es } => ErrorV::UnionError { span, errors: errors(es@) },
    }
}

/// The views of the errors in `s`, in their order.
pub open spec fn errors(s: Seq<Error>) -> Seq<ErrorV>
    decreases s, 1nat,
{
    Seq::new(
        s.len(),
        |i: int|
            if 0 <= i < s.len() {
                error_view(s[i])
            } else {
                ErrorV::Diag(Diag::Unknown { span: Span { lo: 0, hi: 0 } })
            },
    )
}

impl View for Error {
    type V = ErrorV;

    open spec fn view(&self) -> ErrorV {
        error_view(*self)
    }
}

impl ErrorV {
    /// Whether the error is the one diagnostic of a read-only violation.
    pub open spec fn is_read_only(self) -> bool {
        self matches ErrorV::Diag(Diag::ReadOnly { .. })
    }

    /// Whether the error is the one diagnostic of an undefined symbol.
    pub open spec fn is_undefined_symbol(self) -> bool {
        self matches ErrorV::Diag(Diag::UndefinedSymbol { .. })
    }

    /// Whether the error is the one diagnostic of a self-reference.
    pub open spec fn is_referenced_in_init(self) -> bool {
        self matches ErrorV::Diag(Diag::ReferencedInInit { .. })
    }
}

impl Error {
    /// Whether the error is the one diagnostic of a read-only violation.
    pub fn is_read_only(&self) -> (b: bool)
        ensures
            b == self@.is_read_only(),
    {
        match self {
            Error::Diag(Diag::ReadOnly { .. }) => true,
            _ => false,
        }
    }

    /// Whether the error is the one diagnostic of an undefined symbol.
    pub fn is_undefined_symbol(&self) -> (b: bool)
        ensures
            b == self@.is_undefined_symbol(),
    {
        match self {
            Error::Diag(Diag::UndefinedSymbol { .. }) => true,
            _ => false,
        }
    }

    /// Whether the error is the one diagnostic of a self-reference.
    pub fn is_referenced_in_init(&self) -> (b: bool)
        ensures
            b == self@.is_referenced_in_init(),
    {
        match self {
            Error::Diag(Diag::ReferencedInInit { .. }) => true,
            _ => false,
        }
    }
}

/// The result of an inference, as contracts speak of it.
pub open spec fn result_view(r: Result<crate::types::Type, Error>) -> Result<
    crate::types::TypeV,
    ErrorV,
> {
    match r {
        Ok(t) => Ok(t@),
        Err(e) => Err(e@),
    }
}

} // verus!
