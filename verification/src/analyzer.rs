//! The analyzer of one module.

use vstd::prelude::*;
use crate::ast::{Arg, Class, Expr, Pat};
use crate::call::extract_call_new_expr_member;
use crate::class::{
    validate_class, validate_class_spec, visit_class_decl, visit_class_decl_spec,
    visit_class_expr, visit_class_expr_spec,
};
use crate::errors::{errors, result_view, Diag, Error};
use crate::expand::expand_type;
use crate::export::{
    export_default_expr, export_default_expr_spec, handle_pending_exports,
    handle_pending_exports_spec, pending, validate_export_decl, export_decl_spec, ExportedDecl,
    Exports, ExportsV, PendingExport,
};
use crate::expr::{effect_free, type_of};
use crate::member::access_property;
use crate::model::{ExtractKind, TypeOfMode};
use crate::ops::PropRef;
use crate::pat::{validate_pat, validate_pat_spec};
use crate::rules::{
    access_property as access_property_spec, call_expr, err, expand, is_effect_free,
    type_of as type_of_spec,
};
use crate::scope::{Env, EnvV};
use crate::span::Span;
use crate::state::{State, StateV};
use crate::types::{opt_str, opt_types, FnParam, Type};

verus! {

/// The depth that an analyzer gives to an inference unless it is told
/// otherwise.
pub const DEFAULT_DEPTH: usize = 512;

/// What the analysis of a module gives: its exports and its diagnostics.
#[derive(Debug, PartialEq, Eq)]
pub struct ModuleInfo {
    pub exports: Exports,
    pub errors: Vec<Error>,
}

/// The analyzer of one module. It owns the environment of the module, the
/// state of its inferences, its export tables and the queue of its pending
/// exports. Analyzers of different modules share nothing.
#[derive(Debug, PartialEq, Eq)]
pub struct Analyzer {
    pub env: Env,
    pub state: State,
    pub exports: Exports,
    pub pending_exports: Vec<PendingExport>,
    /// The depth that is given to each inference.
    pub depth: usize,
}

/// The diagnostics of the expressions of a sequence before its last one,
/// from position `i` on: an expression that can have no effect is useless,
/// and the error of each other one that fails is recorded.
pub open spec fn fold_from(
    env: EnvV,
    st: StateV,
    exprs: Seq<Expr>,
    first_lo: u32,
    i: int,
    fuel: nat,
) -> StateV
    decreases exprs.len() - i,
{
    if i < 0 || i + 1 >= exprs.len() {
        st
    } else {
        let e = exprs[i];
        if is_effect_free(e) && !env.allow_unreachable_code {
            fold_from(
                env,
                st.report(err(Diag::UselessSeqExpr { span: e.spec_span().spec_with_lo(first_lo) })),
                exprs,
                first_lo,
                i + 1,
                fuel,
            )
        } else {
            let (r, st1) = type_of_spec(env, st, e, TypeOfMode::RValue, fuel);
            match r {
                Ok(_) => fold_from(env, st1, exprs, first_lo, i + 1, fuel),
                Err(x) => fold_from(env, st1.report(x), exprs, first_lo, i + 1, fuel),
            }
        }
    }
}

/// The state after the sequence `exprs` is folded.
pub open spec fn fold_spec(env: EnvV, st: StateV, exprs: Seq<Expr>, fuel: nat) -> StateV {
    if exprs.len() == 0 {
        st
    } else {
        fold_from(env, st, exprs, exprs[0].spec_span().lo, 0, fuel)
    }
}

impl Analyzer {
    /// An analyzer of a module with the environment `env`.
    pub fn new(env: Env, depth: usize) -> (a: Analyzer)
        ensures
            a.env == env,
            a.depth == depth,
            a.state@ == StateV::empty(),
            a.exports@ == ExportsV::empty(),
            a.pending_exports@.len() == 0,
    {
        Analyzer {
            env,
            state: State::new(),
            exports: Exports::new(),
            pending_exports: Vec::new(),
            depth,
        }
    }

    /// Whether the parts of the analyzer that an inference does not touch
    /// are those of `before`.
    pub open spec fn same_module(self, before: Analyzer) -> bool {
        &&& self.env == before.env
        &&& self.exports == before.exports
        &&& self.pending_exports == before.pending_exports
        &&& self.depth == before.depth
    }

    /// The type of the expression `e`, read as a value.
    pub fn validate_expr(&mut self, e: &Expr) -> (r: Result<Type, Error>)
        ensures
            (result_view(r), final(self).state@) == type_of_spec(
                old(self).env@,
                old(self).state@,
                *e,
                TypeOfMode::RValue,
                old(self).depth as nat,
            ),
            final(self).same_module(*old(self)),
    {
        type_of(&self.env, &mut self.state, e, TypeOfMode::RValue, self.depth)
    }

    /// The type of the expression `e`, read or written as `type_mode` says.
    /// Type arguments that stand behind the expression do not change its
    /// type.
    pub fn validate_expr_with_extra(
        &mut self,
        e: &Expr,
        type_mode: TypeOfMode,
        type_args: Option<&Vec<Type>>,
    ) -> (r: Result<Type, Error>)
        ensures
            (result_view(r), final(self).state@) == type_of_spec(
                old(self).env@,
                old(self).state@,
                *e,
                type_mode,
                old(self).depth as nat,
            ),
            final(self).same_module(*old(self)),
    {
        type_of(&self.env, &mut self.state, e, type_mode, self.depth)
    }

    /// The canonical form of the type `t`.
    pub fn expand_type(&mut self, span: Span, t: Type) -> (r: Result<Type, Error>)
        ensures
            (result_view(r), final(self).state@) == expand(
                old(self).env@,
                old(self).state@,
                span,
                t@,
                old(self).depth as nat,
            ),
            final(self).same_module(*old(self)),
    {
        expand_type(&self.env, &mut self.state, span, t, self.depth)
    }

    /// The type of the property `prop` of an object of type `obj`.
    pub fn access_property(&mut self, span: Span, obj: Type, prop: &PropRef, mode: TypeOfMode) -> (r:
        Result<Type, Error>)
        ensures
            (result_view(r), final(self).state@) == access_property_spec(
                old(self).env@,
                old(self).state@,
                span,
                obj@,
                prop@,
                mode,
                old(self).depth as nat,
            ),
            final(self).same_module(*old(self)),
    {
        access_property(&self.env, &mut self.state, span, obj, prop, mode, self.depth)
    }

    /// The result type of a call or `new` expression.
    pub fn extract_call_new_expr_member(
        &mut self,
        callee: &Expr,
        kind: ExtractKind,
        args: &Vec<Arg>,
        type_args: &Option<Vec<Type>>,
    ) -> (r: Result<Type, Error>)
        ensures
            (result_view(r), final(self).state@) == call_expr(
                old(self).env@,
                old(self).state@,
                *callee,
                kind,
                args@,
                opt_types(*type_args),
                old(self).depth as nat,
            ),
            final(self).same_module(*old(self)),
    {
        extract_call_new_expr_member(
            &self.env,
            &mut self.state,
            callee,
            kind,
            args,
            type_args,
            self.depth,
        )
    }

    /// Validates a sequence expression that stands as a statement: each
    /// expression before the last one that can have no effect is recorded
    /// as useless, unless unreachable code is allowed, and the error of
    /// each other one that fails is recorded.
    pub fn fold(&mut self, exprs: &Vec<Expr>)
        ensures
            final(self).state@ == fold_spec(
                old(self).env@,
                old(self).state@,
                exprs@,
                old(self).depth as nat,
            ),
            final(self).same_module(*old(self)),
    {
        if exprs.len() == 0 {
            return ;
        }
        let first_lo = exprs[0].span().lo;
        let n = exprs.len() - 1;
        let mut i: usize = 0;
        while i < n
            invariant
                n + 1 == exprs.len(),
                i <= n,
                self.same_module(*old(self)),
                fold_from(
                    old(self).env@,
                    old(self).state@,
                    exprs@,
                    first_lo,
                    0,
                    old(self).depth as nat,
                ) == fold_from(
                    self.env@,
                    self.state@,
                    exprs@,
                    first_lo,
                    i as int,
                    self.depth as nat,
                ),
            decreases n - i,
        {
            let e = &exprs[i];
            if effect_free(e) && !self.env.allow_unreachable_code {
                self.state.report(
                    Error::Diag(Diag::UselessSeqExpr { span: e.span().with_lo(first_lo) }),
                );
            } else {
                match type_of(&self.env, &mut self.state, e, TypeOfMode::RValue, self.depth) {
                    Ok(_) => {},
                    Err(x) => {
                        self.state.report(x);
                    },
                }
            }
            i += 1;
        }
    }

    /// Validates the pattern `p` as a parameter.
    pub fn validate(&mut self, p: &Pat) -> (r: FnParam)
        ensures
            (r@, final(self).env@, final(self).state@) == validate_pat_spec(
                old(self).env@,
                old(self).state@,
                *p,
                old(self).depth as nat,
            ),
            final(self).exports == old(self).exports,
            final(self).pending_exports == old(self).pending_exports,
            final(self).depth == old(self).depth,
    {
        validate_pat(&mut self.env, &mut self.state, p, self.depth)
    }

    /// Validates the class `c` under the name `name` and gives its type.
    pub fn validate_class(&mut self, name: Option<String>, c: &Class) -> (r: Result<Type, Error>)
        ensures
            (result_view(r), final(self).env@, final(self).state@) == validate_class_spec(
                old(self).env@,
                old(self).state@,
                opt_str(name),
                *c,
                old(self).depth as nat,
            ),
            final(self).env@ == old(self).env@,
            final(self).exports == old(self).exports,
            final(self).pending_exports == old(self).pending_exports,
            final(self).depth == old(self).depth,
    {
        validate_class(&mut self.env, &mut self.state, name, c, self.depth)
    }

    /// Validates and declares the class `c` that is declared under the
    /// name `name` at `span`.
    pub fn visit_class_decl(&mut self, name: &String, span: Span, declare: bool, c: &Class)
        ensures
            (final(self).env@, final(self).state@) == visit_class_decl_spec(
                old(self).env@,
                old(self).state@,
                name@,
                span,
                declare,
                *c,
                old(self).depth as nat,
            ),
            final(self).exports == old(self).exports,
            final(self).pending_exports == old(self).pending_exports,
            final(self).depth == old(self).depth,
    {
        visit_class_decl(&mut self.env, &mut self.state, name, span, declare, c, self.depth)
    }

    /// Visits the class expression `c` at `span` with the name `name`.
    pub fn visit_class_expr(&mut self, name: Option<&String>, span: Span, c: &Class)
        ensures
            final(self).state@ == visit_class_expr_spec(
                old(self).env@,
                old(self).state@,
                match name {
                    Some(n) => Some(n@),
                    None => None,
                },
                span,
                *c,
                old(self).depth as nat,
            ),
            final(self).env@ == old(self).env@,
            final(self).exports == old(self).exports,
            final(self).pending_exports == old(self).pending_exports,
            final(self).depth == old(self).depth,
    {
        visit_class_expr(&mut self.env, &mut self.state, name, span, c, self.depth)
    }

    /// Validates `export <decl>`.
    pub fn export_decl(&mut self, decl: &ExportedDecl)
        ensures
            (final(self).env@, final(self).state@, final(self).exports@) == export_decl_spec(
                old(self).env@,
                old(self).state@,
                old(self).exports@,
                *decl,
                old(self).depth as nat,
            ),
            final(self).pending_exports == old(self).pending_exports,
            final(self).depth == old(self).depth,
    {
        validate_export_decl(&mut self.env, &mut self.state, &mut self.exports, decl, self.depth)
    }

    /// Validates `export default <expr>`.
    pub fn export_default_expr(&mut self, expr: Expr)
        ensures
            (
                final(self).state@,
                final(self).exports@,
                pending(final(self).pending_exports@),
            ) == export_default_expr_spec(
                old(self).env@,
                old(self).state@,
                old(self).exports@,
                pending(old(self).pending_exports@),
                expr,
                old(self).depth as nat,
            ),
            final(self).env == old(self).env,
            final(self).depth == old(self).depth,
    {
        export_default_expr(
            &self.env,
            &mut self.state,
            &mut self.exports,
            &mut self.pending_exports,
            expr,
            self.depth,
        )
    }

    /// Binds the exports of the module after its body has been visited.
    pub fn handle_pending_exports(&mut self)
        ensures
            (final(self).env@, final(self).state@, final(self).exports@)
                == handle_pending_exports_spec(
                old(self).env@,
                old(self).state@,
                old(self).exports@,
                pending(old(self).pending_exports@),
                old(self).depth as nat,
            ),
            final(self).pending_exports@.len() == 0,
            final(self).depth == old(self).depth,
    {
        handle_pending_exports(
            &mut self.env,
            &mut self.state,
            &mut self.exports,
            &mut self.pending_exports,
            self.depth,
        )
    }

    /// Ends the analysis: the exports of the module and its diagnostics.
    pub fn finish(self) -> (info: ModuleInfo)
        ensures
            info.exports == self.exports,
            info.errors == self.state.errors,
    {
        ModuleInfo { exports: self.exports, errors: self.state.errors }
    }
}

} // verus!
