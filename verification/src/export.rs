//! The export tables of a module and the binding of its exports.

use vstd::prelude::*;
use crate::ast::{Class, Expr, Function, Pat, VarKind};
use crate::class::{visit_class_decl, visit_class_decl_spec};
use crate::copy::{copy_opt_type, copy_type, copy_types};
use crate::errors::{Diag, Error, Unsupported};
use crate::expr::type_of;
use crate::function::type_of_fn;
use crate::model::{type_or_any, TypeOfMode};
use crate::ops::is_word;
use crate::pat::{bindings, bindings_view, pat_bindings, Binding, BindingV};
use crate::rules::{err, type_of as type_of_spec, type_of_fn as type_of_fn_spec, unsupported};
use crate::scope::{
    decl_index_from, named, scopes, type_decls, vars, Env, EnvV, Named, NamedV, Scope, ScopeV,
    TypeDecl, TypeDeclV, Var, VarV,
};
use crate::span::Span;
use crate::state::{State, StateV};
use crate::types::{types, Keyword, Type, TypeV};

verus! {

/// The export tables of a module: the variables and the types that it
/// exports, each under its exported name.
#[derive(Debug, PartialEq, Eq)]
pub struct Exports {
    pub vars: Vec<Named>,
    pub types: Vec<TypeDecl>,
}

/// The view of the export tables.
pub ghost struct ExportsV {
    pub vars: Seq<NamedV>,
    pub types: Seq<TypeDeclV>,
}

impl View for Exports {
    type V = ExportsV;

    open spec fn view(&self) -> ExportsV {
        ExportsV { vars: named(self.vars@), types: type_decls(self.types@) }
    }
}

/// An export whose target was not declared yet where the export stands.
#[derive(Debug, PartialEq, Eq)]
pub struct PendingExport {
    pub name: String,
    pub span: Span,
    pub expr: Expr,
}

/// The view of a pending export.
pub ghost struct PendingExportV {
    pub name: Seq<char>,
    pub span: Span,
    pub expr: Expr,
}

impl View for PendingExport {
    type V = PendingExportV;

    open spec fn view(&self) -> PendingExportV {
        PendingExportV { name: self.name@, span: self.span, expr: self.expr }
    }
}

/// The views of the pending exports in `s`, in their order.
pub open spec fn pending(s: Seq<PendingExport>) -> Seq<PendingExportV> {
    s.map_values(|p: PendingExport| p@)
}

/// The position of the first variable entry named `name` at or after `i`.
pub open spec fn named_index_from(s: Seq<NamedV>, name: Seq<char>, i: int) -> Option<int>
    decreases s.len() - i,
{
    if i < 0 || i >= s.len() {
        None
    } else if s[i].name == name {
        Some(i)
    } else {
        named_index_from(s, name, i + 1)
    }
}

/// The variable of a scope as an entry of an export table: a variable
/// without a type is `any`.
pub open spec fn exported_var(v: VarV) -> NamedV {
    NamedV { name: v.name, ty: type_or_any(v.ty) }
}

/// The variables of a scope as entries of an export table.
pub open spec fn exported_vars(vs: Seq<VarV>) -> Seq<NamedV> {
    vs.map_values(|v: VarV| exported_var(v))
}

impl ExportsV {
    /// The tables of a module that exports nothing.
    pub open spec fn empty() -> ExportsV {
        ExportsV { vars: Seq::empty(), types: Seq::empty() }
    }

    /// Whether the module exports nothing.
    pub open spec fn is_empty(self) -> bool {
        self.vars.len() == 0 && self.types.len() == 0
    }

    /// The tables with the type declarations `ts` exported under `name`,
    /// behind what is exported under that name already.
    pub open spec fn add_types(self, name: Seq<char>, ts: Seq<TypeV>) -> ExportsV {
        match decl_index_from(self.types, name, 0) {
            Some(i) => ExportsV {
                types: self.types.update(
                    i,
                    TypeDeclV { name, types: self.types[i].types + ts },
                ),
                ..self
            },
            None => ExportsV { types: self.types.push(TypeDeclV { name, types: ts }), ..self },
        }
    }

    /// The tables with the variable `name` exported with the type `ty`,
    /// in the place of what was exported under that name.
    pub open spec fn set_var(self, name: Seq<char>, ty: TypeV) -> ExportsV {
        match named_index_from(self.vars, name, 0) {
            Some(i) => ExportsV { vars: self.vars.update(i, NamedV { name, ty }), ..self },
            None => ExportsV { vars: self.vars.push(NamedV { name, ty }), ..self },
        }
    }

    /// Whether a variable is exported under `name`.
    pub open spec fn has_var(self, name: Seq<char>) -> bool {
        named_index_from(self.vars, name, 0).is_some()
    }

    /// The types that the module exports under `name`.
    pub open spec fn types_of(self, name: Seq<char>) -> Option<Seq<TypeV>> {
        match decl_index_from(self.types, name, 0) {
            Some(i) => Some(self.types[i].types),
            None => None,
        }
    }

    /// The type of the variable that the module exports under `name`.
    pub open spec fn var_of(self, name: Seq<char>) -> Option<TypeV> {
        crate::scope::lookup(self.vars, name)
    }
}

impl Exports {
    /// The tables of a module that exports nothing.
    pub fn new() -> (e: Exports)
        ensures
            e@ == ExportsV::empty(),
    {
        let e = Exports { vars: Vec::new(), types: Vec::new() };
        assert(e@.vars =~= Seq::empty());
        assert(e@.types =~= Seq::empty());
        e
    }

    /// Whether the module exports nothing.
    pub fn is_empty(&self) -> (b: bool)
        ensures
            b == self@.is_empty(),
    {
        self.vars.len() == 0 && self.types.len() == 0
    }

    fn decl_index(&self, name: &String) -> (r: Option<usize>)
        ensures
            match r {
                Some(i) => decl_index_from(self@.types, name@, 0) == Some(i as int) && i
                    < self.types.len(),
                None => decl_index_from(self@.types, name@, 0).is_none(),
            },
    {
        let mut i: usize = 0;
        while i < self.types.len()
            invariant
                i <= self.types.len(),
                decl_index_from(self@.types, name@, 0) == decl_index_from(
                    self@.types,
                    name@,
                    i as int,
                ),
            decreases self.types.len() - i,
        {
            if self.types[i].name == *name {
                return Some(i);
            }
            i += 1;
        }
        None
    }

    fn var_index(&self, name: &String) -> (r: Option<usize>)
        ensures
            match r {
                Some(i) => named_index_from(self@.vars, name@, 0) == Some(i as int) && i
                    < self.vars.len(),
                None => named_index_from(self@.vars, name@, 0).is_none(),
            },
    {
        let mut i: usize = 0;
        while i < self.vars.len()
            invariant
                i <= self.vars.len(),
                named_index_from(self@.vars, name@, 0) == named_index_from(
                    self@.vars,
                    name@,
                    i as int,
                ),
            decreases self.vars.len() - i,
        {
            if self.vars[i].name == *name {
                return Some(i);
            }
            i += 1;
        }
        None
    }

    /// Whether a variable is exported under `name`.
    pub fn has_var(&self, name: &String) -> (b: bool)
        ensures
            b == self@.has_var(name@),
    {
        self.var_index(name).is_some()
    }

    /// Exports the type declarations `ts` under `name`.
    pub fn add_types(&mut self, name: String, ts: Vec<Type>)
        ensures
            final(self)@ == old(self)@.add_types(name@, types(ts@)),
    {
        match self.decl_index(&name) {
            Some(i) => {
                let mut d = self.types.remove(i);
                let ghost before = types(d.types@);
                let mut ts = ts;
                let ghost added = ts@;
                d.types.append(&mut ts);
                assert(types(d.types@) =~= before + types(added));
                self.types.insert(i, TypeDecl { name, types: d.types });
                assert(final(self)@.types =~= old(self)@.types.update(
                    i as int,
                    TypeDeclV { name: name@, types: before + types(added) },
                ));
            },
            None => {
                self.types.push(TypeDecl { name, types: ts });
                assert(final(self)@.types =~= old(self)@.types.push(
                    TypeDeclV { name: name@, types: types(ts@) },
                ));
            },
        }
    }

    /// Exports the variable `name` with the type `ty`.
    pub fn set_var(&mut self, name: String, ty: Type)
        ensures
            final(self)@ == old(self)@.set_var(name@, ty@),
    {
        match self.var_index(&name) {
            Some(i) => {
                self.vars.remove(i);
                self.vars.insert(i, Named { name, ty });
                assert(final(self)@.vars =~= old(self)@.vars.update(
                    i as int,
                    NamedV { name: name@, ty: ty@ },
                ));
            },
            None => {
                self.vars.push(Named { name, ty });
                assert(final(self)@.vars =~= old(self)@.vars.push(
                    NamedV { name: name@, ty: ty@ },
                ));
            },
        }
    }
}

/// Exports the type that is declared under `from`, or under `name` where
/// `from` is none, under the name `name`. The declaration must have been
/// registered: an export of a name that declares no type is recorded as
/// unresolved.
pub open spec fn export_spec(
    env: EnvV,
    st: StateV,
    exports: ExportsV,
    span: Span,
    name: Seq<char>,
    from: Option<Seq<char>>,
) -> (StateV, ExportsV) {
    let source = match from {
        Some(f) => f,
        None => name,
    };
    match env.find_types(source) {
        Some(ts) => (st, exports.add_types(name, ts)),
        None => (st.report(err(Diag::UnresolvedExport { span })), exports),
    }
}

/// Exports the type that is declared under `from`, or under `name` where
/// `from` is none, under the name `name`.
pub fn export(
    env: &Env,
    st: &mut State,
    exports: &mut Exports,
    span: Span,
    name: String,
    from: Option<String>,
)
    ensures
        (final(st)@, final(exports)@) == export_spec(
            env@,
            old(st)@,
            old(exports)@,
            span,
            name@,
            crate::types::opt_str(from),
        ),
{
    let found = match &from {
        Some(f) => env.find_types(f),
        None => env.find_types(&name),
    };
    match found {
        Some(ts) => {
            let ts = copy_types(ts);
            exports.add_types(name, ts);
        },
        None => {
            st.report(Error::Diag(Diag::UnresolvedExport { span }));
        },
    }
}

/// What `export default <expr>` does: the type of the expression is
/// exported as the variable `default`. An expression that names a symbol
/// that is not declared yet is put off until the module has been visited.
/// Every other failure is recorded. A module exports one default only: a
/// second one is recorded as a duplicate.
pub open spec fn export_default_expr_spec(
    env: EnvV,
    st: StateV,
    exports: ExportsV,
    queue: Seq<PendingExportV>,
    expr: Expr,
    fuel: nat,
) -> (StateV, ExportsV, Seq<PendingExportV>) {
    if exports.has_var("default"@) {
        (st.report(err(Diag::DuplicateDeclaration { span: expr.spec_span() })), exports, queue)
    } else {
        let (r, st1) = type_of_spec(env, st, expr, TypeOfMode::RValue, fuel);
        match r {
            Ok(t) => (st1, exports.set_var("default"@, t), queue),
            Err(e) => if e.is_undefined_symbol() {
                (
                    st1,
                    exports,
                    queue.push(
                        PendingExportV { name: "default"@, span: expr.spec_span(), expr },
                    ),
                )
            } else {
                (st1.report(e), exports, queue)
            },
        }
    }
}

/// Validates `export default <expr>` within the depth `fuel`.
pub fn export_default_expr(
    env: &Env,
    st: &mut State,
    exports: &mut Exports,
    queue: &mut Vec<PendingExport>,
    expr: Expr,
    fuel: usize,
)
    ensures
        (final(st)@, final(exports)@, pending(final(queue)@)) == export_default_expr_spec(
            env@,
            old(st)@,
            old(exports)@,
            pending(old(queue)@),
            expr,
            fuel as nat,
        ),
{
    let name = "default".to_owned();
    if exports.has_var(&name) {
        st.report(Error::Diag(Diag::DuplicateDeclaration { span: expr.span() }));
        return ;
    }
    match type_of(env, st, &expr, TypeOfMode::RValue, fuel) {
        Ok(t) => {
            exports.set_var(name, t);
        },
        Err(e) => {
            if e.is_undefined_symbol() {
                let span = expr.span();
                queue.push(PendingExport { name, span, expr });
                assert(pending(queue@) =~= pending(old(queue)@).push(
                    PendingExportV { name: "default"@, span, expr },
                ));
            } else {
                st.report(e);
            }
        },
    }
}

/// The symbol that a pending export names: its own name, or for the
/// default export the identifier that is exported.
pub open spec fn exported_symbol(p: PendingExportV) -> Option<Seq<char>> {
    if p.name != "default"@ {
        Some(p.name)
    } else {
        match p.expr {
            Expr::Ident { sym, .. } => Some(sym@),
            _ => None,
        }
    }
}

impl ScopeV {
    /// The declarations of the type name `name`, taken out of the scope.
    pub open spec fn take_types(self, name: Seq<char>) -> (Option<Seq<TypeV>>, ScopeV) {
        match decl_index_from(self.types, name, 0) {
            Some(i) => (Some(self.types[i].types), ScopeV { types: self.types.remove(i), ..self }),
            None => (None, self),
        }
    }
}

impl EnvV {
    /// The declarations of the type name `name`, taken out of the current
    /// scope.
    pub open spec fn take_types(self, name: Seq<char>) -> (Option<Seq<TypeV>>, EnvV) {
        if self.scopes.len() > 0 {
            let (r, s) = self.scopes.last().take_types(name);
            (r, self.with_current(s))
        } else {
            (None, self)
        }
    }
}

impl Env {
    /// Takes the declarations of the type name `name` out of the current
    /// scope.
    pub fn take_types(&mut self, name: &String) -> (r: Option<Vec<Type>>)
        ensures
            (crate::types::opt_types(r), final(self)@) == old(self)@.take_types(name@),
    {
        match self.scopes.pop() {
            Some(mut scope) => {
                let ghost rest = self.scopes@;
                assert(scopes(rest) =~= old(self)@.scopes.drop_last());
                let r = match scope.decl_index(name) {
                    Some(i) => {
                        let d = scope.types.remove(i);
                        assert(scope@.types =~= old(self)@.scopes.last().types.remove(i as int));
                        Some(d.types)
                    },
                    None => None,
                };
                self.scopes.push(scope);
                assert(final(self)@.scopes =~= old(self)@.scopes.update(
                    old(self)@.scopes.len() - 1,
                    scope@,
                ));
                r
            },
            None => None,
        }
    }
}

/// Resolves one pending export: the types that the current scope declares
/// under the exported symbol are moved into the export tables; if there
/// are none, the type of the expression is exported, and if it has none,
/// the failure is recorded.
pub open spec fn resolve_pending(
    env: EnvV,
    st: StateV,
    exports: ExportsV,
    p: PendingExportV,
    fuel: nat,
) -> (EnvV, StateV, ExportsV) {
    let (taken, env1) = match exported_symbol(p) {
        Some(s) => env.take_types(s),
        None => (None, env),
    };
    match taken {
        Some(ts) => (env1, st, exports.add_types(p.name, ts)),
        None => {
            let (r, st1) = type_of_spec(env1, st, p.expr, TypeOfMode::RValue, fuel);
            match r {
                Ok(t) => (env1, st1, exports.add_types(p.name, seq![t])),
                Err(e) => (env1, st1.report(e), exports),
            }
        },
    }
}

/// Resolves the pending exports from position `i` on, in their order.
pub open spec fn resolve_all_from(
    env: EnvV,
    st: StateV,
    exports: ExportsV,
    ps: Seq<PendingExportV>,
    i: int,
    fuel: nat,
) -> (EnvV, StateV, ExportsV)
    decreases ps.len() - i,
{
    if i < 0 || i >= ps.len() {
        (env, st, exports)
    } else {
        let (env1, st1, x1) = resolve_pending(env, st, exports, ps[i], fuel);
        resolve_all_from(env1, st1, x1, ps, i + 1, fuel)
    }
}

/// The fallback of a module without an explicit export: every variable and
/// every type of the current scope is moved into the export tables. A
/// module that exports something explicitly keeps its tables as they are.
pub open spec fn export_all(env: EnvV, exports: ExportsV) -> (EnvV, ExportsV) {
    if exports.is_empty() && env.scopes.len() > 0 {
        let s = env.scopes.last();
        (
            env.with_current(ScopeV { vars: Seq::empty(), types: Seq::empty(), ..s }),
            ExportsV { vars: exported_vars(s.vars), types: s.types },
        )
    } else {
        (env, exports)
    }
}

/// What the end of a module does to its exports: the pending exports are
/// resolved in their order, and the fallback is applied.
pub open spec fn handle_pending_exports_spec(
    env: EnvV,
    st: StateV,
    exports: ExportsV,
    queue: Seq<PendingExportV>,
    fuel: nat,
) -> (EnvV, StateV, ExportsV) {
    let (env1, st1, x1) = resolve_all_from(env, st, exports, queue, 0, fuel);
    let (env2, x2) = export_all(env1, x1);
    (env2, st1, x2)
}

/// A module that exports something explicitly exports nothing else: the
/// fallback leaves its tables and its scopes as they are.
pub proof fn lemma_explicit_exports_only(env: EnvV, exports: ExportsV)
    requires
        !exports.is_empty(),
    ensures
        export_all(env, exports) == (env, exports),
{
}

proof fn lemma_exported_var(vs: Seq<VarV>, name: Seq<char>, i: int)
    requires
        0 <= i,
    ensures
        crate::scope::lookup_from(exported_vars(vs), name, i) == (match crate::scope::var_index_from(
            vs,
            name,
            i,
        ) {
            Some(k) => Some(type_or_any(vs[k].ty)),
            None => None,
        }),
    decreases vs.len() - i,
{
    if i < vs.len() {
        lemma_exported_var(vs, name, i + 1);
    }
}

/// A module without an explicit export exports every binding of its
/// top-level scope: each variable of the scope under its name with its
/// type, or `any` where it has none, and each type name with all of its
/// declarations.
pub proof fn lemma_implicit_exports_all(env: EnvV, exports: ExportsV, name: Seq<char>)
    requires
        exports.is_empty(),
        env.scopes.len() > 0,
    ensures
        export_all(env, exports).1.var_of(name) == (match env.scopes.last().find_var(name) {
            Some(v) => Some(type_or_any(v.ty)),
            None => None,
        }),
        export_all(env, exports).1.types_of(name) == env.scopes.last().find_types(name),
{
    lemma_exported_var(env.scopes.last().vars, name, 0);
}

/// At the end of a module that exported nothing and put no export off,
/// the export tables hold every variable and every type of the top-level
/// scope, and nothing else.
pub proof fn lemma_module_without_exports(env: EnvV, st: StateV, fuel: nat)
    requires
        env.scopes.len() > 0,
    ensures
        handle_pending_exports_spec(env, st, ExportsV::empty(), Seq::empty(), fuel).2 == (ExportsV {
            vars: exported_vars(env.scopes.last().vars),
            types: env.scopes.last().types,
        }),
        handle_pending_exports_spec(env, st, ExportsV::empty(), Seq::empty(), fuel).1 == st,
{
}

fn exported_name(p: &PendingExport) -> (r: Option<&String>)
    ensures
        match r {
            Some(s) => exported_symbol(p@) == Some(s@),
            None => exported_symbol(p@).is_none(),
        },
{
    if !is_word(&p.name, "default") {
        Some(&p.name)
    } else {
        match &p.expr {
            Expr::Ident { sym, .. } => Some(sym),
            _ => None,
        }
    }
}

fn resolve_one(env: &mut Env, st: &mut State, exports: &mut Exports, p: &PendingExport, fuel: usize)
    ensures
        (final(env)@, final(st)@, final(exports)@) == resolve_pending(
            old(env)@,
            old(st)@,
            old(exports)@,
            p@,
            fuel as nat,
        ),
{
    let taken = match exported_name(p) {
        Some(s) => env.take_types(s),
        None => None,
    };
    match taken {
        Some(ts) => {
            exports.add_types(p.name.clone(), ts);
        },
        None => match type_of(env, st, &p.expr, TypeOfMode::RValue, fuel) {
            Ok(t) => {
                let mut ts: Vec<Type> = Vec::new();
                ts.push(t);
                assert(types(ts@) =~= seq![t@]);
                exports.add_types(p.name.clone(), ts);
            },
            Err(e) => {
                st.report(e);
            },
        },
    }
}

fn drain_scope(env: &mut Env, exports: &mut Exports)
    ensures
        (final(env)@, final(exports)@) == export_all(old(env)@, old(exports)@),
{
    if !exports.is_empty() {
        return ;
    }
    match env.scopes.pop() {
        Some(scope) => {
            let ghost rest = env.scopes@;
            assert(scopes(rest) =~= old(env)@.scopes.drop_last());
            let Scope {
                kind,
                vars: vs,
                types: ts,
                declaring,
                declaring_fn,
                declaring_prop,
                this,
                this_class_name,
            } = scope;
            let mut out: Vec<Named> = Vec::new();
            let mut i: usize = 0;
            while i < vs.len()
                invariant
                    i <= vs.len(),
                    out.len() == i,
                    forall|j: int| 0 <= j < i ==> out@[j]@ == exported_var(vs@[j]@),
                decreases vs.len() - i,
            {
                out.push(Named { name: vs[i].name.clone(), ty: crate::ops::or_any(&vs[i].ty) });
                i += 1;
            }
            assert(named(out@) =~= exported_vars(vars(vs@)));
            exports.vars = out;
            exports.types = ts;
            let empty = Scope {
                kind,
                vars: Vec::new(),
                types: Vec::new(),
                declaring,
                declaring_fn,
                declaring_prop,
                this,
                this_class_name,
            };
            assert(empty@.vars =~= Seq::empty());
            assert(empty@.types =~= Seq::empty());
            env.scopes.push(empty);
            assert(final(env)@.scopes =~= old(env)@.scopes.update(
                old(env)@.scopes.len() - 1,
                empty@,
            ));
        },
        None => {},
    }
}

/// Binds the exports of a module after its body has been visited: the
/// pending exports are resolved in their order, and a module without any
/// explicit export exports every binding of its top-level scope. The
/// queue of the pending exports is empty afterwards.
pub fn handle_pending_exports(
    env: &mut Env,
    st: &mut State,
    exports: &mut Exports,
    queue: &mut Vec<PendingExport>,
    fuel: usize,
)
    ensures
        (final(env)@, final(st)@, final(exports)@) == handle_pending_exports_spec(
            old(env)@,
            old(st)@,
            old(exports)@,
            pending(old(queue)@),
            fuel as nat,
        ),
        final(queue)@.len() == 0,
{
    let ghost all = pending(queue@);
    let mut i: usize = 0;
    while i < queue.len()
        invariant
            i <= queue.len(),
            all == pending(queue@),
            resolve_all_from(old(env)@, old(st)@, old(exports)@, all, 0, fuel as nat)
                == resolve_all_from(env@, st@, exports@, all, i as int, fuel as nat),
        decreases queue.len() - i,
    {
        assert(all[i as int] == queue@[i as int]@);
        resolve_one(env, st, exports, &queue[i], fuel);
        i += 1;
    }
    queue.clear();
    drain_scope(env, exports);
}

/// A declaration that is exported where it stands.
#[derive(Debug, PartialEq, Eq)]
pub enum ExportedDecl {
    /// A class declaration.
    Class { name: String, span: Span, declare: bool, class: Class },
    /// A variable declaration with the patterns of its declarators.
    Var { span: Span, kind: VarKind, decls: Vec<Pat> },
    /// A function, an interface or a type alias, whose type is registered
    /// under its name.
    Named { span: Span, name: String },
    /// An enum with its type.
    Enum { span: Span, name: String, ty: Type },
    /// A namespace.
    Module { span: Span },
}

/// A declaration that is exported as the default of the module.
#[derive(Debug, PartialEq, Eq)]
pub enum DefaultDecl {
    Fn { span: Span, name: Option<String>, function: Function },
    Class { span: Span },
    /// An interface, whose type is registered under its name.
    Interface { span: Span, name: String },
}

/// Declares the bindings from position `i` on and exports each as a
/// variable. A declaration that fails is recorded, and its name is not
/// exported.
pub open spec fn export_bindings_from(
    env: EnvV,
    st: StateV,
    exports: ExportsV,
    kind: VarKind,
    bs: Seq<BindingV>,
    i: int,
) -> (EnvV, StateV, ExportsV)
    decreases bs.len() - i,
{
    if i < 0 || i >= bs.len() {
        (env, st, exports)
    } else {
        let (r, env1) = env.declare_var(bs[i].span, kind, bs[i].name, bs[i].ty, true, false);
        match r {
            Ok(_) => export_bindings_from(
                env1,
                st,
                exports.set_var(bs[i].name, type_or_any(bs[i].ty)),
                kind,
                bs,
                i + 1,
            ),
            Err(e) => export_bindings_from(env1, st.report(e), exports, kind, bs, i + 1),
        }
    }
}

/// Declares and exports the variables of the declarators from position
/// `i` on.
pub open spec fn export_vars_from(
    env: EnvV,
    st: StateV,
    exports: ExportsV,
    kind: VarKind,
    decls: Seq<Pat>,
    i: int,
) -> (EnvV, StateV, ExportsV)
    decreases decls.len() - i,
{
    if i < 0 || i >= decls.len() {
        (env, st, exports)
    } else {
        let (env1, st1, x1) = export_bindings_from(env, st, exports, kind, bindings(decls[i]), 0);
        export_vars_from(env1, st1, x1, kind, decls, i + 1)
    }
}

/// What `export <decl>` does. A class is validated and declared, and its
/// type is exported. A function, an interface and a type alias export the
/// type that is registered under their name. The variables of a variable
/// declaration are declared and exported. An enum exports its type. The
/// export of a namespace is not supported.
pub open spec fn export_decl_spec(
    env: EnvV,
    st: StateV,
    exports: ExportsV,
    decl: ExportedDecl,
    fuel: nat,
) -> (EnvV, StateV, ExportsV) {
    match decl {
        ExportedDecl::Class { name, span, declare, class } => {
            let (env1, st1) = visit_class_decl_spec(env, st, name@, span, declare, class, fuel);
            let (st2, x) = export_spec(env1, st1, exports, span, name@, None);
            (env1, st2, x)
        },
        ExportedDecl::Var { kind, decls, .. } => export_vars_from(
            env,
            st,
            exports,
            kind,
            decls@,
            0,
        ),
        ExportedDecl::Named { span, name } => {
            let (st1, x) = export_spec(env, st, exports, span, name@, None);
            (env, st1, x)
        },
        ExportedDecl::Enum { name, ty, .. } => (env, st, exports.add_types(name@, seq![ty@])),
        ExportedDecl::Module { span } => (
            env,
            st.report(unsupported(span, Unsupported::Export)),
            exports,
        ),
    }
}

fn export_bindings(
    env: &mut Env,
    st: &mut State,
    exports: &mut Exports,
    kind: VarKind,
    bs: &Vec<Binding>,
)
    ensures
        (final(env)@, final(st)@, final(exports)@) == export_bindings_from(
            old(env)@,
            old(st)@,
            old(exports)@,
            kind,
            bindings_view(bs@),
            0,
        ),
{
    let mut i: usize = 0;
    while i < bs.len()
        invariant
            i <= bs.len(),
            export_bindings_from(
                old(env)@,
                old(st)@,
                old(exports)@,
                kind,
                bindings_view(bs@),
                0,
            ) == export_bindings_from(env@, st@, exports@, kind, bindings_view(bs@), i as int),
        decreases bs.len() - i,
    {
        let b = &bs[i];
        assert(bindings_view(bs@)[i as int] == b@);
        match env.declare_var(b.span, kind, b.name.clone(), copy_opt_type(&b.ty), true, false) {
            Ok(_) => {
                let ty = match &b.ty {
                    Some(t) => copy_type(t),
                    None => Type::Keyword(Keyword::Any),
                };
                exports.set_var(b.name.clone(), ty);
            },
            Err(e) => {
                st.report(e);
            },
        }
        i += 1;
    }
}

/// Validates `export <decl>` within the depth `fuel`.
pub fn validate_export_decl(
    env: &mut Env,
    st: &mut State,
    exports: &mut Exports,
    decl: &ExportedDecl,
    fuel: usize,
)
    ensures
        (final(env)@, final(st)@, final(exports)@) == export_decl_spec(
            old(env)@,
            old(st)@,
            old(exports)@,
            *decl,
            fuel as nat,
        ),
{
    match decl {
        ExportedDecl::Class { name, span, declare, class } => {
            visit_class_decl(env, st, name, *span, *declare, class, fuel);
            export(env, st, exports, *span, name.clone(), None);
        },
        ExportedDecl::Var { kind, decls, .. } => {
            let mut i: usize = 0;
            while i < decls.len()
                invariant
                    i <= decls.len(),
                    export_vars_from(old(env)@, old(st)@, old(exports)@, *kind, decls@, 0)
                        == export_vars_from(env@, st@, exports@, *kind, decls@, i as int),
                decreases decls.len() - i,
            {
                let bs = pat_bindings(&decls[i]);
                export_bindings(env, st, exports, *kind, &bs);
                i += 1;
            }
        },
        ExportedDecl::Named { span, name } => {
            export(env, st, exports, *span, name.clone(), None);
        },
        ExportedDecl::Enum { name, ty, .. } => {
            let mut ts: Vec<Type> = Vec::new();
            ts.push(copy_type(ty));
            assert(types(ts@) =~= seq![ty@]);
            exports.add_types(name.clone(), ts);
        },
        ExportedDecl::Module { span } => {
            st.report(
                Error::Diag(Diag::Unsupported { span: *span, what: Unsupported::Export }),
            );
        },
    }
}

/// What `export default <decl>` does. The type of a function is
/// registered under the name of the function, or under `default` where it
/// has none, and exported as `default`; a function whose type cannot be
/// inferred is recorded and not exported. An interface exports the type
/// that is registered under its name as `default`. The default export of a
/// class is not supported.
pub open spec fn export_default_decl_spec(
    env: EnvV,
    st: StateV,
    exports: ExportsV,
    decl: DefaultDecl,
    fuel: nat,
) -> (EnvV, StateV, ExportsV) {
    match decl {
        DefaultDecl::Fn { span, name, function } => {
            let own = match name {
                Some(n) => n@,
                None => "default"@,
            };
            let (r, st1) = type_of_fn_spec(env, st, function, fuel);
            match r {
                Err(e) => (env, st1.report(e), exports),
                Ok(t) => {
                    let env1 = env.register_type(own, t);
                    let (st2, x) = export_spec(env1, st1, exports, span, "default"@, Some(own));
                    (env1, st2, x)
                },
            }
        },
        DefaultDecl::Class { span } => (
            env,
            st.report(unsupported(span, Unsupported::Export)),
            exports,
        ),
        DefaultDecl::Interface { span, name } => {
            let (st1, x) = export_spec(env, st, exports, span, "default"@, Some(name@));
            (env, st1, x)
        },
    }
}

/// Validates `export default <decl>` within the depth `fuel`.
pub fn validate_export_default_decl(
    env: &mut Env,
    st: &mut State,
    exports: &mut Exports,
    decl: &DefaultDecl,
    fuel: usize,
)
    ensures
        (final(env)@, final(st)@, final(exports)@) == export_default_decl_spec(
            old(env)@,
            old(st)@,
            old(exports)@,
            *decl,
            fuel as nat,
        ),
{
    match decl {
        DefaultDecl::Fn { span, name, function } => {
            let own = match name {
                Some(n) => n.clone(),
                None => "default".to_owned(),
            };
            match type_of_fn(env, st, function, fuel) {
                Err(e) => {
                    st.report(e);
                },
                Ok(t) => {
                    env.register_type(own.clone(), t);
                    export(env, st, exports, *span, "default".to_owned(), Some(own));
                },
            }
        },
        DefaultDecl::Class { span } => {
            st.report(
                Error::Diag(Diag::Unsupported { span: *span, what: Unsupported::Export }),
            );
        },
        DefaultDecl::Interface { span, name } => {
            export(env, st, exports, *span, "default".to_owned(), Some(name.clone()));
        },
    }
}

} // verus!
