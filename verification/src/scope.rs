//! Scopes and the environment of a module.
//!
//! A scope belongs to one function, block, class or module body. The scopes
//! that enclose a place form a chain, innermost last; a lookup walks the
//! chain outward and takes the first match. A scope owns neither its parent
//! nor its children: the chain holds them all, by position.

use vstd::prelude::*;
use crate::ast::VarKind;

use crate::errors::{Diag, Error, ErrorV};
use crate::span::Span;
use crate::types::{opt_str, opt_type, strs, types, Type, TypeV};

verus! {

/// What a scope belongs to.
#[derive(Clone, Copy, Debug, PartialEq, Eq, Hash, Structural)]
pub enum ScopeKind {
    Module,
    Fn,
    Block,
    Class,
}

/// A variable of a scope.
#[derive(Debug, PartialEq, Eq)]
pub struct Var {
    pub name: String,
    pub kind: VarKind,
    pub ty: Option<Type>,
    pub initialized: bool,
}

/// The view of a variable.
pub ghost struct VarV {
    pub name: Seq<char>,
    pub kind: VarKind,
    pub ty: Option<TypeV>,
    pub initialized: bool,
}

impl View for Var {
    type V = VarV;

    open spec fn view(&self) -> VarV {
        VarV { name: self.name@, kind: self.kind, ty: opt_type(self.ty), initialized: self.initialized }
    }
}

/// The declarations of one type name. Declarations of one name merge: the
/// list holds them in the order in which they were registered.
#[derive(Debug, PartialEq, Eq)]
pub struct TypeDecl {
    pub name: String,
    pub types: Vec<Type>,
}

/// The view of the declarations of a type name.
pub ghost struct TypeDeclV {
    pub name: Seq<char>,
    pub types: Seq<TypeV>,
}

impl View for TypeDecl {
    type V = TypeDeclV;

    open spec fn view(&self) -> TypeDeclV {
        TypeDeclV { name: self.name@, types: types(self.types@) }
    }
}

/// A name with its type: an entry of a table.
#[derive(Debug, PartialEq, Eq)]
pub struct Named {
    pub name: String,
    pub ty: Type,
}

/// The view of an entry of a table.
pub ghost struct NamedV {
    pub name: Seq<char>,
    pub ty: TypeV,
}

impl View for Named {
    type V = NamedV;

    open spec fn view(&self) -> NamedV {
        NamedV { name: self.name@, ty: self.ty@ }
    }
}

/// The views of the variables in `s`, in their order.
pub open spec fn vars(s: Seq<Var>) -> Seq<VarV> {
    s.map_values(|v: Var| v@)
}

/// The views of the declarations in `s`, in their order.
pub open spec fn type_decls(s: Seq<TypeDecl>) -> Seq<TypeDeclV> {
    s.map_values(|d: TypeDecl| d@)
}

/// The views of the entries in `s`, in their order.
pub open spec fn named(s: Seq<Named>) -> Seq<NamedV> {
    s.map_values(|n: Named| n@)
}

/// One lexical environment.
#[derive(Debug, PartialEq, Eq)]
pub struct Scope {
    pub kind: ScopeKind,
    pub vars: Vec<Var>,
    pub types: Vec<TypeDecl>,
    /// The names that are being initialized.
    pub declaring: Vec<String>,
    /// The functions whose return type is being inferred.
    pub declaring_fn: Vec<String>,
    /// The class property that is being initialized.
    pub declaring_prop: Option<String>,
    pub this: Option<Type>,
    /// The name of the class that is being built.
    pub this_class_name: Option<String>,
}

/// The view of a scope.
pub ghost struct ScopeV {
    pub kind: ScopeKind,
    pub vars: Seq<VarV>,
    pub types: Seq<TypeDeclV>,
    pub declaring: Seq<Seq<char>>,
    pub declaring_fn: Seq<Seq<char>>,
    pub declaring_prop: Option<Seq<char>>,
    pub this: Option<TypeV>,
    pub this_class_name: Option<Seq<char>>,
}

impl View for Scope {
    type V = ScopeV;

    open spec fn view(&self) -> ScopeV {
        ScopeV {
            kind: self.kind,
            vars: vars(self.vars@),
            types: type_decls(self.types@),
            declaring: strs(self.declaring@),
            declaring_fn: strs(self.declaring_fn@),
            declaring_prop: opt_str(self.declaring_prop),
            this: opt_type(self.this),
            this_class_name: opt_str(self.this_class_name),
        }
    }
}

/// The views of the scopes in `s`, in their order.
pub open spec fn scopes(s: Seq<Scope>) -> Seq<ScopeV> {
    s.map_values(|x: Scope| x@)
}

/// The index of the first variable named `name` at or after `i`.
pub open spec fn var_index_from(s: Seq<VarV>, name: Seq<char>, i: int) -> Option<int>
    decreases s.len() - i,
{
    if i < 0 || i >= s.len() {
        None
    } else if s[i].name == name {
        Some(i)
    } else {
        var_index_from(s, name, i + 1)
    }
}

/// The index of the declarations of the type name `name` at or after `i`.
pub open spec fn decl_index_from(s: Seq<TypeDeclV>, name: Seq<char>, i: int) -> Option<int>
    decreases s.len() - i,
{
    if i < 0 || i >= s.len() {
        None
    } else if s[i].name == name {
        Some(i)
    } else {
        decl_index_from(s, name, i + 1)
    }
}

/// The type of the first entry named `name` at or after `i`.
pub open spec fn lookup_from(s: Seq<NamedV>, name: Seq<char>, i: int) -> Option<TypeV>
    decreases s.len() - i,
{
    if i < 0 || i >= s.len() {
        None
    } else if s[i].name == name {
        Some(s[i].ty)
    } else {
        lookup_from(s, name, i + 1)
    }
}

/// The type of the first entry of the table that is named `name`.
pub open spec fn lookup(s: Seq<NamedV>, name: Seq<char>) -> Option<TypeV> {
    lookup_from(s, name, 0)
}

impl ScopeV {
    /// A scope that binds nothing.
    pub open spec fn empty(kind: ScopeKind) -> ScopeV {
        ScopeV {
            kind,
            vars: Seq::empty(),
            types: Seq::empty(),
            declaring: Seq::empty(),
            declaring_fn: Seq::empty(),
            declaring_prop: None,
            this: None,
            this_class_name: None,
        }
    }

    /// The variable of the scope that is named `name`.
    pub open spec fn find_var(self, name: Seq<char>) -> Option<VarV> {
        match var_index_from(self.vars, name, 0) {
            Some(i) => Some(self.vars[i]),
            None => None,
        }
    }

    /// The declarations of the type name, where the scope has any.
    pub open spec fn find_types(self, name: Seq<char>) -> Option<Seq<TypeV>> {
        match decl_index_from(self.types, name, 0) {
            Some(i) => Some(self.types[i].types),
            None => None,
        }
    }
}

/// The first variable named `name` in the scopes below position `k`,
/// innermost first.
pub open spec fn find_var_below(s: Seq<ScopeV>, name: Seq<char>, k: int) -> Option<VarV>
    decreases k,
{
    if k <= 0 || k > s.len() {
        None
    } else {
        match s[k - 1].find_var(name) {
            Some(v) => Some(v),
            None => find_var_below(s, name, k - 1),
        }
    }
}

/// The declarations of the type name `name` in the innermost scope below
/// position `k` that declares it.
pub open spec fn find_types_below(s: Seq<ScopeV>, name: Seq<char>, k: int) -> Option<Seq<TypeV>>
    decreases k,
{
    if k <= 0 || k > s.len() {
        None
    } else {
        match s[k - 1].find_types(name) {
            Some(v) => Some(v),
            None => find_types_below(s, name, k - 1),
        }
    }
}

/// The `this` type of the innermost scope below position `k` that has one.
pub open spec fn this_below(s: Seq<ScopeV>, k: int) -> Option<TypeV>
    decreases k,
{
    if k <= 0 || k > s.len() {
        None
    } else {
        match s[k - 1].this {
            Some(t) => Some(t),
            None => this_below(s, k - 1),
        }
    }
}

/// Whether a scope below position `k` infers the return type of `name`.
pub open spec fn declaring_fn_below(s: Seq<ScopeV>, name: Seq<char>, k: int) -> bool
    decreases k,
{
    if k <= 0 || k > s.len() {
        false
    } else {
        s[k - 1].declaring_fn.contains(name) || declaring_fn_below(s, name, k - 1)
    }
}

/// What the analyzer of a module knows while it infers types: the chain of
/// scopes, the built-in global declarations and the imports.
#[derive(Debug, PartialEq, Eq)]
pub struct Env {
    /// The chain of scopes, the module's own first and the current one last.
    pub scopes: Vec<Scope>,
    pub builtin_types: Vec<Named>,
    pub builtin_vars: Vec<Named>,
    pub imports: Vec<Named>,
    /// Whether a name may be read by its own initializer.
    pub allow_ref_declaring: bool,
    /// Whether the place is inside an ambient declaration.
    pub in_declare: bool,
    /// Whether the module is one of the built-in libraries.
    pub is_builtin: bool,
    pub allow_unreachable_code: bool,
}

/// The view of an environment.
pub ghost struct EnvV {
    pub scopes: Seq<ScopeV>,
    pub builtin_types: Seq<NamedV>,
    pub builtin_vars: Seq<NamedV>,
    pub imports: Seq<NamedV>,
    pub allow_ref_declaring: bool,
    pub in_declare: bool,
    pub is_builtin: bool,
    pub allow_unreachable_code: bool,
}

impl View for Env {
    type V = EnvV;

    open spec fn view(&self) -> EnvV {
        EnvV {
            scopes: scopes(self.scopes@),
            builtin_types: named(self.builtin_types@),
            builtin_vars: named(self.builtin_vars@),
            imports: named(self.imports@),
            allow_ref_declaring: self.allow_ref_declaring,
            in_declare: self.in_declare,
            is_builtin: self.is_builtin,
            allow_unreachable_code: self.allow_unreachable_code,
        }
    }
}

impl EnvV {
    /// The variable that `name` means at the current place.
    pub open spec fn find_var(self, name: Seq<char>) -> Option<VarV> {
        find_var_below(self.scopes, name, self.scopes.len() as int)
    }

    /// The declared type of the variable that `name` means, if it has one.
    pub open spec fn find_var_type(self, name: Seq<char>) -> Option<TypeV> {
        match self.find_var(name) {
            Some(v) => v.ty,
            None => None,
        }
    }

    /// The declarations that the type name `name` means at the current place.
    pub open spec fn find_types(self, name: Seq<char>) -> Option<Seq<TypeV>> {
        find_types_below(self.scopes, name, self.scopes.len() as int)
    }

    /// The first declaration that the type name `name` means.
    pub open spec fn find_type(self, name: Seq<char>) -> Option<TypeV> {
        match self.find_types(name) {
            Some(ts) => if ts.len() > 0 {
                Some(ts[0])
            } else {
                None
            },
            None => None,
        }
    }

    /// Whether the current scope is initializing `name`.
    pub open spec fn is_declaring(self, name: Seq<char>) -> bool {
        self.scopes.len() > 0 && self.scopes.last().declaring.contains(name)
    }

    /// Whether a scope of the chain infers the return type of the function
    /// `name`.
    pub open spec fn is_declaring_fn(self, name: Seq<char>) -> bool {
        declaring_fn_below(self.scopes, name, self.scopes.len() as int)
    }

    /// The class property that the current scope is initializing.
    pub open spec fn declaring_prop(self) -> Option<Seq<char>> {
        if self.scopes.len() > 0 {
            self.scopes.last().declaring_prop
        } else {
            None
        }
    }

    /// The type of `this` at the current place.
    pub open spec fn this_type(self) -> Option<TypeV> {
        this_below(self.scopes, self.scopes.len() as int)
    }

    /// The built-in type that is named `name`.
    pub open spec fn builtin_type(self, name: Seq<char>) -> Option<TypeV> {
        lookup(self.builtin_types, name)
    }

    /// The built-in variable that is named `name`.
    pub open spec fn builtin_var(self, name: Seq<char>) -> Option<TypeV> {
        lookup(self.builtin_vars, name)
    }

    /// The import that is named `name`.
    pub open spec fn import(self, name: Seq<char>) -> Option<TypeV> {
        lookup(self.imports, name)
    }
}

/// Whether `v` holds the name `name`.
pub fn contains_name(v: &Vec<String>, name: &String) -> (b: bool)
    ensures
        b == strs(v@).contains(name@),
{
    let mut i: usize = 0;
    while i < v.len()
        invariant
            i <= v.len(),
            forall|j: int| 0 <= j < i ==> strs(v@)[j] != name@,
        decreases v.len() - i,
    {
        if v[i] == *name {
            assert(strs(v@)[i as int] == name@);
            return true;
        }
        i += 1;
    }
    false
}

/// The entry of the table `v` that is named `name`.
pub fn lookup_named<'a>(v: &'a Vec<Named>, name: &String) -> (r: Option<&'a Type>)
    ensures
        match r {
            Some(t) => lookup(named(v@), name@) == Some(t@),
            None => lookup(named(v@), name@).is_none(),
        },
{
    let mut i: usize = 0;
    while i < v.len()
        invariant
            i <= v.len(),
            lookup(named(v@), name@) == lookup_from(named(v@), name@, i as int),
        decreases v.len() - i,
    {
        if v[i].name == *name {
            return Some(&v[i].ty);
        }
        i += 1;
    }
    None
}

impl Scope {
    /// A scope that binds nothing.
    pub fn new(kind: ScopeKind) -> (s: Scope)
        ensures
            s@ == ScopeV::empty(kind),
    {
        let s = Scope {
            kind,
            vars: Vec::new(),
            types: Vec::new(),
            declaring: Vec::new(),
            declaring_fn: Vec::new(),
            declaring_prop: None,
            this: None,
            this_class_name: None,
        };
        assert(s@.vars =~= Seq::empty());
        assert(s@.types =~= Seq::empty());
        assert(s@.declaring =~= Seq::empty());
        assert(s@.declaring_fn =~= Seq::empty());
        s
    }

    /// The position of the variable named `name`.
    pub fn var_index(&self, name: &String) -> (r: Option<usize>)
        ensures
            match r {
                Some(i) => var_index_from(self@.vars, name@, 0) == Some(i as int) && i
                    < self.vars.len(),
                None => var_index_from(self@.vars, name@, 0).is_none(),
            },
    {
        let mut i: usize = 0;
        while i < self.vars.len()
            invariant
                i <= self.vars.len(),
                var_index_from(self@.vars, name@, 0) == var_index_from(self@.vars, name@, i as int),
            decreases self.vars.len() - i,
        {
            if self.vars[i].name == *name {
                return Some(i);
            }
            i += 1;
        }
        None
    }

    /// The position of the declarations of the type name `name`.
    pub fn decl_index(&self, name: &String) -> (r: Option<usize>)
        ensures
            match r {
                Some(i) => decl_index_from(self@.types, name@, 0) == Some(i as int) && i
                    < self.types.len(),
                None => decl_index_from(self@.types, name@, 0).is_none(),
            },
    {
        let mut i: usize = 0;
        while i < self.types.len()
            invariant
                i <= self.types.len(),
                decl_index_from(self@.types, name@, 0) == decl_index_from(
                    self@.types,
                    name@,
                    i as int,
                ),
            decreases self.types.len() - i,
        {
            if self.types[i].name == *name {
                return Some(i);
            }
            i += 1;
        }
        None
    }
}

impl Env {
    /// An environment with the module's own scope and nothing else.
    pub fn new() -> (e: Env)
        ensures
            e@.scopes == seq![ScopeV::empty(ScopeKind::Module)],
            e@.builtin_types.len() == 0,
            e@.builtin_vars.len() == 0,
            e@.imports.len() == 0,
            !e@.allow_ref_declaring,
            !e@.in_declare,
            !e@.is_builtin,
            !e@.allow_unreachable_code,
    {
        let mut scopes: Vec<Scope> = Vec::new();
        scopes.push(Scope::new(ScopeKind::Module));
        let e = Env {
            scopes,
            builtin_types: Vec::new(),
            builtin_vars: Vec::new(),
            imports: Vec::new(),
            allow_ref_declaring: false,
            in_declare: false,
            is_builtin: false,
            allow_unreachable_code: false,
        };
        assert(e@.scopes =~= seq![ScopeV::empty(ScopeKind::Module)]);
        e
    }

    /// The variable that `name` means at the current place.
    pub fn find_var(&self, name: &String) -> (r: Option<&Var>)
        ensures
            match r {
                Some(v) => self@.find_var(name@) == Some(v@),
                None => self@.find_var(name@).is_none(),
            },
    {
        let mut k: usize = self.scopes.len();
        while k > 0
            invariant
                k <= self.scopes.len(),
                self@.find_var(name@) == find_var_below(self@.scopes, name@, k as int),
            decreases k,
        {
            let scope = &self.scopes[k - 1];
            match scope.var_index(name) {
                Some(i) => {
                    return Some(&scope.vars[i]);
                },
                None => {},
            }
            k -= 1;
        }
        None
    }

    /// The declared type of the variable that `name` means, if it has one.
    pub fn find_var_type(&self, name: &String) -> (r: Option<&Type>)
        ensures
            match r {
                Some(t) => self@.find_var_type(name@) == Some(t@),
                None => self@.find_var_type(name@).is_none(),
            },
    {
        match self.find_var(name) {
            Some(v) => match &v.ty {
                Some(t) => Some(t),
                None => None,
            },
            None => None,
        }
    }

    /// The declarations that the type name `name` means at the current place.
    pub fn find_types(&self, name: &String) -> (r: Option<&Vec<Type>>)
        ensures
            match r {
                Some(ts) => self@.find_types(name@) == Some(types(ts@)),
                None => self@.find_types(name@).is_none(),
            },
    {
        let mut k: usize = self.scopes.len();
        while k > 0
            invariant
                k <= self.scopes.len(),
                self@.find_types(name@) == find_types_below(self@.scopes, name@, k as int),
            decreases k,
        {
            let scope = &self.scopes[k - 1];
            match scope.decl_index(name) {
                Some(i) => {
                    return Some(&scope.types[i].types);
                },
                None => {},
            }
            k -= 1;
        }
        None
    }

    /// The first declaration that the type name `name` means.
    pub fn find_type(&self, name: &String) -> (r: Option<&Type>)
        ensures
            match r {
                Some(t) => self@.find_type(name@) == Some(t@),
                None => self@.find_type(name@).is_none(),
            },
    {
        match self.find_types(name) {
            Some(ts) => if ts.len() > 0 {
                Some(&ts[0])
            } else {
                None
            },
            None => None,
        }
    }

    /// Whether the current scope is initializing `name`.
    pub fn is_declaring(&self, name: &String) -> (b: bool)
        ensures
            b == self@.is_declaring(name@),
    {
        let n = self.scopes.len();
        if n == 0 {
            return false;
        }
        contains_name(&self.scopes[n - 1].declaring, name)
    }

    /// Whether a scope of the chain infers the return type of the function
    /// `name`.
    pub fn is_declaring_fn(&self, name: &String) -> (b: bool)
        ensures
            b == self@.is_declaring_fn(name@),
    {
        let mut k: usize = self.scopes.len();
        while k > 0
            invariant
                k <= self.scopes.len(),
                self@.is_declaring_fn(name@) == declaring_fn_below(self@.scopes, name@, k as int),
            decreases k,
        {
            if contains_name(&self.scopes[k - 1].declaring_fn, name) {
                return true;
            }
            k -= 1;
        }
        false
    }

    /// The class property that the current scope is initializing.
    pub fn declaring_prop(&self) -> (r: Option<&String>)
        ensures
            match r {
                Some(s) => self@.declaring_prop() == Some(s@),
                None => self@.declaring_prop().is_none(),
            },
    {
        let n = self.scopes.len();
        if n == 0 {
            return None;
        }
        match &self.scopes[n - 1].declaring_prop {
            Some(s) => Some(s),
            None => None,
        }
    }

    /// The type of `this` at the current place.
    pub fn this_type(&self) -> (r: Option<&Type>)
        ensures
            match r {
                Some(t) => self@.this_type() == Some(t@),
                None => self@.this_type().is_none(),
            },
    {
        let mut k: usize = self.scopes.len();
        while k > 0
            invariant
                k <= self.scopes.len(),
                self@.this_type() == this_below(self@.scopes, k as int),
            decreases k,
        {
            match &self.scopes[k - 1].this {
                Some(t) => {
                    return Some(t);
                },
                None => {},
            }
            k -= 1;
        }
        None
    }

    /// The built-in type that is named `name`.
    pub fn builtin_type(&self, name: &String) -> (r: Option<&Type>)
        ensures
            match r {
                Some(t) => self@.builtin_type(name@) == Some(t@),
                None => self@.builtin_type(name@).is_none(),
            },
    {
        lookup_named(&self.builtin_types, name)
    }

    /// The built-in variable that is named `name`.
    pub fn builtin_var(&self, name: &String) -> (r: Option<&Type>)
        ensures
            match r {
                Some(t) => self@.builtin_var(name@) == Some(t@),
                None => self@.builtin_var(name@).is_none(),
            },
    {
        lookup_named(&self.builtin_vars, name)
    }

    /// The import that is named `name`.
    pub fn import(&self, name: &String) -> (r: Option<&Type>)
        ensures
            match r {
                Some(t) => self@.import(name@) == Some(t@),
                None => self@.import(name@).is_none(),
            },
    {
        lookup_named(&self.imports, name)
    }
}

/// The names in `s` from position `i` on that are not among `names`, behind
/// `acc`.
pub open spec fn without_from(
    s: Seq<Seq<char>>,
    names: Seq<Seq<char>>,
    i: int,
    acc: Seq<Seq<char>>,
) -> Seq<Seq<char>>
    decreases s.len() - i,
{
    if i < 0 || i >= s.len() {
        acc
    } else if names.contains(s[i]) {
        without_from(s, names, i + 1, acc)
    } else {
        without_from(s, names, i + 1, acc.push(s[i]))
    }
}

impl ScopeV {
    /// The scope after the variable `name` is declared in it. A name that
    /// the scope binds already may be declared again where that is
    /// permitted, or where both declarations are `var`: the new
    /// declaration then updates the old one. Every other declaration of a
    /// bound name is a duplicate.
    pub open spec fn declare_var(
        self,
        span: Span,
        kind: VarKind,
        name: Seq<char>,
        ty: Option<TypeV>,
        initialized: bool,
        allow_multiple: bool,
    ) -> (Result<(), ErrorV>, ScopeV) {
        match var_index_from(self.vars, name, 0) {
            Some(i) => {
                let v = self.vars[i];
                if allow_multiple || (v.kind == VarKind::Var && kind == VarKind::Var) {
                    (
                        Ok(()),
                        ScopeV {
                            vars: self.vars.update(
                                i,
                                VarV {
                                    name,
                                    kind,
                                    ty: if ty.is_some() {
                                        ty
                                    } else {
                                        v.ty
                                    },
                                    initialized: v.initialized || initialized,
                                },
                            ),
                            ..self
                        },
                    )
                } else {
                    (Err(ErrorV::Diag(Diag::DuplicateDeclaration { span })), self)
                }
            },
            None => (
                Ok(()),
                ScopeV { vars: self.vars.push(VarV { name, kind, ty, initialized }), ..self },
            ),
        }
    }

    /// The scope after one more declaration of the type name `name`.
    pub open spec fn register_type(self, name: Seq<char>, ty: TypeV) -> ScopeV {
        match decl_index_from(self.types, name, 0) {
            Some(i) => ScopeV {
                types: self.types.update(
                    i,
                    TypeDeclV { name, types: self.types[i].types.push(ty) },
                ),
                ..self
            },
            None => ScopeV {
                types: self.types.push(TypeDeclV { name, types: seq![ty] }),
                ..self
            },
        }
    }
}

impl EnvV {
    /// The environment with the current scope replaced by `s`.
    pub open spec fn with_current(self, s: ScopeV) -> EnvV {
        if self.scopes.len() > 0 {
            EnvV { scopes: self.scopes.update(self.scopes.len() - 1, s), ..self }
        } else {
            self
        }
    }

    /// The environment inside a new scope that is linked to the current
    /// one.
    pub open spec fn with_child(self, kind: ScopeKind) -> EnvV {
        EnvV { scopes: self.scopes.push(ScopeV::empty(kind)), ..self }
    }

    /// The environment after the current scope is left: its bindings
    /// vanish.
    pub open spec fn without_child(self) -> EnvV {
        if self.scopes.len() > 0 {
            EnvV { scopes: self.scopes.drop_last(), ..self }
        } else {
            self
        }
    }

    /// The environment after the variable `name` is declared in the current
    /// scope.
    pub open spec fn declare_var(
        self,
        span: Span,
        kind: VarKind,
        name: Seq<char>,
        ty: Option<TypeV>,
        initialized: bool,
        allow_multiple: bool,
    ) -> (Result<(), ErrorV>, EnvV) {
        if self.scopes.len() > 0 {
            let (r, s) = self.scopes.last().declare_var(
                span,
                kind,
                name,
                ty,
                initialized,
                allow_multiple,
            );
            (r, self.with_current(s))
        } else {
            (Ok(()), self)
        }
    }

    /// The environment after one more declaration of the type name `name` in
    /// the current scope.
    pub open spec fn register_type(self, name: Seq<char>, ty: TypeV) -> EnvV {
        if self.scopes.len() > 0 {
            self.with_current(self.scopes.last().register_type(name, ty))
        } else {
            self
        }
    }

    /// The environment in which the current scope is initializing `names`
    /// too.
    pub open spec fn add_declaring(self, names: Seq<Seq<char>>) -> EnvV {
        if self.scopes.len() > 0 {
            let s = self.scopes.last();
            self.with_current(ScopeV { declaring: s.declaring + names, ..s })
        } else {
            self
        }
    }

    /// The environment in which the current scope is initializing none of
    /// `names` any more.
    pub open spec fn remove_declaring(self, names: Seq<Seq<char>>) -> EnvV {
        if self.scopes.len() > 0 {
            let s = self.scopes.last();
            self.with_current(
                ScopeV { declaring: without_from(s.declaring, names, 0, Seq::empty()), ..s },
            )
        } else {
            self
        }
    }
}

impl Scope {
    /// Binds the variable `name` in this scope.
    pub fn declare_var(
        &mut self,
        span: Span,
        kind: VarKind,
        name: String,
        ty: Option<Type>,
        initialized: bool,
        allow_multiple: bool,
    ) -> (r: Result<(), Error>)
        ensures
            (
                match r {
                    Ok(_) => Ok::<(), ErrorV>(()),
                    Err(e) => Err(e@),
                },
                final(self)@,
            ) == old(self)@.declare_var(
                span,
                kind,
                name@,
                opt_type(ty),
                initialized,
                allow_multiple,
            ),
    {
        match self.var_index(&name) {
            Some(i) => {
                let both_var = match self.vars[i].kind {
                    VarKind::Var => match kind {
                        VarKind::Var => true,
                        _ => false,
                    },
                    _ => false,
                };
                if allow_multiple || both_var {
                    let old_var = self.vars.remove(i);
                    let new_ty = match ty {
                        Some(t) => Some(t),
                        None => old_var.ty,
                    };
                    self.vars.insert(
                        i,
                        Var {
                            name,
                            kind,
                            ty: new_ty,
                            initialized: old_var.initialized || initialized,
                        },
                    );
                    assert(final(self)@.vars =~= old(self)@.vars.update(
                        i as int,
                        VarV {
                            name: name@,
                            kind,
                            ty: if ty.is_some() {
                                opt_type(ty)
                            } else {
                                old(self)@.vars[i as int].ty
                            },
                            initialized: old(self)@.vars[i as int].initialized || initialized,
                        },
                    ));
                    Ok(())
                } else {
                    Err(Error::Diag(Diag::DuplicateDeclaration { span }))
                }
            },
            None => {
                self.vars.push(Var { name, kind, ty, initialized });
                assert(final(self)@.vars =~= old(self)@.vars.push(
                    VarV { name: name@, kind, ty: opt_type(ty), initialized },
                ));
                Ok(())
            },
        }
    }

    /// Registers one more declaration of the type name `name` in this
    /// scope.
    pub fn register_type(&mut self, name: String, ty: Type)
        ensures
            final(self)@ == old(self)@.register_type(name@, ty@),
    {
        match self.decl_index(&name) {
            Some(i) => {
                let mut d = self.types.remove(i);
                let ghost before = types(d.types@);
                d.types.push(ty);
                assert(types(d.types@) =~= before.push(ty@));
                self.types.insert(i, TypeDecl { name, types: d.types });
                assert(final(self)@.types =~= old(self)@.types.update(
                    i as int,
                    TypeDeclV { name: name@, types: before.push(ty@) },
                ));
            },
            None => {
                let mut ts: Vec<Type> = Vec::new();
                ts.push(ty);
                assert(types(ts@) =~= seq![ty@]);
                self.types.push(TypeDecl { name, types: ts });
                assert(final(self)@.types =~= old(self)@.types.push(
                    TypeDeclV { name: name@, types: seq![ty@] },
                ));
            },
        }
    }
}

/// The names of `s` that are not among `names`.
fn names_without(s: &Vec<String>, names: &Vec<String>) -> (r: Vec<String>)
    ensures
        strs(r@) == without_from(strs(s@), strs(names@), 0, Seq::empty()),
{
    let mut out: Vec<String> = Vec::new();
    assert(strs(out@) =~= Seq::empty());
    let mut i: usize = 0;
    while i < s.len()
        invariant
            i <= s.len(),
            without_from(strs(s@), strs(names@), 0, Seq::empty()) == without_from(
                strs(s@),
                strs(names@),
                i as int,
                strs(out@),
            ),
        decreases s.len() - i,
    {
        if !contains_name(names, &s[i]) {
            let ghost before = strs(out@);
            out.push(s[i].clone());
            assert(strs(out@) =~= before.push(s@[i as int]@));
        }
        i += 1;
    }
    out
}

impl Env {
    /// Enters a new scope that is linked to the current one.
    pub fn with_child(&mut self, kind: ScopeKind)
        ensures
            final(self)@ == old(self)@.with_child(kind),
    {
        self.scopes.push(Scope::new(kind));
        assert(final(self)@.scopes =~= old(self)@.scopes.push(ScopeV::empty(kind)));
    }

    /// Leaves the current scope: its bindings vanish.
    pub fn without_child(&mut self)
        ensures
            final(self)@ == old(self)@.without_child(),
    {
        if self.scopes.len() > 0 {
            self.scopes.pop();
            assert(final(self)@.scopes =~= old(self)@.scopes.drop_last());
        }
    }

    /// Binds the variable `name` in the current scope.
    pub fn declare_var(
        &mut self,
        span: Span,
        kind: VarKind,
        name: String,
        ty: Option<Type>,
        initialized: bool,
        allow_multiple: bool,
    ) -> (r: Result<(), Error>)
        ensures
            (
                match r {
                    Ok(_) => Ok::<(), ErrorV>(()),
                    Err(e) => Err(e@),
                },
                final(self)@,
            ) == old(self)@.declare_var(
                span,
                kind,
                name@,
                opt_type(ty),
                initialized,
                allow_multiple,
            ),
    {
        match self.scopes.pop() {
            Some(mut scope) => {
                let ghost rest = self.scopes@;
                assert(scopes(rest) =~= old(self)@.scopes.drop_last());
                let r = scope.declare_var(span, kind, name, ty, initialized, allow_multiple);
                self.scopes.push(scope);
                assert(final(self)@.scopes =~= old(self)@.scopes.update(
                    old(self)@.scopes.len() - 1,
                    scope@,
                ));
                r
            },
            None => Ok(()),
        }
    }

    /// Registers one more declaration of the type name `name` in the
    /// current scope.
    pub fn register_type(&mut self, name: String, ty: Type)
        ensures
            final(self)@ == old(self)@.register_type(name@, ty@),
    {
        match self.scopes.pop() {
            Some(mut scope) => {
                let ghost rest = self.scopes@;
                assert(scopes(rest) =~= old(self)@.scopes.drop_last());
                scope.register_type(name, ty);
                self.scopes.push(scope);
                assert(final(self)@.scopes =~= old(self)@.scopes.update(
                    old(self)@.scopes.len() - 1,
                    scope@,
                ));
            },
            None => {},
        }
    }

    /// Marks `names` as being initialized by the current scope.
    pub fn add_declaring(&mut self, names: &Vec<String>)
        ensures
            final(self)@ == old(self)@.add_declaring(strs(names@)),
    {
        match self.scopes.pop() {
            Some(mut scope) => {
                let ghost rest = self.scopes@;
                let ghost before = scope@;
                assert(scopes(rest) =~= old(self)@.scopes.drop_last());
                let mut more = crate::copy::copy_strings(names);
                let ghost added = more@;
                scope.declaring.append(&mut more);
                assert(strs(scope.declaring@) =~= before.declaring + strs(added));
                self.scopes.push(scope);
                assert(final(self)@.scopes =~= old(self)@.scopes.update(
                    old(self)@.scopes.len() - 1,
                    scope@,
                ));
            },
            None => {},
        }
    }

    /// Takes `names` out of what the current scope is initializing.
    pub fn remove_declaring(&mut self, names: &Vec<String>)
        ensures
            final(self)@ == old(self)@.remove_declaring(strs(names@)),
    {
        match self.scopes.pop() {
            Some(mut scope) => {
                let ghost rest = self.scopes@;
                assert(scopes(rest) =~= old(self)@.scopes.drop_last());
                scope.declaring = names_without(&scope.declaring, names);
                self.scopes.push(scope);
                assert(final(self)@.scopes =~= old(self)@.scopes.update(
                    old(self)@.scopes.len() - 1,
                    scope@,
                ));
            },
            None => {},
        }
    }
}

} // verus!
