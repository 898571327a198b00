//! The emission of declarations, as the steps that a printer performs.
//!
//! The emitter decides what is written and in which order; it writes
//! nothing itself. A step names a word, a mark or a part of the node, and a
//! printer that holds the node performs the steps one after the other.

use vstd::prelude::*;
use crate::ast::VarKind;

verus! {

/// A word of the language that a declaration begins with.
#[derive(Clone, Copy, Debug, PartialEq, Eq, Hash, Structural)]
pub enum Word {
    Declare,
    Class,
    Async,
    Function,
    Var,
    Let,
    Const,
}

/// The kinds of declarations that are emitted as a whole by their own
/// emitter.
#[derive(Clone, Copy, Debug, PartialEq, Eq, Hash, Structural)]
pub enum Whole {
    TsEnum,
    TsInterface,
    TsModule,
    TsTypeAlias,
}

/// One step of a printer.
#[derive(Clone, Copy, Debug, PartialEq, Eq, Hash, Structural)]
pub enum Step {
    /// The comments that lead up to the position.
    LeadingComments { pos: u32 },
    Keyword(Word),
    /// A space that separates two words.
    Space,
    /// A space that only formats.
    FormattingSpace,
    /// The mark `*` of a generator.
    Star,
    /// The mark `=` before an initializer.
    Equals,
    Semi,
    /// The decorator of the class with the given index.
    Decorator { index: usize },
    /// The name of the declaration.
    Name,
    /// What follows the name of a class.
    ClassTrailing,
    /// What follows the name of a function.
    FnTrailing,
    /// The declarators of a variable declaration, as a list.
    Declarators,
    /// The initializer of a declarator.
    Init,
    /// A declaration that its own emitter emits.
    Node(Whole),
}

/// What the emitter reads of a class declaration.
#[derive(Clone, Copy, Debug, PartialEq, Eq, Hash, Structural)]
pub struct ClassDecl {
    /// Where the declaration begins.
    pub lo: u32,
    pub declare: bool,
    /// The number of the decorators of the class.
    pub decorators: usize,
}

/// What the emitter reads of a function declaration.
#[derive(Clone, Copy, Debug, PartialEq, Eq, Hash, Structural)]
pub struct FnDecl {
    pub lo: u32,
    pub declare: bool,
    pub is_async: bool,
    pub is_generator: bool,
}

/// What the emitter reads of a variable declaration.
#[derive(Clone, Copy, Debug, PartialEq, Eq, Hash, Structural)]
pub struct VarDecl {
    pub lo: u32,
    pub declare: bool,
    pub kind: VarKind,
}

/// What the emitter reads of a declarator.
#[derive(Clone, Copy, Debug, PartialEq, Eq, Hash, Structural)]
pub struct VarDeclarator {
    pub lo: u32,
    pub has_init: bool,
}

/// What the emitter reads of a declaration.
#[derive(Clone, Copy, Debug, PartialEq, Eq, Hash, Structural)]
pub enum Decl {
    Class(ClassDecl),
    Fn(FnDecl),
    Var(VarDecl),
    Other(Whole),
}

/// The steps of the word `declare`, if the declaration is ambient.
pub open spec fn declare_steps(declare: bool) -> Seq<Step> {
    if declare {
        seq![Step::Keyword(Word::Declare), Step::Space]
    } else {
        Seq::empty()
    }
}

/// The steps of `n` decorators, in their order.
pub open spec fn decorator_steps(n: nat) -> Seq<Step> {
    Seq::new(n, |i: int| Step::Decorator { index: i as usize })
}

/// The steps of a class declaration: its leading comments, `declare` if it
/// is ambient, its decorators, the word `class`, its name, and what follows
/// the name.
pub open spec fn class_decl_steps(node: ClassDecl) -> Seq<Step> {
    seq![Step::LeadingComments { pos: node.lo }] + declare_steps(node.declare) + decorator_steps(
        node.decorators as nat,
    ) + seq![Step::Keyword(Word::Class), Step::Space, Step::Name, Step::ClassTrailing]
}

/// The steps of a function declaration: its leading comments, `declare`
/// and `async` as far as they apply, the word `function`, the mark of a
/// generator, its name, and what follows the name.
pub open spec fn fn_decl_steps(node: FnDecl) -> Seq<Step> {
    seq![Step::LeadingComments { pos: node.lo }] + declare_steps(node.declare) + (if node.is_async {
        seq![Step::Keyword(Word::Async), Step::Space]
    } else {
        Seq::empty()
    }) + seq![Step::Keyword(Word::Function)] + (if node.is_generator {
        seq![Step::Star]
    } else {
        Seq::empty()
    }) + seq![Step::Space, Step::Name, Step::FnTrailing]
}

/// The word of a kind of variable declaration.
pub open spec fn kind_word(kind: VarKind) -> Word {
    match kind {
        VarKind::Var => Word::Var,
        VarKind::Let => Word::Let,
        VarKind::Const => Word::Const,
    }
}

/// The steps of a variable declaration: its leading comments, `declare` if
/// it is ambient, the word of its kind, and its declarators.
pub open spec fn var_decl_steps(node: VarDecl) -> Seq<Step> {
    seq![Step::LeadingComments { pos: node.lo }] + declare_steps(node.declare) + seq![
        Step::Keyword(kind_word(node.kind)),
        Step::Space,
        Step::Declarators,
    ]
}

/// The steps of a declarator: its leading comments, its name, and its
/// initializer behind `=` if it has one.
pub open spec fn var_declarator_steps(node: VarDeclarator) -> Seq<Step> {
    seq![Step::LeadingComments { pos: node.lo }, Step::Name] + (if node.has_init {
        seq![Step::FormattingSpace, Step::Equals, Step::FormattingSpace, Step::Init]
    } else {
        Seq::empty()
    })
}

/// The steps of a declaration. A variable declaration that stands as a
/// declaration ends in a semicolon.
pub open spec fn decl_steps(node: Decl) -> Seq<Step> {
    match node {
        Decl::Class(n) => class_decl_steps(n),
        Decl::Fn(n) => fn_decl_steps(n),
        Decl::Var(n) => var_decl_steps(n).push(Step::Semi),
        Decl::Other(w) => seq![Step::Node(w)],
    }
}

/// An emitter: the steps that it has decided on so far.
#[derive(Debug, PartialEq, Eq)]
pub struct Emitter {
    pub steps: Vec<Step>,
}

impl Emitter {
    /// An emitter that has decided on nothing yet.
    pub fn new() -> (e: Emitter)
        ensures
            e.steps@ == Seq::<Step>::empty(),
    {
        Emitter { steps: Vec::new() }
    }

    fn declare(&mut self, declare: bool)
        ensures
            final(self).steps@ == old(self).steps@ + declare_steps(declare),
    {
        if declare {
            self.steps.push(Step::Keyword(Word::Declare));
            self.steps.push(Step::Space);
        }
        assert(final(self).steps@ =~= old(self).steps@ + declare_steps(declare));
    }

    /// Decides on the steps of a declaration.
    pub fn emit_decl(&mut self, node: &Decl)
        ensures
            final(self).steps@ == old(self).steps@ + decl_steps(*node),
    {
        match node {
            Decl::Class(n) => self.emit_class_decl(n),
            Decl::Fn(n) => self.emit_fn_decl(n),
            Decl::Var(n) => {
                self.emit_var_decl(n);
                self.steps.push(Step::Semi);
                assert(final(self).steps@ =~= old(self).steps@ + var_decl_steps(*n).push(
                    Step::Semi,
                ));
            },
            Decl::Other(w) => {
                self.steps.push(Step::Node(*w));
                assert(final(self).steps@ =~= old(self).steps@ + seq![Step::Node(*w)]);
            },
        }
    }

    /// Decides on the steps of a class declaration.
    pub fn emit_class_decl(&mut self, node: &ClassDecl)
        ensures
            final(self).steps@ == old(self).steps@ + class_decl_steps(*node),
    {
        self.steps.push(Step::LeadingComments { pos: node.lo });
        self.declare(node.declare);
        let ghost head = self.steps@;
        let mut i: usize = 0;
        while i < node.decorators
            invariant
                i <= node.decorators,
                self.steps@ == head + decorator_steps(i as nat),
            decreases node.decorators - i,
        {
            self.steps.push(Step::Decorator { index: i });
            assert(self.steps@ =~= head + decorator_steps((i + 1) as nat));
            i += 1;
        }
        self.steps.push(Step::Keyword(Word::Class));
        self.steps.push(Step::Space);
        self.steps.push(Step::Name);
        self.steps.push(Step::ClassTrailing);
        assert(final(self).steps@ =~= old(self).steps@ + class_decl_steps(*node));
    }

    /// Decides on the steps of a function declaration.
    pub fn emit_fn_decl(&mut self, node: &FnDecl)
        ensures
            final(self).steps@ == old(self).steps@ + fn_decl_steps(*node),
    {
        self.steps.push(Step::LeadingComments { pos: node.lo });
        self.declare(node.declare);
        if node.is_async {
            self.steps.push(Step::Keyword(Word::Async));
            self.steps.push(Step::Space);
        }
        self.steps.push(Step::Keyword(Word::Function));
        if node.is_generator {
            self.steps.push(Step::Star);
        }
        self.steps.push(Step::Space);
        self.steps.push(Step::Name);
        self.steps.push(Step::FnTrailing);
        assert(final(self).steps@ =~= old(self).steps@ + fn_decl_steps(*node));
    }

    /// Decides on the steps of a variable declaration.
    pub fn emit_var_decl(&mut self, node: &VarDecl)
        ensures
            final(self).steps@ == old(self).steps@ + var_decl_steps(*node),
    {
        self.steps.push(Step::LeadingComments { pos: node.lo });
        self.declare(node.declare);
        let word = match node.kind {
            VarKind::Var => Word::Var,
            VarKind::Let => Word::Let,
            VarKind::Const => Word::Const,
        };
        self.steps.push(Step::Keyword(word));
        self.steps.push(Step::Space);
        self.steps.push(Step::Declarators);
        assert(final(self).steps@ =~= old(self).steps@ + var_decl_steps(*node));
    }

    /// Decides on the steps of a declarator.
    pub fn emit_var_declarator(&mut self, node: &VarDeclarator)
        ensures
            final(self).steps@ == old(self).steps@ + var_declarator_steps(*node),
    {
        self.steps.push(Step::LeadingComments { pos: node.lo });
        self.steps.push(Step::Name);
        if node.has_init {
            self.steps.push(Step::FormattingSpace);
            self.steps.push(Step::Equals);
            self.steps.push(Step::FormattingSpace);
            self.steps.push(Step::Init);
        }
        assert(final(self).steps@ =~= old(self).steps@ + var_declarator_steps(*node));
    }
}

} // verus!
