use ts_checker::ast::VarKind;
use ts_checker::emit::{ClassDecl, Decl, Emitter, FnDecl, Step, VarDecl, VarDeclarator, Whole, Word};

fn steps(f: impl FnOnce(&mut Emitter)) -> Vec<Step> {
    let mut e = Emitter::new();
    f(&mut e);
    e.steps
}

#[test]
fn class_declaration_steps() {
    assert_eq!(
        steps(|e| e.emit_class_decl(&ClassDecl { lo: 5, declare: true, decorators: 2 })),
        vec![
            Step::LeadingComments { pos: 5 },
            Step::Keyword(Word::Declare),
            Step::Space,
            Step::Decorator { index: 0 },
            Step::Decorator { index: 1 },
            Step::Keyword(Word::Class),
            Step::Space,
            Step::Name,
            Step::ClassTrailing,
        ]
    );
    assert_eq!(
        steps(|e| e.emit_class_decl(&ClassDecl { lo: 0, declare: false, decorators: 0 })),
        vec![
            Step::LeadingComments { pos: 0 },
            Step::Keyword(Word::Class),
            Step::Space,
            Step::Name,
            Step::ClassTrailing,
        ]
    );
}

#[test]
fn function_declaration_steps() {
    assert_eq!(
        steps(|e| e.emit_fn_decl(&FnDecl { lo: 1, declare: false, is_async: true, is_generator: true })),
        vec![
            Step::LeadingComments { pos: 1 },
            Step::Keyword(Word::Async),
            Step::Space,
            Step::Keyword(Word::Function),
            Step::Star,
            Step::Space,
            Step::Name,
            Step::FnTrailing,
        ]
    );
    assert_eq!(
        steps(|e| e.emit_fn_decl(&FnDecl { lo: 1, declare: true, is_async: false, is_generator: false })),
        vec![
            Step::LeadingComments { pos: 1 },
            Step::Keyword(Word::Declare),
            Step::Space,
            Step::Keyword(Word::Function),
            Step::Space,
            Step::Name,
            Step::FnTrailing,
        ]
    );
}

#[test]
fn variable_declaration_steps() {
    for (kind, word) in [(VarKind::Var, Word::Var), (VarKind::Let, Word::Let), (VarKind::Const, Word::Const)] {
        assert_eq!(
            steps(|e| e.emit_var_decl(&VarDecl { lo: 2, declare: false, kind })),
            vec![
                Step::LeadingComments { pos: 2 },
                Step::Keyword(word),
                Step::Space,
                Step::Declarators,
            ]
        );
    }
    assert_eq!(
        steps(|e| e.emit_var_declarator(&VarDeclarator { lo: 3, has_init: true })),
        vec![
            Step::LeadingComments { pos: 3 },
            Step::Name,
            Step::FormattingSpace,
            Step::Equals,
            Step::FormattingSpace,
            Step::Init,
        ]
    );
    assert_eq!(
        steps(|e| e.emit_var_declarator(&VarDeclarator { lo: 3, has_init: false })),
        vec![Step::LeadingComments { pos: 3 }, Step::Name]
    );
}

#[test]
fn declaration_steps() {
    assert_eq!(
        steps(|e| e.emit_decl(&Decl::Var(VarDecl { lo: 2, declare: true, kind: VarKind::Let }))),
        vec![
            Step::LeadingComments { pos: 2 },
            Step::Keyword(Word::Declare),
            Step::Space,
            Step::Keyword(Word::Let),
            Step::Space,
            Step::Declarators,
            Step::Semi,
        ]
    );
    assert_eq!(
        steps(|e| {
            e.emit_decl(&Decl::Other(Whole::TsEnum));
            e.emit_decl(&Decl::Class(ClassDecl { lo: 9, declare: false, decorators: 0 }));
            e.emit_decl(&Decl::Fn(FnDecl { lo: 8, declare: false, is_async: false, is_generator: false }));
        }),
        vec![
            Step::Node(Whole::TsEnum),
            Step::LeadingComments { pos: 9 },
            Step::Keyword(Word::Class),
            Step::Space,
            Step::Name,
            Step::ClassTrailing,
            Step::LeadingComments { pos: 8 },
            Step::Keyword(Word::Function),
            Step::Space,
            Step::Name,
            Step::FnTrailing,
        ]
    );
}
