//! A static structural type checker for a TypeScript-like language.
//!
//! The analyzer works on an already parsed syntax tree. It resolves names
//! through nested scopes, normalises types, infers the type of every
//! expression form, resolves members and calls, validates the structure of
//! classes and binds exports. Every function is verified against a
//! mathematical model of the data it works on.
//!
//! The data: `span`, `number`, `types` with `copy`, `equal` and `union`,
//! `errors`, `ast`, `scope` and `state`. The typing rules as mathematical
//! functions: `model`, `bin` and `rules`, and what is proved of them in
//! `canonical`, `sink` and `child`. The analyzer that computes them: `ops`,
//! `expand`, `member`, `expr`, `call`, `function`, `pat`, `class` and
//! `export`, with `analyzer` as the way in. Beside them stand `duplicate`, a tracker of
//! visited nodes, and `emit`, the steps of the printer of declarations.

pub mod span;
pub mod number;
pub mod types;
pub mod copy;
pub mod equal;
pub mod union;
pub mod errors;
pub mod ast;
pub mod scope;
pub mod state;
pub mod model;
pub mod bin;
pub mod rules;
pub mod canonical;
pub mod sink;
pub mod ops;
pub mod expand;
pub mod member;
pub mod expr;
pub mod call;
pub mod function;
pub mod pat;
pub mod class;
pub mod child;
pub mod export;
pub mod analyzer;
pub mod duplicate;
pub mod emit;
