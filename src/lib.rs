//! Runtime core of a small scripting language: a block-scoped symbol table,
//! a tree-walking evaluator over an already-parsed program, and the
//! recursive-descent parser of the language's expression syntax.

pub mod value;
pub mod environment;
pub mod ast;
pub mod eval;
pub mod token;
pub mod syntax;
pub mod parser;
pub mod hir;
