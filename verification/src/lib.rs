//! Front end of a small statically-typed language: a lexer that turns source
//! text into classified tokens, the AST node and operator model, a structural
//! type system, and a scope-resolving walker that builds symbol tables over a
//! parsed block and computes expression types.

pub mod ast;
pub mod driver;
pub mod lexer;
pub mod operations;
pub mod text;
pub mod types;
pub mod walker;
