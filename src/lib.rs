//! Abstract syntax tree of a small expression language, and a canonical,
//! fully parenthesised text rendering of it.
pub mod ast;
pub mod decimal;
pub mod laws;
pub mod render;

pub use ast::{Expr, Identifier, Program, Statement, TokenType};
pub use render::{expression_to_string, program_to_string, statement_to_string};
