//! A small model of C source code (types, expressions, statements and top-level declarations)
//! together with a renderer that writes a tree of the model out as C source text.
//!
//! Expressions are rendered with every operand in parentheses, so that the output never
//! depends on operator precedence. Types are rendered as declarators, in which the declared
//! name is wrapped by the pointer and array layers of its type.

pub mod decl;
pub mod expr;
pub mod render;
pub mod stmt;
pub mod text;
pub mod types;

pub use crate::decl::CDecl;
pub use crate::expr::CExpr;
pub use crate::render::ToC;
pub use crate::stmt::CStmt;
pub use crate::types::CType;
