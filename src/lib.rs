//! Front end of a small statically typed scripting language: turns a stream of
//! positioned tokens into a typed syntax tree, rejecting ill-typed programs on
//! the first error.
//!
//! - `token`: tokens and their positions.
//! - `ast`: value types, errors, and the layered expression and statement
//!   trees, with what it means for a tree to be well typed.
//! - `scope`: scopes of declared variables. A reference searches from the
//!   innermost scope outwards, so a child scope starts empty and never
//!   changes its parent.
//! - `grammar`: the grammar as spec functions; every parse function is
//!   proved to return exactly what these describe.
//! - `primitives`, `expr`, `stmt`: the parser itself.
//! - `laws`: properties of the grammar (types of literals, operands that must
//!   agree, well-typed results, determinism).
//!
//! Variable references resolve to the innermost declaration and take its
//! type; a name that no scope declares is an `UndeclaredVariable` error.
pub mod ast;
pub mod token;
pub mod scope;
pub mod grammar;
pub mod primitives;
pub mod expr;
pub mod stmt;
pub mod laws;

pub use stmt::parse;
