//! A front end for JavaScript and TypeScript sources.
//!
//! The crate holds a recursive-descent grammar engine for functions,
//! statements and expressions that builds an index-based syntax tree, the
//! configuration logic of the lint engine, and one lint rule that walks the
//! tree. Every executable item carries a contract. Verus proves each of them
//! but those of the few functions that state, without proof, what a function
//! of another crate returns.

pub mod span;
pub mod text;
pub mod context;
pub mod token;
pub mod lexer;
pub mod modifiers;
pub mod diagnostics;
pub mod ast;
pub mod parser;
pub mod linter;
