//! The grammar engine.
//!
//! [`model`] states what the engine computes, as functions on a mathematical
//! view of its state; [`grammar`] states the productions in the same way. The
//! other modules hold the executable engine, each function proved to compute
//! what the model says.

pub mod model;
pub mod kinds;
pub mod cursor;
pub mod grammar;
pub mod binding;
pub mod nested;
pub mod function;
pub mod expression;
pub mod statement;
pub mod entry;
pub mod laws;
