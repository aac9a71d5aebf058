//! The parser: tokens to syntax trees.

pub mod cover;
pub mod error;
pub mod escapes;
pub mod expression;
pub mod operators;
pub mod parser;
pub mod pattern;
pub mod precedence;
pub mod program;
pub mod statement;
