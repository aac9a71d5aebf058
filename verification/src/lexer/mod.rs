//! Source text to tokens.

pub mod cursor;
pub mod laws;
pub mod lexer;
pub mod spelling;
pub mod token;
pub mod unicode;
