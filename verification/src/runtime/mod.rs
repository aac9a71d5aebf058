//! Runtime values.

pub mod bignat;
pub mod number;
pub mod number_laws;
pub mod number_literal;
pub mod number_text;
pub mod value;
