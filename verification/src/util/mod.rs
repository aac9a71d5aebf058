//! Shared utilities.

pub mod interner;
pub mod json;
pub mod text;
