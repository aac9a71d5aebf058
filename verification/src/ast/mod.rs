//! Syntax trees and source positions.

pub mod list;
pub mod node;
pub mod span;
pub mod tree;
