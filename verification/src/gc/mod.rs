//! The garbage collector.

pub mod heap;
pub mod trace;
