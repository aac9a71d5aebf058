//! Machine-code emission.

pub mod arm64;
pub mod compiler;
pub mod laws;
pub mod machine;
pub mod processor;
pub mod simulation;
pub mod x86_64;
pub mod x86_laws;
