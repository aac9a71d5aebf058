//! Bytecode: instruction set, chunks, the compiler and the disassembler.

pub mod alike;
pub mod bindings;
pub mod chunk;
pub mod compiler;
pub mod control;
pub mod disassemble;
pub mod effects;
pub mod execution;
pub mod kept;
pub mod kept_expressions;
pub mod kept_statements;
pub mod kept_switch;
pub mod laws;
pub mod loops;
pub mod members;
pub mod names;
pub mod opcode;
pub mod operations;
pub mod shape;
pub mod variables;
