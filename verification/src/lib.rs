//! A JavaScript engine core: lexer, parser, bytecode compiler, machine-code emitters and
//! garbage-collected heap.

pub mod ast;
pub mod compiler;
pub mod engine;
pub mod gc;
pub mod jit;
pub mod lexer;
pub mod parser;
pub mod runtime;
pub mod util;
