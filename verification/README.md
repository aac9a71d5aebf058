# zinc

The front half of a JavaScript engine as a verified library: source text becomes tokens,
tokens a syntax tree, and the tree bytecode. Beside it stand a small just-in-time compiler
for numeric functions, a mark-and-sweep heap, and what a host program sees of the engine.

## Layout

- `src/lexer`: the cursor over the source text, the character classes of identifiers
  (`unicode.rs`), the tokens, the lexer, and what holds of every stream of tokens (`laws.rs`).
- `src/ast`: the syntax tree (`node.rs`) and its mathematical counterpart (`tree.rs`).
- `src/parser`: recursive descent with operator precedence. The grammar is stated as
  functions on `ParserState`, and the executable parser is proved to follow it.
- `src/compiler`: opcodes, chunks, the compiler and the disassembler. `CState` is the
  mathematical state of a compilation; each step of the compiler is stated on it. `laws.rs`
  holds what relates several of them, and `alike.rs` that no step reads line numbers. Decoding
  a byte, and with it the listing, knows the core opcodes alone.
- `src/runtime`: numbers by their bit patterns, without floating point: reading decimals,
  writing the shortest decimal, and the proof that what is written is read back
  (`number_laws.rs`).
- `src/jit`: ARM64 and x86-64 assemblers, and machine code for numeric functions. What the
  code does when it runs is stated in `machine.rs` and `x86_laws.rs`; `processor.rs` says what
  a whole call does, and `simulation.rs` proves that it returns what the bytecode returns.
- `src/gc`: tracing and the collected heap.
- `src/engine.rs`: lexer, parser and compiler in a row; host objects and globals.
- `app`: the command line, and executable memory for machine code.
- `tests`: examples that run.

## What is trusted

Four functions of the standard library are given contracts without proof:
`char::is_alphabetic` and `char::is_alphanumeric` (each a function of its character),
`char::from_u32` and `String::push`.
