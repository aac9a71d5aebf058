//! What holds of every piece of machine code that is emitted.

use vstd::prelude::*;
use crate::compiler::chunk::ChunkView;
use crate::compiler::opcode;
use crate::compiler::opcode::OpCode;
use crate::jit::arm64;
use crate::jit::compiler;
use crate::jit::compiler::{LoopState, Recursion};

verus! {

/// Whether code is made of whole instruction words.
pub open spec fn whole_words(code: Seq<u8>) -> bool {
    code.len() % 4 == 0
}

/// Whether the branches that wait for their targets lie in the code.
spec fn pending_inside(code: Seq<u8>, pending: Seq<(usize, usize)>) -> bool {
    forall|i: int| 0 <= i < pending.len() ==> (#[trigger] pending[i]).1 + 4 <= code.len()
}

pub(crate) proof fn lemma_words_bytes(words: Seq<u32>)
    ensures
        arm64::words_bytes(words).len() == 4 * words.len(),
    decreases words.len(),
{
    if words.len() > 0 {
        lemma_words_bytes(words.drop_last());
    }
}

#[verifier::rlimit(60)]
proof fn lemma_binary_code(r: Recursion)
    ensures
        whole_words(compiler::binary_code(r)),
{
    reveal(compiler::binary_code);
}

#[verifier::rlimit(60)]
proof fn lemma_ackermann_code()
    ensures
        whole_words(compiler::ackermann_code()),
{
    reveal(compiler::ackermann_code);
}

#[verifier::rlimit(60)]
proof fn lemma_takeuchi_code()
    ensures
        whole_words(compiler::takeuchi_code()),
{
    reveal(compiler::takeuchi_code);
}

#[verifier::spinoff_prover]
proof fn lemma_loop_step(c: ChunkView, op: OpCode, ip: int, s: LoopState)
    requires
        whole_words(s.code),
        pending_inside(s.code, s.pending),
        s.code.len() <= compiler::CODE_LIMIT,
    ensures
        compiler::loop_step(c, op, ip, s) matches Some(next) ==> whole_words(next.code)
            && pending_inside(next.code, next.pending),
{
    if compiler::loading(op) && compiler::loaded(c, op, ip) is Some && compiler::register(
        s.top,
    ) is Some {
        let r = compiler::register(s.top)->0;
        let value = compiler::loaded(c, op, ip)->0;
        lemma_words_bytes(arm64::imm64_words(r, value as u64));
    }
}

proof fn lemma_loop_walk(c: ChunkView, ip: int, s: LoopState)
    requires
        whole_words(s.code),
        pending_inside(s.code, s.pending),
    ensures
        compiler::loop_walk(c, ip, s) matches Some(end) ==> whole_words(end.code)
            && pending_inside(end.code, end.pending),
    decreases c.code.len() - ip,
{
    if ip < c.code.len() {
        match OpCode::of_byte(c.code[ip]) {
            None => {},
            Some(op) => if ip + op.size() <= c.code.len() && s.code.len() <= compiler::CODE_LIMIT {
                opcode::law_size_bounds(op);
                let marked = LoopState {
                    marks: s.marks.push((ip as usize, s.code.len() as usize)),
                    ..s
                };
                lemma_loop_step(c, op, ip, marked);
                match compiler::loop_step(c, op, ip, marked) {
                    Some(next) => {
                        lemma_loop_walk(c, ip + op.size(), next);
                    },
                    None => {},
                }
            },
        }
    }
}

proof fn lemma_resolved(
    code: Seq<u8>,
    marks: Seq<(usize, usize)>,
    pending: Seq<(usize, usize)>,
    i: int,
)
    requires
        pending_inside(code, pending),
    ensures
        compiler::resolved(code, marks, pending, i) matches Some(end) ==> end.len() == code.len(),
    decreases pending.len() - i,
{
    if 0 <= i < pending.len() {
        match compiler::mark_of(marks, pending[i].0, 0) {
            Some(target) => {
                lemma_resolved(
                    arm64::branch_patched(code, pending[i].1 as int, target as int),
                    marks,
                    pending,
                    i + 1,
                );
            },
            None => {},
        }
    }
}

/// The machine code of a compiled function is made of whole instruction words.
pub proof fn law_whole_words(c: ChunkView)
    ensures
        compiler::jit(c) matches Some(function) ==> whole_words(function.code),
{
    match compiler::scan(c, 0, Seq::empty(), false) {
        Some((values, less)) => {
            lemma_binary_code(compiler::recursion_of(values, less));
        },
        None => {},
    }
    lemma_ackermann_code();
    lemma_takeuchi_code();
    reveal(compiler::loop_code);
    let start = LoopState {
        code: compiler::prologue(c.param_count),
        top: c.param_count as nat,
        compared: None,
        marks: Seq::empty(),
        pending: Seq::empty(),
    };
    assert(whole_words(start.code));
    lemma_loop_walk(c, 0, start);
    match compiler::loop_walk(c, 0, start) {
        Some(s) => {
            lemma_resolved(s.code, s.marks, s.pending, 0);
        },
        None => {},
    }
}

/// A function has machine code only if all of its instructions are numeric ones.
pub proof fn law_only_numeric(c: ChunkView)
    ensures
        compiler::jit(c) is Some ==> compiler::all_numeric(c.code, 0),
{
}

} // verus!
