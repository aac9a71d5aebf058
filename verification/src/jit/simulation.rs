//! The machine code of a loop function returns what its bytecode returns.

use vstd::prelude::*;
use crate::compiler::chunk;
use crate::compiler::chunk::ChunkView;
use crate::compiler::opcode;
use crate::compiler::opcode::OpCode;
use crate::jit::arm64;
use crate::jit::compiler;
use crate::jit::compiler::LoopState;
use crate::jit::laws;
use crate::jit::machine;
use crate::jit::machine::Machine;
use crate::jit::processor;
use crate::jit::processor::{Cell, Course, Cpu, Frame};

verus! {

/// Whether an opcode becomes a branch that waits for its target.
spec fn waiting(op: OpCode) -> bool {
    op == OpCode::Jump || op == OpCode::JumpIfFalse
}

/// What holds of every state of the compilation: whole words of code, the stack in the
/// registers, branches that lie behind the prologue one behind the other, and notes of where
/// instructions start.
spec fn sound(c: ChunkView, s: LoopState) -> bool {
    &&& laws::whole_words(s.code)
    &&& s.top <= 12
    &&& s.code.len() <= compiler::CODE_LIMIT + 32
    &&& forall|k: int| #![trigger s.pending[k]]
        0 <= k < s.pending.len() ==> compiler::prologue(c.param_count).len() <= s.pending[k].1
            && s.pending[k].1 + 4 <= s.code.len() && s.pending[k].1 % 4 == 0
    &&& forall|k: int, l: int| #![trigger s.pending[k], s.pending[l]]
        0 <= k < l < s.pending.len() ==> s.pending[k].1 + 4 <= s.pending[l].1
    &&& forall|k: int| #![trigger s.marks[k]]
        0 <= k < s.marks.len() ==> (processor::state_at(c, s.marks[k].0 as int) matches Some(x)
            && x.code.len() == s.marks[k].1)
}

/// How a step of the compilation changes the state.
#[verifier::spinoff_prover]
#[verifier::rlimit(40)]
proof fn lemma_step(c: ChunkView, op: OpCode, ip: int, s: LoopState)
    requires
        compiler::loop_step(c, op, ip, s) is Some,
        laws::whole_words(s.code),
        s.code.len() <= compiler::CODE_LIMIT,
        s.top <= 12,
    ensures
        ({
            let t = compiler::loop_step(c, op, ip, s)->0;
            &&& s.code.is_prefix_of(t.code)
            &&& t.code.len() <= s.code.len() + 32
            &&& laws::whole_words(t.code)
            &&& t.marks == s.marks
            &&& t.top <= 12
            &&& waiting(op) ==> t.code.len() == s.code.len() + 4 && compiler::jump_target(
                c,
                ip,
            ) is Some && t.pending == s.pending.push(
                (compiler::jump_target(c, ip)->0, s.code.len() as usize),
            )
            &&& !waiting(op) ==> t.pending == s.pending
            &&& compiler::comparing(op) ==> t.compared == Some(op)
            &&& op == OpCode::JumpIfFalse ==> t.compared is None
            &&& !compiler::comparing(op) && op != OpCode::JumpIfFalse ==> t.compared == s.compared
        }),
{
    if compiler::loading(op) {
        let r = compiler::register(s.top)->0;
        let value = compiler::loaded(c, op, ip)->0;
        let words = arm64::imm64_words(r, value as u64);
        laws::lemma_words_bytes(words);
        assert(words.len() <= 4);
    }
}

/// One instruction more.
proof fn lemma_before_next(c: ChunkView, from: int, s: LoopState, ip: int)
    requires
        0 <= from,
        ip < c.code.len(),
        processor::before(c, from, s, ip) matches Some(x) && processor::stepped(c, ip, x) is Some,
    ensures
        processor::before(c, from, s, ip + compiler::op_at(c.code, ip).size())
            == processor::stepped(c, ip, processor::before(c, from, s, ip)->0),
    decreases c.code.len() - from,
{
    let size = compiler::op_at(c.code, ip).size();
    opcode::law_size_bounds(compiler::op_at(c.code, ip));
    if from == ip {
        reveal_with_fuel(processor::before, 2);
    } else {
        opcode::law_size_bounds(compiler::op_at(c.code, from));
        let t = processor::stepped(c, from, s)->0;
        lemma_before_next(c, from + compiler::op_at(c.code, from).size(), t, ip);
    }
}

/// The way to a position goes over each instruction before it.
proof fn lemma_before_over(c: ChunkView, from: int, s: LoopState, mid: int, ip: int)
    requires
        0 <= from <= mid <= ip,
        processor::before(c, from, s, mid) is Some,
        processor::before(c, from, s, ip) is Some,
    ensures
        processor::before(c, from, s, ip) == processor::before(
            c,
            mid,
            processor::before(c, from, s, mid)->0,
            ip,
        ),
    decreases c.code.len() - from,
{
    if from < mid {
        opcode::law_size_bounds(compiler::op_at(c.code, from));
        let t = processor::stepped(c, from, s)->0;
        lemma_before_over(c, from + compiler::op_at(c.code, from).size(), t, mid, ip);
    }
}

/// The compilation ends in the state in which it comes to the end of the bytecode.
proof fn lemma_walk_before(c: ChunkView, from: int, s: LoopState)
    requires
        0 <= from <= c.code.len(),
        compiler::loop_walk(c, from, s) is Some,
    ensures
        processor::before(c, from, s, c.code.len() as int) == compiler::loop_walk(c, from, s),
    decreases c.code.len() - from,
{
    if from < c.code.len() {
        opcode::law_size_bounds(compiler::op_at(c.code, from));
        let t = processor::stepped(c, from, s)->0;
        lemma_walk_before(c, from + compiler::op_at(c.code, from).size(), t);
    }
}

/// Where the compilation gets through, it comes from each instruction to the end.
proof fn lemma_goes_on(c: ChunkView, ip: int)
    requires
        compiler::loop_walk(c, 0, processor::first_state(c)) is Some,
        processor::state_at(c, ip) is Some,
        0 <= ip < c.code.len(),
    ensures
        processor::stepped(c, ip, processor::state_at(c, ip)->0) is Some,
        processor::state_at(c, ip + compiler::op_at(c.code, ip).size()) == processor::stepped(
            c,
            ip,
            processor::state_at(c, ip)->0,
        ),
        OpCode::of_byte(c.code[ip]) == Some(compiler::op_at(c.code, ip)),
        ip + compiler::op_at(c.code, ip).size() <= c.code.len(),
{
    let first = processor::first_state(c);
    lemma_walk_before(c, 0, first);
    lemma_before_over(c, 0, first, ip, c.code.len() as int);
    lemma_before_next(c, 0, first, ip);
}

/// A step keeps the state sound.
proof fn lemma_step_sound(c: ChunkView, ip: int, s: LoopState)
    requires
        c.code.len() <= usize::MAX,
        0 <= ip < c.code.len(),
        processor::state_at(c, ip) == Some(s),
        sound(c, s),
        compiler::prologue(c.param_count).len() <= s.code.len(),
        processor::stepped(c, ip, s) is Some,
    ensures
        sound(c, processor::stepped(c, ip, s)->0),
        compiler::prologue(c.param_count).len() <= processor::stepped(c, ip, s)->0.code.len(),
{
    let op = OpCode::of_byte(c.code[ip])->0;
    let marked = LoopState { marks: s.marks.push((ip as usize, s.code.len() as usize)), ..s };
    lemma_step(c, op, ip, marked);
}

/// What lies between two positions of the compilation.
proof fn lemma_later(c: ChunkView, from: int, s: LoopState, ip: int)
    requires
        c.code.len() <= usize::MAX,
        0 <= from <= c.code.len(),
        processor::state_at(c, from) == Some(s),
        sound(c, s),
        compiler::prologue(c.param_count).len() <= s.code.len(),
        processor::before(c, from, s, ip) is Some,
    ensures
        ({
            let x = processor::before(c, from, s, ip)->0;
            &&& from <= ip
            &&& sound(c, x)
            &&& compiler::prologue(c.param_count).len() <= x.code.len()
            &&& s.code.is_prefix_of(x.code)
            &&& s.pending.is_prefix_of(x.pending)
            &&& x.code.len() <= s.code.len() + 32 * (ip - from)
            &&& forall|k: int| #![trigger x.pending[k]]
                s.pending.len() <= k < x.pending.len() ==> s.code.len() <= x.pending[k].1
        }),
    decreases c.code.len() - from,
{
    if from != ip {
        let op = compiler::op_at(c.code, from);
        opcode::law_size_bounds(op);
        let t = processor::stepped(c, from, s)->0;
        let marked = LoopState {
            marks: s.marks.push((from as usize, s.code.len() as usize)),
            ..s
        };
        lemma_step(c, op, from, marked);
        lemma_step_sound(c, from, s);
        lemma_before_next(c, 0, processor::first_state(c), from);
        lemma_later(c, from + op.size(), t, ip);
        let x = processor::before(c, from, s, ip)->0;
        assert(t.code.is_prefix_of(x.code));
        assert(s.code =~= x.code.subrange(0, s.code.len() as int)) by {
            assert(s.code =~= t.code.subrange(0, s.code.len() as int));
            assert(t.code =~= x.code.subrange(0, t.code.len() as int));
        }
        assert(s.pending =~= x.pending.subrange(0, s.pending.len() as int)) by {
            assert(s.pending =~= t.pending.subrange(0, s.pending.len() as int));
            assert(t.pending =~= x.pending.subrange(0, t.pending.len() as int));
        }
        assert forall|k: int| #![trigger x.pending[k]]
            s.pending.len() <= k < x.pending.len() implies s.code.len() <= x.pending[k].1 by {
            if k < t.pending.len() {
                assert(x.pending[k] == t.pending[k]);
            }
        }
    }
}

/// The state at an instruction is sound.
proof fn lemma_sound_at(c: ChunkView, ip: int)
    requires
        c.code.len() <= usize::MAX,
        c.param_count <= 3,
        processor::state_at(c, ip) is Some,
    ensures
        sound(c, processor::state_at(c, ip)->0),
        compiler::prologue(c.param_count).len() <= processor::state_at(c, ip)->0.code.len(),
        0 <= ip,
{
    let first = processor::first_state(c);
    assert(laws::whole_words(first.code) && first.code.len() <= 40);
    assert(processor::state_at(c, 0) == Some(first));
    lemma_later(c, 0, first, ip);
}


/// Whether the processor comes from one state to another.
spec fn reaches(code: Seq<u8>, a: Cpu, b: Cpu) -> bool {
    exists|steps: nat| #[trigger] processor::run_for(code, a, steps) == Some(b)
}

proof fn lemma_run_on(code: Seq<u8>, a: Cpu, m: nat, n: nat)
    ensures
        processor::run_for(code, a, m + n) == match processor::run_for(code, a, m) {
            Some(b) => processor::run_for(code, b, n),
            None => None,
        },
    decreases m,
{
    if m > 0 {
        match processor::advance(code, a) {
            Some(b) => {
                lemma_run_on(code, b, (m - 1) as nat, n);
                assert((m - 1) as nat + n == (m + n - 1) as nat);
            },
            None => {},
        }
    }
}

proof fn lemma_here(code: Seq<u8>, a: Cpu)
    ensures
        reaches(code, a, a),
{
    assert(processor::run_for(code, a, 0) == Some(a));
}

proof fn lemma_on(code: Seq<u8>, a: Cpu, b: Cpu, c: Cpu)
    requires
        reaches(code, a, b),
        reaches(code, b, c),
    ensures
        reaches(code, a, c),
{
    let m = choose|steps: nat| #[trigger] processor::run_for(code, a, steps) == Some(b);
    let n = choose|steps: nat| #[trigger] processor::run_for(code, b, steps) == Some(c);
    lemma_run_on(code, a, m, n);
}

/// One instruction on.
proof fn lemma_word_on(code: Seq<u8>, a: Cpu, b: Cpu, c: Cpu)
    requires
        reaches(code, a, b),
        0 <= b.pc,
        b.pc + 4 <= code.len(),
        processor::executed(arm64::word_at(code, b.pc), b) == Some(c),
    ensures
        reaches(code, a, c),
{
    reveal_with_fuel(processor::run_for, 2);
    assert(processor::run_for(code, b, 1) == Some(c));
    lemma_on(code, a, b, c);
}

/// A word that computes is no branch and does not touch the stack.
proof fn lemma_computes(word: u32, cpu: Cpu)
    requires
        machine::step(cpu.core, word) is Some,
    ensures
        processor::executed(word, cpu) == Some(
            (Cpu { core: machine::step(cpu.core, word)->0, pc: cpu.pc + 4, ..cpu }),
        ),
{
    let top = word >> 24;
    let form = word & 0xFFE0FC00;
    let wide = word & 0xFF800000;
    let memory = word & 0xFFC00000;
    assert(form >> 24 == top && wide >> 24 == top && memory >> 24 == top) by (bit_vector)
        requires
            top == word >> 24,
            form == word & 0xFFE0FC00,
            wide == word & 0xFF800000,
            memory == word & 0xFFC00000,
    ;
    assert(0x8B000000u32 >> 24 == 0x8B && 0xCB000000u32 >> 24 == 0xCB && 0x9B007C00u32 >> 24 == 0x9B
        && 0x9AC00C00u32 >> 24 == 0x9A && 0x8A000000u32 >> 24 == 0x8A && 0xAA000000u32 >> 24 == 0xAA
        && 0xCA000000u32 >> 24 == 0xCA && 0xAA200000u32 >> 24 == 0xAA && 0x9AC02000u32 >> 24 == 0x9A
        && 0x9AC02400u32 >> 24 == 0x9A && 0x9AC02800u32 >> 24 == 0x9A && 0xEB000000u32 >> 24 == 0xEB
        && 0xD2800000u32 >> 24 == 0xD2 && 0xF2800000u32 >> 24 == 0xF2 && 0xA9800000u32 >> 24 == 0xA9
        && 0xA8C00000u32 >> 24 == 0xA8 && 0xF9000000u32 >> 24 == 0xF9 && 0xF9400000u32 >> 24
        == 0xF9) by (bit_vector);
}

/// Code that computes runs through.
proof fn lemma_straight(code: Seq<u8>, cpu: Cpu, emitted: Seq<u8>)
    requires
        0 <= cpu.pc,
        cpu.pc + emitted.len() <= code.len(),
        forall|i: int| 0 <= i < emitted.len() ==> code[cpu.pc + i] == #[trigger] emitted[i],
        machine::run(cpu.core, emitted) is Some,
    ensures
        reaches(
            code,
            cpu,
            (Cpu {
                core: machine::run(cpu.core, emitted)->0,
                pc: cpu.pc + emitted.len(),
                ..cpu
            }),
        ),
    decreases emitted.len(),
{
    if emitted.len() == 0 {
        lemma_here(code, cpu);
    } else {
        let word = arm64::word_at(emitted, 0);
        assert(arm64::word_at(code, cpu.pc) == word) by {
            assert(emitted[0] == code[cpu.pc + 0]);
            assert(emitted[1] == code[cpu.pc + 1]);
            assert(emitted[2] == code[cpu.pc + 2]);
            assert(emitted[3] == code[cpu.pc + 3]);
        }
        lemma_computes(word, cpu);
        let rest = emitted.skip(4);
        let next = Cpu { core: machine::step(cpu.core, word)->0, pc: cpu.pc + 4, ..cpu };
        assert forall|i: int| 0 <= i < rest.len() implies code[next.pc + i] == #[trigger] rest[i] by {
            assert(rest[i] == emitted[i + 4]);
        }
        lemma_here(code, cpu);
        lemma_word_on(code, cpu, cpu, next);
        lemma_straight(code, next, rest);
        lemma_on(
            code,
            cpu,
            next,
            Cpu {
                core: machine::run(cpu.core, emitted)->0,
                pc: cpu.pc + emitted.len(),
                ..cpu
            },
        );
    }
}

/// The offset of a conditional branch.
proof fn lemma_near(d: i32)
    requires
        -0x100000 <= d < 0x100000,
        d as int % 4 == 0,
    ensures
        4 * processor::signed(((d >> 2) as u32) & 0x7FFFF, 0x40000) == d,
{
    let f = ((d >> 2) as u32) & 0x7FFFF;
    assert((0 <= d ==> f < 0x40000 && f * 4 == d) && (d < 0 ==> f >= 0x40000 && (f - 0x80000) * 4
        == d)) by (bit_vector)
        requires
            -0x100000 <= d < 0x100000,
            d % 4 == 0,
            f == ((d >> 2) as u32) & 0x7FFFF,
    ;
}

/// The offset of a branch.
proof fn lemma_far(d: i32)
    requires
        -0x8000000 <= d < 0x8000000,
        d as int % 4 == 0,
    ensures
        4 * processor::signed(((d >> 2) as u32) & 0x3FFFFFF, 0x2000000) == d,
{
    let f = ((d >> 2) as u32) & 0x3FFFFFF;
    assert((0 <= d ==> f < 0x2000000 && f * 4 == d) && (d < 0 ==> f >= 0x2000000 && (f - 0x4000000)
        * 4 == d)) by (bit_vector)
        requires
            -0x8000000 <= d < 0x8000000,
            d % 4 == 0,
            f == ((d >> 2) as u32) & 0x3FFFFFF,
    ;
}

/// A branch leads where it points.
proof fn lemma_branch(cpu: Cpu, d: i32)
    requires
        -0x8000000 <= d < 0x8000000,
        d as int % 4 == 0,
    ensures
        processor::executed(arm64::enc_imm26(0x14000000, d), cpu) == Some(
            (Cpu { pc: cpu.pc + d, ..cpu }),
        ),
        arm64::repointed(arm64::enc_imm26(0x14000000, 0), (d >> 2) as u32) == arm64::enc_imm26(
            0x14000000,
            d,
        ),
{
    lemma_far(d);
    let r = (d >> 2) as u32;
    let word = 0x14000000u32 | (r & 0x3FFFFFF);
    let top = word >> 24;
    assert((top == 0x14 || top == 0x15 || top == 0x16 || top == 0x17) && word & 0x3FFFFFF == r
        & 0x3FFFFFF) by (bit_vector)
        requires
            word == 0x14000000u32 | (r & 0x3FFFFFF),
            top == word >> 24,
    ;
    let zero = 0x14000000u32 | (((0i32 >> 2) as u32) & 0x3FFFFFF);
    assert(zero == 0x14000000 && 0x14000000u32 & 0xFF000000 == 0x14000000 && 0x14000000u32
        & 0xFC000000 == 0x14000000) by (bit_vector)
        requires
            zero == 0x14000000u32 | (((0i32 >> 2) as u32) & 0x3FFFFFF),
    ;
}

/// A conditional branch that is led to its target.
proof fn lemma_conditional(base: u32, low: u32, d: i32)
    requires
        base == 0x54000000 || base == 0xB4000000,
        low < 32,
        -0x100000 <= d < 0x100000,
        d as int % 4 == 0,
    ensures
        ({
            let word = arm64::repointed(arm64::enc_imm19(base, low, 0), (d >> 2) as u32);
            &&& word >> 24 == base >> 24
            &&& word & 31 == low
            &&& low < 16 ==> word & 15 == low
            &&& 4 * processor::signed((word >> 5) & 0x7FFFF, 0x40000) == d
        }),
        0x54000000u32 >> 24 == 0x54,
        0xB4000000u32 >> 24 == 0xB4,
{
    lemma_near(d);
    let r = (d >> 2) as u32;
    let zero = arm64::enc_imm19(base, low, 0);
    assert(zero & 0xFF000000 == base && zero & 0xFF00001F == base | low) by (bit_vector)
        requires
            base == 0x54000000 || base == 0xB4000000,
            low < 32,
            zero == base | ((((0i32 >> 2) as u32) & 0x7FFFF) << 5) | low,
    ;
    let word = arm64::repointed(zero, r);
    assert(word >> 24 == base >> 24 && word & 31 == low && (low < 16 ==> word & 15 == low) && (word
        >> 5) & 0x7FFFF == r & 0x7FFFF && 0x54000000u32 >> 24 == 0x54 && 0xB4000000u32 >> 24
        == 0xB4) by (bit_vector)
        requires
            base == 0x54000000 || base == 0xB4000000,
            low < 32,
            word == (base | low) | ((r & 0x7FFFF) << 5),
    ;
}

/// A word of memory on the stack, stored and loaded.
proof fn lemma_memory(cpu: Cpu, r: u32, k: u32)
    requires
        r < 31,
        k < 64,
    ensures
        processor::executed(arm64::enc_mem(0xF9000000, r, 31, k), cpu) == Some(
            (Cpu {
                memory: cpu.memory.insert(cpu.sp + 8 * k, cpu.core.regs[r as int]),
                pc: cpu.pc + 4,
                ..cpu
            }),
        ),
        processor::executed(arm64::enc_mem(0xF9400000, r, 31, k), cpu) == Some(
            (Cpu {
                core: cpu.core.put(r, cpu.memory[cpu.sp + 8 * k]),
                pc: cpu.pc + 4,
                ..cpu
            }),
        ),
{
    let store = arm64::enc_mem(0xF9000000, r, 31, k);
    let load = arm64::enc_mem(0xF9400000, r, 31, k);
    assert(store >> 24 == 0xF9 && store & 0xFFC00000 == 0xF9000000 && store & 31 == r && (store >> 5)
        & 31 == 31 && (store >> 10) & 0xFFF == k && load >> 24 == 0xF9 && load & 0xFFC00000
        == 0xF9400000 && load & 31 == r && (load >> 5) & 31 == 31 && (load >> 10) & 0xFFF == k)
        by (bit_vector)
        requires
            r < 31,
            k < 64,
            store == 0xF9000000u32 | (k << 10) | (31u32 << 5) | r,
            load == 0xF9400000u32 | (k << 10) | (31u32 << 5) | r,
    ;
}

/// A frame of eight words made and given up, with X29 and X30 in it.
proof fn lemma_pair(cpu: Cpu)
    ensures
        processor::executed(
            arm64::enc_pair(0xA9800000, 29, 30, 31, arm64::eighths((-64) as i32)),
            cpu,
        ) == Some(
            (Cpu {
                sp: cpu.sp - 64,
                memory: cpu.memory.insert(cpu.sp - 64, cpu.core.regs[29]).insert(
                    cpu.sp - 56,
                    cpu.core.regs[30],
                ),
                pc: cpu.pc + 4,
                ..cpu
            }),
        ),
        processor::executed(arm64::enc_pair(0xA8C00000, 29, 30, 31, arm64::eighths(64)), cpu)
            == Some(
            (Cpu {
                sp: cpu.sp + 64,
                core: cpu.core.put(29, cpu.memory[cpu.sp]).put(30, cpu.memory[cpu.sp + 8]),
                pc: cpu.pc + 4,
                ..cpu
            }),
        ),
{
    let down = arm64::eighths((-64) as i32);
    let up = arm64::eighths(64);
    assert(down == -8 && up == 8);
    let store = arm64::enc_pair(0xA9800000, 29, 30, 31, down);
    let load = arm64::enc_pair(0xA8C00000, 29, 30, 31, up);
    assert(store >> 24 == 0xA9 && store & 0xFFC00000 == 0xA9800000 && store & 31 == 29 && (store
        >> 5) & 31 == 31 && (store >> 10) & 31 == 30 && (store >> 15) & 0x7F == 120 && load >> 24
        == 0xA8 && load & 0xFFC00000 == 0xA8C00000 && load & 31 == 29 && (load >> 5) & 31 == 31 && (
    load >> 10) & 31 == 30 && (load >> 15) & 0x7F == 8) by (bit_vector)
        requires
            down == -8,
            up == 8,
            store == 0xA9800000u32 | (((down as u32) & 0x7F) << 15) | (30u32 << 10) | (31u32 << 5)
                | 29,
            load == 0xA8C00000u32 | (((up as u32) & 0x7F) << 15) | (30u32 << 10) | (31u32 << 5)
                | 29,
    ;
}

/// Whether code agrees with other code from an offset on.
spec fn agrees(code: Seq<u8>, from: int, with: Seq<u8>) -> bool {
    &&& with.len() <= code.len()
    &&& forall|i: int| #![trigger code[i]] #![trigger with[i]]
        from <= i < with.len() ==> code[i] == with[i]
}

/// The last word of code that other code agrees with.
proof fn lemma_last_word(code: Seq<u8>, from: int, c: Seq<u8>, word: u32)
    requires
        agrees(code, from, compiler::put(c, word)),
        0 <= from <= c.len(),
    ensures
        agrees(code, from, c),
        arm64::word_at(code, c.len() as int) == word,
        c.len() + 4 <= code.len(),
{
    let all = compiler::put(c, word);
    let n = c.len() as int;
    arm64::law_word_roundtrip(word);
    let bytes = arm64::word_bytes(word);
    assert(all[n] == bytes[0] && all[n + 1] == bytes[1] && all[n + 2] == bytes[2] && all[n + 3]
        == bytes[3]);
    assert(code[n] == bytes[0] && code[n + 1] == bytes[1] && code[n + 2] == bytes[2] && code[n + 3]
        == bytes[3]);
    assert forall|i: int| #![trigger code[i]] #![trigger c[i]]
        from <= i < c.len() implies code[i] == c[i] by {
        assert(all[i] == c[i]);
    }
}


/// The mark that is found is a mark.
proof fn lemma_mark(marks: Seq<(usize, usize)>, at: usize, i: int)
    requires
        0 <= i,
        compiler::mark_of(marks, at, i) is Some,
    ensures
        exists|k: int|
            0 <= k < marks.len() && (#[trigger] marks[k]).0 == at && marks[k].1
                == compiler::mark_of(marks, at, i)->0,
    decreases marks.len() - i,
{
    if marks[i].0 != at {
        lemma_mark(marks, at, i + 1);
    }
}

/// Whether branches stand one behind the other in the code.
spec fn apart(code: Seq<u8>, pending: Seq<(usize, usize)>) -> bool {
    &&& forall|k: int| #![trigger pending[k]]
        0 <= k < pending.len() ==> pending[k].1 + 4 <= code.len()
    &&& forall|k: int, l: int| #![trigger pending[k], pending[l]]
        0 <= k < l < pending.len() ==> pending[k].1 + 4 <= pending[l].1
}

/// Leading the branches to their targets changes the branches only, and each as it waits.
proof fn lemma_led(code: Seq<u8>, marks: Seq<(usize, usize)>, pending: Seq<(usize, usize)>, i: int)
    requires
        0 <= i,
        apart(code, pending),
        compiler::resolved(code, marks, pending, i) is Some,
    ensures
        ({
            let end = compiler::resolved(code, marks, pending, i)->0;
            &&& end.len() == code.len()
            &&& forall|b: int| #![trigger end[b]]
                0 <= b < code.len() && (forall|k: int|
                    i <= k < pending.len() ==> b < (#[trigger] pending[k]).1 || pending[k].1 + 4
                        <= b) ==> end[b] == code[b]
            &&& forall|k: int| #![trigger pending[k]]
                i <= k < pending.len() ==> (compiler::mark_of(marks, pending[k].0, 0) matches Some(
                    to,
                ) && arm64::word_at(end, pending[k].1 as int) == arm64::repointed(
                    arm64::word_at(code, pending[k].1 as int),
                    arm64::word_distance(pending[k].1 as int, to as int) as u32,
                ))
        }),
    decreases pending.len() - i,
{
    if i < pending.len() {
        let from = pending[i].1 as int;
        let to = compiler::mark_of(marks, pending[i].0, 0)->0 as int;
        let word = arm64::repointed(
            arm64::word_at(code, from),
            arm64::word_distance(from, to) as u32,
        );
        arm64::law_word_roundtrip(word);
        let next = arm64::branch_patched(code, from, to);
        assert(arm64::word_at(next, from) == word);
        lemma_led(next, marks, pending, i + 1);
        let end = compiler::resolved(code, marks, pending, i)->0;
        assert forall|b: int| #![trigger end[b]]
            0 <= b < code.len() && (forall|k: int|
                i <= k < pending.len() ==> b < (#[trigger] pending[k]).1 || pending[k].1 + 4
                    <= b) implies end[b] == code[b] by {
            assert(b < pending[i].1 || pending[i].1 + 4 <= b);
            assert(next[b] == code[b]);
        }
        assert forall|b: int| from <= b < from + 4 implies end[b] == next[b] by {
            assert forall|k: int| i + 1 <= k < pending.len() implies b < (#[trigger] pending[k]).1
                || pending[k].1 + 4 <= b by {
                assert(pending[i].1 + 4 <= pending[k].1);
            }
        }
        assert(arm64::word_at(end, from) == word);
        assert forall|k: int| #![trigger pending[k]] i <= k < pending.len() implies (
        compiler::mark_of(marks, pending[k].0, 0) matches Some(to) && arm64::word_at(
            end,
            pending[k].1 as int,
        ) == arm64::repointed(
            arm64::word_at(code, pending[k].1 as int),
            arm64::word_distance(pending[k].1 as int, to as int) as u32,
        )) by {
            if i < k {
                assert(pending[i].1 + 4 <= pending[k].1);
                let at = pending[k].1 as int;
                assert(next[at] == code[at] && next[at + 1] == code[at + 1] && next[at + 2]
                    == code[at + 2] && next[at + 3] == code[at + 3]);
            }
        }
    }
}

/// The code of a loop function in its last state, before its branches are led.
spec fn last_state(c: ChunkView) -> LoopState {
    compiler::loop_walk(c, 0, processor::first_state(c))->0
}

/// Where a loop function has code, its code agrees with the compilation at each instruction.
proof fn lemma_code(c: ChunkView)
    requires
        c.code.len() <= usize::MAX,
        c.param_count <= 3,
        compiler::loop_code(c) is Some,
    ensures
        compiler::loop_walk(c, 0, processor::first_state(c)) is Some,
        processor::state_at(c, c.code.len() as int) == Some(last_state(c)),
        sound(c, last_state(c)),
        apart(last_state(c).code, last_state(c).pending),
        compiler::loop_code(c) == compiler::resolved(
            last_state(c).code,
            last_state(c).marks,
            last_state(c).pending,
            0,
        ),
        compiler::loop_code(c)->0.len() == last_state(c).code.len(),
        agrees(compiler::loop_code(c)->0, 0, compiler::prologue(c.param_count)),
{
    reveal(compiler::loop_code);
    let first = processor::first_state(c);
    let last = last_state(c);
    lemma_walk_before(c, 0, first);
    lemma_sound_at(c, c.code.len() as int);
    lemma_led(last.code, last.marks, last.pending, 0);
    assert(laws::whole_words(first.code) && first.code.len() <= 40);
    assert(processor::state_at(c, 0) == Some(first));
    lemma_later(c, 0, first, c.code.len() as int);
    let code = compiler::loop_code(c)->0;
    let start = compiler::prologue(c.param_count);
    assert forall|i: int| #![trigger code[i]] #![trigger start[i]]
        0 <= i < start.len() implies code[i] == start[i] by {
        assert(last.code.subrange(0, first.code.len() as int)[i] == last.code[i]);
        assert forall|k: int| 0 <= k < last.pending.len() implies i < (#[trigger] last.pending[k]).1
            || last.pending[k].1 + 4 <= i by {}
    }
}

/// The code of an instruction that is no waiting branch stands as it was emitted; that of one
/// leads to the code of its target.
#[verifier::spinoff_prover]
proof fn lemma_instruction(c: ChunkView, ip: int)
    requires
        c.code.len() <= usize::MAX,
        c.param_count <= 3,
        compiler::loop_code(c) is Some,
        processor::state_at(c, ip) is Some,
        0 <= ip < c.code.len(),
    ensures
        ({
            let code = compiler::loop_code(c)->0;
            let s = processor::state_at(c, ip)->0;
            let op = compiler::op_at(c.code, ip);
            let t = processor::state_at(c, ip + op.size())->0;
            &&& processor::state_at(c, ip + op.size()) == processor::stepped(c, ip, s)
            &&& processor::stepped(c, ip, s) is Some
            &&& OpCode::of_byte(c.code[ip]) == Some(op)
            &&& laws::whole_words(s.code)
            &&& laws::whole_words(t.code)
            &&& s.top <= 12
            &&& t.top <= 12
            &&& s.code.is_prefix_of(t.code)
            &&& t.code.len() <= code.len()
            &&& code.len() <= compiler::CODE_LIMIT + 32
            &&& !waiting(op) ==> agrees(code, s.code.len() as int, t.code)
            &&& waiting(op) ==> t.code.len() == s.code.len() + 4 && (compiler::jump_target(
                c,
                ip,
            ) matches Some(target) && processor::state_at(c, target as int) matches Some(x)
                && arm64::word_at(code, s.code.len() as int) == arm64::repointed(
                arm64::word_at(t.code, s.code.len() as int),
                arm64::word_distance(s.code.len() as int, x.code.len() as int) as u32,
            ))
        }),
{
    lemma_code(c);
    lemma_goes_on(c, ip);
    lemma_sound_at(c, ip);
    let code = compiler::loop_code(c)->0;
    let last = last_state(c);
    let n = c.code.len() as int;
    let first = processor::first_state(c);
    let s = processor::state_at(c, ip)->0;
    let op = compiler::op_at(c.code, ip);
    let next = ip + op.size();
    let t = processor::state_at(c, next)->0;
    let marked = LoopState { marks: s.marks.push((ip as usize, s.code.len() as usize)), ..s };
    lemma_step(c, op, ip, marked);
    lemma_sound_at(c, next);
    lemma_before_over(c, 0, first, next, n);
    lemma_later(c, next, t, n);
    lemma_led(last.code, last.marks, last.pending, 0);
    let from = s.code.len() as int;
    assert(t.code =~= last.code.subrange(0, t.code.len() as int));
    assert(t.pending =~= last.pending.subrange(0, t.pending.len() as int));
    if waiting(op) {
        let k = s.pending.len() as int;
        assert(t.pending[k] == last.pending[k]);
        assert(last.pending[k].1 == from);
        let target = compiler::jump_target(c, ip)->0;
        let to = compiler::mark_of(last.marks, target, 0)->0;
        lemma_mark(last.marks, target, 0);
        let at = choose|k: int|
            0 <= k < last.marks.len() && (#[trigger] last.marks[k]).0 == target && last.marks[k].1
                == to;
        assert(processor::state_at(c, last.marks[at].0 as int) is Some);
        assert(t.code[from] == last.code[from] && t.code[from + 1] == last.code[from + 1]
            && t.code[from + 2] == last.code[from + 2] && t.code[from + 3] == last.code[from + 3]);
    } else {
        assert forall|b: int| #![trigger code[b]] #![trigger t.code[b]]
            from <= b < t.code.len() implies code[b] == t.code[b] by {
            assert forall|k: int| 0 <= k < last.pending.len() implies b < (
            #[trigger] last.pending[k]).1 || last.pending[k].1 + 4 <= b by {
                if k < t.pending.len() {
                    assert(t.pending[k] == last.pending[k]);
                    assert(s.pending[k].1 + 4 <= s.code.len());
                }
            }
            assert(last.code[b] == t.code[b]);
        }
    }
}

/// Between two instructions the code grows with the bytecode.
proof fn lemma_growth(c: ChunkView, p: int, q: int)
    requires
        c.code.len() <= usize::MAX,
        c.param_count <= 3,
        processor::state_at(c, p) is Some,
        processor::state_at(c, q) is Some,
        p <= q <= c.code.len(),
    ensures
        ({
            let s = processor::state_at(c, p)->0;
            let t = processor::state_at(c, q)->0;
            &&& s.code.len() <= t.code.len() <= s.code.len() + 32 * (q - p)
            &&& laws::whole_words(s.code) && laws::whole_words(t.code)
            &&& p < q ==> p + compiler::op_at(c.code, p).size() <= q
        }),
{
    lemma_sound_at(c, p);
    lemma_sound_at(c, q);
    let first = processor::first_state(c);
    let s = processor::state_at(c, p)->0;
    lemma_before_over(c, 0, first, p, q);
    lemma_later(c, p, s, q);
    if p < q {
        reveal_with_fuel(processor::before, 2);
        let t = processor::stepped(c, p, s)->0;
        lemma_before_forward(c, p + compiler::op_at(c.code, p).size(), t, q);
    }
}

/// The compilation never goes back.
proof fn lemma_before_forward(c: ChunkView, from: int, s: LoopState, ip: int)
    requires
        processor::before(c, from, s, ip) is Some,
    ensures
        from <= ip,
{
}


/// Whether a processor has in its frame what the preserved registers of another held.
spec fn saved(caller: Cpu, cpu: Cpu) -> bool {
    let sp = cpu.sp;
    &&& caller.sp == sp + 64
    &&& cpu.memory[sp] == caller.core.regs[29]
    &&& cpu.memory[sp + 8] == caller.core.regs[30]
    &&& cpu.memory[sp + 16] == caller.core.regs[19]
    &&& cpu.memory[sp + 24] == caller.core.regs[20]
    &&& cpu.memory[sp + 32] == caller.core.regs[21]
    &&& cpu.memory[sp + 40] == caller.core.regs[22]
    &&& cpu.memory[sp + 48] == caller.core.regs[23]
}

/// What the registers of a stack hold.
spec fn shadow(m: Machine, n: nat) -> Seq<u64> {
    Seq::new(n, |i: int| m.regs[compiler::register(i as nat)->0 as int])
}

/// Whether numbers are those of a stack.
spec fn numbers(stack: Seq<Cell>, held: Seq<u64>) -> bool {
    &&& stack.len() == held.len()
    &&& forall|i: int| #![trigger stack[i]] #![trigger held[i]]
        0 <= i < stack.len() ==> (stack[i] matches Cell::Number(v) ==> held[i] == v)
}

/// Whether a processor is where bytecode is.
spec fn tracks(c: ChunkView, caller: Cpu, f: Frame, cpu: Cpu) -> bool {
    &&& processor::state_at(c, f.ip) matches Some(s) && {
        &&& cpu.pc == s.code.len()
        &&& s.top == f.stack.len()
    }
    &&& f.ip <= c.code.len()
    &&& f.stack.len() <= 12
    &&& cpu.core.regs.len() == 31
    &&& numbers(f.stack, shadow(cpu.core, f.stack.len()))
    &&& f.last matches Some(pair) ==> cpu.core.compared == pair
    &&& processor::met(c, f)
    &&& saved(caller, cpu)
}

/// An instruction that computes does to the cells what it does to the numbers.
proof fn lemma_cells(c: ChunkView, op: OpCode, ip: int, stack: Seq<Cell>, held: Seq<u64>)
    requires
        numbers(stack, held),
        processor::cell_effect(c, op, ip, stack) is Some,
    ensures
        machine::effect(c, op, ip, held) is Some,
        numbers(
            processor::cell_effect(c, op, ip, stack)->0,
            machine::effect(c, op, ip, held)->0,
        ),
{
    if machine::calculating(op) && !compiler::loading(op) {
        let n = stack.len() as int;
        assert(stack[n - 2] is Number && stack[n - 1] is Number);
        assert(held[n - 2] == stack[n - 2]->Number_0);
        assert(held[n - 1] == stack[n - 1]->Number_0);
    }
}

/// An instruction that computes, compares or does nothing.
#[verifier::spinoff_prover]
proof fn lemma_track_straight(c: ChunkView, caller: Cpu, f: Frame, cpu: Cpu) -> (after: Cpu)
    requires
        c.code.len() <= usize::MAX,
        c.param_count <= 3,
        compiler::loop_code(c) is Some,
        tracks(c, caller, f, cpu),
        processor::course(c, f) is Runs,
        processor::met(c, processor::course(c, f)->Runs_0),
        !waiting(compiler::op_at(c.code, f.ip)),
        compiler::op_at(c.code, f.ip) != OpCode::Loop,
    ensures
        reaches(compiler::loop_code(c)->0, cpu, after),
        tracks(c, caller, processor::course(c, f)->Runs_0, after),
{
    let code = compiler::loop_code(c)->0;
    let op = compiler::op_at(c.code, f.ip);
    let next = f.ip + op.size();
    lemma_instruction(c, f.ip);
    let s = processor::state_at(c, f.ip)->0;
    let t = processor::state_at(c, next)->0;
    let marked = LoopState { marks: s.marks.push((f.ip as usize, s.code.len() as usize)), ..s };
    let g = processor::course(c, f)->Runs_0;
    let n = f.stack.len();
    let held = shadow(cpu.core, n);
    assert(machine::holds(cpu.core, held));
    let emitted = t.code.skip(s.code.len() as int);
    assert(!waiting(op));
    assert(g.ip == next);
    let end: Machine;
    if op == OpCode::Nop {
        assert(emitted =~= Seq::<u8>::empty());
        end = cpu.core;
    } else if compiler::comparing(op) {
        machine::law_comparing_step(c, op, f.ip, marked, cpu.core, held);
        end = machine::run(cpu.core, emitted)->0;
        assert(f.stack[n - 2] is Number && f.stack[n - 1] is Number);
        assert(held[n - 2] == f.stack[n - 2]->Number_0);
        assert(held[n - 1] == f.stack[n - 1]->Number_0);
        assert(shadow(end, (n - 1) as nat) =~= held.drop_last());
    } else {
        lemma_cells(c, op, f.ip, f.stack, held);
        machine::law_computing_step(c, op, f.ip, marked, cpu.core, held);
        end = machine::run(cpu.core, emitted)->0;
        let left = machine::effect(c, op, f.ip, held)->0;
        assert(shadow(end, left.len()) =~= left) by {
            assert forall|i: int| 0 <= i < left.len() implies shadow(end, left.len())[i]
                == left[i] by {
                assert(compiler::register(i as nat) is Some);
            }
        }
    }
    assert forall|i: int| 0 <= i < emitted.len() implies code[cpu.pc + i] == #[trigger] emitted[i] by {
        assert(emitted[i] == t.code[s.code.len() + i]);
    }
    lemma_straight(code, cpu, emitted);
    Cpu { core: end, pc: cpu.pc + emitted.len(), ..cpu }
}

/// A jump that is led to its target.
#[verifier::spinoff_prover]
proof fn lemma_track_jump(c: ChunkView, caller: Cpu, f: Frame, cpu: Cpu) -> (after: Cpu)
    requires
        c.code.len() <= usize::MAX,
        c.param_count <= 3,
        compiler::loop_code(c) is Some,
        tracks(c, caller, f, cpu),
        processor::course(c, f) is Runs,
        processor::met(c, processor::course(c, f)->Runs_0),
        waiting(compiler::op_at(c.code, f.ip)),
    ensures
        reaches(compiler::loop_code(c)->0, cpu, after),
        tracks(c, caller, processor::course(c, f)->Runs_0, after),
{
    let code = compiler::loop_code(c)->0;
    let op = compiler::op_at(c.code, f.ip);
    let next = f.ip + 3;
    assert(op.size() == 3);
    lemma_instruction(c, f.ip);
    let s = processor::state_at(c, f.ip)->0;
    let t = processor::state_at(c, next)->0;
    let from = s.code.len() as int;
    let g = processor::course(c, f)->Runs_0;
    let target = compiler::jump_target(c, f.ip)->0 as int;
    let x = processor::state_at(c, target)->0;
    let to = x.code.len() as int;
    if f.ip < target {
        lemma_growth(c, f.ip, target);
        lemma_growth(c, next, target);
    } else {
        lemma_growth(c, target, f.ip);
    }
    let spelled = chunk::spell16(c.code[f.ip + 1], c.code[f.ip + 2]) as i16;
    assert(-0x8000 <= spelled <= 0x7FFF);
    assert(target == f.ip + 3 + spelled);
    assert(-0x100000 <= to - from < 0x100000);
    let d = (to - from) as i32;
    assert(arm64::word_distance(from, to) == d >> 2);
    lemma_here(code, cpu);
    if op == OpCode::Jump {
        let word = arm64::enc_imm26(0x14000000, 0);
        lemma_placed(s.code, t.code, word);
        lemma_branch(cpu, d);
        let after = Cpu { pc: to, ..cpu };
        lemma_word_on(code, cpu, cpu, after);
        after
    } else {
        let top = (s.top - 1) as nat;
        let held = shadow(cpu.core, f.stack.len());
        assert(shadow(cpu.core, top) =~= held.drop_last());
        let far = Cpu { pc: to, ..cpu };
        let near = Cpu { pc: from + 4, ..cpu };
        match s.compared {
            Some(test) => {
                assert(processor::fused(c, f.ip));
                let cond = compiler::inverse(test)->0;
                let (a, b) = f.last->0;
                assert(machine::taken(cond, a, b) == !machine::true_of(test, a, b));
                lemma_placed(s.code, t.code, arm64::enc_imm19(0x54000000, cond, 0));
                lemma_conditional(0x54000000, cond, d);
            },
            None => {
                let r = compiler::register(top)->0;
                assert(f.stack[f.stack.len() - 1] is Number);
                assert(held[f.stack.len() - 1] == f.stack.last()->Number_0);
                lemma_placed(s.code, t.code, arm64::enc_imm19(0xB4000000, r, 0));
                lemma_conditional(0xB4000000, r, d);
            },
        }
        let after = if g.ip == target && processor::executed(arm64::word_at(code, from), cpu)
            == Some(far) {
            far
        } else {
            near
        };
        lemma_word_on(code, cpu, cpu, after);
        after
    }
}

/// A word that was put behind code stands there.
proof fn lemma_placed(s: Seq<u8>, t: Seq<u8>, word: u32)
    requires
        t == compiler::put(s, word),
    ensures
        arm64::word_at(t, s.len() as int) == word,
{
    assert(agrees(t, s.len() as int, compiler::put(s, word)));
    lemma_last_word(t, s.len() as int, s, word);
}

/// A jump back leads to the code of an instruction.
proof fn lemma_loop_target(c: ChunkView, ip: int)
    requires
        c.code.len() <= usize::MAX,
        c.param_count <= 3,
        compiler::loop_code(c) is Some,
        processor::state_at(c, ip) is Some,
        0 <= ip < c.code.len(),
        compiler::op_at(c.code, ip) == OpCode::Loop,
    ensures
        processor::state_at(c, ip + 3 - processor::back_distance(c, ip)) matches Some(x)
            && agrees(
            compiler::loop_code(c)->0,
            processor::state_at(c, ip)->0.code.len() as int,
            compiler::put(
                processor::state_at(c, ip)->0.code,
                arm64::enc_imm26(
                    0x14000000,
                    (x.code.len() - processor::state_at(c, ip)->0.code.len()) as i32,
                ),
            ),
        ),
{
    lemma_instruction(c, ip);
    lemma_sound_at(c, ip);
    let s = processor::state_at(c, ip)->0;
    let marks = s.marks.push((ip as usize, s.code.len() as usize));
    let target = ip + 3 - processor::back_distance(c, ip);
    let at = compiler::mark_of(marks, target as usize, 0)->0;
    lemma_mark(marks, target as usize, 0);
    let k = choose|k: int|
        0 <= k < marks.len() && (#[trigger] marks[k]).0 == target as usize && marks[k].1 == at;
    if k < s.marks.len() {
        assert(marks[k] == s.marks[k]);
    }
}

/// A jump back.
#[verifier::spinoff_prover]
proof fn lemma_track_loop(c: ChunkView, caller: Cpu, f: Frame, cpu: Cpu) -> (after: Cpu)
    requires
        c.code.len() <= usize::MAX,
        c.param_count <= 3,
        compiler::loop_code(c) is Some,
        tracks(c, caller, f, cpu),
        processor::course(c, f) is Runs,
        processor::met(c, processor::course(c, f)->Runs_0),
        compiler::op_at(c.code, f.ip) == OpCode::Loop,
    ensures
        reaches(compiler::loop_code(c)->0, cpu, after),
        tracks(c, caller, processor::course(c, f)->Runs_0, after),
{
    let code = compiler::loop_code(c)->0;
    let op = compiler::op_at(c.code, f.ip);
    assert(op.size() == 3);
    lemma_instruction(c, f.ip);
    lemma_sound_at(c, f.ip);
    let s = processor::state_at(c, f.ip)->0;
    let t = processor::state_at(c, f.ip + 3)->0;
    let from = s.code.len() as int;
    let target = f.ip + 3 - processor::back_distance(c, f.ip);
    lemma_loop_target(c, f.ip);
    let x = processor::state_at(c, target)->0;
    let at = x.code.len();
    if target <= f.ip {
        lemma_growth(c, target, f.ip);
    } else {
        lemma_growth(c, f.ip, target);
    }
    let d = (at - from) as i32;
    lemma_here(code, cpu);
    let word = arm64::enc_imm26(0x14000000, d);
    lemma_last_word(code, from, s.code, word);
    lemma_branch(cpu, d);
    let after = Cpu { pc: at as int, ..cpu };
    lemma_word_on(code, cpu, cpu, after);
    after
}


/// Whether a processor stands at the return of a call, with a value in X0.
spec fn finished(code: Seq<u8>, caller: Cpu, cpu: Cpu, value: u64) -> bool {
    &&& processor::returning(code, cpu)
    &&& cpu.core.regs.len() == 31
    &&& cpu.core.regs[0] == value
    &&& cpu.sp == caller.sp
    &&& forall|r: int|
        processor::preserved(r) ==> #[trigger] cpu.core.regs[r] == caller.core.regs[r]
}

/// A register comes back from the frame.
proof fn lemma_restored(
    code: Seq<u8>,
    start: Cpu,
    from: int,
    c: Seq<u8>,
    r: u32,
    k: u32,
    cpu: Cpu,
) -> (after: Cpu)
    requires
        0 <= from <= c.len(),
        agrees(code, from, compiler::put(c, arm64::enc_mem(0xF9400000, r, 31, k))),
        reaches(code, start, cpu),
        cpu.pc == c.len(),
        r < 31,
        k < 64,
    ensures
        after == (Cpu {
            core: cpu.core.put(r, cpu.memory[cpu.sp + 8 * k]),
            pc: cpu.pc + 4,
            ..cpu
        }),
        reaches(code, start, after),
{
    lemma_last_word(code, from, c, arm64::enc_mem(0xF9400000, r, 31, k));
    lemma_memory(cpu, r, k);
    let after = Cpu {
        core: cpu.core.put(r, cpu.memory[cpu.sp + 8 * k]),
        pc: cpu.pc + 4,
        ..cpu
    };
    lemma_word_on(code, start, cpu, after);
    after
}

/// The epilogue gives the frame up and returns what is in X0.
#[verifier::spinoff_prover]
proof fn lemma_epilogue(
    code: Seq<u8>,
    caller: Cpu,
    start: Cpu,
    from: int,
    c: Seq<u8>,
    cpu: Cpu,
) -> (after: Cpu)
    requires
        0 <= from <= c.len(),
        agrees(code, from, compiler::epilogue(c)),
        reaches(code, start, cpu),
        cpu.pc == c.len(),
        cpu.core.regs.len() == 31,
        saved(caller, cpu),
    ensures
        reaches(code, start, after),
        finished(code, caller, after, cpu.core.regs[0]),
{
    let w1 = arm64::enc_mem(0xF9400000, 19, 31, 2);
    let w2 = arm64::enc_mem(0xF9400000, 20, 31, 3);
    let w3 = arm64::enc_mem(0xF9400000, 21, 31, 4);
    let w4 = arm64::enc_mem(0xF9400000, 22, 31, 5);
    let w5 = arm64::enc_mem(0xF9400000, 23, 31, 6);
    let w6 = arm64::enc_pair(0xA8C00000, 29, 30, 31, arm64::eighths(64));
    let c1 = compiler::put(c, w1);
    let c2 = compiler::put(c1, w2);
    let c3 = compiler::put(c2, w3);
    let c4 = compiler::put(c3, w4);
    let c5 = compiler::put(c4, w5);
    let c6 = compiler::put(c5, w6);
    assert(compiler::epilogue(c) == compiler::put(c6, 0xD65F03C0));
    lemma_last_word(code, from, c6, 0xD65F03C0);
    lemma_last_word(code, from, c5, w6);
    lemma_last_word(code, from, c4, w5);
    lemma_last_word(code, from, c3, w4);
    lemma_last_word(code, from, c2, w3);
    lemma_last_word(code, from, c1, w2);
    let p1 = lemma_restored(code, start, from, c, 19, 2, cpu);
    let p2 = lemma_restored(code, start, from, c1, 20, 3, p1);
    let p3 = lemma_restored(code, start, from, c2, 21, 4, p2);
    let p4 = lemma_restored(code, start, from, c3, 22, 5, p3);
    let p5 = lemma_restored(code, start, from, c4, 23, 6, p4);
    lemma_pair(p5);
    let after = Cpu {
        sp: p5.sp + 64,
        core: p5.core.put(29, p5.memory[p5.sp]).put(30, p5.memory[p5.sp + 8]),
        pc: p5.pc + 4,
        ..p5
    };
    lemma_word_on(code, start, p5, after);
    after
}

/// An instruction that returns.
#[verifier::spinoff_prover]
proof fn lemma_track_return(c: ChunkView, caller: Cpu, f: Frame, cpu: Cpu) -> (after: Cpu)
    requires
        c.code.len() <= usize::MAX,
        c.param_count <= 3,
        compiler::loop_code(c) is Some,
        tracks(c, caller, f, cpu),
        processor::course(c, f) is Returns,
    ensures
        reaches(compiler::loop_code(c)->0, cpu, after),
        finished(compiler::loop_code(c)->0, caller, after, processor::course(c, f)->Returns_0),
{
    let code = compiler::loop_code(c)->0;
    let op = compiler::op_at(c.code, f.ip);
    lemma_instruction(c, f.ip);
    let s = processor::state_at(c, f.ip)->0;
    let t = processor::state_at(c, f.ip + op.size())->0;
    let from = s.code.len() as int;
    let word: u32;
    let value = processor::course(c, f)->Returns_0;
    if op == OpCode::Return {
        let n = f.stack.len();
        let r = compiler::register((n - 1) as nat)->0;
        assert(f.stack[n - 1] is Number);
        assert(shadow(cpu.core, n)[n - 1] == value);
        word = arm64::enc_mov(0, r);
        machine::lemma_move(cpu.core, 0, r);
    } else {
        word = arm64::enc_movz(0, 0);
        machine::lemma_movz(cpu.core, 0, 0);
    }
    let placed = compiler::put(s.code, word);
    assert(t.code == compiler::epilogue(placed));
    assert(agrees(code, from, placed)) by {
        assert forall|i: int| #![trigger code[i]] #![trigger placed[i]]
            from <= i < placed.len() implies code[i] == placed[i] by {
            assert(t.code[i] == placed[i]);
        }
    }
    lemma_last_word(code, from, s.code, word);
    lemma_computes(word, cpu);
    let next = Cpu { core: cpu.core.put(0, value), pc: cpu.pc + 4, ..cpu };
    lemma_here(code, cpu);
    lemma_word_on(code, cpu, cpu, next);
    lemma_epilogue(code, caller, cpu, from, placed, next)
}

/// A register goes into the frame.
proof fn lemma_stored(code: Seq<u8>, start: Cpu, c: Seq<u8>, r: u32, k: u32, cpu: Cpu) -> (after:
    Cpu)
    requires
        agrees(code, 0, compiler::put(c, arm64::enc_mem(0xF9000000, r, 31, k))),
        reaches(code, start, cpu),
        cpu.pc == c.len(),
        r < 31,
        k < 64,
    ensures
        after == (Cpu {
            memory: cpu.memory.insert(cpu.sp + 8 * k, cpu.core.regs[r as int]),
            pc: cpu.pc + 4,
            ..cpu
        }),
        reaches(code, start, after),
{
    lemma_last_word(code, 0, c, arm64::enc_mem(0xF9000000, r, 31, k));
    lemma_memory(cpu, r, k);
    let after = Cpu {
        memory: cpu.memory.insert(cpu.sp + 8 * k, cpu.core.regs[r as int]),
        pc: cpu.pc + 4,
        ..cpu
    };
    lemma_word_on(code, start, cpu, after);
    after
}

/// A register is copied.
proof fn lemma_moved(code: Seq<u8>, start: Cpu, c: Seq<u8>, rd: u32, rm: u32, cpu: Cpu) -> (after:
    Cpu)
    requires
        agrees(code, 0, compiler::put(c, arm64::enc_mov(rd, rm))),
        reaches(code, start, cpu),
        cpu.pc == c.len(),
        rd < 31,
        rm < 32,
    ensures
        after == (Cpu { core: cpu.core.put(rd, cpu.core.get(rm)), pc: cpu.pc + 4, ..cpu }),
        reaches(code, start, after),
{
    lemma_last_word(code, 0, c, arm64::enc_mov(rd, rm));
    machine::lemma_move(cpu.core, rd, rm);
    lemma_computes(arm64::enc_mov(rd, rm), cpu);
    let after = Cpu { core: cpu.core.put(rd, cpu.core.get(rm)), pc: cpu.pc + 4, ..cpu };
    lemma_word_on(code, start, cpu, after);
    after
}

/// Code agrees with what other code starts with.
proof fn lemma_shorter(code: Seq<u8>, c: Seq<u8>, word: u32)
    requires
        agrees(code, 0, compiler::put(c, word)),
    ensures
        agrees(code, 0, c),
{
    lemma_last_word(code, 0, c, word);
}

/// The prologue makes the frame and takes up to three arguments.
#[verifier::spinoff_prover]
proof fn lemma_prologue(code: Seq<u8>, count: u16, caller: Cpu) -> (after: Cpu)
    requires
        count <= 3,
        agrees(code, 0, compiler::prologue(count)),
        caller.pc == 0,
        caller.core.regs.len() == 31,
    ensures
        reaches(code, caller, after),
        saved(caller, after),
        after.pc == compiler::prologue(count).len(),
        after.core.regs.len() == 31,
        count >= 1 ==> after.core.regs[19] == caller.core.regs[0],
        count >= 2 ==> after.core.regs[20] == caller.core.regs[1],
        count >= 3 ==> after.core.regs[21] == caller.core.regs[2],
{
    let w0 = arm64::enc_pair(0xA9800000, 29, 30, 31, arm64::eighths((-64) as i32));
    let w1 = arm64::enc_mov(29, 31);
    let w2 = arm64::enc_mem(0xF9000000, 19, 31, 2);
    let w3 = arm64::enc_mem(0xF9000000, 20, 31, 3);
    let w4 = arm64::enc_mem(0xF9000000, 21, 31, 4);
    let w5 = arm64::enc_mem(0xF9000000, 22, 31, 5);
    let w6 = arm64::enc_mem(0xF9000000, 23, 31, 6);
    let c0 = Seq::<u8>::empty();
    let c1 = compiler::put(c0, w0);
    let c2 = compiler::put(c1, w1);
    let c3 = compiler::put(c2, w2);
    let c4 = compiler::put(c3, w3);
    let c5 = compiler::put(c4, w4);
    let c6 = compiler::put(c5, w5);
    let c7 = compiler::put(c6, w6);
    let c8 = compiler::put(c7, arm64::enc_mov(19, 0));
    let c9 = compiler::put(c8, arm64::enc_mov(20, 1));
    let c10 = compiler::put(c9, arm64::enc_mov(21, 2));
    assert(compiler::prologue(count) == if count == 0 {
        c7
    } else if count == 1 {
        c8
    } else if count == 2 {
        c9
    } else {
        c10
    });
    if count >= 3 {
        lemma_shorter(code, c9, arm64::enc_mov(21, 2));
    }
    if count >= 2 {
        lemma_shorter(code, c8, arm64::enc_mov(20, 1));
    }
    if count >= 1 {
        lemma_shorter(code, c7, arm64::enc_mov(19, 0));
    }
    lemma_shorter(code, c6, w6);
    lemma_shorter(code, c5, w5);
    lemma_shorter(code, c4, w4);
    lemma_shorter(code, c3, w3);
    lemma_shorter(code, c2, w2);
    lemma_shorter(code, c1, w1);
    lemma_last_word(code, 0, c0, w0);
    lemma_here(code, caller);
    lemma_pair(caller);
    let p1 = Cpu {
        sp: caller.sp - 64,
        memory: caller.memory.insert(caller.sp - 64, caller.core.regs[29]).insert(
            caller.sp - 56,
            caller.core.regs[30],
        ),
        pc: caller.pc + 4,
        ..caller
    };
    lemma_word_on(code, caller, caller, p1);
    let p2 = lemma_moved(code, caller, c1, 29, 31, p1);
    let p3 = lemma_stored(code, caller, c2, 19, 2, p2);
    let p4 = lemma_stored(code, caller, c3, 20, 3, p3);
    let p5 = lemma_stored(code, caller, c4, 21, 4, p4);
    let p6 = lemma_stored(code, caller, c5, 22, 5, p5);
    let p7 = lemma_stored(code, caller, c6, 23, 6, p6);
    assert(saved(caller, p7));
    let p8 = if count >= 1 {
        lemma_moved(code, caller, c7, 19, 0, p7)
    } else {
        p7
    };
    let p9 = if count >= 2 {
        lemma_moved(code, caller, c8, 20, 1, p8)
    } else {
        p8
    };
    if count >= 3 {
        lemma_moved(code, caller, c9, 21, 2, p9)
    } else {
        p9
    }
}

/// The instruction behind one that runs on goes by a comparison only if this one compares.
proof fn lemma_fused(c: ChunkView, ip: int)
    requires
        c.code.len() <= usize::MAX,
        c.param_count <= 3,
        compiler::loop_code(c) is Some,
        processor::settled(c),
        processor::state_at(c, ip) is Some,
        0 <= ip < c.code.len(),
        processor::fused(c, ip + compiler::op_at(c.code, ip).size()),
    ensures
        compiler::comparing(compiler::op_at(c.code, ip)),
{
    let op = compiler::op_at(c.code, ip);
    opcode::law_size_bounds(op);
    let next = ip + op.size();
    assert(processor::settled_at(c, next));
    lemma_growth(c, ip, next - 1);
}

/// Where a processor is where bytecode is, it ends with the value that the bytecode ends with.
proof fn lemma_track(c: ChunkView, caller: Cpu, f: Frame, cpu: Cpu, steps: nat) -> (end: Cpu)
    requires
        c.code.len() <= usize::MAX,
        c.param_count <= 3,
        compiler::loop_code(c) is Some,
        tracks(c, caller, f, cpu),
        processor::in_step(c, f, steps),
        processor::value_within(c, f, steps) is Some,
    ensures
        reaches(compiler::loop_code(c)->0, cpu, end),
        finished(
            compiler::loop_code(c)->0,
            caller,
            end,
            processor::value_within(c, f, steps)->0,
        ),
    decreases steps,
{
    match processor::course(c, f) {
        Course::Runs(g) => {
            assert(processor::in_step(c, g, (steps - 1) as nat));
            assert(processor::met(c, g));
            let op = compiler::op_at(c.code, f.ip);
            let next = if waiting(op) {
                lemma_track_jump(c, caller, f, cpu)
            } else if op == OpCode::Loop {
                lemma_track_loop(c, caller, f, cpu)
            } else {
                lemma_track_straight(c, caller, f, cpu)
            };
            let end = lemma_track(c, caller, g, next, (steps - 1) as nat);
            lemma_on(compiler::loop_code(c)->0, cpu, next, end);
            end
        },
        _ => lemma_track_return(c, caller, f, cpu),
    }
}

/// Where a loop function has machine code, a call of the code with up to three arguments
/// returns what the bytecode returns for them, and leaves the stack pointer and the preserved
/// registers as they were. The bytecode has to be in step with the compilation, as it always
/// is in a settled chunk.
pub proof fn law_loop_function(c: ChunkView, args: Seq<u64>, caller: Cpu, steps: nat)
    requires
        c.code.len() <= usize::MAX,
        c.param_count <= 3,
        args.len() == c.param_count,
        compiler::loop_code(c) is Some,
        processor::in_step(c, processor::called(args), steps),
        processor::value_within(c, processor::called(args), steps) is Some,
        caller.pc == 0,
        caller.core.regs.len() == 31,
        forall|i: int| 0 <= i < args.len() ==> caller.core.regs[i] == #[trigger] args[i],
    ensures
        processor::hands_back(
            compiler::loop_code(c)->0,
            caller,
            processor::value_within(c, processor::called(args), steps)->0,
        ),
{
    let code = compiler::loop_code(c)->0;
    let f = processor::called(args);
    let value = processor::value_within(c, f, steps)->0;
    lemma_code(c);
    let cpu = lemma_prologue(code, c.param_count, caller);
    assert(processor::state_at(c, 0) == Some(processor::first_state(c)));
    let held = shadow(cpu.core, args.len());
    assert forall|i: int| 0 <= i < args.len() implies held[i] == args[i] by {}
    assert(tracks(c, caller, f, cpu));
    let end = lemma_track(c, caller, f, cpu, steps);
    lemma_on(code, caller, cpu, end);
    let taken = choose|n: nat| #[trigger] processor::run_for(code, caller, n) == Some(end);
    assert(processor::hands_back_after(code, caller, value, taken));
}

/// An instruction that runs on leaves the stack as high as the compilation counts.
#[verifier::spinoff_prover]
#[verifier::rlimit(40)]
proof fn lemma_height(c: ChunkView, f: Frame, s: LoopState)
    requires
        processor::course(c, f) is Runs,
        compiler::loop_step(c, compiler::op_at(c.code, f.ip), f.ip, s) is Some,
        s.top == f.stack.len(),
    ensures
        compiler::loop_step(c, compiler::op_at(c.code, f.ip), f.ip, s)->0.top
            == processor::course(c, f)->Runs_0.stack.len(),
{
}

/// Whether bytecode has numbers alone on its stack, but for the truth of a comparison under
/// the `JumpIfFalse` right behind it.
spec fn plain(c: ChunkView, f: Frame) -> bool {
    let n = f.stack.len();
    forall|i: int| #![trigger f.stack[i]]
        0 <= i < n && !(i == n - 1 && processor::fused(c, f.ip)) ==> f.stack[i] is Number
}

/// Numbers stay numbers.
#[verifier::spinoff_prover]
proof fn lemma_plain_effect(c: ChunkView, op: OpCode, ip: int, stack: Seq<Cell>)
    requires
        forall|i: int| 0 <= i < stack.len() ==> (#[trigger] stack[i]) is Number,
        processor::cell_effect(c, op, ip, stack) is Some,
    ensures
        forall|i: int|
            0 <= i < processor::cell_effect(c, op, ip, stack)->0.len() ==> (
            #[trigger] processor::cell_effect(c, op, ip, stack)->0[i]) is Number,
{
}

/// Behind an instruction of a settled chunk, bytecode is still as the compilation took it to
/// be at the instruction that is next.
#[verifier::spinoff_prover]
proof fn lemma_met(c: ChunkView, f: Frame)
    requires
        c.code.len() <= usize::MAX,
        c.param_count <= 3,
        compiler::loop_code(c) is Some,
        processor::settled(c),
        processor::met(c, f),
        plain(c, f),
        processor::course(c, f) is Runs,
    ensures
        processor::met(c, processor::course(c, f)->Runs_0),
        plain(c, processor::course(c, f)->Runs_0),
{
    let op = compiler::op_at(c.code, f.ip);
    let next = f.ip + op.size();
    let g = processor::course(c, f)->Runs_0;
    lemma_instruction(c, f.ip);
    let s = processor::state_at(c, f.ip)->0;
    let marked = LoopState { marks: s.marks.push((f.ip as usize, s.code.len() as usize)), ..s };
    lemma_height(c, f, marked);
    lemma_step(c, op, f.ip, marked);
    assert(processor::settled_at(c, f.ip));
    if compiler::comparing(op) {
        assert(op.size() == 1);
        assert(processor::fused(c, next));
        assert(!processor::fused(c, f.ip));
    } else {
        if g.ip == next {
            if processor::fused(c, next) {
                lemma_fused(c, f.ip);
            }
        } else if op == OpCode::Loop {
            lemma_loop_target(c, f.ip);
        }
        assert(!processor::fused(c, g.ip));
        if op != OpCode::Nop && op != OpCode::Jump && op != OpCode::JumpIfFalse && op
            != OpCode::Loop {
            lemma_plain_effect(c, op, f.ip, f.stack);
        }
        assert(plain(c, g));
        if g.stack.len() > 0 {
            assert(g.stack[g.stack.len() - 1] is Number);
        }
    }
}

proof fn lemma_in_step(c: ChunkView, f: Frame, steps: nat)
    requires
        c.code.len() <= usize::MAX,
        c.param_count <= 3,
        compiler::loop_code(c) is Some,
        processor::settled(c),
        processor::met(c, f),
        plain(c, f),
    ensures
        processor::in_step(c, f, steps),
    decreases steps,
{
    if steps > 0 && processor::course(c, f) is Runs {
        lemma_met(c, f);
        lemma_in_step(c, processor::course(c, f)->Runs_0, (steps - 1) as nat);
    }
}

/// Where a chunk compares only for conditions and its jumps fit together, its bytecode is in
/// step with the compilation, whatever it is called with and however long it runs.
pub proof fn law_settled_in_step(c: ChunkView, args: Seq<u64>, steps: nat)
    requires
        c.code.len() <= usize::MAX,
        c.param_count <= 3,
        args.len() == c.param_count,
        compiler::loop_code(c) is Some,
        processor::settled(c),
    ensures
        processor::in_step(c, processor::called(args), steps),
{
    assert(processor::state_at(c, 0) == Some(processor::first_state(c)));
    let f = processor::called(args);
    assert(processor::met(c, f)) by {
        if f.stack.len() > 0 {
            assert(f.stack[f.stack.len() - 1] is Number);
        }
    }
    lemma_in_step(c, f, steps);
}

} // verus!
