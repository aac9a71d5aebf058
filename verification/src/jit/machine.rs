//! What the ARM64 code of a loop function does when it runs, instruction by instruction.

use vstd::prelude::*;
use crate::compiler::chunk::ChunkView;
use crate::compiler::opcode::OpCode;
use crate::jit::arm64;
use crate::jit::compiler;
use crate::jit::compiler::LoopState;
use crate::jit::laws;

verus! {

/// The registers X0 to X30, and the operands of the last comparison.
#[verifier::ext_equal]
pub struct Machine {
    pub regs: Seq<u64>,
    pub compared: (u64, u64),
}

impl Machine {
    /// The value of a register; number 31 reads as zero.
    pub open spec fn get(self, r: u32) -> u64 {
        if r == 31 {
            0
        } else {
            self.regs[r as int]
        }
    }

    /// The machine with a register written; number 31 takes no value.
    pub open spec fn put(self, r: u32, value: u64) -> Machine {
        if r == 31 {
            self
        } else {
            Machine { regs: self.regs.update(r as int, value), ..self }
        }
    }
}

/// The quotient of two signed numbers, cut towards zero; zero where the divisor is.
pub open spec fn quotient(a: u64, b: u64) -> u64 {
    let (x, y) = (a as i64, b as i64);
    if y == 0 {
        0
    } else if (x < 0) == (y < 0) {
        (abs(x as int) / abs(y as int)) as u64
    } else {
        (-(abs(x as int) / abs(y as int))) as u64
    }
}

/// The absolute value.
pub open spec fn abs(x: int) -> int {
    if x < 0 {
        -x
    } else {
        x
    }
}

/// A signed number shifted right.
pub open spec fn shifted_right(a: u64, n: u64) -> u64 {
    ((a as i64) >> n) as u64
}

/// A value with one of its four half-words replaced.
pub open spec fn half_replaced(value: u64, half: u64, at: u32) -> u64 {
    if at == 0 {
        (value & 0xFFFF_FFFF_FFFF_0000) | half
    } else if at == 1 {
        (value & 0xFFFF_FFFF_0000_FFFF) | (half << 16)
    } else if at == 2 {
        (value & 0xFFFF_0000_FFFF_FFFF) | (half << 32)
    } else {
        (value & 0x0000_FFFF_FFFF_FFFF) | (half << 48)
    }
}

/// The machine behind an instruction word that computes.
pub open spec fn step(m: Machine, word: u32) -> Option<Machine> {
    let rd = word & 31;
    let a = m.get((word >> 5) & 31);
    let b = m.get((word >> 16) & 31);
    let form = word & 0xFFE0FC00;
    let wide = word & 0xFF800000;
    let half = ((word >> 5) & 0xFFFF) as u64;
    if form == 0x8B000000 {
        Some(m.put(rd, a.wrapping_add(b)))
    } else if form == 0xCB000000 {
        Some(m.put(rd, a.wrapping_sub(b)))
    } else if form == 0x9B007C00 {
        Some(m.put(rd, a.wrapping_mul(b)))
    } else if form == 0x9AC00C00 {
        Some(m.put(rd, quotient(a, b)))
    } else if form == 0x8A000000 {
        Some(m.put(rd, a & b))
    } else if form == 0xAA000000 {
        Some(m.put(rd, a | b))
    } else if form == 0xCA000000 {
        Some(m.put(rd, a ^ b))
    } else if form == 0xAA200000 {
        Some(m.put(rd, a | !b))
    } else if form == 0x9AC02000 {
        Some(m.put(rd, a << (b & 63)))
    } else if form == 0x9AC02400 {
        Some(m.put(rd, a >> (b & 63)))
    } else if form == 0x9AC02800 {
        Some(m.put(rd, shifted_right(a, b & 63)))
    } else if form == 0xEB000000 && rd == 31 {
        Some(Machine { compared: (a, b), ..m })
    } else if wide == 0xD2800000 && (word >> 21) & 3 == 0 {
        Some(m.put(rd, half))
    } else if wide == 0xF2800000 {
        Some(m.put(rd, half_replaced(m.get(rd), half, (word >> 21) & 3)))
    } else {
        None
    }
}

/// The machine once such code has run.
pub open spec fn run(m: Machine, code: Seq<u8>) -> Option<Machine>
    decreases code.len(),
{
    if code.len() == 0 {
        Some(m)
    } else if code.len() < 4 {
        None
    } else {
        match step(m, arm64::word_at(code, 0)) {
            Some(next) => run(next, code.skip(4)),
            None => None,
        }
    }
}

/// Whether the registers hold the stack of a loop function, its locals at the bottom.
pub open spec fn holds(m: Machine, stack: Seq<u64>) -> bool {
    &&& m.regs.len() == 31
    &&& stack.len() <= 12
    &&& forall|n: nat|
        n < stack.len() ==> m.regs[(#[trigger] compiler::register(n))->0 as int] == stack[n as int]
}

/// The result of an operation of the bytecode on 64-bit integers.
pub open spec fn calculated(op: OpCode, a: u64, b: u64) -> u64 {
    match op {
        OpCode::Add => a.wrapping_add(b),
        OpCode::Sub => a.wrapping_sub(b),
        OpCode::Mul => a.wrapping_mul(b),
        OpCode::Div => quotient(a, b),
        OpCode::Rem => a.wrapping_sub(quotient(a, b).wrapping_mul(b)),
        OpCode::BitAnd => a & b,
        OpCode::BitOr => a | b,
        OpCode::BitXor => a ^ b,
        OpCode::Shl => a << (b & 63),
        OpCode::UShr => a >> (b & 63),
        _ => shifted_right(a, b & 63),
    }
}

/// Whether an opcode calculates with two numbers.
pub open spec fn calculating(op: OpCode) -> bool {
    match op {
        OpCode::Add | OpCode::Sub | OpCode::Mul | OpCode::Div | OpCode::Rem | OpCode::BitAnd
        | OpCode::BitOr | OpCode::BitXor | OpCode::Shl | OpCode::Shr | OpCode::UShr => true,
        _ => false,
    }
}

/// The stack behind an instruction of the bytecode that computes on 64-bit integers: one
/// that reads or assigns a local, loads a constant, drops a value or calculates.
pub open spec fn effect(c: ChunkView, op: OpCode, ip: int, stack: Seq<u64>) -> Option<Seq<u64>> {
    let n = stack.len();
    let slot = c.code[ip + 1] as int;
    if op == OpCode::GetLocal {
        if slot < n {
            Some(stack.push(stack[slot]))
        } else {
            None
        }
    } else if op == OpCode::SetLocal {
        if 0 < n && slot < n {
            Some(stack.update(slot, stack.last()))
        } else {
            None
        }
    } else if op == OpCode::Pop {
        if 0 < n {
            Some(stack.drop_last())
        } else {
            None
        }
    } else if op == OpCode::BitNot {
        if 0 < n {
            Some(stack.update(n - 1, !stack.last()))
        } else {
            None
        }
    } else if compiler::loading(op) {
        match compiler::loaded(c, op, ip) {
            Some(value) => Some(stack.push(value as u64)),
            None => None,
        }
    } else if calculating(op) {
        if 2 <= n {
            Some(stack.drop_last().update(n - 2, calculated(op, stack[n - 2], stack[n - 1])))
        } else {
            None
        }
    } else {
        None
    }
}

proof fn lemma_decode(base: u32, rd: u32, rn: u32, rm: u32)
    requires
        base & 0x001F03FF == 0,
        rd < 32,
        rn < 32,
        rm < 32,
    ensures
        ({
            let word = arm64::enc_rrr(base, rd, rn, rm);
            &&& word & 0xFFE0FC00 == base
            &&& word & 31 == rd
            &&& (word >> 5) & 31 == rn
            &&& (word >> 16) & 31 == rm
        }),
{
    let word = arm64::enc_rrr(base, rd, rn, rm);
    assert(word & 0xFFE0FC00 == base && word & 31 == rd && (word >> 5) & 31 == rn && (word >> 16)
        & 31 == rm) by (bit_vector)
        requires
            base & 0x001F03FF == 0,
            rd < 32,
            rn < 32,
            rm < 32,
            word == base | (rm << 16) | (rn << 5) | rd,
    ;
}

proof fn lemma_bases()
    ensures
        0x8B000000u32 & 0x001F03FF == 0,
        0xCB000000u32 & 0x001F03FF == 0,
        0x9B007C00u32 & 0x001F03FF == 0,
        0x9AC00C00u32 & 0x001F03FF == 0,
        0x8A000000u32 & 0x001F03FF == 0,
        0xAA000000u32 & 0x001F03FF == 0,
        0xCA000000u32 & 0x001F03FF == 0,
        0xAA200000u32 & 0x001F03FF == 0,
        0x9AC02000u32 & 0x001F03FF == 0,
        0x9AC02400u32 & 0x001F03FF == 0,
        0x9AC02800u32 & 0x001F03FF == 0,
        0xEB000000u32 & 0x001F03FF == 0,
{
    assert(0x8B000000u32 & 0x001F03FF == 0 && 0xCB000000u32 & 0x001F03FF == 0 && 0x9B007C00u32
        & 0x001F03FF == 0 && 0x9AC00C00u32 & 0x001F03FF == 0 && 0x8A000000u32 & 0x001F03FF == 0
        && 0xAA000000u32 & 0x001F03FF == 0 && 0xCA000000u32 & 0x001F03FF == 0 && 0xAA200000u32
        & 0x001F03FF == 0 && 0x9AC02000u32 & 0x001F03FF == 0 && 0x9AC02400u32 & 0x001F03FF == 0
        && 0x9AC02800u32 & 0x001F03FF == 0 && 0xEB000000u32 & 0x001F03FF == 0) by (bit_vector);
}

proof fn lemma_run_word(m: Machine, word: u32, rest: Seq<u8>)
    ensures
        run(m, arm64::word_bytes(word) + rest) == match step(m, word) {
            Some(next) => run(next, rest),
            None => None,
        },
        run(m, arm64::word_bytes(word)) == step(m, word),
{
    let bytes = arm64::word_bytes(word);
    arm64::law_word_roundtrip(word);
    assert((bytes + rest).skip(4) =~= rest);
    assert(bytes.skip(4) =~= Seq::<u8>::empty());
    assert(arm64::word_at(bytes + rest, 0) == word);
    assert(arm64::word_at(bytes, 0) == word);
    reveal_with_fuel(run, 2);
}

pub(crate) proof fn lemma_move(m: Machine, rd: u32, rm: u32)
    requires
        rd < 31,
        rm < 32,
    ensures
        step(m, arm64::enc_mov(rd, rm)) == Some(m.put(rd, m.get(rm))),
{
    let word = arm64::enc_mov(rd, rm);
    assert(word == 0xAA000000u32 | (rm << 16) | (31u32 << 5) | rd) by (bit_vector)
        requires
            word == 0xAA0003E0u32 | (rm << 16) | rd,
    ;
    lemma_bases();
    lemma_decode(0xAA000000, rd, 31, rm);
    let b = m.get(rm);
    assert(0u64 | b == b) by (bit_vector);
}

proof fn lemma_wide(base: u32, rd: u32, half: u32, at: u32)
    requires
        base == 0xD2800000 || base == 0xF2800000,
        rd < 31,
        half < 0x10000,
        at < 4,
    ensures
        ({
            let word = base | (at << 21) | (half << 5) | rd;
            &&& word & 31 == rd
            &&& word & 0xFF800000 == base
            &&& (word >> 21) & 3 == at
            &&& (word >> 5) & 0xFFFF == half
            &&& word & 0xFFE0FC00 != 0x8B000000
            &&& word & 0xFFE0FC00 != 0xCB000000
            &&& word & 0xFFE0FC00 != 0x9B007C00
            &&& word & 0xFFE0FC00 != 0x9AC00C00
            &&& word & 0xFFE0FC00 != 0x8A000000
            &&& word & 0xFFE0FC00 != 0xAA000000
            &&& word & 0xFFE0FC00 != 0xCA000000
            &&& word & 0xFFE0FC00 != 0xAA200000
            &&& word & 0xFFE0FC00 != 0x9AC02000
            &&& word & 0xFFE0FC00 != 0x9AC02400
            &&& word & 0xFFE0FC00 != 0x9AC02800
            &&& word & 0xFFE0FC00 != 0xEB000000
        }),
{
    let word = base | (at << 21) | (half << 5) | rd;
    assert(word & 31 == rd && word & 0xFF800000 == base && (word >> 21) & 3 == at && (word >> 5)
        & 0xFFFF == half) by (bit_vector)
        requires
            base == 0xD2800000 || base == 0xF2800000,
            rd < 31,
            half < 0x10000,
            at < 4,
            word == base | (at << 21) | (half << 5) | rd,
    ;
    let form = word & 0xFFE0FC00;
    assert(form & 0xFF000000 == 0xD2000000 || form & 0xFF000000 == 0xF2000000) by (bit_vector)
        requires
            form == word & 0xFFE0FC00,
            word & 0xFF800000 == 0xD2800000 || word & 0xFF800000 == 0xF2800000,
    ;
    assert(0x8B000000u32 & 0xFF000000 == 0x8B000000 && 0xCB000000u32 & 0xFF000000 == 0xCB000000
        && 0x9B007C00u32 & 0xFF000000 == 0x9B000000 && 0x9AC00C00u32 & 0xFF000000 == 0x9A000000
        && 0x8A000000u32 & 0xFF000000 == 0x8A000000 && 0xAA000000u32 & 0xFF000000 == 0xAA000000
        && 0xCA000000u32 & 0xFF000000 == 0xCA000000 && 0xAA200000u32 & 0xFF000000 == 0xAA000000
        && 0x9AC02000u32 & 0xFF000000 == 0x9A000000 && 0x9AC02400u32 & 0xFF000000 == 0x9A000000
        && 0x9AC02800u32 & 0xFF000000 == 0x9A000000 && 0xEB000000u32 & 0xFF000000 == 0xEB000000)
        by (bit_vector);
}

pub(crate) proof fn lemma_movz(m: Machine, r: u32, half: u16)
    requires
        r < 31,
    ensures
        step(m, arm64::enc_movz(r, half)) == Some(m.put(r, half as u64)),
{
    let word = arm64::enc_movz(r, half);
    let wide = half as u32;
    assert(word == 0xD2800000u32 | (0u32 << 21) | (wide << 5) | r) by (bit_vector)
        requires
            word == 0xD2800000u32 | (wide << 5) | r,
    ;
    lemma_wide(0xD2800000, r, wide, 0);
}

proof fn lemma_movk(m: Machine, r: u32, half: u16, at: u32)
    requires
        r < 31,
        at < 4,
    ensures
        step(m, arm64::enc_wide(0xF2800000, r, half, at)) == Some(
            m.put(r, half_replaced(m.get(r), half as u64, at)),
        ),
{
    lemma_wide(0xF2800000, r, half as u32, at);
}

proof fn lemma_halves(value: u64)
    ensures
        ({
            let h0 = ((value & 0xFFFF) as u16) as u64;
            let h1 = (((value >> 16) & 0xFFFF) as u16) as u64;
            let h2 = (((value >> 32) & 0xFFFF) as u16) as u64;
            let h3 = (((value >> 48) & 0xFFFF) as u16) as u64;
            let v1 = half_replaced(h0, h1, 1);
            let v2 = half_replaced(v1, h2, 2);
            &&& value <= 0xFFFF ==> h0 == value
            &&& value <= 0xFFFF_FFFF ==> v1 == value
            &&& value <= 0xFFFF_FFFF_FFFF ==> v2 == value
            &&& half_replaced(v2, h3, 3) == value
        }),
{
    let h0 = ((value & 0xFFFF) as u16) as u64;
    let h1 = (((value >> 16) & 0xFFFF) as u16) as u64;
    let h2 = (((value >> 32) & 0xFFFF) as u16) as u64;
    let h3 = (((value >> 48) & 0xFFFF) as u16) as u64;
    let v1 = half_replaced(h0, h1, 1);
    let v2 = half_replaced(v1, h2, 2);
    let v3 = half_replaced(v2, h3, 3);
    assert((value <= 0xFFFF ==> h0 == value) && (value <= 0xFFFF_FFFF ==> v1 == value) && (value
        <= 0xFFFF_FFFF_FFFF ==> v2 == value) && v3 == value) by (bit_vector)
        requires
            h0 == ((value & 0xFFFF) as u16) as u64,
            h1 == (((value >> 16) & 0xFFFF) as u16) as u64,
            h2 == (((value >> 32) & 0xFFFF) as u16) as u64,
            h3 == (((value >> 48) & 0xFFFF) as u16) as u64,
            v1 == (h0 & 0xFFFF_FFFF_0000_FFFF) | (h1 << 16),
            v2 == (v1 & 0xFFFF_0000_FFFF_FFFF) | (h2 << 32),
            v3 == (v2 & 0x0000_FFFF_FFFF_FFFF) | (h3 << 48),
    ;
}

proof fn lemma_run_words(m: Machine, words: Seq<u32>, word: u32)
    ensures
        run(m, arm64::words_bytes(words.push(word))) == match run(m, arm64::words_bytes(words)) {
            Some(next) => step(next, word),
            None => None,
        },
{
    assert(words.push(word).drop_last() =~= words);
    laws::lemma_words_bytes(words);
    lemma_run_behind(m, arm64::words_bytes(words), arm64::word_bytes(word));
    match run(m, arm64::words_bytes(words)) {
        Some(next) => {
            lemma_run_word(next, word, Seq::empty());
        },
        None => {},
    }
}

proof fn lemma_run_behind(m: Machine, code: Seq<u8>, rest: Seq<u8>)
    requires
        code.len() % 4 == 0,
    ensures
        run(m, code + rest) == match run(m, code) {
            Some(next) => run(next, rest),
            None => None,
        },
    decreases code.len(),
{
    if code.len() == 0 {
        assert(code + rest =~= rest);
    } else {
        let all = code + rest;
        assert(all.skip(4) =~= code.skip(4) + rest);
        assert(arm64::word_at(all, 0) == arm64::word_at(code, 0));
        match step(m, arm64::word_at(code, 0)) {
            Some(next) => {
                lemma_run_behind(next, code.skip(4), rest);
            },
            None => {},
        }
    }
}

proof fn lemma_load(m: Machine, r: u32, value: i64)
    requires
        r < 31,
        m.regs.len() == 31,
    ensures
        run(m, compiler::load(Seq::empty(), r, value)) == Some(m.put(r, value as u64)),
{
    let v = value as u64;
    assert(0 <= value ==> v == value) by (bit_vector)
        requires
            v == value as u64,
    ;
    if 0 <= value <= 0xFFFF {
        let word = arm64::enc_movz(r, value as u16);
        lemma_movz(m, r, value as u16);
        lemma_run_word(m, word, Seq::empty());
        assert(compiler::load(Seq::empty(), r, value) =~= arm64::word_bytes(word));
    } else {
        lemma_halves(v);
        let h0 = (v & 0xFFFF) as u16;
        let h1 = ((v >> 16) & 0xFFFF) as u16;
        let h2 = ((v >> 32) & 0xFFFF) as u16;
        let h3 = ((v >> 48) & 0xFFFF) as u16;
        let words0 = seq![arm64::enc_movz(r, h0)];
        let words1 = words0.push(arm64::enc_wide(0xF2800000, r, h1, 1));
        let words2 = words1.push(arm64::enc_wide(0xF2800000, r, h2, 2));
        let words3 = words2.push(arm64::enc_wide(0xF2800000, r, h3, 3));
        let m0 = m.put(r, h0 as u64);
        let m1 = m0.put(r, half_replaced(h0 as u64, h1 as u64, 1));
        let m2 = m1.put(r, half_replaced(m1.get(r), h2 as u64, 2));
        let m3 = m2.put(r, half_replaced(m2.get(r), h3 as u64, 3));
        assert(Seq::<u32>::empty().push(arm64::enc_movz(r, h0)) =~= words0);
        assert(run(m, arm64::words_bytes(Seq::empty())) == Some(m));
        lemma_movz(m, r, h0);
        lemma_run_words(m, Seq::empty(), arm64::enc_movz(r, h0));
        lemma_movk(m0, r, h1, 1);
        lemma_run_words(m, words0, arm64::enc_wide(0xF2800000, r, h1, 1));
        lemma_movk(m1, r, h2, 2);
        lemma_run_words(m, words1, arm64::enc_wide(0xF2800000, r, h2, 2));
        lemma_movk(m2, r, h3, 3);
        lemma_run_words(m, words2, arm64::enc_wide(0xF2800000, r, h3, 3));
        assert(m1 =~= m.put(r, m1.get(r)));
        assert(m2 =~= m.put(r, m2.get(r)));
        assert(m3 =~= m.put(r, m3.get(r)));
        assert(compiler::load(Seq::empty(), r, value) =~= arm64::words_bytes(
            arm64::imm64_words(r, v),
        ));
    }
}

/// The code of a calculation with the two topmost values leaves the result in place of the
/// first, and every register but X0 otherwise alone.
proof fn lemma_operation(m: Machine, op: OpCode, ra: u32, rb: u32)
    requires
        calculating(op),
        m.regs.len() == 31,
        0 < ra < 31,
        0 < rb < 31,
        ra != rb,
    ensures
        ({
            let code = compiler::operation(Seq::empty(), op, ra, rb);
            let value = calculated(op, m.regs[ra as int], m.regs[rb as int]);
            &&& code is Some
            &&& run(m, code->0) matches Some(end) && end.regs.len() == 31 && end.compared
                == m.compared && end.regs[ra as int] == value && forall|r: int|
                0 < r < 31 && r != ra ==> #[trigger] end.regs[r] == m.regs[r]
        }),
{
    lemma_bases();
    let none = Seq::<u8>::empty();
    if op == OpCode::Rem {
        let w0 = arm64::enc_rrr(0x9AC00C00, 0, ra, rb);
        let w1 = arm64::enc_rrr(0x9B007C00, 0, 0, rb);
        let w2 = arm64::enc_rrr(0xCB000000, ra, ra, 0);
        lemma_decode(0x9AC00C00, 0, ra, rb);
        lemma_decode(0x9B007C00, 0, 0, rb);
        lemma_decode(0xCB000000, ra, ra, 0);
        let b0 = arm64::word_bytes(w0);
        let b1 = arm64::word_bytes(w1);
        let b2 = arm64::word_bytes(w2);
        let code = compiler::operation(none, op, ra, rb)->0;
        assert(code =~= b0 + (b1 + b2));
        lemma_run_word(m, w0, b1 + b2);
        let m0 = step(m, w0)->0;
        lemma_run_word(m0, w1, b2);
        let m1 = step(m0, w1)->0;
        lemma_run_word(m1, w2, none);
    } else {
        let base: u32 = match op {
            OpCode::Add => 0x8B000000,
            OpCode::Sub => 0xCB000000,
            OpCode::Mul => 0x9B007C00,
            OpCode::Div => 0x9AC00C00,
            OpCode::BitAnd => 0x8A000000,
            OpCode::BitOr => 0xAA000000,
            OpCode::BitXor => 0xCA000000,
            OpCode::Shl => 0x9AC02000,
            OpCode::UShr => 0x9AC02400,
            _ => 0x9AC02800,
        };
        let word = arm64::enc_rrr(base, ra, ra, rb);
        lemma_decode(base, ra, ra, rb);
        lemma_run_word(m, word, none);
        assert(compiler::operation(none, op, ra, rb)->0 =~= arm64::word_bytes(word));
    }
}

/// The code that is emitted for an instruction that computes does to the registers what the
/// instruction does to the stack: where they held the stack before, they hold it after the
/// code has run. The last comparison stays.
pub proof fn law_computing_step(
    c: ChunkView,
    op: OpCode,
    ip: int,
    s: LoopState,
    m: Machine,
    stack: Seq<u64>,
)
    requires
        s.top == stack.len(),
        holds(m, stack),
        effect(c, op, ip, stack) is Some,
        compiler::loop_step(c, op, ip, s) is Some,
    ensures
        ({
            let t = compiler::loop_step(c, op, ip, s)->0;
            let after = effect(c, op, ip, stack)->0;
            &&& t.top == after.len()
            &&& s.code.is_prefix_of(t.code)
            &&& run(m, t.code.skip(s.code.len() as int)) matches Some(end) && holds(end, after)
                && end.compared == m.compared
        }),
{
    let t = compiler::loop_step(c, op, ip, s)->0;
    let after = effect(c, op, ip, stack)->0;
    let emitted = t.code.skip(s.code.len() as int);
    let n = stack.len();
    let none = Seq::<u8>::empty();
    assert forall|a: nat, b: nat| a < 12 && b < 12 && a != b implies #[trigger] compiler::register(a)
        != #[trigger] compiler::register(b) by {}
    if op == OpCode::GetLocal || op == OpCode::SetLocal {
        let slot = c.code[ip + 1] as nat;
        let (src, dst) = if op == OpCode::GetLocal {
            (slot, n)
        } else {
            ((n - 1) as nat, slot)
        };
        let (rs, rd) = (compiler::register(src)->0, compiler::register(dst)->0);
        let word = arm64::enc_mov(rd, rs);
        assert(emitted =~= arm64::word_bytes(word));
        lemma_run_word(m, word, none);
        lemma_move(m, rd, rs);
    } else if op == OpCode::Pop {
        assert(emitted =~= none);
    } else if op == OpCode::BitNot {
        let r = compiler::register((n - 1) as nat)->0;
        let word = arm64::enc_rrr(0xAA200000, r, arm64::XZR, r);
        assert(emitted =~= arm64::word_bytes(word));
        lemma_bases();
        lemma_decode(0xAA200000, r, 31, r);
        lemma_run_word(m, word, none);
        let x = stack.last();
        assert(0u64 | !x == !x) by (bit_vector);
    } else if compiler::loading(op) {
        let value = compiler::loaded(c, op, ip)->0;
        let r = compiler::register(n)->0;
        assert(emitted =~= compiler::load(none, r, value));
        lemma_load(m, r, value);
    } else {
        let ra = compiler::register((n - 2) as nat)->0;
        let rb = compiler::register((n - 1) as nat)->0;
        assert(emitted =~= compiler::operation(none, op, ra, rb)->0);
        lemma_operation(m, op, ra, rb);
    }
}

/// Whether a comparison of the bytecode holds of two signed numbers.
pub open spec fn true_of(op: OpCode, a: u64, b: u64) -> bool {
    let (x, y) = (a as i64, b as i64);
    match op {
        OpCode::Lt => x < y,
        OpCode::Le => x <= y,
        OpCode::Gt => x > y,
        OpCode::Ge => x >= y,
        OpCode::Eq | OpCode::StrictEq => x == y,
        _ => x != y,
    }
}

/// Whether a conditional branch is taken behind a comparison of two signed numbers, by its
/// condition: EQ, NE, GE, LT, GT or LE.
pub open spec fn taken(cond: u32, a: u64, b: u64) -> bool {
    let (x, y) = (a as i64, b as i64);
    if cond == 0 {
        x == y
    } else if cond == 1 {
        x != y
    } else if cond == 10 {
        x >= y
    } else if cond == 11 {
        x < y
    } else if cond == 12 {
        x > y
    } else {
        cond == 13 && x <= y
    }
}

/// The code of a comparison compares the two topmost values, and the branch that a
/// `JumpIfFalse` behind it becomes is taken just where the comparison is false.
pub proof fn law_comparing_step(
    c: ChunkView,
    op: OpCode,
    ip: int,
    s: LoopState,
    m: Machine,
    stack: Seq<u64>,
)
    requires
        compiler::comparing(op),
        s.top == stack.len(),
        holds(m, stack),
        compiler::loop_step(c, op, ip, s) is Some,
    ensures
        ({
            let t = compiler::loop_step(c, op, ip, s)->0;
            let (a, b) = (stack[stack.len() - 2], stack[stack.len() - 1]);
            &&& t.compared == Some(op)
            &&& run(m, t.code.skip(s.code.len() as int)) == Some(Machine { compared: (a, b), ..m })
            &&& compiler::inverse(op) matches Some(cond) && taken(cond, a, b) == !true_of(op, a, b)
        }),
{
    let t = compiler::loop_step(c, op, ip, s)->0;
    let n = stack.len();
    let ra = compiler::register((n - 2) as nat)->0;
    let rb = compiler::register((n - 1) as nat)->0;
    let word = compiler::compare_word(ra, rb);
    let emitted = t.code.skip(s.code.len() as int);
    assert(emitted =~= arm64::word_bytes(word));
    assert(word == 0xEB000000u32 | (rb << 16) | (ra << 5) | 31) by (bit_vector)
        requires
            word == 0xEB00001Fu32 | (rb << 16) | (ra << 5),
    ;
    lemma_bases();
    lemma_decode(0xEB000000, 31, ra, rb);
    lemma_run_word(m, word, Seq::empty());
}

} // verus!
