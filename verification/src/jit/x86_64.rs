//! Minimal x86-64 assembler. Emits raw machine code bytes.
//!
//! Only the instructions needed to compile simple numeric functions are covered. Targets
//! the System V AMD64 ABI. Register numbers match the AMD64 encoding (0=RAX .. 15=R15);
//! the methods take them as u32, like those of the ARM64 assembler, and use the low byte.

use vstd::prelude::*;

verus! {

/// Return value / scratch.
pub const RAX: u32 = 0;
/// Shift-count register (reserved, not allocated to locals).
pub const RCX: u32 = 1;
/// Third argument / caller-saved.
pub const RDX: u32 = 2;
/// Callee-saved local.
pub const RBX: u32 = 3;
/// Stack pointer.
pub const RSP: u32 = 4;
/// Frame pointer.
pub const RBP: u32 = 5;
/// Second argument / caller-saved local.
pub const RSI: u32 = 6;
/// First argument / caller-saved local after the prologue.
pub const RDI: u32 = 7;
/// Fifth argument / caller-saved local.
pub const R8: u32 = 8;
/// Sixth argument / caller-saved local.
pub const R9: u32 = 9;
/// Caller-saved.
pub const R10: u32 = 10;
/// Caller-saved / IDIV scratch.
pub const R11: u32 = 11;
/// Callee-saved local.
pub const R12: u32 = 12;
/// Callee-saved local.
pub const R13: u32 = 13;
/// Callee-saved local.
pub const R14: u32 = 14;
/// Callee-saved local / globals pointer.
pub const R15: u32 = 15;
pub const XMM0: u32 = 0;
pub const XMM1: u32 = 1;
pub const XMM2: u32 = 2;
pub const XMM3: u32 = 3;
pub const XMM4: u32 = 4;
pub const XMM5: u32 = 5;
pub const XMM6: u32 = 6;
pub const XMM7: u32 = 7;
pub const XMM8: u32 = 8;
pub const XMM9: u32 = 9;
pub const XMM10: u32 = 10;
pub const XMM11: u32 = 11;
pub const XMM12: u32 = 12;
pub const XMM13: u32 = 13;
pub const XMM14: u32 = 14;
pub const XMM15: u32 = 15;

/// The little-endian bytes of a 32-bit operand.
pub open spec fn le32(v: u32) -> Seq<u8> {
    seq![
        (v & 0xFF) as u8,
        ((v >> 8) & 0xFF) as u8,
        ((v >> 16) & 0xFF) as u8,
        ((v >> 24) & 0xFF) as u8,
    ]
}

/// The little-endian bytes of a 64-bit operand.
pub open spec fn le64(v: u64) -> Seq<u8> {
    le32((v & 0xFFFF_FFFF) as u32) + le32((v >> 32) as u32)
}

/// REX prefix for 64-bit integer ops: REX.W + optional REX.R (reg field) + REX.B (rm field).
pub open spec fn rex_w(reg: u8, rm: u8) -> u8 {
    0x48 | ((reg >> 3) << 2) | (rm >> 3)
}

/// ModRM byte for register-to-register (mod=11).
pub open spec fn modrm_regs(reg: u8, rm: u8) -> u8 {
    0xC0 | ((reg & 7) << 3) | (rm & 7)
}

/// MOV dst, src.
pub open spec fn enc_mov(dst: u32, src: u32) -> Seq<u8> {
    seq![rex_w(dst as u8, src as u8), 0x8Bu8, modrm_regs(dst as u8, src as u8)]
}

/// The move that brings the first operand into the destination, where it is elsewhere.
pub open spec fn enc_bring(dst: u32, rn: u32) -> Seq<u8> {
    if dst != rn {
        enc_mov(dst, rn)
    } else {
        Seq::empty()
    }
}

/// An ALU operation between two registers, with the given reg and rm fields.
pub open spec fn enc_alu(opcode: u8, reg: u32, rm: u32) -> Seq<u8> {
    seq![rex_w(reg as u8, rm as u8), opcode, modrm_regs(reg as u8, rm as u8)]
}

/// dst = rn op src for an operation that commutes. Where the destination is the second
/// operand, the first one is worked into it.
pub open spec fn enc_commuting(opcode: u8, dst: u32, rn: u32, src: u32) -> Seq<u8> {
    if dst == src {
        enc_alu(opcode, dst, rn)
    } else {
        enc_bring(dst, rn) + enc_alu(opcode, dst, src)
    }
}

/// dst = rn op src for an operation that commutes and whose destination is the rm field.
pub open spec fn enc_commuting_rm(opcode: u8, dst: u32, rn: u32, src: u32) -> Seq<u8> {
    if dst == src {
        enc_alu(opcode, rn, dst)
    } else {
        enc_bring(dst, rn) + enc_alu(opcode, src, dst)
    }
}

/// dst = rn - src. Where the destination is the subtrahend, it is negated and the minuend
/// added.
pub open spec fn enc_sub(dst: u32, rn: u32, src: u32) -> Seq<u8> {
    if dst == src && dst != rn {
        enc_unary(3, dst) + enc_alu(0x03, dst, rn)
    } else {
        enc_bring(dst, rn) + enc_alu(0x2B, dst, src)
    }
}

/// An ALU operation with a signed immediate: one byte where it fits, else four.
pub open spec fn enc_alu_imm(opext: u8, dst: u8, imm: i64) -> Seq<u8> {
    let rex = 0x48u8 | (dst >> 3);
    let modrm = 0xC0u8 | (opext << 3) | (dst & 7);
    if -128 <= imm <= 127 {
        seq![rex, 0x83u8, modrm, imm as u8]
    } else {
        seq![rex, 0x81u8, modrm] + le32(imm as u32)
    }
}

/// The register that a constant too large for an immediate is loaded into: RCX beside R11,
/// else R11.
pub open spec fn scratch_beside(r: u32) -> u32 {
    if r == R11 {
        RCX
    } else {
        R11
    }
}

/// The opcode of an ALU operation with the destination in the reg field.
pub open spec fn alu_opcode(opext: u8) -> u8 {
    if opext == 0 {
        0x03
    } else if opext == 5 {
        0x2B
    } else {
        0x3B
    }
}

/// ADD, SUB or CMP (0, 5 or 7) of a register with an unsigned constant. Immediates are
/// sign-extended, so a constant with the top bit set goes through a scratch register.
pub open spec fn enc_alu_const(opext: u8, r: u32, imm: u32) -> Seq<u8> {
    if imm <= i32::MAX {
        enc_alu_imm(opext, r as u8, imm as i64)
    } else {
        enc_imm64(scratch_beside(r), imm as u64) + enc_alu(
            alu_opcode(opext),
            r,
            scratch_beside(r),
        )
    }
}

/// A one-operand operation of the F7 group.
pub open spec fn enc_unary(opext: u8, dst: u32) -> Seq<u8> {
    seq![0x48u8 | (dst as u8 >> 3), 0xF7u8, 0xC0u8 | (opext << 3) | (dst as u8 & 7)]
}

/// A shift of a register by CL.
pub open spec fn enc_shift_cl(opext: u8, dst: u32) -> Seq<u8> {
    seq![0x48u8 | (dst as u8 >> 3), 0xD3u8, 0xC0u8 | (opext << 3) | (dst as u8 & 7)]
}

/// A shift by register: the count goes to RCX first unless it is there. Where RCX holds the
/// value to shift, the two are exchanged for the time of the shift.
pub open spec fn enc_shift(opext: u8, dst: u32, cnt: u32) -> Seq<u8> {
    let count = cnt as u8 as u32;
    if count == RCX {
        enc_shift_cl(opext, dst)
    } else if dst as u8 as u32 == RCX {
        enc_alu(0x87, RCX, count) + enc_shift_cl(opext, count) + enc_alu(0x87, RCX, count)
    } else {
        enc_mov(RCX, count) + enc_shift_cl(opext, dst)
    }
}

/// A signed division: divisor to a scratch register (RCX where the dividend is in R11,
/// else R11), dividend to RAX, CQO, IDIV, and the wanted half back.
pub open spec fn enc_idiv(ra: u8, rb: u8, want_quotient: bool) -> Seq<u8> {
    let divide = if ra == 11 {
        enc_mov(RCX, rb as u32) + enc_mov(RAX, ra as u32) + seq![0x48u8, 0x99u8]
            + seq![0x48u8, 0xF7u8, 0xF9u8]
    } else {
        enc_mov(R11, rb as u32) + enc_mov(RAX, ra as u32) + seq![0x48u8, 0x99u8]
            + seq![0x49u8, 0xF7u8, 0xFBu8]
    };
    divide + enc_mov(ra as u32, if want_quotient { RAX } else { RDX })
}

/// A conditional jump.
pub open spec fn enc_jcc(cond: u8, byte_offset: i32) -> Seq<u8> {
    seq![0x0Fu8, cond] + le32(byte_offset as u32)
}

/// A jump or call, whose operand counts from the end of its five bytes.
pub open spec fn enc_rel(opcode: u8, byte_offset: i32) -> Seq<u8> {
    seq![opcode] + le32((byte_offset - 5) as i32 as u32)
}

/// TEST r, r.
pub open spec fn enc_test(r: u32) -> Seq<u8> {
    enc_alu(0x85, r, r)
}

/// An SSE2 operation, with a REX prefix only where a high register takes part.
pub open spec fn enc_sse(prefix: u8, opcode: u8, dst: u32, src: u32) -> Seq<u8> {
    let d = dst as u8;
    let s = src as u8;
    let rex = if d >= 8 || s >= 8 {
        seq![0x40u8 | ((d >> 3) << 2) | (s >> 3)]
    } else {
        Seq::empty()
    };
    seq![prefix] + rex + seq![0x0Fu8, opcode, modrm_regs(d, s)]
}

/// An SSE2 operation between an XMM and a 64-bit integer register.
pub open spec fn enc_sse_w(prefix: u8, opcode: u8, dst: u32, src: u32) -> Seq<u8> {
    seq![prefix, rex_w(dst as u8, src as u8), 0x0Fu8, opcode, modrm_regs(dst as u8, src as u8)]
}

/// A load or store with a 32-bit displacement. RSP and R12 as a base need a SIB byte.
pub open spec fn enc_memory(opcode: u8, reg: u32, base: u32, disp: u32) -> Seq<u8> {
    let r = reg as u8;
    let b = base as u8;
    if b & 7 == 4 {
        seq![rex_w(r, b), opcode, 0x80u8 | ((r & 7) << 3) | 4, 0x24u8] + le32(disp)
    } else {
        seq![rex_w(r, b), opcode, 0x80u8 | ((r & 7) << 3) | (b & 7)] + le32(disp)
    }
}

/// PUSH or POP of a register.
pub open spec fn enc_stack(base: u8, r: u32) -> Seq<u8> {
    let low = (base + (r as u8 & 7)) as u8;
    if r as u8 >= 8 {
        seq![0x41u8, low]
    } else {
        seq![low]
    }
}

/// The load of a 64-bit constant: sign-extended from four bytes where it fits.
pub open spec fn enc_imm64(dst: u32, value: u64) -> Seq<u8> {
    let d = dst as u8;
    let rex = 0x48u8 | (d >> 3);
    if i32::MIN <= value as i64 <= i32::MAX {
        seq![rex, 0xC7u8, 0xC0u8 | (d & 7)] + le32(value as u32)
    } else {
        seq![rex, (0xB8 + (d & 7)) as u8] + le64(value)
    }
}

/// The load of a zero-extended 16-bit constant.
pub open spec fn enc_movz(dst: u32, imm16: u16) -> Seq<u8> {
    enc_stack(0xB8, dst) + le32(imm16 as u32)
}

/// Where the 32-bit operand of the branch at an offset stands, and the offset that it
/// counts from: for JMP and CALL, for a conditional jump, and for a TEST with the
/// conditional jump behind it. Other bytes are no branch.
pub open spec fn branch_operand(opcode: u8, at: int) -> Option<(int, int)> {
    if opcode == 0xE9 || opcode == 0xE8 {
        Some((at + 1, at + 5))
    } else if opcode == 0x0F {
        Some((at + 2, at + 6))
    } else if opcode == 0x48 || opcode == 0x49 || opcode == 0x4C || opcode == 0x4D {
        Some((at + 5, at + 9))
    } else {
        None
    }
}

/// The code with four bytes replaced.
pub open spec fn replaced4(code: Seq<u8>, at: int, w: Seq<u8>) -> Seq<u8> {
    code.update(at, w[0]).update(at + 1, w[1]).update(at + 2, w[2]).update(at + 3, w[3])
}

/// The code with the branch at one offset made to lead to another.
pub open spec fn branch_patched(code: Seq<u8>, from: int, to: int) -> Seq<u8> {
    match branch_operand(code[from], from) {
        Some((at, base)) => replaced4(code, at, le32((to - base) as i32 as u32)),
        None => code,
    }
}

proof fn lemma_low3(r: u8)
    ensures
        r & 7 <= 7,
{
    assert(r & 7 <= 7) by (bit_vector);
}

/// REX prefix for 64-bit integer ops.
fn rex_rb(reg: u8, rm: u8) -> (rex: u8)
    ensures
        rex == rex_w(reg, rm),
{
    0x48 | ((reg >> 3) << 2) | (rm >> 3)
}

/// ModRM byte for register-to-register (mod=11).
fn modrm_rr(reg: u8, rm: u8) -> (modrm: u8)
    ensures
        modrm == modrm_regs(reg, rm),
{
    0xC0 | ((reg & 7) << 3) | (rm & 7)
}

/// An assembler: the code emitted so far.
pub struct Assembler {
    pub code: Vec<u8>,
}

impl Default for Assembler {
    fn default() -> (out: Self)
        ensures
            out.code@ == Seq::<u8>::empty(),
    {
        Self::new()
    }
}

impl Assembler {
    /// An assembler without code.
    pub fn new() -> (out: Self)
        ensures
            out.code@ == Seq::<u8>::empty(),
    {
        Assembler { code: Vec::with_capacity(1024) }
    }

    /// Current offset in bytes.
    pub fn offset(&self) -> (at: usize)
        ensures
            at == self.code@.len(),
    {
        self.code.len()
    }

    fn put1(&mut self, a: u8)
        ensures
            final(self).code@ == old(self).code@ + seq![a],
    {
        self.code.push(a);
        assert(self.code@ =~= old(self).code@ + seq![a]);
    }

    fn put2(&mut self, a: u8, b: u8)
        ensures
            final(self).code@ == old(self).code@ + seq![a, b],
    {
        self.code.push(a);
        self.code.push(b);
        assert(self.code@ =~= old(self).code@ + seq![a, b]);
    }

    fn put3(&mut self, a: u8, b: u8, c: u8)
        ensures
            final(self).code@ == old(self).code@ + seq![a, b, c],
    {
        self.code.push(a);
        self.code.push(b);
        self.code.push(c);
        assert(self.code@ =~= old(self).code@ + seq![a, b, c]);
    }

    fn put4(&mut self, a: u8, b: u8, c: u8, d: u8)
        ensures
            final(self).code@ == old(self).code@ + seq![a, b, c, d],
    {
        self.code.push(a);
        self.code.push(b);
        self.code.push(c);
        self.code.push(d);
        assert(self.code@ =~= old(self).code@ + seq![a, b, c, d]);
    }

    fn put_le32(&mut self, v: u32)
        ensures
            final(self).code@ == old(self).code@ + le32(v),
    {
        self.put4(
            (v & 0xFF) as u8,
            ((v >> 8) & 0xFF) as u8,
            ((v >> 16) & 0xFF) as u8,
            ((v >> 24) & 0xFF) as u8,
        );
    }

    /// PUSH r
    pub fn push_reg(&mut self, r: u32)
        ensures
            final(self).code@ == old(self).code@ + enc_stack(0x50, r),
    {
        let r8: u8 = r as u8;
        proof {
            lemma_low3(r8);
        }
        if r8 >= 8 {
            self.put1(0x41);
        }
        self.put1(0x50 + (r8 & 7));
        assert(self.code@ =~= old(self).code@ + enc_stack(0x50, r));
    }

    /// POP r
    pub fn pop_reg(&mut self, r: u32)
        ensures
            final(self).code@ == old(self).code@ + enc_stack(0x58, r),
    {
        let r8: u8 = r as u8;
        proof {
            lemma_low3(r8);
        }
        if r8 >= 8 {
            self.put1(0x41);
        }
        self.put1(0x58 + (r8 & 7));
        assert(self.code@ =~= old(self).code@ + enc_stack(0x58, r));
    }

    /// SUB RSP, imm8  (used for stack alignment)
    pub fn sub_rsp_imm8(&mut self, imm: u8)
        ensures
            final(self).code@ == old(self).code@ + seq![0x48u8, 0x83u8, 0xECu8, imm],
    {
        self.put4(0x48, 0x83, 0xEC, imm);
    }

    /// ADD RSP, imm8  (undo stack alignment)
    pub fn add_rsp_imm8(&mut self, imm: u8)
        ensures
            final(self).code@ == old(self).code@ + seq![0x48u8, 0x83u8, 0xC4u8, imm],
    {
        self.put4(0x48, 0x83, 0xC4, imm);
    }

    /// MOV RBP, RSP
    pub fn mov_rbp_rsp(&mut self)
        ensures
            final(self).code@ == old(self).code@ + seq![0x48u8, 0x89u8, 0xE5u8],
    {
        self.put3(0x48, 0x89, 0xE5);
    }

    /// MOV dst, src  (64-bit register)
    pub fn mov_reg(&mut self, dst: u32, src: u32)
        ensures
            final(self).code@ == old(self).code@ + enc_mov(dst, src),
    {
        let d: u8 = dst as u8;
        let s: u8 = src as u8;
        self.put3(rex_rb(d, s), 0x8B, modrm_rr(d, s));
    }

    /// MOV dst, imm64  (full 64-bit constant)
    pub fn mov_imm64(&mut self, dst: u32, value: u64)
        ensures
            final(self).code@ == old(self).code@ + enc_imm64(dst, value),
    {
        let d: u8 = dst as u8;
        proof {
            lemma_low3(d);
        }
        let rex: u8 = 0x48 | (d >> 3);
        if value as i64 >= i32::MIN as i64 && value as i64 <= i32::MAX as i64 {
            self.put3(rex, 0xC7, 0xC0 | (d & 7));
            self.put_le32(value as u32);
        } else {
            self.put2(rex, 0xB8 + (d & 7));
            self.put_le32((value & 0xFFFF_FFFF) as u32);
            self.put_le32((value >> 32) as u32);
        }
        assert(self.code@ =~= old(self).code@ + enc_imm64(dst, value));
    }

    /// MOV r32, imm32 with a 16-bit constant (zero-extends to 64 bits)
    pub fn movz(&mut self, dst: u32, imm16: u16)
        ensures
            final(self).code@ == old(self).code@ + enc_movz(dst, imm16),
    {
        let d: u8 = dst as u8;
        proof {
            lemma_low3(d);
        }
        if d >= 8 {
            self.put1(0x41);
        }
        self.put1(0xB8 + (d & 7));
        self.put_le32(imm16 as u32);
        assert(self.code@ =~= old(self).code@ + enc_movz(dst, imm16));
    }

    /// ADD dst, rn, src  (dst = rn + src; if dst==rn this is dst += src)
    pub fn add_reg(&mut self, dst: u32, rn: u32, src: u32)
        ensures
            final(self).code@ == old(self).code@ + enc_commuting(0x03, dst, rn, src),
    {
        if dst == src {
            self.alu_regs(0x03, dst, rn);
        } else {
            self.bring(dst, rn);
            self.alu_regs(0x03, dst, src);
        }
        assert(self.code@ =~= old(self).code@ + enc_commuting(0x03, dst, rn, src));
    }

    /// ADD dst, rn, imm  (dst = rn + imm; a constant with the top bit set overwrites R11, or
    /// RCX where dst is R11)
    pub fn add_imm(&mut self, dst: u32, rn: u32, imm: u32)
        ensures
            final(self).code@ == old(self).code@ + enc_bring(dst, rn) + enc_alu_const(0, dst, imm),
    {
        self.bring(dst, rn);
        self.alu_const(0, dst, imm);
        assert(self.code@ =~= old(self).code@ + enc_bring(dst, rn) + enc_alu_const(0, dst, imm));
    }

    /// SUB dst, rn, src  (dst = rn - src)
    pub fn sub_reg(&mut self, dst: u32, rn: u32, src: u32)
        ensures
            final(self).code@ == old(self).code@ + enc_sub(dst, rn, src),
    {
        if dst == src && dst != rn {
            self.neg_reg(dst);
            self.alu_regs(0x03, dst, rn);
        } else {
            self.bring(dst, rn);
            self.alu_regs(0x2B, dst, src);
        }
        assert(self.code@ =~= old(self).code@ + enc_sub(dst, rn, src));
    }

    /// SUB dst, rn, imm  (dst = rn - imm; a constant with the top bit set overwrites R11, or
    /// RCX where dst is R11)
    pub fn sub_imm(&mut self, dst: u32, rn: u32, imm: u32)
        ensures
            final(self).code@ == old(self).code@ + enc_bring(dst, rn) + enc_alu_const(5, dst, imm),
    {
        self.bring(dst, rn);
        self.alu_const(5, dst, imm);
        assert(self.code@ =~= old(self).code@ + enc_bring(dst, rn) + enc_alu_const(5, dst, imm));
    }

    /// IMUL dst, src  (dst = dst * src, signed 64-bit; rn must equal dst)
    pub fn mul(&mut self, dst: u32, _rn: u32, src: u32)
        ensures
            final(self).code@ == old(self).code@ + seq![
                rex_w(dst as u8, src as u8),
                0x0Fu8,
                0xAFu8,
                modrm_regs(dst as u8, src as u8)
            ],
    {
        let d: u8 = dst as u8;
        let s: u8 = src as u8;
        self.put4(rex_rb(d, s), 0x0F, 0xAF, modrm_rr(d, s));
    }

    /// IDIV: dst = dst / src  (signed integer division, result is quotient)
    pub fn sdiv(&mut self, dst: u32, _rn: u32, src: u32)
        ensures
            final(self).code@ == old(self).code@ + enc_idiv(dst as u8, src as u8, true),
    {
        self.idiv_helper(dst as u8, src as u8, true);
    }

    /// Modulo: dst = dst % src  (via IDIV, result is remainder)
    pub fn rem(&mut self, dst: u32, src: u32)
        ensures
            final(self).code@ == old(self).code@ + enc_idiv(dst as u8, src as u8, false),
    {
        self.idiv_helper(dst as u8, src as u8, false);
    }

    /// NEG dst  (dst = -dst)
    pub fn neg_reg(&mut self, dst: u32)
        ensures
            final(self).code@ == old(self).code@ + enc_unary(3, dst),
    {
        let d: u8 = dst as u8;
        self.put3(0x48 | (d >> 3), 0xF7, 0xC0 | (3 << 3) | (d & 7));
    }

    /// INC dst  (dst += 1, via add_imm)
    pub fn inc_reg(&mut self, dst: u32)
        ensures
            final(self).code@ == old(self).code@ + enc_alu_imm(0, dst as u8, 1),
    {
        self.add_imm(dst, dst, 1);
        assert(self.code@ =~= old(self).code@ + enc_alu_imm(0, dst as u8, 1));
    }

    /// DEC dst  (dst -= 1, via sub_imm)
    pub fn dec_reg(&mut self, dst: u32)
        ensures
            final(self).code@ == old(self).code@ + enc_alu_imm(5, dst as u8, 1),
    {
        self.sub_imm(dst, dst, 1);
        assert(self.code@ =~= old(self).code@ + enc_alu_imm(5, dst as u8, 1));
    }

    /// AND dst, rn, src  (dst = rn & src)
    pub fn and_reg(&mut self, dst: u32, rn: u32, src: u32)
        ensures
            final(self).code@ == old(self).code@ + enc_commuting_rm(0x21, dst, rn, src),
    {
        if dst == src {
            self.alu_regs(0x21, rn, dst);
        } else {
            self.bring(dst, rn);
            self.alu_regs(0x21, src, dst);
        }
        assert(self.code@ =~= old(self).code@ + enc_commuting_rm(0x21, dst, rn, src));
    }

    /// OR dst, rn, src  (dst = rn | src)
    pub fn orr_reg(&mut self, dst: u32, rn: u32, src: u32)
        ensures
            final(self).code@ == old(self).code@ + enc_commuting_rm(0x09, dst, rn, src),
    {
        if dst == src {
            self.alu_regs(0x09, rn, dst);
        } else {
            self.bring(dst, rn);
            self.alu_regs(0x09, src, dst);
        }
        assert(self.code@ =~= old(self).code@ + enc_commuting_rm(0x09, dst, rn, src));
    }

    /// XOR dst, rn, src  (dst = rn ^ src)
    pub fn eor_reg(&mut self, dst: u32, rn: u32, src: u32)
        ensures
            final(self).code@ == old(self).code@ + enc_commuting_rm(0x31, dst, rn, src),
    {
        if dst == src {
            self.alu_regs(0x31, rn, dst);
        } else {
            self.bring(dst, rn);
            self.alu_regs(0x31, src, dst);
        }
        assert(self.code@ =~= old(self).code@ + enc_commuting_rm(0x31, dst, rn, src));
    }

    /// NOT dst  (bitwise complement; src must equal dst)
    pub fn mvn(&mut self, dst: u32, _src: u32)
        ensures
            final(self).code@ == old(self).code@ + enc_unary(2, dst),
    {
        let d: u8 = dst as u8;
        self.put3(0x48 | (d >> 3), 0xF7, 0xC0 | (2 << 3) | (d & 7));
    }

    /// SHL dst, cnt  (logical left shift by register)
    pub fn lsl_reg(&mut self, dst: u32, _rn: u32, cnt: u32)
        ensures
            final(self).code@ == old(self).code@ + enc_shift(4, dst, cnt),
    {
        self.shift_by_reg(dst, cnt, 4);
    }

    /// SHR dst, cnt  (logical right shift by register)
    pub fn lsr_reg(&mut self, dst: u32, _rn: u32, cnt: u32)
        ensures
            final(self).code@ == old(self).code@ + enc_shift(5, dst, cnt),
    {
        self.shift_by_reg(dst, cnt, 5);
    }

    /// SAR dst, cnt  (arithmetic right shift by register)
    pub fn asr_reg(&mut self, dst: u32, _rn: u32, cnt: u32)
        ensures
            final(self).code@ == old(self).code@ + enc_shift(7, dst, cnt),
    {
        self.shift_by_reg(dst, cnt, 7);
    }

    /// CMP ra, rb  (set flags from ra - rb)
    pub fn cmp_reg(&mut self, ra: u32, rb: u32)
        ensures
            final(self).code@ == old(self).code@ + enc_alu(0x3B, ra, rb),
    {
        self.alu_regs(0x3B, ra, rb);
    }

    /// CMP r, imm  (set flags from r - imm; a constant with the top bit set overwrites R11, or
    /// RCX where r is R11)
    pub fn cmp_imm(&mut self, r: u32, imm: u32)
        ensures
            final(self).code@ == old(self).code@ + enc_alu_const(7, r, imm),
    {
        self.alu_const(7, r, imm);
    }

    /// TEST r, r  (set ZF if r == 0)
    pub fn test_reg(&mut self, r: u32)
        ensures
            final(self).code@ == old(self).code@ + enc_test(r),
    {
        self.alu_regs(0x85, r, r);
    }

    /// JMP rel32  (byte_offset = distance from this instruction's start to the target)
    pub fn b(&mut self, byte_offset: i32)
        requires
            byte_offset >= i32::MIN + 5,
        ensures
            final(self).code@ == old(self).code@ + enc_rel(0xE9, byte_offset),
    {
        self.put1(0xE9);
        self.put_le32((byte_offset - 5) as u32);
        assert(self.code@ =~= old(self).code@ + enc_rel(0xE9, byte_offset));
    }

    /// JE rel32  (jump if equal / zero)
    pub fn b_eq(&mut self, byte_offset: i32)
        ensures
            final(self).code@ == old(self).code@ + enc_jcc(0x84, byte_offset),
    {
        self.jcc(0x84, byte_offset);
    }

    /// JNE rel32
    pub fn b_ne(&mut self, byte_offset: i32)
        ensures
            final(self).code@ == old(self).code@ + enc_jcc(0x85, byte_offset),
    {
        self.jcc(0x85, byte_offset);
    }

    /// JL rel32  (signed less-than)
    pub fn b_lt(&mut self, byte_offset: i32)
        ensures
            final(self).code@ == old(self).code@ + enc_jcc(0x8C, byte_offset),
    {
        self.jcc(0x8C, byte_offset);
    }

    /// JGE rel32  (signed greater-or-equal)
    pub fn b_ge(&mut self, byte_offset: i32)
        ensures
            final(self).code@ == old(self).code@ + enc_jcc(0x8D, byte_offset),
    {
        self.jcc(0x8D, byte_offset);
    }

    /// JLE rel32  (signed less-or-equal)
    pub fn b_le(&mut self, byte_offset: i32)
        ensures
            final(self).code@ == old(self).code@ + enc_jcc(0x8E, byte_offset),
    {
        self.jcc(0x8E, byte_offset);
    }

    /// JG rel32  (signed greater-than)
    pub fn b_gt(&mut self, byte_offset: i32)
        ensures
            final(self).code@ == old(self).code@ + enc_jcc(0x8F, byte_offset),
    {
        self.jcc(0x8F, byte_offset);
    }

    /// TEST and JZ rel32
    pub fn cbz(&mut self, r: u32, byte_offset: i32)
        ensures
            final(self).code@ == old(self).code@ + enc_test(r) + enc_jcc(0x84, byte_offset),
    {
        self.test_reg(r);
        self.jcc(0x84, byte_offset);
        assert(self.code@ =~= old(self).code@ + enc_test(r) + enc_jcc(0x84, byte_offset));
    }

    /// TEST and JNZ rel32
    pub fn cbnz(&mut self, r: u32, byte_offset: i32)
        ensures
            final(self).code@ == old(self).code@ + enc_test(r) + enc_jcc(0x85, byte_offset),
    {
        self.test_reg(r);
        self.jcc(0x85, byte_offset);
        assert(self.code@ =~= old(self).code@ + enc_test(r) + enc_jcc(0x85, byte_offset));
    }

    /// CALL rel32  (byte_offset = distance from this instruction's start to the target)
    pub fn bl(&mut self, byte_offset: i32)
        requires
            byte_offset >= i32::MIN + 5,
        ensures
            final(self).code@ == old(self).code@ + enc_rel(0xE8, byte_offset),
    {
        self.put1(0xE8);
        self.put_le32((byte_offset - 5) as u32);
        assert(self.code@ =~= old(self).code@ + enc_rel(0xE8, byte_offset));
    }

    /// RET
    pub fn ret(&mut self)
        ensures
            final(self).code@ == old(self).code@ + seq![0xC3u8],
    {
        self.put1(0xC3);
    }

    /// JAE rel32  (after UCOMISD: not below)
    pub fn b_jae(&mut self, byte_offset: i32)
        ensures
            final(self).code@ == old(self).code@ + enc_jcc(0x83, byte_offset),
    {
        self.jcc(0x83, byte_offset);
    }

    /// JA rel32  (after UCOMISD: above)
    pub fn b_ja(&mut self, byte_offset: i32)
        ensures
            final(self).code@ == old(self).code@ + enc_jcc(0x87, byte_offset),
    {
        self.jcc(0x87, byte_offset);
    }

    /// JBE rel32  (after UCOMISD: not above)
    pub fn b_jbe(&mut self, byte_offset: i32)
        ensures
            final(self).code@ == old(self).code@ + enc_jcc(0x86, byte_offset),
    {
        self.jcc(0x86, byte_offset);
    }

    /// JB rel32  (after UCOMISD: below)
    pub fn b_jb(&mut self, byte_offset: i32)
        ensures
            final(self).code@ == old(self).code@ + enc_jcc(0x82, byte_offset),
    {
        self.jcc(0x82, byte_offset);
    }

    /// ADDSD dst, src  (dst += src)
    pub fn fadd(&mut self, dst: u32, _rn: u32, src: u32)
        ensures
            final(self).code@ == old(self).code@ + enc_sse(0xF2, 0x58, dst, src),
    {
        self.sse2_op(0xF2, 0x58, dst, src);
    }

    /// SUBSD dst, src  (dst -= src)
    pub fn fsub(&mut self, dst: u32, _rn: u32, src: u32)
        ensures
            final(self).code@ == old(self).code@ + enc_sse(0xF2, 0x5C, dst, src),
    {
        self.sse2_op(0xF2, 0x5C, dst, src);
    }

    /// MULSD dst, src  (dst *= src)
    pub fn fmul(&mut self, dst: u32, _rn: u32, src: u32)
        ensures
            final(self).code@ == old(self).code@ + enc_sse(0xF2, 0x59, dst, src),
    {
        self.sse2_op(0xF2, 0x59, dst, src);
    }

    /// DIVSD dst, src  (dst /= src)
    pub fn fdiv(&mut self, dst: u32, _rn: u32, src: u32)
        ensures
            final(self).code@ == old(self).code@ + enc_sse(0xF2, 0x5E, dst, src),
    {
        self.sse2_op(0xF2, 0x5E, dst, src);
    }

    /// UCOMISD a, b  (compare registers, sets CF/ZF/PF)
    pub fn fcmp(&mut self, a: u32, b: u32)
        ensures
            final(self).code@ == old(self).code@ + enc_sse(0x66, 0x2E, a, b),
    {
        self.sse2_op(0x66, 0x2E, a, b);
    }

    /// CVTSI2SD xmm_dst, r64_src  (signed int64 to double)
    pub fn scvtf(&mut self, dst_xmm: u32, src_r64: u32)
        ensures
            final(self).code@ == old(self).code@ + enc_sse_w(0xF2, 0x2A, dst_xmm, src_r64),
    {
        let d: u8 = dst_xmm as u8;
        let s: u8 = src_r64 as u8;
        self.put2(0xF2, rex_rb(d, s));
        self.put3(0x0F, 0x2A, modrm_rr(d, s));
        assert(self.code@ =~= old(self).code@ + enc_sse_w(0xF2, 0x2A, dst_xmm, src_r64));
    }

    /// CVTTSD2SI r64_dst, xmm_src  (double to signed int64, truncate toward zero)
    pub fn fcvtzs(&mut self, dst_r64: u32, src_xmm: u32)
        ensures
            final(self).code@ == old(self).code@ + enc_sse_w(0xF2, 0x2C, dst_r64, src_xmm),
    {
        let d: u8 = dst_r64 as u8;
        let s: u8 = src_xmm as u8;
        self.put2(0xF2, rex_rb(d, s));
        self.put3(0x0F, 0x2C, modrm_rr(d, s));
        assert(self.code@ =~= old(self).code@ + enc_sse_w(0xF2, 0x2C, dst_r64, src_xmm));
    }

    /// MOVQ xmm_dst, r64_src  (move integer bits into XMM register)
    pub fn fmov_to_fp(&mut self, dst_xmm: u32, src_r64: u32)
        ensures
            final(self).code@ == old(self).code@ + enc_sse_w(0x66, 0x6E, dst_xmm, src_r64),
    {
        let d: u8 = dst_xmm as u8;
        let s: u8 = src_r64 as u8;
        self.put2(0x66, rex_rb(d, s));
        self.put3(0x0F, 0x6E, modrm_rr(d, s));
        assert(self.code@ =~= old(self).code@ + enc_sse_w(0x66, 0x6E, dst_xmm, src_r64));
    }

    /// MOVQ r64_dst, xmm_src  (move XMM bits to integer register)
    pub fn fmov_from_fp(&mut self, dst_r64: u32, src_xmm: u32)
        ensures
            final(self).code@ == old(self).code@ + enc_sse_w(0x66, 0x7E, dst_r64, src_xmm),
    {
        let d: u8 = dst_r64 as u8;
        let s: u8 = src_xmm as u8;
        self.put2(0x66, rex_rb(d, s));
        self.put3(0x0F, 0x7E, modrm_rr(d, s));
        assert(self.code@ =~= old(self).code@ + enc_sse_w(0x66, 0x7E, dst_r64, src_xmm));
    }

    /// MOVSD dst_xmm, src_xmm  (copy register)
    pub fn fmov_reg(&mut self, dst: u32, src: u32)
        ensures
            final(self).code@ == old(self).code@ + enc_sse(0xF2, 0x10, dst, src),
    {
        self.sse2_op(0xF2, 0x10, dst, src);
    }

    /// Store to memory: emits nothing, all XMM registers are caller-saved
    pub fn str_fp(&mut self, _rt: u32, _base: u32, _imm: u32)
        ensures
            final(self).code@ == old(self).code@,
    {
    }

    /// Load from memory: emits nothing, all XMM registers are caller-saved
    pub fn ldr_fp(&mut self, _rt: u32, _base: u32, _imm: u32)
        ensures
            final(self).code@ == old(self).code@,
    {
    }

    /// MOV dst, [base + disp]  (64-bit load)
    pub fn ldr_imm(&mut self, dst: u32, base: u32, disp: u32)
        ensures
            final(self).code@ == old(self).code@ + enc_memory(0x8B, dst, base, disp),
    {
        self.mem_op(0x8B, dst, base, disp);
    }

    /// MOV [base + disp], src  (64-bit store)
    pub fn str_imm(&mut self, src: u32, base: u32, disp: u32)
        ensures
            final(self).code@ == old(self).code@ + enc_memory(0x89, src, base, disp),
    {
        self.mem_op(0x89, src, base, disp);
    }

    /// Sign extension: emits nothing, values are natively 64-bit
    pub fn sxtw(&mut self, _dst: u32, _src: u32)
        ensures
            final(self).code@ == old(self).code@,
    {
    }

    /// Patch the branch at `branch_offset` to lead to `target_offset`. The offset may be
    /// that of a JMP, a CALL, a conditional jump, or a TEST followed by one; anything
    /// else is left alone.
    pub fn patch_branch(&mut self, branch_offset: usize, target_offset: usize)
        requires
            branch_offset < old(self).code@.len(),
            branch_operand(
                old(self).code@[branch_offset as int],
                branch_offset as int,
            ) matches Some(
                (at, _),
            ) ==> at + 4 <= old(self).code@.len(),
            branch_offset <= i32::MAX - 9,
            target_offset <= i32::MAX,
        ensures
            final(self).code@ == branch_patched(
                old(self).code@,
                branch_offset as int,
                target_offset as int,
            ),
    {
        let opcode0: u8 = self.code[branch_offset];
        let at: usize;
        let base: usize;
        if opcode0 == 0xE9 || opcode0 == 0xE8 {
            at = branch_offset + 1;
            base = branch_offset + 5;
        } else if opcode0 == 0x0F {
            at = branch_offset + 2;
            base = branch_offset + 6;
        } else if opcode0 == 0x48 || opcode0 == 0x49 || opcode0 == 0x4C || opcode0 == 0x4D {
            at = branch_offset + 5;
            base = branch_offset + 9;
        } else {
            return ;
        }
        let rel32: i32 = (target_offset as i32) - (base as i32);
        let v: u32 = rel32 as u32;
        self.code.set(at, (v & 0xFF) as u8);
        self.code.set(at + 1, ((v >> 8) & 0xFF) as u8);
        self.code.set(at + 2, ((v >> 16) & 0xFF) as u8);
        self.code.set(at + 3, ((v >> 24) & 0xFF) as u8);
    }

    /// Pre-index store pair: emits nothing on this target
    pub fn stp_pre(&mut self, _rt1: u32, _rt2: u32, _rn: u32, _imm7: i32)
        ensures
            final(self).code@ == old(self).code@,
    {
    }

    /// Post-index load pair: emits nothing on this target
    pub fn ldp_post(&mut self, _rt1: u32, _rt2: u32, _rn: u32, _imm7: i32)
        ensures
            final(self).code@ == old(self).code@,
    {
    }

    fn jcc(&mut self, cond: u8, byte_offset: i32)
        ensures
            final(self).code@ == old(self).code@ + enc_jcc(cond, byte_offset),
    {
        self.put2(0x0F, cond);
        self.put_le32(byte_offset as u32);
        assert(self.code@ =~= old(self).code@ + enc_jcc(cond, byte_offset));
    }

    fn emit_alu_imm(&mut self, opext: u8, dst: u8, imm: i64)
        ensures
            final(self).code@ == old(self).code@ + enc_alu_imm(opext, dst, imm),
    {
        let rex: u8 = 0x48 | (dst >> 3);
        let modrm: u8 = 0xC0 | (opext << 3) | (dst & 7);
        if imm >= -128 && imm <= 127 {
            self.put4(rex, 0x83, modrm, imm as u8);
        } else {
            self.put3(rex, 0x81, modrm);
            self.put_le32(imm as u32);
        }
        assert(self.code@ =~= old(self).code@ + enc_alu_imm(opext, dst, imm));
    }

    fn bring(&mut self, dst: u32, rn: u32)
        ensures
            final(self).code@ == old(self).code@ + enc_bring(dst, rn),
    {
        if dst != rn {
            self.mov_reg(dst, rn);
        }
        assert(self.code@ =~= old(self).code@ + enc_bring(dst, rn));
    }

    fn alu_regs(&mut self, opcode: u8, reg: u32, rm: u32)
        ensures
            final(self).code@ == old(self).code@ + enc_alu(opcode, reg, rm),
    {
        let a: u8 = reg as u8;
        let b: u8 = rm as u8;
        self.put3(rex_rb(a, b), opcode, modrm_rr(a, b));
    }

    fn alu_const(&mut self, opext: u8, r: u32, imm: u32)
        ensures
            final(self).code@ == old(self).code@ + enc_alu_const(opext, r, imm),
    {
        if imm <= i32::MAX as u32 {
            self.emit_alu_imm(opext, r as u8, imm as i64);
        } else {
            let scratch: u32 = if r == R11 { RCX } else { R11 };
            let opcode: u8 = if opext == 0 {
                0x03
            } else if opext == 5 {
                0x2B
            } else {
                0x3B
            };
            self.mov_imm64(scratch, imm as u64);
            self.alu_regs(opcode, r, scratch);
        }
        assert(self.code@ =~= old(self).code@ + enc_alu_const(opext, r, imm));
    }

    fn sse2_op(&mut self, prefix: u8, opcode: u8, dst: u32, src: u32)
        ensures
            final(self).code@ == old(self).code@ + enc_sse(prefix, opcode, dst, src),
    {
        let d: u8 = dst as u8;
        let s: u8 = src as u8;
        self.put1(prefix);
        if d >= 8 || s >= 8 {
            self.put1(0x40 | ((d >> 3) << 2) | (s >> 3));
        }
        self.put3(0x0F, opcode, modrm_rr(d, s));
        assert(self.code@ =~= old(self).code@ + enc_sse(prefix, opcode, dst, src));
    }

    fn shift_by_reg(&mut self, dst: u32, cnt: u32, opext: u8)
        ensures
            final(self).code@ == old(self).code@ + enc_shift(opext, dst, cnt),
    {
        let count: u32 = cnt as u8 as u32;
        if count == RCX {
            self.shift_by_cl(dst, opext);
        } else if dst as u8 as u32 == RCX {
            self.alu_regs(0x87, RCX, count);
            self.shift_by_cl(count, opext);
            self.alu_regs(0x87, RCX, count);
        } else {
            self.mov_reg(RCX, count);
            self.shift_by_cl(dst, opext);
        }
        assert(self.code@ =~= old(self).code@ + enc_shift(opext, dst, cnt));
    }

    fn shift_by_cl(&mut self, dst: u32, opext: u8)
        ensures
            final(self).code@ == old(self).code@ + enc_shift_cl(opext, dst),
    {
        let d: u8 = dst as u8;
        self.put3(0x48 | (d >> 3), 0xD3, 0xC0 | (opext << 3) | (d & 7));
    }

    fn idiv_helper(&mut self, ra: u8, rb: u8, want_quotient: bool)
        ensures
            final(self).code@ == old(self).code@ + enc_idiv(ra, rb, want_quotient),
    {
        if ra == 11 {
            self.mov_reg(RCX, rb as u32);
            self.mov_reg(RAX, ra as u32);
            self.put2(0x48, 0x99);
            self.put3(0x48, 0xF7, 0xF9);
        } else {
            self.mov_reg(R11, rb as u32);
            self.mov_reg(RAX, ra as u32);
            self.put2(0x48, 0x99);
            self.put3(0x49, 0xF7, 0xFB);
        }
        if want_quotient {
            self.mov_reg(ra as u32, RAX);
        } else {
            self.mov_reg(ra as u32, RDX);
        }
        assert(self.code@ =~= old(self).code@ + enc_idiv(ra, rb, want_quotient));
    }

    fn mem_op(&mut self, opcode: u8, reg: u32, base: u32, disp: u32)
        ensures
            final(self).code@ == old(self).code@ + enc_memory(opcode, reg, base, disp),
    {
        let r: u8 = reg as u8;
        let b: u8 = base as u8;
        let rex: u8 = rex_rb(r, b);
        if b & 7 == 4 {
            self.put4(rex, opcode, 0x80 | ((r & 7) << 3) | 4, 0x24);
        } else {
            self.put3(rex, opcode, 0x80 | ((r & 7) << 3) | (b & 7));
        }
        self.put_le32(disp);
        assert(self.code@ =~= old(self).code@ + enc_memory(opcode, reg, base, disp));
    }
}

/// Patching a placeholder jump or call gives the very code that emitting it with the
/// final offset would have given.
pub proof fn law_patch_is_emit(code: Seq<u8>, from: int, to: int, call: bool)
    requires
        0 <= from <= code.len(),
        from <= i32::MAX - 9,
        0 <= to <= i32::MAX,
    ensures
        ({
            let opcode = if call { 0xE8u8 } else { 0xE9u8 };
            branch_patched(code.take(from) + enc_rel(opcode, 0) + code.skip(from), from, to)
                == code.take(from) + enc_rel(opcode, (to - from) as i32) + code.skip(from)
        }),
{
    let opcode = if call { 0xE8u8 } else { 0xE9u8 };
    let before = code.take(from) + enc_rel(opcode, 0) + code.skip(from);
    assert(before[from] == opcode);
    assert(branch_patched(before, from, to) =~= code.take(from) + enc_rel(
        opcode,
        (to - from) as i32,
    ) + code.skip(from));
}

/// Patching a TEST with a placeholder conditional jump behind it, of a register below 16,
/// makes the operand of the jump count from its end, nine bytes behind the TEST.
pub proof fn law_patch_zero_test(code: Seq<u8>, from: int, to: int, r: u32, cond: u8)
    requires
        r < 16,
        0 <= from <= code.len(),
        from <= i32::MAX - 9,
        0 <= to <= i32::MAX,
    ensures
        branch_patched(
            code.take(from) + (enc_test(r) + enc_jcc(cond, 0)) + code.skip(from),
            from,
            to,
        ) == code.take(from) + (enc_test(r) + enc_jcc(cond, (to - from - 9) as i32)) + code.skip(
            from,
        ),
{
    let before = code.take(from) + (enc_test(r) + enc_jcc(cond, 0)) + code.skip(from);
    let low = r as u8;
    let rex = rex_w(low, low);
    assert(rex == 0x48 || rex == 0x4D) by (bit_vector)
        requires
            rex == 0x48 | ((low >> 3) << 2) | (low >> 3),
            low < 16,
    ;
    assert(before[from] == rex);
    assert(branch_patched(before, from, to) =~= code.take(from) + (enc_test(r) + enc_jcc(
        cond,
        (to - from - 9) as i32,
    )) + code.skip(from));
}

/// Patching a placeholder conditional jump makes its operand count from the end of its
/// six bytes.
pub proof fn law_patch_conditional(code: Seq<u8>, from: int, to: int, cond: u8)
    requires
        0 <= from <= code.len(),
        from <= i32::MAX - 9,
        0 <= to <= i32::MAX,
    ensures
        branch_patched(code.take(from) + enc_jcc(cond, 0) + code.skip(from), from, to)
            == code.take(from) + enc_jcc(cond, (to - from - 6) as i32) + code.skip(from),
{
    let before = code.take(from) + enc_jcc(cond, 0) + code.skip(from);
    assert(before[from] == 0x0Fu8);
    assert(branch_patched(before, from, to) =~= code.take(from) + enc_jcc(
        cond,
        (to - from - 6) as i32,
    ) + code.skip(from));
}

} // verus!
