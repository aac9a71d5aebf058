//! Minimal ARM64 assembler. Emits raw 32-bit instruction words.
//!
//! Only the instructions needed to compile simple numeric functions are covered.

use vstd::prelude::*;

verus! {

pub const X0: u32 = 0;
pub const X1: u32 = 1;
pub const X2: u32 = 2;
pub const X3: u32 = 3;
pub const X4: u32 = 4;
pub const X5: u32 = 5;
pub const X6: u32 = 6;
pub const X7: u32 = 7;
pub const X8: u32 = 8;
pub const X9: u32 = 9;
/// Callee-saved, used for the first local.
pub const X19: u32 = 19;
/// Callee-saved, used for temporaries.
pub const X20: u32 = 20;
pub const X21: u32 = 21;
pub const X22: u32 = 22;
pub const X23: u32 = 23;
/// Frame pointer.
pub const X29: u32 = 29;
/// Link register (return address).
pub const X30: u32 = 30;
/// Stack pointer (in some encodings).
pub const SP: u32 = 31;
/// Zero register (in other encodings).
pub const XZR: u32 = 31;

/// The little-endian bytes of an instruction word.
pub open spec fn word_bytes(inst: u32) -> Seq<u8> {
    seq![
        (inst & 0xFF) as u8,
        ((inst >> 8) & 0xFF) as u8,
        ((inst >> 16) & 0xFF) as u8,
        ((inst >> 24) & 0xFF) as u8,
    ]
}

/// The instruction word that four bytes spell, little-endian.
pub open spec fn bytes_word(a: u8, b: u8, c: u8, d: u8) -> u32 {
    (a as u32) | ((b as u32) << 8) | ((c as u32) << 16) | ((d as u32) << 24)
}

/// The word at a byte offset of the code.
pub open spec fn word_at(code: Seq<u8>, at: int) -> u32 {
    bytes_word(code[at], code[at + 1], code[at + 2], code[at + 3])
}

/// Three-register form: base word, then Rm, Rn, Rd.
pub open spec fn enc_rrr(base: u32, rd: u32, rn: u32, rm: u32) -> u32 {
    base | (rm << 16) | (rn << 5) | rd
}

/// Register-and-immediate form: base word, imm12, Rn, Rd.
pub open spec fn enc_rri(base: u32, rd: u32, rn: u32, imm12: u32) -> u32 {
    base | ((imm12 & 0xFFF) << 10) | (rn << 5) | rd
}

/// Branch form with a 26-bit word offset.
pub open spec fn enc_imm26(base: u32, byte_offset: i32) -> u32 {
    base | (((byte_offset >> 2) as u32) & 0x3FFFFFF)
}

/// Branch form with a 19-bit word offset and a 5-bit field.
pub open spec fn enc_imm19(base: u32, low: u32, byte_offset: i32) -> u32 {
    base | ((((byte_offset >> 2) as u32) & 0x7FFFF) << 5) | low
}

/// Load/store-pair form: scaled imm7, second register, base register, first register.
pub open spec fn enc_pair(base: u32, rt1: u32, rt2: u32, rn: u32, scaled: i32) -> u32 {
    base | (((scaled as u32) & 0x7F) << 15) | (rt2 << 10) | (rn << 5) | rt1
}

/// Load/store form with an unsigned scaled offset.
pub open spec fn enc_mem(base: u32, rt: u32, rn: u32, scaled: u32) -> u32 {
    base | (scaled << 10) | (rn << 5) | rt
}

/// Move-wide form: half-word index, imm16, Rd.
pub open spec fn enc_wide(base: u32, rd: u32, imm16: u16, hw: u32) -> u32 {
    base | (hw << 21) | ((imm16 as u32) << 5) | rd
}

/// An offset in eight-byte units, rounded toward zero.
pub open spec fn eighths(imm7: i32) -> i32 {
    if imm7 >= 0 {
        (imm7 as int / 8) as i32
    } else {
        (-((-(imm7 as int)) / 8)) as i32
    }
}

/// The words that load a 64-bit immediate: a MOVZ, then a MOVK for each further
/// half-word up to the highest that is needed.
pub open spec fn imm64_words(rd: u32, value: u64) -> Seq<u32> {
    let w0 = seq![enc_movz(rd, (value & 0xFFFF) as u16)];
    let w1 = if value > 0xFFFF {
        w0.push(enc_wide(0xF2800000, rd, ((value >> 16) & 0xFFFF) as u16, 1))
    } else {
        w0
    };
    let w2 = if value > 0xFFFF_FFFF {
        w1.push(enc_wide(0xF2800000, rd, ((value >> 32) & 0xFFFF) as u16, 2))
    } else {
        w1
    };
    if value > 0xFFFF_FFFF_FFFF {
        w2.push(enc_wide(0xF2800000, rd, ((value >> 48) & 0xFFFF) as u16, 3))
    } else {
        w2
    }
}

/// MOVZ of a 16-bit immediate.
pub open spec fn enc_movz(rd: u32, imm16: u16) -> u32 {
    0xD2800000u32 | ((imm16 as u32) << 5) | rd
}

/// MOV between registers.
pub open spec fn enc_mov(rd: u32, rm: u32) -> u32 {
    0xAA0003E0u32 | (rm << 16) | rd
}

/// The bytes of a sequence of words.
pub open spec fn words_bytes(words: Seq<u32>) -> Seq<u8>
    decreases words.len(),
{
    if words.len() == 0 {
        Seq::empty()
    } else {
        words_bytes(words.drop_last()) + word_bytes(words.last())
    }
}

/// A branch word with its offset replaced by `relative` words. B and BL hold 26 bits,
/// the conditional branches 19.
pub open spec fn repointed(existing: u32, relative: u32) -> u32 {
    let opcode = existing & 0xFF000000;
    if opcode == 0x14000000 || opcode == 0x94000000 {
        (existing & 0xFC000000) | (relative & 0x3FFFFFF)
    } else {
        (existing & 0xFF00001F) | ((relative & 0x7FFFF) << 5)
    }
}

/// The distance between two byte offsets in words.
pub open spec fn word_distance(from: int, to: int) -> i32 {
    ((to - from) as i32) >> 2
}

/// The code with the branch at one offset made to lead to another.
pub open spec fn branch_patched(code: Seq<u8>, from: int, to: int) -> Seq<u8> {
    let w = word_bytes(repointed(word_at(code, from), word_distance(from, to) as u32));
    code.update(from, w[0]).update(from + 1, w[1]).update(from + 2, w[2]).update(from + 3, w[3])
}

/// An assembler: the code emitted so far.
pub struct Assembler {
    pub code: Vec<u8>,
}

impl Default for Assembler {
    fn default() -> (out: Self)
        ensures
            out.code@ == Seq::<u8>::empty(),
    {
        Self::new()
    }
}

impl Assembler {
    /// An assembler without code.
    pub fn new() -> (out: Self)
        ensures
            out.code@ == Seq::<u8>::empty(),
    {
        Assembler { code: Vec::with_capacity(1024) }
    }

    /// Emit a raw 32-bit instruction (little-endian).
    fn emit(&mut self, inst: u32)
        ensures
            final(self).code@ == old(self).code@ + word_bytes(inst),
    {
        self.code.push((inst & 0xFF) as u8);
        self.code.push(((inst >> 8) & 0xFF) as u8);
        self.code.push(((inst >> 16) & 0xFF) as u8);
        self.code.push(((inst >> 24) & 0xFF) as u8);
        assert(self.code@ =~= old(self).code@ + word_bytes(inst));
    }

    /// Current offset in bytes (for jump patching).
    pub fn offset(&self) -> (at: usize)
        ensures
            at == self.code@.len(),
    {
        self.code.len()
    }

    /// ADD Xd, Xn, Xm
    pub fn add_reg(&mut self, rd: u32, rn: u32, rm: u32)
        ensures
            final(self).code@ == old(self).code@ + word_bytes(enc_rrr(0x8B000000, rd, rn, rm)),
    {
        self.emit(0x8B000000 | (rm << 16) | (rn << 5) | rd);
    }

    /// ADD Xd, Xn, #imm12
    pub fn add_imm(&mut self, rd: u32, rn: u32, imm12: u32)
        ensures
            final(self).code@ == old(self).code@ + word_bytes(enc_rri(0x91000000, rd, rn, imm12)),
    {
        self.emit(0x91000000 | ((imm12 & 0xFFF) << 10) | (rn << 5) | rd);
    }

    /// SUB Xd, Xn, Xm
    pub fn sub_reg(&mut self, rd: u32, rn: u32, rm: u32)
        ensures
            final(self).code@ == old(self).code@ + word_bytes(enc_rrr(0xCB000000, rd, rn, rm)),
    {
        self.emit(0xCB000000 | (rm << 16) | (rn << 5) | rd);
    }

    /// SUB Xd, Xn, #imm12
    pub fn sub_imm(&mut self, rd: u32, rn: u32, imm12: u32)
        ensures
            final(self).code@ == old(self).code@ + word_bytes(enc_rri(0xD1000000, rd, rn, imm12)),
    {
        self.emit(0xD1000000 | ((imm12 & 0xFFF) << 10) | (rn << 5) | rd);
    }

    /// MUL Xd, Xn, Xm
    pub fn mul(&mut self, rd: u32, rn: u32, rm: u32)
        ensures
            final(self).code@ == old(self).code@ + word_bytes(enc_rrr(0x9B007C00, rd, rn, rm)),
    {
        self.emit(0x9B007C00 | (rm << 16) | (rn << 5) | rd);
    }

    /// SDIV Xd, Xn, Xm
    pub fn sdiv(&mut self, rd: u32, rn: u32, rm: u32)
        ensures
            final(self).code@ == old(self).code@ + word_bytes(enc_rrr(0x9AC00C00, rd, rn, rm)),
    {
        self.emit(0x9AC00C00 | (rm << 16) | (rn << 5) | rd);
    }

    /// AND Xd, Xn, Xm
    pub fn and_reg(&mut self, rd: u32, rn: u32, rm: u32)
        ensures
            final(self).code@ == old(self).code@ + word_bytes(enc_rrr(0x8A000000, rd, rn, rm)),
    {
        self.emit(0x8A000000 | (rm << 16) | (rn << 5) | rd);
    }

    /// ORR Xd, Xn, Xm
    pub fn orr_reg(&mut self, rd: u32, rn: u32, rm: u32)
        ensures
            final(self).code@ == old(self).code@ + word_bytes(enc_rrr(0xAA000000, rd, rn, rm)),
    {
        self.emit(0xAA000000 | (rm << 16) | (rn << 5) | rd);
    }

    /// EOR Xd, Xn, Xm
    pub fn eor_reg(&mut self, rd: u32, rn: u32, rm: u32)
        ensures
            final(self).code@ == old(self).code@ + word_bytes(enc_rrr(0xCA000000, rd, rn, rm)),
    {
        self.emit(0xCA000000 | (rm << 16) | (rn << 5) | rd);
    }

    /// MVN Xd, Xm (alias for ORN Xd, XZR, Xm)
    pub fn mvn(&mut self, rd: u32, rm: u32)
        ensures
            final(self).code@ == old(self).code@ + word_bytes(enc_rrr(0xAA200000, rd, XZR, rm)),
    {
        self.emit(0xAA200000 | (rm << 16) | (XZR << 5) | rd);
    }

    /// LSL Xd, Xn, Xm
    pub fn lsl_reg(&mut self, rd: u32, rn: u32, rm: u32)
        ensures
            final(self).code@ == old(self).code@ + word_bytes(enc_rrr(0x9AC02000, rd, rn, rm)),
    {
        self.emit(0x9AC02000 | (rm << 16) | (rn << 5) | rd);
    }

    /// LSR Xd, Xn, Xm
    pub fn lsr_reg(&mut self, rd: u32, rn: u32, rm: u32)
        ensures
            final(self).code@ == old(self).code@ + word_bytes(enc_rrr(0x9AC02400, rd, rn, rm)),
    {
        self.emit(0x9AC02400 | (rm << 16) | (rn << 5) | rd);
    }

    /// ASR Xd, Xn, Xm
    pub fn asr_reg(&mut self, rd: u32, rn: u32, rm: u32)
        ensures
            final(self).code@ == old(self).code@ + word_bytes(enc_rrr(0x9AC02800, rd, rn, rm)),
    {
        self.emit(0x9AC02800 | (rm << 16) | (rn << 5) | rd);
    }

    /// CMP Xn, Xm (alias for SUBS XZR, Xn, Xm)
    pub fn cmp_reg(&mut self, rn: u32, rm: u32)
        ensures
            final(self).code@ == old(self).code@ + word_bytes(
                0xEB00001Fu32 | (rm << 16) | (rn << 5),
            ),
    {
        self.emit(0xEB00001F | (rm << 16) | (rn << 5));
    }

    /// CMP Xn, #imm12
    pub fn cmp_imm(&mut self, rn: u32, imm12: u32)
        ensures
            final(self).code@ == old(self).code@ + word_bytes(
                0xF100001Fu32 | ((imm12 & 0xFFF) << 10) | (rn << 5),
            ),
    {
        self.emit(0xF100001F | ((imm12 & 0xFFF) << 10) | (rn << 5));
    }

    /// B (unconditional branch, PC-relative)
    /// offset is in bytes, must be aligned to 4
    pub fn b(&mut self, byte_offset: i32)
        ensures
            final(self).code@ == old(self).code@ + word_bytes(enc_imm26(0x14000000, byte_offset)),
    {
        let imm26: u32 = ((byte_offset >> 2) as u32) & 0x3FFFFFF;
        self.emit(0x14000000 | imm26);
    }

    /// B.cond (conditional branch)
    /// Condition codes: EQ=0, NE=1, LT=11, GE=10, LE=13, GT=12
    pub fn b_cond(&mut self, cond: u32, byte_offset: i32)
        ensures
            final(self).code@ == old(self).code@ + word_bytes(
                enc_imm19(0x54000000, cond, byte_offset),
            ),
    {
        let imm19: u32 = ((byte_offset >> 2) as u32) & 0x7FFFF;
        self.emit(0x54000000 | (imm19 << 5) | cond);
    }

    /// CBZ Xt (branch if the register is zero)
    pub fn cbz(&mut self, rt: u32, byte_offset: i32)
        ensures
            final(self).code@ == old(self).code@ + word_bytes(
                enc_imm19(0xB4000000, rt, byte_offset),
            ),
    {
        let imm19: u32 = ((byte_offset >> 2) as u32) & 0x7FFFF;
        self.emit(0xB4000000 | (imm19 << 5) | rt);
    }

    /// B.EQ
    pub fn b_eq(&mut self, byte_offset: i32)
        ensures
            final(self).code@ == old(self).code@ + word_bytes(
                enc_imm19(0x54000000, 0, byte_offset),
            ),
    {
        self.b_cond(0, byte_offset);
    }

    /// B.NE
    pub fn b_ne(&mut self, byte_offset: i32)
        ensures
            final(self).code@ == old(self).code@ + word_bytes(
                enc_imm19(0x54000000, 1, byte_offset),
            ),
    {
        self.b_cond(1, byte_offset);
    }

    /// B.LT (signed less than)
    pub fn b_lt(&mut self, byte_offset: i32)
        ensures
            final(self).code@ == old(self).code@ + word_bytes(
                enc_imm19(0x54000000, 11, byte_offset),
            ),
    {
        self.b_cond(11, byte_offset);
    }

    /// B.GE (signed greater or equal)
    pub fn b_ge(&mut self, byte_offset: i32)
        ensures
            final(self).code@ == old(self).code@ + word_bytes(
                enc_imm19(0x54000000, 10, byte_offset),
            ),
    {
        self.b_cond(10, byte_offset);
    }

    /// B.LE (signed less or equal)
    pub fn b_le(&mut self, byte_offset: i32)
        ensures
            final(self).code@ == old(self).code@ + word_bytes(
                enc_imm19(0x54000000, 13, byte_offset),
            ),
    {
        self.b_cond(13, byte_offset);
    }

    /// B.GT (signed greater than)
    pub fn b_gt(&mut self, byte_offset: i32)
        ensures
            final(self).code@ == old(self).code@ + word_bytes(
                enc_imm19(0x54000000, 12, byte_offset),
            ),
    {
        self.b_cond(12, byte_offset);
    }

    /// BL (branch with link = function call)
    pub fn bl(&mut self, byte_offset: i32)
        ensures
            final(self).code@ == old(self).code@ + word_bytes(enc_imm26(0x94000000, byte_offset)),
    {
        let imm26: u32 = ((byte_offset >> 2) as u32) & 0x3FFFFFF;
        self.emit(0x94000000 | imm26);
    }

    /// BLR Xn (branch to register with link = indirect call)
    pub fn blr(&mut self, rn: u32)
        ensures
            final(self).code@ == old(self).code@ + word_bytes(0xD63F0000u32 | (rn << 5)),
    {
        self.emit(0xD63F0000 | (rn << 5));
    }

    /// RET (return to caller, via X30)
    pub fn ret(&mut self)
        ensures
            final(self).code@ == old(self).code@ + word_bytes(0xD65F03C0),
    {
        self.emit(0xD65F03C0);
    }

    /// MOV Xd, Xm (alias for ORR Xd, XZR, Xm)
    pub fn mov_reg(&mut self, rd: u32, rm: u32)
        ensures
            final(self).code@ == old(self).code@ + word_bytes(enc_mov(rd, rm)),
    {
        self.emit(0xAA0003E0 | (rm << 16) | rd);
    }

    /// MOV Xd, #imm16 (MOVZ: zero-extends, puts imm16 in bits 0-15)
    pub fn movz(&mut self, rd: u32, imm16: u16)
        ensures
            final(self).code@ == old(self).code@ + word_bytes(enc_movz(rd, imm16)),
    {
        self.emit(0xD2800000 | ((imm16 as u32) << 5) | rd);
    }

    /// MOVK Xd, #imm16, LSL #shift (keep other bits, insert imm16 at position)
    pub fn movk(&mut self, rd: u32, imm16: u16, shift: u32)
        ensures
            final(self).code@ == old(self).code@ + word_bytes(
                enc_wide(0xF2800000, rd, imm16, shift / 16),
            ),
    {
        let hw: u32 = shift / 16;
        self.emit(0xF2800000 | (hw << 21) | ((imm16 as u32) << 5) | rd);
    }

    /// Load a full 64-bit immediate into Xd (uses movz + up to 3 movk)
    pub fn mov_imm64(&mut self, rd: u32, value: u64)
        ensures
            final(self).code@ == old(self).code@ + words_bytes(imm64_words(rd, value)),
    {
        proof {
            lemma_imm64_bytes(rd, value);
        }
        self.movz(rd, (value & 0xFFFF) as u16);
        if value > 0xFFFF {
            self.movk(rd, ((value >> 16) & 0xFFFF) as u16, 16);
        }
        if value > 0xFFFF_FFFF {
            self.movk(rd, ((value >> 32) & 0xFFFF) as u16, 32);
        }
        if value > 0xFFFF_FFFF_FFFF {
            self.movk(rd, ((value >> 48) & 0xFFFF) as u16, 48);
        }
        assert(self.code@ =~= old(self).code@ + words_bytes(imm64_words(rd, value)));
    }

    /// STP Xt1, Xt2, [Xn, #imm]! (pre-index store pair: push to stack)
    pub fn stp_pre(&mut self, rt1: u32, rt2: u32, rn: u32, imm7: i32)
        ensures
            final(self).code@ == old(self).code@ + word_bytes(
                enc_pair(0xA9800000, rt1, rt2, rn, eighths(imm7)),
            ),
    {
        let imm: u32 = (Self::in_eighths(imm7) as u32) & 0x7F;
        self.emit(0xA9800000 | (imm << 15) | (rt2 << 10) | (rn << 5) | rt1);
    }

    /// LDP Xt1, Xt2, [Xn], #imm (post-index load pair: pop from stack)
    pub fn ldp_post(&mut self, rt1: u32, rt2: u32, rn: u32, imm7: i32)
        ensures
            final(self).code@ == old(self).code@ + word_bytes(
                enc_pair(0xA8C00000, rt1, rt2, rn, eighths(imm7)),
            ),
    {
        let imm: u32 = (Self::in_eighths(imm7) as u32) & 0x7F;
        self.emit(0xA8C00000 | (imm << 15) | (rt2 << 10) | (rn << 5) | rt1);
    }

    /// A byte offset in eight-byte units.
    fn in_eighths(imm7: i32) -> (scaled: i32)
        ensures
            scaled == eighths(imm7),
    {
        if imm7 >= 0 {
            imm7 / 8
        } else if imm7 == i32::MIN {
            -268435456
        } else {
            -((-imm7) / 8)
        }
    }

    /// STR Xt, [Xn, #imm] (store register, unsigned offset)
    pub fn str_imm(&mut self, rt: u32, rn: u32, imm12: u32)
        ensures
            final(self).code@ == old(self).code@ + word_bytes(
                enc_mem(0xF9000000, rt, rn, imm12 / 8),
            ),
    {
        let scaled: u32 = imm12 / 8;
        self.emit(0xF9000000 | (scaled << 10) | (rn << 5) | rt);
    }

    /// LDR Xt, [Xn, #imm] (load register, unsigned offset)
    pub fn ldr_imm(&mut self, rt: u32, rn: u32, imm12: u32)
        ensures
            final(self).code@ == old(self).code@ + word_bytes(
                enc_mem(0xF9400000, rt, rn, imm12 / 8),
            ),
    {
        let scaled: u32 = imm12 / 8;
        self.emit(0xF9400000 | (scaled << 10) | (rn << 5) | rt);
    }

    /// Patch a branch instruction at `branch_offset` to jump to `target_offset`.
    pub fn patch_branch(&mut self, branch_offset: usize, target_offset: usize)
        requires
            branch_offset + 4 <= old(self).code@.len(),
            branch_offset <= i32::MAX,
            target_offset <= i32::MAX,
        ensures
            final(self).code@ == branch_patched(
                old(self).code@,
                branch_offset as int,
                target_offset as int,
            ),
    {
        let relative: i32 = (target_offset as i32 - branch_offset as i32) >> 2;
        let existing: u32 = (self.code[branch_offset] as u32) | ((self.code[branch_offset + 1]
            as u32) << 8) | (
                (self.code[branch_offset + 2] as u32) << 16
            ) | ((self.code[branch_offset
            + 3] as u32) << 24);
        let opcode: u32 = existing & 0xFF000000;
        let patched: u32 = if opcode == 0x14000000 || opcode == 0x94000000 {
            (existing & 0xFC000000) | ((relative as u32) & 0x3FFFFFF)
        } else {
            (existing & 0xFF00001F) | (((relative as u32) & 0x7FFFF) << 5)
        };
        self.code.set(branch_offset, (patched & 0xFF) as u8);
        self.code.set(branch_offset + 1, ((patched >> 8) & 0xFF) as u8);
        self.code.set(branch_offset + 2, ((patched >> 16) & 0xFF) as u8);
        self.code.set(branch_offset + 3, ((patched >> 24) & 0xFF) as u8);
    }
}

proof fn lemma_words_push(words: Seq<u32>, w: u32)
    ensures
        words_bytes(words.push(w)) == words_bytes(words) + word_bytes(w),
{
    assert(words.push(w).drop_last() =~= words);
}

proof fn lemma_imm64_bytes(rd: u32, value: u64)
    ensures
        forall|words: Seq<u32>, w: u32|
            #[trigger] words_bytes(words.push(w)) == words_bytes(words) + word_bytes(w),
        words_bytes(seq![enc_movz(rd, (value & 0xFFFF) as u16)]) == word_bytes(
            enc_movz(rd, (value & 0xFFFF) as u16),
        ),
{
    assert forall|words: Seq<u32>, w: u32| #[trigger]
        words_bytes(words.push(w)) == words_bytes(words) + word_bytes(w) by {
        lemma_words_push(words, w);
    }
    let w = enc_movz(rd, (value & 0xFFFF) as u16);
    assert(seq![w].drop_last() =~= Seq::<u32>::empty());
    assert(words_bytes(seq![w]) =~= word_bytes(w));
}

/// Reading an emitted word gives it back.
pub proof fn law_word_roundtrip(inst: u32)
    ensures
        ({
            let b = word_bytes(inst);
            bytes_word(b[0], b[1], b[2], b[3]) == inst
        }),
{
    assert(bytes_word(
        (inst & 0xFF) as u8,
        ((inst >> 8) & 0xFF) as u8,
        ((inst >> 16) & 0xFF) as u8,
        ((inst >> 24) & 0xFF) as u8,
    ) == inst) by (bit_vector);
}

/// Patching a placeholder branch gives the very code that emitting the branch with the
/// final offset would have given: for B, for BL, for the conditional branches and CBZ.
pub proof fn law_patch_is_emit(code: Seq<u8>, from: int, to: int, kind: int, low: u32)
    requires
        0 <= from <= code.len(),
        from <= i32::MAX,
        0 <= to <= i32::MAX,
        low < 32,
        kind == 0 || kind == 1 || kind == 2 || kind == 3,
    ensures
        ({
            let word = |offset: i32|
                if kind == 0 {
                    enc_imm26(0x14000000, offset)
                } else if kind == 1 {
                    enc_imm26(0x94000000, offset)
                } else if kind == 2 {
                    enc_imm19(0x54000000, low, offset)
                } else {
                    enc_imm19(0xB4000000, low, offset)
                };
            branch_patched(code.take(from) + word_bytes(word(0)) + code.skip(from), from, to)
                == code.take(from) + word_bytes(word((to - from) as i32)) + code.skip(from)
        }),
{
    let word = |offset: i32|
        if kind == 0 {
            enc_imm26(0x14000000, offset)
        } else if kind == 1 {
            enc_imm26(0x94000000, offset)
        } else if kind == 2 {
            enc_imm19(0x54000000, low, offset)
        } else {
            enc_imm19(0xB4000000, low, offset)
        };
    let before = code.take(from) + word_bytes(word(0)) + code.skip(from);
    let d = (to - from) as i32;
    law_word_roundtrip(word(0));
    assert(word_at(before, from) == word(0));
    let rel = (d >> 2) as u32;
    assert((0i32 >> 2) as u32 == 0) by (bit_vector);
    assert((0u32 & 0x3FFFFFF) == 0 && ((0u32 & 0x7FFFF) << 5) == 0) by (bit_vector);
    if kind == 0 || kind == 1 {
        let base: u32 = if kind == 0 { 0x14000000 } else { 0x94000000 };
        assert((base | 0) & 0xFF000000 == base && (((base | 0) & 0xFC000000) | (rel & 0x3FFFFFF))
            == base | (rel & 0x3FFFFFF)) by (bit_vector)
            requires
                base == 0x14000000 || base == 0x94000000;
        assert(repointed(word(0), rel) == word(d));
    } else {
        let base: u32 = if kind == 2 { 0x54000000 } else { 0xB4000000 };
        assert((base | 0 | low) & 0xFF000000 == base && (((base | 0 | low) & 0xFF00001F) | ((rel
            & 0x7FFFF) << 5)) == base | ((rel & 0x7FFFF) << 5) | low) by (bit_vector)
            requires
                base == 0x54000000 || base == 0xB4000000,
                low < 32;
        assert(repointed(word(0), rel) == word(d));
    }
    assert(branch_patched(before, from, to) =~= code.take(from) + word_bytes(word(d)) + code.skip(
        from,
    ));
}

} // verus!
