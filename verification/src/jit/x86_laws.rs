//! What the x86-64 code of the operations between registers does when it runs.

use vstd::prelude::*;
use crate::jit::arm64;
use crate::jit::x86_64;
use crate::jit::x86_64::RCX;

verus! {

/// The register in the reg field of an instruction.
pub open spec fn reg_field(rex: u8, modrm: u8) -> u8 {
    (((rex >> 2) & 1) << 3) | ((modrm >> 3) & 7)
}

/// The register in the rm field of an instruction.
pub open spec fn rm_field(rex: u8, modrm: u8) -> u8 {
    ((rex & 1) << 3) | (modrm & 7)
}

/// A value shifted as the group that the reg field selects does.
pub open spec fn shifted(group: u8, value: u64, count: u64) -> Option<u64> {
    let n = count & 63;
    if group == 4 {
        Some(value << n)
    } else if group == 5 {
        Some(value >> n)
    } else if group == 7 {
        Some(((value as i64) >> n) as u64)
    } else {
        None
    }
}

/// The sixteen registers behind an instruction of three bytes between two of them.
pub open spec fn step(regs: Seq<u64>, rex: u8, opcode: u8, modrm: u8) -> Option<Seq<u64>> {
    let reg = reg_field(rex, modrm) as int;
    let rm = rm_field(rex, modrm) as int;
    let group = (modrm >> 3) & 7;
    if opcode == 0x8B {
        Some(regs.update(reg, regs[rm]))
    } else if opcode == 0x03 {
        Some(regs.update(reg, regs[reg].wrapping_add(regs[rm])))
    } else if opcode == 0x2B {
        Some(regs.update(reg, regs[reg].wrapping_sub(regs[rm])))
    } else if opcode == 0x21 {
        Some(regs.update(rm, regs[rm] & regs[reg]))
    } else if opcode == 0x09 {
        Some(regs.update(rm, regs[rm] | regs[reg]))
    } else if opcode == 0x31 {
        Some(regs.update(rm, regs[rm] ^ regs[reg]))
    } else if opcode == 0x87 {
        Some(regs.update(reg, regs[rm]).update(rm, regs[reg]))
    } else if opcode == 0xF7 && group == 3 {
        Some(regs.update(rm, 0u64.wrapping_sub(regs[rm])))
    } else if opcode == 0xD3 {
        match shifted(group, regs[rm], regs[RCX as int]) {
            Some(value) => Some(regs.update(rm, value)),
            None => None,
        }
    } else {
        None
    }
}

/// A byte of an immediate, sign-extended.
pub open spec fn extended8(b: u8) -> u64 {
    if b < 0x80 {
        b as u64
    } else {
        (b + 0xFFFF_FFFF_FFFF_FF00) as u64
    }
}

/// Four bytes of an immediate, sign-extended.
pub open spec fn extended32(v: u32) -> u64 {
    if v < 0x8000_0000 {
        v as u64
    } else {
        (v + 0xFFFF_FFFF_0000_0000) as u64
    }
}

/// A register with an immediate added (0) or subtracted (5).
pub open spec fn adjusted(regs: Seq<u64>, rex: u8, modrm: u8, imm: u64) -> Option<Seq<u64>> {
    let rm = rm_field(rex, modrm) as int;
    let group = (modrm >> 3) & 7;
    if group == 0 {
        Some(regs.update(rm, regs[rm].wrapping_add(imm)))
    } else if group == 5 {
        Some(regs.update(rm, regs[rm].wrapping_sub(imm)))
    } else {
        None
    }
}

/// How many bytes an instruction has, by its opcode.
pub open spec fn length(opcode: u8) -> nat {
    if opcode == 0x83 {
        4
    } else if opcode == 0x81 {
        7
    } else if 0xB8 <= opcode <= 0xBF {
        10
    } else {
        3
    }
}

/// The registers behind an instruction.
pub open spec fn executed(regs: Seq<u64>, inst: Seq<u8>) -> Option<Seq<u64>> {
    if inst[1] == 0x83 {
        adjusted(regs, inst[0], inst[2], extended8(inst[3]))
    } else if inst[1] == 0x81 {
        adjusted(regs, inst[0], inst[2], extended32(arm64::word_at(inst, 3)))
    } else if length(inst[1]) == 10 {
        let r = ((inst[0] & 1) << 3) | (inst[1] & 7);
        let value = arm64::word_at(inst, 2) as u64 | ((arm64::word_at(inst, 6) as u64) << 32);
        Some(regs.update(r as int, value))
    } else {
        step(regs, inst[0], inst[1], inst[2])
    }
}

/// The registers once such code has run.
pub open spec fn run(regs: Seq<u64>, code: Seq<u8>) -> Option<Seq<u64>>
    decreases code.len(),
{
    if code.len() == 0 {
        Some(regs)
    } else if code.len() < 3 || code.len() < length(code[1]) {
        None
    } else {
        let n = length(code[1]) as int;
        match executed(regs, code.take(n)) {
            Some(next) => run(next, code.skip(n)),
            None => None,
        }
    }
}

proof fn lemma_fields(reg: u8, rm: u8)
    requires
        reg < 16,
        rm < 16,
    ensures
        reg_field(x86_64::rex_w(reg, rm), x86_64::modrm_regs(reg, rm)) == reg,
        rm_field(x86_64::rex_w(reg, rm), x86_64::modrm_regs(reg, rm)) == rm,
{
    let rex = x86_64::rex_w(reg, rm);
    let modrm = x86_64::modrm_regs(reg, rm);
    assert((((rex >> 2) & 1) << 3) | ((modrm >> 3) & 7) == reg && ((rex & 1) << 3) | (modrm & 7)
        == rm) by (bit_vector)
        requires
            reg < 16,
            rm < 16,
            rex == 0x48u8 | ((reg >> 3) << 2) | (rm >> 3),
            modrm == 0xC0u8 | ((reg & 7) << 3) | (rm & 7),
    ;
}

proof fn lemma_group(group: u8, rm: u8)
    requires
        group < 8,
        rm < 16,
    ensures
        rm_field(0x48u8 | (rm >> 3), 0xC0u8 | (group << 3) | (rm & 7)) == rm,
        ((0xC0u8 | (group << 3) | (rm & 7)) >> 3) & 7 == group,
{
    let rex = 0x48u8 | (rm >> 3);
    let modrm = 0xC0u8 | (group << 3) | (rm & 7);
    assert(((rex & 1) << 3) | (modrm & 7) == rm && (modrm >> 3) & 7 == group) by (bit_vector)
        requires
            group < 8,
            rm < 16,
            rex == 0x48u8 | (rm >> 3),
            modrm == 0xC0u8 | (group << 3) | (rm & 7),
    ;
}

proof fn lemma_run_one(regs: Seq<u64>, first: Seq<u8>, rest: Seq<u8>)
    requires
        first.len() >= 3,
        first.len() == length(first[1]),
    ensures
        run(regs, first + rest) == match executed(regs, first) {
            Some(next) => run(next, rest),
            None => None,
        },
        run(regs, first) == executed(regs, first),
{
    let n = first.len() as int;
    assert((first + rest).take(n) =~= first);
    assert((first + rest).skip(n) =~= rest);
    assert(first.take(n) =~= first);
    assert(first.skip(n) =~= Seq::<u8>::empty());
    reveal_with_fuel(run, 2);
}

proof fn lemma_run_three(regs: Seq<u64>, first: Seq<u8>, rest: Seq<u8>)
    requires
        first.len() == 3,
        length(first[1]) == 3,
    ensures
        run(regs, first + rest) == match step(regs, first[0], first[1], first[2]) {
            Some(next) => run(next, rest),
            None => None,
        },
        run(regs, first) == step(regs, first[0], first[1], first[2]),
{
    lemma_run_one(regs, first, rest);
}

proof fn lemma_run_pair(regs: Seq<u64>, opcode: u8, reg: u32, rm: u32, rest: Seq<u8>)
    requires
        length(opcode) == 3,
        reg < 16,
        rm < 16,
    ensures
        ({
            let code = x86_64::enc_alu(opcode, reg, rm);
            let next = step(regs, code[0], code[1], code[2]);
            &&& reg_field(code[0], code[2]) == reg
            &&& rm_field(code[0], code[2]) == rm
            &&& code[1] == opcode
            &&& run(regs, code) == next
            &&& run(regs, code + rest) == match next {
                Some(regs) => run(regs, rest),
                None => None,
            }
        }),
{
    lemma_fields(reg as u8, rm as u8);
    lemma_run_three(regs, x86_64::enc_alu(opcode, reg, rm), rest);
}

proof fn lemma_bring(regs: Seq<u64>, dst: u32, rn: u32, rest: Seq<u8>)
    requires
        regs.len() == 16,
        dst < 16,
        rn < 16,
    ensures
        run(regs, x86_64::enc_bring(dst, rn) + rest) == run(
            regs.update(dst as int, regs[rn as int]),
            rest,
        ),
{
    if dst != rn {
        assert(x86_64::enc_mov(dst, rn) =~= x86_64::enc_alu(0x8B, dst, rn));
        lemma_run_pair(regs, 0x8B, dst, rn, rest);
    } else {
        assert(x86_64::enc_bring(dst, rn) + rest =~= rest);
        assert(regs.update(dst as int, regs[rn as int]) =~= regs);
    }
}

/// ADD of three registers puts the sum of the last two into the first, whichever of them
/// are the same, and leaves the others alone.
pub proof fn law_add_reg(regs: Seq<u64>, dst: u32, rn: u32, src: u32)
    requires
        regs.len() == 16,
        dst < 16,
        rn < 16,
        src < 16,
    ensures
        run(regs, x86_64::enc_commuting(0x03, dst, rn, src)) == Some(
            regs.update(dst as int, regs[rn as int].wrapping_add(regs[src as int])),
        ),
{
    let sum = regs.update(dst as int, regs[rn as int].wrapping_add(regs[src as int]));
    if dst == src {
        lemma_run_pair(regs, 0x03, dst, rn, Seq::empty());
        assert(regs[rn as int].wrapping_add(regs[src as int]) == regs[src as int].wrapping_add(
            regs[rn as int],
        ));
    } else {
        let brought = regs.update(dst as int, regs[rn as int]);
        lemma_bring(regs, dst, rn, x86_64::enc_alu(0x03, dst, src));
        lemma_run_pair(brought, 0x03, dst, src, Seq::empty());
        assert(brought.update(dst as int, regs[rn as int].wrapping_add(regs[src as int])) =~= sum);
    }
}

/// SUB of three registers puts the difference of the last two into the first, whichever of
/// them are the same, and leaves the others alone.
pub proof fn law_sub_reg(regs: Seq<u64>, dst: u32, rn: u32, src: u32)
    requires
        regs.len() == 16,
        dst < 16,
        rn < 16,
        src < 16,
    ensures
        run(regs, x86_64::enc_sub(dst, rn, src)) == Some(
            regs.update(dst as int, regs[rn as int].wrapping_sub(regs[src as int])),
        ),
{
    let difference = regs.update(dst as int, regs[rn as int].wrapping_sub(regs[src as int]));
    if dst == src && dst != rn {
        let low = dst as u8;
        lemma_group(3, low);
        let negated = regs.update(dst as int, 0u64.wrapping_sub(regs[dst as int]));
        lemma_run_three(regs, x86_64::enc_unary(3, dst), x86_64::enc_alu(0x03, dst, rn));
        lemma_run_pair(negated, 0x03, dst, rn, Seq::empty());
        assert(negated.update(
            dst as int,
            negated[dst as int].wrapping_add(negated[rn as int]),
        ) =~= difference);
    } else {
        let brought = regs.update(dst as int, regs[rn as int]);
        lemma_bring(regs, dst, rn, x86_64::enc_alu(0x2B, dst, src));
        lemma_run_pair(brought, 0x2B, dst, src, Seq::empty());
        assert(brought.update(
            dst as int,
            brought[dst as int].wrapping_sub(brought[src as int]),
        ) =~= difference);
    }
}

/// AND, OR and XOR of two values, by their opcode.
pub open spec fn bitwise(opcode: u8, a: u64, b: u64) -> u64 {
    if opcode == 0x21 {
        a & b
    } else if opcode == 0x09 {
        a | b
    } else {
        a ^ b
    }
}

/// AND, OR and XOR of three registers put the result for the last two into the first,
/// whichever of them are the same, and leave the others alone.
pub proof fn law_bitwise_reg(regs: Seq<u64>, opcode: u8, dst: u32, rn: u32, src: u32)
    requires
        opcode == 0x21 || opcode == 0x09 || opcode == 0x31,
        regs.len() == 16,
        dst < 16,
        rn < 16,
        src < 16,
    ensures
        run(regs, x86_64::enc_commuting_rm(opcode, dst, rn, src)) == Some(
            regs.update(dst as int, bitwise(opcode, regs[rn as int], regs[src as int])),
        ),
{
    let a = regs[rn as int];
    let b = regs[src as int];
    let result = regs.update(dst as int, bitwise(opcode, a, b));
    assert(a & b == b & a && a | b == b | a && a ^ b == b ^ a) by (bit_vector);
    if dst == src {
        lemma_run_pair(regs, opcode, rn, dst, Seq::empty());
    } else {
        let brought = regs.update(dst as int, a);
        lemma_bring(regs, dst, rn, x86_64::enc_alu(opcode, src, dst));
        lemma_run_pair(brought, opcode, src, dst, Seq::empty());
        assert(brought.update(dst as int, bitwise(opcode, a, b)) =~= result);
    }
}

/// A shift by register leaves the value shifted by the count in its register, wherever the
/// two stand. RCX takes part as the count register; the others are left alone.
pub proof fn law_shift_reg(regs: Seq<u64>, group: u8, dst: u32, cnt: u32)
    requires
        group == 4 || group == 5 || group == 7,
        regs.len() == 16,
        dst < 16,
        cnt < 16,
    ensures
        ({
            let end = run(regs, x86_64::enc_shift(group, dst, cnt));
            &&& end is Some
            &&& end->0.len() == 16
            &&& Some(end->0[dst as int]) == shifted(group, regs[dst as int], regs[cnt as int])
            &&& forall|r: int|
                0 <= r < 16 && r != dst && r != RCX ==> #[trigger] end->0[r] == regs[r]
        }),
{
    let rest = x86_64::enc_shift_cl(group, dst);
    if cnt == RCX {
        lemma_group(group, dst as u8);
        lemma_run_three(regs, rest, Seq::empty());
    } else if dst == RCX {
        let swap = x86_64::enc_alu(0x87, RCX, cnt);
        let shift = x86_64::enc_shift_cl(group, cnt);
        assert(swap + shift + swap =~= swap + (shift + swap));
        lemma_run_pair(regs, 0x87, RCX, cnt, shift + swap);
        let swapped = regs.update(RCX as int, regs[cnt as int]).update(
            cnt as int,
            regs[RCX as int],
        );
        lemma_group(group, cnt as u8);
        lemma_run_three(swapped, shift, swap);
        let value = shifted(group, regs[dst as int], regs[cnt as int])->0;
        let after = swapped.update(cnt as int, value);
        lemma_run_pair(after, 0x87, RCX, cnt, Seq::empty());
    } else {
        assert(x86_64::enc_mov(RCX, cnt) =~= x86_64::enc_alu(0x8B, RCX, cnt));
        lemma_run_pair(regs, 0x8B, RCX, cnt, rest);
        let brought = regs.update(RCX as int, regs[cnt as int]);
        lemma_group(group, dst as u8);
        lemma_run_three(brought, rest, Seq::empty());
    }
}

proof fn lemma_load(regs: Seq<u64>, r: u32, imm: u32, rest: Seq<u8>)
    requires
        r < 16,
        imm > i32::MAX,
    ensures
        run(regs, x86_64::enc_imm64(r, imm as u64) + rest) == run(
            regs.update(r as int, imm as u64),
            rest,
        ),
{
    let d = r as u8;
    let value = imm as u64;
    let code = x86_64::enc_imm64(r, value);
    let low = (value & 0xFFFF_FFFF) as u32;
    let high = (value >> 32) as u32;
    assert(value as i64 > 0x7FFF_FFFF && low == imm && high == 0 && imm as u64 | (0u64 << 32)
        == value) by (bit_vector)
        requires
            value == imm as u64,
            imm > 0x7FFF_FFFF,
            low == (value & 0xFFFF_FFFF) as u32,
            high == (value >> 32) as u32,
    ;
    let rex = 0x48u8 | (d >> 3);
    let field = d & 7;
    assert(field < 8) by (bit_vector)
        requires
            field == d & 7,
    ;
    let opcode = (0xB8 + field) as u8;
    assert(((rex & 1) << 3) | (opcode & 7) == d) by (bit_vector)
        requires
            d < 16,
            rex == 0x48u8 | (d >> 3),
            field == d & 7,
            opcode == 0xB8 + field,
    ;
    arm64::law_word_roundtrip(low);
    arm64::law_word_roundtrip(high);
    assert(arm64::word_at(code, 2) == low);
    assert(arm64::word_at(code, 6) == high);
    lemma_run_one(regs, code, rest);
}

/// ADD and SUB of an unsigned constant (0 and 5) put the sum or the difference into the
/// destination. A constant that no immediate holds goes through a scratch register, and the
/// other registers are left alone.
pub proof fn law_const(regs: Seq<u64>, opext: u8, dst: u32, rn: u32, imm: u32)
    requires
        opext == 0 || opext == 5,
        regs.len() == 16,
        dst < 16,
        rn < 16,
    ensures
        ({
            let code = x86_64::enc_bring(dst, rn) + x86_64::enc_alu_const(opext, dst, imm);
            &&& run(regs, code) matches Some(end) && end.len() == 16 && end[dst as int] == (
            if opext == 0 {
                regs[rn as int].wrapping_add(imm as u64)
            } else {
                regs[rn as int].wrapping_sub(imm as u64)
            }) && forall|r: int|
                0 <= r < 16 && r != dst && (r != x86_64::scratch_beside(dst) || imm <= i32::MAX)
                    ==> #[trigger] end[r] == regs[r]
        }),
{
    let tail = x86_64::enc_alu_const(opext, dst, imm);
    let brought = regs.update(dst as int, regs[rn as int]);
    lemma_bring(regs, dst, rn, tail);
    if imm <= i32::MAX {
        lemma_group(opext, dst as u8);
        let wide = imm as i64;
        if imm <= 127 {
            assert(wide as u8 == imm) by (bit_vector)
                requires
                    wide == imm as i64,
                    imm <= 127,
            ;
        } else {
            assert(wide as u32 == imm) by (bit_vector)
                requires
                    wide == imm as i64,
            ;
            arm64::law_word_roundtrip(imm);
            assert(arm64::word_at(tail, 3) == imm);
        }
        lemma_run_one(brought, tail, Seq::empty());
    } else {
        let scratch = x86_64::scratch_beside(dst);
        let operation = x86_64::enc_alu(x86_64::alu_opcode(opext), dst, scratch);
        lemma_load(brought, scratch, imm, operation);
        let loaded = brought.update(scratch as int, imm as u64);
        lemma_run_pair(loaded, x86_64::alu_opcode(opext), dst, scratch, Seq::empty());
    }
}

} // verus!
