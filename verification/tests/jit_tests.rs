use zinc::compiler::chunk::Chunk;
use zinc::compiler::opcode::OpCode;
use zinc::jit::arm64;
use zinc::jit::arm64::{
    SP, X0, X1, X19, X2, X20, X21, X22, X23, X29, X3, X30,
};
use zinc::jit::compiler::{jit_compile, JitFunction};
use zinc::jit::x86_64;
use zinc::jit::x86_64::{R10, R11, R12, R13, R8, RAX, RBP, RBX, RCX, RDI, RDX, RSP, XMM0, XMM1, XMM9};
use zinc::runtime::value::Value;
use zinc::util::interner::StringId;

fn chunk(params: u16, locals: u16) -> Chunk {
    let mut chunk = Chunk::new(StringId(0), StringId(0));
    chunk.param_count = params;
    chunk.local_count = locals;
    chunk
}

fn compile(chunk: &Chunk) -> Option<JitFunction> {
    jit_compile(chunk, &[])
}

fn words(code: &[u8]) -> Vec<u32> {
    assert_eq!(code.len() % 4, 0);
    code.chunks(4).map(|w| u32::from_le_bytes([w[0], w[1], w[2], w[3]])).collect()
}

#[test]
fn arm64_encodings() {
    let mut out = arm64::Assembler::new();
    out.add_reg(X0, X1, X2);
    out.add_imm(X0, X1, 5);
    out.sub_reg(X0, X1, X2);
    out.sub_imm(X0, X1, 5);
    out.mul(X0, X1, X2);
    out.sdiv(X0, X1, X2);
    out.and_reg(X0, X1, X2);
    out.orr_reg(X0, X1, X2);
    out.eor_reg(X0, X1, X2);
    out.mvn(X0, X1);
    out.lsl_reg(X0, X1, X2);
    out.lsr_reg(X0, X1, X2);
    out.asr_reg(X0, X1, X2);
    out.cmp_reg(X1, X2);
    out.cmp_imm(X1, 7);
    out.b(8);
    out.b(-4);
    out.b_eq(8);
    out.b_ne(8);
    out.b_lt(8);
    out.b_ge(8);
    out.b_le(8);
    out.b_gt(8);
    out.bl(-16);
    out.blr(X3);
    out.ret();
    out.mov_reg(X0, X19);
    out.mov_reg(X29, SP);
    out.movz(X0, 42);
    out.movk(X0, 0x1234, 16);
    out.cbz(X19, 12);
    out.stp_pre(X29, X30, SP, -48);
    out.ldp_post(X29, X30, SP, 48);
    out.str_imm(X19, SP, 16);
    out.ldr_imm(X19, SP, 16);
    assert_eq!(
        words(&out.code),
        vec![
            0x8B020020, 0x91001420, 0xCB020020, 0xD1001420, 0x9B027C20, 0x9AC20C20, 0x8A020020,
            0xAA020020, 0xCA020020, 0xAA2103E0, 0x9AC22020, 0x9AC22420, 0x9AC22820, 0xEB02003F,
            0xF1001C3F, 0x14000002, 0x17FFFFFF, 0x54000040, 0x54000041, 0x5400004B, 0x5400004A,
            0x5400004D, 0x5400004C, 0x97FFFFFC, 0xD63F0060, 0xD65F03C0, 0xAA1303E0, 0xAA1F03FD,
            0xD2800540, 0xF2A24680, 0xB4000073, 0xA9BD7BFD, 0xA8C37BFD, 0xF9000BF3, 0xF9400BF3,
        ]
    );
}

#[test]
fn arm64_wide_immediates_and_patches() {
    let mut out = arm64::Assembler::default();
    out.mov_imm64(X0, 0x0000_5678_0000_1234);
    assert_eq!(words(&out.code), vec![0xD2824680, 0xF2A00000, 0xF2CACF00]);
    let mut out = arm64::Assembler::new();
    out.b(0);
    out.b_lt(0);
    out.cbz(X0, 0);
    assert_eq!(out.offset(), 12);
    out.patch_branch(0, 12);
    out.patch_branch(4, 12);
    out.patch_branch(8, 0);
    let mut expected = arm64::Assembler::new();
    expected.b(12);
    expected.b_lt(8);
    expected.cbz(X0, -8);
    assert_eq!(out.code, expected.code);
}

#[test]
fn x86_64_encodings() {
    let mut out = x86_64::Assembler::new();
    out.push_reg(RBP);
    out.push_reg(R12);
    out.pop_reg(R12);
    out.mov_rbp_rsp();
    out.sub_rsp_imm8(16);
    out.add_rsp_imm8(16);
    out.mov_reg(RAX, RDI);
    out.mov_reg(R8, RAX);
    assert_eq!(
        out.code,
        vec![
            0x55, 0x41, 0x54, 0x41, 0x5C, 0x48, 0x89, 0xE5, 0x48, 0x83, 0xEC, 0x10, 0x48, 0x83,
            0xC4, 0x10, 0x48, 0x8B, 0xC7, 0x4C, 0x8B, 0xC0,
        ]
    );
    let mut out = x86_64::Assembler::default();
    out.add_reg(RAX, RAX, RCX);
    out.add_reg(RAX, RBX, RCX);
    out.sub_imm(RAX, RAX, 1);
    out.add_imm(RAX, RAX, 1000);
    out.cmp_reg(RAX, RCX);
    out.cmp_imm(RAX, 5);
    out.test_reg(RAX);
    out.neg_reg(RAX);
    out.mvn(RAX, RAX);
    out.ret();
    assert_eq!(
        out.code,
        vec![
            0x48, 0x03, 0xC1, 0x48, 0x8B, 0xC3, 0x48, 0x03, 0xC1, 0x48, 0x83, 0xE8, 0x01, 0x48,
            0x81, 0xC0, 0xE8, 0x03, 0x00, 0x00, 0x48, 0x3B, 0xC1, 0x48, 0x83, 0xF8, 0x05, 0x48,
            0x85, 0xC0, 0x48, 0xF7, 0xD8, 0x48, 0xF7, 0xD0, 0xC3,
        ]
    );
}

#[test]
fn x86_64_tests_and_jumps() {
    let mut out = x86_64::Assembler::new();
    out.inc_reg(RAX);
    out.dec_reg(RAX);
    out.cbnz(RCX, 16);
    out.b_ja(1);
    out.b_jae(2);
    out.b_jbe(-1);
    out.b_jb(3);
    assert_eq!(
        out.code,
        vec![
            0x48, 0x83, 0xC0, 0x01, 0x48, 0x83, 0xE8, 0x01, 0x48, 0x85, 0xC9, 0x0F, 0x85, 16, 0, 0,
            0, 0x0F, 0x87, 1, 0, 0, 0, 0x0F, 0x83, 2, 0, 0, 0, 0x0F, 0x86, 0xFF, 0xFF, 0xFF, 0xFF,
            0x0F, 0x82, 3, 0, 0, 0,
        ]
    );
}

#[test]
fn x86_64_memory_forms() {
    let mut out = x86_64::Assembler::new();
    out.ldr_imm(RAX, RBP, 8);
    out.str_imm(RAX, RBP, 8);
    out.ldr_imm(R10, RSP, 16);
    assert_eq!(
        out.code,
        vec![
            0x48, 0x8B, 0x85, 8, 0, 0, 0, 0x48, 0x89, 0x85, 8, 0, 0, 0, 0x4C, 0x8B, 0x94, 0x24, 16,
            0, 0, 0,
        ]
    );
    let before = out.code.clone();
    out.sxtw(RAX, RAX);
    out.stp_pre(RAX, RCX, RDX, 1);
    out.ldp_post(RAX, RCX, RDX, 1);
    out.str_fp(XMM0, RAX, 1);
    out.ldr_fp(XMM0, RAX, 1);
    assert_eq!(out.code, before);
}

#[test]
fn x86_64_floating_point_forms() {
    let mut out = x86_64::Assembler::new();
    out.fadd(XMM0, XMM0, XMM1);
    out.fsub(XMM0, XMM0, XMM1);
    out.fmul(XMM0, XMM0, XMM1);
    out.fdiv(XMM0, XMM0, XMM1);
    assert_eq!(
        out.code,
        vec![
            0xF2, 0x0F, 0x58, 0xC1, 0xF2, 0x0F, 0x5C, 0xC1, 0xF2, 0x0F, 0x59, 0xC1, 0xF2, 0x0F,
            0x5E, 0xC1,
        ]
    );
    let mut out = x86_64::Assembler::new();
    out.fadd(XMM9, XMM9, XMM1);
    out.fcmp(XMM0, XMM1);
    out.scvtf(XMM0, RAX);
    out.fcvtzs(RAX, XMM0);
    out.fmov_to_fp(XMM0, RAX);
    out.fmov_from_fp(RAX, XMM0);
    assert_eq!(
        out.code,
        vec![
            0xF2, 0x44, 0x0F, 0x58, 0xC9, 0x66, 0x0F, 0x2E, 0xC1, 0xF2, 0x48, 0x0F, 0x2A, 0xC0,
            0xF2, 0x48, 0x0F, 0x2C, 0xC0, 0x66, 0x48, 0x0F, 0x6E, 0xC0, 0x66, 0x48, 0x0F, 0x7E,
            0xC0,
        ]
    );
}

#[test]
fn x86_64_branches_are_patched() {
    let mut out = x86_64::Assembler::new();
    out.b(0);
    let lt = out.offset();
    out.b_lt(0);
    let cbz = out.offset();
    out.cbz(R13, 0);
    let call = out.offset();
    out.bl(0);
    let end = out.offset();
    out.patch_branch(0, end);
    out.patch_branch(lt, end);
    out.patch_branch(cbz, 0);
    out.patch_branch(call, 0);
    let read = |at: usize| {
        i32::from_le_bytes([out.code[at], out.code[at + 1], out.code[at + 2], out.code[at + 3]])
    };
    assert_eq!(out.code[0], 0xE9);
    assert_eq!(read(1), end as i32 - 5);
    assert_eq!(&out.code[lt..lt + 2], &[0x0F, 0x8C]);
    assert_eq!(read(lt + 2), end as i32 - (lt as i32 + 6));
    assert_eq!(read(cbz + 5), -(cbz as i32 + 9));
    assert_eq!(out.code[call], 0xE8);
    assert_eq!(read(call + 1), -(call as i32 + 5));
}

/// function f(n) { if (n <= K) return n; return f(n - A) + f(n - B); }
fn fibonacci(le: bool, constants: &[i32]) -> Chunk {
    let mut c = chunk(1, 1);
    let mut next = 0;
    let mut push = |c: &mut Chunk| {
        let index = c.add_constant(Value::Int(constants[next]));
        next += 1;
        c.emit_op_u16(OpCode::Const, index, 1);
    };
    c.emit_op_u8(OpCode::GetLocal, 0, 1);
    push(&mut c);
    c.emit_op(if le { OpCode::Le } else { OpCode::Lt }, 1);
    let over = c.emit_jump(OpCode::JumpIfFalse, 1);
    c.emit_op_u8(OpCode::GetLocal, 0, 1);
    c.emit_op(OpCode::Return, 1);
    c.patch_jump(over);
    c.emit_op_u16(OpCode::GetGlobal, 0, 1);
    c.emit_op_u8(OpCode::GetLocal, 0, 1);
    push(&mut c);
    c.emit_op(OpCode::Sub, 1);
    c.emit_op_u8(OpCode::Call, 1, 1);
    c.emit_op_u16(OpCode::GetGlobal, 0, 1);
    c.emit_op_u8(OpCode::GetLocal, 0, 1);
    push(&mut c);
    c.emit_op(OpCode::Sub, 1);
    c.emit_op_u8(OpCode::Call, 1, 1);
    c.emit_op(OpCode::Add, 1);
    c.emit_op(OpCode::Return, 1);
    c
}

#[test]
fn binary_recursion_is_compiled() {
    let function = compile(&fibonacci(true, &[1, 1, 2])).unwrap();
    assert_eq!(function.param_count(), 1);
    let mut out = arm64::Assembler::new();
    out.stp_pre(X29, X30, SP, -48);
    out.mov_reg(X29, SP);
    out.str_imm(X19, SP, 16);
    out.str_imm(X20, SP, 24);
    out.mov_reg(X19, X0);
    out.cmp_imm(X19, 1);
    let branch = out.offset();
    out.b_le(0);
    out.sub_imm(X0, X19, 1);
    let call1 = out.offset();
    out.bl(-(call1 as i32));
    out.mov_reg(X20, X0);
    out.sub_imm(X0, X19, 2);
    let call2 = out.offset();
    out.bl(-(call2 as i32));
    out.add_reg(X0, X20, X0);
    for base in [false, true] {
        if base {
            let target = out.offset();
            out.mov_reg(X0, X19);
            out.patch_branch(branch, target);
        }
        out.ldr_imm(X19, SP, 16);
        out.ldr_imm(X20, SP, 24);
        out.ldp_post(X29, X30, SP, 48);
        out.ret();
    }
    assert_eq!(function.machine_code(), &out.code);
}

#[test]
fn strict_comparison_in_binary_recursion() {
    let function = compile(&fibonacci(false, &[2, 1, 2])).unwrap();
    let code = words(function.machine_code());
    assert_eq!(code[5], 0xF1000A7F); // cmp x19, #2
    assert_eq!(code[6] & 0xF, 0xB); // b.lt
}

#[test]
fn ackermann_and_takeuchi_are_compiled() {
    let mut ack = chunk(2, 2);
    ack.emit_op(OpCode::StrictEq, 1);
    ack.emit_op_u8(OpCode::Call, 2, 1);
    ack.emit_op_u8(OpCode::Call, 2, 1);
    ack.emit_op(OpCode::Return, 1);
    let function = compile(&ack).unwrap();
    assert_eq!(function.param_count(), 2);
    let code = words(function.machine_code());
    assert_eq!(code.len(), 34);
    assert_eq!(code[0], 0xA9BC7BFD); // stp x29, x30, [sp, #-64]!
    assert_eq!(code[7] & 0xFF00001F, 0xB4000013); // cbz x19
    assert_eq!(code[8] & 0xFF00001F, 0xB4000014); // cbz x20
    assert_eq!(*code.last().unwrap(), 0xD65F03C0); // ret

    let mut tak = chunk(3, 3);
    tak.emit_op(OpCode::Ge, 1);
    for _ in 0..4 {
        tak.emit_op_u8(OpCode::Call, 3, 1);
    }
    let function = compile(&tak).unwrap();
    assert_eq!(function.param_count(), 3);
    let code = words(function.machine_code());
    assert_eq!(code[0], 0xA9BB7BFD); // stp x29, x30, [sp, #-80]!
    assert_eq!(code[10], 0xEB13029F); // cmp x20, x19
    assert_eq!(code[11] & 0xF, 0xA); // b.ge
}

#[test]
fn loops_are_compiled() {
    // let s = 0; while (s < n) s = s + 1; return s;
    let mut c = chunk(1, 2);
    c.emit_op(OpCode::Zero, 1);
    let start = c.len();
    c.emit_op_u8(OpCode::GetLocal, 1, 1);
    c.emit_op_u8(OpCode::GetLocal, 0, 1);
    c.emit_op(OpCode::Lt, 1);
    let exit = c.emit_jump(OpCode::JumpIfFalse, 1);
    c.emit_op_u8(OpCode::GetLocal, 1, 1);
    let one = c.add_constant(Value::Int(1));
    c.emit_op_u16(OpCode::Const, one, 1);
    c.emit_op(OpCode::Add, 1);
    c.emit_op_u8(OpCode::SetLocal, 1, 1);
    c.emit_op(OpCode::Pop, 1);
    c.emit_loop(start, 1);
    c.patch_jump(exit);
    c.emit_op_u8(OpCode::GetLocal, 1, 1);
    c.emit_op(OpCode::Return, 1);
    let function = compile(&c).unwrap();
    assert_eq!(function.param_count(), 1);

    let mut out = arm64::Assembler::new();
    out.stp_pre(X29, X30, SP, -64);
    out.mov_reg(X29, SP);
    out.str_imm(X19, SP, 16);
    out.str_imm(X20, SP, 24);
    out.str_imm(X21, SP, 32);
    out.str_imm(X22, SP, 40);
    out.str_imm(X23, SP, 48);
    out.mov_reg(X19, X0);
    out.movz(X20, 0);
    let top = out.offset();
    out.mov_reg(X21, X20);
    out.mov_reg(X22, X19);
    out.cmp_reg(X21, X22);
    let branch = out.offset();
    out.b_ge(0);
    out.mov_reg(X21, X20);
    out.movz(X22, 1);
    out.add_reg(X21, X21, X22);
    out.mov_reg(X20, X21);
    let here = out.offset();
    out.b(top as i32 - here as i32);
    let target = out.offset();
    out.mov_reg(X21, X20);
    out.mov_reg(X0, X21);
    out.ldr_imm(X19, SP, 16);
    out.ldr_imm(X20, SP, 24);
    out.ldr_imm(X21, SP, 32);
    out.ldr_imm(X22, SP, 40);
    out.ldr_imm(X23, SP, 48);
    out.ldp_post(X29, X30, SP, 64);
    out.ret();
    out.patch_branch(branch, target);
    assert_eq!(function.machine_code(), &out.code);
}

#[test]
fn wide_and_fractional_constants_in_loops() {
    let mut c = chunk(0, 1);
    let wide = c.add_constant(Value::Int(-1));
    c.emit_op_u16(OpCode::Const, wide, 1);
    let fraction = c.add_constant(Value::Number(2.75f64.to_bits()));
    c.emit_op_u16(OpCode::Const, fraction, 1);
    let start = c.len();
    c.emit_loop(start, 1);
    let code = compile(&c).unwrap();
    let code = words(code.machine_code());
    let mut out = arm64::Assembler::new();
    out.mov_imm64(X19, u64::MAX);
    out.movz(X20, 2);
    let expected = words(&out.code);
    assert_eq!(&code[7..7 + expected.len()], &expected[..]);
}

#[test]
fn what_cannot_be_compiled() {
    assert!(compile(&chunk(0, 0)).is_none());
    // an object in the way
    let mut c = chunk(1, 1);
    c.emit_op(OpCode::CreateObject, 1);
    assert!(compile(&c).is_none());
    // no opcode at all
    let mut c = chunk(1, 1);
    c.emit_byte(0x09, 1);
    assert!(compile(&c).is_none());
    // a jump that leads nowhere
    let mut c = chunk(0, 1);
    let start = c.len();
    c.emit_op_u16(OpCode::Jump, 100, 1);
    c.emit_loop(start, 1);
    assert!(compile(&c).is_none());
    // a constant that is no number
    let mut c = chunk(0, 1);
    let text = c.add_constant(Value::string(StringId(0)));
    c.emit_op_u16(OpCode::Const, text, 1);
    c.emit_loop(0, 1);
    assert!(compile(&c).is_none());
    // too many locals
    let mut c = chunk(0, 6);
    c.emit_loop(0, 1);
    assert!(compile(&c).is_none());
    // a stack beyond the registers
    let mut c = chunk(0, 1);
    for _ in 0..13 {
        c.emit_op(OpCode::One, 1);
    }
    c.emit_loop(0, 1);
    assert!(compile(&c).is_none());
    // an instruction that is cut off
    let mut c = chunk(0, 1);
    c.emit_loop(0, 1);
    c.emit_byte(OpCode::Const.to_byte(), 1);
    assert!(compile(&c).is_none());
}

#[test]
fn constants_of_recursions_must_fit() {
    assert!(compile(&fibonacci(true, &[4095, 1, 4095])).is_some());
    for constants in [[4096, 1, 2], [-1, 1, 2], [1, 4096, 2], [1, 1, -2]] {
        assert!(compile(&fibonacci(true, &constants)).is_none(), "{:?}", constants);
    }
    // four constants: the second is the result of the base case
    for (base, fits) in [(65535, true), (65536, false), (-1, false)] {
        let mut c = chunk(1, 1);
        for v in [2, base, 1, 2] {
            let index = c.add_constant(Value::Int(v));
            c.emit_op_u16(OpCode::Const, index, 1);
        }
        c.emit_op_u8(OpCode::Call, 1, 1);
        c.emit_op_u8(OpCode::Call, 1, 1);
        c.emit_op(OpCode::Add, 1);
        assert_eq!(compile(&c).is_some(), fits);
    }
}

#[test]
fn a_cut_off_end_does_not_hide_a_recursion() {
    let whole = fibonacci(true, &[1, 1, 2]);
    let mut cut = fibonacci(true, &[1, 1, 2]);
    cut.emit_byte(OpCode::Jump.to_byte(), 1);
    assert_eq!(
        compile(&cut).unwrap().machine_code(),
        compile(&whole).unwrap().machine_code()
    );
    let mut cut = fibonacci(true, &[1, 1, 2]);
    cut.emit_byte(OpCode::Const.to_byte(), 1);
    assert!(compile(&cut).is_none());
}

#[test]
fn x86_64_operands_are_read_before_the_result_is_written() {
    let mut out = x86_64::Assembler::new();
    out.sub_reg(RAX, RBX, RAX);
    assert_eq!(out.code, vec![0x48, 0xF7, 0xD8, 0x48, 0x03, 0xC3]);
    let mut out = x86_64::Assembler::new();
    out.sub_reg(RAX, RAX, RAX);
    assert_eq!(out.code, vec![0x48, 0x2B, 0xC0]);
    let mut out = x86_64::Assembler::new();
    out.add_reg(RAX, RBX, RAX);
    assert_eq!(out.code, vec![0x48, 0x03, 0xC3]);
    let mut out = x86_64::Assembler::new();
    out.and_reg(RAX, RBX, RAX);
    out.orr_reg(RAX, RBX, RAX);
    out.eor_reg(RAX, RBX, RAX);
    assert_eq!(out.code, vec![0x48, 0x21, 0xD8, 0x48, 0x09, 0xD8, 0x48, 0x31, 0xD8]);
    let mut out = x86_64::Assembler::new();
    out.lsl_reg(RCX, RCX, RBX);
    assert_eq!(out.code, vec![0x48, 0x87, 0xCB, 0x48, 0xD3, 0xE3, 0x48, 0x87, 0xCB]);
    let mut out = x86_64::Assembler::new();
    out.asr_reg(RCX, RCX, RCX);
    assert_eq!(out.code, vec![0x48, 0xD3, 0xF9]);
}

#[test]
fn x86_64_constants_with_the_top_bit() {
    let mut out = x86_64::Assembler::new();
    out.cmp_imm(RAX, 0x8000_0000);
    assert_eq!(out.code, vec![0x49, 0xBB, 0, 0, 0, 0x80, 0, 0, 0, 0, 0x49, 0x3B, 0xC3]);
    let mut out = x86_64::Assembler::new();
    out.add_imm(RBX, RAX, 0xFFFF_FFFF);
    assert_eq!(
        out.code,
        vec![0x48, 0x8B, 0xD8, 0x49, 0xBB, 0xFF, 0xFF, 0xFF, 0xFF, 0, 0, 0, 0, 0x49, 0x03, 0xDB]
    );
    let mut out = x86_64::Assembler::new();
    out.sub_imm(R11, R11, 0x8000_0000);
    assert_eq!(out.code, vec![0x48, 0xB9, 0, 0, 0, 0x80, 0, 0, 0, 0, 0x4C, 0x2B, 0xD9]);
    let mut out = x86_64::Assembler::new();
    out.sub_imm(RAX, RAX, 0x7FFF_FFFF);
    assert_eq!(out.code, vec![0x48, 0x81, 0xE8, 0xFF, 0xFF, 0xFF, 0x7F]);
}

/// Run ARM64 code as far as loop functions use it, and give what is in X0 at the return.
fn call(code: &[u8], args: &[u64]) -> u64 {
    let code = words(code);
    let mut regs = [0u64; 32];
    let mut stack = [0u64; 16];
    let mut sp = 16usize;
    let mut compared = (0i64, 0i64);
    let mut pc = 0i64;
    for r in 0..31 {
        regs[r] = 1000 + r as u64;
    }
    regs[..args.len()].copy_from_slice(args);
    let before = regs;
    let signed = |field: u32, bits: u32| ((field << (32 - bits)) as i32 >> (32 - bits)) as i64;
    for _ in 0..100_000 {
        let word = code[pc as usize];
        let (rd, rn, rm) =
            ((word & 31) as usize, (word >> 5 & 31) as usize, (word >> 16 & 31) as usize);
        let slot = (word >> 10 & 0xFFF) as usize;
        let mut next = pc + 1;
        match word >> 24 {
            0xD6 => {
                assert_eq!(sp, 16);
                for r in [19, 20, 21, 22, 23, 29, 30] {
                    assert_eq!(regs[r], before[r]);
                }
                return regs[0];
            }
            0x14..=0x17 => next = pc + signed(word & 0x3FFFFFF, 26),
            0x54 => {
                let (a, b) = compared;
                let taken = match word & 15 {
                    0 => a == b,
                    1 => a != b,
                    10 => a >= b,
                    11 => a < b,
                    12 => a > b,
                    _ => a <= b,
                };
                if taken {
                    next = pc + signed(word >> 5 & 0x7FFFF, 19);
                }
            }
            0xB4 => {
                if regs[rd] == 0 {
                    next = pc + signed(word >> 5 & 0x7FFFF, 19);
                }
            }
            0xA9 => {
                sp -= 8;
                stack[sp] = regs[29];
                stack[sp + 1] = regs[30];
            }
            0xA8 => {
                regs[29] = stack[sp];
                regs[30] = stack[sp + 1];
                sp += 8;
            }
            0xF9 if word & 0x400000 == 0 => stack[sp + slot] = regs[rd],
            0xF9 => regs[rd] = stack[sp + slot],
            0xD2 => regs[rd] = (word >> 5 & 0xFFFF) as u64,
            0xAA => regs[rd] = regs[rn] | regs[rm],
            0x8B => regs[rd] = regs[rn].wrapping_add(regs[rm]),
            0xCB => regs[rd] = regs[rn].wrapping_sub(regs[rm]),
            0x9B => regs[rd] = regs[rn].wrapping_mul(regs[rm]),
            0xEB => compared = (regs[rn] as i64, regs[rm] as i64),
            _ => panic!("{:#x}", word),
        }
        regs[31] = 0;
        pc = next;
    }
    panic!("no return");
}

#[test]
fn loop_code_returns_what_the_bytecode_returns() {
    // let p = 1; while (n > 1) { p = p * n; n = n - k; } return p;
    let mut c = chunk(2, 3);
    c.emit_op(OpCode::One, 1);
    let start = c.len();
    c.emit_op_u8(OpCode::GetLocal, 0, 1);
    c.emit_op(OpCode::One, 1);
    c.emit_op(OpCode::Gt, 1);
    let exit = c.emit_jump(OpCode::JumpIfFalse, 1);
    c.emit_op_u8(OpCode::GetLocal, 2, 1);
    c.emit_op_u8(OpCode::GetLocal, 0, 1);
    c.emit_op(OpCode::Mul, 1);
    c.emit_op_u8(OpCode::SetLocal, 2, 1);
    c.emit_op(OpCode::Pop, 1);
    c.emit_op_u8(OpCode::GetLocal, 0, 1);
    c.emit_op_u8(OpCode::GetLocal, 1, 1);
    c.emit_op(OpCode::Sub, 1);
    c.emit_op_u8(OpCode::SetLocal, 0, 1);
    c.emit_op(OpCode::Pop, 1);
    c.emit_loop(start, 1);
    c.patch_jump(exit);
    c.emit_op_u8(OpCode::GetLocal, 2, 1);
    c.emit_op(OpCode::Return, 1);
    let function = compile(&c).unwrap();
    assert_eq!(call(function.machine_code(), &[5, 1]), 120);
    assert_eq!(call(function.machine_code(), &[7, 2]), 105);
    assert_eq!(call(function.machine_code(), &[1, 1]), 1);
    assert_eq!(call(function.machine_code(), &[u64::MAX, 1]), 1);

    // while (n) n = n - 1; return;
    let mut c = chunk(1, 1);
    let start = c.len();
    c.emit_op_u8(OpCode::GetLocal, 0, 1);
    let exit = c.emit_jump(OpCode::JumpIfFalse, 1);
    c.emit_op_u8(OpCode::GetLocal, 0, 1);
    c.emit_op(OpCode::One, 1);
    c.emit_op(OpCode::Sub, 1);
    c.emit_op_u8(OpCode::SetLocal, 0, 1);
    c.emit_op(OpCode::Pop, 1);
    c.emit_loop(start, 1);
    c.patch_jump(exit);
    c.emit_op(OpCode::ReturnUndefined, 1);
    let function = compile(&c).unwrap();
    assert_eq!(call(function.machine_code(), &[9]), 0);
}
