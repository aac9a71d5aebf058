use zinc::compiler::chunk::{
    Chunk, ChunkFlags, UpvalueDescriptor, FLAG_ASYNC, FLAG_GENERATOR, FLAG_STRICT,
};
use zinc::compiler::disassemble::{disassemble, try_disassemble};
use zinc::compiler::opcode::OpCode;
use zinc::runtime::value::Value;
use zinc::util::interner::{Interner, StringId};

fn empty_chunk() -> Chunk {
    Chunk::new(StringId(0), StringId(0))
}

#[test]
fn opcodes_and_bytes_correspond() {
    let mut valid = 0;
    for byte in 0..=255u8 {
        match OpCode::from_byte(byte) {
            Some(op) => {
                valid += 1;
                assert_eq!(op.to_byte(), byte);
                assert!(OpCode::is_valid(byte));
                assert!(op.instruction_size() >= 1 && op.instruction_size() <= 5);
                assert_eq!(op.name(), format!("{:?}", op));
            }
            None => assert!(!OpCode::is_valid(byte)),
        }
    }
    assert_eq!(valid, 140);
    assert_eq!(OpCode::from_byte(0), Some(OpCode::Nop));
    assert_eq!(OpCode::Const.instruction_size(), 3);
    assert_eq!(OpCode::GetProperty.instruction_size(), 5);
    assert_eq!(OpCode::CallMethod.instruction_size(), 4);
}

#[test]
fn added_opcodes_have_bytes_that_do_not_decode() {
    assert_eq!(OpCode::from_byte(0x77), None);
    assert_eq!(OpCode::from_byte(0x09), None);
    let added = [
        (OpCode::LoadBigInt, 0x0A),
        (OpCode::PushEmpty, 0x0B),
        (OpCode::GetUpvalueWide, 0x0C),
        (OpCode::ToNumeric, 0x2A),
        (OpCode::DefineGlobalLex, 0x7E),
        (OpCode::ExportAllFrom, 0xED),
        (OpCode::SetCompletion, 0xFB),
    ];
    for (op, byte) in added {
        assert_eq!(op.to_byte(), byte);
        assert_eq!(OpCode::from_byte(byte), None);
        assert!(!OpCode::is_valid(byte));
    }
}

#[test]
fn operands_are_read_back() {
    let mut chunk = empty_chunk();
    assert!(chunk.is_empty());
    chunk.emit_op_u16(OpCode::Const, 0xABCD, 3);
    chunk.emit_op_u32(OpCode::ConstLong, 0x89AB_CDEF, 4);
    chunk.emit_op_u8(OpCode::GetLocal, 7, 4);
    assert_eq!(chunk.len(), 10);
    assert_eq!(chunk.read_u16(1), 0xABCD);
    assert_eq!(chunk.read_i16(1), 0xABCDu16 as i16);
    assert_eq!(chunk.read_u32(4), 0x89AB_CDEF);
    assert_eq!(chunk.code[9], 7);
    assert_eq!(chunk.lines, vec![(0, 3), (3, 4)]);
    assert_eq!(chunk.get_line(2), 3);
    assert_eq!(chunk.get_line(3), 4);
    assert_eq!(chunk.get_line(100), 4);
    assert_eq!(empty_chunk().get_line(0), 0);
}

#[test]
fn jumps_land_where_they_were_patched() {
    let mut chunk = empty_chunk();
    let at = chunk.emit_jump(OpCode::Jump, 1);
    assert_eq!(at, 1);
    chunk.emit_op(OpCode::Nop, 1);
    chunk.emit_op(OpCode::Nop, 1);
    chunk.patch_jump(at);
    assert_eq!(chunk.read_i16(1), 2);
    let start = 3;
    chunk.emit_loop(start, 1);
    assert_eq!(chunk.read_u16(6), 5);
    assert_eq!(5 + 3 - 5, start);
    assert!(!chunk.jump_overflow);
    let hold = chunk.emit_offset_placeholder(1);
    assert_eq!(chunk.read_u16(hold), 0xFFFF);
    chunk.put_u16(hold, 0x0102);
    assert_eq!(&chunk.code[hold..], &[1, 2]);
}

#[test]
fn long_jumps_mark_the_chunk() {
    let mut chunk = empty_chunk();
    let at = chunk.emit_jump(OpCode::Jump, 1);
    for _ in 0..32768 {
        chunk.emit_op(OpCode::Nop, 1);
    }
    chunk.patch_jump(at);
    assert!(chunk.jump_overflow);
    let mut chunk = empty_chunk();
    for _ in 0..65533 {
        chunk.emit_op(OpCode::Nop, 1);
    }
    chunk.emit_loop(0, 1);
    assert!(chunk.jump_overflow);
}

#[test]
fn constants_caches_and_flags() {
    let mut chunk = empty_chunk();
    assert_eq!(chunk.add_constant(Value::Int(5)), 0);
    assert_eq!(chunk.add_constant(Value::Int(5)), 1);
    assert_eq!(chunk.alloc_ic_slot(), 0);
    assert_eq!(chunk.alloc_ic_slot(), 1);
    assert_eq!(chunk.property_ic, vec![0xFF, 0xFF]);
    let mut flags = ChunkFlags::empty();
    assert!(!flags.contains(FLAG_STRICT));
    flags.insert(FLAG_STRICT);
    flags.insert(FLAG_ASYNC);
    assert!(flags.contains(FLAG_STRICT));
    assert!(flags.contains(FLAG_ASYNC));
    assert!(!flags.contains(FLAG_GENERATOR));
}

#[test]
fn interning() {
    let mut interner = Interner::new();
    let a = interner.intern("a");
    let b = interner.intern("b");
    assert_ne!(a, b);
    assert_eq!(interner.intern("a"), a);
    assert_eq!(interner.intern(""), StringId(0));
    assert_eq!(interner.resolve(a), "a");
    assert_eq!(interner.resolve(b), "b");
    assert_eq!(interner.text(StringId(99)), "");
    assert!(interner.has(b));
    assert!(!interner.has(StringId(99)));
}

#[test]
fn a_listing() {
    let mut interner = Interner::new();
    let print = interner.intern("print");
    let inner = interner.intern("inner");
    let mut chunk = empty_chunk();
    chunk.local_count = 2;
    let index = chunk.add_constant(Value::string(print));
    chunk.emit_op_u16(OpCode::GetGlobal, index, 1);
    let number = chunk.add_constant(Value::Int(-42));
    chunk.emit_op_u16(OpCode::Const, number, 1);
    chunk.emit_op_u8(OpCode::Call, 1, 2);
    let jump = chunk.emit_jump(OpCode::JumpIfFalse, 2);
    chunk.emit_op(OpCode::Pop, 12);
    chunk.patch_jump(jump);
    chunk.emit_loop(8, 12);
    chunk.emit_op_u16(OpCode::Closure, 0, 13);
    chunk.push_byte(1);
    chunk.push_u16(260);
    chunk.emit_byte(0x1F, 13);
    chunk.emit_op(OpCode::Halt, 13);
    let mut child = Chunk::new(inner, StringId(0));
    child.param_count = 1;
    child.upvalue_count = 1;
    child.upvalue_descriptors.push(UpvalueDescriptor { index: 260, is_local: true });
    child.emit_op(OpCode::ReturnUndefined, 14);
    chunk.child_chunks.push(child);
    let text = disassemble(&chunk, &interner);
    let lines: Vec<&str> = text.lines().collect();
    assert_eq!(lines[0], "=== <script> ===");
    assert_eq!(lines[1], "locals: 2 params: 0 upvalues: 0");
    assert_eq!(lines[2], "0000  L1     GetGlobal [0] 'print'");
    assert_eq!(lines[3], "0003  L1     Const [1] = Int(-42)");
    assert_eq!(lines[4], "0006  L2     Call 1");
    assert_eq!(lines[5], "0008  L2     JumpIfFalse +1 -> 0012");
    assert_eq!(lines[6], "0011  L12    Pop");
    assert_eq!(lines[7], "0012  L12    Loop -7 -> 0008");
    assert_eq!(lines[8], "0015  L13    Closure chunk:0");
    assert_eq!(lines[9], "              | local 260");
    assert_eq!(lines[10], "0021  L13    UNKNOWN(0x1f)");
    assert!(text.ends_with("ReturnUndefined\n"));
    assert!(text.contains("=== inner ===\nlocals: 0 params: 1 upvalues: 1\n"));
    assert_eq!(try_disassemble(&chunk, &interner), Some(text));
}

#[test]
fn a_byte_that_is_no_opcode() {
    assert_eq!(OpCode::from_byte(0x09), None);
    let mut chunk = empty_chunk();
    chunk.emit_byte(0x09, 1);
    chunk.emit_op(OpCode::Pop, 1);
    let text = disassemble(&chunk, &Interner::new());
    assert!(text.ends_with("0000  L1     UNKNOWN(0x09)\n0001  L1     Pop\n"), "{}", text);
}

#[test]
fn lines_of_all_bytes() {
    let mut chunk = empty_chunk();
    chunk.emit_op_u16(OpCode::Const, 0, 3);
    chunk.emit_op_u32(OpCode::ConstLong, 0, 4);
    chunk.emit_op(OpCode::Pop, 4);
    let lines: Vec<u32> = (0..9).map(|at| chunk.get_line(at)).collect();
    assert_eq!(lines, vec![3, 3, 3, 4, 4, 4, 4, 4, 4]);
}

#[test]
fn jumps_are_aimed() {
    let mut chunk = empty_chunk();
    let at = chunk.emit_jump(OpCode::Jump, 1);
    chunk.aim_jump(at, 0);
    assert_eq!(chunk.read_i16(at), -3);
    assert!(!chunk.jump_overflow);
    chunk.aim_jump(at, at + 2 + 0x7FFF);
    assert_eq!(chunk.read_i16(at), 0x7FFF);
    assert!(!chunk.jump_overflow);
    chunk.aim_jump(at, at + 2 + 0x8000);
    assert!(chunk.jump_overflow);
}

#[test]
fn what_cannot_be_listed() {
    let interner = Interner::new();
    // a constant that is not there
    let mut chunk = empty_chunk();
    chunk.emit_op_u16(OpCode::Closure, 0, 1);
    assert_eq!(try_disassemble(&chunk, &interner), None);
    // an instruction that is cut off
    let mut chunk = empty_chunk();
    chunk.emit_byte(OpCode::Jump.to_byte(), 1);
    assert_eq!(try_disassemble(&chunk, &interner), None);
    // a name that is not in the table
    let chunk = Chunk::new(StringId(9), StringId(0));
    assert_eq!(try_disassemble(&chunk, &interner), None);
}
