//! Just-in-time compilation of simple numeric functions to ARM64 machine code: integer
//! arithmetic, comparisons, branches and recursive calls.

use vstd::prelude::*;
use crate::compiler::chunk;
use crate::compiler::chunk::{Chunk, ChunkView};
use crate::compiler::opcode::OpCode;
use crate::jit::arm64;
use crate::jit::arm64::{
    Assembler, SP, X0, X1, X19, X2, X20, X21, X22, X23, X29, X3, X30, X4, X5, X6, X7, X8, X9,
};
use crate::runtime::number;
use crate::runtime::number::truncate_to_i64;
use crate::runtime::value::Value;

verus! {

/// A compiled function: its machine code, and how many parameters it takes.
pub struct JitFunction {
    pub code: Vec<u8>,
    param_count: u8,
}

/// A compiled function as a value.
pub struct JitView {
    pub code: Seq<u8>,
    pub param_count: u8,
}

impl View for JitFunction {
    type V = JitView;

    closed spec fn view(&self) -> JitView {
        JitView { code: self.code@, param_count: self.param_count }
    }
}

impl JitFunction {
    /// How many parameters does the function expect?
    pub fn param_count(&self) -> (count: u8)
        ensures
            count == self@.param_count,
    {
        self.param_count
    }

    /// The machine code of the function.
    pub fn machine_code(&self) -> (code: &Vec<u8>)
        ensures
            code@ == self@.code,
    {
        &self.code
    }
}

/// Whether a compiled function is what was asked for.
pub open spec fn compiled(function: Option<JitFunction>, wanted: Option<JitView>) -> bool {
    match wanted {
        Some(view) => function is Some && function->0@ == view,
        None => function is None,
    }
}

/// Whether an opcode is one that machine code is emitted for.
pub open spec fn numeric(op: OpCode) -> bool {
    match op {
        OpCode::Nop | OpCode::GetLocal | OpCode::SetLocal | OpCode::Const | OpCode::Zero
        | OpCode::One | OpCode::Undefined | OpCode::True | OpCode::False | OpCode::Add
        | OpCode::Sub | OpCode::Mul | OpCode::Div | OpCode::Rem | OpCode::Le | OpCode::Lt
        | OpCode::Ge | OpCode::Gt | OpCode::Eq | OpCode::Ne | OpCode::StrictEq
        | OpCode::StrictNe | OpCode::BitAnd | OpCode::BitOr | OpCode::BitXor | OpCode::BitNot
        | OpCode::Shl | OpCode::Shr | OpCode::UShr | OpCode::JumpIfFalse | OpCode::Jump
        | OpCode::Loop | OpCode::Return | OpCode::ReturnUndefined | OpCode::GetGlobal
        | OpCode::Call | OpCode::Pop | OpCode::Halt => true,
        _ => false,
    }
}

fn is_numeric(op: OpCode) -> (result: bool)
    ensures
        result == numeric(op),
{
    match op {
        OpCode::Nop | OpCode::GetLocal | OpCode::SetLocal | OpCode::Const | OpCode::Zero
        | OpCode::One | OpCode::Undefined | OpCode::True | OpCode::False | OpCode::Add
        | OpCode::Sub | OpCode::Mul | OpCode::Div | OpCode::Rem | OpCode::Le | OpCode::Lt
        | OpCode::Ge | OpCode::Gt | OpCode::Eq | OpCode::Ne | OpCode::StrictEq
        | OpCode::StrictNe | OpCode::BitAnd | OpCode::BitOr | OpCode::BitXor | OpCode::BitNot
        | OpCode::Shl | OpCode::Shr | OpCode::UShr | OpCode::JumpIfFalse | OpCode::Jump
        | OpCode::Loop | OpCode::Return | OpCode::ReturnUndefined | OpCode::GetGlobal
        | OpCode::Call | OpCode::Pop | OpCode::Halt => true,
        _ => false,
    }
}

/// Whether the instructions from a position on are all ones that machine code is emitted
/// for.
pub open spec fn all_numeric(code: Seq<u8>, ip: int) -> bool
    decreases code.len() - ip,
{
    if ip >= code.len() {
        true
    } else {
        match OpCode::of_byte(code[ip]) {
            Some(op) => numeric(op) && (if ip + op.size() < code.len() {
                all_numeric(code, ip + op.size())
            } else {
                true
            }),
            None => false,
        }
    }
}

/// Check if a chunk can be compiled (only simple numeric operations).
fn can_jit(chunk: &Chunk) -> (result: bool)
    ensures
        result == all_numeric(chunk.code@, 0),
{
    let mut ip: usize = 0;
    while ip < chunk.code.len()
        invariant
            ip <= chunk.code@.len(),
            all_numeric(chunk.code@, ip as int) == all_numeric(chunk.code@, 0),
        decreases chunk.code@.len() - ip,
    {
        match OpCode::from_byte(chunk.code[ip]) {
            Some(op) => {
                if !is_numeric(op) {
                    return false;
                }
                let size: usize = op.instruction_size();
                if chunk.code.len() - ip <= size {
                    return true;
                }
                ip = ip + size;
            },
            None => {
                return false;
            },
        }
    }
    true
}

/// How many bytes of the code equal that of an opcode, among the first ones.
pub open spec fn occurrences(code: Seq<u8>, byte: u8, n: nat) -> nat
    decreases n,
{
    if n == 0 {
        0
    } else {
        occurrences(code, byte, (n - 1) as nat) + (if code[n - 1] == byte {
            1nat
        } else {
            0
        })
    }
}

/// How many bytes of a chunk's code equal that of an opcode.
pub open spec fn count_of(c: ChunkView, op: OpCode) -> nat {
    occurrences(c.code, op.byte(), c.code.len())
}

fn count_bytes(chunk: &Chunk, op: OpCode) -> (count: usize)
    ensures
        count as nat == count_of(chunk@, op),
{
    let byte: u8 = op.to_byte();
    let mut count: usize = 0;
    let mut i: usize = 0;
    while i < chunk.code.len()
        invariant
            i <= chunk.code@.len(),
            byte == op.byte(),
            count <= i,
            count as nat == occurrences(chunk.code@, byte, i as nat),
        decreases chunk.code@.len() - i,
    {
        if chunk.code[i] == byte {
            count = count + 1;
        }
        i = i + 1;
    }
    count
}

/// The shape of function that a chunk is compiled as.
#[derive(Clone, Copy, PartialEq, Eq, Structural, Debug)]
pub enum Shape {
    /// One parameter, two recursive calls whose results are added.
    Binary,
    /// Two parameters, nested recursive calls.
    Ackermann,
    /// Three parameters, nested recursive calls.
    Takeuchi,
    /// A loop over registers.
    Loop,
}

/// The shape of function that a chunk is compiled as, by the opcodes that its code holds.
pub open spec fn shape_of(c: ChunkView) -> Option<Shape> {
    let calls = count_of(c, OpCode::Call);
    if !all_numeric(c.code, 0) {
        None
    } else if c.param_count == 1 && calls == 2 && count_of(c, OpCode::Add) > 0 {
        Some(Shape::Binary)
    } else if c.param_count == 2 && calls >= 2 && (count_of(c, OpCode::StrictEq) > 0 || count_of(
        c,
        OpCode::Eq,
    ) > 0) {
        Some(Shape::Ackermann)
    } else if c.param_count == 3 && calls >= 3 && (count_of(c, OpCode::Ge) > 0 || count_of(
        c,
        OpCode::Le,
    ) > 0) {
        Some(Shape::Takeuchi)
    } else if calls == 0 && count_of(c, OpCode::Loop) > 0 && count_of(c, OpCode::GetGlobal) == 0
        && count_of(c, OpCode::SetGlobal) == 0 && c.local_count <= 5 {
        Some(Shape::Loop)
    } else {
        None
    }
}

/// The compiled function of a chunk, if there is one.
pub open spec fn jit(c: ChunkView) -> Option<JitView> {
    match shape_of(c) {
        None => None,
        Some(Shape::Binary) => binary_function(c),
        Some(Shape::Ackermann) => Some(JitView { code: ackermann_code(), param_count: 2 }),
        Some(Shape::Takeuchi) => Some(JitView { code: takeuchi_code(), param_count: 3 }),
        Some(Shape::Loop) => match loop_code(c) {
            Some(code) => Some(JitView { code, param_count: c.param_count as u8 }),
            None => None,
        },
    }
}

/// The compiled function of a binary-recursive chunk, if its constants can be encoded.
pub open spec fn binary_function(c: ChunkView) -> Option<JitView> {
    match scan(c, 0, Seq::empty(), false) {
        Some((values, less)) => {
            let r = recursion_of(values, less);
            if r.encodable() {
                Some(JitView { code: binary_code(r), param_count: 1 })
            } else {
                None
            }
        },
        None => None,
    }
}

/// Try to compile a chunk. Returns None if the chunk uses features that no machine code is
/// emitted for (objects, strings, closures, etc.), or constants that the machine code cannot
/// hold.
pub fn jit_compile(chunk: &Chunk, _all_chunks: &[Chunk]) -> (function: Option<JitFunction>)
    ensures
        compiled(function, jit(chunk@)),
{
    if !can_jit(chunk) {
        return None;
    }
    let calls: usize = count_bytes(chunk, OpCode::Call);
    if chunk.param_count == 1 && calls == 2 && count_bytes(chunk, OpCode::Add) > 0 {
        return emit_recursive_binary(chunk);
    }
    if chunk.param_count == 2 && calls >= 2 && (count_bytes(chunk, OpCode::StrictEq) > 0
        || count_bytes(chunk, OpCode::Eq) > 0) {
        return Some(emit_ack_pattern());
    }
    if chunk.param_count == 3 && calls >= 3 && (count_bytes(chunk, OpCode::Ge) > 0 || count_bytes(
        chunk,
        OpCode::Le,
    ) > 0) {
        return Some(emit_tak_pattern());
    }
    if calls == 0 && count_bytes(chunk, OpCode::Loop) > 0 && count_bytes(chunk, OpCode::GetGlobal)
        == 0 && count_bytes(chunk, OpCode::SetGlobal) == 0 && chunk.local_count <= 5 {
        return emit_loop_function(chunk);
    }
    None
}

/// The integer that a constant stands for: a number is cut to one.
pub open spec fn constant_integer(value: Value) -> Option<i64> {
    match value {
        Value::Int(i) => Some(i as i64),
        Value::Number(bits) => Some(number::truncated(bits)),
        _ => None,
    }
}

fn integer_of(value: Value) -> (result: Option<i64>)
    ensures
        result == constant_integer(value),
{
    match value.as_int() {
        Some(i) => Some(i as i64),
        None => match value.as_number() {
            Some(bits) => Some(truncate_to_i64(bits)),
            None => None,
        },
    }
}

/// The opcode at a position; a byte that is none counts as one that does nothing.
pub open spec fn op_at(code: Seq<u8>, ip: int) -> OpCode {
    match OpCode::of_byte(code[ip]) {
        Some(op) => op,
        None => OpCode::Nop,
    }
}

/// The constants read so far with the one that an instruction loads, if it loads a number.
pub open spec fn noted(c: ChunkView, ip: int, read: Seq<i64>) -> Seq<i64> {
    match op_at(c.code, ip) {
        OpCode::Const => {
            let index = chunk::spell16(c.code[ip + 1], c.code[ip + 2]);
            if index < c.constants.len() {
                match constant_integer(c.constants[index as int]) {
                    Some(i) => read.push(i),
                    None => read,
                }
            } else {
                read
            }
        },
        OpCode::One => read.push(1),
        OpCode::Zero => read.push(0),
        _ => read,
    }
}

/// The constants that the code loads from a position on, added to those read before, and
/// whether it compares by less-than. There are none where the load of a constant is cut off.
pub open spec fn scan(c: ChunkView, ip: int, read: Seq<i64>, less: bool) -> Option<
    (Seq<i64>, bool),
>
    decreases c.code.len() - ip,
{
    if ip >= c.code.len() {
        Some((read, less))
    } else {
        let op = op_at(c.code, ip);
        let next = ip + op.size();
        if op == OpCode::Const && next > c.code.len() {
            None
        } else if next >= c.code.len() {
            Some((noted(c, ip, read), less || op == OpCode::Lt))
        } else {
            scan(c, next, noted(c, ip, read), less || op == OpCode::Lt)
        }
    }
}

/// What a binary-recursive function computes: below or up to a threshold its argument or a
/// constant, otherwise the sum of two calls with smaller arguments.
#[derive(Clone, Copy, PartialEq, Eq, Structural, Debug)]
pub struct Recursion {
    pub threshold: i64,
    pub less: bool,
    pub base: Option<i64>,
    pub first: i64,
    pub second: i64,
}

impl Recursion {
    /// Whether the constants are ones that the instructions can hold: twelve bits for the
    /// threshold and what is subtracted, sixteen for the result of the base case.
    pub open spec fn encodable(self) -> bool {
        &&& 0 <= self.threshold < 0x1000
        &&& 0 <= self.first < 0x1000
        &&& 0 <= self.second < 0x1000
        &&& self.base matches Some(v) ==> 0 <= v < 0x10000
    }

    fn is_encodable(&self) -> (result: bool)
        ensures
            result == self.encodable(),
    {
        let base_fits: bool = match self.base {
            Some(v) => 0 <= v && v < 0x10000,
            None => true,
        };
        0 <= self.threshold && self.threshold < 0x1000 && 0 <= self.first && self.first < 0x1000
            && 0 <= self.second && self.second < 0x1000 && base_fits
    }
}

/// What a binary-recursive function computes, by the constants that its code loads: the
/// threshold, with a fourth constant the result of the base case, and what the two calls
/// subtract.
pub open spec fn recursion_of(values: Seq<i64>, less: bool) -> Recursion {
    let n = values.len();
    let base = if n >= 4 || (less && n >= 2 && values[0] == values[1]) {
        Some(values[1])
    } else {
        None
    };
    Recursion {
        threshold: if n >= 1 {
            values[0]
        } else {
            1
        },
        less,
        base,
        first: if n >= 4 {
            values[2]
        } else if n >= 3 {
            values[1]
        } else {
            1
        },
        second: if n >= 4 {
            values[3]
        } else if n >= 3 {
            values[2]
        } else {
            2
        },
    }
}

/// Code with a word behind it.
pub open spec fn put(code: Seq<u8>, word: u32) -> Seq<u8> {
    code + arm64::word_bytes(word)
}

/// A comparison of two registers.
pub open spec fn compare_word(rn: u32, rm: u32) -> u32 {
    0xEB00001Fu32 | (rm << 16) | (rn << 5)
}

/// A comparison of a register with a constant.
pub open spec fn compare_imm_word(rn: u32, imm12: u32) -> u32 {
    0xF100001Fu32 | ((imm12 & 0xFFF) << 10) | (rn << 5)
}

/// The branch to the base case, before its target is known.
pub open spec fn less_word(less: bool) -> u32 {
    if less {
        arm64::enc_imm19(0x54000000, 11, 0)
    } else {
        arm64::enc_imm19(0x54000000, 13, 0)
    }
}

/// The result of the base case: the argument, or a constant.
pub open spec fn base_word(base: Option<i64>) -> u32 {
    match base {
        None => arm64::enc_mov(X0, X19),
        Some(v) => arm64::enc_movz(X0, v as u16),
    }
}

fn emit_base(code: &mut Assembler, base: Option<i64>)
    ensures
        final(code).code@ == put(old(code).code@, base_word(base)),
{
    match base {
        None => {
            code.mov_reg(X0, X19);
        },
        Some(v) => {
            code.movz(X0, v as u16);
        },
    }
}

/// The low half of an integer.
fn low_word(v: i64) -> (word: u32)
    ensures
        word == v as u32,
{
    v as u32
}

/// Compare two registers.
fn emit_compare(code: &mut Assembler, rn: u32, rm: u32)
    ensures
        final(code).code@ == put(old(code).code@, compare_word(rn, rm)),
{
    code.cmp_reg(rn, rm);
}

/// Compare a register with a constant.
fn emit_compare_imm(code: &mut Assembler, rn: u32, imm12: u32)
    ensures
        final(code).code@ == put(old(code).code@, compare_imm_word(rn, imm12)),
{
    code.cmp_imm(rn, imm12);
}

/// Call the function itself, which starts where the code starts.
fn call_start(code: &mut Assembler)
    requires
        old(code).code@.len() <= 4096,
    ensures
        final(code).code@ == put(
            old(code).code@,
            arm64::enc_imm26(0x94000000, (-old(code).code@.len()) as i32),
        ),
{
    let here: usize = code.offset();
    code.bl(-(here as i32));
}

/// The machine code of a binary-recursive function.
#[verifier::opaque]
pub open spec fn binary_code(r: Recursion) -> Seq<u8> {
    let c = Seq::<u8>::empty();
    let c = put(c, arm64::enc_pair(0xA9800000, X29, X30, SP, arm64::eighths((-48) as i32)));
    let c = put(c, arm64::enc_mov(X29, SP));
    let c = put(c, arm64::enc_mem(0xF9000000, X19, SP, 2));
    let c = put(c, arm64::enc_mem(0xF9000000, X20, SP, 3));
    let c = put(c, arm64::enc_mov(X19, X0));
    let c = put(c, compare_imm_word(X19, r.threshold as u32));
    let branch = c.len() as int;
    let c = put(c, less_word(r.less));
    let c = put(c, arm64::enc_rri(0xD1000000, X0, X19, r.first as u32));
    let c = put(c, arm64::enc_imm26(0x94000000, (-c.len()) as i32));
    let c = put(c, arm64::enc_mov(X20, X0));
    let c = put(c, arm64::enc_rri(0xD1000000, X0, X19, r.second as u32));
    let c = put(c, arm64::enc_imm26(0x94000000, (-c.len()) as i32));
    let c = put(c, arm64::enc_rrr(0x8B000000, X0, X20, X0));
    let c = put(c, arm64::enc_mem(0xF9400000, X19, SP, 2));
    let c = put(c, arm64::enc_mem(0xF9400000, X20, SP, 3));
    let c = put(c, arm64::enc_pair(0xA8C00000, X29, X30, SP, arm64::eighths(48)));
    let c = put(c, 0xD65F03C0);
    let base = c.len() as int;
    let c = put(c, base_word(r.base));
    let c = put(c, arm64::enc_mem(0xF9400000, X19, SP, 2));
    let c = put(c, arm64::enc_mem(0xF9400000, X20, SP, 3));
    let c = put(c, arm64::enc_pair(0xA8C00000, X29, X30, SP, arm64::eighths(48)));
    let c = put(c, 0xD65F03C0);
    let c = arm64::branch_patched(c, branch, base);
    c
}

/// The machine code of the Ackermann function.
#[verifier::opaque]
pub open spec fn ackermann_code() -> Seq<u8> {
    let c = Seq::<u8>::empty();
    let c = put(c, arm64::enc_pair(0xA9800000, X29, X30, SP, arm64::eighths((-64) as i32)));
    let c = put(c, arm64::enc_mov(X29, SP));
    let c = put(c, arm64::enc_mem(0xF9000000, X19, SP, 2));
    let c = put(c, arm64::enc_mem(0xF9000000, X20, SP, 3));
    let c = put(c, arm64::enc_mem(0xF9000000, X21, SP, 4));
    let c = put(c, arm64::enc_mov(X19, X0));
    let c = put(c, arm64::enc_mov(X20, X1));
    let first = c.len() as int;
    let c = put(c, arm64::enc_imm19(0xB4000000, X19, 0));
    let second = c.len() as int;
    let c = put(c, arm64::enc_imm19(0xB4000000, X20, 0));
    let c = put(c, arm64::enc_mov(X0, X19));
    let c = put(c, arm64::enc_rri(0xD1000000, X1, X20, 1));
    let c = put(c, arm64::enc_imm26(0x94000000, (-c.len()) as i32));
    let c = put(c, arm64::enc_mov(X1, X0));
    let c = put(c, arm64::enc_rri(0xD1000000, X0, X19, 1));
    let c = put(c, arm64::enc_imm26(0x94000000, (-c.len()) as i32));
    let c = put(c, arm64::enc_mem(0xF9400000, X19, SP, 2));
    let c = put(c, arm64::enc_mem(0xF9400000, X20, SP, 3));
    let c = put(c, arm64::enc_mem(0xF9400000, X21, SP, 4));
    let c = put(c, arm64::enc_pair(0xA8C00000, X29, X30, SP, arm64::eighths(64)));
    let c = put(c, 0xD65F03C0);
    let m_zero = c.len() as int;
    let c = put(c, arm64::enc_rri(0x91000000, X0, X20, 1));
    let c = put(c, arm64::enc_mem(0xF9400000, X19, SP, 2));
    let c = put(c, arm64::enc_mem(0xF9400000, X20, SP, 3));
    let c = put(c, arm64::enc_mem(0xF9400000, X21, SP, 4));
    let c = put(c, arm64::enc_pair(0xA8C00000, X29, X30, SP, arm64::eighths(64)));
    let c = put(c, 0xD65F03C0);
    let n_zero = c.len() as int;
    let c = put(c, arm64::enc_rri(0xD1000000, X0, X19, 1));
    let c = put(c, arm64::enc_movz(X1, 1));
    let c = put(c, arm64::enc_imm26(0x94000000, (-c.len()) as i32));
    let c = put(c, arm64::enc_mem(0xF9400000, X19, SP, 2));
    let c = put(c, arm64::enc_mem(0xF9400000, X20, SP, 3));
    let c = put(c, arm64::enc_mem(0xF9400000, X21, SP, 4));
    let c = put(c, arm64::enc_pair(0xA8C00000, X29, X30, SP, arm64::eighths(64)));
    let c = put(c, 0xD65F03C0);
    let c = arm64::branch_patched(c, first, m_zero);
    let c = arm64::branch_patched(c, second, n_zero);
    c
}

/// The machine code of the Takeuchi function.
#[verifier::opaque]
pub open spec fn takeuchi_code() -> Seq<u8> {
    let c = Seq::<u8>::empty();
    let c = put(c, arm64::enc_pair(0xA9800000, X29, X30, SP, arm64::eighths((-80) as i32)));
    let c = put(c, arm64::enc_mov(X29, SP));
    let c = put(c, arm64::enc_mem(0xF9000000, X19, SP, 2));
    let c = put(c, arm64::enc_mem(0xF9000000, X20, SP, 3));
    let c = put(c, arm64::enc_mem(0xF9000000, X21, SP, 4));
    let c = put(c, arm64::enc_mem(0xF9000000, X22, SP, 5));
    let c = put(c, arm64::enc_mem(0xF9000000, X23, SP, 6));
    let c = put(c, arm64::enc_mov(X19, X0));
    let c = put(c, arm64::enc_mov(X20, X1));
    let c = put(c, arm64::enc_mov(X21, X2));
    let c = put(c, compare_word(X20, X19));
    let branch = c.len() as int;
    let c = put(c, arm64::enc_imm19(0x54000000, 10, 0));
    let c = put(c, arm64::enc_rri(0xD1000000, X0, X19, 1));
    let c = put(c, arm64::enc_mov(X1, X20));
    let c = put(c, arm64::enc_mov(X2, X21));
    let c = put(c, arm64::enc_imm26(0x94000000, (-c.len()) as i32));
    let c = put(c, arm64::enc_mov(X22, X0));
    let c = put(c, arm64::enc_rri(0xD1000000, X0, X20, 1));
    let c = put(c, arm64::enc_mov(X1, X21));
    let c = put(c, arm64::enc_mov(X2, X19));
    let c = put(c, arm64::enc_imm26(0x94000000, (-c.len()) as i32));
    let c = put(c, arm64::enc_mov(X23, X0));
    let c = put(c, arm64::enc_rri(0xD1000000, X0, X21, 1));
    let c = put(c, arm64::enc_mov(X1, X19));
    let c = put(c, arm64::enc_mov(X2, X20));
    let c = put(c, arm64::enc_imm26(0x94000000, (-c.len()) as i32));
    let c = put(c, arm64::enc_mov(X2, X0));
    let c = put(c, arm64::enc_mov(X0, X22));
    let c = put(c, arm64::enc_mov(X1, X23));
    let c = put(c, arm64::enc_imm26(0x94000000, (-c.len()) as i32));
    let c = put(c, arm64::enc_mem(0xF9400000, X19, SP, 2));
    let c = put(c, arm64::enc_mem(0xF9400000, X20, SP, 3));
    let c = put(c, arm64::enc_mem(0xF9400000, X21, SP, 4));
    let c = put(c, arm64::enc_mem(0xF9400000, X22, SP, 5));
    let c = put(c, arm64::enc_mem(0xF9400000, X23, SP, 6));
    let c = put(c, arm64::enc_pair(0xA8C00000, X29, X30, SP, arm64::eighths(80)));
    let c = put(c, 0xD65F03C0);
    let base = c.len() as int;
    let c = put(c, arm64::enc_mov(X0, X21));
    let c = put(c, arm64::enc_mem(0xF9400000, X19, SP, 2));
    let c = put(c, arm64::enc_mem(0xF9400000, X20, SP, 3));
    let c = put(c, arm64::enc_mem(0xF9400000, X21, SP, 4));
    let c = put(c, arm64::enc_mem(0xF9400000, X22, SP, 5));
    let c = put(c, arm64::enc_mem(0xF9400000, X23, SP, 6));
    let c = put(c, arm64::enc_pair(0xA8C00000, X29, X30, SP, arm64::eighths(80)));
    let c = put(c, 0xD65F03C0);
    let c = arm64::branch_patched(c, branch, base);
    c
}

fn scan_constants(chunk: &Chunk) -> (found: Option<(Vec<i64>, bool)>)
    ensures
        match scan(chunk@, 0, Seq::empty(), false) {
            Some(
                (values, less),
            ) => found is Some && (found->0).0@ == values && (found->0).1 == less,
            None => found is None,
        },
{
    let mut values: Vec<i64> = Vec::new();
    let mut less: bool = false;
    let mut ip: usize = 0;
    while ip < chunk.code.len()
        invariant
            ip <= chunk.code@.len(),
            scan(chunk@, ip as int, values@, less) == scan(chunk@, 0, Seq::empty(), false),
        decreases chunk.code@.len() - ip,
    {
        let op: OpCode = match OpCode::from_byte(chunk.code[ip]) {
            Some(op) => op,
            None => OpCode::Nop,
        };
        let size: usize = op.instruction_size();
        if op == OpCode::Const {
            if chunk.code.len() - ip < size {
                return None;
            }
            let index: usize = chunk.read_u16(ip + 1) as usize;
            if index < chunk.constants.len() {
                match integer_of(chunk.constants[index]) {
                    Some(i) => {
                        values.push(i);
                    },
                    None => {},
                }
            }
        } else if op == OpCode::One {
            values.push(1);
        } else if op == OpCode::Zero {
            values.push(0);
        } else if op == OpCode::Lt {
            less = true;
        }
        if chunk.code.len() - ip <= size {
            return Some((values, less));
        }
        ip = ip + size;
    }
    Some((values, less))
}

fn read_recursion(values: &Vec<i64>, less: bool) -> (r: Recursion)
    ensures
        r == recursion_of(values@, less),
{
    let mut r = Recursion { threshold: 1, less, base: None, first: 1, second: 2 };
    if values.len() >= 4 {
        r.threshold = values[0];
        r.base = Some(values[1]);
        r.first = values[2];
        r.second = values[3];
    } else if values.len() >= 3 {
        r.threshold = values[0];
        r.first = values[1];
        r.second = values[2];
    } else if values.len() >= 1 {
        r.threshold = values[0];
    }
    if less && values.len() >= 2 && values[0] == values[1] {
        r.base = Some(values[1]);
    }
    r
}

/// Emit ARM64 for a binary-recursive function like fibonacci:
///   function f(n) { if (n <= K) return n; return f(n-A) + f(n-B); }
#[verifier::rlimit(60)]
fn emit_recursive_binary(chunk: &Chunk) -> (function: Option<JitFunction>)
    ensures
        compiled(function, binary_function(chunk@)),
{
    let (values, less) = match scan_constants(chunk) {
        Some(found) => found,
        None => {
            return None;
        },
    };
    let r: Recursion = read_recursion(&values, less);
    if !r.is_encodable() {
        return None;
    }
    reveal(binary_code);
    let mut code = Assembler::new();
    assert(code.code@ =~= Seq::empty());
    code.stp_pre(X29, X30, SP, -48);
    code.mov_reg(X29, SP);
    code.str_imm(X19, SP, 16);
    code.str_imm(X20, SP, 24);
    code.mov_reg(X19, X0);
    emit_compare_imm(&mut code, X19, low_word(r.threshold));
    let branch: usize = code.offset();
    if r.less { code.b_lt(0); } else { code.b_le(0); }
    code.sub_imm(X0, X19, low_word(r.first));
    call_start(&mut code);
    code.mov_reg(X20, X0);
    code.sub_imm(X0, X19, low_word(r.second));
    call_start(&mut code);
    code.add_reg(X0, X20, X0);
    code.ldr_imm(X19, SP, 16);
    code.ldr_imm(X20, SP, 24);
    code.ldp_post(X29, X30, SP, 48);
    code.ret();
    let base: usize = code.offset();
    emit_base(&mut code, r.base);
    code.ldr_imm(X19, SP, 16);
    code.ldr_imm(X20, SP, 24);
    code.ldp_post(X29, X30, SP, 48);
    code.ret();
    code.patch_branch(branch, base);
    Some(JitFunction { code: code.code, param_count: 1 })
}

/// Emit ARM64 for the Ackermann function:
///   function ack(m, n) {
///     if (m === 0) return n + 1;
///     if (n === 0) return ack(m - 1, 1);
///     return ack(m - 1, ack(m, n - 1));
///   }
#[verifier::rlimit(60)]
fn emit_ack_pattern() -> (function: JitFunction)
    ensures
        function@ == (JitView { code: ackermann_code(), param_count: 2 }),
{
    reveal(ackermann_code);
    let mut code = Assembler::new();
    assert(code.code@ =~= Seq::empty());
    code.stp_pre(X29, X30, SP, -64);
    code.mov_reg(X29, SP);
    code.str_imm(X19, SP, 16);
    code.str_imm(X20, SP, 24);
    code.str_imm(X21, SP, 32);
    code.mov_reg(X19, X0);
    code.mov_reg(X20, X1);
    let first: usize = code.offset();
    code.cbz(X19, 0);
    let second: usize = code.offset();
    code.cbz(X20, 0);
    code.mov_reg(X0, X19);
    code.sub_imm(X1, X20, 1);
    call_start(&mut code);
    code.mov_reg(X1, X0);
    code.sub_imm(X0, X19, 1);
    call_start(&mut code);
    code.ldr_imm(X19, SP, 16);
    code.ldr_imm(X20, SP, 24);
    code.ldr_imm(X21, SP, 32);
    code.ldp_post(X29, X30, SP, 64);
    code.ret();
    let m_zero: usize = code.offset();
    code.add_imm(X0, X20, 1);
    code.ldr_imm(X19, SP, 16);
    code.ldr_imm(X20, SP, 24);
    code.ldr_imm(X21, SP, 32);
    code.ldp_post(X29, X30, SP, 64);
    code.ret();
    let n_zero: usize = code.offset();
    code.sub_imm(X0, X19, 1);
    code.movz(X1, 1);
    call_start(&mut code);
    code.ldr_imm(X19, SP, 16);
    code.ldr_imm(X20, SP, 24);
    code.ldr_imm(X21, SP, 32);
    code.ldp_post(X29, X30, SP, 64);
    code.ret();
    code.patch_branch(first, m_zero);
    code.patch_branch(second, n_zero);
    JitFunction { code: code.code, param_count: 2 }
}

/// Emit ARM64 for the Takeuchi function:
///   function tak(x, y, z) {
///     if (y >= x) return z;
///     return tak(tak(x-1, y, z), tak(y-1, z, x), tak(z-1, x, y));
///   }
#[verifier::rlimit(60)]
#[verifier::spinoff_prover]
fn emit_tak_pattern() -> (function: JitFunction)
    ensures
        function@ == (JitView { code: takeuchi_code(), param_count: 3 }),
{
    reveal(takeuchi_code);
    let mut code = Assembler::new();
    assert(code.code@ =~= Seq::empty());
    code.stp_pre(X29, X30, SP, -80);
    code.mov_reg(X29, SP);
    code.str_imm(X19, SP, 16);
    code.str_imm(X20, SP, 24);
    code.str_imm(X21, SP, 32);
    code.str_imm(X22, SP, 40);
    code.str_imm(X23, SP, 48);
    code.mov_reg(X19, X0);
    code.mov_reg(X20, X1);
    code.mov_reg(X21, X2);
    emit_compare(&mut code, X20, X19);
    let branch: usize = code.offset();
    code.b_ge(0);
    code.sub_imm(X0, X19, 1);
    code.mov_reg(X1, X20);
    code.mov_reg(X2, X21);
    call_start(&mut code);
    code.mov_reg(X22, X0);
    code.sub_imm(X0, X20, 1);
    code.mov_reg(X1, X21);
    code.mov_reg(X2, X19);
    call_start(&mut code);
    code.mov_reg(X23, X0);
    code.sub_imm(X0, X21, 1);
    code.mov_reg(X1, X19);
    code.mov_reg(X2, X20);
    call_start(&mut code);
    code.mov_reg(X2, X0);
    code.mov_reg(X0, X22);
    code.mov_reg(X1, X23);
    call_start(&mut code);
    code.ldr_imm(X19, SP, 16);
    code.ldr_imm(X20, SP, 24);
    code.ldr_imm(X21, SP, 32);
    code.ldr_imm(X22, SP, 40);
    code.ldr_imm(X23, SP, 48);
    code.ldp_post(X29, X30, SP, 80);
    code.ret();
    let base: usize = code.offset();
    code.mov_reg(X0, X21);
    code.ldr_imm(X19, SP, 16);
    code.ldr_imm(X20, SP, 24);
    code.ldr_imm(X21, SP, 32);
    code.ldr_imm(X22, SP, 40);
    code.ldr_imm(X23, SP, 48);
    code.ldp_post(X29, X30, SP, 80);
    code.ret();
    code.patch_branch(branch, base);
    JitFunction { code: code.code, param_count: 3 }
}

/// The register of a stack position: 0-4 are callee-saved X19-X23, 5-11 caller-saved X3-X9.
pub open spec fn register(pos: nat) -> Option<u32> {
    if pos <= 4 {
        Some((19 + pos) as u32)
    } else if pos <= 11 {
        Some((pos - 2) as u32)
    } else {
        None
    }
}

/// Map a stack position to a register.
fn reg_for(pos: usize) -> (result: Option<u32>)
    ensures
        result == register(pos as nat),
{
    if pos <= 4 {
        Some(19 + pos as u32)
    } else if pos <= 11 {
        Some(pos as u32 - 2)
    } else {
        None
    }
}

/// A loop function while it is being compiled: the code, the height of the stack, the last
/// comparison, where each instruction's code starts, and the branches with the instruction
/// that each leads to.
pub struct LoopState {
    pub code: Seq<u8>,
    pub top: nat,
    pub compared: Option<OpCode>,
    pub marks: Seq<(usize, usize)>,
    pub pending: Seq<(usize, usize)>,
}

/// Code that saves the registers of a loop function.
pub open spec fn prologue(param_count: u16) -> Seq<u8> {
    let c = Seq::<u8>::empty();
    let c = put(c, arm64::enc_pair(0xA9800000, X29, X30, SP, arm64::eighths((-64) as i32)));
    let c = put(c, arm64::enc_mov(X29, SP));
    let c = put(c, arm64::enc_mem(0xF9000000, X19, SP, 2));
    let c = put(c, arm64::enc_mem(0xF9000000, X20, SP, 3));
    let c = put(c, arm64::enc_mem(0xF9000000, X21, SP, 4));
    let c = put(c, arm64::enc_mem(0xF9000000, X22, SP, 5));
    let c = put(c, arm64::enc_mem(0xF9000000, X23, SP, 6));
    let c = if param_count >= 1 {
        put(c, arm64::enc_mov(X19, X0))
    } else {
        c
    };
    let c = if param_count >= 2 {
        put(c, arm64::enc_mov(X20, X1))
    } else {
        c
    };
    if param_count >= 3 {
        put(c, arm64::enc_mov(X21, X2))
    } else {
        c
    }
}

/// Code that restores the registers of a loop function and returns.
pub open spec fn epilogue(c: Seq<u8>) -> Seq<u8> {
    let c = put(c, arm64::enc_mem(0xF9400000, X19, SP, 2));
    let c = put(c, arm64::enc_mem(0xF9400000, X20, SP, 3));
    let c = put(c, arm64::enc_mem(0xF9400000, X21, SP, 4));
    let c = put(c, arm64::enc_mem(0xF9400000, X22, SP, 5));
    let c = put(c, arm64::enc_mem(0xF9400000, X23, SP, 6));
    let c = put(c, arm64::enc_pair(0xA8C00000, X29, X30, SP, arm64::eighths(64)));
    let c = put(c, 0xD65F03C0);
    c
}

/// The code of an operation on two registers.
pub open spec fn operation(c: Seq<u8>, op: OpCode, ra: u32, rb: u32) -> Option<Seq<u8>> {
    match op {
        OpCode::Add => Some(put(c, arm64::enc_rrr(0x8B000000, ra, ra, rb))),
        OpCode::Sub => Some(put(c, arm64::enc_rrr(0xCB000000, ra, ra, rb))),
        OpCode::Mul => Some(put(c, arm64::enc_rrr(0x9B007C00, ra, ra, rb))),
        OpCode::Div => Some(put(c, arm64::enc_rrr(0x9AC00C00, ra, ra, rb))),
        OpCode::BitAnd => Some(put(c, arm64::enc_rrr(0x8A000000, ra, ra, rb))),
        OpCode::BitOr => Some(put(c, arm64::enc_rrr(0xAA000000, ra, ra, rb))),
        OpCode::BitXor => Some(put(c, arm64::enc_rrr(0xCA000000, ra, ra, rb))),
        OpCode::Shl => Some(put(c, arm64::enc_rrr(0x9AC02000, ra, ra, rb))),
        OpCode::Shr => Some(put(c, arm64::enc_rrr(0x9AC02800, ra, ra, rb))),
        OpCode::UShr => Some(put(c, arm64::enc_rrr(0x9AC02400, ra, ra, rb))),
        OpCode::Rem => {
            let c = put(c, arm64::enc_rrr(0x9AC00C00, X0, ra, rb));
            let c = put(c, arm64::enc_rrr(0x9B007C00, X0, X0, rb));
            Some(put(c, arm64::enc_rrr(0xCB000000, ra, ra, X0)))
        },
        _ => None,
    }
}

/// Whether an opcode compares.
pub open spec fn comparing(op: OpCode) -> bool {
    match op {
        OpCode::Lt | OpCode::Le | OpCode::Gt | OpCode::Ge | OpCode::Eq | OpCode::Ne
        | OpCode::StrictEq | OpCode::StrictNe => true,
        _ => false,
    }
}

/// The condition under which a comparison fails.
pub open spec fn inverse(op: OpCode) -> Option<u32> {
    match op {
        OpCode::Lt => Some(10u32),
        OpCode::Le => Some(12u32),
        OpCode::Gt => Some(13u32),
        OpCode::Ge => Some(11u32),
        OpCode::Eq | OpCode::StrictEq => Some(1u32),
        OpCode::Ne | OpCode::StrictNe => Some(0u32),
        _ => None,
    }
}

/// Where the code of the instruction at a position starts.
pub open spec fn mark_of(marks: Seq<(usize, usize)>, at: usize, i: int) -> Option<usize>
    decreases marks.len() - i,
{
    if i < 0 || i >= marks.len() {
        None
    } else if marks[i].0 == at {
        Some(marks[i].1)
    } else {
        mark_of(marks, at, i + 1)
    }
}

/// The constant that an instruction loads.
pub open spec fn loaded(c: ChunkView, op: OpCode, ip: int) -> Option<i64> {
    match op {
        OpCode::Zero | OpCode::Undefined | OpCode::False => Some(0i64),
        OpCode::One | OpCode::True => Some(1i64),
        OpCode::Const => {
            let index = chunk::spell16(c.code[ip + 1], c.code[ip + 2]);
            if index < c.constants.len() {
                constant_integer(c.constants[index as int])
            } else {
                None
            }
        },
        _ => None,
    }
}

/// Whether an opcode loads a constant.
pub open spec fn loading(op: OpCode) -> bool {
    match op {
        OpCode::Zero | OpCode::Undefined | OpCode::False | OpCode::One | OpCode::True
        | OpCode::Const => true,
        _ => false,
    }
}

/// Code that loads a constant.
pub open spec fn load(c: Seq<u8>, r: u32, value: i64) -> Seq<u8> {
    if 0 <= value <= 0xFFFF {
        put(c, arm64::enc_movz(r, value as u16))
    } else {
        c + arm64::words_bytes(arm64::imm64_words(r, value as u64))
    }
}

/// The instruction that a jump at a position leads to, if it lies in the code.
pub open spec fn jump_target(c: ChunkView, ip: int) -> Option<usize> {
    let target = ip + 3 + (chunk::spell16(c.code[ip + 1], c.code[ip + 2]) as i16);
    if 0 <= target < c.code.len() {
        Some(target as usize)
    } else {
        None
    }
}

/// The state behind an instruction of a loop function. There is none for an instruction
/// that no code can be emitted for.
pub open spec fn loop_step(c: ChunkView, op: OpCode, ip: int, s: LoopState) -> Option<LoopState> {
    match op {
        OpCode::Nop | OpCode::Halt => Some(s),
        OpCode::GetLocal => match (register(c.code[ip + 1] as nat), register(s.top)) {
            (Some(src), Some(dst)) => Some(
                LoopState { code: put(s.code, arm64::enc_mov(dst, src)), top: s.top + 1, ..s },
            ),
            _ => None,
        },
        OpCode::SetLocal => if s.top == 0 {
            None
        } else {
            match (register((s.top - 1) as nat), register(c.code[ip + 1] as nat)) {
                (Some(src), Some(dst)) => Some(
                    LoopState { code: put(s.code, arm64::enc_mov(dst, src)), ..s },
                ),
                _ => None,
            }
        },
        OpCode::Pop => Some(
            LoopState {
                top: if s.top > 0 {
                    (s.top - 1) as nat
                } else {
                    0
                },
                ..s
            },
        ),
        OpCode::BitNot => if s.top < 1 {
            None
        } else {
            match register((s.top - 1) as nat) {
                Some(r) => Some(
                    LoopState {
                        code: put(s.code, arm64::enc_rrr(0xAA200000, r, arm64::XZR, r)),
                        ..s
                    },
                ),
                None => None,
            }
        },
        OpCode::JumpIfFalse => if s.top == 0 {
            None
        } else {
            let top = (s.top - 1) as nat;
            let word = match s.compared {
                Some(test) => match inverse(test) {
                    Some(cond) => Some(arm64::enc_imm19(0x54000000, cond, 0)),
                    None => None,
                },
                None => match register(top) {
                    Some(r) => Some(arm64::enc_imm19(0xB4000000, r, 0)),
                    None => None,
                },
            };
            match (word, jump_target(c, ip)) {
                (Some(w), Some(target)) => Some(
                    LoopState {
                        code: put(s.code, w),
                        top,
                        compared: None,
                        pending: s.pending.push((target, s.code.len() as usize)),
                        ..s
                    },
                ),
                _ => None,
            }
        },
        OpCode::Jump => match jump_target(c, ip) {
            Some(target) => Some(
                LoopState {
                    code: put(s.code, arm64::enc_imm26(0x14000000, 0)),
                    pending: s.pending.push((target, s.code.len() as usize)),
                    ..s
                },
            ),
            None => None,
        },
        OpCode::Loop => {
            let back = chunk::spell16(c.code[ip + 1], c.code[ip + 2]);
            if back > ip + 3 {
                None
            } else {
                match mark_of(s.marks, (ip + 3 - back) as usize, 0) {
                    Some(at) => Some(
                        LoopState {
                            code: put(
                                s.code,
                                arm64::enc_imm26(0x14000000, (at - s.code.len()) as i32),
                            ),
                            ..s
                        },
                    ),
                    None => None,
                }
            }
        },
        OpCode::Return => if s.top == 0 {
            None
        } else {
            match register((s.top - 1) as nat) {
                Some(r) => Some(
                    LoopState {
                        code: epilogue(put(s.code, arm64::enc_mov(X0, r))),
                        top: (s.top - 1) as nat,
                        ..s
                    },
                ),
                None => None,
            }
        },
        OpCode::ReturnUndefined => Some(
            LoopState { code: epilogue(put(s.code, arm64::enc_movz(X0, 0))), ..s },
        ),
        _ => if loading(op) {
            match (loaded(c, op, ip), register(s.top)) {
                (Some(value), Some(r)) => Some(
                    LoopState { code: load(s.code, r, value), top: s.top + 1, ..s },
                ),
                _ => None,
            }
        } else if s.top < 2 {
            None
        } else {
            match (register((s.top - 2) as nat), register((s.top - 1) as nat)) {
                (Some(ra), Some(rb)) => if comparing(op) {
                    Some(
                        LoopState {
                            code: put(s.code, compare_word(ra, rb)),
                            top: (s.top - 1) as nat,
                            compared: Some(op),
                            ..s
                        },
                    )
                } else {
                    match operation(s.code, op, ra, rb) {
                        Some(code) => Some(LoopState { code, top: (s.top - 1) as nat, ..s }),
                        None => None,
                    }
                },
                _ => None,
            }
        },
    }
}

/// The most code that branches are emitted over.
pub const CODE_LIMIT: usize = 0x7FFF_0000;

/// The state behind the instructions of a loop function from a position on.
pub open spec fn loop_walk(c: ChunkView, ip: int, s: LoopState) -> Option<LoopState>
    decreases c.code.len() - ip,
{
    if ip >= c.code.len() {
        Some(s)
    } else {
        match OpCode::of_byte(c.code[ip]) {
            None => None,
            Some(op) => if ip + op.size() > c.code.len() || s.code.len() > CODE_LIMIT {
                None
            } else {
                let marked = LoopState {
                    marks: s.marks.push((ip as usize, s.code.len() as usize)),
                    ..s
                };
                match loop_step(c, op, ip, marked) {
                    Some(next) => loop_walk(c, ip + op.size(), next),
                    None => None,
                }
            },
        }
    }
}

/// Code with its branches led to their targets, from the i-th on.
pub open spec fn resolved(
    code: Seq<u8>,
    marks: Seq<(usize, usize)>,
    pending: Seq<(usize, usize)>,
    i: int,
) -> Option<Seq<u8>>
    decreases pending.len() - i,
{
    if i < 0 || i >= pending.len() {
        Some(code)
    } else {
        match mark_of(marks, pending[i].0, 0) {
            Some(target) => resolved(
                arm64::branch_patched(code, pending[i].1 as int, target as int),
                marks,
                pending,
                i + 1,
            ),
            None => None,
        }
    }
}

/// The machine code of a loop function.
#[verifier::opaque]
pub open spec fn loop_code(c: ChunkView) -> Option<Seq<u8>> {
    let start = LoopState {
        code: prologue(c.param_count),
        top: c.param_count as nat,
        compared: None,
        marks: Seq::empty(),
        pending: Seq::empty(),
    };
    match loop_walk(c, 0, start) {
        Some(s) => resolved(s.code, s.marks, s.pending, 0),
        None => None,
    }
}

/// A loop function while it is being compiled.
struct LoopEmitter {
    code: Assembler,
    top: usize,
    compared: Option<OpCode>,
    marks: Vec<(usize, usize)>,
    pending: Vec<(usize, usize)>,
}

impl LoopEmitter {
    spec fn state(self) -> LoopState {
        LoopState {
            code: self.code.code@,
            top: self.top as nat,
            compared: self.compared,
            marks: self.marks@,
            pending: self.pending@,
        }
    }

    /// Branches and marks lie in the code.
    spec fn wf(self) -> bool {
        &&& forall|i: int|
            0 <= i < self.pending@.len() ==> (#[trigger] self.pending@[i]).1 + 4
                <= self.code.code@.len()
        &&& forall|i: int|
            0 <= i < self.marks@.len() ==> (#[trigger] self.marks@[i]).1 <= self.code.code@.len()
    }

    fn emit_epilogue(&mut self)
        ensures
            final(self).state() == (LoopState {
                code: epilogue(old(self).code.code@),
                ..old(self).state()
            }),
            final(self).code.code@.len() == old(self).code.code@.len() + 28,
            final(self).top == old(self).top,
            final(self).marks == old(self).marks,
            final(self).pending == old(self).pending,
            final(self).compared == old(self).compared,
    {
        self.code.ldr_imm(X19, SP, 16);
        self.code.ldr_imm(X20, SP, 24);
        self.code.ldr_imm(X21, SP, 32);
        self.code.ldr_imm(X22, SP, 40);
        self.code.ldr_imm(X23, SP, 48);
        self.code.ldp_post(X29, X30, SP, 64);
        self.code.ret();
    }

    fn find_mark(&self, at: usize) -> (found: Option<usize>)
        ensures
            found == mark_of(self.marks@, at, 0),
            found is Some && self.wf() ==> found->0 <= self.code.code@.len(),
    {
        let mut i: usize = 0;
        while i < self.marks.len()
            invariant
                i <= self.marks@.len(),
                mark_of(self.marks@, at, 0) == mark_of(self.marks@, at, i as int),
            decreases self.marks@.len() - i,
        {
            if self.marks[i].0 == at {
                return Some(self.marks[i].1);
            }
            i = i + 1;
        }
        None
    }

    fn emit_operation(&mut self, op: OpCode, ra: u32, rb: u32) -> (done: bool)
        ensures
            done == (operation(old(self).code.code@, op, ra, rb) is Some),
            done ==> final(self).code.code@ == operation(old(self).code.code@, op, ra, rb)->0,
            final(self).code.code@.len() <= old(self).code.code@.len() + 12,
            old(self).code.code@.len() <= final(self).code.code@.len(),
            final(self).top == old(self).top,
            final(self).marks == old(self).marks,
            final(self).pending == old(self).pending,
            final(self).compared == old(self).compared,
    {
        match op {
            OpCode::Add => {
                self.code.add_reg(ra, ra, rb);
            },
            OpCode::Sub => {
                self.code.sub_reg(ra, ra, rb);
            },
            OpCode::Mul => {
                self.code.mul(ra, ra, rb);
            },
            OpCode::Div => {
                self.code.sdiv(ra, ra, rb);
            },
            OpCode::BitAnd => {
                self.code.and_reg(ra, ra, rb);
            },
            OpCode::BitOr => {
                self.code.orr_reg(ra, ra, rb);
            },
            OpCode::BitXor => {
                self.code.eor_reg(ra, ra, rb);
            },
            OpCode::Shl => {
                self.code.lsl_reg(ra, ra, rb);
            },
            OpCode::Shr => {
                self.code.asr_reg(ra, ra, rb);
            },
            OpCode::UShr => {
                self.code.lsr_reg(ra, ra, rb);
            },
            OpCode::Rem => {
                self.code.sdiv(X0, ra, rb);
                self.code.mul(X0, X0, rb);
                self.code.sub_reg(ra, ra, X0);
            },
            _ => {
                return false;
            },
        }
        true
    }

    fn read_target(chunk: &Chunk, ip: usize) -> (target: Option<usize>)
        requires
            ip + 3 <= chunk.code@.len(),
        ensures
            target == jump_target(chunk@, ip as int),
    {
        assert(chunk.code@.len() == chunk.code.len());
        let distance: i16 = chunk.read_i16(ip + 1);
        let here: usize = ip + 3;
        if distance >= 0 {
            let ahead: usize = distance as usize;
            if chunk.code.len() - here > ahead {
                Some(here + ahead)
            } else {
                None
            }
        } else {
            let behind: usize = (-(distance as i32)) as usize;
            if here >= behind {
                Some(here - behind)
            } else {
                None
            }
        }
    }

    fn read_constant(chunk: &Chunk, op: OpCode, ip: usize) -> (value: Option<i64>)
        requires
            ip + op.size() <= chunk.code@.len(),
        ensures
            value == loaded(chunk@, op, ip as int),
    {
        assert(chunk.code@.len() == chunk.code.len());
        match op {
            OpCode::Zero | OpCode::Undefined | OpCode::False => Some(0),
            OpCode::One | OpCode::True => Some(1),
            OpCode::Const => {
                let index: usize = chunk.read_u16(ip + 1) as usize;
                if index < chunk.constants.len() {
                    integer_of(chunk.constants[index])
                } else {
                    None
                }
            },
            _ => None,
        }
    }

    fn emit_load(&mut self, r: u32, value: i64)
        ensures
            final(self).code.code@ == load(old(self).code.code@, r, value),
            final(self).code.code@.len() <= old(self).code.code@.len() + 16,
            old(self).code.code@.len() <= final(self).code.code@.len(),
            final(self).top == old(self).top,
            final(self).marks == old(self).marks,
            final(self).pending == old(self).pending,
            final(self).compared == old(self).compared,
    {
        proof {
            lemma_imm64_len(r, value as u64);
        }
        if 0 <= value && value <= 0xFFFF {
            self.code.movz(r, value as u16);
        } else {
            self.code.mov_imm64(r, value as u64);
        }
    }

    /// Emit the code of one instruction.
    fn step(&mut self, chunk: &Chunk, op: OpCode, ip: usize) -> (done: bool)
        requires
            ip + op.size() <= chunk.code@.len(),
            old(self).wf(),
            old(self).code.code@.len() <= CODE_LIMIT,
        ensures
            done == (loop_step(chunk@, op, ip as int, old(self).state()) is Some),
            done ==> final(self).state() == loop_step(
                chunk@,
                op,
                ip as int,
                old(self).state(),
            )->0,
            done ==> final(self).wf(),
            done ==> final(self).code.code@.len() <= old(self).code.code@.len() + 64,
    {
        assert(chunk.code@.len() == chunk.code.len());
        match op {
            OpCode::Nop | OpCode::Halt => true,
            OpCode::GetLocal => {
                let slot: usize = chunk.code[ip + 1] as usize;
                match (reg_for(slot), reg_for(self.top)) {
                    (Some(src), Some(dst)) => {
                        self.code.mov_reg(dst, src);
                        self.top = self.top + 1;
                        true
                    },
                    _ => false,
                }
            },
            OpCode::SetLocal => {
                if self.top == 0 {
                    return false;
                }
                let slot: usize = chunk.code[ip + 1] as usize;
                match (reg_for(self.top - 1), reg_for(slot)) {
                    (Some(src), Some(dst)) => {
                        self.code.mov_reg(dst, src);
                        true
                    },
                    _ => false,
                }
            },
            OpCode::Pop => {
                if self.top > 0 {
                    self.top = self.top - 1;
                }
                true
            },
            OpCode::BitNot => {
                if self.top < 1 {
                    return false;
                }
                match reg_for(self.top - 1) {
                    Some(r) => {
                        self.code.mvn(r, r);
                        true
                    },
                    None => false,
                }
            },
            OpCode::JumpIfFalse => self.step_branch(chunk, ip),
            OpCode::Jump => match Self::read_target(chunk, ip) {
                Some(target) => {
                    let at: usize = self.code.offset();
                    self.code.b(0);
                    self.pending.push((target, at));
                    true
                },
                None => false,
            },
            OpCode::Loop => {
                let back: usize = chunk.read_u16(ip + 1) as usize;
                if back > ip + 3 {
                    return false;
                }
                match self.find_mark(ip + 3 - back) {
                    Some(at) => {
                        let here: usize = self.code.offset();
                        self.code.b(at as i32 - here as i32);
                        true
                    },
                    None => false,
                }
            },
            OpCode::Return => {
                if self.top == 0 {
                    return false;
                }
                match reg_for(self.top - 1) {
                    Some(r) => {
                        self.top = self.top - 1;
                        self.code.mov_reg(X0, r);
                        self.emit_epilogue();
                        true
                    },
                    None => false,
                }
            },
            OpCode::ReturnUndefined => {
                self.code.movz(X0, 0);
                self.emit_epilogue();
                true
            },
            OpCode::Zero
            | OpCode::Undefined
            | OpCode::False
            | OpCode::One
            | OpCode::True
            | OpCode::Const => match (Self::read_constant(chunk, op, ip), reg_for(self.top)) {
                (Some(value), Some(r)) => {
                    self.emit_load(r, value);
                    self.top = self.top + 1;
                    true
                },
                _ => false,
            },
            _ => self.step_binary(op),
        }
    }

    /// Emit a branch that is taken where a test fails.
    fn step_branch(&mut self, chunk: &Chunk, ip: usize) -> (done: bool)
        requires
            ip + 3 <= chunk.code@.len(),
            old(self).wf(),
            old(self).code.code@.len() <= CODE_LIMIT,
        ensures
            done == (loop_step(chunk@, OpCode::JumpIfFalse, ip as int, old(self).state()) is Some),
            done ==> final(self).state() == loop_step(
                chunk@,
                OpCode::JumpIfFalse,
                ip as int,
                old(self).state(),
            )->0,
            done ==> final(self).wf(),
            done ==> final(self).code.code@.len() <= old(self).code.code@.len() + 64,
    {
        if self.top == 0 {
            return false;
        }
        let target: usize = match Self::read_target(chunk, ip) {
            Some(target) => target,
            None => {
                return false;
            },
        };
        self.top = self.top - 1;
        let at: usize = self.code.offset();
        match self.compared {
            Some(test) => match test {
                OpCode::Lt => {
                    self.code.b_ge(0);
                },
                OpCode::Le => {
                    self.code.b_gt(0);
                },
                OpCode::Gt => {
                    self.code.b_le(0);
                },
                OpCode::Ge => {
                    self.code.b_lt(0);
                },
                OpCode::Eq | OpCode::StrictEq => {
                    self.code.b_ne(0);
                },
                OpCode::Ne | OpCode::StrictNe => {
                    self.code.b_eq(0);
                },
                _ => {
                    return false;
                },
            },
            None => match reg_for(self.top) {
                Some(r) => {
                    self.code.cbz(r, 0);
                },
                None => {
                    return false;
                },
            },
        }
        self.compared = None;
        self.pending.push((target, at));
        true
    }

    /// Emit a comparison or an operation on two registers.
    fn step_binary(&mut self, op: OpCode) -> (done: bool)
        requires
            old(self).wf(),
        ensures
            ({
                let s = old(self).state();
                let after = if s.top < 2 {
                    None
                } else {
                    match (register((s.top - 2) as nat), register((s.top - 1) as nat)) {
                        (Some(ra), Some(rb)) => if comparing(op) {
                            Some(
                                LoopState {
                                    code: put(s.code, compare_word(ra, rb)),
                                    top: (s.top - 1) as nat,
                                    compared: Some(op),
                                    ..s
                                },
                            )
                        } else {
                            match operation(s.code, op, ra, rb) {
                                Some(code) => Some(
                                    LoopState { code, top: (s.top - 1) as nat, ..s },
                                ),
                                None => None,
                            }
                        },
                        _ => None,
                    }
                };
                done == (after is Some) && (done ==> final(self).state() == after->0)
            }),
            done ==> final(self).wf(),
            done ==> final(self).code.code@.len() <= old(self).code.code@.len() + 64,
    {
        if self.top < 2 {
            return false;
        }
        match (reg_for(self.top - 2), reg_for(self.top - 1)) {
            (Some(ra), Some(rb)) => {
                match op {
                    OpCode::Lt
                    | OpCode::Le
                    | OpCode::Gt
                    | OpCode::Ge
                    | OpCode::Eq
                    | OpCode::Ne
                    | OpCode::StrictEq
                    | OpCode::StrictNe => {
                        emit_compare(&mut self.code, ra, rb);
                        self.compared = Some(op);
                    },
                    _ => {
                        if !self.emit_operation(op, ra, rb) {
                            return false;
                        }
                    },
                }
                self.top = self.top - 1;
                true
            },
            _ => false,
        }
    }

    /// Lead the branches to their targets.
    fn resolve(&mut self) -> (done: bool)
        requires
            old(self).wf(),
            old(self).code.code@.len() <= CODE_LIMIT + 64,
        ensures
            ({
                let s = old(self).state();
                let after = resolved(s.code, s.marks, s.pending, 0);
                done == (after is Some) && (done ==> final(self).code.code@ == after->0)
            }),
    {
        let mut i: usize = 0;
        while i < self.pending.len()
            invariant
                i <= self.pending@.len(),
                self.pending == old(self).pending,
                self.marks == old(self).marks,
                self.wf(),
                self.code.code@.len() <= CODE_LIMIT + 64,
                resolved(self.code.code@, self.marks@, self.pending@, i as int) == resolved(
                    old(self).code.code@,
                    old(self).marks@,
                    old(self).pending@,
                    0,
                ),
            decreases self.pending@.len() - i,
        {
            let (at, from) = self.pending[i];
            match self.find_mark(at) {
                Some(target) => {
                    let ghost before = self.code.code@;
                    self.code.patch_branch(from, target);
                    assert(self.code.code@.len() == before.len());
                    i = i + 1;
                },
                None => {
                    return false;
                },
            }
        }
        true
    }
}

proof fn lemma_imm64_len(r: u32, value: u64)
    ensures
        arm64::words_bytes(arm64::imm64_words(r, value)).len() <= 16,
{
    lemma_words_len(arm64::imm64_words(r, value));
}

proof fn lemma_words_len(words: Seq<u32>)
    ensures
        arm64::words_bytes(words).len() == 4 * words.len(),
    decreases words.len(),
{
    if words.len() > 0 {
        lemma_words_len(words.drop_last());
    }
}

/// Emit ARM64 for a loop-based numeric function by walking the bytecode.
fn emit_loop_function(chunk: &Chunk) -> (function: Option<JitFunction>)
    ensures
        compiled(
            function,
            match loop_code(chunk@) {
                Some(code) => Some(JitView { code, param_count: chunk.param_count as u8 }),
                None => None,
            },
        ),
{
    reveal(loop_code);
    let mut code = Assembler::new();
    assert(code.code@ =~= Seq::empty());
    code.stp_pre(X29, X30, SP, -64);
    code.mov_reg(X29, SP);
    code.str_imm(X19, SP, 16);
    code.str_imm(X20, SP, 24);
    code.str_imm(X21, SP, 32);
    code.str_imm(X22, SP, 40);
    code.str_imm(X23, SP, 48);
    if chunk.param_count >= 1 {
        code.mov_reg(X19, X0);
    }
    if chunk.param_count >= 2 {
        code.mov_reg(X20, X1);
    }
    if chunk.param_count >= 3 {
        code.mov_reg(X21, X2);
    }
    let mut emitter = LoopEmitter {
        code,
        top: chunk.param_count as usize,
        compared: None,
        marks: Vec::new(),
        pending: Vec::new(),
    };
    let ghost start = emitter.state();
    assert(start.marks =~= Seq::empty());
    assert(start.pending =~= Seq::empty());
    let mut ip: usize = 0;
    while ip < chunk.code.len()
        invariant
            ip <= chunk.code@.len(),
            emitter.wf(),
            emitter.code.code@.len() <= CODE_LIMIT + 64,
            loop_walk(chunk@, ip as int, emitter.state()) == loop_walk(chunk@, 0, start),
            loop_code(chunk@) == match loop_walk(chunk@, 0, start) {
                Some(s) => resolved(s.code, s.marks, s.pending, 0),
                None => None,
            },
        decreases chunk.code@.len() - ip,
    {
        match OpCode::from_byte(chunk.code[ip]) {
            None => {
                return None;
            },
            Some(op) => {
                let size: usize = op.instruction_size();
                if chunk.code.len() - ip < size || emitter.code.offset() > CODE_LIMIT {
                    return None;
                }
                let at: usize = emitter.code.offset();
                emitter.marks.push((ip, at));
                if !emitter.step(chunk, op, ip) {
                    return None;
                }
                ip = ip + size;
            },
        }
    }
    if !emitter.resolve() {
        return None;
    }
    Some(JitFunction { code: emitter.code.code, param_count: chunk.param_count as u8 })
}

} // verus!
