//! What a loop function computes, as bytecode on 64-bit integers and as ARM64 code that runs
//! on a processor.

use vstd::prelude::*;
use crate::compiler::chunk;
use crate::compiler::chunk::ChunkView;
use crate::compiler::opcode::OpCode;
use crate::jit::arm64;
use crate::jit::compiler;
use crate::jit::compiler::LoopState;
use crate::jit::machine;
use crate::jit::machine::Machine;

verus! {

/// A processor: its registers, where the next instruction stands, the stack pointer, and the
/// words of memory by their address.
#[verifier::ext_equal]
pub struct Cpu {
    pub core: Machine,
    pub pc: int,
    pub sp: int,
    pub memory: Map<int, u64>,
}

/// The instruction that returns.
pub const RET: u32 = 0xD65F03C0;

/// The number that a field spells whose sign weighs `half`.
pub open spec fn signed(field: u32, half: int) -> int {
    if field < half {
        field as int
    } else {
        field - 2 * half
    }
}

/// The processor behind an instruction word that branches, touches the stack or computes.
pub open spec fn executed(word: u32, cpu: Cpu) -> Option<Cpu> {
    let next = Cpu { pc: cpu.pc + 4, ..cpu };
    let near = Cpu { pc: cpu.pc + 4 * signed((word >> 5) & 0x7FFFF, 0x40000), ..cpu };
    let top = word >> 24;
    let rt = word & 31;
    let rt2 = (word >> 10) & 31;
    let on_stack = (word >> 5) & 31 == 31;
    let pair = 8 * signed((word >> 15) & 0x7F, 64);
    let single = 8 * ((word >> 10) & 0xFFF);
    let form = word & 0xFFC00000;
    if top == 0x14 || top == 0x15 || top == 0x16 || top == 0x17 {
        Some(Cpu { pc: cpu.pc + 4 * signed(word & 0x3FFFFFF, 0x2000000), ..cpu })
    } else if top == 0x54 {
        if machine::taken(word & 15, cpu.core.compared.0, cpu.core.compared.1) {
            Some(near)
        } else {
            Some(next)
        }
    } else if top == 0xB4 {
        if cpu.core.get(rt) == 0 {
            Some(near)
        } else {
            Some(next)
        }
    } else if form == 0xA9800000 && on_stack {
        let sp = cpu.sp + pair;
        let memory = cpu.memory.insert(sp, cpu.core.get(rt)).insert(sp + 8, cpu.core.get(rt2));
        Some(Cpu { sp, memory, ..next })
    } else if form == 0xA8C00000 && on_stack {
        let core = cpu.core.put(rt, cpu.memory[cpu.sp]).put(rt2, cpu.memory[cpu.sp + 8]);
        Some(Cpu { core, sp: cpu.sp + pair, ..next })
    } else if form == 0xF9000000 && on_stack {
        Some(Cpu { memory: cpu.memory.insert(cpu.sp + single, cpu.core.get(rt)), ..next })
    } else if form == 0xF9400000 && on_stack {
        Some(Cpu { core: cpu.core.put(rt, cpu.memory[cpu.sp + single]), ..next })
    } else {
        match machine::step(cpu.core, word) {
            Some(core) => Some(Cpu { core, ..next }),
            None => None,
        }
    }
}

/// The processor behind the next instruction of the code.
pub open spec fn advance(code: Seq<u8>, cpu: Cpu) -> Option<Cpu> {
    if 0 <= cpu.pc && cpu.pc + 4 <= code.len() {
        executed(arm64::word_at(code, cpu.pc), cpu)
    } else {
        None
    }
}

/// The processor behind so many instructions of the code.
pub open spec fn run_for(code: Seq<u8>, cpu: Cpu, steps: nat) -> Option<Cpu>
    decreases steps,
{
    if steps == 0 {
        Some(cpu)
    } else {
        match advance(code, cpu) {
            Some(next) => run_for(code, next, (steps - 1) as nat),
            None => None,
        }
    }
}

/// Whether the processor stands at the return instruction.
pub open spec fn returning(code: Seq<u8>, cpu: Cpu) -> bool {
    0 <= cpu.pc && cpu.pc + 4 <= code.len() && arm64::word_at(code, cpu.pc) == RET
}

/// Whether a register is one that a function hands back as it found it: X19 to X23, the frame
/// pointer and the return address.
pub open spec fn preserved(r: int) -> bool {
    19 <= r <= 23 || r == 29 || r == 30
}

/// Whether code that is called on a processor returns a value, with the stack pointer and the
/// preserved registers as they were.
pub open spec fn hands_back(code: Seq<u8>, cpu: Cpu, value: u64) -> bool {
    exists|steps: nat| #[trigger] hands_back_after(code, cpu, value, steps)
}

/// Whether code that is called on a processor returns a value behind so many instructions.
pub open spec fn hands_back_after(code: Seq<u8>, cpu: Cpu, value: u64, steps: nat) -> bool {
    match run_for(code, cpu, steps) {
        Some(end) => {
            &&& returning(code, end)
            &&& end.core.regs.len() == 31
            &&& end.core.regs[0] == value
            &&& end.sp == cpu.sp
            &&& forall|r: int| preserved(r) ==> #[trigger] end.core.regs[r] == cpu.core.regs[r]
        },
        None => false,
    }
}

/// A value of the bytecode: a 64-bit integer, or the truth value that a comparison leaves.
pub enum Cell {
    Number(u64),
    Truth(bool),
}

/// Bytecode that runs: the next instruction, the stack with the locals at its bottom, and the
/// numbers that were compared last.
pub struct Frame {
    pub ip: int,
    pub stack: Seq<Cell>,
    pub last: Option<(u64, u64)>,
}

/// How bytecode goes on behind an instruction.
pub enum Course {
    Runs(Frame),
    Returns(u64),
    Stuck,
}

/// The stack behind an instruction that reads or assigns a local, loads a constant, drops a
/// value or calculates. Only numbers are calculated with.
pub open spec fn cell_effect(c: ChunkView, op: OpCode, ip: int, stack: Seq<Cell>) -> Option<
    Seq<Cell>,
> {
    let n = stack.len();
    let slot = c.code[ip + 1] as int;
    if op == OpCode::GetLocal {
        if slot < n {
            Some(stack.push(stack[slot]))
        } else {
            None
        }
    } else if op == OpCode::SetLocal {
        if 0 < n && slot < n {
            Some(stack.update(slot, stack.last()))
        } else {
            None
        }
    } else if op == OpCode::Pop {
        if 0 < n {
            Some(stack.drop_last())
        } else {
            None
        }
    } else if op == OpCode::BitNot {
        if 0 < n && stack.last() is Number {
            Some(stack.update(n - 1, Cell::Number(!stack.last()->Number_0)))
        } else {
            None
        }
    } else if compiler::loading(op) {
        match compiler::loaded(c, op, ip) {
            Some(value) => Some(stack.push(Cell::Number(value as u64))),
            None => None,
        }
    } else if machine::calculating(op) {
        if 2 <= n && stack[n - 2] is Number && stack[n - 1] is Number {
            let value = machine::calculated(op, stack[n - 2]->Number_0, stack[n - 1]->Number_0);
            Some(stack.drop_last().update(n - 2, Cell::Number(value)))
        } else {
            None
        }
    } else {
        None
    }
}

/// Whether a value counts as true: a number other than zero, or the truth value true.
pub open spec fn truthy(cell: Cell) -> bool {
    match cell {
        Cell::Number(v) => v != 0,
        Cell::Truth(truth) => truth,
    }
}

/// How bytecode goes on behind its next instruction. Truth values are kept, dropped and
/// branched on; only numbers are compared and returned. `undefined` counts as zero.
pub open spec fn course(c: ChunkView, f: Frame) -> Course {
    let op = compiler::op_at(c.code, f.ip);
    let next = f.ip + op.size();
    let n = f.stack.len();
    if f.ip < 0 || f.ip >= c.code.len() || next > c.code.len() {
        Course::Stuck
    } else if op == OpCode::Nop {
        Course::Runs(Frame { ip: next, ..f })
    } else if op == OpCode::JumpIfFalse {
        if n == 0 {
            Course::Stuck
        } else {
            let stack = f.stack.drop_last();
            match compiler::jump_target(c, f.ip) {
                Some(target) => Course::Runs(
                    Frame {
                        ip: if truthy(f.stack.last()) {
                            next
                        } else {
                            target as int
                        },
                        stack,
                        ..f
                    },
                ),
                None => Course::Stuck,
            }
        }
    } else if op == OpCode::Jump {
        match compiler::jump_target(c, f.ip) {
            Some(target) => Course::Runs(Frame { ip: target as int, ..f }),
            None => Course::Stuck,
        }
    } else if op == OpCode::Loop {
        Course::Runs(Frame { ip: next - back_distance(c, f.ip), ..f })
    } else if op == OpCode::Return {
        if n > 0 && f.stack.last() is Number {
            Course::Returns(f.stack.last()->Number_0)
        } else {
            Course::Stuck
        }
    } else if op == OpCode::ReturnUndefined {
        Course::Returns(0)
    } else if compiler::comparing(op) {
        if 2 <= n && f.stack[n - 2] is Number && f.stack[n - 1] is Number {
            let (a, b) = (f.stack[n - 2]->Number_0, f.stack[n - 1]->Number_0);
            let truth = machine::true_of(op, a, b);
            Course::Runs(
                Frame {
                    ip: next,
                    stack: f.stack.drop_last().update(n - 2, Cell::Truth(truth)),
                    last: Some((a, b)),
                },
            )
        } else {
            Course::Stuck
        }
    } else {
        match cell_effect(c, op, f.ip, f.stack) {
            Some(stack) => Course::Runs(Frame { ip: next, stack, ..f }),
            None => Course::Stuck,
        }
    }
}

/// How far back a `Loop` leads from behind it.
pub open spec fn back_distance(c: ChunkView, ip: int) -> int {
    chunk::spell16(c.code[ip + 1], c.code[ip + 2]) as int
}

/// The value that bytecode returns within so many instructions.
pub open spec fn value_within(c: ChunkView, f: Frame, steps: nat) -> Option<u64>
    decreases steps,
{
    match course(c, f) {
        Course::Returns(value) => Some(value),
        Course::Runs(next) => if steps == 0 {
            None
        } else {
            value_within(c, next, (steps - 1) as nat)
        },
        Course::Stuck => None,
    }
}

/// A loop function that is called with arguments.
pub open spec fn called(args: Seq<u64>) -> Frame {
    Frame { ip: 0, stack: args.map_values(|v: u64| Cell::Number(v)), last: None }
}

/// The state behind the instruction at a position, its place in the code noted.
pub open spec fn stepped(c: ChunkView, ip: int, s: LoopState) -> Option<LoopState> {
    match OpCode::of_byte(c.code[ip]) {
        Some(op) => if ip + op.size() > c.code.len() || s.code.len() > compiler::CODE_LIMIT {
            None
        } else {
            let marked = LoopState {
                marks: s.marks.push((ip as usize, s.code.len() as usize)),
                ..s
            };
            compiler::loop_step(c, op, ip, marked)
        },
        None => None,
    }
}

/// The state in which the compilation comes to a position, from another on.
pub open spec fn before(c: ChunkView, from: int, s: LoopState, ip: int) -> Option<LoopState>
    decreases c.code.len() - from,
{
    if from == ip {
        Some(s)
    } else if from > ip || from < 0 || from >= c.code.len() {
        None
    } else {
        match stepped(c, from, s) {
            Some(t) => before(c, from + compiler::op_at(c.code, from).size(), t, ip),
            None => None,
        }
    }
}

/// The state in which the compilation of a loop function starts.
pub open spec fn first_state(c: ChunkView) -> LoopState {
    LoopState {
        code: compiler::prologue(c.param_count),
        top: c.param_count as nat,
        compared: None,
        marks: Seq::empty(),
        pending: Seq::empty(),
    }
}

/// The state in which the compilation comes to an instruction.
pub open spec fn state_at(c: ChunkView, ip: int) -> Option<LoopState> {
    before(c, 0, first_state(c), ip)
}

/// The instruction that a jump leads to.
pub open spec fn led_to(c: ChunkView, ip: int) -> Option<int> {
    let op = compiler::op_at(c.code, ip);
    if op == OpCode::Jump || op == OpCode::JumpIfFalse {
        match compiler::jump_target(c, ip) {
            Some(target) => Some(target as int),
            None => None,
        }
    } else if op == OpCode::Loop {
        Some(ip + 3 - back_distance(c, ip))
    } else {
        None
    }
}

/// Whether an instruction is a `JumpIfFalse` that goes by the comparison compiled last.
pub open spec fn fused(c: ChunkView, ip: int) -> bool {
    state_at(c, ip) matches Some(s) && s.compared is Some && ip < c.code.len()
        && compiler::op_at(c.code, ip) == OpCode::JumpIfFalse
}

/// Whether bytecode is at an instruction as the compilation took it to be: with the stack as
/// high; at a `JumpIfFalse` that goes by a comparison, with the truth of that comparison of the
/// numbers compared last on top; and at any other `JumpIfFalse` with a number on top.
pub open spec fn met(c: ChunkView, f: Frame) -> bool {
    state_at(c, f.ip) matches Some(s) && {
        &&& s.top == f.stack.len()
        &&& f.ip < c.code.len() && compiler::op_at(c.code, f.ip) == OpCode::JumpIfFalse
            && f.stack.len() > 0 ==> match (s.compared, f.last) {
            (Some(test), Some((a, b))) => truthy(f.stack.last()) == machine::true_of(test, a, b),
            (Some(_), None) => false,
            (None, _) => f.stack.last() is Number,
        }
    }
}

/// Whether bytecode that runs so many instructions is at each as the compilation took it to be.
pub open spec fn in_step(c: ChunkView, f: Frame, steps: nat) -> bool
    decreases steps,
{
    &&& met(c, f)
    &&& steps > 0 ==> (course(c, f) matches Course::Runs(next) ==> in_step(
        c,
        next,
        (steps - 1) as nat,
    ))
}

/// Whether a chunk compares only for conditions, and its jumps fit together: a `JumpIfFalse`
/// stands right behind each comparison, and no other goes by one; each jump arrives with the
/// stack as high as the code in front of its target leaves it, and not between a comparison
/// and its `JumpIfFalse`.
pub open spec fn settled(c: ChunkView) -> bool {
    forall|ip: int| (#[trigger] state_at(c, ip)) is Some && ip < c.code.len() ==> settled_at(c, ip)
}

/// Whether a chunk is settled at an instruction.
pub open spec fn settled_at(c: ChunkView, ip: int) -> bool {
    let s = state_at(c, ip)->0;
    let op = compiler::op_at(c.code, ip);
    &&& compiler::comparing(op) ==> fused(c, ip + 1)
    &&& fused(c, ip) ==> state_at(c, ip - 1) is Some && compiler::comparing(
        compiler::op_at(c.code, ip - 1),
    )
    &&& led_to(c, ip) matches Some(target) ==> !fused(c, target) && (state_at(
        c,
        target,
    ) matches Some(t) ==> t.top == s.top - (if op == OpCode::JumpIfFalse {
        1int
    } else {
        0
    }))
}

} // verus!
