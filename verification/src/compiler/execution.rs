//! What bytecode does when it runs, instruction by instruction, on whole numbers, truth values,
//! names and objects.

use vstd::prelude::*;
use vstd::arithmetic::power;
use vstd::arithmetic::power2;
use crate::compiler::chunk;
use crate::compiler::chunk::ChunkView;
use crate::compiler::opcode;
use crate::compiler::opcode::OpCode;
use crate::runtime::value::Value;
use crate::util::interner::StringId;

verus! {

/// A value of a running program. Numbers are whole here: with those, floating point is exact.
pub enum Datum {
    Undefined,
    Null,
    Bool(bool),
    Number(int),
    Name(StringId),
    Object(int),
    Kind(int),
}

/// A running function: the next instruction, the stack with the locals at its bottom, and
/// what it shares with others: globals, captured variables, the fields of objects, which
/// objects are instances of which, and the completion value.
#[verifier::ext_equal]
pub struct Run {
    pub ip: int,
    pub stack: Seq<Datum>,
    pub globals: Map<StringId, Datum>,
    pub captured: Map<int, Datum>,
    pub fields: Map<(int, Datum), Datum>,
    pub instances: Map<(int, int), bool>,
    pub completion: Datum,
}

/// Whether a value counts as true. Texts are left open: the empty one does not.
pub open spec fn truth(d: Datum) -> Option<bool> {
    match d {
        Datum::Undefined | Datum::Null => Some(false),
        Datum::Bool(b) => Some(b),
        Datum::Number(n) => Some(n != 0),
        Datum::Object(_) => Some(true),
        Datum::Name(_) | Datum::Kind(_) => None,
    }
}

/// Whether a value is `undefined` or `null`.
pub open spec fn nullish(d: Datum) -> bool {
    d is Undefined || d is Null
}

/// The number that a value is taken for.
pub open spec fn numeric(d: Datum) -> Option<int> {
    match d {
        Datum::Null => Some(0int),
        Datum::Bool(b) => Some(if b {
            1int
        } else {
            0int
        }),
        Datum::Number(n) => Some(n),
        _ => None,
    }
}

/// Whether two values are equal under conversion.
pub open spec fn loosely_equal(a: Datum, b: Datum) -> bool {
    if nullish(a) || nullish(b) {
        nullish(a) && nullish(b)
    } else {
        match (numeric(a), numeric(b)) {
            (Some(x), Some(y)) => x == y,
            _ => a == b,
        }
    }
}

/// The type that `typeof` tells of a value, by a number of its own.
pub open spec fn kind(d: Datum) -> Datum {
    match d {
        Datum::Undefined => Datum::Kind(0),
        Datum::Bool(_) => Datum::Kind(1),
        Datum::Number(_) => Datum::Kind(2),
        Datum::Name(_) | Datum::Kind(_) => Datum::Kind(3),
        Datum::Null | Datum::Object(_) => Datum::Kind(4),
    }
}

/// Whether a number fits 32 bits with a sign.
pub open spec fn small(n: int) -> bool {
    -0x8000_0000 <= n < 0x8000_0000
}

/// What an instruction makes of the number on top of the stack.
pub open spec fn made_of_one(op: OpCode, a: Datum) -> Option<Datum> {
    match op {
        OpCode::Not => match truth(a) {
            Some(t) => Some(Datum::Bool(!t)),
            None => None,
        },
        OpCode::TypeOf => Some(kind(a)),
        OpCode::Void => Some(Datum::Undefined),
        _ => match numeric(a) {
            Some(n) => match op {
                OpCode::Neg => Some(Datum::Number(-n)),
                OpCode::Pos | OpCode::ToNumeric => Some(Datum::Number(n)),
                OpCode::Inc => Some(Datum::Number(n + 1)),
                OpCode::Dec => Some(Datum::Number(n - 1)),
                OpCode::BitNot => if small(n) {
                    Some(Datum::Number(-n - 1))
                } else {
                    None
                },
                _ => None,
            },
            None => None,
        },
    }
}

/// What an instruction makes of two numbers.
pub open spec fn made_of_numbers(op: OpCode, a: int, b: int) -> Option<Datum> {
    match op {
        OpCode::Add => Some(Datum::Number(a + b)),
        OpCode::Sub => Some(Datum::Number(a - b)),
        OpCode::Mul => Some(Datum::Number(a * b)),
        OpCode::Div => if b != 0 && a % b == 0 {
            Some(Datum::Number(a / b))
        } else {
            None
        },
        OpCode::Rem => if a >= 0 && b > 0 {
            Some(Datum::Number(a % b))
        } else {
            None
        },
        OpCode::Exp => if b >= 0 {
            Some(Datum::Number(power::pow(a, b as nat)))
        } else {
            None
        },
        OpCode::BitAnd => if small(a) && small(b) {
            Some(Datum::Number(((a as i32) & (b as i32)) as int))
        } else {
            None
        },
        OpCode::BitOr => if small(a) && small(b) {
            Some(Datum::Number(((a as i32) | (b as i32)) as int))
        } else {
            None
        },
        OpCode::BitXor => if small(a) && small(b) {
            Some(Datum::Number(((a as i32) ^ (b as i32)) as int))
        } else {
            None
        },
        OpCode::Shl => if 0 <= b < 32 && small(a * power2::pow2(b as nat)) {
            Some(Datum::Number(a * power2::pow2(b as nat)))
        } else {
            None
        },
        OpCode::Shr => if 0 <= b < 32 && small(a) {
            Some(Datum::Number(a / power2::pow2(b as nat) as int))
        } else {
            None
        },
        OpCode::UShr => if 0 <= b < 32 && small(a) {
            Some(Datum::Number((a % 0x1_0000_0000) / power2::pow2(b as nat) as int))
        } else {
            None
        },
        OpCode::Lt => Some(Datum::Bool(a < b)),
        OpCode::Le => Some(Datum::Bool(a <= b)),
        OpCode::Gt => Some(Datum::Bool(a > b)),
        OpCode::Ge => Some(Datum::Bool(a >= b)),
        _ => None,
    }
}

/// What an instruction makes of the two values on top of the stack.
pub open spec fn made_of_two(op: OpCode, a: Datum, b: Datum, r: Run) -> Option<Datum> {
    match op {
        OpCode::StrictEq => Some(Datum::Bool(a == b)),
        OpCode::StrictNe => Some(Datum::Bool(a != b)),
        OpCode::Eq => Some(Datum::Bool(loosely_equal(a, b))),
        OpCode::Ne => Some(Datum::Bool(!loosely_equal(a, b))),
        OpCode::In => match b {
            Datum::Object(o) => Some(Datum::Bool(r.fields.contains_key((o, a)))),
            _ => None,
        },
        OpCode::InstanceOf => match (a, b) {
            (Datum::Object(o), Datum::Object(class)) => Some(
                Datum::Bool(r.instances.contains_key((o, class))),
            ),
            _ => None,
        },
        _ => match (a, b) {
            (Datum::Number(x), Datum::Number(y)) => made_of_numbers(op, x, y),
            _ => None,
        },
    }
}

/// Whether an instruction replaces the value on top of the stack.
pub open spec fn takes_one(op: OpCode) -> bool {
    match op {
        OpCode::Not
        | OpCode::TypeOf
        | OpCode::Void
        | OpCode::Neg
        | OpCode::Pos
        | OpCode::ToNumeric
        | OpCode::Inc
        | OpCode::Dec
        | OpCode::BitNot => true,
        _ => false,
    }
}

/// Whether an instruction replaces the two values on top of the stack.
pub open spec fn takes_two(op: OpCode) -> bool {
    match op {
        OpCode::StrictEq
        | OpCode::StrictNe
        | OpCode::Eq
        | OpCode::Ne
        | OpCode::In
        | OpCode::InstanceOf
        | OpCode::Add
        | OpCode::Sub
        | OpCode::Mul
        | OpCode::Div
        | OpCode::Rem
        | OpCode::Exp
        | OpCode::BitAnd
        | OpCode::BitOr
        | OpCode::BitXor
        | OpCode::Shl
        | OpCode::Shr
        | OpCode::UShr
        | OpCode::Lt
        | OpCode::Le
        | OpCode::Gt
        | OpCode::Ge => true,
        _ => false,
    }
}

/// The value of a constant.
pub open spec fn datum(value: Value) -> Option<Datum> {
    match value {
        Value::Undefined => Some(Datum::Undefined),
        Value::Null => Some(Datum::Null),
        Value::Bool(b) => Some(Datum::Bool(b)),
        Value::Int(i) => Some(Datum::Number(i as int)),
        Value::Str(id) => Some(Datum::Name(id)),
        _ => None,
    }
}

/// The 16-bit operand behind the opcode at a position.
pub open spec fn operand(c: ChunkView, ip: int) -> int {
    chunk::spell16(c.code[ip + 1], c.code[ip + 2]) as int
}

/// The name that the operand behind an opcode stands for.
pub open spec fn named(c: ChunkView, ip: int) -> Option<StringId> {
    if operand(c, ip) < c.constants.len() {
        match c.constants[operand(c, ip)] {
            Value::Str(id) => Some(id),
            _ => None,
        }
    } else {
        None
    }
}

/// A place that holds a variable.
pub enum Place {
    Local(int),
    Captured(int),
    Global(StringId),
}

/// The value at a place.
pub open spec fn value_at(r: Run, place: Place) -> Option<Datum> {
    match place {
        Place::Local(slot) => if 0 <= slot < r.stack.len() {
            Some(r.stack[slot])
        } else {
            None
        },
        Place::Captured(index) => if r.captured.contains_key(index) {
            Some(r.captured[index])
        } else {
            None
        },
        Place::Global(name) => if r.globals.contains_key(name) {
            Some(r.globals[name])
        } else {
            None
        },
    }
}

/// The program with a value put at a place.
pub open spec fn put_at(r: Run, place: Place, value: Datum) -> Run {
    match place {
        Place::Local(slot) => Run { stack: r.stack.update(slot, value), ..r },
        Place::Captured(index) => Run { captured: r.captured.insert(index, value), ..r },
        Place::Global(name) => Run { globals: r.globals.insert(name, value), ..r },
    }
}

/// The place that an instruction reads, and whether it does.
pub open spec fn place_read(c: ChunkView, op: OpCode, ip: int) -> Option<Place> {
    match op {
        OpCode::GetLocal => Some(Place::Local(c.code[ip + 1] as int)),
        OpCode::GetLocalWide => Some(Place::Local(operand(c, ip))),
        OpCode::GetUpvalue => Some(Place::Captured(c.code[ip + 1] as int)),
        OpCode::GetUpvalueWide => Some(Place::Captured(operand(c, ip))),
        OpCode::GetGlobal => match named(c, ip) {
            Some(name) => Some(Place::Global(name)),
            None => None,
        },
        _ => None,
    }
}

/// The place that an instruction assigns, and whether it does.
pub open spec fn place_set(c: ChunkView, op: OpCode, ip: int) -> Option<Place> {
    match op {
        OpCode::SetLocal => Some(Place::Local(c.code[ip + 1] as int)),
        OpCode::SetLocalWide => Some(Place::Local(operand(c, ip))),
        OpCode::SetUpvalue => Some(Place::Captured(c.code[ip + 1] as int)),
        OpCode::SetUpvalueWide => Some(Place::Captured(operand(c, ip))),
        OpCode::SetGlobal => match named(c, ip) {
            Some(name) => Some(Place::Global(name)),
            None => None,
        },
        _ => None,
    }
}

/// The stack behind an instruction that only pushes, drops or moves values.
pub open spec fn arranged(c: ChunkView, op: OpCode, ip: int, s: Seq<Datum>) -> Option<Seq<Datum>> {
    let n = s.len() as int;
    match op {
        OpCode::Nop | OpCode::BeginParamExpr | OpCode::EndParamExpr | OpCode::InitLet => Some(s),
        OpCode::Undefined => Some(s.push(Datum::Undefined)),
        OpCode::Null => Some(s.push(Datum::Null)),
        OpCode::True => Some(s.push(Datum::Bool(true))),
        OpCode::False => Some(s.push(Datum::Bool(false))),
        OpCode::Zero => Some(s.push(Datum::Number(0))),
        OpCode::One => Some(s.push(Datum::Number(1))),
        OpCode::Const => if operand(c, ip) < c.constants.len() {
            match datum(c.constants[operand(c, ip)]) {
                Some(d) => Some(s.push(d)),
                None => None,
            }
        } else {
            None
        },
        OpCode::Pop => if n > 0 {
            Some(s.drop_last())
        } else {
            None
        },
        OpCode::PopN => if n >= c.code[ip + 1] {
            Some(s.take(n - c.code[ip + 1]))
        } else {
            None
        },
        OpCode::Dup => if n > 0 {
            Some(s.push(s.last()))
        } else {
            None
        },
        OpCode::Dup2 => if n > 1 {
            Some(s.push(s[n - 2]).push(s[n - 1]))
        } else {
            None
        },
        OpCode::Swap => if n > 1 {
            Some(s.take(n - 2).push(s[n - 1]).push(s[n - 2]))
        } else {
            None
        },
        OpCode::Rot3 => if n > 2 {
            Some(s.take(n - 3).push(s[n - 1]).push(s[n - 3]).push(s[n - 2]))
        } else {
            None
        },
        _ => None,
    }
}

/// The value of a field; a missing one is `undefined`.
pub open spec fn field(r: Run, object: int, key: Datum) -> Datum {
    if r.fields.contains_key((object, key)) {
        r.fields[(object, key)]
    } else {
        Datum::Undefined
    }
}

/// The program behind an instruction that reads or assigns a field.
pub open spec fn accessed(c: ChunkView, op: OpCode, r: Run, next: int) -> Option<Run> {
    let s = r.stack;
    let n = s.len() as int;
    match op {
        OpCode::GetProperty => match named(c, r.ip) {
            Some(name) => if n > 0 && s[n - 1] is Object {
                let value = field(r, s[n - 1]->Object_0, Datum::Name(name));
                Some(Run { ip: next, stack: s.take(n - 1).push(value), ..r })
            } else {
                None
            },
            None => None,
        },
        OpCode::SetProperty => match named(c, r.ip) {
            Some(name) => if n > 1 && s[n - 2] is Object {
                let at = (s[n - 2]->Object_0, Datum::Name(name));
                Some(
                    Run {
                        ip: next,
                        stack: s.take(n - 2).push(s[n - 1]),
                        fields: r.fields.insert(at, s[n - 1]),
                        ..r
                    },
                )
            } else {
                None
            },
            None => None,
        },
        OpCode::GetElement => if n > 1 && s[n - 2] is Object {
            let value = field(r, s[n - 2]->Object_0, s[n - 1]);
            Some(Run { ip: next, stack: s.take(n - 2).push(value), ..r })
        } else {
            None
        },
        OpCode::SetElement => if n > 2 && s[n - 3] is Object {
            let at = (s[n - 3]->Object_0, s[n - 2]);
            Some(
                Run {
                    ip: next,
                    stack: s.take(n - 3).push(s[n - 1]),
                    fields: r.fields.insert(at, s[n - 1]),
                    ..r
                },
            )
        } else {
            None
        },
        _ => None,
    }
}

/// Where a jump leads.
pub open spec fn jump_to(c: ChunkView, ip: int) -> int {
    ip + 3 + (chunk::spell16(c.code[ip + 1], c.code[ip + 2]) as i16)
}

/// The program behind an instruction that may jump.
pub open spec fn jumped(c: ChunkView, op: OpCode, r: Run) -> Option<Run> {
    let next = r.ip + 3;
    let target = jump_to(c, r.ip);
    let n = r.stack.len();
    match op {
        OpCode::Jump => Some(Run { ip: target, ..r }),
        OpCode::Loop => Some(Run { ip: next - operand(c, r.ip), ..r }),
        _ => if n == 0 {
            None
        } else {
            let top = r.stack.last();
            let popped = r.stack.drop_last();
            match op {
                OpCode::JumpIfNullishPeek => Some(
                    Run {
                        ip: if nullish(top) {
                            target
                        } else {
                            next
                        },
                        ..r
                    },
                ),
                OpCode::OptionalChain => if nullish(top) {
                    Some(Run { ip: target, stack: popped.push(Datum::Undefined), ..r })
                } else {
                    Some(Run { ip: next, ..r })
                },
                _ => match truth(top) {
                    Some(t) => match op {
                        OpCode::JumpIfFalse => Some(
                            Run {
                                ip: if t {
                                    next
                                } else {
                                    target
                                },
                                stack: popped,
                                ..r
                            },
                        ),
                        OpCode::JumpIfTrue => Some(
                            Run {
                                ip: if t {
                                    target
                                } else {
                                    next
                                },
                                stack: popped,
                                ..r
                            },
                        ),
                        OpCode::JumpIfFalsePeek => Some(
                            Run {
                                ip: if t {
                                    next
                                } else {
                                    target
                                },
                                ..r
                            },
                        ),
                        OpCode::JumpIfTruePeek => Some(
                            Run {
                                ip: if t {
                                    target
                                } else {
                                    next
                                },
                                ..r
                            },
                        ),
                        _ => None,
                    },
                    None => None,
                },
            }
        },
    }
}

/// Whether an instruction may jump.
pub open spec fn jumps(op: OpCode) -> bool {
    match op {
        OpCode::Jump
        | OpCode::Loop
        | OpCode::JumpIfNullishPeek
        | OpCode::OptionalChain
        | OpCode::JumpIfFalse
        | OpCode::JumpIfTrue
        | OpCode::JumpIfFalsePeek
        | OpCode::JumpIfTruePeek => true,
        _ => false,
    }
}

/// The program behind an instruction.
#[verifier::opaque]
pub open spec fn performed(c: ChunkView, op: OpCode, r: Run) -> Option<Run> {
    let next = r.ip + op.size();
    let n = r.stack.len() as int;
    if jumps(op) {
        jumped(c, op, r)
    } else if takes_one(op) {
        if n > 0 {
            match made_of_one(op, r.stack.last()) {
                Some(d) => Some(Run { ip: next, stack: r.stack.drop_last().push(d), ..r }),
                None => None,
            }
        } else {
            None
        }
    } else if takes_two(op) {
        if n > 1 {
            match made_of_two(op, r.stack[n - 2], r.stack[n - 1], r) {
                Some(d) => Some(Run { ip: next, stack: r.stack.take(n - 2).push(d), ..r }),
                None => None,
            }
        } else {
            None
        }
    } else if op == OpCode::SetCompletion {
        if n > 0 {
            Some(Run { ip: next, stack: r.stack.drop_last(), completion: r.stack.last(), ..r })
        } else {
            None
        }
    } else if place_read(c, op, r.ip) is Some {
        match value_at(r, place_read(c, op, r.ip)->0) {
            Some(d) => Some(Run { ip: next, stack: r.stack.push(d), ..r }),
            None => None,
        }
    } else if place_set(c, op, r.ip) is Some {
        let place = place_set(c, op, r.ip)->0;
        if n > 0 && (place matches Place::Local(slot) ==> slot < n) {
            Some(Run { ip: next, ..put_at(r, place, r.stack.last()) })
        } else {
            None
        }
    } else {
        match arranged(c, op, r.ip, r.stack) {
            Some(stack) => Some(Run { ip: next, stack, ..r }),
            None => accessed(c, op, r, next),
        }
    }
}

/// The instruction at a position.
#[verifier::opaque]
pub open spec fn instruction(c: ChunkView, ip: int) -> Option<OpCode> {
    if 0 <= ip < c.code.len() {
        match OpCode::encoded_by(c.code[ip]) {
            Some(op) => if ip + op.size() <= c.code.len() {
                Some(op)
            } else {
                None
            },
            None => None,
        }
    } else {
        None
    }
}

/// The program behind its next instruction.
pub open spec fn step(c: ChunkView, r: Run) -> Option<Run> {
    match instruction(c, r.ip) {
        Some(op) => performed(c, op, r),
        None => None,
    }
}

/// The program behind so many instructions.
pub open spec fn run_for(c: ChunkView, r: Run, steps: nat) -> Option<Run>
    decreases steps,
{
    if steps == 0 {
        Some(r)
    } else {
        match step(c, r) {
            Some(next) => run_for(c, next, (steps - 1) as nat),
            None => None,
        }
    }
}

/// Whether a program comes from one state to another.
pub open spec fn reaches(c: ChunkView, a: Run, b: Run) -> bool {
    exists|steps: nat| #[trigger] run_for(c, a, steps) == Some(b)
}

/// An opcode that stands in the code with its operands is the instruction there.
pub proof fn lemma_instruction(c: ChunkView, ip: int, op: OpCode)
    requires
        0 <= ip,
        ip + op.size() <= c.code.len(),
        c.code[ip] == op.byte(),
    ensures
        instruction(c, ip) == Some(op),
{
    reveal(instruction);
    opcode::law_decode_encode(op);
    opcode::law_size_bounds(op);
}

/// No instruction, no change.
pub proof fn lemma_here(c: ChunkView, a: Run)
    ensures
        reaches(c, a, a),
{
    assert(run_for(c, a, 0) == Some(a));
}

proof fn lemma_run_on(c: ChunkView, a: Run, m: nat, n: nat)
    ensures
        run_for(c, a, m + n) == match run_for(c, a, m) {
            Some(b) => run_for(c, b, n),
            None => None,
        },
    decreases m,
{
    if m > 0 {
        match step(c, a) {
            Some(b) => {
                lemma_run_on(c, b, (m - 1) as nat, n);
                assert((m - 1) as nat + n == (m + n - 1) as nat);
            },
            None => {},
        }
    }
}

/// One instruction more.
pub proof fn lemma_onward(c: ChunkView, a: Run, b: Run, d: Run)
    requires
        reaches(c, a, b),
        step(c, b) == Some(d),
    ensures
        reaches(c, a, d),
{
    let m = choose|steps: nat| #[trigger] run_for(c, a, steps) == Some(b);
    reveal_with_fuel(run_for, 2);
    assert(run_for(c, b, 1) == Some(d));
    lemma_run_on(c, a, m, 1);
}

} // verus!
