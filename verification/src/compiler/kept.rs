//! Compiling goes on behind the code there is: what was emitted stays, and only jumps that
//! were emitted since are led to their targets.

use vstd::prelude::*;
use crate::ast::node::{
    ArrowBody, AssignmentOperator, AssignmentTarget, Expression, Identifier, MemberExpression,
    MetaProperty, MethodKind, NumberLiteral, Pattern, Property, PropertyKey, RegExpLiteral,
    Statement, TemplateElement, VarKind,
};
use crate::compiler::chunk::{ChunkView, UpvalueDescriptor};
use crate::compiler::compiler::{FinallyEntry, Local, SavedView, state};
use crate::compiler::compiler::state::CState;
use crate::compiler::opcode::OpCode;
use crate::runtime::value::Value;
use crate::util::interner::StringId;

verus! {

/// How far a compilation was: its code, and the numbers of open loops and of remembered
/// positions.
pub struct Floor {
    pub code: Seq<u8>,
    pub loops: int,
    pub marks: int,
}

/// Whether positions all lie at or behind another.
pub open spec fn all_behind(positions: Seq<usize>, from: int, at: int) -> bool {
    forall|i: int| from <= i < positions.len() ==> #[trigger] positions[i] >= at
}

/// Whether the operands at positions all lie between two others.
pub open spec fn all_between(positions: Seq<usize>, from: int, to: int) -> bool {
    forall|i: int|
        0 <= i < positions.len() ==> from <= #[trigger] positions[i] && positions[i] + 2 <= to
}

/// Whether a compilation is beyond a floor: the code of the floor stands below its own, and
/// all jumps that wait for their targets, of the loops opened since and among the positions
/// remembered since, lie behind it. Positions are those of a machine with so much memory.
#[verifier::opaque]
pub open spec fn kept<'p>(floor: Floor, st: CState<'p>) -> bool {
    &&& floor.code.len() <= st.chunk.code.len()
    &&& 0 <= floor.loops <= st.loops.len()
    &&& 0 <= floor.marks <= st.marks.len()
    &&& fit(st)
    &&& st.chunk.code.len() <= usize::MAX ==> {
        &&& forall|i: int|
            0 <= i < floor.code.len() ==> #[trigger] st.chunk.code[i] == floor.code[i]
        &&& forall|k: int| #![trigger st.loops[k]]
            floor.loops <= k < st.loops.len() ==> all_between(
                st.loops[k].break_patches,
                floor.code.len() as int,
                st.chunk.code.len() as int,
            ) && all_between(
                st.loops[k].continue_patches,
                floor.code.len() as int,
                st.chunk.code.len() as int,
            )
        &&& all_behind(st.marks, floor.marks, floor.code.len() as int)
    }
}

/// Whether the remembered positions can be counted.
pub open spec fn fit<'p>(st: CState<'p>) -> bool {
    st.marks.len() <= usize::MAX
}

/// Whether a sequence starts with another.
pub open spec fn extends(a: Seq<usize>, b: Seq<usize>) -> bool {
    a.len() <= b.len() && forall|i: int| 0 <= i < a.len() ==> #[trigger] b[i] == a[i]
}

/// What holds of a step inside of an expression.
pub open spec fn onward<'p>(floor: Floor, st: CState<'p>, e: CState<'p>) -> bool {
    onward_if(true, floor, st, e)
}

/// What holds of a step inside of an expression, under a condition.
pub open spec fn onward_if<'p>(on: bool, floor: Floor, st: CState<'p>, e: CState<'p>) -> bool {
    &&& e.loops == st.loops
    &&& passed_if(on, floor, st, e)
}

/// What holds of a step inside of a statement.
pub open spec fn passed<'p>(floor: Floor, st: CState<'p>, e: CState<'p>) -> bool {
    passed_if(true, floor, st, e)
}

/// What holds of a step inside of a statement, under a condition.
pub open spec fn passed_if<'p>(on: bool, floor: Floor, st: CState<'p>, e: CState<'p>) -> bool {
    &&& st.chunk.code.len() <= e.chunk.code.len()
    &&& st.chunk.jump_overflow ==> e.chunk.jump_overflow
    &&& e.loops.len() == st.loops.len()
    &&& fit(st) ==> fit(e) && e.marks == st.marks
    &&& on && kept(floor, st) ==> kept(floor, e)
}

/// What holds of a step that remembers positions.
pub open spec fn gathered<'p>(floor: Floor, st: CState<'p>, e: CState<'p>) -> bool {
    &&& st.chunk.code.len() <= e.chunk.code.len()
    &&& st.chunk.jump_overflow ==> e.chunk.jump_overflow
    &&& e.loops.len() == st.loops.len()
    &&& fit(st) ==> fit(e) && extends(st.marks, e.marks)
    &&& kept(floor, st) ==> kept(floor, e)
}

proof fn lemma_patched_code(chunk: ChunkView, patches: Seq<usize>, from: nat, n: nat)
    ensures
        state::patched_all(chunk, patches, from).code.len() == chunk.code.len(),
        chunk.jump_overflow ==> state::patched_all(chunk, patches, from).jump_overflow,
        all_behind(patches, from as int, n as int) ==> forall|i: int|
            0 <= i < n && i < chunk.code.len() ==> #[trigger] state::patched_all(
                chunk,
                patches,
                from,
            ).code[i] == chunk.code[i],
    decreases patches.len() - from,
{
    if from < patches.len() {
        let pos = patches[from as int];
        let next = if pos + 2 <= chunk.code.len() {
            chunk.patch(pos as nat)
        } else {
            chunk
        };
        lemma_patched_code(next, patches, from + 1, n);
    }
}

proof fn lemma_captures_code(
    chunk: ChunkView,
    descriptors: Seq<UpvalueDescriptor>,
    from: nat,
    line: u32,
)
    ensures
        chunk.code.len() <= state::captures_emitted(chunk, descriptors, from, line).code.len(),
        chunk.jump_overflow ==> state::captures_emitted(
            chunk,
            descriptors,
            from,
            line,
        ).jump_overflow,
        forall|i: int|
            0 <= i < chunk.code.len() ==> #[trigger] state::captures_emitted(
                chunk,
                descriptors,
                from,
                line,
            ).code[i] == chunk.code[i],
    decreases descriptors.len() - from,
{
    if from < descriptors.len() {
        let d = descriptors[from as int];
        let flag = if d.is_local {
            1u8
        } else {
            0u8
        };
        lemma_captures_code(
            chunk.byte(flag, line).byte((d.index >> 8) as u8, line).byte(
                (d.index & 0xFF) as u8,
                line,
            ),
            descriptors,
            from + 1,
            line,
        );
    }
}

pub(crate) proof fn lemma_left<'p>(floor: Floor, st: CState<'p>, e: CState<'p>)
    requires
        e.chunk == st.chunk,
        e.loops == st.loops,
        fit(st) ==> e.marks == st.marks,
    ensures
        onward(floor, st, e),
{
    reveal(kept);
}

/// What is set aside of a function.
pub broadcast proof fn enter_saves<'p>(st: CState<'p>, child: ChunkView)
    ensures
        (#[trigger] st.enter_function(child)).1.chunk == st.chunk,
        st.enter_function(child).1.loops == st.loops,
        st.enter_function(child).1.marks == st.marks,
{
    reveal(CState::enter_function);
}

/// What was set aside of a function is put back.
pub broadcast proof fn leave_restores<'p>(st: CState<'p>, saved: SavedView<'p>)
    ensures
        (#[trigger] st.leave_function(saved)).0.chunk == saved.chunk,
        st.leave_function(saved).0.loops == saved.loops,
        st.leave_function(saved).0.marks == saved.marks,
{
    reveal(CState::leave_function);
}

proof fn lemma_scope_code(chunk: ChunkView, locals: Seq<Local>, depth: u32, line: u32)
    ensures
        ({
            let end = state::scope_closed(chunk, locals, depth, line).0;
            &&& chunk.code.len() <= end.code.len()
            &&& chunk.jump_overflow ==> end.jump_overflow
            &&& forall|i: int| 0 <= i < chunk.code.len() ==> #[trigger] end.code[i] == chunk.code[i]
        }),
    decreases locals.len(),
{
    if locals.len() > 0 && locals.last().depth > depth {
        let op = if locals.last().captured {
            OpCode::CloseUpvalue
        } else {
            OpCode::Pop
        };
        lemma_scope_code(chunk.op(op, line), locals.drop_last(), depth, line);
    }
}

pub broadcast proof fn grow_op<'p>(st: CState<'p>, op: OpCode, line: u32)
    ensures
        (#[trigger] st.op(op, line)).chunk.code.len() == st.chunk.code.len() + 1,
        st.chunk.jump_overflow ==> st.op(op, line).chunk.jump_overflow,
        st.op(op, line).loops == st.loops,
        st.op(op, line).marks == st.marks,
{
    reveal(CState::op);
}

pub broadcast proof fn keep_op<'p>(floor: Floor, st: CState<'p>, op: OpCode, line: u32)
    requires
        #[trigger] kept(floor, st),
    ensures
        kept(floor, #[trigger] st.op(op, line)),
{
    reveal(kept);
    reveal(CState::op);
}

pub broadcast proof fn grow_emit_constant<'p>(st: CState<'p>, value: Value, line: u32)
    ensures
        st.chunk.code.len() <= (#[trigger] st.emit_constant(value, line)).chunk.code.len(),
        st.chunk.jump_overflow ==> st.emit_constant(value, line).chunk.jump_overflow,
        st.emit_constant(value, line).loops == st.loops,
        st.emit_constant(value, line).marks == st.marks,
{
    reveal(CState::emit_constant);
}

pub broadcast proof fn keep_emit_constant<'p>(floor: Floor, st: CState<'p>, value: Value, line: u32)
    requires
        #[trigger] kept(floor, st),
    ensures
        kept(floor, #[trigger] st.emit_constant(value, line)),
{
    reveal(kept);
    reveal(CState::emit_constant);
}

pub broadcast proof fn grow_make_string_constant<'p>(st: CState<'p>, name: StringId)
    ensures
        st.chunk.code.len() <= (#[trigger] st.make_string_constant(name)).0.chunk.code.len(),
        st.chunk.jump_overflow ==> st.make_string_constant(name).0.chunk.jump_overflow,
        st.make_string_constant(name).0.loops == st.loops,
        st.make_string_constant(name).0.marks == st.marks,
{
    reveal(CState::make_string_constant);
}

pub broadcast proof fn keep_make_string_constant<'p>(floor: Floor, st: CState<'p>, name: StringId)
    requires
        #[trigger] kept(floor, st),
    ensures
        kept(floor, (#[trigger] st.make_string_constant(name)).0),
{
    reveal(kept);
    reveal(CState::make_string_constant);
}

pub broadcast proof fn grow_op_u16<'p>(st: CState<'p>, op: OpCode, operand: u16, line: u32)
    ensures
        st.chunk.code.len() <= (#[trigger] st.op_u16(op, operand, line)).chunk.code.len(),
        st.chunk.jump_overflow ==> st.op_u16(op, operand, line).chunk.jump_overflow,
        st.op_u16(op, operand, line).loops == st.loops,
        st.op_u16(op, operand, line).marks == st.marks,
{
    reveal(CState::op_u16);
}

pub broadcast proof fn keep_op_u16<'p>(
    floor: Floor,
    st: CState<'p>,
    op: OpCode,
    operand: u16,
    line: u32,
)
    requires
        #[trigger] kept(floor, st),
    ensures
        kept(floor, #[trigger] st.op_u16(op, operand, line)),
{
    reveal(kept);
    reveal(CState::op_u16);
}

pub broadcast proof fn grow_intern<'p>(st: CState<'p>, text: Seq<char>)
    ensures
        st.chunk.code.len() <= (#[trigger] st.intern(text)).0.chunk.code.len(),
        st.chunk.jump_overflow ==> st.intern(text).0.chunk.jump_overflow,
        st.intern(text).0.loops == st.loops,
        st.intern(text).0.marks == st.marks,
{
    reveal(CState::intern);
}

pub broadcast proof fn keep_intern<'p>(floor: Floor, st: CState<'p>, text: Seq<char>)
    requires
        #[trigger] kept(floor, st),
    ensures
        kept(floor, (#[trigger] st.intern(text)).0),
{
    reveal(kept);
    reveal(CState::intern);
}

pub broadcast proof fn grow_intern_around<'p>(
    st: CState<'p>,
    prefix: Seq<char>,
    id: StringId,
    suffix: Seq<char>,
)
    ensures
        st.chunk.code.len() <= (#[trigger] st.intern_around(prefix, id, suffix)).0.chunk.code.len(),
        st.chunk.jump_overflow ==> st.intern_around(prefix, id, suffix).0.chunk.jump_overflow,
        st.intern_around(prefix, id, suffix).0.loops == st.loops,
        st.intern_around(prefix, id, suffix).0.marks == st.marks,
{
    reveal(CState::intern_around);
}

pub broadcast proof fn keep_intern_around<'p>(
    floor: Floor,
    st: CState<'p>,
    prefix: Seq<char>,
    id: StringId,
    suffix: Seq<char>,
)
    requires
        #[trigger] kept(floor, st),
    ensures
        kept(floor, (#[trigger] st.intern_around(prefix, id, suffix)).0),
{
    reveal(kept);
    reveal(CState::intern_around);
}

pub broadcast proof fn grow_op_u8<'p>(st: CState<'p>, op: OpCode, operand: u8, line: u32)
    ensures
        st.chunk.code.len() <= (#[trigger] st.op_u8(op, operand, line)).chunk.code.len(),
        st.chunk.jump_overflow ==> st.op_u8(op, operand, line).chunk.jump_overflow,
        st.op_u8(op, operand, line).loops == st.loops,
        st.op_u8(op, operand, line).marks == st.marks,
{
    reveal(CState::op_u8);
}

pub broadcast proof fn keep_op_u8<'p>(
    floor: Floor,
    st: CState<'p>,
    op: OpCode,
    operand: u8,
    line: u32,
)
    requires
        #[trigger] kept(floor, st),
    ensures
        kept(floor, #[trigger] st.op_u8(op, operand, line)),
{
    reveal(kept);
    reveal(CState::op_u8);
}

pub broadcast proof fn grow_placeholder<'p>(st: CState<'p>, line: u32)
    ensures
        (#[trigger] st.placeholder(line)).0.chunk.code.len() == st.chunk.code.len() + 2,
        st.chunk.jump_overflow ==> st.placeholder(line).0.chunk.jump_overflow,
        st.placeholder(line).0.loops == st.loops,
        st.placeholder(line).0.marks == st.marks,
        st.placeholder(line).0.chunk.code.len() <= usize::MAX ==> st.placeholder(line).1 == st.chunk.code.len(),
{
    reveal(CState::placeholder);
}

pub broadcast proof fn keep_placeholder<'p>(floor: Floor, st: CState<'p>, line: u32)
    requires
        #[trigger] kept(floor, st),
    ensures
        kept(floor, (#[trigger] st.placeholder(line)).0),
{
    reveal(kept);
    reveal(CState::placeholder);
}

pub broadcast proof fn grow_patch<'p>(st: CState<'p>, pos: usize)
    ensures
        st.chunk.code.len() <= (#[trigger] st.patch(pos)).chunk.code.len(),
        st.chunk.jump_overflow ==> st.patch(pos).chunk.jump_overflow,
        st.patch(pos).loops == st.loops,
        st.patch(pos).marks == st.marks,
{
    reveal(CState::patch);
}

pub broadcast proof fn keep_patch<'p>(floor: Floor, st: CState<'p>, pos: usize)
    requires
        #[trigger] kept(floor, st),
        st.chunk.code.len() <= usize::MAX ==> pos >= floor.code.len(),
    ensures
        kept(floor, #[trigger] st.patch(pos)),
{
    reveal(kept);
    reveal(CState::patch);
}

pub broadcast proof fn grow_note_arguments<'p>(st: CState<'p>)
    ensures
        st.chunk.code.len() <= (#[trigger] st.note_arguments()).chunk.code.len(),
        st.chunk.jump_overflow ==> st.note_arguments().chunk.jump_overflow,
        st.note_arguments().loops == st.loops,
        st.note_arguments().marks == st.marks,
{
    reveal(CState::note_arguments);
}

pub broadcast proof fn keep_note_arguments<'p>(floor: Floor, st: CState<'p>)
    requires
        #[trigger] kept(floor, st),
    ensures
        kept(floor, #[trigger] st.note_arguments()),
{
    reveal(kept);
    reveal(CState::note_arguments);
}

pub broadcast proof fn grow_resolve_upvalue<'p>(st: CState<'p>, name: StringId)
    ensures
        st.chunk.code.len() <= (#[trigger] st.resolve_upvalue(name)).0.chunk.code.len(),
        st.chunk.jump_overflow ==> st.resolve_upvalue(name).0.chunk.jump_overflow,
        st.resolve_upvalue(name).0.loops == st.loops,
        st.resolve_upvalue(name).0.marks == st.marks,
{
    reveal(CState::resolve_upvalue);
}

pub broadcast proof fn keep_resolve_upvalue<'p>(floor: Floor, st: CState<'p>, name: StringId)
    requires
        #[trigger] kept(floor, st),
    ensures
        kept(floor, (#[trigger] st.resolve_upvalue(name)).0),
{
    reveal(kept);
    reveal(CState::resolve_upvalue);
}

pub broadcast proof fn grow_emit_get_property<'p>(st: CState<'p>, name_idx: u16, line: u32)
    ensures
        st.chunk.code.len() <= (#[trigger] st.emit_get_property(name_idx, line)).chunk.code.len(),
        st.chunk.jump_overflow ==> st.emit_get_property(name_idx, line).chunk.jump_overflow,
        st.emit_get_property(name_idx, line).loops == st.loops,
        st.emit_get_property(name_idx, line).marks == st.marks,
{
    reveal(CState::emit_get_property);
}

pub broadcast proof fn keep_emit_get_property<'p>(
    floor: Floor,
    st: CState<'p>,
    name_idx: u16,
    line: u32,
)
    requires
        #[trigger] kept(floor, st),
    ensures
        kept(floor, #[trigger] st.emit_get_property(name_idx, line)),
{
    reveal(kept);
    reveal(CState::emit_get_property);
}

pub broadcast proof fn grow_emit_set_property<'p>(st: CState<'p>, name_idx: u16, line: u32)
    ensures
        st.chunk.code.len() <= (#[trigger] st.emit_set_property(name_idx, line)).chunk.code.len(),
        st.chunk.jump_overflow ==> st.emit_set_property(name_idx, line).chunk.jump_overflow,
        st.emit_set_property(name_idx, line).loops == st.loops,
        st.emit_set_property(name_idx, line).marks == st.marks,
{
    reveal(CState::emit_set_property);
}

pub broadcast proof fn keep_emit_set_property<'p>(
    floor: Floor,
    st: CState<'p>,
    name_idx: u16,
    line: u32,
)
    requires
        #[trigger] kept(floor, st),
    ensures
        kept(floor, #[trigger] st.emit_set_property(name_idx, line)),
{
    reveal(kept);
    reveal(CState::emit_set_property);
}

pub broadcast proof fn grow_jump<'p>(st: CState<'p>, op: OpCode, line: u32)
    ensures
        (#[trigger] st.jump(op, line)).0.chunk.code.len() == st.chunk.code.len() + 3,
        st.chunk.jump_overflow ==> st.jump(op, line).0.chunk.jump_overflow,
        st.jump(op, line).0.loops == st.loops,
        st.jump(op, line).0.marks == st.marks,
        st.jump(op, line).0.chunk.code.len() <= usize::MAX ==> st.jump(op, line).1 == st.chunk.code.len() + 1,
{
    reveal(CState::jump);
}

pub broadcast proof fn keep_jump<'p>(floor: Floor, st: CState<'p>, op: OpCode, line: u32)
    requires
        #[trigger] kept(floor, st),
    ensures
        kept(floor, (#[trigger] st.jump(op, line)).0),
{
    reveal(kept);
    reveal(CState::jump);
}

pub broadcast proof fn grow_set_pending_name<'p>(st: CState<'p>, name: StringId)
    ensures
        st.chunk.code.len() <= (#[trigger] st.set_pending_name(name)).chunk.code.len(),
        st.chunk.jump_overflow ==> st.set_pending_name(name).chunk.jump_overflow,
        st.set_pending_name(name).loops == st.loops,
        st.set_pending_name(name).marks == st.marks,
{
    reveal(CState::set_pending_name);
}

pub broadcast proof fn keep_set_pending_name<'p>(floor: Floor, st: CState<'p>, name: StringId)
    requires
        #[trigger] kept(floor, st),
    ensures
        kept(floor, #[trigger] st.set_pending_name(name)),
{
    reveal(kept);
    reveal(CState::set_pending_name);
}

pub broadcast proof fn grow_back<'p>(st: CState<'p>, start: usize, line: u32)
    ensures
        st.chunk.code.len() <= (
            #[trigger] st.back(start, line)
        ).chunk.code.len() <= st.chunk.code.len() + 3,
        st.chunk.jump_overflow ==> st.back(start, line).chunk.jump_overflow,
        st.back(start, line).loops == st.loops,
        st.back(start, line).marks == st.marks,
{
    reveal(CState::back);
}

pub broadcast proof fn keep_back<'p>(floor: Floor, st: CState<'p>, start: usize, line: u32)
    requires
        #[trigger] kept(floor, st),
    ensures
        kept(floor, #[trigger] st.back(start, line)),
{
    reveal(kept);
    reveal(CState::back);
}

pub broadcast proof fn grow_raw16<'p>(st: CState<'p>, operand: u16)
    ensures
        (#[trigger] st.raw16(operand)).chunk.code.len() == st.chunk.code.len() + 2,
        st.chunk.jump_overflow ==> st.raw16(operand).chunk.jump_overflow,
        st.raw16(operand).loops == st.loops,
        st.raw16(operand).marks == st.marks,
{
    reveal(CState::raw16);
}

pub broadcast proof fn keep_raw16<'p>(floor: Floor, st: CState<'p>, operand: u16)
    requires
        #[trigger] kept(floor, st),
    ensures
        kept(floor, #[trigger] st.raw16(operand)),
{
    reveal(kept);
    reveal(CState::raw16);
}

pub broadcast proof fn grow_patch_short<'p>(st: CState<'p>, at: usize)
    ensures
        st.chunk.code.len() <= (#[trigger] st.patch_short(at)).chunk.code.len(),
        st.chunk.jump_overflow ==> st.patch_short(at).chunk.jump_overflow,
        st.patch_short(at).loops == st.loops,
        st.patch_short(at).marks == st.marks,
{
    reveal(CState::patch_short);
}

pub broadcast proof fn keep_patch_short<'p>(floor: Floor, st: CState<'p>, at: usize)
    requires
        #[trigger] kept(floor, st),
        st.chunk.code.len() <= usize::MAX ==> at >= floor.code.len(),
    ensures
        kept(floor, #[trigger] st.patch_short(at)),
{
    reveal(kept);
    reveal(CState::patch_short);
}

pub broadcast proof fn grow_add_local<'p>(st: CState<'p>, name: StringId)
    ensures
        st.chunk.code.len() <= (#[trigger] st.add_local(name)).chunk.code.len(),
        st.chunk.jump_overflow ==> st.add_local(name).chunk.jump_overflow,
        st.add_local(name).loops == st.loops,
        st.add_local(name).marks == st.marks,
{
    reveal(CState::add_local);
}

pub broadcast proof fn keep_add_local<'p>(floor: Floor, st: CState<'p>, name: StringId)
    requires
        #[trigger] kept(floor, st),
    ensures
        kept(floor, #[trigger] st.add_local(name)),
{
    reveal(kept);
    reveal(CState::add_local);
}

pub broadcast proof fn grow_mark_initialized<'p>(st: CState<'p>)
    ensures
        st.chunk.code.len() <= (#[trigger] st.mark_initialized()).chunk.code.len(),
        st.chunk.jump_overflow ==> st.mark_initialized().chunk.jump_overflow,
        st.mark_initialized().loops == st.loops,
        st.mark_initialized().marks == st.marks,
{
    reveal(CState::mark_initialized);
}

pub broadcast proof fn keep_mark_initialized<'p>(floor: Floor, st: CState<'p>)
    requires
        #[trigger] kept(floor, st),
    ensures
        kept(floor, #[trigger] st.mark_initialized()),
{
    reveal(kept);
    reveal(CState::mark_initialized);
}

pub broadcast proof fn grow_pop_local<'p>(st: CState<'p>)
    ensures
        st.chunk.code.len() <= (#[trigger] st.pop_local()).chunk.code.len(),
        st.chunk.jump_overflow ==> st.pop_local().chunk.jump_overflow,
        st.pop_local().loops == st.loops,
        st.pop_local().marks == st.marks,
{
    reveal(CState::pop_local);
}

pub broadcast proof fn keep_pop_local<'p>(floor: Floor, st: CState<'p>)
    requires
        #[trigger] kept(floor, st),
    ensures
        kept(floor, #[trigger] st.pop_local()),
{
    reveal(kept);
    reveal(CState::pop_local);
}

pub broadcast proof fn grow_byte<'p>(st: CState<'p>, byte: u8, line: u32)
    ensures
        st.chunk.code.len() <= (#[trigger] st.byte(byte, line)).chunk.code.len(),
        st.chunk.jump_overflow ==> st.byte(byte, line).chunk.jump_overflow,
        st.byte(byte, line).loops == st.loops,
        st.byte(byte, line).marks == st.marks,
{
    reveal(CState::byte);
}

pub broadcast proof fn keep_byte<'p>(floor: Floor, st: CState<'p>, byte: u8, line: u32)
    requires
        #[trigger] kept(floor, st),
    ensures
        kept(floor, #[trigger] st.byte(byte, line)),
{
    reveal(kept);
    reveal(CState::byte);
}

pub broadcast proof fn grow_raw<'p>(st: CState<'p>, byte: u8)
    ensures
        (#[trigger] st.raw(byte)).chunk.code.len() == st.chunk.code.len() + 1,
        st.chunk.jump_overflow ==> st.raw(byte).chunk.jump_overflow,
        st.raw(byte).loops == st.loops,
        st.raw(byte).marks == st.marks,
{
    reveal(CState::raw);
}

pub broadcast proof fn keep_raw<'p>(floor: Floor, st: CState<'p>, byte: u8)
    requires
        #[trigger] kept(floor, st),
    ensures
        kept(floor, #[trigger] st.raw(byte)),
{
    reveal(kept);
    reveal(CState::raw);
}

pub broadcast proof fn grow_op_u32<'p>(st: CState<'p>, op: OpCode, operand: u32, line: u32)
    ensures
        st.chunk.code.len() <= (#[trigger] st.op_u32(op, operand, line)).chunk.code.len(),
        st.chunk.jump_overflow ==> st.op_u32(op, operand, line).chunk.jump_overflow,
        st.op_u32(op, operand, line).loops == st.loops,
        st.op_u32(op, operand, line).marks == st.marks,
{
    reveal(CState::op_u32);
}

pub broadcast proof fn keep_op_u32<'p>(
    floor: Floor,
    st: CState<'p>,
    op: OpCode,
    operand: u32,
    line: u32,
)
    requires
        #[trigger] kept(floor, st),
    ensures
        kept(floor, #[trigger] st.op_u32(op, operand, line)),
{
    reveal(kept);
    reveal(CState::op_u32);
}

pub broadcast proof fn grow_intern_number<'p>(st: CState<'p>, bits: u64)
    ensures
        st.chunk.code.len() <= (#[trigger] st.intern_number(bits)).0.chunk.code.len(),
        st.chunk.jump_overflow ==> st.intern_number(bits).0.chunk.jump_overflow,
        st.intern_number(bits).0.loops == st.loops,
        st.intern_number(bits).0.marks == st.marks,
{
    reveal(CState::intern_number);
}

pub broadcast proof fn keep_intern_number<'p>(floor: Floor, st: CState<'p>, bits: u64)
    requires
        #[trigger] kept(floor, st),
    ensures
        kept(floor, (#[trigger] st.intern_number(bits)).0),
{
    reveal(kept);
    reveal(CState::intern_number);
}

pub broadcast proof fn grow_mark_last_child_as_method<'p>(st: CState<'p>)
    ensures
        st.chunk.code.len() <= (#[trigger] st.mark_last_child_as_method()).chunk.code.len(),
        st.chunk.jump_overflow ==> st.mark_last_child_as_method().chunk.jump_overflow,
        st.mark_last_child_as_method().loops == st.loops,
        st.mark_last_child_as_method().marks == st.marks,
{
    reveal(CState::mark_last_child_as_method);
}

pub broadcast proof fn keep_mark_last_child_as_method<'p>(floor: Floor, st: CState<'p>)
    requires
        #[trigger] kept(floor, st),
    ensures
        kept(floor, #[trigger] st.mark_last_child_as_method()),
{
    reveal(kept);
    reveal(CState::mark_last_child_as_method);
}

pub broadcast proof fn grow_take_pending_name<'p>(st: CState<'p>)
    ensures
        st.chunk.code.len() <= (#[trigger] st.take_pending_name()).0.chunk.code.len(),
        st.chunk.jump_overflow ==> st.take_pending_name().0.chunk.jump_overflow,
        st.take_pending_name().0.loops == st.loops,
        st.take_pending_name().0.marks == st.marks,
{
    reveal(CState::take_pending_name);
}

pub broadcast proof fn keep_take_pending_name<'p>(floor: Floor, st: CState<'p>)
    requires
        #[trigger] kept(floor, st),
    ensures
        kept(floor, (#[trigger] st.take_pending_name()).0),
{
    reveal(kept);
    reveal(CState::take_pending_name);
}

pub broadcast proof fn grow_intern_param<'p>(st: CState<'p>, index: usize)
    ensures
        st.chunk.code.len() <= (#[trigger] st.intern_param(index)).0.chunk.code.len(),
        st.chunk.jump_overflow ==> st.intern_param(index).0.chunk.jump_overflow,
        st.intern_param(index).0.loops == st.loops,
        st.intern_param(index).0.marks == st.marks,
{
    reveal(CState::intern_param);
}

pub broadcast proof fn keep_intern_param<'p>(floor: Floor, st: CState<'p>, index: usize)
    requires
        #[trigger] kept(floor, st),
    ensures
        kept(floor, (#[trigger] st.intern_param(index)).0),
{
    reveal(kept);
    reveal(CState::intern_param);
}

pub broadcast proof fn grow_begin_default<'p>(st: CState<'p>, k: usize, count: usize)
    ensures
        st.chunk.code.len() <= (#[trigger] st.begin_default(k, count)).chunk.code.len(),
        st.chunk.jump_overflow ==> st.begin_default(k, count).chunk.jump_overflow,
        st.begin_default(k, count).loops == st.loops,
        st.begin_default(k, count).marks == st.marks,
{
    reveal(CState::begin_default);
}

pub broadcast proof fn keep_begin_default<'p>(floor: Floor, st: CState<'p>, k: usize, count: usize)
    requires
        #[trigger] kept(floor, st),
    ensures
        kept(floor, #[trigger] st.begin_default(k, count)),
{
    reveal(kept);
    reveal(CState::begin_default);
}

pub broadcast proof fn grow_end_default<'p>(st: CState<'p>)
    ensures
        st.chunk.code.len() <= (#[trigger] st.end_default()).chunk.code.len(),
        st.chunk.jump_overflow ==> st.end_default().chunk.jump_overflow,
        st.end_default().loops == st.loops,
        st.end_default().marks == st.marks,
{
    reveal(CState::end_default);
}

pub broadcast proof fn keep_end_default<'p>(floor: Floor, st: CState<'p>)
    requires
        #[trigger] kept(floor, st),
    ensures
        kept(floor, #[trigger] st.end_default()),
{
    reveal(kept);
    reveal(CState::end_default);
}

pub broadcast proof fn grow_mark_self_name<'p>(st: CState<'p>)
    ensures
        st.chunk.code.len() <= (#[trigger] st.mark_self_name()).chunk.code.len(),
        st.chunk.jump_overflow ==> st.mark_self_name().chunk.jump_overflow,
        st.mark_self_name().loops == st.loops,
        st.mark_self_name().marks == st.marks,
{
    reveal(CState::mark_self_name);
}

pub broadcast proof fn keep_mark_self_name<'p>(floor: Floor, st: CState<'p>)
    requires
        #[trigger] kept(floor, st),
    ensures
        kept(floor, #[trigger] st.mark_self_name()),
{
    reveal(kept);
    reveal(CState::mark_self_name);
}

pub broadcast proof fn grow_predeclare<'p>(st: CState<'p>, name: StringId)
    ensures
        st.chunk.code.len() <= (#[trigger] st.predeclare(name)).chunk.code.len(),
        st.chunk.jump_overflow ==> st.predeclare(name).chunk.jump_overflow,
        st.predeclare(name).loops == st.loops,
        st.predeclare(name).marks == st.marks,
{
    reveal(CState::predeclare);
}

pub broadcast proof fn keep_predeclare<'p>(floor: Floor, st: CState<'p>, name: StringId)
    requires
        #[trigger] kept(floor, st),
    ensures
        kept(floor, #[trigger] st.predeclare(name)),
{
    reveal(kept);
    reveal(CState::predeclare);
}

pub broadcast proof fn grow_emit_closure<'p>(st: CState<'p>, child: ChunkView, line: u32)
    ensures
        st.chunk.code.len() <= (#[trigger] st.emit_closure(child, line)).chunk.code.len(),
        st.chunk.jump_overflow ==> st.emit_closure(child, line).chunk.jump_overflow,
        st.emit_closure(child, line).loops == st.loops,
        st.emit_closure(child, line).marks == st.marks,
{
    reveal(CState::emit_closure);
    lemma_captures_code(
        ChunkView { child_chunks: st.chunk.child_chunks.push(child), ..st.chunk }.op_u16(
            OpCode::Closure,
            st.chunk.child_chunks.len() as u16,
            line,
        ),
        child.upvalue_descriptors,
        0,
        line,
    );
}

pub broadcast proof fn keep_emit_closure<'p>(
    floor: Floor,
    st: CState<'p>,
    child: ChunkView,
    line: u32,
)
    requires
        #[trigger] kept(floor, st),
    ensures
        kept(floor, #[trigger] st.emit_closure(child, line)),
{
    reveal(kept);
    reveal(CState::emit_closure);
    lemma_captures_code(
        ChunkView { child_chunks: st.chunk.child_chunks.push(child), ..st.chunk }.op_u16(
            OpCode::Closure,
            st.chunk.child_chunks.len() as u16,
            line,
        ),
        child.upvalue_descriptors,
        0,
        line,
    );
}

pub broadcast proof fn grow_finish_chunk<'p>(st: CState<'p>)
    ensures
        st.chunk.code.len() <= (#[trigger] st.finish_chunk()).chunk.code.len(),
        st.chunk.jump_overflow ==> st.finish_chunk().chunk.jump_overflow,
        st.finish_chunk().loops == st.loops,
        st.finish_chunk().marks == st.marks,
{
    reveal(CState::finish_chunk);
}

pub broadcast proof fn keep_finish_chunk<'p>(floor: Floor, st: CState<'p>)
    requires
        #[trigger] kept(floor, st),
    ensures
        kept(floor, #[trigger] st.finish_chunk()),
{
    reveal(kept);
    reveal(CState::finish_chunk);
}

pub broadcast proof fn grow_enter_class<'p>(st: CState<'p>)
    ensures
        st.chunk.code.len() <= (#[trigger] st.enter_class()).chunk.code.len(),
        st.chunk.jump_overflow ==> st.enter_class().chunk.jump_overflow,
        st.enter_class().loops == st.loops,
        st.enter_class().marks == st.marks,
{
    reveal(CState::enter_class);
}

pub broadcast proof fn keep_enter_class<'p>(floor: Floor, st: CState<'p>)
    requires
        #[trigger] kept(floor, st),
    ensures
        kept(floor, #[trigger] st.enter_class()),
{
    reveal(kept);
    reveal(CState::enter_class);
}

pub broadcast proof fn grow_leave_class<'p>(st: CState<'p>)
    ensures
        st.chunk.code.len() <= (#[trigger] st.leave_class()).chunk.code.len(),
        st.chunk.jump_overflow ==> st.leave_class().chunk.jump_overflow,
        st.leave_class().loops == st.loops,
        st.leave_class().marks == st.marks,
{
    reveal(CState::leave_class);
}

pub broadcast proof fn keep_leave_class<'p>(floor: Floor, st: CState<'p>)
    requires
        #[trigger] kept(floor, st),
    ensures
        kept(floor, #[trigger] st.leave_class()),
{
    reveal(kept);
    reveal(CState::leave_class);
}

pub broadcast proof fn grow_push_mark<'p>(st: CState<'p>, pos: usize)
    ensures
        st.chunk.code.len() <= (#[trigger] st.push_mark(pos)).chunk.code.len(),
        st.chunk.jump_overflow ==> st.push_mark(pos).chunk.jump_overflow,
        st.push_mark(pos).loops == st.loops,
        extends(st.marks, st.push_mark(pos).marks),
        fit(st) ==> fit(st.push_mark(pos)),
{
    reveal(CState::push_mark);
}

pub broadcast proof fn keep_push_mark<'p>(floor: Floor, st: CState<'p>, pos: usize)
    requires
        #[trigger] kept(floor, st),
        st.chunk.code.len() <= usize::MAX ==> pos >= floor.code.len(),
    ensures
        kept(floor, #[trigger] st.push_mark(pos)),
{
    reveal(kept);
    reveal(CState::push_mark);
}

pub broadcast proof fn grow_patch_marks<'p>(st: CState<'p>, base: usize)
    ensures
        st.chunk.code.len() <= (#[trigger] st.patch_marks(base)).chunk.code.len(),
        st.chunk.jump_overflow ==> st.patch_marks(base).chunk.jump_overflow,
        st.patch_marks(base).loops == st.loops,
        base <= st.marks.len() ==> st.patch_marks(base).marks == st.marks.take(base as int),
{
    reveal(CState::patch_marks);
    lemma_patched_code(st.chunk, st.marks, base as nat, 0);
}

pub broadcast proof fn keep_patch_marks<'p>(floor: Floor, st: CState<'p>, base: usize)
    requires
        #[trigger] kept(floor, st),
        base >= floor.marks,
    ensures
        kept(floor, #[trigger] st.patch_marks(base)),
{
    reveal(kept);
    reveal(CState::patch_marks);
    lemma_patched_code(st.chunk, st.marks, base as nat, floor.code.len());
}

pub broadcast proof fn grow_add_const_global<'p>(st: CState<'p>, name: StringId)
    ensures
        st.chunk.code.len() <= (#[trigger] st.add_const_global(name)).chunk.code.len(),
        st.chunk.jump_overflow ==> st.add_const_global(name).chunk.jump_overflow,
        st.add_const_global(name).loops == st.loops,
        st.add_const_global(name).marks == st.marks,
{
    reveal(CState::add_const_global);
}

pub broadcast proof fn keep_add_const_global<'p>(floor: Floor, st: CState<'p>, name: StringId)
    requires
        #[trigger] kept(floor, st),
    ensures
        kept(floor, #[trigger] st.add_const_global(name)),
{
    reveal(kept);
    reveal(CState::add_const_global);
}

pub broadcast proof fn grow_take_predeclared_lex<'p>(st: CState<'p>, name: StringId)
    ensures
        st.chunk.code.len() <= (#[trigger] st.take_predeclared_lex(name)).0.chunk.code.len(),
        st.chunk.jump_overflow ==> st.take_predeclared_lex(name).0.chunk.jump_overflow,
        st.take_predeclared_lex(name).0.loops == st.loops,
        st.take_predeclared_lex(name).0.marks == st.marks,
{
    reveal(CState::take_predeclared_lex);
}

pub broadcast proof fn keep_take_predeclared_lex<'p>(floor: Floor, st: CState<'p>, name: StringId)
    requires
        #[trigger] kept(floor, st),
    ensures
        kept(floor, (#[trigger] st.take_predeclared_lex(name)).0),
{
    reveal(kept);
    reveal(CState::take_predeclared_lex);
}

pub broadcast proof fn grow_set_const<'p>(st: CState<'p>, slot: usize)
    ensures
        st.chunk.code.len() <= (#[trigger] st.set_const(slot)).chunk.code.len(),
        st.chunk.jump_overflow ==> st.set_const(slot).chunk.jump_overflow,
        st.set_const(slot).loops == st.loops,
        st.set_const(slot).marks == st.marks,
{
    reveal(CState::set_const);
}

pub broadcast proof fn keep_set_const<'p>(floor: Floor, st: CState<'p>, slot: usize)
    requires
        #[trigger] kept(floor, st),
    ensures
        kept(floor, #[trigger] st.set_const(slot)),
{
    reveal(kept);
    reveal(CState::set_const);
}

pub broadcast proof fn grow_begin_scope<'p>(st: CState<'p>)
    ensures
        st.chunk.code.len() <= (#[trigger] st.begin_scope()).chunk.code.len(),
        st.chunk.jump_overflow ==> st.begin_scope().chunk.jump_overflow,
        st.begin_scope().loops == st.loops,
        st.begin_scope().marks == st.marks,
{
    reveal(CState::begin_scope);
}

pub broadcast proof fn keep_begin_scope<'p>(floor: Floor, st: CState<'p>)
    requires
        #[trigger] kept(floor, st),
    ensures
        kept(floor, #[trigger] st.begin_scope()),
{
    reveal(kept);
    reveal(CState::begin_scope);
}

pub broadcast proof fn grow_end_scope<'p>(st: CState<'p>)
    ensures
        st.chunk.code.len() <= (#[trigger] st.end_scope()).chunk.code.len(),
        st.chunk.jump_overflow ==> st.end_scope().chunk.jump_overflow,
        st.end_scope().loops == st.loops,
        st.end_scope().marks == st.marks,
{
    reveal(CState::end_scope);
    lemma_scope_code(st.chunk, st.locals, st.scope_depth.wrapping_sub(1), st.current_line());
}

pub broadcast proof fn keep_end_scope<'p>(floor: Floor, st: CState<'p>)
    requires
        #[trigger] kept(floor, st),
    ensures
        kept(floor, #[trigger] st.end_scope()),
{
    reveal(kept);
    reveal(CState::end_scope);
    lemma_scope_code(st.chunk, st.locals, st.scope_depth.wrapping_sub(1), st.current_line());
}

pub broadcast proof fn grow_take_label<'p>(st: CState<'p>)
    ensures
        st.chunk.code.len() <= (#[trigger] st.take_label()).0.chunk.code.len(),
        st.chunk.jump_overflow ==> st.take_label().0.chunk.jump_overflow,
        st.take_label().0.loops == st.loops,
        st.take_label().0.marks == st.marks,
{
    reveal(CState::take_label);
}

pub broadcast proof fn keep_take_label<'p>(floor: Floor, st: CState<'p>)
    requires
        #[trigger] kept(floor, st),
    ensures
        kept(floor, (#[trigger] st.take_label()).0),
{
    reveal(kept);
    reveal(CState::take_label);
}

pub broadcast proof fn grow_push_loop<'p>(
    st: CState<'p>,
    continue_target: usize,
    scope_depth: u32,
    label: Option<StringId>,
    has_deferred_continue: bool,
    is_switch: bool,
    for_of_iter_slot: Option<u16>,
)
    ensures
        st.chunk.code.len() <= (
            #[trigger] st.push_loop(
                continue_target,
                scope_depth,
                label,
                has_deferred_continue,
                is_switch,
                for_of_iter_slot,
            )
        ).chunk.code.len(),
        st.chunk.jump_overflow ==> st.push_loop(
            continue_target,
            scope_depth,
            label,
            has_deferred_continue,
            is_switch,
            for_of_iter_slot,
        ).chunk.jump_overflow,
        st.push_loop(
            continue_target,
            scope_depth,
            label,
            has_deferred_continue,
            is_switch,
            for_of_iter_slot,
        ).loops.len() == st.loops.len() + 1,
        st.push_loop(
            continue_target,
            scope_depth,
            label,
            has_deferred_continue,
            is_switch,
            for_of_iter_slot,
        ).marks == st.marks,
{
    reveal(CState::push_loop);
}

pub broadcast proof fn keep_push_loop<'p>(
    floor: Floor,
    st: CState<'p>,
    continue_target: usize,
    scope_depth: u32,
    label: Option<StringId>,
    has_deferred_continue: bool,
    is_switch: bool,
    for_of_iter_slot: Option<u16>,
)
    requires
        #[trigger] kept(floor, st),
    ensures
        kept(
            floor,
            #[trigger] st.push_loop(
                continue_target,
                scope_depth,
                label,
                has_deferred_continue,
                is_switch,
                for_of_iter_slot,
            ),
        ),
{
    reveal(kept);
    reveal(CState::push_loop);
}

pub broadcast proof fn grow_patch_loop_breaks<'p>(st: CState<'p>)
    ensures
        st.chunk.code.len() <= (#[trigger] st.patch_loop_breaks()).chunk.code.len(),
        st.chunk.jump_overflow ==> st.patch_loop_breaks().chunk.jump_overflow,
        st.loops.len() > 0 ==> st.patch_loop_breaks().loops.len() == st.loops.len() - 1,
        st.patch_loop_breaks().marks == st.marks,
{
    reveal(CState::patch_loop_breaks);
    lemma_patched_code(
        st.chunk,
        if st.loops.len() > 0 { st.loops.last().break_patches } else { Seq::empty() },
        0,
        0,
    );
}

pub broadcast proof fn keep_patch_loop_breaks<'p>(floor: Floor, st: CState<'p>)
    requires
        #[trigger] kept(floor, st),
        st.loops.len() > floor.loops,
    ensures
        kept(floor, #[trigger] st.patch_loop_breaks()),
{
    reveal(kept);
    reveal(CState::patch_loop_breaks);
    lemma_patched_code(st.chunk, st.loops.last().break_patches, 0, floor.code.len());
}

pub broadcast proof fn grow_patch_continues<'p>(st: CState<'p>)
    ensures
        st.chunk.code.len() <= (#[trigger] st.patch_continues()).chunk.code.len(),
        st.chunk.jump_overflow ==> st.patch_continues().chunk.jump_overflow,
        st.patch_continues().loops.len() == st.loops.len(),
        st.patch_continues().marks == st.marks,
{
    reveal(CState::patch_continues);
    lemma_patched_code(
        st.chunk,
        if st.loops.len() > 0 { st.loops.last().continue_patches } else { Seq::empty() },
        0,
        0,
    );
}

pub broadcast proof fn keep_patch_continues<'p>(floor: Floor, st: CState<'p>)
    requires
        #[trigger] kept(floor, st),
        st.loops.len() > floor.loops,
    ensures
        kept(floor, #[trigger] st.patch_continues()),
{
    reveal(kept);
    reveal(CState::patch_continues);
    lemma_patched_code(st.chunk, st.loops.last().continue_patches, 0, floor.code.len());
}

pub broadcast proof fn grow_set_continue_here<'p>(st: CState<'p>)
    ensures
        st.chunk.code.len() <= (#[trigger] st.set_continue_here()).chunk.code.len(),
        st.chunk.jump_overflow ==> st.set_continue_here().chunk.jump_overflow,
        st.set_continue_here().loops.len() == st.loops.len(),
        st.set_continue_here().marks == st.marks,
{
    reveal(CState::set_continue_here);
}

pub broadcast proof fn keep_set_continue_here<'p>(floor: Floor, st: CState<'p>)
    requires
        #[trigger] kept(floor, st),
        st.loops.len() > floor.loops,
    ensures
        kept(floor, #[trigger] st.set_continue_here()),
{
    reveal(kept);
    reveal(CState::set_continue_here);
}

pub broadcast proof fn grow_mark_wide_target<'p>(st: CState<'p>)
    ensures
        st.chunk.code.len() <= (#[trigger] st.mark_wide_target()).chunk.code.len(),
        st.chunk.jump_overflow ==> st.mark_wide_target().chunk.jump_overflow,
        st.mark_wide_target().loops == st.loops,
        st.mark_wide_target().marks == st.marks,
{
    reveal(CState::mark_wide_target);
}

pub broadcast proof fn keep_mark_wide_target<'p>(floor: Floor, st: CState<'p>)
    requires
        #[trigger] kept(floor, st),
    ensures
        kept(floor, #[trigger] st.mark_wide_target()),
{
    reveal(kept);
    reveal(CState::mark_wide_target);
}

pub broadcast proof fn grow_put_here<'p>(st: CState<'p>, at: usize)
    ensures
        st.chunk.code.len() <= (#[trigger] st.put_here(at)).chunk.code.len(),
        st.chunk.jump_overflow ==> st.put_here(at).chunk.jump_overflow,
        st.put_here(at).loops == st.loops,
        st.put_here(at).marks == st.marks,
{
    reveal(CState::put_here);
}

pub broadcast proof fn keep_put_here<'p>(floor: Floor, st: CState<'p>, at: usize)
    requires
        #[trigger] kept(floor, st),
        st.chunk.code.len() <= usize::MAX ==> at >= floor.code.len(),
    ensures
        kept(floor, #[trigger] st.put_here(at)),
{
    reveal(kept);
    reveal(CState::put_here);
}

pub broadcast proof fn grow_nop_at<'p>(st: CState<'p>, at: usize)
    ensures
        st.chunk.code.len() <= (#[trigger] st.nop_at(at)).chunk.code.len(),
        st.chunk.jump_overflow ==> st.nop_at(at).chunk.jump_overflow,
        st.nop_at(at).loops == st.loops,
        st.nop_at(at).marks == st.marks,
{
    reveal(CState::nop_at);
}

pub broadcast proof fn keep_nop_at<'p>(floor: Floor, st: CState<'p>, at: usize)
    requires
        #[trigger] kept(floor, st),
        st.chunk.code.len() <= usize::MAX ==> at >= floor.code.len(),
    ensures
        kept(floor, #[trigger] st.nop_at(at)),
{
    reveal(kept);
    reveal(CState::nop_at);
}

pub broadcast proof fn grow_aim<'p>(st: CState<'p>, pos: usize, target: usize)
    ensures
        st.chunk.code.len() <= (#[trigger] st.aim(pos, target)).chunk.code.len(),
        st.chunk.jump_overflow ==> st.aim(pos, target).chunk.jump_overflow,
        st.aim(pos, target).loops == st.loops,
        st.aim(pos, target).marks == st.marks,
{
    reveal(CState::aim);
}

pub broadcast proof fn keep_aim<'p>(floor: Floor, st: CState<'p>, pos: usize, target: usize)
    requires
        #[trigger] kept(floor, st),
        st.chunk.code.len() <= usize::MAX ==> pos >= floor.code.len(),
    ensures
        kept(floor, #[trigger] st.aim(pos, target)),
{
    reveal(kept);
    reveal(CState::aim);
}

pub broadcast proof fn grow_drop_marks<'p>(st: CState<'p>, base: usize)
    ensures
        st.chunk.code.len() <= (#[trigger] st.drop_marks(base)).chunk.code.len(),
        st.chunk.jump_overflow ==> st.drop_marks(base).chunk.jump_overflow,
        st.drop_marks(base).loops == st.loops,
        base <= st.marks.len() ==> st.drop_marks(base).marks == st.marks.take(base as int),
{
    reveal(CState::drop_marks);
}

pub broadcast proof fn keep_drop_marks<'p>(floor: Floor, st: CState<'p>, base: usize)
    requires
        #[trigger] kept(floor, st),
        base >= floor.marks,
    ensures
        kept(floor, #[trigger] st.drop_marks(base)),
{
    reveal(kept);
    reveal(CState::drop_marks);
}

pub broadcast proof fn grow_detach_finally<'p>(st: CState<'p>, depth: usize)
    ensures
        st.chunk.code.len() <= (#[trigger] st.detach_finally(depth)).0.chunk.code.len(),
        st.chunk.jump_overflow ==> st.detach_finally(depth).0.chunk.jump_overflow,
        st.detach_finally(depth).0.loops == st.loops,
        st.detach_finally(depth).0.marks == st.marks,
{
    reveal(CState::detach_finally);
}

pub broadcast proof fn keep_detach_finally<'p>(floor: Floor, st: CState<'p>, depth: usize)
    requires
        #[trigger] kept(floor, st),
    ensures
        kept(floor, (#[trigger] st.detach_finally(depth)).0),
{
    reveal(kept);
    reveal(CState::detach_finally);
}

pub broadcast proof fn grow_attach_finally<'p>(st: CState<'p>, levels: Seq<FinallyEntry<'p>>)
    ensures
        st.chunk.code.len() <= (#[trigger] st.attach_finally(levels)).chunk.code.len(),
        st.chunk.jump_overflow ==> st.attach_finally(levels).chunk.jump_overflow,
        st.attach_finally(levels).loops == st.loops,
        st.attach_finally(levels).marks == st.marks,
{
    reveal(CState::attach_finally);
}

pub broadcast proof fn keep_attach_finally<'p>(
    floor: Floor,
    st: CState<'p>,
    levels: Seq<FinallyEntry<'p>>,
)
    requires
        #[trigger] kept(floor, st),
    ensures
        kept(floor, #[trigger] st.attach_finally(levels)),
{
    reveal(kept);
    reveal(CState::attach_finally);
}

pub broadcast proof fn grow_add_break<'p>(st: CState<'p>, at: usize, pos: usize)
    ensures
        st.chunk.code.len() <= (#[trigger] st.add_break(at, pos)).chunk.code.len(),
        st.chunk.jump_overflow ==> st.add_break(at, pos).chunk.jump_overflow,
        st.add_break(at, pos).loops.len() == st.loops.len(),
        st.add_break(at, pos).marks == st.marks,
{
    reveal(CState::add_break);
}

pub broadcast proof fn keep_add_break<'p>(floor: Floor, st: CState<'p>, at: usize, pos: usize)
    requires
        #[trigger] kept(floor, st),
        st.chunk.code.len() <= usize::MAX ==> pos >= floor.code.len() && pos + 2 <= st.chunk.code.len(),
    ensures
        kept(floor, #[trigger] st.add_break(at, pos)),
{
    reveal(kept);
    reveal(CState::add_break);
}

pub broadcast proof fn grow_add_continue<'p>(st: CState<'p>, at: usize, pos: usize)
    ensures
        st.chunk.code.len() <= (#[trigger] st.add_continue(at, pos)).chunk.code.len(),
        st.chunk.jump_overflow ==> st.add_continue(at, pos).chunk.jump_overflow,
        st.add_continue(at, pos).loops.len() == st.loops.len(),
        st.add_continue(at, pos).marks == st.marks,
{
    reveal(CState::add_continue);
}

pub broadcast proof fn keep_add_continue<'p>(floor: Floor, st: CState<'p>, at: usize, pos: usize)
    requires
        #[trigger] kept(floor, st),
        st.chunk.code.len() <= usize::MAX ==> pos >= floor.code.len() && pos + 2 <= st.chunk.code.len(),
    ensures
        kept(floor, #[trigger] st.add_continue(at, pos)),
{
    reveal(kept);
    reveal(CState::add_continue);
}

pub broadcast proof fn grow_push_finally<'p>(st: CState<'p>, body: Option<&'p Vec<Statement>>)
    ensures
        st.chunk.code.len() <= (#[trigger] st.push_finally(body)).chunk.code.len(),
        st.chunk.jump_overflow ==> st.push_finally(body).chunk.jump_overflow,
        st.push_finally(body).loops == st.loops,
        st.push_finally(body).marks == st.marks,
{
    reveal(CState::push_finally);
}

pub broadcast proof fn keep_push_finally<'p>(
    floor: Floor,
    st: CState<'p>,
    body: Option<&'p Vec<Statement>>,
)
    requires
        #[trigger] kept(floor, st),
    ensures
        kept(floor, #[trigger] st.push_finally(body)),
{
    reveal(kept);
    reveal(CState::push_finally);
}

pub broadcast proof fn grow_deactivate_finally<'p>(st: CState<'p>)
    ensures
        st.chunk.code.len() <= (#[trigger] st.deactivate_finally()).chunk.code.len(),
        st.chunk.jump_overflow ==> st.deactivate_finally().chunk.jump_overflow,
        st.deactivate_finally().loops == st.loops,
        st.deactivate_finally().marks == st.marks,
{
    reveal(CState::deactivate_finally);
}

pub broadcast proof fn keep_deactivate_finally<'p>(floor: Floor, st: CState<'p>)
    requires
        #[trigger] kept(floor, st),
    ensures
        kept(floor, #[trigger] st.deactivate_finally()),
{
    reveal(kept);
    reveal(CState::deactivate_finally);
}

pub broadcast proof fn grow_pop_finally<'p>(st: CState<'p>)
    ensures
        st.chunk.code.len() <= (#[trigger] st.pop_finally()).chunk.code.len(),
        st.chunk.jump_overflow ==> st.pop_finally().chunk.jump_overflow,
        st.pop_finally().loops == st.loops,
        st.pop_finally().marks == st.marks,
{
    reveal(CState::pop_finally);
}

pub broadcast proof fn keep_pop_finally<'p>(floor: Floor, st: CState<'p>)
    requires
        #[trigger] kept(floor, st),
    ensures
        kept(floor, #[trigger] st.pop_finally()),
{
    reveal(kept);
    reveal(CState::pop_finally);
}

pub broadcast proof fn grow_set_label<'p>(st: CState<'p>, label: Option<StringId>)
    ensures
        st.chunk.code.len() <= (#[trigger] st.set_label(label)).chunk.code.len(),
        st.chunk.jump_overflow ==> st.set_label(label).chunk.jump_overflow,
        st.set_label(label).loops == st.loops,
        st.set_label(label).marks == st.marks,
{
    reveal(CState::set_label);
}

pub broadcast proof fn keep_set_label<'p>(floor: Floor, st: CState<'p>, label: Option<StringId>)
    requires
        #[trigger] kept(floor, st),
    ensures
        kept(floor, #[trigger] st.set_label(label)),
{
    reveal(kept);
    reveal(CState::set_label);
}

pub broadcast proof fn grow_enter_with<'p>(st: CState<'p>)
    ensures
        st.chunk.code.len() <= (#[trigger] st.enter_with()).chunk.code.len(),
        st.chunk.jump_overflow ==> st.enter_with().chunk.jump_overflow,
        st.enter_with().loops == st.loops,
        st.enter_with().marks == st.marks,
{
    reveal(CState::enter_with);
}

pub broadcast proof fn keep_enter_with<'p>(floor: Floor, st: CState<'p>)
    requires
        #[trigger] kept(floor, st),
    ensures
        kept(floor, #[trigger] st.enter_with()),
{
    reveal(kept);
    reveal(CState::enter_with);
}

pub broadcast proof fn grow_leave_with<'p>(st: CState<'p>)
    ensures
        st.chunk.code.len() <= (#[trigger] st.leave_with()).chunk.code.len(),
        st.chunk.jump_overflow ==> st.leave_with().chunk.jump_overflow,
        st.leave_with().loops == st.loops,
        st.leave_with().marks == st.marks,
{
    reveal(CState::leave_with);
}

pub broadcast proof fn keep_leave_with<'p>(floor: Floor, st: CState<'p>)
    requires
        #[trigger] kept(floor, st),
    ensures
        kept(floor, #[trigger] st.leave_with()),
{
    reveal(kept);
    reveal(CState::leave_with);
}

pub broadcast proof fn grow_here<'p>(st: CState<'p>)
    ensures
        st.chunk.code.len() <= usize::MAX ==> #[trigger] st.here() == st.chunk.code.len(),
{
    reveal(CState::here);
}

pub broadcast proof fn grow_mark_len<'p>(st: CState<'p>)
    ensures
        fit(st) ==> #[trigger] st.mark_len() == st.marks.len(),
{
    reveal(CState::mark_len);
}

pub broadcast proof fn keep_mark_at<'p>(floor: Floor, st: CState<'p>, at: usize)
    requires
        #[trigger] kept(floor, st),
        at >= floor.marks,
    ensures
        st.chunk.code.len() <= usize::MAX ==> #[trigger] st.mark_at(at) >= floor.code.len(),
{
    reveal(kept);
    reveal(CState::mark_at);
}

pub broadcast proof fn keep_fits<'p>(floor: Floor, st: CState<'p>)
    requires
        #[trigger] kept(floor, st),
    ensures
        fit(st),
        floor.marks <= st.marks.len(),
        floor.loops <= st.loops.len(),
        floor.code.len() <= st.chunk.code.len(),
{
    reveal(kept);
}

pub broadcast proof fn keep_taken(a: Seq<usize>, b: Seq<usize>)
    requires
        #[trigger] extends(a, b),
    ensures
        b.take(a.len() as int) == a,
{
    assert(b.take(a.len() as int) =~= a);
}

/// Each step of the compiler leaves the code below a floor alone.
pub broadcast group group_steps {
    grow_op,
    keep_op,
    grow_emit_constant,
    keep_emit_constant,
    grow_make_string_constant,
    keep_make_string_constant,
    grow_op_u16,
    keep_op_u16,
    grow_intern,
    keep_intern,
    grow_intern_around,
    keep_intern_around,
    grow_op_u8,
    keep_op_u8,
    grow_placeholder,
    keep_placeholder,
    grow_patch,
    keep_patch,
    grow_note_arguments,
    keep_note_arguments,
    grow_resolve_upvalue,
    keep_resolve_upvalue,
    grow_emit_get_property,
    keep_emit_get_property,
    grow_emit_set_property,
    keep_emit_set_property,
    grow_jump,
    keep_jump,
    grow_set_pending_name,
    keep_set_pending_name,
    grow_back,
    keep_back,
    grow_raw16,
    keep_raw16,
    grow_patch_short,
    keep_patch_short,
    grow_add_local,
    keep_add_local,
    grow_mark_initialized,
    keep_mark_initialized,
    grow_pop_local,
    keep_pop_local,
    grow_byte,
    keep_byte,
    grow_raw,
    keep_raw,
    grow_op_u32,
    keep_op_u32,
    grow_intern_number,
    keep_intern_number,
    grow_mark_last_child_as_method,
    keep_mark_last_child_as_method,
    grow_take_pending_name,
    keep_take_pending_name,
    grow_intern_param,
    keep_intern_param,
    grow_begin_default,
    keep_begin_default,
    grow_end_default,
    keep_end_default,
    grow_mark_self_name,
    keep_mark_self_name,
    grow_predeclare,
    keep_predeclare,
    grow_emit_closure,
    keep_emit_closure,
    grow_finish_chunk,
    keep_finish_chunk,
    grow_enter_class,
    keep_enter_class,
    grow_leave_class,
    keep_leave_class,
    grow_push_mark,
    keep_push_mark,
    grow_patch_marks,
    keep_patch_marks,
    grow_add_const_global,
    keep_add_const_global,
    grow_take_predeclared_lex,
    keep_take_predeclared_lex,
    grow_set_const,
    keep_set_const,
    grow_begin_scope,
    keep_begin_scope,
    grow_end_scope,
    keep_end_scope,
    grow_take_label,
    keep_take_label,
    grow_push_loop,
    keep_push_loop,
    grow_patch_loop_breaks,
    keep_patch_loop_breaks,
    grow_patch_continues,
    keep_patch_continues,
    grow_set_continue_here,
    keep_set_continue_here,
    grow_mark_wide_target,
    keep_mark_wide_target,
    grow_put_here,
    keep_put_here,
    grow_nop_at,
    keep_nop_at,
    grow_aim,
    keep_aim,
    grow_drop_marks,
    keep_drop_marks,
    grow_detach_finally,
    keep_detach_finally,
    grow_attach_finally,
    keep_attach_finally,
    grow_add_break,
    keep_add_break,
    grow_add_continue,
    keep_add_continue,
    grow_push_finally,
    keep_push_finally,
    grow_deactivate_finally,
    keep_deactivate_finally,
    grow_pop_finally,
    keep_pop_finally,
    grow_set_label,
    keep_set_label,
    grow_enter_with,
    keep_enter_with,
    grow_leave_with,
    keep_leave_with,
    grow_here,
    grow_mark_len,
    keep_mark_at,
    keep_fits,
    keep_taken,
}

pub broadcast proof fn grow_compile_number<'p>(st: CState<'p>, n: &'p NumberLiteral)
    ensures
        st.chunk.code.len() <= (#[trigger] st.compile_number(n)).chunk.code.len(),
        st.compile_number(n).loops == st.loops,
        st.compile_number(n).marks == st.marks,
        st.chunk.jump_overflow ==> st.compile_number(n).chunk.jump_overflow,
{
    broadcast use group_steps;

}

pub broadcast proof fn keep_compile_number<'p>(floor: Floor, st: CState<'p>, n: &'p NumberLiteral)
    requires
        #[trigger] kept(floor, st),
    ensures
        kept(floor, (#[trigger] st.compile_number(n))),
{
    broadcast use group_steps;

}

pub broadcast proof fn grow_op_name<'p>(st: CState<'p>, op: OpCode, name: StringId, line: u32)
    ensures
        st.chunk.code.len() <= (#[trigger] st.op_name(op, name, line)).chunk.code.len(),
        st.op_name(op, name, line).loops == st.loops,
        st.op_name(op, name, line).marks == st.marks,
        st.chunk.jump_overflow ==> st.op_name(op, name, line).chunk.jump_overflow,
{
    broadcast use group_steps;

}

pub broadcast proof fn keep_op_name<'p>(
    floor: Floor,
    st: CState<'p>,
    op: OpCode,
    name: StringId,
    line: u32,
)
    requires
        #[trigger] kept(floor, st),
    ensures
        kept(floor, (#[trigger] st.op_name(op, name, line))),
{
    broadcast use group_steps;

}

pub broadcast proof fn grow_emit_throw_reference_error<'p>(
    st: CState<'p>,
    name: StringId,
    line: u32,
)
    ensures
        st.chunk.code.len() <= (
            #[trigger] st.emit_throw_reference_error(name, line)
        ).chunk.code.len(),
        st.emit_throw_reference_error(name, line).loops == st.loops,
        st.emit_throw_reference_error(name, line).marks == st.marks,
        st.chunk.jump_overflow ==> st.emit_throw_reference_error(name, line).chunk.jump_overflow,
{
    broadcast use {group_steps, grow_op_name, keep_op_name};

}

pub broadcast proof fn keep_emit_throw_reference_error<'p>(
    floor: Floor,
    st: CState<'p>,
    name: StringId,
    line: u32,
)
    requires
        #[trigger] kept(floor, st),
    ensures
        kept(floor, (#[trigger] st.emit_throw_reference_error(name, line))),
{
    broadcast use {group_steps, grow_op_name, keep_op_name};

}

pub broadcast proof fn grow_emit_with_guard<'p>(
    st: CState<'p>,
    op: OpCode,
    name: StringId,
    line: u32,
)
    ensures
        st.chunk.code.len() <= (#[trigger] st.emit_with_guard(op, name, line)).0.chunk.code.len(),
        st.emit_with_guard(op, name, line).0.loops == st.loops,
        st.emit_with_guard(op, name, line).0.marks == st.marks,
        st.chunk.jump_overflow ==> st.emit_with_guard(op, name, line).0.chunk.jump_overflow,
        st.emit_with_guard(op, name, line).0.chunk.code.len() <= usize::MAX ==> st.emit_with_guard(
            op,
            name,
            line,
        ).1 >= st.chunk.code.len(),
{
    broadcast use {group_steps, grow_op_name, keep_op_name};

}

pub broadcast proof fn keep_emit_with_guard<'p>(
    floor: Floor,
    st: CState<'p>,
    op: OpCode,
    name: StringId,
    line: u32,
)
    requires
        #[trigger] kept(floor, st),
    ensures
        kept(floor, (#[trigger] st.emit_with_guard(op, name, line)).0),
{
    broadcast use {group_steps, grow_op_name, keep_op_name};

}

pub broadcast proof fn grow_get_slot<'p>(st: CState<'p>, slot: usize, line: u32)
    ensures
        st.chunk.code.len() <= (#[trigger] st.get_slot(slot, line)).chunk.code.len(),
        st.get_slot(slot, line).loops == st.loops,
        st.get_slot(slot, line).marks == st.marks,
        st.chunk.jump_overflow ==> st.get_slot(slot, line).chunk.jump_overflow,
{
    broadcast use group_steps;

}

pub broadcast proof fn keep_get_slot<'p>(floor: Floor, st: CState<'p>, slot: usize, line: u32)
    requires
        #[trigger] kept(floor, st),
    ensures
        kept(floor, (#[trigger] st.get_slot(slot, line))),
{
    broadcast use group_steps;

}

pub broadcast proof fn grow_get_upvalue<'p>(st: CState<'p>, index: u16, line: u32)
    ensures
        st.chunk.code.len() <= (#[trigger] st.get_upvalue(index, line)).chunk.code.len(),
        st.get_upvalue(index, line).loops == st.loops,
        st.get_upvalue(index, line).marks == st.marks,
        st.chunk.jump_overflow ==> st.get_upvalue(index, line).chunk.jump_overflow,
{
    broadcast use group_steps;

}

pub broadcast proof fn keep_get_upvalue<'p>(floor: Floor, st: CState<'p>, index: u16, line: u32)
    requires
        #[trigger] kept(floor, st),
    ensures
        kept(floor, (#[trigger] st.get_upvalue(index, line))),
{
    broadcast use group_steps;

}

pub broadcast proof fn grow_compile_get_bound_variable<'p>(
    st: CState<'p>,
    name: StringId,
    line: u32,
)
    ensures
        st.chunk.code.len() <= (
            #[trigger] st.compile_get_bound_variable(name, line)
        ).chunk.code.len(),
        st.compile_get_bound_variable(name, line).loops == st.loops,
        st.compile_get_bound_variable(name, line).marks == st.marks,
        st.chunk.jump_overflow ==> st.compile_get_bound_variable(name, line).chunk.jump_overflow,
{
    broadcast use {
        group_steps,
        grow_emit_with_guard,
        keep_emit_with_guard,
        grow_get_slot,
        keep_get_slot,
        grow_op_name,
        keep_op_name,
        grow_get_upvalue,
        keep_get_upvalue,
    };

}

pub broadcast proof fn keep_compile_get_bound_variable<'p>(
    floor: Floor,
    st: CState<'p>,
    name: StringId,
    line: u32,
)
    requires
        #[trigger] kept(floor, st),
    ensures
        kept(floor, (#[trigger] st.compile_get_bound_variable(name, line))),
{
    broadcast use {
        group_steps,
        grow_emit_with_guard,
        keep_emit_with_guard,
        grow_get_slot,
        keep_get_slot,
        grow_op_name,
        keep_op_name,
        grow_get_upvalue,
        keep_get_upvalue,
    };

}

pub broadcast proof fn grow_compile_get_variable<'p>(st: CState<'p>, name: StringId, line: u32)
    ensures
        st.chunk.code.len() <= (#[trigger] st.compile_get_variable(name, line)).chunk.code.len(),
        st.compile_get_variable(name, line).loops == st.loops,
        st.compile_get_variable(name, line).marks == st.marks,
        st.chunk.jump_overflow ==> st.compile_get_variable(name, line).chunk.jump_overflow,
{
    broadcast use {
        group_steps,
        grow_emit_throw_reference_error,
        keep_emit_throw_reference_error,
        grow_compile_get_bound_variable,
        keep_compile_get_bound_variable,
    };

}

pub broadcast proof fn keep_compile_get_variable<'p>(
    floor: Floor,
    st: CState<'p>,
    name: StringId,
    line: u32,
)
    requires
        #[trigger] kept(floor, st),
    ensures
        kept(floor, (#[trigger] st.compile_get_variable(name, line))),
{
    broadcast use {
        group_steps,
        grow_emit_throw_reference_error,
        keep_emit_throw_reference_error,
        grow_compile_get_bound_variable,
        keep_compile_get_bound_variable,
    };

}

pub broadcast proof fn grow_compile_identifier<'p>(st: CState<'p>, id: &'p Identifier)
    ensures
        st.chunk.code.len() <= (#[trigger] st.compile_identifier(id)).chunk.code.len(),
        st.compile_identifier(id).loops == st.loops,
        st.compile_identifier(id).marks == st.marks,
        st.chunk.jump_overflow ==> st.compile_identifier(id).chunk.jump_overflow,
{
    broadcast use {group_steps, grow_compile_get_variable, keep_compile_get_variable};

}

pub broadcast proof fn keep_compile_identifier<'p>(floor: Floor, st: CState<'p>, id: &'p Identifier)
    requires
        #[trigger] kept(floor, st),
    ensures
        kept(floor, (#[trigger] st.compile_identifier(id))),
{
    broadcast use {group_steps, grow_compile_get_variable, keep_compile_get_variable};

}

pub broadcast proof fn grow_ident_needs_with_ref<'p>(st: CState<'p>, name: StringId)
    ensures
        st.chunk.code.len() <= (#[trigger] st.ident_needs_with_ref(name)).0.chunk.code.len(),
        st.ident_needs_with_ref(name).0.loops == st.loops,
        st.ident_needs_with_ref(name).0.marks == st.marks,
        st.chunk.jump_overflow ==> st.ident_needs_with_ref(name).0.chunk.jump_overflow,
{
    broadcast use group_steps;

}

pub broadcast proof fn keep_ident_needs_with_ref<'p>(floor: Floor, st: CState<'p>, name: StringId)
    requires
        #[trigger] kept(floor, st),
    ensures
        kept(floor, (#[trigger] st.ident_needs_with_ref(name)).0),
{
    broadcast use group_steps;

}

pub broadcast proof fn grow_compile_get_variable_resolved<'p>(
    st: CState<'p>,
    name: StringId,
    line: u32,
)
    ensures
        st.chunk.code.len() <= (
            #[trigger] st.compile_get_variable_resolved(name, line)
        ).chunk.code.len(),
        st.compile_get_variable_resolved(name, line).loops == st.loops,
        st.compile_get_variable_resolved(name, line).marks == st.marks,
        st.chunk.jump_overflow ==> st.compile_get_variable_resolved(name, line).chunk.jump_overflow,
{
    broadcast use {
        group_steps,
        grow_emit_with_guard,
        keep_emit_with_guard,
        grow_get_slot,
        keep_get_slot,
        grow_get_upvalue,
        keep_get_upvalue,
        grow_op_name,
        keep_op_name,
    };

}

pub broadcast proof fn keep_compile_get_variable_resolved<'p>(
    floor: Floor,
    st: CState<'p>,
    name: StringId,
    line: u32,
)
    requires
        #[trigger] kept(floor, st),
    ensures
        kept(floor, (#[trigger] st.compile_get_variable_resolved(name, line))),
{
    broadcast use {
        group_steps,
        grow_emit_with_guard,
        keep_emit_with_guard,
        grow_get_slot,
        keep_get_slot,
        grow_get_upvalue,
        keep_get_upvalue,
        grow_op_name,
        keep_op_name,
    };

}

pub broadcast proof fn grow_set_slot<'p>(st: CState<'p>, slot: usize, line: u32)
    ensures
        st.chunk.code.len() <= (#[trigger] st.set_slot(slot, line)).chunk.code.len(),
        st.set_slot(slot, line).loops == st.loops,
        st.set_slot(slot, line).marks == st.marks,
        st.chunk.jump_overflow ==> st.set_slot(slot, line).chunk.jump_overflow,
{
    broadcast use group_steps;

}

pub broadcast proof fn keep_set_slot<'p>(floor: Floor, st: CState<'p>, slot: usize, line: u32)
    requires
        #[trigger] kept(floor, st),
    ensures
        kept(floor, (#[trigger] st.set_slot(slot, line))),
{
    broadcast use group_steps;

}

pub broadcast proof fn grow_set_upvalue<'p>(st: CState<'p>, index: u16, line: u32)
    ensures
        st.chunk.code.len() <= (#[trigger] st.set_upvalue(index, line)).chunk.code.len(),
        st.set_upvalue(index, line).loops == st.loops,
        st.set_upvalue(index, line).marks == st.marks,
        st.chunk.jump_overflow ==> st.set_upvalue(index, line).chunk.jump_overflow,
{
    broadcast use group_steps;

}

pub broadcast proof fn keep_set_upvalue<'p>(floor: Floor, st: CState<'p>, index: u16, line: u32)
    requires
        #[trigger] kept(floor, st),
    ensures
        kept(floor, (#[trigger] st.set_upvalue(index, line))),
{
    broadcast use group_steps;

}

pub broadcast proof fn grow_compile_set_variable_resolved<'p>(
    st: CState<'p>,
    name: StringId,
    line: u32,
)
    ensures
        st.chunk.code.len() <= (
            #[trigger] st.compile_set_variable_resolved(name, line)
        ).chunk.code.len(),
        st.compile_set_variable_resolved(name, line).loops == st.loops,
        st.compile_set_variable_resolved(name, line).marks == st.marks,
        st.chunk.jump_overflow ==> st.compile_set_variable_resolved(name, line).chunk.jump_overflow,
{
    broadcast use {
        group_steps,
        grow_emit_with_guard,
        keep_emit_with_guard,
        grow_set_slot,
        keep_set_slot,
        grow_set_upvalue,
        keep_set_upvalue,
        grow_op_name,
        keep_op_name,
    };

}

pub broadcast proof fn keep_compile_set_variable_resolved<'p>(
    floor: Floor,
    st: CState<'p>,
    name: StringId,
    line: u32,
)
    requires
        #[trigger] kept(floor, st),
    ensures
        kept(floor, (#[trigger] st.compile_set_variable_resolved(name, line))),
{
    broadcast use {
        group_steps,
        grow_emit_with_guard,
        keep_emit_with_guard,
        grow_set_slot,
        keep_set_slot,
        grow_set_upvalue,
        keep_set_upvalue,
        grow_op_name,
        keep_op_name,
    };

}

pub broadcast proof fn grow_emit_throw_const_error<'p>(st: CState<'p>, name: StringId, line: u32)
    ensures
        st.chunk.code.len() <= (#[trigger] st.emit_throw_const_error(name, line)).chunk.code.len(),
        st.emit_throw_const_error(name, line).loops == st.loops,
        st.emit_throw_const_error(name, line).marks == st.marks,
        st.chunk.jump_overflow ==> st.emit_throw_const_error(name, line).chunk.jump_overflow,
{
    broadcast use {group_steps, grow_op_name, keep_op_name};

}

pub broadcast proof fn keep_emit_throw_const_error<'p>(
    floor: Floor,
    st: CState<'p>,
    name: StringId,
    line: u32,
)
    requires
        #[trigger] kept(floor, st),
    ensures
        kept(floor, (#[trigger] st.emit_throw_const_error(name, line))),
{
    broadcast use {group_steps, grow_op_name, keep_op_name};

}

pub broadcast proof fn grow_compile_set_bound_variable<'p>(
    st: CState<'p>,
    name: StringId,
    line: u32,
)
    ensures
        st.chunk.code.len() <= (
            #[trigger] st.compile_set_bound_variable(name, line)
        ).chunk.code.len(),
        st.compile_set_bound_variable(name, line).loops == st.loops,
        st.compile_set_bound_variable(name, line).marks == st.marks,
        st.chunk.jump_overflow ==> st.compile_set_bound_variable(name, line).chunk.jump_overflow,
{
    broadcast use {
        group_steps,
        grow_emit_throw_const_error,
        keep_emit_throw_const_error,
        grow_emit_with_guard,
        keep_emit_with_guard,
        grow_set_slot,
        keep_set_slot,
        grow_set_upvalue,
        keep_set_upvalue,
        grow_op_name,
        keep_op_name,
    };

}

pub broadcast proof fn keep_compile_set_bound_variable<'p>(
    floor: Floor,
    st: CState<'p>,
    name: StringId,
    line: u32,
)
    requires
        #[trigger] kept(floor, st),
    ensures
        kept(floor, (#[trigger] st.compile_set_bound_variable(name, line))),
{
    broadcast use {
        group_steps,
        grow_emit_throw_const_error,
        keep_emit_throw_const_error,
        grow_emit_with_guard,
        keep_emit_with_guard,
        grow_set_slot,
        keep_set_slot,
        grow_set_upvalue,
        keep_set_upvalue,
        grow_op_name,
        keep_op_name,
    };

}

pub broadcast proof fn grow_compile_set_variable<'p>(st: CState<'p>, name: StringId, line: u32)
    ensures
        st.chunk.code.len() <= (#[trigger] st.compile_set_variable(name, line)).chunk.code.len(),
        st.compile_set_variable(name, line).loops == st.loops,
        st.compile_set_variable(name, line).marks == st.marks,
        st.chunk.jump_overflow ==> st.compile_set_variable(name, line).chunk.jump_overflow,
{
    broadcast use {
        group_steps,
        grow_emit_throw_reference_error,
        keep_emit_throw_reference_error,
        grow_compile_set_bound_variable,
        keep_compile_set_bound_variable,
    };

}

pub broadcast proof fn keep_compile_set_variable<'p>(
    floor: Floor,
    st: CState<'p>,
    name: StringId,
    line: u32,
)
    requires
        #[trigger] kept(floor, st),
    ensures
        kept(floor, (#[trigger] st.compile_set_variable(name, line))),
{
    broadcast use {
        group_steps,
        grow_emit_throw_reference_error,
        keep_emit_throw_reference_error,
        grow_compile_set_bound_variable,
        keep_compile_set_bound_variable,
    };

}

pub broadcast proof fn grow_update_identifier<'p>(
    st: CState<'p>,
    name: StringId,
    inc_op: OpCode,
    prefix: bool,
    line: u32,
)
    ensures
        st.chunk.code.len() <= (
            #[trigger] st.update_identifier(name, inc_op, prefix, line)
        ).chunk.code.len(),
        st.update_identifier(name, inc_op, prefix, line).loops == st.loops,
        st.update_identifier(name, inc_op, prefix, line).marks == st.marks,
        st.chunk.jump_overflow ==> st.update_identifier(
            name,
            inc_op,
            prefix,
            line,
        ).chunk.jump_overflow,
{
    broadcast use {
        group_steps,
        grow_ident_needs_with_ref,
        keep_ident_needs_with_ref,
        grow_op_name,
        keep_op_name,
        grow_compile_get_variable_resolved,
        keep_compile_get_variable_resolved,
        grow_compile_set_variable_resolved,
        keep_compile_set_variable_resolved,
        grow_compile_get_variable,
        keep_compile_get_variable,
        grow_compile_set_variable,
        keep_compile_set_variable,
    };

}

pub broadcast proof fn keep_update_identifier<'p>(
    floor: Floor,
    st: CState<'p>,
    name: StringId,
    inc_op: OpCode,
    prefix: bool,
    line: u32,
)
    requires
        #[trigger] kept(floor, st),
    ensures
        kept(floor, (#[trigger] st.update_identifier(name, inc_op, prefix, line))),
{
    broadcast use {
        group_steps,
        grow_ident_needs_with_ref,
        keep_ident_needs_with_ref,
        grow_op_name,
        keep_op_name,
        grow_compile_get_variable_resolved,
        keep_compile_get_variable_resolved,
        grow_compile_set_variable_resolved,
        keep_compile_set_variable_resolved,
        grow_compile_get_variable,
        keep_compile_get_variable,
        grow_compile_set_variable,
        keep_compile_set_variable,
    };

}

pub broadcast proof fn grow_update_property<'p>(
    st: CState<'p>,
    name: StringId,
    inc_op: OpCode,
    prefix: bool,
    line: u32,
)
    ensures
        st.chunk.code.len() <= (
            #[trigger] st.update_property(name, inc_op, prefix, line)
        ).chunk.code.len(),
        st.update_property(name, inc_op, prefix, line).loops == st.loops,
        st.update_property(name, inc_op, prefix, line).marks == st.marks,
        st.chunk.jump_overflow ==> st.update_property(
            name,
            inc_op,
            prefix,
            line,
        ).chunk.jump_overflow,
{
    broadcast use group_steps;

}

pub broadcast proof fn keep_update_property<'p>(
    floor: Floor,
    st: CState<'p>,
    name: StringId,
    inc_op: OpCode,
    prefix: bool,
    line: u32,
)
    requires
        #[trigger] kept(floor, st),
    ensures
        kept(floor, (#[trigger] st.update_property(name, inc_op, prefix, line))),
{
    broadcast use group_steps;

}

pub broadcast proof fn grow_update_element<'p>(
    st: CState<'p>,
    inc_op: OpCode,
    prefix: bool,
    line: u32,
)
    ensures
        st.chunk.code.len() <= (
            #[trigger] st.update_element(inc_op, prefix, line)
        ).chunk.code.len(),
        st.update_element(inc_op, prefix, line).loops == st.loops,
        st.update_element(inc_op, prefix, line).marks == st.marks,
        st.chunk.jump_overflow ==> st.update_element(inc_op, prefix, line).chunk.jump_overflow,
{
    broadcast use group_steps;

}

pub broadcast proof fn keep_update_element<'p>(
    floor: Floor,
    st: CState<'p>,
    inc_op: OpCode,
    prefix: bool,
    line: u32,
)
    requires
        #[trigger] kept(floor, st),
    ensures
        kept(floor, (#[trigger] st.update_element(inc_op, prefix, line))),
{
    broadcast use group_steps;

}

pub broadcast proof fn grow_emit_compound_arith<'p>(
    st: CState<'p>,
    operator: AssignmentOperator,
    line: u32,
)
    ensures
        st.emit_compound_arith(operator, line) is Ok ==> st.chunk.code.len() <= (
            #[trigger] st.emit_compound_arith(operator, line)
        )->Ok_0.chunk.code.len(),
        st.emit_compound_arith(operator, line) is Ok ==> st.emit_compound_arith(
            operator,
            line,
        )->Ok_0.loops == st.loops,
        st.emit_compound_arith(operator, line) is Ok ==> st.emit_compound_arith(
            operator,
            line,
        )->Ok_0.marks == st.marks,
        st.emit_compound_arith(
            operator,
            line,
        ) is Ok ==> st.chunk.jump_overflow ==> st.emit_compound_arith(
            operator,
            line,
        )->Ok_0.chunk.jump_overflow,
{
    broadcast use group_steps;

}

pub broadcast proof fn keep_emit_compound_arith<'p>(
    floor: Floor,
    st: CState<'p>,
    operator: AssignmentOperator,
    line: u32,
)
    requires
        #[trigger] kept(floor, st),
        st.emit_compound_arith(operator, line) is Ok,
    ensures
        kept(floor, (#[trigger] st.emit_compound_arith(operator, line))->Ok_0),
{
    broadcast use group_steps;

}

pub broadcast proof fn grow_collect_iterated<'p>(st: CState<'p>, line: u32)
    ensures
        st.chunk.code.len() <= (#[trigger] st.collect_iterated(line)).chunk.code.len(),
        st.collect_iterated(line).loops == st.loops,
        st.collect_iterated(line).marks == st.marks,
        st.chunk.jump_overflow ==> st.collect_iterated(line).chunk.jump_overflow,
{
    broadcast use group_steps;

}

pub broadcast proof fn keep_collect_iterated<'p>(floor: Floor, st: CState<'p>, line: u32)
    requires
        #[trigger] kept(floor, st),
    ensures
        kept(floor, (#[trigger] st.collect_iterated(line))),
{
    broadcast use group_steps;

}

pub broadcast proof fn grow_emit_element_read<'p>(st: CState<'p>, has_rest: bool, line: u32)
    ensures
        st.chunk.code.len() <= (#[trigger] st.emit_element_read(has_rest, line)).chunk.code.len(),
        st.emit_element_read(has_rest, line).loops == st.loops,
        st.emit_element_read(has_rest, line).marks == st.marks,
        st.chunk.jump_overflow ==> st.emit_element_read(has_rest, line).chunk.jump_overflow,
{
    broadcast use group_steps;

}

pub broadcast proof fn keep_emit_element_read<'p>(
    floor: Floor,
    st: CState<'p>,
    has_rest: bool,
    line: u32,
)
    requires
        #[trigger] kept(floor, st),
    ensures
        kept(floor, (#[trigger] st.emit_element_read(has_rest, line))),
{
    broadcast use group_steps;

}

pub broadcast proof fn grow_emit_throw_type_error<'p>(st: CState<'p>, msg: Seq<char>, line: u32)
    ensures
        st.chunk.code.len() <= (#[trigger] st.emit_throw_type_error(msg, line)).chunk.code.len(),
        st.emit_throw_type_error(msg, line).loops == st.loops,
        st.emit_throw_type_error(msg, line).marks == st.marks,
        st.chunk.jump_overflow ==> st.emit_throw_type_error(msg, line).chunk.jump_overflow,
{
    broadcast use {group_steps, grow_op_name, keep_op_name};

}

pub broadcast proof fn keep_emit_throw_type_error<'p>(
    floor: Floor,
    st: CState<'p>,
    msg: Seq<char>,
    line: u32,
)
    requires
        #[trigger] kept(floor, st),
    ensures
        kept(floor, (#[trigger] st.emit_throw_type_error(msg, line))),
{
    broadcast use {group_steps, grow_op_name, keep_op_name};

}

pub broadcast proof fn grow_declare_local<'p>(st: CState<'p>, name: StringId)
    ensures
        st.chunk.code.len() <= (#[trigger] st.declare_local(name)).chunk.code.len(),
        st.declare_local(name).loops == st.loops,
        st.declare_local(name).marks == st.marks,
        st.chunk.jump_overflow ==> st.declare_local(name).chunk.jump_overflow,
{
    broadcast use group_steps;

}

pub broadcast proof fn keep_declare_local<'p>(floor: Floor, st: CState<'p>, name: StringId)
    requires
        #[trigger] kept(floor, st),
    ensures
        kept(floor, (#[trigger] st.declare_local(name))),
{
    broadcast use group_steps;

}

pub broadcast proof fn grow_emit_value_or_undefined<'p>(st: CState<'p>, line: u32)
    ensures
        st.chunk.code.len() <= (#[trigger] st.emit_value_or_undefined(line)).chunk.code.len(),
        st.emit_value_or_undefined(line).loops == st.loops,
        st.emit_value_or_undefined(line).marks == st.marks,
        st.chunk.jump_overflow ==> st.emit_value_or_undefined(line).chunk.jump_overflow,
{
    broadcast use group_steps;

}

pub broadcast proof fn keep_emit_value_or_undefined<'p>(floor: Floor, st: CState<'p>, line: u32)
    requires
        #[trigger] kept(floor, st),
    ensures
        kept(floor, (#[trigger] st.emit_value_or_undefined(line))),
{
    broadcast use group_steps;

}

pub broadcast proof fn grow_name_default<'p>(
    st: CState<'p>,
    left: &'p Pattern,
    right: &'p Expression,
)
    ensures
        st.chunk.code.len() <= (#[trigger] st.name_default(left, right)).chunk.code.len(),
        st.name_default(left, right).loops == st.loops,
        st.name_default(left, right).marks == st.marks,
        st.chunk.jump_overflow ==> st.name_default(left, right).chunk.jump_overflow,
{
    broadcast use group_steps;

}

pub broadcast proof fn keep_name_default<'p>(
    floor: Floor,
    st: CState<'p>,
    left: &'p Pattern,
    right: &'p Expression,
)
    requires
        #[trigger] kept(floor, st),
    ensures
        kept(floor, (#[trigger] st.name_default(left, right))),
{
    broadcast use group_steps;

}

pub broadcast proof fn grow_emit_call_method<'p>(st: CState<'p>, argc: u8, idx: u16, line: u32)
    ensures
        st.chunk.code.len() <= (#[trigger] st.emit_call_method(argc, idx, line)).chunk.code.len(),
        st.emit_call_method(argc, idx, line).loops == st.loops,
        st.emit_call_method(argc, idx, line).marks == st.marks,
        st.chunk.jump_overflow ==> st.emit_call_method(argc, idx, line).chunk.jump_overflow,
{
    broadcast use group_steps;

}

pub broadcast proof fn keep_emit_call_method<'p>(
    floor: Floor,
    st: CState<'p>,
    argc: u8,
    idx: u16,
    line: u32,
)
    requires
        #[trigger] kept(floor, st),
    ensures
        kept(floor, (#[trigger] st.emit_call_method(argc, idx, line))),
{
    broadcast use group_steps;

}

pub broadcast proof fn grow_sets_prototype<'p>(st: CState<'p>, p: &'p Property)
    ensures
        st.chunk.code.len() <= (#[trigger] st.sets_prototype(p)).0.chunk.code.len(),
        st.sets_prototype(p).0.loops == st.loops,
        st.sets_prototype(p).0.marks == st.marks,
        st.chunk.jump_overflow ==> st.sets_prototype(p).0.chunk.jump_overflow,
{
    broadcast use group_steps;

}

pub broadcast proof fn keep_sets_prototype<'p>(floor: Floor, st: CState<'p>, p: &'p Property)
    requires
        #[trigger] kept(floor, st),
    ensures
        kept(floor, (#[trigger] st.sets_prototype(p)).0),
{
    broadcast use group_steps;

}

pub broadcast proof fn grow_symbol_name<'p>(st: CState<'p>, prop: StringId)
    ensures
        st.chunk.code.len() <= (#[trigger] st.symbol_name(prop)).0.chunk.code.len(),
        st.symbol_name(prop).0.loops == st.loops,
        st.symbol_name(prop).0.marks == st.marks,
        st.chunk.jump_overflow ==> st.symbol_name(prop).0.chunk.jump_overflow,
{
    broadcast use group_steps;

}

pub broadcast proof fn keep_symbol_name<'p>(floor: Floor, st: CState<'p>, prop: StringId)
    requires
        #[trigger] kept(floor, st),
    ensures
        kept(floor, (#[trigger] st.symbol_name(prop)).0),
{
    broadcast use group_steps;

}

pub broadcast proof fn grow_symbol_member_name<'p>(st: CState<'p>, mem: &'p MemberExpression)
    ensures
        st.chunk.code.len() <= (#[trigger] st.symbol_member_name(mem)).0.chunk.code.len(),
        st.symbol_member_name(mem).0.loops == st.loops,
        st.symbol_member_name(mem).0.marks == st.marks,
        st.chunk.jump_overflow ==> st.symbol_member_name(mem).0.chunk.jump_overflow,
{
    broadcast use {group_steps, grow_symbol_name, keep_symbol_name};

}

pub broadcast proof fn keep_symbol_member_name<'p>(
    floor: Floor,
    st: CState<'p>,
    mem: &'p MemberExpression,
)
    requires
        #[trigger] kept(floor, st),
    ensures
        kept(floor, (#[trigger] st.symbol_member_name(mem)).0),
{
    broadcast use {group_steps, grow_symbol_name, keep_symbol_name};

}

pub broadcast proof fn grow_property_key_name<'p>(st: CState<'p>, key: &'p PropertyKey)
    ensures
        st.chunk.code.len() <= (#[trigger] st.property_key_name(key)).0.chunk.code.len(),
        st.property_key_name(key).0.loops == st.loops,
        st.property_key_name(key).0.marks == st.marks,
        st.chunk.jump_overflow ==> st.property_key_name(key).0.chunk.jump_overflow,
{
    broadcast use {group_steps, grow_symbol_member_name, keep_symbol_member_name};

}

pub broadcast proof fn keep_property_key_name<'p>(
    floor: Floor,
    st: CState<'p>,
    key: &'p PropertyKey,
)
    requires
        #[trigger] kept(floor, st),
    ensures
        kept(floor, (#[trigger] st.property_key_name(key)).0),
{
    broadcast use {group_steps, grow_symbol_member_name, keep_symbol_member_name};

}

pub broadcast proof fn grow_declared_name<'p>(st: CState<'p>, id: Option<StringId>)
    ensures
        st.chunk.code.len() <= (#[trigger] st.declared_name(id)).0.chunk.code.len(),
        st.declared_name(id).0.loops == st.loops,
        st.declared_name(id).0.marks == st.marks,
        st.chunk.jump_overflow ==> st.declared_name(id).0.chunk.jump_overflow,
{
    broadcast use group_steps;

}

pub broadcast proof fn keep_declared_name<'p>(floor: Floor, st: CState<'p>, id: Option<StringId>)
    requires
        #[trigger] kept(floor, st),
    ensures
        kept(floor, (#[trigger] st.declared_name(id)).0),
{
    broadcast use group_steps;

}

pub broadcast proof fn grow_function_name<'p>(st: CState<'p>, id: Option<StringId>)
    ensures
        st.chunk.code.len() <= (#[trigger] st.function_name(id)).0.chunk.code.len(),
        st.function_name(id).0.loops == st.loops,
        st.function_name(id).0.marks == st.marks,
        st.chunk.jump_overflow ==> st.function_name(id).0.chunk.jump_overflow,
{
    broadcast use {group_steps, grow_declared_name, keep_declared_name};

}

pub broadcast proof fn keep_function_name<'p>(floor: Floor, st: CState<'p>, id: Option<StringId>)
    requires
        #[trigger] kept(floor, st),
    ensures
        kept(floor, (#[trigger] st.function_name(id)).0),
{
    broadcast use {group_steps, grow_declared_name, keep_declared_name};

}

pub broadcast proof fn grow_function_chunk<'p>(
    st: CState<'p>,
    name: StringId,
    params: &'p Vec<Pattern>,
    body: &'p Vec<Statement>,
    is_async: bool,
    is_generator: bool,
)
    ensures
        st.chunk.code.len() <= (
            #[trigger] st.function_chunk(name, params, body, is_async, is_generator)
        ).0.chunk.code.len(),
        st.function_chunk(name, params, body, is_async, is_generator).0.loops == st.loops,
        st.function_chunk(name, params, body, is_async, is_generator).0.marks == st.marks,
        st.chunk.jump_overflow ==> st.function_chunk(
            name,
            params,
            body,
            is_async,
            is_generator,
        ).0.chunk.jump_overflow,
{
    broadcast use group_steps;

}

pub broadcast proof fn keep_function_chunk<'p>(
    floor: Floor,
    st: CState<'p>,
    name: StringId,
    params: &'p Vec<Pattern>,
    body: &'p Vec<Statement>,
    is_async: bool,
    is_generator: bool,
)
    requires
        #[trigger] kept(floor, st),
    ensures
        kept(floor, (#[trigger] st.function_chunk(name, params, body, is_async, is_generator)).0),
{
    broadcast use group_steps;

}

pub broadcast proof fn grow_collect_from_slot<'p>(st: CState<'p>, iter_slot: u8, line: u32)
    ensures
        st.chunk.code.len() <= (#[trigger] st.collect_from_slot(iter_slot, line)).chunk.code.len(),
        st.collect_from_slot(iter_slot, line).loops == st.loops,
        st.collect_from_slot(iter_slot, line).marks == st.marks,
        st.chunk.jump_overflow ==> st.collect_from_slot(iter_slot, line).chunk.jump_overflow,
{
    broadcast use group_steps;

}

pub broadcast proof fn keep_collect_from_slot<'p>(
    floor: Floor,
    st: CState<'p>,
    iter_slot: u8,
    line: u32,
)
    requires
        #[trigger] kept(floor, st),
    ensures
        kept(floor, (#[trigger] st.collect_from_slot(iter_slot, line))),
{
    broadcast use group_steps;

}

pub broadcast proof fn grow_next_from_slot<'p>(
    st: CState<'p>,
    iter_slot: u8,
    done_slot: u8,
    line: u32,
)
    ensures
        st.chunk.code.len() <= (
            #[trigger] st.next_from_slot(iter_slot, done_slot, line)
        ).chunk.code.len(),
        st.next_from_slot(iter_slot, done_slot, line).loops == st.loops,
        st.next_from_slot(iter_slot, done_slot, line).marks == st.marks,
        st.chunk.jump_overflow ==> st.next_from_slot(
            iter_slot,
            done_slot,
            line,
        ).chunk.jump_overflow,
{
    broadcast use {group_steps, grow_emit_value_or_undefined, keep_emit_value_or_undefined};

}

pub broadcast proof fn keep_next_from_slot<'p>(
    floor: Floor,
    st: CState<'p>,
    iter_slot: u8,
    done_slot: u8,
    line: u32,
)
    requires
        #[trigger] kept(floor, st),
    ensures
        kept(floor, (#[trigger] st.next_from_slot(iter_slot, done_slot, line))),
{
    broadcast use {group_steps, grow_emit_value_or_undefined, keep_emit_value_or_undefined};

}

pub broadcast proof fn grow_skip_from_slot<'p>(st: CState<'p>, iter_slot: u8, line: u32)
    ensures
        st.chunk.code.len() <= (#[trigger] st.skip_from_slot(iter_slot, line)).chunk.code.len(),
        st.skip_from_slot(iter_slot, line).loops == st.loops,
        st.skip_from_slot(iter_slot, line).marks == st.marks,
        st.chunk.jump_overflow ==> st.skip_from_slot(iter_slot, line).chunk.jump_overflow,
{
    broadcast use group_steps;

}

pub broadcast proof fn keep_skip_from_slot<'p>(
    floor: Floor,
    st: CState<'p>,
    iter_slot: u8,
    line: u32,
)
    requires
        #[trigger] kept(floor, st),
    ensures
        kept(floor, (#[trigger] st.skip_from_slot(iter_slot, line))),
{
    broadcast use group_steps;

}

pub broadcast proof fn grow_close_unless_done<'p>(
    st: CState<'p>,
    iter_slot: u8,
    done_slot: u8,
    line: u32,
)
    ensures
        st.chunk.code.len() <= (
            #[trigger] st.close_unless_done(iter_slot, done_slot, line)
        ).chunk.code.len(),
        st.close_unless_done(iter_slot, done_slot, line).loops == st.loops,
        st.close_unless_done(iter_slot, done_slot, line).marks == st.marks,
        st.chunk.jump_overflow ==> st.close_unless_done(
            iter_slot,
            done_slot,
            line,
        ).chunk.jump_overflow,
{
    broadcast use group_steps;

}

pub broadcast proof fn keep_close_unless_done<'p>(
    floor: Floor,
    st: CState<'p>,
    iter_slot: u8,
    done_slot: u8,
    line: u32,
)
    requires
        #[trigger] kept(floor, st),
    ensures
        kept(floor, (#[trigger] st.close_unless_done(iter_slot, done_slot, line))),
{
    broadcast use group_steps;

}

pub broadcast proof fn grow_emit_falsy_object_check<'p>(st: CState<'p>, line: u32)
    ensures
        st.chunk.code.len() <= (#[trigger] st.emit_falsy_object_check(line)).chunk.code.len(),
        st.emit_falsy_object_check(line).loops == st.loops,
        st.emit_falsy_object_check(line).marks == st.marks,
        st.chunk.jump_overflow ==> st.emit_falsy_object_check(line).chunk.jump_overflow,
{
    broadcast use {group_steps, grow_emit_throw_type_error, keep_emit_throw_type_error};

}

pub broadcast proof fn keep_emit_falsy_object_check<'p>(floor: Floor, st: CState<'p>, line: u32)
    requires
        #[trigger] kept(floor, st),
    ensures
        kept(floor, (#[trigger] st.emit_falsy_object_check(line))),
{
    broadcast use {group_steps, grow_emit_throw_type_error, keep_emit_throw_type_error};

}

pub broadcast proof fn grow_reserve_local<'p>(st: CState<'p>, name: StringId, line: u32)
    ensures
        st.chunk.code.len() <= (#[trigger] st.reserve_local(name, line)).0.chunk.code.len(),
        st.reserve_local(name, line).0.loops == st.loops,
        st.reserve_local(name, line).0.marks == st.marks,
        st.chunk.jump_overflow ==> st.reserve_local(name, line).0.chunk.jump_overflow,
{
    broadcast use {group_steps, grow_declare_local, keep_declare_local};

}

pub broadcast proof fn keep_reserve_local<'p>(
    floor: Floor,
    st: CState<'p>,
    name: StringId,
    line: u32,
)
    requires
        #[trigger] kept(floor, st),
    ensures
        kept(floor, (#[trigger] st.reserve_local(name, line)).0),
{
    broadcast use {group_steps, grow_declare_local, keep_declare_local};

}

pub broadcast proof fn grow_arrow_chunk<'p>(
    st: CState<'p>,
    params: &'p Vec<Pattern>,
    body: &'p ArrowBody,
    is_async: bool,
)
    ensures
        st.chunk.code.len() <= (
            #[trigger] st.arrow_chunk(params, body, is_async)
        ).0.chunk.code.len(),
        st.arrow_chunk(params, body, is_async).0.loops == st.loops,
        st.arrow_chunk(params, body, is_async).0.marks == st.marks,
        st.chunk.jump_overflow ==> st.arrow_chunk(params, body, is_async).0.chunk.jump_overflow,
{
    broadcast use group_steps;

}

pub broadcast proof fn keep_arrow_chunk<'p>(
    floor: Floor,
    st: CState<'p>,
    params: &'p Vec<Pattern>,
    body: &'p ArrowBody,
    is_async: bool,
)
    requires
        #[trigger] kept(floor, st),
    ensures
        kept(floor, (#[trigger] st.arrow_chunk(params, body, is_async)).0),
{
    broadcast use group_steps;

}

pub broadcast proof fn grow_class_name<'p>(st: CState<'p>, id: Option<StringId>)
    ensures
        st.chunk.code.len() <= (#[trigger] st.class_name(id)).0.chunk.code.len(),
        st.class_name(id).0.loops == st.loops,
        st.class_name(id).0.marks == st.marks,
        st.chunk.jump_overflow ==> st.class_name(id).0.chunk.jump_overflow,
{
    broadcast use group_steps;

}

pub broadcast proof fn keep_class_name<'p>(floor: Floor, st: CState<'p>, id: Option<StringId>)
    requires
        #[trigger] kept(floor, st),
    ensures
        kept(floor, (#[trigger] st.class_name(id)).0),
{
    broadcast use group_steps;

}

pub broadcast proof fn grow_method_key<'p>(st: CState<'p>, kind: MethodKind, key_id: StringId)
    ensures
        st.chunk.code.len() <= (#[trigger] st.method_key(kind, key_id)).0.chunk.code.len(),
        st.method_key(kind, key_id).0.loops == st.loops,
        st.method_key(kind, key_id).0.marks == st.marks,
        st.chunk.jump_overflow ==> st.method_key(kind, key_id).0.chunk.jump_overflow,
{
    broadcast use group_steps;

}

pub broadcast proof fn keep_method_key<'p>(
    floor: Floor,
    st: CState<'p>,
    kind: MethodKind,
    key_id: StringId,
)
    requires
        #[trigger] kept(floor, st),
    ensures
        kept(floor, (#[trigger] st.method_key(kind, key_id)).0),
{
    broadcast use group_steps;

}

pub broadcast proof fn grow_static_chunk<'p>(
    st: CState<'p>,
    name: StringId,
    body: &'p Vec<Statement>,
)
    ensures
        st.chunk.code.len() <= (#[trigger] st.static_chunk(name, body)).0.chunk.code.len(),
        st.static_chunk(name, body).0.loops == st.loops,
        st.static_chunk(name, body).0.marks == st.marks,
        st.chunk.jump_overflow ==> st.static_chunk(name, body).0.chunk.jump_overflow,
{
    broadcast use group_steps;

}

pub broadcast proof fn keep_static_chunk<'p>(
    floor: Floor,
    st: CState<'p>,
    name: StringId,
    body: &'p Vec<Statement>,
)
    requires
        #[trigger] kept(floor, st),
    ensures
        kept(floor, (#[trigger] st.static_chunk(name, body)).0),
{
    broadcast use group_steps;

}

pub broadcast proof fn grow_template_text<'p>(st: CState<'p>, quasi: &'p TemplateElement, line: u32)
    ensures
        st.chunk.code.len() <= (#[trigger] st.template_text(quasi, line)).chunk.code.len(),
        st.template_text(quasi, line).loops == st.loops,
        st.template_text(quasi, line).marks == st.marks,
        st.chunk.jump_overflow ==> st.template_text(quasi, line).chunk.jump_overflow,
{
    broadcast use {group_steps, grow_op_name, keep_op_name};

}

pub broadcast proof fn keep_template_text<'p>(
    floor: Floor,
    st: CState<'p>,
    quasi: &'p TemplateElement,
    line: u32,
)
    requires
        #[trigger] kept(floor, st),
    ensures
        kept(floor, (#[trigger] st.template_text(quasi, line))),
{
    broadcast use {group_steps, grow_op_name, keep_op_name};

}

pub broadcast proof fn grow_emit_delegation<'p>(st: CState<'p>, line: u32)
    ensures
        st.chunk.code.len() <= (#[trigger] st.emit_delegation(line)).chunk.code.len(),
        st.emit_delegation(line).loops == st.loops,
        st.emit_delegation(line).marks == st.marks,
        st.chunk.jump_overflow ==> st.emit_delegation(line).chunk.jump_overflow,
{
    broadcast use group_steps;

}

pub broadcast proof fn keep_emit_delegation<'p>(floor: Floor, st: CState<'p>, line: u32)
    requires
        #[trigger] kept(floor, st),
    ensures
        kept(floor, (#[trigger] st.emit_delegation(line))),
{
    broadcast use group_steps;

}

pub broadcast proof fn grow_compile_regexp<'p>(st: CState<'p>, r: &'p RegExpLiteral)
    ensures
        st.chunk.code.len() <= (#[trigger] st.compile_regexp(r)).chunk.code.len(),
        st.compile_regexp(r).loops == st.loops,
        st.compile_regexp(r).marks == st.marks,
        st.chunk.jump_overflow ==> st.compile_regexp(r).chunk.jump_overflow,
{
    broadcast use group_steps;

}

pub broadcast proof fn keep_compile_regexp<'p>(floor: Floor, st: CState<'p>, r: &'p RegExpLiteral)
    requires
        #[trigger] kept(floor, st),
    ensures
        kept(floor, (#[trigger] st.compile_regexp(r))),
{
    broadcast use group_steps;

}

pub broadcast proof fn grow_compile_meta_property<'p>(st: CState<'p>, m: &'p MetaProperty)
    ensures
        st.chunk.code.len() <= (#[trigger] st.compile_meta_property(m)).chunk.code.len(),
        st.compile_meta_property(m).loops == st.loops,
        st.compile_meta_property(m).marks == st.marks,
        st.chunk.jump_overflow ==> st.compile_meta_property(m).chunk.jump_overflow,
{
    broadcast use group_steps;

}

pub broadcast proof fn keep_compile_meta_property<'p>(
    floor: Floor,
    st: CState<'p>,
    m: &'p MetaProperty,
)
    requires
        #[trigger] kept(floor, st),
    ensures
        kept(floor, (#[trigger] st.compile_meta_property(m))),
{
    broadcast use group_steps;

}

pub broadcast proof fn grow_check_strict_restricted<'p>(
    st: CState<'p>,
    name: StringId,
    what: Seq<char>,
)
    ensures
        st.check_strict_restricted(name, what) is Ok ==> st.chunk.code.len() <= (
            #[trigger] st.check_strict_restricted(name, what)
        )->Ok_0.chunk.code.len(),
        st.check_strict_restricted(name, what) is Ok ==> st.check_strict_restricted(name, what)->Ok_0.loops == st.loops,
        st.check_strict_restricted(name, what) is Ok ==> st.check_strict_restricted(name, what)->Ok_0.marks == st.marks,
        st.check_strict_restricted(name, what) is Ok ==> st.chunk.jump_overflow ==> st.check_strict_restricted(name, what)->Ok_0.chunk.jump_overflow,
{
    broadcast use group_steps;

}

pub broadcast proof fn keep_check_strict_restricted<'p>(
    floor: Floor,
    st: CState<'p>,
    name: StringId,
    what: Seq<char>,
)
    requires
        #[trigger] kept(floor, st),
        st.check_strict_restricted(name, what) is Ok,
    ensures
        kept(floor, (#[trigger] st.check_strict_restricted(name, what))->Ok_0),
{
    broadcast use group_steps;

}

pub broadcast proof fn grow_bind_fresh<'p>(st: CState<'p>, kind: VarKind, name: StringId, line: u32)
    ensures
        st.chunk.code.len() <= (#[trigger] st.bind_fresh(kind, name, line)).chunk.code.len(),
        st.bind_fresh(kind, name, line).loops == st.loops,
        st.bind_fresh(kind, name, line).marks == st.marks,
        st.chunk.jump_overflow ==> st.bind_fresh(kind, name, line).chunk.jump_overflow,
{
    broadcast use {group_steps, grow_declare_local, keep_declare_local};

}

pub broadcast proof fn keep_bind_fresh<'p>(
    floor: Floor,
    st: CState<'p>,
    kind: VarKind,
    name: StringId,
    line: u32,
)
    requires
        #[trigger] kept(floor, st),
    ensures
        kept(floor, (#[trigger] st.bind_fresh(kind, name, line))),
{
    broadcast use {group_steps, grow_declare_local, keep_declare_local};

}

pub broadcast proof fn grow_bind_initialized<'p>(
    st: CState<'p>,
    kind: VarKind,
    name: StringId,
    line: u32,
)
    ensures
        st.chunk.code.len() <= (#[trigger] st.bind_initialized(kind, name, line)).chunk.code.len(),
        st.bind_initialized(kind, name, line).loops == st.loops,
        st.bind_initialized(kind, name, line).marks == st.marks,
        st.chunk.jump_overflow ==> st.bind_initialized(kind, name, line).chunk.jump_overflow,
{
    broadcast use {
        group_steps,
        grow_compile_set_variable,
        keep_compile_set_variable,
        grow_bind_fresh,
        keep_bind_fresh,
    };

}

pub broadcast proof fn keep_bind_initialized<'p>(
    floor: Floor,
    st: CState<'p>,
    kind: VarKind,
    name: StringId,
    line: u32,
)
    requires
        #[trigger] kept(floor, st),
    ensures
        kept(floor, (#[trigger] st.bind_initialized(kind, name, line))),
{
    broadcast use {
        group_steps,
        grow_compile_set_variable,
        keep_compile_set_variable,
        grow_bind_fresh,
        keep_bind_fresh,
    };

}

pub broadcast proof fn grow_bind_uninitialized<'p>(
    st: CState<'p>,
    kind: VarKind,
    name: StringId,
    line: u32,
)
    ensures
        st.chunk.code.len() <= (
            #[trigger] st.bind_uninitialized(kind, name, line)
        ).chunk.code.len(),
        st.bind_uninitialized(kind, name, line).loops == st.loops,
        st.bind_uninitialized(kind, name, line).marks == st.marks,
        st.chunk.jump_overflow ==> st.bind_uninitialized(kind, name, line).chunk.jump_overflow,
{
    broadcast use {group_steps, grow_bind_fresh, keep_bind_fresh};

}

pub broadcast proof fn keep_bind_uninitialized<'p>(
    floor: Floor,
    st: CState<'p>,
    kind: VarKind,
    name: StringId,
    line: u32,
)
    requires
        #[trigger] kept(floor, st),
    ensures
        kept(floor, (#[trigger] st.bind_uninitialized(kind, name, line))),
{
    broadcast use {group_steps, grow_bind_fresh, keep_bind_fresh};

}

pub broadcast proof fn grow_emit_object_check<'p>(st: CState<'p>, line: u32)
    ensures
        st.chunk.code.len() <= (#[trigger] st.emit_object_check(line)).chunk.code.len(),
        st.emit_object_check(line).loops == st.loops,
        st.emit_object_check(line).marks == st.marks,
        st.chunk.jump_overflow ==> st.emit_object_check(line).chunk.jump_overflow,
{
    broadcast use {group_steps, grow_emit_throw_type_error, keep_emit_throw_type_error};

}

pub broadcast proof fn keep_emit_object_check<'p>(floor: Floor, st: CState<'p>, line: u32)
    requires
        #[trigger] kept(floor, st),
    ensures
        kept(floor, (#[trigger] st.emit_object_check(line))),
{
    broadcast use {group_steps, grow_emit_throw_type_error, keep_emit_throw_type_error};

}

pub broadcast proof fn grow_bind_leaf<'p>(st: CState<'p>, name: StringId, hoisted: bool, line: u32)
    ensures
        st.chunk.code.len() <= (#[trigger] st.bind_leaf(name, hoisted, line)).chunk.code.len(),
        st.bind_leaf(name, hoisted, line).loops == st.loops,
        st.bind_leaf(name, hoisted, line).marks == st.marks,
        st.chunk.jump_overflow ==> st.bind_leaf(name, hoisted, line).chunk.jump_overflow,
{
    broadcast use {
        group_steps,
        grow_compile_set_variable,
        keep_compile_set_variable,
        grow_declare_local,
        keep_declare_local,
    };

}

pub broadcast proof fn keep_bind_leaf<'p>(
    floor: Floor,
    st: CState<'p>,
    name: StringId,
    hoisted: bool,
    line: u32,
)
    requires
        #[trigger] kept(floor, st),
    ensures
        kept(floor, (#[trigger] st.bind_leaf(name, hoisted, line))),
{
    broadcast use {
        group_steps,
        grow_compile_set_variable,
        keep_compile_set_variable,
        grow_declare_local,
        keep_declare_local,
    };

}

pub broadcast proof fn grow_next_plain_from_slot<'p>(st: CState<'p>, iter_slot: u8, line: u32)
    ensures
        st.chunk.code.len() <= (
            #[trigger] st.next_plain_from_slot(iter_slot, line)
        ).chunk.code.len(),
        st.next_plain_from_slot(iter_slot, line).loops == st.loops,
        st.next_plain_from_slot(iter_slot, line).marks == st.marks,
        st.chunk.jump_overflow ==> st.next_plain_from_slot(iter_slot, line).chunk.jump_overflow,
{
    broadcast use {group_steps, grow_emit_value_or_undefined, keep_emit_value_or_undefined};

}

pub broadcast proof fn keep_next_plain_from_slot<'p>(
    floor: Floor,
    st: CState<'p>,
    iter_slot: u8,
    line: u32,
)
    requires
        #[trigger] kept(floor, st),
    ensures
        kept(floor, (#[trigger] st.next_plain_from_slot(iter_slot, line))),
{
    broadcast use {group_steps, grow_emit_value_or_undefined, keep_emit_value_or_undefined};

}

pub broadcast proof fn grow_emit_completion_reset<'p>(st: CState<'p>, line: u32)
    ensures
        st.chunk.code.len() <= (#[trigger] st.emit_completion_reset(line)).chunk.code.len(),
        st.emit_completion_reset(line).loops == st.loops,
        st.emit_completion_reset(line).marks == st.marks,
        st.chunk.jump_overflow ==> st.emit_completion_reset(line).chunk.jump_overflow,
{
    broadcast use group_steps;

}

pub broadcast proof fn keep_emit_completion_reset<'p>(floor: Floor, st: CState<'p>, line: u32)
    requires
        #[trigger] kept(floor, st),
    ensures
        kept(floor, (#[trigger] st.emit_completion_reset(line))),
{
    broadcast use group_steps;

}

pub broadcast proof fn grow_enter_loop<'p>(
    st: CState<'p>,
    target: usize,
    label: Option<StringId>,
    deferred: bool,
)
    ensures
        st.chunk.code.len() <= (#[trigger] st.enter_loop(target, label, deferred)).chunk.code.len(),
        st.enter_loop(target, label, deferred).loops.len() == st.loops.len() + 1,
        st.enter_loop(target, label, deferred).marks == st.marks,
        st.chunk.jump_overflow ==> st.enter_loop(target, label, deferred).chunk.jump_overflow,
{
    broadcast use group_steps;

}

pub broadcast proof fn keep_enter_loop<'p>(
    floor: Floor,
    st: CState<'p>,
    target: usize,
    label: Option<StringId>,
    deferred: bool,
)
    requires
        #[trigger] kept(floor, st),
    ensures
        kept(floor, (#[trigger] st.enter_loop(target, label, deferred))),
{
    broadcast use group_steps;

}

pub broadcast proof fn grow_declare_for_in<'p>(
    st: CState<'p>,
    var_name: Option<StringId>,
    existing: bool,
    line: u32,
)
    ensures
        st.chunk.code.len() <= (
            #[trigger] st.declare_for_in(var_name, existing, line)
        ).0.chunk.code.len(),
        st.declare_for_in(var_name, existing, line).0.loops == st.loops,
        st.declare_for_in(var_name, existing, line).0.marks == st.marks,
        st.chunk.jump_overflow ==> st.declare_for_in(
            var_name,
            existing,
            line,
        ).0.chunk.jump_overflow,
{
    broadcast use {group_steps, grow_op_name, keep_op_name, grow_declare_local, keep_declare_local};

}

pub broadcast proof fn keep_declare_for_in<'p>(
    floor: Floor,
    st: CState<'p>,
    var_name: Option<StringId>,
    existing: bool,
    line: u32,
)
    requires
        #[trigger] kept(floor, st),
    ensures
        kept(floor, (#[trigger] st.declare_for_in(var_name, existing, line)).0),
{
    broadcast use {group_steps, grow_op_name, keep_op_name, grow_declare_local, keep_declare_local};

}

pub broadcast proof fn grow_declare_loop_var<'p>(st: CState<'p>, name: StringId, line: u32)
    ensures
        st.chunk.code.len() <= (#[trigger] st.declare_loop_var(name, line)).chunk.code.len(),
        st.declare_loop_var(name, line).loops == st.loops,
        st.declare_loop_var(name, line).marks == st.marks,
        st.chunk.jump_overflow ==> st.declare_loop_var(name, line).chunk.jump_overflow,
{
    broadcast use {group_steps, grow_op_name, keep_op_name, grow_declare_local, keep_declare_local};

}

pub broadcast proof fn keep_declare_loop_var<'p>(
    floor: Floor,
    st: CState<'p>,
    name: StringId,
    line: u32,
)
    requires
        #[trigger] kept(floor, st),
    ensures
        kept(floor, (#[trigger] st.declare_loop_var(name, line))),
{
    broadcast use {group_steps, grow_op_name, keep_op_name, grow_declare_local, keep_declare_local};

}

pub broadcast proof fn grow_next_on_stack<'p>(st: CState<'p>, line: u32)
    ensures
        st.chunk.code.len() <= (#[trigger] st.next_on_stack(line)).chunk.code.len(),
        st.next_on_stack(line).loops == st.loops,
        st.next_on_stack(line).marks == st.marks,
        st.chunk.jump_overflow ==> st.next_on_stack(line).chunk.jump_overflow,
{
    broadcast use {group_steps, grow_emit_value_or_undefined, keep_emit_value_or_undefined};

}

pub broadcast proof fn keep_next_on_stack<'p>(floor: Floor, st: CState<'p>, line: u32)
    requires
        #[trigger] kept(floor, st),
    ensures
        kept(floor, (#[trigger] st.next_on_stack(line))),
{
    broadcast use {group_steps, grow_emit_value_or_undefined, keep_emit_value_or_undefined};

}

pub broadcast proof fn grow_emit_nullish_check<'p>(st: CState<'p>, line: u32)
    ensures
        st.chunk.code.len() <= (#[trigger] st.emit_nullish_check(line)).chunk.code.len(),
        st.emit_nullish_check(line).loops == st.loops,
        st.emit_nullish_check(line).marks == st.marks,
        st.chunk.jump_overflow ==> st.emit_nullish_check(line).chunk.jump_overflow,
{
    broadcast use {group_steps, grow_op_name, keep_op_name};

}

pub broadcast proof fn keep_emit_nullish_check<'p>(floor: Floor, st: CState<'p>, line: u32)
    requires
        #[trigger] kept(floor, st),
    ensures
        kept(floor, (#[trigger] st.emit_nullish_check(line))),
{
    broadcast use {group_steps, grow_op_name, keep_op_name};

}

pub broadcast proof fn grow_name_target_default<'p>(
    st: CState<'p>,
    target: &'p AssignmentTarget,
    right: &'p Expression,
)
    ensures
        st.chunk.code.len() <= (#[trigger] st.name_target_default(target, right)).chunk.code.len(),
        st.name_target_default(target, right).loops == st.loops,
        st.name_target_default(target, right).marks == st.marks,
        st.chunk.jump_overflow ==> st.name_target_default(target, right).chunk.jump_overflow,
{
    broadcast use {group_steps, grow_name_default, keep_name_default};

}

pub broadcast proof fn keep_name_target_default<'p>(
    floor: Floor,
    st: CState<'p>,
    target: &'p AssignmentTarget,
    right: &'p Expression,
)
    requires
        #[trigger] kept(floor, st),
    ensures
        kept(floor, (#[trigger] st.name_target_default(target, right))),
{
    broadcast use {group_steps, grow_name_default, keep_name_default};

}

/// Each part of the compiler that does not recurse leaves the code below a floor alone.
pub broadcast group group_parts {
    grow_compile_number,
    keep_compile_number,
    grow_op_name,
    keep_op_name,
    grow_emit_throw_reference_error,
    keep_emit_throw_reference_error,
    grow_emit_with_guard,
    keep_emit_with_guard,
    grow_get_slot,
    keep_get_slot,
    grow_get_upvalue,
    keep_get_upvalue,
    grow_compile_get_bound_variable,
    keep_compile_get_bound_variable,
    grow_compile_get_variable,
    keep_compile_get_variable,
    grow_compile_identifier,
    keep_compile_identifier,
    grow_ident_needs_with_ref,
    keep_ident_needs_with_ref,
    grow_compile_get_variable_resolved,
    keep_compile_get_variable_resolved,
    grow_set_slot,
    keep_set_slot,
    grow_set_upvalue,
    keep_set_upvalue,
    grow_compile_set_variable_resolved,
    keep_compile_set_variable_resolved,
    grow_emit_throw_const_error,
    keep_emit_throw_const_error,
    grow_compile_set_bound_variable,
    keep_compile_set_bound_variable,
    grow_compile_set_variable,
    keep_compile_set_variable,
    grow_update_identifier,
    keep_update_identifier,
    grow_update_property,
    keep_update_property,
    grow_update_element,
    keep_update_element,
    grow_emit_compound_arith,
    keep_emit_compound_arith,
    grow_collect_iterated,
    keep_collect_iterated,
    grow_emit_element_read,
    keep_emit_element_read,
    grow_emit_throw_type_error,
    keep_emit_throw_type_error,
    grow_declare_local,
    keep_declare_local,
    grow_emit_value_or_undefined,
    keep_emit_value_or_undefined,
    grow_name_default,
    keep_name_default,
    grow_emit_call_method,
    keep_emit_call_method,
    grow_sets_prototype,
    keep_sets_prototype,
    grow_symbol_name,
    keep_symbol_name,
    grow_symbol_member_name,
    keep_symbol_member_name,
    grow_property_key_name,
    keep_property_key_name,
    grow_declared_name,
    keep_declared_name,
    grow_function_name,
    keep_function_name,
    grow_function_chunk,
    keep_function_chunk,
    grow_collect_from_slot,
    keep_collect_from_slot,
    grow_next_from_slot,
    keep_next_from_slot,
    grow_skip_from_slot,
    keep_skip_from_slot,
    grow_close_unless_done,
    keep_close_unless_done,
    grow_emit_falsy_object_check,
    keep_emit_falsy_object_check,
    grow_reserve_local,
    keep_reserve_local,
    grow_arrow_chunk,
    keep_arrow_chunk,
    grow_class_name,
    keep_class_name,
    grow_method_key,
    keep_method_key,
    grow_static_chunk,
    keep_static_chunk,
    grow_template_text,
    keep_template_text,
    grow_emit_delegation,
    keep_emit_delegation,
    grow_compile_regexp,
    keep_compile_regexp,
    grow_compile_meta_property,
    keep_compile_meta_property,
    grow_check_strict_restricted,
    keep_check_strict_restricted,
    grow_bind_fresh,
    keep_bind_fresh,
    grow_bind_initialized,
    keep_bind_initialized,
    grow_bind_uninitialized,
    keep_bind_uninitialized,
    grow_emit_object_check,
    keep_emit_object_check,
    grow_bind_leaf,
    keep_bind_leaf,
    grow_next_plain_from_slot,
    keep_next_plain_from_slot,
    grow_emit_completion_reset,
    keep_emit_completion_reset,
    grow_enter_loop,
    keep_enter_loop,
    grow_declare_for_in,
    keep_declare_for_in,
    grow_declare_loop_var,
    keep_declare_loop_var,
    grow_next_on_stack,
    keep_next_on_stack,
    grow_emit_nullish_check,
    keep_emit_nullish_check,
    grow_name_target_default,
    keep_name_target_default,
}

pub(crate) proof fn pass_skip_iterated<'p>(floor: Floor, st: CState<'p>, n: usize, line: u32)
    ensures
        onward(floor, st, st.skip_iterated(n, line)),
    decreases n,
{
    broadcast use group_steps;

    if n > 0 {
        let next = st.op(OpCode::Dup, line).op(OpCode::IteratorNext, line).op(OpCode::Pop, line);
        pass_skip_iterated(floor, next, (n - 1) as usize, line);
    }
}

pub(crate) proof fn pass_emit_repeated<'p>(
    floor: Floor,
    st: CState<'p>,
    op: OpCode,
    n: usize,
    line: u32,
)
    ensures
        onward(floor, st, st.emit_repeated(op, n, line)),
    decreases n,
{
    broadcast use group_steps;

    if n > 0 {
        pass_emit_repeated(floor, st.op(op, line), op, (n - 1) as usize, line);
    }
}

} // verus!
