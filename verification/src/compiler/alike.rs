//! The code that the compiler emits for an expression does not depend on the lines noted so
//! far: states that differ in these alone lead to states that differ in these alone.

use vstd::prelude::*;
use crate::ast::node::{
    ArrayExpression, ArrowBody, ArrowFunctionExpression, AssignmentExpression,
    AssignmentOperator, AssignmentTarget, BinaryExpression, BinaryOperator, BlockStatement,
    CallExpression, ClassBody, ClassExpression, ClassMember, ClassProperty,
    ConditionalExpression, Expression, FunctionExpression, Identifier, LogicalExpression,
    LogicalOperator, MemberExpression, MemberProperty, MetaProperty, MethodDefinition,
    MethodKind, NewExpression, NumberLiteral, ObjectExpression, ObjectPatternProperty,
    ObjectProperty, OptionalChainElement, OptionalChainExpression, Pattern, Property,
    PropertyKey, PropertyKindVal, RegExpLiteral, Statement, TaggedTemplateExpression,
    TemplateElement, TemplateLiteral, UnaryExpression, UnaryOperator, UpdateExpression,
    UpdateOperator, YieldExpression,
};
use crate::compiler::shape;
use crate::compiler::chunk::{ChunkView, UpvalueDescriptor};
use crate::compiler::compiler::{SavedView, state};
use crate::compiler::compiler::state::{CState, Failure};
use crate::compiler::opcode::OpCode;
use crate::runtime::value::Value;
use crate::util::interner::StringId;

verus! {

/// Whether two states differ at most in the lines of the code emitted.
#[verifier::opaque]
pub open spec fn alike<'p>(s: CState<'p>, t: CState<'p>) -> bool {
    s == (CState { chunk: ChunkView { lines: s.chunk.lines, ..t.chunk }, ..t })
}

/// Whether two steps ended alike: in states that are alike, or with the same failure.
pub open spec fn same_end<'p>(
    a: Result<CState<'p>, Failure>,
    b: Result<CState<'p>, Failure>,
) -> bool {
    match (a, b) {
        (Ok(s), Ok(t)) => alike(s, t),
        (Err(e), Err(f)) => e == f,
        _ => false,
    }
}

/// Whether two functions were compiled alike: to the same chunk, in states that are alike, or
/// with the same failure.
pub open spec fn same_body<'p>(
    a: Result<(CState<'p>, ChunkView), Failure>,
    b: Result<(CState<'p>, ChunkView), Failure>,
) -> bool {
    match (a, b) {
        (Ok((s, c)), Ok((t, d))) => alike(s, t) && c == d,
        (Err(e), Err(f)) => e == f,
        _ => false,
    }
}

/// Whether what is set aside of two functions differs at most in the lines.
#[verifier::opaque]
pub open spec fn saved_alike<'p>(a: SavedView<'p>, b: SavedView<'p>) -> bool {
    a == (SavedView { chunk: ChunkView { lines: a.chunk.lines, ..b.chunk }, ..b })
}

proof fn lemma_patched(a: ChunkView, b: ChunkView, patches: Seq<usize>, from: nat)
    requires
        a == (ChunkView { lines: a.lines, ..b }),
    ensures
        ({
            let x = state::patched_all(a, patches, from);
            x == (ChunkView { lines: x.lines, ..state::patched_all(b, patches, from) })
        }),
    decreases patches.len() - from,
{
    if from < patches.len() {
        let pos = patches[from as int];
        if pos + 2 <= a.code.len() {
            lemma_patched(a.patch(pos as nat), b.patch(pos as nat), patches, from + 1);
        } else {
            lemma_patched(a, b, patches, from + 1);
        }
    }
}

proof fn lemma_captures(
    a: ChunkView,
    b: ChunkView,
    descriptors: Seq<UpvalueDescriptor>,
    from: nat,
    line: u32,
    other: u32,
)
    requires
        a == (ChunkView { lines: a.lines, ..b }),
    ensures
        ({
            let x = state::captures_emitted(a, descriptors, from, line);
            x == (ChunkView {
                lines: x.lines,
                ..state::captures_emitted(b, descriptors, from, other)
            })
        }),
    decreases descriptors.len() - from,
{
    if from < descriptors.len() {
        let d = descriptors[from as int];
        let flag = if d.is_local {
            1u8
        } else {
            0u8
        };
        let high = (d.index >> 8) as u8;
        let low = (d.index & 0xFF) as u8;
        lemma_captures(
            a.byte(flag, line).byte(high, line).byte(low, line),
            b.byte(flag, other).byte(high, other).byte(low, other),
            descriptors,
            from + 1,
            line,
            other,
        );
    }
}

/// Inside of a function that is entered from states that are alike, all is the same.
broadcast proof fn like_enter_function<'p>(s: CState<'p>, t: CState<'p>, child: ChunkView)
    requires
        #[trigger] alike(s, t),
    ensures
        (#[trigger] s.enter_function(child)).0 == (#[trigger] t.enter_function(child)).0,
        saved_alike(s.enter_function(child).1, t.enter_function(child).1),
{
    reveal(alike);
    reveal(saved_alike);
    reveal(CState::enter_function);
}

broadcast proof fn like_leave_function<'p>(s: CState<'p>, a: SavedView<'p>, b: SavedView<'p>)
    requires
        #[trigger] saved_alike(a, b),
    ensures
        alike((#[trigger] s.leave_function(a)).0, (#[trigger] s.leave_function(b)).0),
        s.leave_function(a).1 == s.leave_function(b).1,
{
    reveal(alike);
    reveal(saved_alike);
    reveal(CState::leave_function);
}

broadcast proof fn like_set_pending_name<'p>(s: CState<'p>, t: CState<'p>, name: StringId)
    requires
        #[trigger] alike(s, t),
    ensures
        alike(#[trigger] s.set_pending_name(name), #[trigger] t.set_pending_name(name)),
{
    reveal(alike);
    reveal(CState::set_pending_name);
}

broadcast proof fn like_with_level<'p>(s: CState<'p>, t: CState<'p>)
    requires
        #[trigger] alike(s, t),
    ensures
        #[trigger] s.with_level() == t.with_level(),
{
    reveal(alike);
    reveal(CState::with_level);
}

broadcast proof fn like_resolve_local<'p>(s: CState<'p>, t: CState<'p>, name: StringId)
    requires
        #[trigger] alike(s, t),
    ensures
        #[trigger] s.resolve_local(name) == t.resolve_local(name),
{
    reveal(alike);
    reveal(CState::resolve_local);
}

broadcast proof fn like_local_is_const<'p>(s: CState<'p>, t: CState<'p>, slot: usize)
    requires
        #[trigger] alike(s, t),
    ensures
        #[trigger] s.local_is_const(slot) == t.local_is_const(slot),
{
    reveal(alike);
    reveal(CState::local_is_const);
}

broadcast proof fn like_local_needs_with_guard<'p>(s: CState<'p>, t: CState<'p>, slot: usize)
    requires
        #[trigger] alike(s, t),
    ensures
        #[trigger] s.local_needs_with_guard(slot) == t.local_needs_with_guard(slot),
{
    reveal(alike);
    reveal(CState::local_needs_with_guard);
}

broadcast proof fn like_resolve_upvalue<'p>(s: CState<'p>, t: CState<'p>, name: StringId)
    requires
        #[trigger] alike(s, t),
    ensures
        alike((#[trigger] s.resolve_upvalue(name)).0, (#[trigger] t.resolve_upvalue(name)).0),
        s.resolve_upvalue(name).1 == t.resolve_upvalue(name).1,
{
    reveal(alike);
    reveal(CState::resolve_upvalue);
}

broadcast proof fn like_is_const_global<'p>(s: CState<'p>, t: CState<'p>, name: StringId)
    requires
        #[trigger] alike(s, t),
    ensures
        #[trigger] s.is_const_global(name) == t.is_const_global(name),
{
    reveal(alike);
    reveal(CState::is_const_global);
}

broadcast proof fn like_make_string_constant<'p>(s: CState<'p>, t: CState<'p>, name: StringId)
    requires
        #[trigger] alike(s, t),
    ensures
        alike(
            (#[trigger] s.make_string_constant(name)).0,
            (#[trigger] t.make_string_constant(name)).0,
        ),
        s.make_string_constant(name).1 == t.make_string_constant(name).1,
{
    reveal(alike);
    reveal(CState::make_string_constant);
}

broadcast proof fn like_op_u16<'p>(
    s: CState<'p>,
    t: CState<'p>,
    op: OpCode,
    operand: u16,
    line: u32,
    other: u32,
)
    requires
        #[trigger] alike(s, t),
    ensures
        alike(#[trigger] s.op_u16(op, operand, line), #[trigger] t.op_u16(op, operand, other)),
{
    reveal(alike);
    reveal(CState::op_u16);
}

broadcast proof fn like_op<'p>(s: CState<'p>, t: CState<'p>, op: OpCode, line: u32, other: u32)
    requires
        #[trigger] alike(s, t),
    ensures
        alike(#[trigger] s.op(op, line), #[trigger] t.op(op, other)),
{
    reveal(alike);
    reveal(CState::op);
}

broadcast proof fn like_emit_constant<'p>(
    s: CState<'p>,
    t: CState<'p>,
    value: Value,
    line: u32,
    other: u32,
)
    requires
        #[trigger] alike(s, t),
    ensures
        alike(#[trigger] s.emit_constant(value, line), #[trigger] t.emit_constant(value, other)),
{
    reveal(alike);
    reveal(CState::emit_constant);
}

broadcast proof fn like_name_is<'p>(s: CState<'p>, t: CState<'p>, id: StringId, text: Seq<char>)
    requires
        #[trigger] alike(s, t),
    ensures
        #[trigger] s.name_is(id, text) == t.name_is(id, text),
{
    reveal(alike);
    reveal(CState::name_is);
}

broadcast proof fn like_param_tdz_violation<'p>(s: CState<'p>, t: CState<'p>, name: StringId)
    requires
        #[trigger] alike(s, t),
    ensures
        #[trigger] s.param_tdz_violation(name) == t.param_tdz_violation(name),
{
    reveal(alike);
    reveal(CState::param_tdz_violation);
}

broadcast proof fn like_intern<'p>(s: CState<'p>, t: CState<'p>, text: Seq<char>)
    requires
        #[trigger] alike(s, t),
    ensures
        alike((#[trigger] s.intern(text)).0, (#[trigger] t.intern(text)).0),
        s.intern(text).1 == t.intern(text).1,
{
    reveal(alike);
    reveal(CState::intern);
}

broadcast proof fn like_intern_around<'p>(
    s: CState<'p>,
    t: CState<'p>,
    prefix: Seq<char>,
    id: StringId,
    suffix: Seq<char>,
)
    requires
        #[trigger] alike(s, t),
    ensures
        alike(
            (#[trigger] s.intern_around(prefix, id, suffix)).0,
            (#[trigger] t.intern_around(prefix, id, suffix)).0,
        ),
        s.intern_around(prefix, id, suffix).1 == t.intern_around(prefix, id, suffix).1,
{
    reveal(alike);
    reveal(CState::intern_around);
}

broadcast proof fn like_op_u8<'p>(
    s: CState<'p>,
    t: CState<'p>,
    op: OpCode,
    operand: u8,
    line: u32,
    other: u32,
)
    requires
        #[trigger] alike(s, t),
    ensures
        alike(#[trigger] s.op_u8(op, operand, line), #[trigger] t.op_u8(op, operand, other)),
{
    reveal(alike);
    reveal(CState::op_u8);
}

broadcast proof fn like_placeholder<'p>(s: CState<'p>, t: CState<'p>, line: u32, other: u32)
    requires
        #[trigger] alike(s, t),
    ensures
        alike((#[trigger] s.placeholder(line)).0, (#[trigger] t.placeholder(other)).0),
        s.placeholder(line).1 == t.placeholder(other).1,
{
    reveal(alike);
    reveal(CState::placeholder);
}

broadcast proof fn like_patch<'p>(s: CState<'p>, t: CState<'p>, pos: usize)
    requires
        #[trigger] alike(s, t),
    ensures
        alike(#[trigger] s.patch(pos), #[trigger] t.patch(pos)),
{
    reveal(alike);
    reveal(CState::patch);
}

broadcast proof fn like_has_flag<'p>(s: CState<'p>, t: CState<'p>, mask: u16)
    requires
        #[trigger] alike(s, t),
    ensures
        #[trigger] s.has_flag(mask) == t.has_flag(mask),
{
    reveal(alike);
    reveal(CState::has_flag);
}

broadcast proof fn like_note_arguments<'p>(s: CState<'p>, t: CState<'p>)
    requires
        #[trigger] alike(s, t),
    ensures
        alike(#[trigger] s.note_arguments(), #[trigger] t.note_arguments()),
{
    reveal(alike);
    reveal(CState::note_arguments);
}

broadcast proof fn like_name_is_private<'p>(s: CState<'p>, t: CState<'p>, id: StringId)
    requires
        #[trigger] alike(s, t),
    ensures
        #[trigger] s.name_is_private(id) == t.name_is_private(id),
{
    reveal(alike);
    reveal(CState::name_is_private);
}

broadcast proof fn like_local_is_self_name<'p>(s: CState<'p>, t: CState<'p>, slot: usize)
    requires
        #[trigger] alike(s, t),
    ensures
        #[trigger] s.local_is_self_name(slot) == t.local_is_self_name(slot),
{
    reveal(alike);
    reveal(CState::local_is_self_name);
}

broadcast proof fn like_captured_self_name<'p>(s: CState<'p>, t: CState<'p>, name: StringId)
    requires
        #[trigger] alike(s, t),
    ensures
        #[trigger] s.captured_self_name(name) == t.captured_self_name(name),
{
    reveal(alike);
    reveal(CState::captured_self_name);
}

broadcast proof fn like_emit_get_property<'p>(
    s: CState<'p>,
    t: CState<'p>,
    name_idx: u16,
    line: u32,
    other: u32,
)
    requires
        #[trigger] alike(s, t),
    ensures
        alike(
            #[trigger] s.emit_get_property(name_idx, line),
            #[trigger] t.emit_get_property(name_idx, other),
        ),
{
    reveal(alike);
    reveal(CState::emit_get_property);
}

broadcast proof fn like_emit_set_property<'p>(
    s: CState<'p>,
    t: CState<'p>,
    name_idx: u16,
    line: u32,
    other: u32,
)
    requires
        #[trigger] alike(s, t),
    ensures
        alike(
            #[trigger] s.emit_set_property(name_idx, line),
            #[trigger] t.emit_set_property(name_idx, other),
        ),
{
    reveal(alike);
    reveal(CState::emit_set_property);
}

broadcast proof fn like_jump<'p>(s: CState<'p>, t: CState<'p>, op: OpCode, line: u32, other: u32)
    requires
        #[trigger] alike(s, t),
    ensures
        alike((#[trigger] s.jump(op, line)).0, (#[trigger] t.jump(op, other)).0),
        s.jump(op, line).1 == t.jump(op, other).1,
{
    reveal(alike);
    reveal(CState::jump);
}

broadcast proof fn like_op_u32<'p>(
    s: CState<'p>,
    t: CState<'p>,
    op: OpCode,
    operand: u32,
    line: u32,
    other: u32,
)
    requires
        #[trigger] alike(s, t),
    ensures
        alike(#[trigger] s.op_u32(op, operand, line), #[trigger] t.op_u32(op, operand, other)),
{
    reveal(alike);
    reveal(CState::op_u32);
}

broadcast proof fn like_byte<'p>(s: CState<'p>, t: CState<'p>, byte: u8, line: u32, other: u32)
    requires
        #[trigger] alike(s, t),
    ensures
        alike(#[trigger] s.byte(byte, line), #[trigger] t.byte(byte, other)),
{
    reveal(alike);
    reveal(CState::byte);
}

broadcast proof fn like_raw16<'p>(s: CState<'p>, t: CState<'p>, operand: u16)
    requires
        #[trigger] alike(s, t),
    ensures
        alike(#[trigger] s.raw16(operand), #[trigger] t.raw16(operand)),
{
    reveal(alike);
    reveal(CState::raw16);
}

broadcast proof fn like_intern_number<'p>(s: CState<'p>, t: CState<'p>, bits: u64)
    requires
        #[trigger] alike(s, t),
    ensures
        alike((#[trigger] s.intern_number(bits)).0, (#[trigger] t.intern_number(bits)).0),
        s.intern_number(bits).1 == t.intern_number(bits).1,
{
    reveal(alike);
    reveal(CState::intern_number);
}

broadcast proof fn like_mark_last_child_as_method<'p>(s: CState<'p>, t: CState<'p>)
    requires
        #[trigger] alike(s, t),
    ensures
        alike(#[trigger] s.mark_last_child_as_method(), #[trigger] t.mark_last_child_as_method()),
{
    reveal(alike);
    reveal(CState::mark_last_child_as_method);
}

broadcast proof fn like_take_pending_name<'p>(s: CState<'p>, t: CState<'p>)
    requires
        #[trigger] alike(s, t),
    ensures
        alike((#[trigger] s.take_pending_name()).0, (#[trigger] t.take_pending_name()).0),
        s.take_pending_name().1 == t.take_pending_name().1,
{
    reveal(alike);
    reveal(CState::take_pending_name);
}

broadcast proof fn like_source_name<'p>(s: CState<'p>, t: CState<'p>)
    requires
        #[trigger] alike(s, t),
    ensures
        #[trigger] s.source_name() == t.source_name(),
{
    reveal(alike);
    reveal(CState::source_name);
}

broadcast proof fn like_has_use_strict_directive<'p>(
    s: CState<'p>,
    t: CState<'p>,
    body: &Vec<Statement>,
)
    requires
        #[trigger] alike(s, t),
    ensures
        #[trigger] s.has_use_strict_directive(body) == t.has_use_strict_directive(body),
{
    reveal(alike);
}

broadcast proof fn like_in_class<'p>(s: CState<'p>, t: CState<'p>)
    requires
        #[trigger] alike(s, t),
    ensures
        #[trigger] s.in_class() == t.in_class(),
{
    reveal(alike);
    reveal(CState::in_class);
}

broadcast proof fn like_emit_closure<'p>(
    s: CState<'p>,
    t: CState<'p>,
    child: ChunkView,
    line: u32,
    other: u32,
)
    requires
        #[trigger] alike(s, t),
    ensures
        alike(#[trigger] s.emit_closure(child, line), #[trigger] t.emit_closure(child, other)),
{
    reveal(alike);
    reveal(CState::emit_closure);
    let index = s.chunk.child_chunks.len() as u16;
    let a = ChunkView { child_chunks: s.chunk.child_chunks.push(child), ..s.chunk };
    let b = ChunkView { child_chunks: t.chunk.child_chunks.push(child), ..t.chunk };
    lemma_captures(
        a.op_u16(OpCode::Closure, index, line),
        b.op_u16(OpCode::Closure, index, other),
        child.upvalue_descriptors,
        0,
        line,
        other,
    );
}

broadcast proof fn like_enter_class<'p>(s: CState<'p>, t: CState<'p>)
    requires
        #[trigger] alike(s, t),
    ensures
        alike(#[trigger] s.enter_class(), #[trigger] t.enter_class()),
{
    reveal(alike);
    reveal(CState::enter_class);
}

broadcast proof fn like_leave_class<'p>(s: CState<'p>, t: CState<'p>)
    requires
        #[trigger] alike(s, t),
    ensures
        alike(#[trigger] s.leave_class(), #[trigger] t.leave_class()),
{
    reveal(alike);
    reveal(CState::leave_class);
}

broadcast proof fn like_name_is_empty<'p>(s: CState<'p>, t: CState<'p>, id: StringId)
    requires
        #[trigger] alike(s, t),
    ensures
        #[trigger] s.name_is_empty(id) == t.name_is_empty(id),
{
    reveal(alike);
    reveal(CState::name_is_empty);
}

broadcast proof fn like_here<'p>(s: CState<'p>, t: CState<'p>)
    requires
        #[trigger] alike(s, t),
    ensures
        #[trigger] s.here() == t.here(),
{
    reveal(alike);
    reveal(CState::here);
}

broadcast proof fn like_back<'p>(s: CState<'p>, t: CState<'p>, start: usize, line: u32, other: u32)
    requires
        #[trigger] alike(s, t),
    ensures
        alike(#[trigger] s.back(start, line), #[trigger] t.back(start, other)),
{
    reveal(alike);
    reveal(CState::back);
}

broadcast proof fn like_mark_len<'p>(s: CState<'p>, t: CState<'p>)
    requires
        #[trigger] alike(s, t),
    ensures
        #[trigger] s.mark_len() == t.mark_len(),
{
    reveal(alike);
    reveal(CState::mark_len);
}

broadcast proof fn like_push_mark<'p>(s: CState<'p>, t: CState<'p>, pos: usize)
    requires
        #[trigger] alike(s, t),
    ensures
        alike(#[trigger] s.push_mark(pos), #[trigger] t.push_mark(pos)),
{
    reveal(alike);
    reveal(CState::push_mark);
}

broadcast proof fn like_patch_marks<'p>(s: CState<'p>, t: CState<'p>, base: usize)
    requires
        #[trigger] alike(s, t),
    ensures
        alike(#[trigger] s.patch_marks(base), #[trigger] t.patch_marks(base)),
{
    reveal(alike);
    reveal(CState::patch_marks);
    if base <= s.marks.len() {
        lemma_patched(s.chunk, t.chunk, s.marks, base as nat);
    }
}

broadcast proof fn like_patch_short<'p>(s: CState<'p>, t: CState<'p>, at: usize)
    requires
        #[trigger] alike(s, t),
    ensures
        alike(#[trigger] s.patch_short(at), #[trigger] t.patch_short(at)),
{
    reveal(alike);
    reveal(CState::patch_short);
}

broadcast proof fn like_next_slot<'p>(s: CState<'p>, t: CState<'p>)
    requires
        #[trigger] alike(s, t),
    ensures
        #[trigger] s.next_slot() == t.next_slot(),
{
    reveal(alike);
    reveal(CState::next_slot);
}

broadcast proof fn like_add_local<'p>(s: CState<'p>, t: CState<'p>, name: StringId)
    requires
        #[trigger] alike(s, t),
    ensures
        alike(#[trigger] s.add_local(name), #[trigger] t.add_local(name)),
{
    reveal(alike);
    reveal(CState::add_local);
}

broadcast proof fn like_mark_initialized<'p>(s: CState<'p>, t: CState<'p>)
    requires
        #[trigger] alike(s, t),
    ensures
        alike(#[trigger] s.mark_initialized(), #[trigger] t.mark_initialized()),
{
    reveal(alike);
    reveal(CState::mark_initialized);
}

broadcast proof fn like_pop_local<'p>(s: CState<'p>, t: CState<'p>)
    requires
        #[trigger] alike(s, t),
    ensures
        alike(#[trigger] s.pop_local(), #[trigger] t.pop_local()),
{
    reveal(alike);
    reveal(CState::pop_local);
}

broadcast proof fn like_raw<'p>(s: CState<'p>, t: CState<'p>, byte: u8)
    requires
        #[trigger] alike(s, t),
    ensures
        alike(#[trigger] s.raw(byte), #[trigger] t.raw(byte)),
{
    reveal(alike);
    reveal(CState::raw);
}

broadcast proof fn like_message_around<'p>(
    s: CState<'p>,
    t: CState<'p>,
    prefix: Seq<char>,
    id: StringId,
    suffix: Seq<char>,
)
    requires
        #[trigger] alike(s, t),
    ensures
        #[trigger] s.message_around(prefix, id, suffix) == t.message_around(prefix, id, suffix),
{
    reveal(alike);
    reveal(CState::message_around);
}

broadcast proof fn like_failing<'p>(s: CState<'p>, t: CState<'p>, message: Seq<char>)
    requires
        #[trigger] alike(s, t),
    ensures
        #[trigger] s.failing(message) == t.failing(message),
{
    reveal(alike);
}

/// Each step of the compiler keeps states alike.
broadcast group group_steps {
    like_set_pending_name,
    like_with_level,
    like_resolve_local,
    like_local_is_const,
    like_local_needs_with_guard,
    like_resolve_upvalue,
    like_is_const_global,
    like_make_string_constant,
    like_op_u16,
    like_op,
    like_emit_constant,
    like_name_is,
    like_param_tdz_violation,
    like_intern,
    like_intern_around,
    like_op_u8,
    like_placeholder,
    like_patch,
    like_has_flag,
    like_note_arguments,
    like_name_is_private,
    like_local_is_self_name,
    like_captured_self_name,
    like_emit_get_property,
    like_emit_set_property,
    like_jump,
    like_op_u32,
    like_byte,
    like_raw16,
    like_intern_number,
    like_mark_last_child_as_method,
    like_take_pending_name,
    like_source_name,
    like_has_use_strict_directive,
    like_in_class,
    like_emit_closure,
    like_enter_class,
    like_leave_class,
    like_name_is_empty,
    like_here,
    like_back,
    like_mark_len,
    like_push_mark,
    like_patch_marks,
    like_patch_short,
    like_next_slot,
    like_add_local,
    like_mark_initialized,
    like_pop_local,
    like_raw,
    like_message_around,
    like_failing,
}

broadcast proof fn like_ident_needs_with_ref<'p>(s: CState<'p>, t: CState<'p>, name: StringId)
    requires
        #[trigger] alike(s, t),
    ensures
        alike(
            (#[trigger] s.ident_needs_with_ref(name)).0,
            (#[trigger] t.ident_needs_with_ref(name)).0,
        ),
        s.ident_needs_with_ref(name).1 == t.ident_needs_with_ref(name).1,
{
    broadcast use group_steps;

}

broadcast proof fn like_op_name<'p>(
    s: CState<'p>,
    t: CState<'p>,
    op: OpCode,
    name: StringId,
    line: u32,
    other: u32,
)
    requires
        #[trigger] alike(s, t),
    ensures
        alike(#[trigger] s.op_name(op, name, line), #[trigger] t.op_name(op, name, other)),
{
    broadcast use group_steps;

}

broadcast proof fn like_compile_number<'p>(s: CState<'p>, t: CState<'p>, n: &'p NumberLiteral)
    requires
        #[trigger] alike(s, t),
    ensures
        alike(#[trigger] s.compile_number(n), #[trigger] t.compile_number(n)),
{
    broadcast use group_steps;

}

broadcast proof fn like_emit_throw_reference_error<'p>(
    s: CState<'p>,
    t: CState<'p>,
    name: StringId,
    line: u32,
    other: u32,
)
    requires
        #[trigger] alike(s, t),
    ensures
        alike(
            #[trigger] s.emit_throw_reference_error(name, line),
            #[trigger] t.emit_throw_reference_error(name, other),
        ),
{
    broadcast use {group_steps, like_op_name};

}

broadcast proof fn like_emit_with_guard<'p>(
    s: CState<'p>,
    t: CState<'p>,
    op: OpCode,
    name: StringId,
    line: u32,
    other: u32,
)
    requires
        #[trigger] alike(s, t),
    ensures
        alike(
            (#[trigger] s.emit_with_guard(op, name, line)).0,
            (#[trigger] t.emit_with_guard(op, name, other)).0,
        ),
        s.emit_with_guard(op, name, line).1 == t.emit_with_guard(op, name, other).1,
{
    broadcast use {group_steps, like_op_name};

}

broadcast proof fn like_get_slot<'p>(
    s: CState<'p>,
    t: CState<'p>,
    slot: usize,
    line: u32,
    other: u32,
)
    requires
        #[trigger] alike(s, t),
    ensures
        alike(#[trigger] s.get_slot(slot, line), #[trigger] t.get_slot(slot, other)),
{
    broadcast use group_steps;

}

broadcast proof fn like_get_upvalue<'p>(
    s: CState<'p>,
    t: CState<'p>,
    index: u16,
    line: u32,
    other: u32,
)
    requires
        #[trigger] alike(s, t),
    ensures
        alike(#[trigger] s.get_upvalue(index, line), #[trigger] t.get_upvalue(index, other)),
{
    broadcast use group_steps;

}

broadcast proof fn like_compile_get_bound_variable<'p>(
    s: CState<'p>,
    t: CState<'p>,
    name: StringId,
    line: u32,
    other: u32,
)
    requires
        #[trigger] alike(s, t),
    ensures
        alike(
            #[trigger] s.compile_get_bound_variable(name, line),
            #[trigger] t.compile_get_bound_variable(name, other),
        ),
{
    broadcast use {
        group_steps,
        like_emit_with_guard,
        like_get_slot,
        like_op_name,
        like_get_upvalue,
    };

}

broadcast proof fn like_compile_get_variable<'p>(
    s: CState<'p>,
    t: CState<'p>,
    name: StringId,
    line: u32,
    other: u32,
)
    requires
        #[trigger] alike(s, t),
    ensures
        alike(
            #[trigger] s.compile_get_variable(name, line),
            #[trigger] t.compile_get_variable(name, other),
        ),
{
    broadcast use {group_steps, like_emit_throw_reference_error, like_compile_get_bound_variable};

}

broadcast proof fn like_compile_identifier<'p>(s: CState<'p>, t: CState<'p>, id: &'p Identifier)
    requires
        #[trigger] alike(s, t),
    ensures
        alike(#[trigger] s.compile_identifier(id), #[trigger] t.compile_identifier(id)),
{
    broadcast use {group_steps, like_compile_get_variable};

}

broadcast proof fn like_compile_get_variable_resolved<'p>(
    s: CState<'p>,
    t: CState<'p>,
    name: StringId,
    line: u32,
    other: u32,
)
    requires
        #[trigger] alike(s, t),
    ensures
        alike(
            #[trigger] s.compile_get_variable_resolved(name, line),
            #[trigger] t.compile_get_variable_resolved(name, other),
        ),
{
    broadcast use {
        group_steps,
        like_emit_with_guard,
        like_get_slot,
        like_get_upvalue,
        like_op_name,
    };

}

broadcast proof fn like_set_slot<'p>(
    s: CState<'p>,
    t: CState<'p>,
    slot: usize,
    line: u32,
    other: u32,
)
    requires
        #[trigger] alike(s, t),
    ensures
        alike(#[trigger] s.set_slot(slot, line), #[trigger] t.set_slot(slot, other)),
{
    broadcast use group_steps;

}

broadcast proof fn like_set_upvalue<'p>(
    s: CState<'p>,
    t: CState<'p>,
    index: u16,
    line: u32,
    other: u32,
)
    requires
        #[trigger] alike(s, t),
    ensures
        alike(#[trigger] s.set_upvalue(index, line), #[trigger] t.set_upvalue(index, other)),
{
    broadcast use group_steps;

}

broadcast proof fn like_compile_set_variable_resolved<'p>(
    s: CState<'p>,
    t: CState<'p>,
    name: StringId,
    line: u32,
    other: u32,
)
    requires
        #[trigger] alike(s, t),
    ensures
        alike(
            #[trigger] s.compile_set_variable_resolved(name, line),
            #[trigger] t.compile_set_variable_resolved(name, other),
        ),
{
    broadcast use {
        group_steps,
        like_emit_with_guard,
        like_set_slot,
        like_set_upvalue,
        like_op_name,
    };

}

broadcast proof fn like_emit_throw_const_error<'p>(
    s: CState<'p>,
    t: CState<'p>,
    name: StringId,
    line: u32,
    other: u32,
)
    requires
        #[trigger] alike(s, t),
    ensures
        alike(
            #[trigger] s.emit_throw_const_error(name, line),
            #[trigger] t.emit_throw_const_error(name, other),
        ),
{
    broadcast use {group_steps, like_op_name};

}

broadcast proof fn like_compile_set_bound_variable<'p>(
    s: CState<'p>,
    t: CState<'p>,
    name: StringId,
    line: u32,
    other: u32,
)
    requires
        #[trigger] alike(s, t),
    ensures
        alike(
            #[trigger] s.compile_set_bound_variable(name, line),
            #[trigger] t.compile_set_bound_variable(name, other),
        ),
{
    broadcast use {
        group_steps,
        like_emit_throw_const_error,
        like_emit_with_guard,
        like_set_slot,
        like_set_upvalue,
        like_op_name,
    };

}

broadcast proof fn like_compile_set_variable<'p>(
    s: CState<'p>,
    t: CState<'p>,
    name: StringId,
    line: u32,
    other: u32,
)
    requires
        #[trigger] alike(s, t),
    ensures
        alike(
            #[trigger] s.compile_set_variable(name, line),
            #[trigger] t.compile_set_variable(name, other),
        ),
{
    broadcast use {group_steps, like_emit_throw_reference_error, like_compile_set_bound_variable};

}

broadcast proof fn like_update_identifier<'p>(
    s: CState<'p>,
    t: CState<'p>,
    name: StringId,
    inc_op: OpCode,
    prefix: bool,
    line: u32,
    other: u32,
)
    requires
        #[trigger] alike(s, t),
    ensures
        alike(
            #[trigger] s.update_identifier(name, inc_op, prefix, line),
            #[trigger] t.update_identifier(name, inc_op, prefix, other),
        ),
{
    broadcast use {
        group_steps,
        like_ident_needs_with_ref,
        like_op_name,
        like_compile_get_variable_resolved,
        like_compile_set_variable_resolved,
        like_compile_get_variable,
        like_compile_set_variable,
    };

}

broadcast proof fn like_update_property<'p>(
    s: CState<'p>,
    t: CState<'p>,
    name: StringId,
    inc_op: OpCode,
    prefix: bool,
    line: u32,
    other: u32,
)
    requires
        #[trigger] alike(s, t),
    ensures
        alike(
            #[trigger] s.update_property(name, inc_op, prefix, line),
            #[trigger] t.update_property(name, inc_op, prefix, other),
        ),
{
    broadcast use group_steps;

}

broadcast proof fn like_update_element<'p>(
    s: CState<'p>,
    t: CState<'p>,
    inc_op: OpCode,
    prefix: bool,
    line: u32,
    other: u32,
)
    requires
        #[trigger] alike(s, t),
    ensures
        alike(
            #[trigger] s.update_element(inc_op, prefix, line),
            #[trigger] t.update_element(inc_op, prefix, other),
        ),
{
    broadcast use group_steps;

}

broadcast proof fn like_emit_call_method<'p>(
    s: CState<'p>,
    t: CState<'p>,
    argc: u8,
    idx: u16,
    line: u32,
    other: u32,
)
    requires
        #[trigger] alike(s, t),
    ensures
        alike(
            #[trigger] s.emit_call_method(argc, idx, line),
            #[trigger] t.emit_call_method(argc, idx, other),
        ),
{
    broadcast use group_steps;

}

broadcast proof fn like_sets_prototype<'p>(s: CState<'p>, t: CState<'p>, p: &'p Property)
    requires
        #[trigger] alike(s, t),
    ensures
        alike((#[trigger] s.sets_prototype(p)).0, (#[trigger] t.sets_prototype(p)).0),
        s.sets_prototype(p).1 == t.sets_prototype(p).1,
{
    broadcast use group_steps;

}

broadcast proof fn like_symbol_name<'p>(s: CState<'p>, t: CState<'p>, prop: StringId)
    requires
        #[trigger] alike(s, t),
    ensures
        alike((#[trigger] s.symbol_name(prop)).0, (#[trigger] t.symbol_name(prop)).0),
        s.symbol_name(prop).1 == t.symbol_name(prop).1,
{
    broadcast use group_steps;

}

broadcast proof fn like_symbol_member_name<'p>(
    s: CState<'p>,
    t: CState<'p>,
    mem: &'p MemberExpression,
)
    requires
        #[trigger] alike(s, t),
    ensures
        alike((#[trigger] s.symbol_member_name(mem)).0, (#[trigger] t.symbol_member_name(mem)).0),
        s.symbol_member_name(mem).1 == t.symbol_member_name(mem).1,
{
    broadcast use {group_steps, like_symbol_name};

}

broadcast proof fn like_property_key_name<'p>(s: CState<'p>, t: CState<'p>, key: &'p PropertyKey)
    requires
        #[trigger] alike(s, t),
    ensures
        alike((#[trigger] s.property_key_name(key)).0, (#[trigger] t.property_key_name(key)).0),
        s.property_key_name(key).1 == t.property_key_name(key).1,
{
    broadcast use {group_steps, like_symbol_member_name};

}

broadcast proof fn like_declared_name<'p>(s: CState<'p>, t: CState<'p>, id: Option<StringId>)
    requires
        #[trigger] alike(s, t),
    ensures
        alike((#[trigger] s.declared_name(id)).0, (#[trigger] t.declared_name(id)).0),
        s.declared_name(id).1 == t.declared_name(id).1,
{
    broadcast use group_steps;

}

broadcast proof fn like_function_name<'p>(s: CState<'p>, t: CState<'p>, id: Option<StringId>)
    requires
        #[trigger] alike(s, t),
    ensures
        alike((#[trigger] s.function_name(id)).0, (#[trigger] t.function_name(id)).0),
        s.function_name(id).1 == t.function_name(id).1,
{
    broadcast use {group_steps, like_declared_name};

}

broadcast proof fn like_function_chunk<'p>(
    s: CState<'p>,
    t: CState<'p>,
    name: StringId,
    params: &'p Vec<Pattern>,
    body: &'p Vec<Statement>,
    is_async: bool,
    is_generator: bool,
)
    requires
        #[trigger] alike(s, t),
    ensures
        alike(
            (#[trigger] s.function_chunk(name, params, body, is_async, is_generator)).0,
            (#[trigger] t.function_chunk(name, params, body, is_async, is_generator)).0,
        ),
        s.function_chunk(name, params, body, is_async, is_generator).1 == t.function_chunk(
            name,
            params,
            body,
            is_async,
            is_generator,
        ).1,
{
    broadcast use group_steps;

}

broadcast proof fn like_arrow_chunk<'p>(
    s: CState<'p>,
    t: CState<'p>,
    params: &'p Vec<Pattern>,
    body: &'p ArrowBody,
    is_async: bool,
)
    requires
        #[trigger] alike(s, t),
    ensures
        alike(
            (#[trigger] s.arrow_chunk(params, body, is_async)).0,
            (#[trigger] t.arrow_chunk(params, body, is_async)).0,
        ),
        s.arrow_chunk(params, body, is_async).1 == t.arrow_chunk(params, body, is_async).1,
{
    broadcast use group_steps;

}

broadcast proof fn like_class_name<'p>(s: CState<'p>, t: CState<'p>, id: Option<StringId>)
    requires
        #[trigger] alike(s, t),
    ensures
        alike((#[trigger] s.class_name(id)).0, (#[trigger] t.class_name(id)).0),
        s.class_name(id).1 == t.class_name(id).1,
{
    broadcast use group_steps;

}

broadcast proof fn like_method_key<'p>(
    s: CState<'p>,
    t: CState<'p>,
    kind: MethodKind,
    key_id: StringId,
)
    requires
        #[trigger] alike(s, t),
    ensures
        alike((#[trigger] s.method_key(kind, key_id)).0, (#[trigger] t.method_key(kind, key_id)).0),
        s.method_key(kind, key_id).1 == t.method_key(kind, key_id).1,
{
    broadcast use group_steps;

}

broadcast proof fn like_static_chunk<'p>(
    s: CState<'p>,
    t: CState<'p>,
    name: StringId,
    body: &'p Vec<Statement>,
)
    requires
        #[trigger] alike(s, t),
    ensures
        alike((#[trigger] s.static_chunk(name, body)).0, (#[trigger] t.static_chunk(name, body)).0),
        s.static_chunk(name, body).1 == t.static_chunk(name, body).1,
{
    broadcast use group_steps;

}

broadcast proof fn like_template_text<'p>(
    s: CState<'p>,
    t: CState<'p>,
    quasi: &'p TemplateElement,
    line: u32,
    other: u32,
)
    requires
        #[trigger] alike(s, t),
    ensures
        alike(#[trigger] s.template_text(quasi, line), #[trigger] t.template_text(quasi, other)),
{
    broadcast use {group_steps, like_op_name};

}

broadcast proof fn like_emit_delegation<'p>(s: CState<'p>, t: CState<'p>, line: u32, other: u32)
    requires
        #[trigger] alike(s, t),
    ensures
        alike(#[trigger] s.emit_delegation(line), #[trigger] t.emit_delegation(other)),
{
    broadcast use group_steps;

}

broadcast proof fn like_compile_regexp<'p>(s: CState<'p>, t: CState<'p>, r: &'p RegExpLiteral)
    requires
        #[trigger] alike(s, t),
    ensures
        alike(#[trigger] s.compile_regexp(r), #[trigger] t.compile_regexp(r)),
{
    broadcast use group_steps;

}

broadcast proof fn like_compile_meta_property<'p>(s: CState<'p>, t: CState<'p>, m: &'p MetaProperty)
    requires
        #[trigger] alike(s, t),
    ensures
        alike(#[trigger] s.compile_meta_property(m), #[trigger] t.compile_meta_property(m)),
{
    broadcast use group_steps;

}

broadcast proof fn like_emit_compound_arith<'p>(
    s: CState<'p>,
    t: CState<'p>,
    operator: AssignmentOperator,
    line: u32,
)
    requires
        #[trigger] alike(s, t),
    ensures
        same_end(
            #[trigger] s.emit_compound_arith(operator, line),
            #[trigger] t.emit_compound_arith(operator, line),
        ),
{
    broadcast use group_steps;

}

broadcast proof fn like_collect_iterated<'p>(s: CState<'p>, t: CState<'p>, line: u32, other: u32)
    requires
        #[trigger] alike(s, t),
    ensures
        alike(#[trigger] s.collect_iterated(line), #[trigger] t.collect_iterated(other)),
{
    broadcast use group_steps;

}

broadcast proof fn like_emit_element_read<'p>(
    s: CState<'p>,
    t: CState<'p>,
    has_rest: bool,
    line: u32,
    other: u32,
)
    requires
        #[trigger] alike(s, t),
    ensures
        alike(
            #[trigger] s.emit_element_read(has_rest, line),
            #[trigger] t.emit_element_read(has_rest, other),
        ),
{
    broadcast use group_steps;

}

broadcast proof fn like_emit_throw_type_error<'p>(
    s: CState<'p>,
    t: CState<'p>,
    msg: Seq<char>,
    line: u32,
    other: u32,
)
    requires
        #[trigger] alike(s, t),
    ensures
        alike(
            #[trigger] s.emit_throw_type_error(msg, line),
            #[trigger] t.emit_throw_type_error(msg, other),
        ),
{
    broadcast use {group_steps, like_op_name};

}

broadcast proof fn like_declare_local<'p>(s: CState<'p>, t: CState<'p>, name: StringId)
    requires
        #[trigger] alike(s, t),
    ensures
        alike(#[trigger] s.declare_local(name), #[trigger] t.declare_local(name)),
{
    broadcast use group_steps;

}

broadcast proof fn like_emit_value_or_undefined<'p>(
    s: CState<'p>,
    t: CState<'p>,
    line: u32,
    other: u32,
)
    requires
        #[trigger] alike(s, t),
    ensures
        alike(
            #[trigger] s.emit_value_or_undefined(line),
            #[trigger] t.emit_value_or_undefined(other),
        ),
{
    broadcast use group_steps;

}

broadcast proof fn like_name_default<'p>(
    s: CState<'p>,
    t: CState<'p>,
    left: &'p Pattern,
    right: &'p Expression,
)
    requires
        #[trigger] alike(s, t),
    ensures
        alike(#[trigger] s.name_default(left, right), #[trigger] t.name_default(left, right)),
{
    broadcast use group_steps;

}

/// Each part of the compiler that does not recurse keeps states alike.
broadcast group group_parts {
    like_ident_needs_with_ref,
    like_op_name,
    like_compile_number,
    like_emit_throw_reference_error,
    like_emit_with_guard,
    like_get_slot,
    like_get_upvalue,
    like_compile_get_bound_variable,
    like_compile_get_variable,
    like_compile_identifier,
    like_compile_get_variable_resolved,
    like_set_slot,
    like_set_upvalue,
    like_compile_set_variable_resolved,
    like_emit_throw_const_error,
    like_compile_set_bound_variable,
    like_compile_set_variable,
    like_update_identifier,
    like_update_property,
    like_update_element,
    like_emit_call_method,
    like_sets_prototype,
    like_symbol_name,
    like_symbol_member_name,
    like_property_key_name,
    like_declared_name,
    like_function_name,
    like_function_chunk,
    like_arrow_chunk,
    like_class_name,
    like_method_key,
    like_static_chunk,
    like_template_text,
    like_emit_delegation,
    like_compile_regexp,
    like_compile_meta_property,
    like_emit_compound_arith,
    like_collect_iterated,
    like_emit_element_read,
    like_emit_throw_type_error,
    like_declare_local,
    like_emit_value_or_undefined,
    like_name_default,
}

proof fn same_skip_iterated<'p>(s: CState<'p>, t: CState<'p>, n: usize, line: u32)
    ensures
        alike(s, t) ==> alike(s.skip_iterated(n, line), t.skip_iterated(n, line)),
    decreases n,
{
    broadcast use group_steps;

    if n > 0 {
        let a = s.op(OpCode::Dup, line).op(OpCode::IteratorNext, line).op(OpCode::Pop, line);
        let b = t.op(OpCode::Dup, line).op(OpCode::IteratorNext, line).op(OpCode::Pop, line);
        same_skip_iterated(a, b, (n - 1) as usize, line);
    }
}

proof fn same_compile_assignment<'p>(
    one: CState<'p>,
    two: CState<'p>,
    fuel: nat,
    a: &'p AssignmentExpression,
)
    ensures
        alike(one, two) ==> same_end(
            one.compile_assignment(fuel, a),
            two.compile_assignment(fuel, a),
        ),
    decreases fuel, a, 1int,
{
    broadcast use {group_steps, group_parts};

    let line: u32 = a.span.start;
    match &a.left {
        AssignmentTarget::Identifier(id) => {
            same_assign_identifier(one, two, fuel, id.name, a.operator, &a.right, line);
        },
        AssignmentTarget::Member(m) => {
            same_compile_expr(one, two, fuel, &m.object);
            let one = one.compile_expr(fuel, &m.object)->Ok_0;
            let two = two.compile_expr(fuel, &m.object)->Ok_0;
            same_compile_member_store(one, two, fuel, a, line);
        },
        AssignmentTarget::Pattern(pat) => {
            same_compile_expr(one, two, fuel, &a.right);
            let one = one.compile_expr(fuel, &a.right)->Ok_0;
            let two = two.compile_expr(fuel, &a.right)->Ok_0;
            match pat {
                Pattern::Array(arr_pat) => {
                    if shape::array_rest(arr_pat.elements@) {
                        same_assign_indexed_elements(one, two, fuel, line, &arr_pat.elements, 0);
                    } else {
                        same_assign_iterated_elements(one, two, fuel, &arr_pat.elements, line);
                    }
                },
                Pattern::Object(obj_pat) => {
                    let one = one.op(OpCode::Dup, line);
                    let two = two.op(OpCode::Dup, line);
                    let (one, nullish_jump) = one.jump(OpCode::JumpIfNullishPeek, line);
                    let two = two.jump(OpCode::JumpIfNullishPeek, line).0;
                    let one = one.op(OpCode::Pop, line);
                    let two = two.op(OpCode::Pop, line);
                    let (one, skip_throw) = one.jump(OpCode::Jump, line);
                    let two = two.jump(OpCode::Jump, line).0;
                    let one = one.patch(nullish_jump);
                    let two = two.patch(nullish_jump);
                    let one = one.op(OpCode::Pop, line);
                    let two = two.op(OpCode::Pop, line);
                    let one = one.emit_throw_type_error(
                        "Cannot destructure 'undefined' or 'null'"@,
                        line,
                    );
                    let two = two.emit_throw_type_error(
                        "Cannot destructure 'undefined' or 'null'"@,
                        line,
                    );
                    let one = one.patch(skip_throw);
                    let two = two.patch(skip_throw);
                    let has_rest: bool = shape::object_rest(obj_pat.properties@);
                    same_assign_properties(one, two, fuel, has_rest, line, &obj_pat.properties, 0);
                },
                _ => {},
            }
        },
    }
}

proof fn same_assign_identifier<'p>(
    one: CState<'p>,
    two: CState<'p>,
    fuel: nat,
    name: StringId,
    operator: AssignmentOperator,
    right: &'p Expression,
    line: u32,
)
    ensures
        alike(one, two) ==> same_end(
            one.assign_identifier(fuel, name, operator, right, line),
            two.assign_identifier(fuel, name, operator, right, line),
        ),
    decreases fuel, right, 7int,
{
    broadcast use {group_steps, group_parts};

    if operator == AssignmentOperator::Assign {
        let (one, two) = if shape::anonymous_fn(*right) {
            let one = one.set_pending_name(name);
            let two = two.set_pending_name(name);
            (one, two)
        } else {
            (one, two)
        };
        let (one, needs_ref) = one.ident_needs_with_ref(name);
        let two = two.ident_needs_with_ref(name).0;
        if needs_ref {
            let one = one.op_name(OpCode::WithRefResolve, name, line);
            let two = two.op_name(OpCode::WithRefResolve, name, line);
            same_compile_expr(one, two, fuel, right);
        } else {
            same_compile_expr(one, two, fuel, right);
        }
    } else {
        if shape::logical_assignment(operator) {
            let one = one.compile_get_variable(name, line);
            let two = two.compile_get_variable(name, line);
            if operator == AssignmentOperator::NullishAssign {
                let (one, jump) = one.jump(OpCode::JumpIfNullishPeek, line);
                let two = two.jump(OpCode::JumpIfNullishPeek, line).0;
                let (one, end) = one.jump(OpCode::Jump, line);
                let two = two.jump(OpCode::Jump, line).0;
                let one = one.patch(jump);
                let two = two.patch(jump);
                let one = one.op(OpCode::Pop, line);
                let two = two.op(OpCode::Pop, line);
                let (one, two) = if shape::anonymous_fn(*right) {
                    let one = one.set_pending_name(name);
                    let two = two.set_pending_name(name);
                    (one, two)
                } else {
                    (one, two)
                };
                same_compile_expr(one, two, fuel, right);
            } else {
                let (one, jump) = one.jump(
                    if operator == AssignmentOperator::AndAssign { OpCode::JumpIfFalsePeek } else { OpCode::JumpIfTruePeek },
                    line,
                );
                let two = two.jump(
                    if operator == AssignmentOperator::AndAssign { OpCode::JumpIfFalsePeek } else { OpCode::JumpIfTruePeek },
                    line,
                ).0;
                let one = one.op(OpCode::Pop, line);
                let two = two.op(OpCode::Pop, line);
                let (one, two) = if shape::anonymous_fn(*right) {
                    let one = one.set_pending_name(name);
                    let two = two.set_pending_name(name);
                    (one, two)
                } else {
                    (one, two)
                };
                same_compile_expr(one, two, fuel, right);
            }
        } else {
            let (one, needs_ref) = one.ident_needs_with_ref(name);
            let two = two.ident_needs_with_ref(name).0;
            if needs_ref {
                let one = one.op_name(OpCode::WithRefResolve, name, line);
                let two = two.op_name(OpCode::WithRefResolve, name, line);
                let one = one.compile_get_variable_resolved(name, line);
                let two = two.compile_get_variable_resolved(name, line);
                same_compile_expr(one, two, fuel, right);
            } else {
                let one = one.compile_get_variable(name, line);
                let two = two.compile_get_variable(name, line);
                same_compile_expr(one, two, fuel, right);
            }
        }
    }
}

proof fn same_compile_expr<'p>(one: CState<'p>, two: CState<'p>, fuel: nat, expr: &'p Expression)
    ensures
        alike(one, two) ==> same_end(one.compile_expr(fuel, expr), two.compile_expr(fuel, expr)),
    decreases fuel, expr, 5int,
{
    broadcast use {group_steps, group_parts};

    match expr {
        Expression::Binary(b) => {
            same_compile_binary(one, two, fuel, b);
        },
        Expression::Unary(u) => {
            same_compile_unary(one, two, fuel, u);
        },
        Expression::Update(u) => {
            same_compile_update(one, two, fuel, u);
        },
        Expression::Logical(l) => {
            same_compile_logical(one, two, fuel, l);
        },
        Expression::Conditional(c) => {
            same_compile_conditional(one, two, fuel, c);
        },
        Expression::Assignment(a) => {
            same_compile_assignment(one, two, fuel, a);
        },
        Expression::Sequence(s) => {
            same_compile_sequence(one, two, fuel, &s.expressions, 0);
        },
        Expression::Member(m) => {
            same_compile_member(one, two, fuel, m);
        },
        Expression::Call(c) => {
            same_compile_call(one, two, fuel, c);
        },
        Expression::New(n) => {
            same_compile_new(one, two, fuel, n);
        },
        Expression::Array(a) => {
            same_compile_array(one, two, fuel, a);
        },
        Expression::Object(o) => {
            same_compile_object(one, two, fuel, o);
        },
        Expression::Function(f) => {
            same_compile_function_expr(one, two, fuel, f);
        },
        Expression::ArrowFunction(a) => {
            same_compile_arrow_expr(one, two, fuel, a);
        },
        Expression::Class(c) => {
            same_compile_class_expr(one, two, fuel, c);
        },
        Expression::TemplateLiteral(t) => {
            same_compile_template_literal(one, two, fuel, t);
        },
        Expression::TaggedTemplate(t) => {
            same_compile_tagged_template(one, two, fuel, t);
        },
        Expression::Spread(s) => {
            same_compile_expr(one, two, fuel, &s.argument);
        },
        Expression::Yield(y) => {
            same_compile_yield(one, two, fuel, y);
        },
        Expression::Await(a) => {
            same_compile_expr(one, two, fuel, &a.argument);
        },
        Expression::OptionalChain(o) => {
            same_compile_optional_chain(one, two, fuel, o);
        },
        Expression::Import(i) => {
            same_compile_expr(one, two, fuel, &i.source);
        },
        _ => {},
    }
}

proof fn same_compile_binary<'p>(
    one: CState<'p>,
    two: CState<'p>,
    fuel: nat,
    b: &'p BinaryExpression,
)
    ensures
        alike(one, two) ==> same_end(one.compile_binary(fuel, b), two.compile_binary(fuel, b)),
    decreases fuel, b, 0int,
{
    broadcast use {group_steps, group_parts};

    let line: u32 = b.span.start;
    if b.operator == BinaryOperator::In {
        if let Expression::Identifier(id) = &b.left {
            if one.name_is_private(id.name) {
                same_compile_expr(one, two, fuel, &b.right);
            } else {
                same_compile_expr(one, two, fuel, &b.left);
                let one = one.compile_expr(fuel, &b.left)->Ok_0;
                let two = two.compile_expr(fuel, &b.left)->Ok_0;
                same_compile_expr(one, two, fuel, &b.right);
            }
        } else {
            same_compile_expr(one, two, fuel, &b.left);
            let one = one.compile_expr(fuel, &b.left)->Ok_0;
            let two = two.compile_expr(fuel, &b.left)->Ok_0;
            same_compile_expr(one, two, fuel, &b.right);
        }
    } else {
        same_compile_expr(one, two, fuel, &b.left);
        let one = one.compile_expr(fuel, &b.left)->Ok_0;
        let two = two.compile_expr(fuel, &b.left)->Ok_0;
        same_compile_expr(one, two, fuel, &b.right);
    }
}

proof fn same_compile_unary<'p>(one: CState<'p>, two: CState<'p>, fuel: nat, u: &'p UnaryExpression)
    ensures
        alike(one, two) ==> same_end(one.compile_unary(fuel, u), two.compile_unary(fuel, u)),
    decreases fuel, u, 0int,
{
    broadcast use {group_steps, group_parts};

    let line: u32 = u.span.start;
    if u.operator == UnaryOperator::TypeOf {
        if let Expression::Identifier(id) = &u.argument {
            if one.resolve_local(id.name).is_none() {
                let (one, found) = one.resolve_upvalue(id.name);
                let two = two.resolve_upvalue(id.name).0;
                if found.is_none() {
                } else {
                    if u.operator == UnaryOperator::Delete {
                        same_compile_delete(one, two, fuel, &u.argument, line);
                    } else {
                        same_compile_expr(one, two, fuel, &u.argument);
                    }
                }
            } else {
                if u.operator == UnaryOperator::Delete {
                    same_compile_delete(one, two, fuel, &u.argument, line);
                } else {
                    same_compile_expr(one, two, fuel, &u.argument);
                }
            }
        } else {
            if u.operator == UnaryOperator::Delete {
                same_compile_delete(one, two, fuel, &u.argument, line);
            } else {
                same_compile_expr(one, two, fuel, &u.argument);
            }
        }
    } else {
        if u.operator == UnaryOperator::Delete {
            same_compile_delete(one, two, fuel, &u.argument, line);
        } else {
            same_compile_expr(one, two, fuel, &u.argument);
        }
    }
}

proof fn same_compile_delete<'p>(
    one: CState<'p>,
    two: CState<'p>,
    fuel: nat,
    argument: &'p Expression,
    line: u32,
)
    ensures
        alike(one, two) ==> same_end(
            one.compile_delete(fuel, argument, line),
            two.compile_delete(fuel, argument, line),
        ),
    decreases fuel, argument, 6int,
{
    broadcast use {group_steps, group_parts};

    match argument {
        Expression::Member(m) => {
            same_compile_expr(one, two, fuel, &m.object);
            let one = one.compile_expr(fuel, &m.object)->Ok_0;
            let two = two.compile_expr(fuel, &m.object)->Ok_0;
            match &m.property {
                MemberProperty::Expression(key) => {
                    same_compile_expr(one, two, fuel, key);
                },
                _ => {},
            }
        },
        Expression::Identifier(id) => {},
        _ => {
            same_compile_expr(one, two, fuel, argument);
        },
    }
}

proof fn same_compile_update<'p>(
    one: CState<'p>,
    two: CState<'p>,
    fuel: nat,
    u: &'p UpdateExpression,
)
    ensures
        alike(one, two) ==> same_end(one.compile_update(fuel, u), two.compile_update(fuel, u)),
    decreases fuel, u, 0int,
{
    broadcast use {group_steps, group_parts};

    let line: u32 = u.span.start;
    let inc_op: OpCode = if u.operator == UpdateOperator::Increment { OpCode::Inc } else { OpCode::Dec };
    match &u.argument {
        Expression::Member(m) => {
            same_compile_expr(one, two, fuel, &m.object);
            let one = one.compile_expr(fuel, &m.object)->Ok_0;
            let two = two.compile_expr(fuel, &m.object)->Ok_0;
            match &m.property {
                MemberProperty::Expression(key) => {
                    same_compile_expr(one, two, fuel, key);
                },
                _ => {},
            }
        },
        _ => {},
    }
}

proof fn same_compile_logical<'p>(
    one: CState<'p>,
    two: CState<'p>,
    fuel: nat,
    l: &'p LogicalExpression,
)
    ensures
        alike(one, two) ==> same_end(one.compile_logical(fuel, l), two.compile_logical(fuel, l)),
    decreases fuel, l, 0int,
{
    broadcast use {group_steps, group_parts};

    let line: u32 = l.span.start;
    same_compile_expr(one, two, fuel, &l.left);
    let one = one.compile_expr(fuel, &l.left)->Ok_0;
    let two = two.compile_expr(fuel, &l.left)->Ok_0;
    match l.operator {
        LogicalOperator::And => {
            let (one, jump) = one.jump(OpCode::JumpIfFalsePeek, line);
            let two = two.jump(OpCode::JumpIfFalsePeek, line).0;
            let one = one.op(OpCode::Pop, line);
            let two = two.op(OpCode::Pop, line);
            same_compile_expr(one, two, fuel, &l.right);
        },
        LogicalOperator::Or => {
            let (one, jump) = one.jump(OpCode::JumpIfTruePeek, line);
            let two = two.jump(OpCode::JumpIfTruePeek, line).0;
            let one = one.op(OpCode::Pop, line);
            let two = two.op(OpCode::Pop, line);
            same_compile_expr(one, two, fuel, &l.right);
        },
        LogicalOperator::NullishCoalescing => {
            let (one, jump) = one.jump(OpCode::JumpIfNullishPeek, line);
            let two = two.jump(OpCode::JumpIfNullishPeek, line).0;
            let (one, end) = one.jump(OpCode::Jump, line);
            let two = two.jump(OpCode::Jump, line).0;
            let one = one.patch(jump);
            let two = two.patch(jump);
            let one = one.op(OpCode::Pop, line);
            let two = two.op(OpCode::Pop, line);
            same_compile_expr(one, two, fuel, &l.right);
        },
    }
}

proof fn same_compile_conditional<'p>(
    one: CState<'p>,
    two: CState<'p>,
    fuel: nat,
    c: &'p ConditionalExpression,
)
    ensures
        alike(one, two) ==> same_end(
            one.compile_conditional(fuel, c),
            two.compile_conditional(fuel, c),
        ),
    decreases fuel, c, 0int,
{
    broadcast use {group_steps, group_parts};

    let line: u32 = c.span.start;
    same_compile_expr(one, two, fuel, &c.test);
    let one = one.compile_expr(fuel, &c.test)->Ok_0;
    let two = two.compile_expr(fuel, &c.test)->Ok_0;
    let (one, then_jump) = one.jump(OpCode::JumpIfFalse, line);
    let two = two.jump(OpCode::JumpIfFalse, line).0;
    same_compile_expr(one, two, fuel, &c.consequent);
    let one = one.compile_expr(fuel, &c.consequent)->Ok_0;
    let two = two.compile_expr(fuel, &c.consequent)->Ok_0;
    let (one, else_jump) = one.jump(OpCode::Jump, line);
    let two = two.jump(OpCode::Jump, line).0;
    let one = one.patch(then_jump);
    let two = two.patch(then_jump);
    same_compile_expr(one, two, fuel, &c.alternate);
}

proof fn same_compile_sequence<'p>(
    one: CState<'p>,
    two: CState<'p>,
    fuel: nat,
    expressions: &'p Vec<Expression>,
    i: int,
)
    ensures
        alike(one, two) ==> same_end(
            one.compile_sequence(fuel, expressions, i),
            two.compile_sequence(fuel, expressions, i),
        ),
    decreases fuel, expressions, expressions@.len() - i,
{
    broadcast use {group_steps, group_parts};

    if 0 <= i < expressions@.len() {
        let expr = &expressions@[i];
        same_compile_expr(one, two, fuel, expr);
        let one = one.compile_expr(fuel, expr)->Ok_0;
        let two = two.compile_expr(fuel, expr)->Ok_0;
        if i + 1 < expressions.len() {
            let line = one.current_line();
            let other = two.current_line();
            let one = one.op(OpCode::Pop, line);
            let two = two.op(OpCode::Pop, other);
            same_compile_sequence(one, two, fuel, expressions, i + 1);
        } else {
            same_compile_sequence(one, two, fuel, expressions, i + 1);
        }
    }
}

proof fn same_compile_member<'p>(
    one: CState<'p>,
    two: CState<'p>,
    fuel: nat,
    m: &'p MemberExpression,
)
    ensures
        alike(one, two) ==> same_end(one.compile_member(fuel, m), two.compile_member(fuel, m)),
    decreases fuel, m, 0int,
{
    broadcast use {group_steps, group_parts};

    let line: u32 = m.span.start;
    if shape::super_expr(m.object) {
        let one = one.op(OpCode::GetSuperClass, line);
        let two = two.op(OpCode::GetSuperClass, line);
        match &m.property {
            MemberProperty::Expression(key) => {
                same_compile_expr(one, two, fuel, key);
            },
            _ => {},
        }
    } else {
        same_compile_expr(one, two, fuel, &m.object);
        let one = one.compile_expr(fuel, &m.object)->Ok_0;
        let two = two.compile_expr(fuel, &m.object)->Ok_0;
        same_compile_member_read(one, two, fuel, &m.property, line);
    }
}

proof fn same_compile_member_read<'p>(
    one: CState<'p>,
    two: CState<'p>,
    fuel: nat,
    property: &'p MemberProperty,
    line: u32,
)
    ensures
        alike(one, two) ==> same_end(
            one.compile_member_read(fuel, property, line),
            two.compile_member_read(fuel, property, line),
        ),
    decreases fuel, property, 0int,
{
    broadcast use {group_steps, group_parts};

    match property {
        MemberProperty::Expression(key) => {
            same_compile_expr(one, two, fuel, key);
        },
        _ => {},
    }
}

proof fn same_compile_call<'p>(one: CState<'p>, two: CState<'p>, fuel: nat, c: &'p CallExpression)
    ensures
        alike(one, two) ==> same_end(one.compile_call(fuel, c), two.compile_call(fuel, c)),
    decreases fuel, c, 1int,
{
    broadcast use {group_steps, group_parts};

    let line: u32 = c.span.start;
    let argc: u8 = c.arguments.len() as u8;
    match &c.callee {
        Expression::Member(_) => {
            same_compile_method_call(one, two, fuel, c, argc, line);
        },
        Expression::Super(_) => {
            let one = one.op(OpCode::GetSuperConstructor, line);
            let two = two.op(OpCode::GetSuperConstructor, line);
            same_compile_call_tail(one, two, fuel, &c.arguments, argc, line);
        },
        _ => {
            same_compile_expr(one, two, fuel, &c.callee);
            let one = one.compile_expr(fuel, &c.callee)->Ok_0;
            let two = two.compile_expr(fuel, &c.callee)->Ok_0;
            same_compile_call_tail(one, two, fuel, &c.arguments, argc, line);
        },
    }
}

proof fn same_compile_method_call<'p>(
    one: CState<'p>,
    two: CState<'p>,
    fuel: nat,
    c: &'p CallExpression,
    argc: u8,
    line: u32,
)
    ensures
        alike(one, two) ==> same_end(
            one.compile_method_call(fuel, c, argc, line),
            two.compile_method_call(fuel, c, argc, line),
        ),
    decreases fuel, c, 0int,
{
    broadcast use {group_steps, group_parts};

    if let Expression::Member(m) = &c.callee {
        match &m.property {
            MemberProperty::Identifier(name) => {
                if shape::super_expr(m.object) {
                    let one = one.op(OpCode::GetSuperClass, line);
                    let two = two.op(OpCode::GetSuperClass, line);
                    let (one, idx) = one.make_string_constant(*name);
                    let two = two.make_string_constant(*name).0;
                    let one = one.emit_get_property(idx, line);
                    let two = two.emit_get_property(idx, line);
                    same_compile_args(one, two, fuel, &c.arguments, 0);
                } else if shape::any_spread(c.arguments@) {
                    same_compile_expr(one, two, fuel, &m.object);
                    let one = one.compile_expr(fuel, &m.object)->Ok_0;
                    let two = two.compile_expr(fuel, &m.object)->Ok_0;
                    let one = one.op(OpCode::Dup, line);
                    let two = two.op(OpCode::Dup, line);
                    let (one, name_idx) = one.make_string_constant(*name);
                    let two = two.make_string_constant(*name).0;
                    let one = one.emit_get_property(name_idx, line);
                    let two = two.emit_get_property(name_idx, line);
                    let one = one.op(OpCode::Swap, line);
                    let two = two.op(OpCode::Swap, line);
                    let one = one.op_u16(OpCode::CreateArray, 0, line);
                    let two = two.op_u16(OpCode::CreateArray, 0, line);
                    same_compile_spread_args(one, two, fuel, line, &c.arguments, 0);
                } else {
                    same_compile_expr(one, two, fuel, &m.object);
                    let one = one.compile_expr(fuel, &m.object)->Ok_0;
                    let two = two.compile_expr(fuel, &m.object)->Ok_0;
                    same_compile_args(one, two, fuel, &c.arguments, 0);
                }
            },
            MemberProperty::Expression(key_expr) => {
                if let Expression::StringLiteral(s) = key_expr {
                    same_compile_expr(one, two, fuel, &m.object);
                    let one = one.compile_expr(fuel, &m.object)->Ok_0;
                    let two = two.compile_expr(fuel, &m.object)->Ok_0;
                    same_compile_args(one, two, fuel, &c.arguments, 0);
                } else {
                    same_compile_expr(one, two, fuel, &m.object);
                    let one = one.compile_expr(fuel, &m.object)->Ok_0;
                    let two = two.compile_expr(fuel, &m.object)->Ok_0;
                    if argc < 255 {
                        let one = one.op(OpCode::Dup, line);
                        let two = two.op(OpCode::Dup, line);
                        same_compile_expr(one, two, fuel, key_expr);
                        let one = one.compile_expr(fuel, key_expr)->Ok_0;
                        let two = two.compile_expr(fuel, key_expr)->Ok_0;
                        let one = one.op(OpCode::GetElement, line);
                        let two = two.op(OpCode::GetElement, line);
                        let one = one.op(OpCode::Swap, line);
                        let two = two.op(OpCode::Swap, line);
                        same_compile_args(one, two, fuel, &c.arguments, 0);
                    } else {
                        same_compile_expr(one, two, fuel, key_expr);
                        let one = one.compile_expr(fuel, key_expr)->Ok_0;
                        let two = two.compile_expr(fuel, key_expr)->Ok_0;
                        let one = one.op(OpCode::GetElement, line);
                        let two = two.op(OpCode::GetElement, line);
                        same_compile_args(one, two, fuel, &c.arguments, 0);
                    }
                }
            },
            MemberProperty::PrivateIdentifier(name) => {
                same_compile_expr(one, two, fuel, &m.object);
                let one = one.compile_expr(fuel, &m.object)->Ok_0;
                let two = two.compile_expr(fuel, &m.object)->Ok_0;
                same_compile_args(one, two, fuel, &c.arguments, 0);
            },
        }
    }
}

proof fn same_compile_args<'p>(
    one: CState<'p>,
    two: CState<'p>,
    fuel: nat,
    arguments: &'p Vec<Expression>,
    i: int,
)
    ensures
        alike(one, two) ==> same_end(
            one.compile_args(fuel, arguments, i),
            two.compile_args(fuel, arguments, i),
        ),
    decreases fuel, arguments, arguments@.len() - i,
{
    broadcast use {group_steps, group_parts};

    if 0 <= i < arguments@.len() {
        let arg = &arguments@[i];
        same_compile_expr(one, two, fuel, arg);
        let one = one.compile_expr(fuel, arg)->Ok_0;
        let two = two.compile_expr(fuel, arg)->Ok_0;
        same_compile_args(one, two, fuel, arguments, i + 1);
    }
}

proof fn same_compile_spread_args<'p>(
    one: CState<'p>,
    two: CState<'p>,
    fuel: nat,
    line: u32,
    arguments: &'p Vec<Expression>,
    i: int,
)
    ensures
        alike(one, two) ==> same_end(
            one.compile_spread_args(fuel, line, arguments, i),
            two.compile_spread_args(fuel, line, arguments, i),
        ),
    decreases fuel, arguments, arguments@.len() - i,
{
    broadcast use {group_steps, group_parts};

    if 0 <= i < arguments@.len() {
        let arg = &arguments@[i];
        match arg {
            Expression::Spread(sp) => {
                same_compile_expr(one, two, fuel, &sp.argument);
                let one = one.compile_expr(fuel, &sp.argument)->Ok_0;
                let two = two.compile_expr(fuel, &sp.argument)->Ok_0;
                let one = one.op(OpCode::ArraySpread, line);
                let two = two.op(OpCode::ArraySpread, line);
                same_compile_spread_args(one, two, fuel, line, arguments, i + 1);
            },
            _ => {
                same_compile_expr(one, two, fuel, arg);
                let one = one.compile_expr(fuel, arg)->Ok_0;
                let two = two.compile_expr(fuel, arg)->Ok_0;
                let one = one.op_u32(
                    OpCode::SetArrayItem,
                    shape::spread_at(arguments@, i as usize),
                    line,
                );
                let two = two.op_u32(
                    OpCode::SetArrayItem,
                    shape::spread_at(arguments@, i as usize),
                    line,
                );
                same_compile_spread_args(one, two, fuel, line, arguments, i + 1);
            },
        }
    }
}

proof fn same_compile_call_tail<'p>(
    one: CState<'p>,
    two: CState<'p>,
    fuel: nat,
    arguments: &'p Vec<Expression>,
    argc: u8,
    line: u32,
)
    ensures
        alike(one, two) ==> same_end(
            one.compile_call_tail(fuel, arguments, argc, line),
            two.compile_call_tail(fuel, arguments, argc, line),
        ),
    decreases fuel, arguments, arguments@.len() as int + 1,
{
    broadcast use {group_steps, group_parts};

    if shape::any_spread(arguments@) {
        let one = one.op_u16(OpCode::CreateArray, 0, line);
        let two = two.op_u16(OpCode::CreateArray, 0, line);
        same_compile_spread_args(one, two, fuel, line, arguments, 0);
    } else {
        same_compile_args(one, two, fuel, arguments, 0);
    }
}

proof fn same_compile_new<'p>(one: CState<'p>, two: CState<'p>, fuel: nat, n: &'p NewExpression)
    ensures
        alike(one, two) ==> same_end(one.compile_new(fuel, n), two.compile_new(fuel, n)),
    decreases fuel, n, 0int,
{
    broadcast use {group_steps, group_parts};

    let line: u32 = n.span.start;
    same_compile_expr(one, two, fuel, &n.callee);
    let one = one.compile_expr(fuel, &n.callee)->Ok_0;
    let two = two.compile_expr(fuel, &n.callee)->Ok_0;
    if shape::any_spread(n.arguments@) {
        let one = one.op_u16(OpCode::CreateArray, 0, line);
        let two = two.op_u16(OpCode::CreateArray, 0, line);
        same_compile_spread_args(one, two, fuel, line, &n.arguments, 0);
    } else {
        same_compile_args(one, two, fuel, &n.arguments, 0);
    }
}

proof fn same_compile_array<'p>(one: CState<'p>, two: CState<'p>, fuel: nat, a: &'p ArrayExpression)
    ensures
        alike(one, two) ==> same_end(one.compile_array(fuel, a), two.compile_array(fuel, a)),
    decreases fuel, a, 0int,
{
    broadcast use {group_steps, group_parts};

    let one = one.op_u16(OpCode::CreateArray, a.elements.len() as u16, a.span.start);
    let two = two.op_u16(OpCode::CreateArray, a.elements.len() as u16, a.span.start);
    same_compile_array_elements(one, two, fuel, a.span.start, &a.elements, 0);
}

proof fn same_compile_array_elements<'p>(
    one: CState<'p>,
    two: CState<'p>,
    fuel: nat,
    line: u32,
    elements: &'p Vec<Option<Expression>>,
    i: int,
)
    ensures
        alike(one, two) ==> same_end(
            one.compile_array_elements(fuel, line, elements, i),
            two.compile_array_elements(fuel, line, elements, i),
        ),
    decreases fuel, elements, elements@.len() - i,
{
    broadcast use {group_steps, group_parts};

    if 0 <= i < elements@.len() {
        let elem = &elements@[i];
        match elem {
            Some(e) => {
                match e {
                    Expression::Spread(sp) => {
                        same_compile_expr(one, two, fuel, &sp.argument);
                        let one = one.compile_expr(fuel, &sp.argument)->Ok_0;
                        let two = two.compile_expr(fuel, &sp.argument)->Ok_0;
                        let one = one.op(OpCode::ArraySpread, line);
                        let two = two.op(OpCode::ArraySpread, line);
                        same_compile_array_elements(one, two, fuel, line, elements, i + 1);
                    },
                    _ => {
                        same_compile_expr(one, two, fuel, e);
                        let one = one.compile_expr(fuel, e)->Ok_0;
                        let two = two.compile_expr(fuel, e)->Ok_0;
                        let one = one.op_u32(OpCode::SetArrayItem, i as u32, line);
                        let two = two.op_u32(OpCode::SetArrayItem, i as u32, line);
                        same_compile_array_elements(one, two, fuel, line, elements, i + 1);
                    },
                }
            },
            None => {
                let one = one.op(OpCode::Undefined, line);
                let two = two.op(OpCode::Undefined, line);
                let one = one.op_u32(OpCode::SetArrayItem, i as u32, line);
                let two = two.op_u32(OpCode::SetArrayItem, i as u32, line);
                same_compile_array_elements(one, two, fuel, line, elements, i + 1);
            },
        }
    }
}

proof fn same_compile_object<'p>(
    one: CState<'p>,
    two: CState<'p>,
    fuel: nat,
    o: &'p ObjectExpression,
)
    ensures
        alike(one, two) ==> same_end(one.compile_object(fuel, o), two.compile_object(fuel, o)),
    decreases fuel, o, 0int,
{
    broadcast use {group_steps, group_parts};

    let one = one.op(OpCode::CreateObject, o.span.start);
    let two = two.op(OpCode::CreateObject, o.span.start);
    same_compile_object_properties(one, two, fuel, o.span.start, &o.properties, 0);
}

proof fn same_compile_object_properties<'p>(
    one: CState<'p>,
    two: CState<'p>,
    fuel: nat,
    line: u32,
    properties: &'p Vec<ObjectProperty>,
    i: int,
)
    ensures
        alike(one, two) ==> same_end(
            one.compile_object_properties(fuel, line, properties, i),
            two.compile_object_properties(fuel, line, properties, i),
        ),
    decreases fuel, properties, properties@.len() - i,
{
    broadcast use {group_steps, group_parts};

    if 0 <= i < properties@.len() {
        let prop = &properties@[i];
        match prop {
            ObjectProperty::Property(p) => {
                same_compile_object_property(one, two, fuel, p, line);
                let one = one.compile_object_property(fuel, p, line)->Ok_0;
                let two = two.compile_object_property(fuel, p, line)->Ok_0;
                same_compile_object_properties(one, two, fuel, line, properties, i + 1);
            },
            ObjectProperty::SpreadElement(s) => {
                same_compile_expr(one, two, fuel, &s.argument);
                let one = one.compile_expr(fuel, &s.argument)->Ok_0;
                let two = two.compile_expr(fuel, &s.argument)->Ok_0;
                let one = one.op(OpCode::ObjectSpread, line);
                let two = two.op(OpCode::ObjectSpread, line);
                same_compile_object_properties(one, two, fuel, line, properties, i + 1);
            },
        }
    }
}

proof fn same_compile_object_property<'p>(
    one: CState<'p>,
    two: CState<'p>,
    fuel: nat,
    p: &'p Property,
    line: u32,
)
    ensures
        alike(one, two) ==> same_end(
            one.compile_object_property(fuel, p, line),
            two.compile_object_property(fuel, p, line),
        ),
    decreases fuel, p, 0int,
{
    broadcast use {group_steps, group_parts};

    let (one, proto) = one.sets_prototype(p);
    let two = two.sets_prototype(p).0;
    if proto {
        same_compile_expr(one, two, fuel, &p.value);
    } else {
        same_compile_property_key(one, two, fuel, &p.key, line);
        let one = one.compile_property_key(fuel, &p.key, line)->Ok_0;
        let two = two.compile_property_key(fuel, &p.key, line)->Ok_0;
        match p.kind {
            PropertyKindVal::Init => {
                let (one, two) = if shape::anonymous_fn(p.value) {
                    let (one, key_name) = one.property_key_name(&p.key);
                    let two = two.property_key_name(&p.key).0;
                    let (one, two) = if key_name != StringId(0) {
                        let one = one.set_pending_name(key_name);
                        let two = two.set_pending_name(key_name);
                        (one, two)
                    } else {
                        (one, two)
                    };
                    (one, two)
                } else {
                    (one, two)
                };
                same_compile_expr(one, two, fuel, &p.value);
            },
            PropertyKindVal::Getter => {
                same_compile_expr(one, two, fuel, &p.value);
            },
            PropertyKindVal::Setter => {
                same_compile_expr(one, two, fuel, &p.value);
            },
        }
    }
}

proof fn same_compile_property_key<'p>(
    one: CState<'p>,
    two: CState<'p>,
    fuel: nat,
    key: &'p PropertyKey,
    line: u32,
)
    ensures
        alike(one, two) ==> same_end(
            one.compile_property_key(fuel, key, line),
            two.compile_property_key(fuel, key, line),
        ),
    decreases fuel, key, 0int,
{
    broadcast use {group_steps, group_parts};

    match key {
        PropertyKey::Computed(expr) => {
            same_compile_expr(one, two, fuel, expr);
        },
        _ => {},
    }
}

proof fn same_compile_function_expr<'p>(
    one: CState<'p>,
    two: CState<'p>,
    fuel: nat,
    f: &'p FunctionExpression,
)
    ensures
        alike(one, two) ==> same_end(
            one.compile_function_expr(fuel, f),
            two.compile_function_expr(fuel, f),
        ),
    decreases fuel, f, 0int,
{
    broadcast use {group_steps, group_parts};

    let (one, name) = one.function_name(f.id);
    let two = two.function_name(f.id).0;
    same_compile_function_body_with_self(
        one,
        two,
        fuel,
        name,
        &f.params,
        &f.body,
        f.is_async,
        f.is_generator,
        f.id,
    );
}

proof fn same_compile_function_body_with_self<'p>(
    one: CState<'p>,
    two: CState<'p>,
    fuel: nat,
    name: StringId,
    params: &'p Vec<Pattern>,
    body: &'p BlockStatement,
    is_async: bool,
    is_generator: bool,
    self_binding: Option<StringId>,
)
    ensures
        alike(one, two) ==> same_body(
            one.compile_function_body_with_self(
                fuel,
                name,
                params,
                body,
                is_async,
                is_generator,
                self_binding,
            ),
            two.compile_function_body_with_self(
                fuel,
                name,
                params,
                body,
                is_async,
                is_generator,
                self_binding,
            ),
        ),
{
    broadcast use {
        like_function_chunk,
        like_enter_function,
        like_leave_function,
        like_message_around,
        like_failing,
    };

    if alike(one, two) {
        let (s, child) = one.function_chunk(name, params, &body.body, is_async, is_generator);
        let (t, same) = two.function_chunk(name, params, &body.body, is_async, is_generator);
        assert(alike(s, t) && child == same);
        let (inner, saved) = s.enter_function(child);
        let (twin, kept) = t.enter_function(child);
        assert(inner == twin && saved_alike(saved, kept));
    }
}

proof fn same_compile_arrow_expr<'p>(
    one: CState<'p>,
    two: CState<'p>,
    fuel: nat,
    a: &'p ArrowFunctionExpression,
)
    ensures
        alike(one, two) ==> same_end(
            one.compile_arrow_expr(fuel, a),
            two.compile_arrow_expr(fuel, a),
        ),
    decreases fuel, a, 0int,
{
    broadcast use {group_steps, group_parts};

    let (one, name_hint) = one.take_pending_name();
    let two = two.take_pending_name().0;
    same_compile_arrow_body(one, two, fuel, &a.params, &a.body, a.is_async);
}

proof fn same_compile_arrow_body<'p>(
    one: CState<'p>,
    two: CState<'p>,
    fuel: nat,
    params: &'p Vec<Pattern>,
    body: &'p ArrowBody,
    is_async: bool,
)
    ensures
        alike(one, two) ==> same_body(
            one.compile_arrow_body(fuel, params, body, is_async),
            two.compile_arrow_body(fuel, params, body, is_async),
        ),
{
    broadcast use {
        like_arrow_chunk,
        like_enter_function,
        like_leave_function,
        like_message_around,
        like_failing,
    };

    if alike(one, two) {
        let (s, child) = one.arrow_chunk(params, body, is_async);
        let (t, same) = two.arrow_chunk(params, body, is_async);
        assert(alike(s, t) && child == same);
        let (inner, saved) = s.enter_function(child);
        let (twin, kept) = t.enter_function(child);
        assert(inner == twin && saved_alike(saved, kept));
    }
}

proof fn same_compile_class_expr<'p>(
    one: CState<'p>,
    two: CState<'p>,
    fuel: nat,
    c: &'p ClassExpression,
)
    ensures
        alike(one, two) ==> same_end(
            one.compile_class_expr(fuel, c),
            two.compile_class_expr(fuel, c),
        ),
    decreases fuel, c, 0int,
{
    broadcast use {group_steps, group_parts};

    let line: u32 = c.span.start;
    let (one, name) = one.class_name(c.id);
    let two = two.class_name(c.id).0;
    let one = one.op_name(OpCode::Class, name, line);
    let two = two.op_name(OpCode::Class, name, line);
    same_compile_heritage(one, two, fuel, &c.super_class, line);
    let one = one.compile_heritage(fuel, &c.super_class, line)->Ok_0;
    let two = two.compile_heritage(fuel, &c.super_class, line)->Ok_0;
    same_compile_class_body(one, two, fuel, &c.body, line);
}

proof fn same_compile_heritage<'p>(
    one: CState<'p>,
    two: CState<'p>,
    fuel: nat,
    super_class: &'p Option<Expression>,
    line: u32,
)
    ensures
        alike(one, two) ==> same_end(
            one.compile_heritage(fuel, super_class, line),
            two.compile_heritage(fuel, super_class, line),
        ),
    decreases fuel, super_class, 6int,
{
    broadcast use {group_steps, group_parts};

    match super_class {
        Some(e) => {
            same_compile_expr(one, two, fuel, e);
        },
        None => {},
    }
}

proof fn same_compile_class_body<'p>(
    one: CState<'p>,
    two: CState<'p>,
    fuel: nat,
    body: &'p ClassBody,
    line: u32,
)
    ensures
        alike(one, two) ==> same_end(
            one.compile_class_body(fuel, body, line),
            two.compile_class_body(fuel, body, line),
        ),
    decreases fuel, body, 0int,
{
    broadcast use {group_steps, group_parts};

    let one = one.enter_class();
    let two = two.enter_class();
    same_compile_class_body_inner(one, two, fuel, line, &body.body, 0);
}

proof fn same_compile_class_body_inner<'p>(
    one: CState<'p>,
    two: CState<'p>,
    fuel: nat,
    line: u32,
    members: &'p Vec<ClassMember>,
    i: int,
)
    ensures
        alike(one, two) ==> same_end(
            one.compile_class_body_inner(fuel, line, members, i),
            two.compile_class_body_inner(fuel, line, members, i),
        ),
    decreases fuel, members, members@.len() - i,
{
    broadcast use {group_steps, group_parts};

    if 0 <= i < members@.len() {
        let member = &members@[i];
        match member {
            ClassMember::Method(m) => {
                same_compile_class_method(one, two, fuel, m, line);
                let one = one.compile_class_method(fuel, m, line)->Ok_0;
                let two = two.compile_class_method(fuel, m, line)->Ok_0;
                same_compile_class_body_inner(one, two, fuel, line, members, i + 1);
            },
            ClassMember::Property(p) => {
                same_compile_class_property(one, two, fuel, p, line);
                let one = one.compile_class_property(fuel, p, line)->Ok_0;
                let two = two.compile_class_property(fuel, p, line)->Ok_0;
                same_compile_class_body_inner(one, two, fuel, line, members, i + 1);
            },
            ClassMember::StaticBlock(block) => {
                let (one, name) = one.intern("<static_block>"@);
                let two = two.intern("<static_block>"@).0;
                same_compile_static_block(one, two, fuel, name, block);
                let (one, child) = one.compile_static_block(fuel, name, block)->Ok_0;
                let two = two.compile_static_block(fuel, name, block)->Ok_0.0;
                let one = one.op(OpCode::Dup, line);
                let two = two.op(OpCode::Dup, line);
                let one = one.emit_closure(child, line);
                let two = two.emit_closure(child, line);
                let (one, call_name) = one.intern("call"@);
                let two = two.intern("call"@).0;
                let (one, call_id) = one.make_string_constant(call_name);
                let two = two.make_string_constant(call_name).0;
                let one = one.op(OpCode::Swap, line);
                let two = two.op(OpCode::Swap, line);
                let one = one.emit_call_method(1, call_id, line);
                let two = two.emit_call_method(1, call_id, line);
                let one = one.op(OpCode::Pop, line);
                let two = two.op(OpCode::Pop, line);
                same_compile_class_body_inner(one, two, fuel, line, members, i + 1);
            },
        }
    }
}

proof fn same_compile_class_method<'p>(
    one: CState<'p>,
    two: CState<'p>,
    fuel: nat,
    m: &'p MethodDefinition,
    line: u32,
)
    ensures
        alike(one, two) ==> same_end(
            one.compile_class_method(fuel, m, line),
            two.compile_class_method(fuel, m, line),
        ),
    decreases fuel, m, 0int,
{
    broadcast use {group_steps, group_parts};

    let (one, key_id) = one.property_key_name(&m.key);
    let two = two.property_key_name(&m.key).0;
    let one = one.set_pending_name(key_id);
    let two = two.set_pending_name(key_id);
    if let PropertyKey::Computed(expr) = &m.key {
        if key_id == StringId(0) {
            let (one, proto_key) = one.intern("prototype"@);
            let two = two.intern("prototype"@).0;
            let (one, proto_idx) = one.make_string_constant(proto_key);
            let two = two.make_string_constant(proto_key).0;
            let one = one.op(OpCode::Dup, line);
            let two = two.op(OpCode::Dup, line);
            let (one, two) = if !m.is_static {
                let one = one.emit_get_property(proto_idx, line);
                let two = two.emit_get_property(proto_idx, line);
                (one, two)
            } else {
                (one, two)
            };
            same_compile_expr(one, two, fuel, expr);
            let one = one.compile_expr(fuel, expr)->Ok_0;
            let two = two.compile_expr(fuel, expr)->Ok_0;
            let one = one.op(OpCode::ToPropertyKey, line);
            let two = two.op(OpCode::ToPropertyKey, line);
            same_compile_expr(one, two, fuel, &m.value);
        } else {
            same_compile_expr(one, two, fuel, &m.value);
        }
    } else {
        same_compile_expr(one, two, fuel, &m.value);
    }
}

proof fn same_compile_class_property<'p>(
    one: CState<'p>,
    two: CState<'p>,
    fuel: nat,
    p: &'p ClassProperty,
    line: u32,
)
    ensures
        alike(one, two) ==> same_end(
            one.compile_class_property(fuel, p, line),
            two.compile_class_property(fuel, p, line),
        ),
    decreases fuel, p, 0int,
{
    broadcast use {group_steps, group_parts};

    if shape::runtime_key(p.key) {
        same_compile_property_key(one, two, fuel, &p.key, line);
        let one = one.compile_property_key(fuel, &p.key, line)->Ok_0;
        let two = two.compile_property_key(fuel, &p.key, line)->Ok_0;
        same_compile_init(one, two, fuel, &p.value, line);
    } else {
        same_compile_init(one, two, fuel, &p.value, line);
    }
}

proof fn same_compile_init<'p>(
    one: CState<'p>,
    two: CState<'p>,
    fuel: nat,
    init: &'p Option<Expression>,
    line: u32,
)
    ensures
        alike(one, two) ==> same_end(
            one.compile_init(fuel, init, line),
            two.compile_init(fuel, init, line),
        ),
    decreases fuel, init, 6int,
{
    broadcast use {group_steps, group_parts};

    match init {
        Some(e) => {
            same_compile_expr(one, two, fuel, e);
        },
        None => {},
    }
}

proof fn same_compile_static_block<'p>(
    one: CState<'p>,
    two: CState<'p>,
    fuel: nat,
    name: StringId,
    body: &'p BlockStatement,
)
    ensures
        alike(one, two) ==> same_body(
            one.compile_static_block(fuel, name, body),
            two.compile_static_block(fuel, name, body),
        ),
{
    broadcast use {
        like_static_chunk,
        like_enter_function,
        like_leave_function,
        like_message_around,
        like_failing,
    };

    if alike(one, two) {
        let (s, child) = one.static_chunk(name, &body.body);
        let (t, same) = two.static_chunk(name, &body.body);
        assert(alike(s, t) && child == same);
        let (inner, saved) = s.enter_function(child);
        let (twin, kept) = t.enter_function(child);
        assert(inner == twin && saved_alike(saved, kept));
    }
}

proof fn same_compile_template_literal<'p>(
    one: CState<'p>,
    two: CState<'p>,
    fuel: nat,
    t: &'p TemplateLiteral,
)
    ensures
        alike(one, two) ==> same_end(
            one.compile_template_literal(fuel, t),
            two.compile_template_literal(fuel, t),
        ),
    decreases fuel, t, 0int,
{
    broadcast use {group_steps, group_parts};

    let line: u32 = t.span.start;
    let (one, empty) = one.intern(""@);
    let two = two.intern(""@).0;
    let one = one.op_name(OpCode::Const, empty, line);
    let two = two.op_name(OpCode::Const, empty, line);
    same_template_pairs(one, two, fuel, &t.quasis, line, &t.expressions, 0);
    let one = one.template_pairs(fuel, &t.quasis, line, &t.expressions, 0)->Ok_0;
    let two = two.template_pairs(fuel, &t.quasis, line, &t.expressions, 0)->Ok_0;
    same_template_tail(one, two, t.expressions.len(), line, &t.quasis, 0);
}

proof fn same_template_pairs<'p>(
    one: CState<'p>,
    two: CState<'p>,
    fuel: nat,
    quasis: &'p Vec<TemplateElement>,
    line: u32,
    expressions: &'p Vec<Expression>,
    i: int,
)
    ensures
        alike(one, two) ==> same_end(
            one.template_pairs(fuel, quasis, line, expressions, i),
            two.template_pairs(fuel, quasis, line, expressions, i),
        ),
    decreases fuel, expressions, expressions@.len() - i,
{
    broadcast use {group_steps, group_parts};

    if 0 <= i < expressions@.len() {
        let expr = &expressions@[i];
        if i < quasis.len() {
            let one = one.template_text(&quasis[i], line);
            let two = two.template_text(&quasis[i], line);
            same_compile_expr(one, two, fuel, expr);
            let one = one.compile_expr(fuel, expr)->Ok_0;
            let two = two.compile_expr(fuel, expr)->Ok_0;
            let one = one.op(OpCode::Add, line);
            let two = two.op(OpCode::Add, line);
            same_template_pairs(one, two, fuel, quasis, line, expressions, i + 1);
        } else {
            same_template_pairs(one, two, fuel, quasis, line, expressions, i + 1);
        }
    }
}

proof fn same_template_tail<'p>(
    one: CState<'p>,
    two: CState<'p>,
    from: usize,
    line: u32,
    quasis: &'p Vec<TemplateElement>,
    i: int,
)
    ensures
        alike(one, two) ==> alike(
            one.template_tail(from, line, quasis, i),
            two.template_tail(from, line, quasis, i),
        ),
    decreases quasis@.len() - i,
{
    broadcast use {group_steps, group_parts};

    if 0 <= i < quasis@.len() {
        let quasi = &quasis@[i];
        if i >= from {
            let one = one.template_text(quasi, line);
            let two = two.template_text(quasi, line);
            same_template_tail(one, two, from, line, quasis, i + 1);
        } else {
            same_template_tail(one, two, from, line, quasis, i + 1);
        }
    }
}

proof fn same_compile_tagged_template<'p>(
    one: CState<'p>,
    two: CState<'p>,
    fuel: nat,
    t: &'p TaggedTemplateExpression,
)
    ensures
        alike(one, two) ==> same_end(
            one.compile_tagged_template(fuel, t),
            two.compile_tagged_template(fuel, t),
        ),
    decreases fuel, t, 0int,
{
    broadcast use {group_steps, group_parts};

    let line: u32 = t.span.start;
    same_compile_expr(one, two, fuel, &t.tag);
    let one = one.compile_expr(fuel, &t.tag)->Ok_0;
    let two = two.compile_expr(fuel, &t.tag)->Ok_0;
    same_tagged_texts(one, two, line, &t.quasi.quasis, 0);
    let one = one.tagged_texts(line, &t.quasi.quasis, 0);
    let two = two.tagged_texts(line, &t.quasi.quasis, 0);
    same_compile_args(one, two, fuel, &t.quasi.expressions, 0);
}

proof fn same_tagged_texts<'p>(
    one: CState<'p>,
    two: CState<'p>,
    line: u32,
    quasis: &'p Vec<TemplateElement>,
    i: int,
)
    ensures
        alike(one, two) ==> alike(
            one.tagged_texts(line, quasis, i),
            two.tagged_texts(line, quasis, i),
        ),
    decreases quasis@.len() - i,
{
    broadcast use {group_steps, group_parts};

    if 0 <= i < quasis@.len() {
        let quasi = &quasis@[i];
        let one = one.op_name(OpCode::Const, shape::text_of_element(*quasi), line);
        let two = two.op_name(OpCode::Const, shape::text_of_element(*quasi), line);
        same_tagged_texts(one, two, line, quasis, i + 1);
    }
}

proof fn same_compile_yield<'p>(one: CState<'p>, two: CState<'p>, fuel: nat, y: &'p YieldExpression)
    ensures
        alike(one, two) ==> same_end(one.compile_yield(fuel, y), two.compile_yield(fuel, y)),
    decreases fuel, y, 0int,
{
    broadcast use {group_steps, group_parts};

    let line: u32 = y.span.start;
    if y.delegate {
        match &y.argument {
            Some(arg) => {
                same_compile_expr(one, two, fuel, arg);
            },
            None => {},
        }
    } else {
        match &y.argument {
            Some(arg) => {
                same_compile_expr(one, two, fuel, arg);
            },
            None => {},
        }
    }
}

proof fn same_compile_optional_chain<'p>(
    one: CState<'p>,
    two: CState<'p>,
    fuel: nat,
    o: &'p OptionalChainExpression,
)
    ensures
        alike(one, two) ==> same_end(
            one.compile_optional_chain(fuel, o),
            two.compile_optional_chain(fuel, o),
        ),
    decreases fuel, o, 0int,
{
    broadcast use {group_steps, group_parts};

    let line: u32 = o.span.start;
    same_compile_expr(one, two, fuel, &o.base);
    let one = one.compile_expr(fuel, &o.base)->Ok_0;
    let two = two.compile_expr(fuel, &o.base)->Ok_0;
    let base = one.mark_len();
    same_compile_chain(one, two, fuel, line, &o.chain, 0);
}

proof fn same_compile_chain<'p>(
    one: CState<'p>,
    two: CState<'p>,
    fuel: nat,
    line: u32,
    chain: &'p Vec<OptionalChainElement>,
    i: int,
)
    ensures
        alike(one, two) ==> same_end(
            one.compile_chain(fuel, line, chain, i),
            two.compile_chain(fuel, line, chain, i),
        ),
    decreases fuel, chain, chain@.len() - i,
{
    broadcast use {group_steps, group_parts};

    if 0 <= i < chain@.len() {
        let element = &chain@[i];
        match element {
            OptionalChainElement::Member { property, optional, .. } => {
                let (one, two) = if *optional {
                    let (one, skip) = one.jump(OpCode::OptionalChain, line);
                    let two = two.jump(OpCode::OptionalChain, line).0;
                    let one = one.push_mark(skip);
                    let two = two.push_mark(skip);
                    (one, two)
                } else {
                    (one, two)
                };
                if !(shape::called_property(chain@, i + 1) is Some) {
                    same_compile_member_read(one, two, fuel, property, line);
                    let one = one.compile_member_read(fuel, property, line)->Ok_0;
                    let two = two.compile_member_read(fuel, property, line)->Ok_0;
                    same_compile_chain(one, two, fuel, line, chain, i + 1);
                } else {
                    same_compile_chain(one, two, fuel, line, chain, i + 1);
                }
            },
            OptionalChainElement::Call { arguments, optional } => {
                match shape::called_property(chain@, i) {
                    Some(id) => {
                        same_compile_args(one, two, fuel, arguments, 0);
                        let one = one.compile_args(fuel, arguments, 0)->Ok_0;
                        let two = two.compile_args(fuel, arguments, 0)->Ok_0;
                        let (one, idx) = one.make_string_constant(id);
                        let two = two.make_string_constant(id).0;
                        let one = one.emit_call_method(arguments.len() as u8, idx, line);
                        let two = two.emit_call_method(arguments.len() as u8, idx, line);
                        same_compile_chain(one, two, fuel, line, chain, i + 1);
                    },
                    None => {
                        let (one, two) = if *optional {
                            let (one, skip) = one.jump(OpCode::OptionalChain, line);
                            let two = two.jump(OpCode::OptionalChain, line).0;
                            let one = one.push_mark(skip);
                            let two = two.push_mark(skip);
                            (one, two)
                        } else {
                            (one, two)
                        };
                        same_compile_args(one, two, fuel, arguments, 0);
                        let one = one.compile_args(fuel, arguments, 0)->Ok_0;
                        let two = two.compile_args(fuel, arguments, 0)->Ok_0;
                        let one = one.op_u8(OpCode::Call, arguments.len() as u8, line);
                        let two = two.op_u8(OpCode::Call, arguments.len() as u8, line);
                        same_compile_chain(one, two, fuel, line, chain, i + 1);
                    },
                }
            },
        }
    }
}

proof fn same_compile_member_store<'p>(
    one: CState<'p>,
    two: CState<'p>,
    fuel: nat,
    a: &'p AssignmentExpression,
    line: u32,
)
    ensures
        alike(one, two) ==> same_end(
            one.compile_member_store(fuel, a, line),
            two.compile_member_store(fuel, a, line),
        ),
    decreases fuel, a, 0int,
{
    broadcast use {group_steps, group_parts};

    if let AssignmentTarget::Member(m) = &a.left {
        match &m.property {
            MemberProperty::Identifier(name) => {
                let (one, idx) = one.make_string_constant(*name);
                let two = two.make_string_constant(*name).0;
                same_store_property(one, two, fuel, idx, a.operator, &a.right, line);
            },
            MemberProperty::Expression(key) => {
                same_compile_expr(one, two, fuel, key);
                let one = one.compile_expr(fuel, key)->Ok_0;
                let two = two.compile_expr(fuel, key)->Ok_0;
                same_store_element(one, two, fuel, a.operator, &a.right, line);
            },
            MemberProperty::PrivateIdentifier(name) => {
                let (one, idx) = one.make_string_constant(*name);
                let two = two.make_string_constant(*name).0;
                same_store_private(one, two, fuel, idx, a.operator, &a.right, line);
            },
        }
    }
}

proof fn same_store_property<'p>(
    one: CState<'p>,
    two: CState<'p>,
    fuel: nat,
    idx: u16,
    operator: AssignmentOperator,
    rhs: &'p Expression,
    line: u32,
)
    ensures
        alike(one, two) ==> same_end(
            one.store_property(fuel, idx, operator, rhs, line),
            two.store_property(fuel, idx, operator, rhs, line),
        ),
    decreases fuel, rhs, 8int,
{
    broadcast use {group_steps, group_parts};

    if shape::logical_assignment(operator) {
        let one = one.op(OpCode::Dup, line);
        let two = two.op(OpCode::Dup, line);
        let one = one.emit_get_property(idx, line);
        let two = two.emit_get_property(idx, line);
        same_emit_logical_member_assign(one, two, fuel, operator, idx, rhs, line);
    } else {
        if operator != AssignmentOperator::Assign {
            let one = one.op(OpCode::Dup, line);
            let two = two.op(OpCode::Dup, line);
            let one = one.emit_get_property(idx, line);
            let two = two.emit_get_property(idx, line);
            same_compile_expr(one, two, fuel, rhs);
        } else {
            same_compile_expr(one, two, fuel, rhs);
        }
    }
}

proof fn same_emit_logical_member_assign<'p>(
    one: CState<'p>,
    two: CState<'p>,
    fuel: nat,
    operator: AssignmentOperator,
    idx: u16,
    rhs: &'p Expression,
    line: u32,
)
    ensures
        alike(one, two) ==> same_end(
            one.emit_logical_member_assign(fuel, operator, idx, rhs, line),
            two.emit_logical_member_assign(fuel, operator, idx, rhs, line),
        ),
    decreases fuel, rhs, 7int,
{
    broadcast use {group_steps, group_parts};

    if operator == AssignmentOperator::NullishAssign {
        let (one, to_assign) = one.jump(OpCode::JumpIfNullishPeek, line);
        let two = two.jump(OpCode::JumpIfNullishPeek, line).0;
        let one = one.op(OpCode::Swap, line);
        let two = two.op(OpCode::Swap, line);
        let one = one.op(OpCode::Pop, line);
        let two = two.op(OpCode::Pop, line);
        let (one, end) = one.jump(OpCode::Jump, line);
        let two = two.jump(OpCode::Jump, line).0;
        let one = one.patch(to_assign);
        let two = two.patch(to_assign);
        let one = one.op(OpCode::Pop, line);
        let two = two.op(OpCode::Pop, line);
        same_compile_expr(one, two, fuel, rhs);
    } else {
        let (one, skip) = one.jump(
            if operator == AssignmentOperator::AndAssign { OpCode::JumpIfFalsePeek } else { OpCode::JumpIfTruePeek },
            line,
        );
        let two = two.jump(
            if operator == AssignmentOperator::AndAssign { OpCode::JumpIfFalsePeek } else { OpCode::JumpIfTruePeek },
            line,
        ).0;
        let one = one.op(OpCode::Pop, line);
        let two = two.op(OpCode::Pop, line);
        same_compile_expr(one, two, fuel, rhs);
    }
}

proof fn same_store_element<'p>(
    one: CState<'p>,
    two: CState<'p>,
    fuel: nat,
    operator: AssignmentOperator,
    rhs: &'p Expression,
    line: u32,
)
    ensures
        alike(one, two) ==> same_end(
            one.store_element(fuel, operator, rhs, line),
            two.store_element(fuel, operator, rhs, line),
        ),
    decreases fuel, rhs, 8int,
{
    broadcast use {group_steps, group_parts};

    if shape::logical_assignment(operator) {
        let one = one.op(OpCode::Dup2, line);
        let two = two.op(OpCode::Dup2, line);
        let one = one.op(OpCode::GetElement, line);
        let two = two.op(OpCode::GetElement, line);
        same_emit_logical_elem_assign(one, two, fuel, operator, rhs, line);
    } else {
        if operator != AssignmentOperator::Assign {
            let one = one.op(OpCode::Dup2, line);
            let two = two.op(OpCode::Dup2, line);
            let one = one.op(OpCode::GetElement, line);
            let two = two.op(OpCode::GetElement, line);
            same_compile_expr(one, two, fuel, rhs);
        } else {
            same_compile_expr(one, two, fuel, rhs);
        }
    }
}

proof fn same_emit_logical_elem_assign<'p>(
    one: CState<'p>,
    two: CState<'p>,
    fuel: nat,
    operator: AssignmentOperator,
    rhs: &'p Expression,
    line: u32,
)
    ensures
        alike(one, two) ==> same_end(
            one.emit_logical_elem_assign(fuel, operator, rhs, line),
            two.emit_logical_elem_assign(fuel, operator, rhs, line),
        ),
    decreases fuel, rhs, 7int,
{
    broadcast use {group_steps, group_parts};

    if operator == AssignmentOperator::NullishAssign {
        let (one, to_assign) = one.jump(OpCode::JumpIfNullishPeek, line);
        let two = two.jump(OpCode::JumpIfNullishPeek, line).0;
        let one = one.op(OpCode::Swap, line);
        let two = two.op(OpCode::Swap, line);
        let one = one.op(OpCode::Pop, line);
        let two = two.op(OpCode::Pop, line);
        let one = one.op(OpCode::Swap, line);
        let two = two.op(OpCode::Swap, line);
        let one = one.op(OpCode::Pop, line);
        let two = two.op(OpCode::Pop, line);
        let (one, end) = one.jump(OpCode::Jump, line);
        let two = two.jump(OpCode::Jump, line).0;
        let one = one.patch(to_assign);
        let two = two.patch(to_assign);
        let one = one.op(OpCode::Pop, line);
        let two = two.op(OpCode::Pop, line);
        same_compile_expr(one, two, fuel, rhs);
    } else {
        let (one, skip) = one.jump(
            if operator == AssignmentOperator::AndAssign { OpCode::JumpIfFalsePeek } else { OpCode::JumpIfTruePeek },
            line,
        );
        let two = two.jump(
            if operator == AssignmentOperator::AndAssign { OpCode::JumpIfFalsePeek } else { OpCode::JumpIfTruePeek },
            line,
        ).0;
        let one = one.op(OpCode::Pop, line);
        let two = two.op(OpCode::Pop, line);
        same_compile_expr(one, two, fuel, rhs);
    }
}

proof fn same_store_private<'p>(
    one: CState<'p>,
    two: CState<'p>,
    fuel: nat,
    idx: u16,
    operator: AssignmentOperator,
    rhs: &'p Expression,
    line: u32,
)
    ensures
        alike(one, two) ==> same_end(
            one.store_private(fuel, idx, operator, rhs, line),
            two.store_private(fuel, idx, operator, rhs, line),
        ),
    decreases fuel, rhs, 8int,
{
    broadcast use {group_steps, group_parts};

    if shape::logical_assignment(operator) {
        let one = one.op(OpCode::Dup, line);
        let two = two.op(OpCode::Dup, line);
        let one = one.op_u16(OpCode::GetPrivate, idx, line);
        let two = two.op_u16(OpCode::GetPrivate, idx, line);
        same_emit_logical_priv_assign(one, two, fuel, operator, idx, rhs, line);
    } else {
        if operator != AssignmentOperator::Assign {
            let one = one.op(OpCode::Dup, line);
            let two = two.op(OpCode::Dup, line);
            let one = one.op_u16(OpCode::GetPrivate, idx, line);
            let two = two.op_u16(OpCode::GetPrivate, idx, line);
            same_compile_expr(one, two, fuel, rhs);
        } else {
            same_compile_expr(one, two, fuel, rhs);
        }
    }
}

proof fn same_emit_logical_priv_assign<'p>(
    one: CState<'p>,
    two: CState<'p>,
    fuel: nat,
    operator: AssignmentOperator,
    idx: u16,
    rhs: &'p Expression,
    line: u32,
)
    ensures
        alike(one, two) ==> same_end(
            one.emit_logical_priv_assign(fuel, operator, idx, rhs, line),
            two.emit_logical_priv_assign(fuel, operator, idx, rhs, line),
        ),
    decreases fuel, rhs, 7int,
{
    broadcast use {group_steps, group_parts};

    if operator == AssignmentOperator::NullishAssign {
        let (one, to_assign) = one.jump(OpCode::JumpIfNullishPeek, line);
        let two = two.jump(OpCode::JumpIfNullishPeek, line).0;
        let one = one.op(OpCode::Swap, line);
        let two = two.op(OpCode::Swap, line);
        let one = one.op(OpCode::Pop, line);
        let two = two.op(OpCode::Pop, line);
        let (one, end) = one.jump(OpCode::Jump, line);
        let two = two.jump(OpCode::Jump, line).0;
        let one = one.patch(to_assign);
        let two = two.patch(to_assign);
        let one = one.op(OpCode::Pop, line);
        let two = two.op(OpCode::Pop, line);
        same_compile_expr(one, two, fuel, rhs);
    } else {
        let (one, skip) = one.jump(
            if operator == AssignmentOperator::AndAssign { OpCode::JumpIfFalsePeek } else { OpCode::JumpIfTruePeek },
            line,
        );
        let two = two.jump(
            if operator == AssignmentOperator::AndAssign { OpCode::JumpIfFalsePeek } else { OpCode::JumpIfTruePeek },
            line,
        ).0;
        let one = one.op(OpCode::Pop, line);
        let two = two.op(OpCode::Pop, line);
        same_compile_expr(one, two, fuel, rhs);
    }
}

proof fn same_assign_indexed_elements<'p>(
    one: CState<'p>,
    two: CState<'p>,
    fuel: nat,
    line: u32,
    elements: &'p Vec<Option<Pattern>>,
    i: int,
)
    ensures
        alike(one, two) ==> same_end(
            one.assign_indexed_elements(fuel, line, elements, i),
            two.assign_indexed_elements(fuel, line, elements, i),
        ),
    decreases fuel, elements, elements@.len() - i,
{
    broadcast use {group_steps, group_parts};

    if 0 <= i < elements@.len() {
        let elem = &elements@[i];
        if let Some(elem_pat) = elem {
            let one = one.op(OpCode::Dup, line);
            let two = two.op(OpCode::Dup, line);
            let one = one.emit_constant(Value::Int(i as i32), line);
            let two = two.emit_constant(Value::Int(i as i32), line);
            let one = one.op(OpCode::GetElement, line);
            let two = two.op(OpCode::GetElement, line);
            match elem_pat {
                Pattern::Identifier(id) => {
                    let one = one.compile_set_variable(id.name, line);
                    let two = two.compile_set_variable(id.name, line);
                    let one = one.op(OpCode::Pop, line);
                    let two = two.op(OpCode::Pop, line);
                    same_assign_indexed_elements(one, two, fuel, line, elements, i + 1);
                },
                Pattern::Rest(r) => {
                    let one = one.op(OpCode::Pop, line);
                    let two = two.op(OpCode::Pop, line);
                    let one = one.op(OpCode::Dup, line);
                    let two = two.op(OpCode::Dup, line);
                    let one = one.op(OpCode::GetIterator, line);
                    let two = two.op(OpCode::GetIterator, line);
                    same_skip_iterated(one, two, i as usize, line);
                    let one = one.skip_iterated(i as usize, line);
                    let two = two.skip_iterated(i as usize, line);
                    let one = one.collect_iterated(line);
                    let two = two.collect_iterated(line);
                    match &r.argument {
                        Pattern::Identifier(id) => {
                            let one = one.compile_set_variable(id.name, line);
                            let two = two.compile_set_variable(id.name, line);
                            let one = one.op(OpCode::Pop, line);
                            let two = two.op(OpCode::Pop, line);
                            same_assign_indexed_elements(one, two, fuel, line, elements, i + 1);
                        },
                        Pattern::Member(m) => {
                            same_compile_expr(one, two, fuel, &m.object);
                            let one = one.compile_expr(fuel, &m.object)->Ok_0;
                            let two = two.compile_expr(fuel, &m.object)->Ok_0;
                            let (one, two) = match &m.property {
                                MemberProperty::Identifier(id) => {
                                    let (one, idx) = one.make_string_constant(*id);
                                    let two = two.make_string_constant(*id).0;
                                    let one = one.op(OpCode::Swap, line);
                                    let two = two.op(OpCode::Swap, line);
                                    let one = one.emit_set_property(idx, line);
                                    let two = two.emit_set_property(idx, line);
                                    (one, two)
                                },
                                MemberProperty::Expression(key) => {
                                    same_compile_expr(one, two, fuel, key);
                                    let one = one.compile_expr(fuel, key)->Ok_0;
                                    let two = two.compile_expr(fuel, key)->Ok_0;
                                    let one = one.op(OpCode::Rot3, line);
                                    let two = two.op(OpCode::Rot3, line);
                                    let one = one.op(OpCode::Rot3, line);
                                    let two = two.op(OpCode::Rot3, line);
                                    let one = one.op(OpCode::SetElement, line);
                                    let two = two.op(OpCode::SetElement, line);
                                    (one, two)
                                },
                                MemberProperty::PrivateIdentifier(_) => {
                                    let one = one.op(OpCode::Pop, line);
                                    let two = two.op(OpCode::Pop, line);
                                    let one = one.op(OpCode::Pop, line);
                                    let two = two.op(OpCode::Pop, line);
                                    (one, two)
                                },
                            };
                            let one = one.op(OpCode::Pop, line);
                            let two = two.op(OpCode::Pop, line);
                            same_assign_indexed_elements(one, two, fuel, line, elements, i + 1);
                        },
                        Pattern::Object(_) => {
                            same_compile_assign_to_pattern(one, two, fuel, &r.argument, line);
                            let one = one.compile_assign_to_pattern(fuel, &r.argument, line)->Ok_0;
                            let two = two.compile_assign_to_pattern(fuel, &r.argument, line)->Ok_0;
                            same_assign_indexed_elements(one, two, fuel, line, elements, i + 1);
                        },
                        Pattern::Array(_) => {
                            same_compile_assign_to_pattern(one, two, fuel, &r.argument, line);
                            let one = one.compile_assign_to_pattern(fuel, &r.argument, line)->Ok_0;
                            let two = two.compile_assign_to_pattern(fuel, &r.argument, line)->Ok_0;
                            same_assign_indexed_elements(one, two, fuel, line, elements, i + 1);
                        },
                        _ => {
                            let one = one.op(OpCode::Pop, line);
                            let two = two.op(OpCode::Pop, line);
                            same_assign_indexed_elements(one, two, fuel, line, elements, i + 1);
                        },
                    }
                },
                Pattern::Object(_) => {
                    same_compile_assign_to_pattern(one, two, fuel, elem_pat, line);
                    let one = one.compile_assign_to_pattern(fuel, elem_pat, line)->Ok_0;
                    let two = two.compile_assign_to_pattern(fuel, elem_pat, line)->Ok_0;
                    same_assign_indexed_elements(one, two, fuel, line, elements, i + 1);
                },
                Pattern::Array(_) => {
                    same_compile_assign_to_pattern(one, two, fuel, elem_pat, line);
                    let one = one.compile_assign_to_pattern(fuel, elem_pat, line)->Ok_0;
                    let two = two.compile_assign_to_pattern(fuel, elem_pat, line)->Ok_0;
                    same_assign_indexed_elements(one, two, fuel, line, elements, i + 1);
                },
                _ => {
                    let one = one.op(OpCode::Pop, line);
                    let two = two.op(OpCode::Pop, line);
                    same_assign_indexed_elements(one, two, fuel, line, elements, i + 1);
                },
            }
        } else {
            same_assign_indexed_elements(one, two, fuel, line, elements, i + 1);
        }
    }
}

proof fn same_compile_assign_to_pattern<'p>(
    one: CState<'p>,
    two: CState<'p>,
    fuel: nat,
    pat: &'p Pattern,
    line: u32,
)
    ensures
        alike(one, two) ==> same_end(
            one.compile_assign_to_pattern(fuel, pat, line),
            two.compile_assign_to_pattern(fuel, pat, line),
        ),
    decreases fuel, pat, 5int,
{
    broadcast use {group_steps, group_parts};

    match pat {
        Pattern::Member(m) => {
            same_compile_member_target(one, two, fuel, m, line);
        },
        Pattern::Object(obj) => {
            same_assign_to_properties(one, two, fuel, line, &obj.properties, 0);
        },
        Pattern::Array(arr) => {
            let one = one.op(OpCode::Dup, line);
            let two = two.op(OpCode::Dup, line);
            let one = one.op(OpCode::Undefined, line);
            let two = two.op(OpCode::Undefined, line);
            let one = one.op(OpCode::StrictEq, line);
            let two = two.op(OpCode::StrictEq, line);
            let (one, undef_jump) = one.jump(OpCode::JumpIfTrue, line);
            let two = two.jump(OpCode::JumpIfTrue, line).0;
            let one = one.op(OpCode::Dup, line);
            let two = two.op(OpCode::Dup, line);
            let one = one.op(OpCode::Null, line);
            let two = two.op(OpCode::Null, line);
            let one = one.op(OpCode::StrictEq, line);
            let two = two.op(OpCode::StrictEq, line);
            let (one, null_jump) = one.jump(OpCode::JumpIfTrue, line);
            let two = two.jump(OpCode::JumpIfTrue, line).0;
            let (one, skip_throw) = one.jump(OpCode::Jump, line);
            let two = two.jump(OpCode::Jump, line).0;
            let one = one.patch(undef_jump);
            let two = two.patch(undef_jump);
            let one = one.patch(null_jump);
            let two = two.patch(null_jump);
            let one = one.emit_throw_type_error("object is not iterable"@, line);
            let two = two.emit_throw_type_error("object is not iterable"@, line);
            let one = one.patch(skip_throw);
            let two = two.patch(skip_throw);
            same_assign_to_elements(one, two, fuel, line, &arr.elements, 0);
        },
        _ => {},
    }
}

proof fn same_compile_member_target<'p>(
    one: CState<'p>,
    two: CState<'p>,
    fuel: nat,
    m: &'p MemberExpression,
    line: u32,
)
    ensures
        alike(one, two) ==> same_end(
            one.compile_member_target(fuel, m, line),
            two.compile_member_target(fuel, m, line),
        ),
    decreases fuel, m, 0int,
{
    broadcast use {group_steps, group_parts};

    same_compile_expr(one, two, fuel, &m.object);
    let one = one.compile_expr(fuel, &m.object)->Ok_0;
    let two = two.compile_expr(fuel, &m.object)->Ok_0;
    match &m.property {
        MemberProperty::Expression(key) => {
            same_compile_expr(one, two, fuel, key);
        },
        _ => {},
    }
}

proof fn same_assign_to_properties<'p>(
    one: CState<'p>,
    two: CState<'p>,
    fuel: nat,
    line: u32,
    properties: &'p Vec<ObjectPatternProperty>,
    i: int,
)
    ensures
        alike(one, two) ==> same_end(
            one.assign_to_properties(fuel, line, properties, i),
            two.assign_to_properties(fuel, line, properties, i),
        ),
    decreases fuel, properties, properties@.len() - i,
{
    broadcast use {group_steps, group_parts};

    if 0 <= i < properties@.len() {
        let prop = &properties@[i];
        if let ObjectPatternProperty::Property { key, value, .. } = prop {
            let one = one.op(OpCode::Dup, line);
            let two = two.op(OpCode::Dup, line);
            if let PropertyKey::Private(_) = key {
                let one = one.op(OpCode::Pop, line);
                let two = two.op(OpCode::Pop, line);
                same_assign_to_properties(one, two, fuel, line, properties, i + 1);
            } else {
                same_compile_keyed_read(one, two, fuel, key, false, line);
                let one = one.compile_keyed_read(fuel, key, false, line)->Ok_0;
                let two = two.compile_keyed_read(fuel, key, false, line)->Ok_0;
                match value {
                    Pattern::Identifier(id) => {
                        let one = one.compile_set_variable(id.name, line);
                        let two = two.compile_set_variable(id.name, line);
                        let one = one.op(OpCode::Pop, line);
                        let two = two.op(OpCode::Pop, line);
                        same_assign_to_properties(one, two, fuel, line, properties, i + 1);
                    },
                    Pattern::Assignment(a) => {
                        let one = one.op(OpCode::Dup, line);
                        let two = two.op(OpCode::Dup, line);
                        let one = one.op(OpCode::Undefined, line);
                        let two = two.op(OpCode::Undefined, line);
                        let one = one.op(OpCode::StrictEq, line);
                        let two = two.op(OpCode::StrictEq, line);
                        let jump_idx = one.here();
                        let one = one.op(OpCode::JumpIfFalse, line);
                        let two = two.op(OpCode::JumpIfFalse, line);
                        let one = one.raw16(0);
                        let two = two.raw16(0);
                        let one = one.op(OpCode::Pop, line);
                        let two = two.op(OpCode::Pop, line);
                        same_compile_expr(one, two, fuel, &a.right);
                        let one = one.compile_expr(fuel, &a.right)->Ok_0;
                        let two = two.compile_expr(fuel, &a.right)->Ok_0;
                        let one = one.patch_short(jump_idx);
                        let two = two.patch_short(jump_idx);
                        let (one, two) = if let Pattern::Identifier(id) = &a.left {
                            let one = one.compile_set_variable(id.name, line);
                            let two = two.compile_set_variable(id.name, line);
                            (one, two)
                        } else {
                            (one, two)
                        };
                        let one = one.op(OpCode::Pop, line);
                        let two = two.op(OpCode::Pop, line);
                        same_assign_to_properties(one, two, fuel, line, properties, i + 1);
                    },
                    Pattern::Object(_) => {
                        same_compile_assign_to_pattern(one, two, fuel, value, line);
                        let one = one.compile_assign_to_pattern(fuel, value, line)->Ok_0;
                        let two = two.compile_assign_to_pattern(fuel, value, line)->Ok_0;
                        same_assign_to_properties(one, two, fuel, line, properties, i + 1);
                    },
                    Pattern::Array(_) => {
                        same_compile_assign_to_pattern(one, two, fuel, value, line);
                        let one = one.compile_assign_to_pattern(fuel, value, line)->Ok_0;
                        let two = two.compile_assign_to_pattern(fuel, value, line)->Ok_0;
                        same_assign_to_properties(one, two, fuel, line, properties, i + 1);
                    },
                    _ => {
                        let one = one.op(OpCode::Pop, line);
                        let two = two.op(OpCode::Pop, line);
                        same_assign_to_properties(one, two, fuel, line, properties, i + 1);
                    },
                }
            }
        } else {
            same_assign_to_properties(one, two, fuel, line, properties, i + 1);
        }
    }
}

proof fn same_compile_keyed_read<'p>(
    one: CState<'p>,
    two: CState<'p>,
    fuel: nat,
    key: &'p PropertyKey,
    has_rest: bool,
    line: u32,
)
    ensures
        alike(one, two) ==> same_end(
            one.compile_keyed_read(fuel, key, has_rest, line),
            two.compile_keyed_read(fuel, key, has_rest, line),
        ),
    decreases fuel, key, 0int,
{
    broadcast use {group_steps, group_parts};

    match key {
        PropertyKey::Computed(expr) => {
            same_compile_expr(one, two, fuel, expr);
        },
        _ => {},
    }
}

proof fn same_assign_to_elements<'p>(
    one: CState<'p>,
    two: CState<'p>,
    fuel: nat,
    line: u32,
    elements: &'p Vec<Option<Pattern>>,
    i: int,
)
    ensures
        alike(one, two) ==> same_end(
            one.assign_to_elements(fuel, line, elements, i),
            two.assign_to_elements(fuel, line, elements, i),
        ),
    decreases fuel, elements, elements@.len() - i,
{
    broadcast use {group_steps, group_parts};

    if 0 <= i < elements@.len() {
        let elem = &elements@[i];
        if let Some(elem_pat) = elem {
            let one = one.op(OpCode::Dup, line);
            let two = two.op(OpCode::Dup, line);
            let one = one.emit_constant(Value::Int(i as i32), line);
            let two = two.emit_constant(Value::Int(i as i32), line);
            let one = one.op(OpCode::GetElement, line);
            let two = two.op(OpCode::GetElement, line);
            match elem_pat {
                Pattern::Identifier(id) => {
                    let one = one.compile_set_variable(id.name, line);
                    let two = two.compile_set_variable(id.name, line);
                    let one = one.op(OpCode::Pop, line);
                    let two = two.op(OpCode::Pop, line);
                    same_assign_to_elements(one, two, fuel, line, elements, i + 1);
                },
                Pattern::Object(_) => {
                    same_compile_assign_to_pattern(one, two, fuel, elem_pat, line);
                    let one = one.compile_assign_to_pattern(fuel, elem_pat, line)->Ok_0;
                    let two = two.compile_assign_to_pattern(fuel, elem_pat, line)->Ok_0;
                    same_assign_to_elements(one, two, fuel, line, elements, i + 1);
                },
                Pattern::Array(_) => {
                    same_compile_assign_to_pattern(one, two, fuel, elem_pat, line);
                    let one = one.compile_assign_to_pattern(fuel, elem_pat, line)->Ok_0;
                    let two = two.compile_assign_to_pattern(fuel, elem_pat, line)->Ok_0;
                    same_assign_to_elements(one, two, fuel, line, elements, i + 1);
                },
                _ => {
                    let one = one.op(OpCode::Pop, line);
                    let two = two.op(OpCode::Pop, line);
                    same_assign_to_elements(one, two, fuel, line, elements, i + 1);
                },
            }
        } else {
            same_assign_to_elements(one, two, fuel, line, elements, i + 1);
        }
    }
}

proof fn same_assign_iterated_elements<'p>(
    one: CState<'p>,
    two: CState<'p>,
    fuel: nat,
    elements: &'p Vec<Option<Pattern>>,
    line: u32,
)
    ensures
        alike(one, two) ==> same_end(
            one.assign_iterated_elements(fuel, elements, line),
            two.assign_iterated_elements(fuel, elements, line),
        ),
    decreases fuel, elements, elements@.len() as int + 1,
{
    broadcast use {group_steps, group_parts};

    let one = one.op(OpCode::False, line);
    let two = two.op(OpCode::False, line);
    let one = one.op(OpCode::Swap, line);
    let two = two.op(OpCode::Swap, line);
    let done_slot = one.next_slot();
    let (one, done_anon) = one.intern("__assign_iter_done__"@);
    let two = two.intern("__assign_iter_done__"@).0;
    let one = one.declare_local(done_anon);
    let two = two.declare_local(done_anon);
    let one = one.op(OpCode::Dup, line);
    let two = two.op(OpCode::Dup, line);
    let one = one.op(OpCode::GetIterator, line);
    let two = two.op(OpCode::GetIterator, line);
    same_assign_iterated(one, two, fuel, done_slot, line, elements, 0);
}

proof fn same_assign_iterated<'p>(
    one: CState<'p>,
    two: CState<'p>,
    fuel: nat,
    done_slot: u8,
    line: u32,
    elements: &'p Vec<Option<Pattern>>,
    i: int,
)
    ensures
        alike(one, two) ==> same_end(
            one.assign_iterated(fuel, done_slot, line, elements, i),
            two.assign_iterated(fuel, done_slot, line, elements, i),
        ),
    decreases fuel, elements, elements@.len() - i,
{
    broadcast use {group_steps, group_parts};

    if 0 <= i < elements@.len() {
        let elem = &elements@[i];
        let one = one.op(OpCode::Dup, line);
        let two = two.op(OpCode::Dup, line);
        let one = one.op(OpCode::IteratorNext, line);
        let two = two.op(OpCode::IteratorNext, line);
        match elem {
            None => {
                let one = one.op(OpCode::Pop, line);
                let two = two.op(OpCode::Pop, line);
                same_assign_iterated(one, two, fuel, done_slot, line, elements, i + 1);
            },
            Some(pat) => {
                let one = one.op(OpCode::Dup, line);
                let two = two.op(OpCode::Dup, line);
                let one = one.op(OpCode::IteratorDone, line);
                let two = two.op(OpCode::IteratorDone, line);
                let one = one.op(OpCode::Dup, line);
                let two = two.op(OpCode::Dup, line);
                let one = one.op_u8(OpCode::SetLocal, done_slot, line);
                let two = two.op_u8(OpCode::SetLocal, done_slot, line);
                let one = one.op(OpCode::Pop, line);
                let two = two.op(OpCode::Pop, line);
                let one = one.emit_value_or_undefined(line);
                let two = two.emit_value_or_undefined(line);
                match pat {
                    Pattern::Assignment(a) => {
                        let one = one.op(OpCode::Dup, line);
                        let two = two.op(OpCode::Dup, line);
                        let one = one.op(OpCode::Undefined, line);
                        let two = two.op(OpCode::Undefined, line);
                        let one = one.op(OpCode::StrictNe, line);
                        let two = two.op(OpCode::StrictNe, line);
                        let (one, skip) = one.jump(OpCode::JumpIfTrue, line);
                        let two = two.jump(OpCode::JumpIfTrue, line).0;
                        let one = one.op(OpCode::Pop, line);
                        let two = two.op(OpCode::Pop, line);
                        let one = one.name_default(&a.left, &a.right);
                        let two = two.name_default(&a.left, &a.right);
                        same_compile_expr(one, two, fuel, &a.right);
                        let one = one.compile_expr(fuel, &a.right)->Ok_0;
                        let two = two.compile_expr(fuel, &a.right)->Ok_0;
                        let one = one.patch(skip);
                        let two = two.patch(skip);
                        same_compile_assign_to_pattern(one, two, fuel, &a.left, line);
                        let one = one.compile_assign_to_pattern(fuel, &a.left, line)->Ok_0;
                        let two = two.compile_assign_to_pattern(fuel, &a.left, line)->Ok_0;
                        same_assign_iterated(one, two, fuel, done_slot, line, elements, i + 1);
                    },
                    _ => {
                        same_compile_assign_to_pattern(one, two, fuel, pat, line);
                        let one = one.compile_assign_to_pattern(fuel, pat, line)->Ok_0;
                        let two = two.compile_assign_to_pattern(fuel, pat, line)->Ok_0;
                        same_assign_iterated(one, two, fuel, done_slot, line, elements, i + 1);
                    },
                }
            },
        }
    }
}

proof fn same_assign_properties<'p>(
    one: CState<'p>,
    two: CState<'p>,
    fuel: nat,
    has_rest: bool,
    line: u32,
    properties: &'p Vec<ObjectPatternProperty>,
    i: int,
)
    ensures
        alike(one, two) ==> same_end(
            one.assign_properties(fuel, has_rest, line, properties, i),
            two.assign_properties(fuel, has_rest, line, properties, i),
        ),
    decreases fuel, properties, properties@.len() - i,
{
    broadcast use {group_steps, group_parts};

    if 0 <= i < properties@.len() {
        let prop = &properties@[i];
        match prop {
            ObjectPatternProperty::Property { key, value, .. } => {
                let one = one.op(OpCode::Dup, line);
                let two = two.op(OpCode::Dup, line);
                if let PropertyKey::Private(_) = key {
                    let one = one.op(OpCode::Pop, line);
                    let two = two.op(OpCode::Pop, line);
                    same_assign_properties(one, two, fuel, has_rest, line, properties, i + 1);
                } else {
                    same_compile_keyed_read(one, two, fuel, key, has_rest, line);
                    let one = one.compile_keyed_read(fuel, key, has_rest, line)->Ok_0;
                    let two = two.compile_keyed_read(fuel, key, has_rest, line)->Ok_0;
                    match value {
                        Pattern::Identifier(id) => {
                            let one = one.compile_set_variable(id.name, line);
                            let two = two.compile_set_variable(id.name, line);
                            let one = one.op(OpCode::Pop, line);
                            let two = two.op(OpCode::Pop, line);
                            same_assign_properties(
                                one,
                                two,
                                fuel,
                                has_rest,
                                line,
                                properties,
                                i + 1,
                            );
                        },
                        Pattern::Member(m) => {
                            same_compile_member_target(one, two, fuel, m, line);
                            let one = one.compile_member_target(fuel, m, line)->Ok_0;
                            let two = two.compile_member_target(fuel, m, line)->Ok_0;
                            same_assign_properties(
                                one,
                                two,
                                fuel,
                                has_rest,
                                line,
                                properties,
                                i + 1,
                            );
                        },
                        Pattern::Assignment(a) => {
                            let one = one.op(OpCode::Dup, line);
                            let two = two.op(OpCode::Dup, line);
                            let one = one.op(OpCode::Undefined, line);
                            let two = two.op(OpCode::Undefined, line);
                            let one = one.op(OpCode::StrictEq, line);
                            let two = two.op(OpCode::StrictEq, line);
                            let jump_idx = one.here();
                            let one = one.op(OpCode::JumpIfFalse, line);
                            let two = two.op(OpCode::JumpIfFalse, line);
                            let one = one.raw16(0);
                            let two = two.raw16(0);
                            let one = one.op(OpCode::Pop, line);
                            let two = two.op(OpCode::Pop, line);
                            let one = one.name_default(&a.left, &a.right);
                            let two = two.name_default(&a.left, &a.right);
                            same_compile_expr(one, two, fuel, &a.right);
                            let one = one.compile_expr(fuel, &a.right)->Ok_0;
                            let two = two.compile_expr(fuel, &a.right)->Ok_0;
                            let one = one.patch_short(jump_idx);
                            let two = two.patch_short(jump_idx);
                            match &a.left {
                                Pattern::Identifier(id) => {
                                    let one = one.compile_set_variable(id.name, line);
                                    let two = two.compile_set_variable(id.name, line);
                                    let one = one.op(OpCode::Pop, line);
                                    let two = two.op(OpCode::Pop, line);
                                    same_assign_properties(
                                        one,
                                        two,
                                        fuel,
                                        has_rest,
                                        line,
                                        properties,
                                        i + 1,
                                    );
                                },
                                Pattern::Member(_) => {
                                    same_compile_assign_to_pattern(one, two, fuel, &a.left, line);
                                    let one = one.compile_assign_to_pattern(
                                        fuel,
                                        &a.left,
                                        line,
                                    )->Ok_0;
                                    let two = two.compile_assign_to_pattern(
                                        fuel,
                                        &a.left,
                                        line,
                                    )->Ok_0;
                                    same_assign_properties(
                                        one,
                                        two,
                                        fuel,
                                        has_rest,
                                        line,
                                        properties,
                                        i + 1,
                                    );
                                },
                                Pattern::Object(_) => {
                                    same_compile_assign_to_pattern(one, two, fuel, &a.left, line);
                                    let one = one.compile_assign_to_pattern(
                                        fuel,
                                        &a.left,
                                        line,
                                    )->Ok_0;
                                    let two = two.compile_assign_to_pattern(
                                        fuel,
                                        &a.left,
                                        line,
                                    )->Ok_0;
                                    same_assign_properties(
                                        one,
                                        two,
                                        fuel,
                                        has_rest,
                                        line,
                                        properties,
                                        i + 1,
                                    );
                                },
                                Pattern::Array(_) => {
                                    same_compile_assign_to_pattern(one, two, fuel, &a.left, line);
                                    let one = one.compile_assign_to_pattern(
                                        fuel,
                                        &a.left,
                                        line,
                                    )->Ok_0;
                                    let two = two.compile_assign_to_pattern(
                                        fuel,
                                        &a.left,
                                        line,
                                    )->Ok_0;
                                    same_assign_properties(
                                        one,
                                        two,
                                        fuel,
                                        has_rest,
                                        line,
                                        properties,
                                        i + 1,
                                    );
                                },
                                _ => {
                                    let one = one.op(OpCode::Pop, line);
                                    let two = two.op(OpCode::Pop, line);
                                    same_assign_properties(
                                        one,
                                        two,
                                        fuel,
                                        has_rest,
                                        line,
                                        properties,
                                        i + 1,
                                    );
                                },
                            }
                        },
                        Pattern::Object(_) => {
                            same_compile_assign_to_pattern(one, two, fuel, value, line);
                            let one = one.compile_assign_to_pattern(fuel, value, line)->Ok_0;
                            let two = two.compile_assign_to_pattern(fuel, value, line)->Ok_0;
                            same_assign_properties(
                                one,
                                two,
                                fuel,
                                has_rest,
                                line,
                                properties,
                                i + 1,
                            );
                        },
                        Pattern::Array(_) => {
                            same_compile_assign_to_pattern(one, two, fuel, value, line);
                            let one = one.compile_assign_to_pattern(fuel, value, line)->Ok_0;
                            let two = two.compile_assign_to_pattern(fuel, value, line)->Ok_0;
                            same_assign_properties(
                                one,
                                two,
                                fuel,
                                has_rest,
                                line,
                                properties,
                                i + 1,
                            );
                        },
                        _ => {
                            let one = one.op(OpCode::Pop, line);
                            let two = two.op(OpCode::Pop, line);
                            same_assign_properties(
                                one,
                                two,
                                fuel,
                                has_rest,
                                line,
                                properties,
                                i + 1,
                            );
                        },
                    }
                }
            },
            ObjectPatternProperty::Rest(rest) => {
                if let Pattern::Identifier(id) = &rest.argument {
                    let excluded: Seq<StringId> = shape::excluded_names(properties@);
                    let one = one.op(OpCode::Dup, line);
                    let two = two.op(OpCode::Dup, line);
                    same_emit_object_rest(one, two, excluded, excluded.len() as u8, line);
                    let one = one.emit_object_rest(excluded, excluded.len() as u8, line);
                    let two = two.emit_object_rest(excluded, excluded.len() as u8, line);
                    let one = one.compile_set_variable(id.name, line);
                    let two = two.compile_set_variable(id.name, line);
                    let one = one.op(OpCode::Pop, line);
                    let two = two.op(OpCode::Pop, line);
                    same_assign_properties(one, two, fuel, has_rest, line, properties, i + 1);
                } else {
                    same_assign_properties(one, two, fuel, has_rest, line, properties, i + 1);
                }
            },
        }
    }
}

proof fn same_emit_object_rest<'p>(
    one: CState<'p>,
    two: CState<'p>,
    excluded: Seq<StringId>,
    count: u8,
    line: u32,
)
    ensures
        alike(one, two) ==> alike(
            one.emit_object_rest(excluded, count, line),
            two.emit_object_rest(excluded, count, line),
        ),
{
    broadcast use {group_steps, group_parts};

    let one = one.byte(OpCode::ObjectRest.byte(), line);
    let two = two.byte(OpCode::ObjectRest.byte(), line);
    let one = one.raw(count);
    let two = two.raw(count);
    same_emit_excluded(one, two, excluded, 0);
}

proof fn same_emit_excluded<'p>(one: CState<'p>, two: CState<'p>, names: Seq<StringId>, i: int)
    ensures
        alike(one, two) ==> alike(one.emit_excluded(names, i), two.emit_excluded(names, i)),
    decreases names.len() - i,
{
    broadcast use {group_steps, group_parts};

    if 0 <= i < names.len() {
        let name = names[i];
        let (one, idx) = one.make_string_constant(name);
        let two = two.make_string_constant(name).0;
        let one = one.raw16(idx);
        let two = two.raw16(idx);
        same_emit_excluded(one, two, names, i + 1);
    }
}

/// The code that is emitted for an expression, its constants and all else but the lines do
/// not depend on the lines noted before, nor does a failure.
pub proof fn law_lines_unread<'p>(s: CState<'p>, t: CState<'p>, fuel: nat, expr: &'p Expression)
    requires
        alike(s, t),
    ensures
        same_end(s.compile_expr(fuel, expr), t.compile_expr(fuel, expr)),
{
    same_compile_expr(s, t, fuel, expr);
}
/// Reading or assigning a variable keeps states alike, whatever the lines, and so do what
/// the compiler knows of a name and of the `with` bodies around.
pub proof fn law_steps_alike<'p>(
    s: CState<'p>,
    t: CState<'p>,
    name: StringId,
    line: u32,
    other: u32,
)
    requires
        alike(s, t),
    ensures
        alike(s.compile_get_variable(name, line), t.compile_get_variable(name, other)),
        alike(s.compile_set_variable(name, line), t.compile_set_variable(name, other)),
        s.with_depth == t.with_depth,
        s.name_is(name, "undefined"@) == t.name_is(name, "undefined"@),
{
    broadcast use {group_steps, group_parts};

    reveal(alike);
}

/// Emitting an opcode keeps states alike, whatever the lines.
pub proof fn law_op_alike<'p>(s: CState<'p>, t: CState<'p>, op: OpCode, line: u32, other: u32)
    requires
        alike(s, t),
    ensures
        alike(s.op(op, line), t.op(op, other)),
{
    broadcast use group_steps;

}

} // verus!
