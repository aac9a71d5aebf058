//! What holds of the compiler as a whole.

use vstd::prelude::*;
use crate::ast::node::{
    AssignmentExpression, AssignmentOperator, AssignmentTarget, BinaryExpression, Expression,
    Identifier,
};
use crate::compiler::alike;
use crate::compiler::chunk;
use crate::compiler::chunk::{ChunkView, UpvalueDescriptor};
use crate::compiler::compiler::state;
use crate::compiler::compiler::state::{CState, Failure};
use crate::compiler::disassemble;
use crate::compiler::disassemble::Layout;
use crate::compiler::opcode::OpCode;
use crate::compiler::shape;

verus! {

proof fn lemma_read<'p>(st: CState<'p>, fuel: nat, expr: &'p Expression, id: Identifier)
    requires
        *expr == Expression::Identifier(id),
        !st.name_is(id.name, "undefined"@),
    ensures
        st.compile_expr(fuel, expr) == Ok::<CState<'p>, Failure>(
            st.compile_get_variable(id.name, id.span.start),
        ),
{
}

proof fn lemma_operation<'p>(
    st: CState<'p>,
    fuel: nat,
    expr: &'p Expression,
    b: &'p BinaryExpression,
    id: Identifier,
)
    requires
        *expr == Expression::Binary(Box::new(*b)),
        b.left == Expression::Identifier(id),
        shape::binary_op(b.operator) != OpCode::In,
        !st.name_is(id.name, "undefined"@),
    ensures
        st.compile_expr(fuel, expr) == match st.compile_get_variable(
            id.name,
            id.span.start,
        ).compile_expr(fuel, &b.right) {
            Ok(end) => Ok(end.op(shape::binary_op(b.operator), b.span.start)),
            Err(e) => Err(e),
        },
{
    lemma_read(st, fuel, &b.left, id);
    assert(st.compile_expr(fuel, expr) == st.compile_binary(fuel, b));
}

/// Outside of `with` bodies, a compound assignment to a variable compiles to what the plain
/// assignment of the operation to it compiles to, wherever the two stand in the source and
/// whatever lines were noted before: the same code and constants and all else but the lines,
/// or the same failure. The variable is read, the right-hand side evaluated, the operation
/// applied, and the variable assigned once.
pub proof fn law_compound_assignment<'p>(
    s: CState<'p>,
    t: CState<'p>,
    fuel: nat,
    compound: &'p AssignmentExpression,
    plain: &'p AssignmentExpression,
    operation: &'p BinaryExpression,
    target: Identifier,
    assigned: Identifier,
    read: Identifier,
)
    requires
        alike::alike(s, t),
        s.with_depth == 0,
        !s.name_is(target.name, "undefined"@),
        assigned.name == target.name,
        read.name == target.name,
        compound.left == AssignmentTarget::Identifier(target),
        shape::compound_op(compound.operator) == Some(shape::binary_op(operation.operator)),
        plain.left == AssignmentTarget::Identifier(assigned),
        plain.operator == AssignmentOperator::Assign,
        plain.right == Expression::Binary(Box::new(*operation)),
        operation.left == Expression::Identifier(read),
        operation.right == compound.right,
    ensures
        ({
            let a = s.compile_assignment(fuel, compound);
            let b = t.compile_assignment(fuel, plain);
            &&& alike::same_end(a, b)
            &&& a is Ok <==> b is Ok
            &&& a is Ok ==> a->Ok_0.chunk.code == b->Ok_0.chunk.code
            &&& a is Ok ==> a->Ok_0.chunk.constants == b->Ok_0.chunk.constants
            &&& a is Err ==> a == b
        }),
{
    reveal(CState::with_level);
    alike::law_steps_alike(s, t, target.name, compound.span.start, read.span.start);
    lemma_operation(t, fuel, &plain.right, operation, read);
    let s1 = s.compile_get_variable(target.name, compound.span.start);
    let t1 = t.compile_get_variable(target.name, read.span.start);
    alike::law_lines_unread(s1, t1, fuel, &compound.right);
    assert(s.compile_assignment(fuel, compound) == s.assign_identifier(
        fuel,
        target.name,
        compound.operator,
        &compound.right,
        compound.span.start,
    ));
    assert(t.compile_assignment(fuel, plain) == t.assign_identifier(
        fuel,
        target.name,
        plain.operator,
        &plain.right,
        plain.span.start,
    ));
    match (s1.compile_expr(fuel, &compound.right), t1.compile_expr(fuel, &compound.right)) {
        (Ok(s2), Ok(t2)) => {
            let op = shape::binary_op(operation.operator);
            alike::law_op_alike(s2, t2, op, compound.span.start, operation.span.start);
            let s3 = s2.op(op, compound.span.start);
            let t3 = t2.op(op, operation.span.start);
            alike::law_steps_alike(s3, t3, target.name, compound.span.start, plain.span.start);
        },
        _ => {},
    }
    reveal(alike::alike);
}

proof fn lemma_captures_len(
    c: ChunkView,
    descriptors: Seq<UpvalueDescriptor>,
    from: nat,
    line: u32,
)
    requires
        from <= descriptors.len(),
    ensures
        state::captures_emitted(c, descriptors, from, line).code.len() == c.code.len() + 3 * (
        descriptors.len() - from),
        state::captures_emitted(c, descriptors, from, line).child_chunks == c.child_chunks,
        forall|i: int|
            0 <= i < c.code.len() ==> (#[trigger] state::captures_emitted(
                c,
                descriptors,
                from,
                line,
            ).code[i]) == c.code[i],
    decreases descriptors.len() - from,
{
    if from < descriptors.len() {
        let d = descriptors[from as int];
        let flag = if d.is_local {
            1u8
        } else {
            0u8
        };
        let next = c.byte(flag, line).byte((d.index >> 8) as u8, line).byte(
            (d.index & 0xFF) as u8,
            line,
        );
        lemma_captures_len(next, descriptors, from + 1, line);
    }
}

/// A closure is listed with all that the compiler emits for it: the next instruction of the
/// listing stands right behind the capture list.
pub proof fn law_closure_listed<'p>(
    st: CState<'p>,
    child: ChunkView,
    line: u32,
    table: Seq<Seq<char>>,
)
    requires
        st.chunk.child_chunks.len() <= u16::MAX,
        child.upvalue_count == child.upvalue_descriptors.len(),
    ensures
        ({
            let end = st.emit_closure(child, line).chunk;
            let at = st.chunk.code.len() as int;
            disassemble::operands(end, at, Layout::Captures, table) matches Some((_, next)) && next
                == end.code.len()
        }),
{
    reveal(CState::emit_closure);
    reveal(disassemble::operands);
    let index = st.chunk.child_chunks.len() as u16;
    let with_child = ChunkView {
        child_chunks: st.chunk.child_chunks.push(child),
        ..st.chunk
    };
    let head = with_child.op_u16(OpCode::Closure, index, line);
    let at = st.chunk.code.len() as int;
    lemma_captures_len(head, child.upvalue_descriptors, 0, line);
    chunk::law_read_emitted_u16(with_child, OpCode::Closure, index, line);
    let end = st.emit_closure(child, line).chunk;
    assert(end.code[at + 1] == head.code[at + 1]);
    assert(end.code[at + 2] == head.code[at + 2]);
    assert(disassemble::half(end, at + 1) == index);
}

} // verus!
