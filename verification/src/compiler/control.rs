//! Where control goes in the code of conditions, loops and branches.

use vstd::prelude::*;
use crate::ast::node::{
    ConditionalExpression, DoWhileStatement, Expression, IfStatement, LogicalExpression,
    LogicalOperator, Statement, WhileStatement,
};
use crate::compiler::chunk;
use crate::compiler::chunk::{ChunkView, FLAG_SCRIPT};
use crate::compiler::compiler::state;
use crate::compiler::compiler::state::{CState, Failure};
use crate::compiler::execution;
use crate::compiler::execution::{Datum, Run};
use crate::compiler::kept;
use crate::compiler::kept::Floor;
use crate::compiler::kept_expressions;
use crate::compiler::kept_statements;
use crate::compiler::opcode::OpCode;
use crate::util::interner::StringId;

verus! {

/// Whether at a position a value is taken off the stack, and control goes to one position
/// where it counts as true and to another where it counts as false.
pub open spec fn branches(c: ChunkView, at: int, yes: int, no: int) -> bool {
    forall|r: Run|
        r.ip == at && r.stack.len() > 0 && execution::truth(r.stack.last()) is Some ==> (
        #[trigger] execution::step(c, r)) == Some(
            (Run {
                ip: if execution::truth(r.stack.last()) == Some(true) {
                    yes
                } else {
                    no
                },
                stack: r.stack.drop_last(),
                ..r
            }),
        )
}

/// Whether control goes from a position to another whatever is on the stack.
pub open spec fn leads(c: ChunkView, at: int, to: int) -> bool {
    forall|r: Run| r.ip == at ==> (#[trigger] execution::step(c, r)) == Some((Run { ip: to, ..r }))
}

/// Whether at a position the value on top of the stack is dropped.
pub open spec fn drops(c: ChunkView, at: int) -> bool {
    forall|r: Run|
        r.ip == at && r.stack.len() > 0 ==> (#[trigger] execution::step(c, r)) == Some(
            (Run { ip: at + 1, stack: r.stack.drop_last(), ..r }),
        )
}

/// Whether nothing stands between two positions but, at most, code that resets the completion
/// value.
pub open spec fn resets(c: ChunkView, from: int, to: int) -> bool {
    from == to || forall|r: Run|
        #![trigger execution::step(c, r)]
        r.ip == from ==> execution::step(c, r) == Some(
            (Run { ip: from + 1, stack: r.stack.push(Datum::Undefined), ..r }),
        ) && execution::step(
            c,
            (Run { ip: from + 1, stack: r.stack.push(Datum::Undefined), ..r }),
        ) == Some((Run { ip: to, completion: Datum::Undefined, ..r }))
}

/// Whether a jump that waits for its target has its offset at a position.
pub open spec fn waits<'p>(st: CState<'p>, at: int) -> bool {
    exists|k: int, j: int|
        0 <= k < st.loops.len() && 0 <= j && (j < st.loops[k].break_patches.len() && (
        #[trigger] st.loops[k].break_patches[j] == at || st.loops[k].break_patches[j] + 1 == at))
}

/// Whether a deferred continue has its offset at a position.
pub open spec fn waits_on<'p>(st: CState<'p>, at: int) -> bool {
    exists|k: int, j: int|
        0 <= k < st.loops.len() && 0 <= j && (j < st.loops[k].continue_patches.len() && (
        #[trigger] st.loops[k].continue_patches[j] == at || st.loops[k].continue_patches[j] + 1
            == at))
}

/// Whether an expression is compiled from one state to another.
pub open spec fn expr_from<'p>(
    a: CState<'p>,
    b: CState<'p>,
    fuel: nat,
    expr: &'p Expression,
) -> bool {
    a.compile_expr(fuel, expr) == Ok::<CState<'p>, Failure>(b)
}

/// Whether a statement is compiled from one state to another.
pub open spec fn stmt_from<'p>(
    a: CState<'p>,
    b: CState<'p>,
    fuel: nat,
    stmt: &'p Statement,
) -> bool {
    a.compile_statement(fuel, stmt) == Ok::<CState<'p>, Failure>(b)
}

/// Whether the code of an expression stands between two positions.
pub open spec fn expr_between<'p>(
    c: ChunkView,
    fuel: nat,
    expr: &'p Expression,
    from: int,
    to: int,
) -> bool {
    exists|a: CState<'p>, b: CState<'p>| #[trigger]
        expr_from(a, b, fuel, expr) && a.chunk.code.len() == from && b.chunk.code.len() == to
            && from <= to <= c.code.len() && forall|i: int|
            from <= i < to ==> #[trigger] c.code[i] == b.chunk.code[i]
}

/// Whether the code of a statement stands between two positions. Its jumps out of the
/// statement may lead anywhere yet.
pub open spec fn stmt_between<'p>(
    c: ChunkView,
    fuel: nat,
    stmt: &'p Statement,
    from: int,
    to: int,
) -> bool {
    exists|a: CState<'p>, b: CState<'p>| #[trigger]
        stmt_from(a, b, fuel, stmt) && a.chunk.code.len() == from && b.chunk.code.len() == to
            && from <= to <= c.code.len() && forall|i: int|
            from <= i < to ==> #[trigger] c.code[i] == b.chunk.code[i] || waits(b, i) || waits_on(
                b,
                i,
            )
}

/// The floor that a state stands on.
pub open spec fn floor_of<'p>(st: CState<'p>) -> Floor {
    Floor {
        code: st.chunk.code,
        loops: st.loops.len() as int,
        marks: st.marks.len() as int,
    }
}

/// Whether a state leads to another with its code unchanged.
pub open spec fn builds<'p>(a: CState<'p>, b: CState<'p>) -> bool {
    &&& a.chunk.code.len() <= b.chunk.code.len()
    &&& forall|i: int|
        0 <= i < a.chunk.code.len() ==> #[trigger] b.chunk.code[i] == a.chunk.code[i]
    &&& a.chunk.jump_overflow ==> b.chunk.jump_overflow
    &&& b.loops.len() == a.loops.len()
    &&& b.marks == a.marks
}

pub(crate) proof fn lemma_expr<'p>(st: CState<'p>, fuel: nat, expr: &'p Expression)
    requires
        kept::fit(st),
        st.compile_expr(fuel, expr) is Ok,
    ensures
        ({
            let e = st.compile_expr(fuel, expr)->Ok_0;
            &&& st.chunk.code.len() <= e.chunk.code.len()
            &&& e.marks == st.marks
            &&& e.loops == st.loops
            &&& e.chunk.code.len() <= usize::MAX ==> builds(st, e)
        }),
{
    reveal(kept::kept);
    kept_expressions::pass_compile_expr(floor_of(st), st, fuel, expr);
}

/// Compiling a statement builds on the code, and the jumps that it leaves in the loops from a
/// number on lie in its own code, if there were none before.
pub(crate) proof fn lemma_stmt<'p>(st: CState<'p>, loops: int, fuel: nat, stmt: &'p Statement)
    requires
        kept::fit(st),
        0 <= loops <= st.loops.len(),
        forall|k: int| #![trigger st.loops[k]]
            loops <= k < st.loops.len() ==> st.loops[k].break_patches.len() == 0
                && st.loops[k].continue_patches.len() == 0,
        st.compile_statement(fuel, stmt) is Ok,
    ensures
        ({
            let e = st.compile_statement(fuel, stmt)->Ok_0;
            &&& st.chunk.code.len() <= e.chunk.code.len()
            &&& e.marks == st.marks
            &&& e.loops.len() == st.loops.len()
            &&& e.chunk.code.len() <= usize::MAX ==> builds(st, e)
            &&& e.chunk.code.len() <= usize::MAX ==> forall|k: int| #![trigger e.loops[k]]
                loops <= k < e.loops.len() ==> kept::all_between(
                    e.loops[k].break_patches,
                    st.chunk.code.len() as int,
                    e.chunk.code.len() as int,
                ) && kept::all_between(
                    e.loops[k].continue_patches,
                    st.chunk.code.len() as int,
                    e.chunk.code.len() as int,
                )
        }),
{
    reveal(kept::kept);
    let floor = Floor { code: st.chunk.code, loops, marks: st.marks.len() as int };
    kept_statements::pass_compile_statement(floor, st, fuel, stmt);
}

pub(crate) proof fn lemma_op<'p>(st: CState<'p>, op: OpCode, line: u32)
    ensures
        builds(st, st.op(op, line)),
        st.op(op, line).chunk.code == st.chunk.code.push(op.byte()),
        st.op(op, line) == (CState { chunk: st.op(op, line).chunk, ..st }),
        st.op(op, line).chunk.constants == st.chunk.constants,
{
    reveal(CState::op);
}

pub(crate) proof fn lemma_jump<'p>(st: CState<'p>, op: OpCode, line: u32)
    ensures
        ({
            let (e, at) = st.jump(op, line);
            &&& builds(st, e)
            &&& e.chunk.code.len() == st.chunk.code.len() + 3
            &&& e.chunk.code[st.chunk.code.len() as int] == op.byte()
            &&& e.chunk.code.len() <= usize::MAX ==> at == st.chunk.code.len() + 1
            &&& e.loops == st.loops
        }),
{
    reveal(CState::jump);
}

/// A patched jump leads to the end of the code, if its distance fits.
pub(crate) proof fn lemma_patch<'p>(st: CState<'p>, pos: usize)
    ensures
        ({
            let e = st.patch(pos);
            &&& e.chunk.code.len() == st.chunk.code.len()
            &&& forall|i: int|
                0 <= i < st.chunk.code.len() && i != pos && i != pos + 1
                    ==> #[trigger] e.chunk.code[i] == st.chunk.code[i]
            &&& st.chunk.jump_overflow ==> e.chunk.jump_overflow
            &&& pos + 2 <= st.chunk.code.len() && !e.chunk.jump_overflow ==> execution::jump_to(
                e.chunk,
                pos - 1,
            ) == st.chunk.code.len()
            &&& e.loops == st.loops
            &&& e.marks == st.marks
            &&& e.chunk.constants == st.chunk.constants
        }),
{
    reveal(CState::patch);
    if pos + 2 <= st.chunk.code.len() && !st.patch(pos).chunk.jump_overflow {
        chunk::law_patched_jump_lands(st.chunk, pos as nat);
    }
}

/// A jump back leads to its start, if its distance fits.
pub(crate) proof fn lemma_back<'p>(st: CState<'p>, start: usize, line: u32)
    requires
        start <= st.chunk.code.len(),
    ensures
        ({
            let e = st.back(start, line);
            let n = st.chunk.code.len() as int;
            &&& builds(st, e)
            &&& e.loops == st.loops
            &&& e.chunk.code.len() == n + 3
            &&& e.chunk.code[n] == OpCode::Loop.byte()
            &&& !e.chunk.jump_overflow ==> n + 3 - execution::operand(e.chunk, n) == start
        }),
{
    reveal(CState::back);
    if !st.back(start, line).chunk.jump_overflow {
        chunk::law_loop_returns(st.chunk, start as nat, line);
    }
}

/// Patching changes the offsets of the jumps and nothing else.
proof fn lemma_patched_only(c: ChunkView, patches: Seq<usize>, from: nat)
    ensures
        ({
            let e = state::patched_all(c, patches, from);
            &&& e.code.len() == c.code.len()
            &&& c.jump_overflow ==> e.jump_overflow
            &&& forall|i: int|
                0 <= i < c.code.len() && (forall|j: int|
                    from <= j < patches.len() ==> #[trigger] patches[j] != i && patches[j] + 1 != i)
                    ==> #[trigger] e.code[i] == c.code[i]
        }),
    decreases patches.len() - from,
{
    if from < patches.len() {
        let pos = patches[from as int];
        let next = if pos + 2 <= c.code.len() {
            c.patch(pos as nat)
        } else {
            c
        };
        lemma_patched_only(next, patches, from + 1);
    }
}

pub(crate) proof fn lemma_reset<'p>(st: CState<'p>, line: u32)
    ensures
        ({
            let e = st.emit_completion_reset(line);
            let n = st.chunk.code.len() as int;
            &&& builds(st, e)
            &&& e.loops == st.loops
            &&& if st.has_flag(FLAG_SCRIPT) {
                e.chunk.code.len() == n + 2 && e.chunk.code[n] == OpCode::Undefined.byte()
                    && e.chunk.code[n + 1] == OpCode::SetCompletion.byte()
            } else {
                e == st
            }
        }),
{
    lemma_op(st, OpCode::Undefined, line);
    lemma_op(st.op(OpCode::Undefined, line), OpCode::SetCompletion, line);
}

pub(crate) proof fn lemma_resets(c: ChunkView, at: int)
    requires
        0 <= at,
        at + 2 <= c.code.len(),
        c.code[at] == OpCode::Undefined.byte(),
        c.code[at + 1] == OpCode::SetCompletion.byte(),
    ensures
        resets(c, at, at + 2),
{
    reveal(execution::performed);
    execution::lemma_instruction(c, at, OpCode::Undefined);
    execution::lemma_instruction(c, at + 1, OpCode::SetCompletion);
    assert forall|r: Run| #![trigger execution::step(c, r)] r.ip == at implies execution::step(c, r)
        == Some((Run { ip: at + 1, stack: r.stack.push(Datum::Undefined), ..r }))
        && execution::step(c, (Run { ip: at + 1, stack: r.stack.push(Datum::Undefined), ..r }))
        == Some((Run { ip: at + 2, completion: Datum::Undefined, ..r })) by {
        assert(r.stack.push(Datum::Undefined).drop_last() =~= r.stack);
    }
}

pub(crate) proof fn lemma_branches(c: ChunkView, at: int)
    requires
        0 <= at,
        at + 3 <= c.code.len(),
    ensures
        c.code[at] == OpCode::JumpIfFalse.byte() ==> branches(
            c,
            at,
            at + 3,
            execution::jump_to(c, at),
        ),
        c.code[at] == OpCode::JumpIfTrue.byte() ==> branches(
            c,
            at,
            execution::jump_to(c, at),
            at + 3,
        ),
        c.code[at] == OpCode::Jump.byte() ==> leads(c, at, execution::jump_to(c, at)),
        c.code[at] == OpCode::Loop.byte() ==> leads(c, at, at + 3 - execution::operand(c, at)),
{
    reveal(execution::performed);
    if c.code[at] == OpCode::JumpIfFalse.byte() {
        execution::lemma_instruction(c, at, OpCode::JumpIfFalse);
    }
    if c.code[at] == OpCode::JumpIfTrue.byte() {
        execution::lemma_instruction(c, at, OpCode::JumpIfTrue);
    }
    if c.code[at] == OpCode::Jump.byte() {
        execution::lemma_instruction(c, at, OpCode::Jump);
    }
    if c.code[at] == OpCode::Loop.byte() {
        execution::lemma_instruction(c, at, OpCode::Loop);
    }
}

pub(crate) proof fn lemma_drops(c: ChunkView, at: int)
    requires
        0 <= at < c.code.len(),
        c.code[at] == OpCode::Pop.byte(),
    ensures
        drops(c, at),
{
    reveal(execution::performed);
    execution::lemma_instruction(c, at, OpCode::Pop);
}

/// Where control goes in a conditional expression: behind the test, which ends at `tested`, a
/// true value leads into the first branch and a false one into the second; behind the first
/// branch, which ends at `done`, control goes behind the whole.
pub open spec fn conditional_shape<'p>(
    c: ChunkView,
    fuel: nat,
    x: &'p ConditionalExpression,
    from: int,
    tested: int,
    done: int,
    to: int,
) -> bool {
    &&& expr_between(c, fuel, &x.test, from, tested)
    &&& expr_between(c, fuel, &x.consequent, tested + 3, done)
    &&& expr_between(c, fuel, &x.alternate, done + 3, to)
    &&& branches(c, tested, tested + 3, done + 3)
    &&& leads(c, done, to)
}

/// A conditional expression evaluates its test, and just the branch that the test chooses.
pub proof fn law_conditional<'p>(st: CState<'p>, fuel: nat, x: &'p ConditionalExpression)
    requires
        kept::fit(st),
        st.compile_conditional(fuel, x) matches Ok(e) && e.chunk.code.len() <= usize::MAX
            && !e.chunk.jump_overflow,
    ensures
        ({
            let e = st.compile_conditional(fuel, x)->Ok_0.chunk;
            exists|tested: int, done: int| #[trigger]
                conditional_shape(
                    e,
                    fuel,
                    x,
                    st.chunk.code.len() as int,
                    tested,
                    done,
                    e.code.len() as int,
                )
        }),
{
    let line = x.span.start;
    let e = st.compile_conditional(fuel, x)->Ok_0;
    let b = st.compile_expr(fuel, &x.test)->Ok_0;
    let (c, first) = b.jump(OpCode::JumpIfFalse, line);
    lemma_jump(b, OpCode::JumpIfFalse, line);
    let d = c.compile_expr(fuel, &x.consequent)->Ok_0;
    let (g, second) = d.jump(OpCode::Jump, line);
    lemma_jump(d, OpCode::Jump, line);
    let h = g.patch(first);
    let k = h.compile_expr(fuel, &x.alternate)->Ok_0;
    assert(e == k.patch(second));
    lemma_expr(st, fuel, &x.test);
    lemma_expr(c, fuel, &x.consequent);
    lemma_patch(g, first);
    lemma_expr(h, fuel, &x.alternate);
    lemma_patch(k, second);
    let tested = b.chunk.code.len() as int;
    let done = d.chunk.code.len() as int;
    lemma_branches(e.chunk, tested);
    lemma_branches(e.chunk, done);
    assert(expr_from(st, b, fuel, &x.test));
    assert(expr_from(c, d, fuel, &x.consequent));
    assert(expr_from(h, k, fuel, &x.alternate));
    assert(conditional_shape(
        e.chunk,
        fuel,
        x,
        st.chunk.code.len() as int,
        tested,
        done,
        e.chunk.code.len() as int,
    ));
}

/// Whether a value ends a short-circuit operation: a false one `&&`, a true one `||`, one that
/// is neither `undefined` nor `null` `??`. Of some values it is open.
pub open spec fn short(operator: LogicalOperator, d: Datum) -> Option<bool> {
    match operator {
        LogicalOperator::And => match execution::truth(d) {
            Some(t) => Some(!t),
            None => None,
        },
        LogicalOperator::Or => execution::truth(d),
        LogicalOperator::NullishCoalescing => Some(!execution::nullish(d)),
    }
}

/// Where control goes in a short-circuit operation: behind the first operand, which ends at
/// `tested`, a value that ends the operation stays on the stack and control goes behind the
/// whole; any other is dropped and the second operand evaluated.
pub open spec fn logical_shape<'p>(
    c: ChunkView,
    fuel: nat,
    l: &'p LogicalExpression,
    from: int,
    tested: int,
    rest: int,
    to: int,
) -> bool {
    &&& expr_between(c, fuel, &l.left, from, tested)
    &&& expr_between(c, fuel, &l.right, rest, to)
    &&& forall|r: Run| #[trigger] decides(c, l.operator, tested, rest, to, r)
}

/// Whether a short-circuit operation goes on as it should from a state behind its first
/// operand.
pub open spec fn decides(
    c: ChunkView,
    operator: LogicalOperator,
    tested: int,
    rest: int,
    to: int,
    r: Run,
) -> bool {
    r.ip == tested && r.stack.len() > 0 && short(operator, r.stack.last()) is Some
        ==> execution::reaches(
        c,
        r,
        if short(operator, r.stack.last()) == Some(true) {
            (Run { ip: to, ..r })
        } else {
            (Run { ip: rest, stack: r.stack.drop_last(), ..r })
        },
    )
}

/// A short-circuit operation evaluates its second operand just where the first does not
/// decide, and leaves the value of the operand that decided.
#[verifier::spinoff_prover]
pub proof fn law_logical<'p>(st: CState<'p>, fuel: nat, l: &'p LogicalExpression)
    requires
        kept::fit(st),
        st.compile_logical(fuel, l) matches Ok(e) && e.chunk.code.len() <= usize::MAX
            && !e.chunk.jump_overflow,
    ensures
        ({
            let e = st.compile_logical(fuel, l)->Ok_0.chunk;
            exists|tested: int, rest: int| #[trigger]
                logical_shape(
                    e,
                    fuel,
                    l,
                    st.chunk.code.len() as int,
                    tested,
                    rest,
                    e.code.len() as int,
                )
        }),
{
    let line = l.span.start;
    let e = st.compile_logical(fuel, l)->Ok_0;
    let b = st.compile_expr(fuel, &l.left)->Ok_0;
    lemma_expr(st, fuel, &l.left);
    let tested = b.chunk.code.len() as int;
    let to = e.chunk.code.len() as int;
    assert(expr_from(st, b, fuel, &l.left));
    reveal(execution::performed);
    if l.operator == LogicalOperator::NullishCoalescing {
        let (c, first) = b.jump(OpCode::JumpIfNullishPeek, line);
        lemma_jump(b, OpCode::JumpIfNullishPeek, line);
        let (d, second) = c.jump(OpCode::Jump, line);
        lemma_jump(c, OpCode::Jump, line);
        let g = d.patch(first);
        lemma_patch(d, first);
        let h = g.op(OpCode::Pop, line);
        lemma_op(g, OpCode::Pop, line);
        let k = h.compile_expr(fuel, &l.right)->Ok_0;
        lemma_expr(h, fuel, &l.right);
        lemma_patch(k, second);
        assert(e == k.patch(second));
        let rest = h.chunk.code.len() as int;
        assert(expr_from(h, k, fuel, &l.right));
        execution::lemma_instruction(e.chunk, tested, OpCode::JumpIfNullishPeek);
        execution::lemma_instruction(e.chunk, tested + 3, OpCode::Jump);
        execution::lemma_instruction(e.chunk, tested + 6, OpCode::Pop);
        assert forall|r: Run| #[trigger]
            decides(e.chunk, l.operator, tested, rest, to, r) by {
            if r.ip == tested && r.stack.len() > 0 && short(l.operator, r.stack.last()) is Some {
            execution::lemma_here(e.chunk, r);
            let ip = if execution::nullish(r.stack.last()) {
                tested + 6
            } else {
                tested + 3
            };
            let next = Run { ip, ..r };
            execution::lemma_onward(e.chunk, r, r, next);
            if execution::nullish(r.stack.last()) {
                execution::lemma_onward(
                    e.chunk,
                    r,
                    next,
                    Run { ip: rest, stack: r.stack.drop_last(), ..r },
                );
            } else {
                execution::lemma_onward(e.chunk, r, next, Run { ip: to, ..r });
            }
            }
        }
        assert(logical_shape(e.chunk, fuel, l, st.chunk.code.len() as int, tested, rest, to));
    } else {
        let op = if l.operator == LogicalOperator::And {
            OpCode::JumpIfFalsePeek
        } else {
            OpCode::JumpIfTruePeek
        };
        let (c, first) = b.jump(op, line);
        lemma_jump(b, op, line);
        let h = c.op(OpCode::Pop, line);
        lemma_op(c, OpCode::Pop, line);
        let k = h.compile_expr(fuel, &l.right)->Ok_0;
        lemma_expr(h, fuel, &l.right);
        lemma_patch(k, first);
        assert(e == k.patch(first));
        let rest = h.chunk.code.len() as int;
        assert(expr_from(h, k, fuel, &l.right));
        execution::lemma_instruction(e.chunk, tested, op);
        execution::lemma_instruction(e.chunk, tested + 3, OpCode::Pop);
        assert forall|r: Run| #[trigger]
            decides(e.chunk, l.operator, tested, rest, to, r) by {
            if r.ip == tested && r.stack.len() > 0 && short(l.operator, r.stack.last()) is Some {
            execution::lemma_here(e.chunk, r);
            if short(l.operator, r.stack.last()) == Some(true) {
                execution::lemma_onward(e.chunk, r, r, Run { ip: to, ..r });
            } else {
                let next = Run { ip: tested + 3, ..r };
                execution::lemma_onward(e.chunk, r, r, next);
                execution::lemma_onward(
                    e.chunk,
                    r,
                    next,
                    Run { ip: rest, stack: r.stack.drop_last(), ..r },
                );
            }
            }
        }
        assert(logical_shape(e.chunk, fuel, l, st.chunk.code.len() as int, tested, rest, to));
    }
}

/// Where control goes in an if statement: behind the test, which ends at `tested`, a true
/// value leads into the first statement, which ends at `done`, and a false one to `no`, where
/// the second statement stands if there is one. From either control goes behind the whole.
pub open spec fn if_shape<'p>(
    c: ChunkView,
    fuel: nat,
    s: &'p IfStatement,
    from: int,
    tested: int,
    yes: int,
    done: int,
    no: int,
    other: int,
    to: int,
) -> bool {
    &&& expr_between(c, fuel, &s.test, from, tested)
    &&& branches(c, tested, tested + 3, no)
    &&& resets(c, tested + 3, yes)
    &&& stmt_between(c, fuel, &s.consequent, yes, done)
    &&& done == to || leads(c, done, to)
    &&& resets(c, no, other)
    &&& match &s.alternate {
        Some(alternate) => stmt_between(c, fuel, alternate, other, to),
        None => other == to,
    }
}

/// An if statement evaluates its test and runs just the statement that the test chooses.
#[verifier::spinoff_prover]
pub proof fn law_if<'p>(st: CState<'p>, fuel: nat, s: &'p IfStatement)
    requires
        kept::fit(st),
        st.compile_if(fuel, s) matches Ok(e) && e.chunk.code.len() <= usize::MAX
            && !e.chunk.jump_overflow,
    ensures
        ({
            let e = st.compile_if(fuel, s)->Ok_0.chunk;
            exists|tested: int, yes: int, done: int, no: int, other: int| #[trigger]
                if_shape(
                    e,
                    fuel,
                    s,
                    st.chunk.code.len() as int,
                    tested,
                    yes,
                    done,
                    no,
                    other,
                    e.code.len() as int,
                )
        }),
{
    let line = s.span.start;
    let e = st.compile_if(fuel, s)->Ok_0;
    let from = st.chunk.code.len() as int;
    let to = e.chunk.code.len() as int;
    let b = st.compile_expr(fuel, &s.test)->Ok_0;
    lemma_expr(st, fuel, &s.test);
    let (c, first) = b.jump(OpCode::JumpIfFalse, line);
    lemma_jump(b, OpCode::JumpIfFalse, line);
    let d = c.emit_completion_reset(line);
    lemma_reset(c, line);
    let f = d.compile_statement(fuel, &s.consequent)->Ok_0;
    lemma_stmt(d, d.loops.len() as int, fuel, &s.consequent);
    let tested = b.chunk.code.len() as int;
    let yes = d.chunk.code.len() as int;
    let done = f.chunk.code.len() as int;
    assert(expr_from(st, b, fuel, &s.test));
    assert(stmt_from(d, f, fuel, &s.consequent));
    let (g, second) = f.jump(OpCode::Jump, line);
    lemma_jump(f, OpCode::Jump, line);
    let h = g.patch(first);
    lemma_patch(g, first);
    let k = h.emit_completion_reset(line);
    lemma_reset(h, line);
    match &s.alternate {
        Some(alternate) => {
            let l = k.compile_statement(fuel, alternate)->Ok_0;
            lemma_stmt(k, k.loops.len() as int, fuel, alternate);
            lemma_patch(l, second);
            assert(e == l.patch(second));
            assert(stmt_from(k, l, fuel, alternate));
            lemma_branches(e.chunk, tested);
            lemma_branches(e.chunk, done);
            if yes > tested + 3 {
                lemma_resets(e.chunk, tested + 3);
            }
            let other = k.chunk.code.len() as int;
            if other > done + 3 {
                lemma_resets(e.chunk, done + 3);
            }
            assert(if_shape(e.chunk, fuel, s, from, tested, yes, done, done + 3, other, to));
        },
        None => {
            if st.has_flag(FLAG_SCRIPT) {
                lemma_patch(k, second);
                assert(e == k.patch(second));
                lemma_branches(e.chunk, tested);
                lemma_branches(e.chunk, done);
                if yes > tested + 3 {
                    lemma_resets(e.chunk, tested + 3);
                }
                if to > done + 3 {
                    lemma_resets(e.chunk, done + 3);
                }
                assert(if_shape(e.chunk, fuel, s, from, tested, yes, done, done + 3, to, to));
            } else {
                lemma_patch(f, first);
                assert(e == f.patch(first));
                lemma_branches(e.chunk, tested);
                if yes > tested + 3 {
                    lemma_resets(e.chunk, tested + 3);
                }
                assert(if_shape(e.chunk, fuel, s, from, tested, yes, done, to, to, to));
            }
        },
    }
}

pub(crate) proof fn lemma_enter_loop<'p>(
    st: CState<'p>,
    target: usize,
    label: Option<StringId>,
    deferred: bool,
)
    ensures
        ({
            let e = st.enter_loop(target, label, deferred);
            &&& e.chunk == st.chunk
            &&& e.marks == st.marks
            &&& e.loops.len() == st.loops.len() + 1
            &&& e.loops.drop_last() =~= st.loops
            &&& e.loops.last().break_patches.len() == 0
            &&& e.loops.last().continue_patches.len() == 0
        }),
{
    reveal(CState::push_loop);
}

/// Leaving a loop changes the offsets of its breaks and nothing else.
pub(crate) proof fn lemma_leave_loop<'p>(st: CState<'p>)
    requires
        st.loops.len() > 0,
    ensures
        ({
            let e = st.patch_loop_breaks();
            &&& e.chunk.code.len() == st.chunk.code.len()
            &&& st.chunk.jump_overflow ==> e.chunk.jump_overflow
            &&& e.marks == st.marks
            &&& forall|i: int|
                0 <= i < st.chunk.code.len() && (forall|j: int|
                    0 <= j < st.loops.last().break_patches.len()
                        ==> #[trigger] st.loops.last().break_patches[j] != i
                        && st.loops.last().break_patches[j] + 1 != i)
                    ==> #[trigger] e.chunk.code[i] == st.chunk.code[i]
        }),
{
    reveal(CState::patch_loop_breaks);
    lemma_patched_only(st.chunk, st.loops.last().break_patches, 0);
}

/// Where control goes in a while loop: behind the test, which stands from `start` to `tested`,
/// a true value leads into the body and a false one behind the loop; behind the body, which
/// ends at `done`, control goes back to the test.
pub open spec fn while_shape<'p>(
    c: ChunkView,
    fuel: nat,
    w: &'p WhileStatement,
    from: int,
    start: int,
    tested: int,
    done: int,
    to: int,
) -> bool {
    &&& resets(c, from, start)
    &&& expr_between(c, fuel, &w.test, start, tested)
    &&& branches(c, tested, tested + 3, to)
    &&& stmt_between(c, fuel, &w.body, tested + 3, done)
    &&& leads(c, done, start)
}

/// A while loop runs its body as long as its test gives a true value, and ends with the first
/// false one.
#[verifier::spinoff_prover]
pub proof fn law_while<'p>(st: CState<'p>, fuel: nat, w: &'p WhileStatement)
    requires
        kept::fit(st),
        st.compile_while(fuel, w) matches Ok(e) && e.chunk.code.len() <= usize::MAX
            && !e.chunk.jump_overflow,
    ensures
        ({
            let e = st.compile_while(fuel, w)->Ok_0.chunk;
            exists|start: int, tested: int, done: int| #[trigger]
                while_shape(
                    e,
                    fuel,
                    w,
                    st.chunk.code.len() as int,
                    start,
                    tested,
                    done,
                    e.code.len() as int,
                )
        }),
{
    let line = w.span.start;
    let e = st.compile_while(fuel, w)->Ok_0;
    let a0 = st.emit_completion_reset(line);
    lemma_reset(st, line);
    let (a1, label) = a0.take_label();
    reveal(CState::take_label);
    reveal(CState::here);
    let target = a1.here();
    let a = a1.enter_loop(target, label, false);
    lemma_enter_loop(a1, target, label, false);
    let b = a.compile_expr(fuel, &w.test)->Ok_0;
    lemma_expr(a, fuel, &w.test);
    let (c, exit) = b.jump(OpCode::JumpIfFalse, line);
    lemma_jump(b, OpCode::JumpIfFalse, line);
    let d = c.compile_statement(fuel, &w.body)->Ok_0;
    lemma_stmt(c, c.loops.len() - 1, fuel, &w.body);
    let f = d.back(target, line);
    let g = f.patch(exit);
    assert(d.chunk.code.len() <= f.chunk.code.len() && f.loops == d.loops) by {
        reveal(CState::back);
    }
    lemma_patch(f, exit);
    lemma_leave_loop(g);
    assert(e == g.patch_loop_breaks());
    lemma_back(d, target, line);
    let from = st.chunk.code.len() as int;
    let start = a.chunk.code.len() as int;
    let tested = b.chunk.code.len() as int;
    let done = d.chunk.code.len() as int;
    let to = e.chunk.code.len() as int;
    let broken = g.loops.last().break_patches;
    assert(broken == d.loops[d.loops.len() - 1].break_patches);
    assert(kept::all_between(broken, tested + 3, done));
    assert forall|i: int| 0 <= i < to && (i < tested + 3 || done <= i) implies e.chunk.code[i]
        == g.chunk.code[i] by {}
    assert forall|i: int| tested + 3 <= i < done implies e.chunk.code[i] == d.chunk.code[i] || waits(
        d,
        i,
    ) by {
        if !waits(d, i) {
            assert forall|j: int| 0 <= j < broken.len() implies #[trigger] broken[j] != i && broken[j]
                + 1 != i by {
                assert(d.loops[d.loops.len() - 1].break_patches[j] == broken[j]);
            }
        }
    }
    assert(expr_from(a, b, fuel, &w.test));
    assert(stmt_from(c, d, fuel, &w.body));
    lemma_branches(e.chunk, tested);
    lemma_branches(e.chunk, done);
    if start > from {
        lemma_resets(e.chunk, from);
    }
    assert(while_shape(e.chunk, fuel, w, from, start, tested, done, to));
}

/// Where control goes in a do-while loop: behind the body, which stands from `start` to `done`,
/// comes the test, behind which a true value leads back to the body and a false one behind the
/// loop.
pub open spec fn do_while_shape<'p>(
    c: ChunkView,
    fuel: nat,
    w: &'p DoWhileStatement,
    from: int,
    start: int,
    done: int,
    tested: int,
    to: int,
) -> bool {
    &&& resets(c, from, start)
    &&& stmt_between(c, fuel, &w.body, start, done)
    &&& expr_between(c, fuel, &w.test, done, tested)
    &&& branches(c, tested, tested + 3, to)
    &&& leads(c, tested + 3, start)
}

/// The deferred continues of a loop are led to their target, and nothing else changes.
pub(crate) proof fn lemma_continues<'p>(st: CState<'p>)
    requires
        st.loops.len() > 0,
    ensures
        ({
            let e = st.patch_continues();
            &&& e.chunk.code.len() == st.chunk.code.len()
            &&& st.chunk.jump_overflow ==> e.chunk.jump_overflow
            &&& e.marks == st.marks
            &&& e.loops.len() == st.loops.len()
            &&& e.loops.last().break_patches == st.loops.last().break_patches
            &&& forall|i: int|
                0 <= i < st.chunk.code.len() && (forall|j: int|
                    0 <= j < st.loops.last().continue_patches.len()
                        ==> #[trigger] st.loops.last().continue_patches[j] != i
                        && st.loops.last().continue_patches[j] + 1 != i)
                    ==> #[trigger] e.chunk.code[i] == st.chunk.code[i]
        }),
{
    reveal(CState::patch_continues);
    lemma_patched_only(st.chunk, st.loops.last().continue_patches, 0);
}

/// A do-while loop runs its body once, and again as long as its test gives a true value.
#[verifier::spinoff_prover]
pub proof fn law_do_while<'p>(st: CState<'p>, fuel: nat, w: &'p DoWhileStatement)
    requires
        kept::fit(st),
        st.compile_do_while(fuel, w) matches Ok(e) && e.chunk.code.len() <= usize::MAX
            && !e.chunk.jump_overflow,
    ensures
        ({
            let e = st.compile_do_while(fuel, w)->Ok_0.chunk;
            exists|start: int, done: int, tested: int| #[trigger]
                do_while_shape(
                    e,
                    fuel,
                    w,
                    st.chunk.code.len() as int,
                    start,
                    done,
                    tested,
                    e.code.len() as int,
                )
        }),
{
    let line = w.span.start;
    let e = st.compile_do_while(fuel, w)->Ok_0;
    let a0 = st.emit_completion_reset(line);
    lemma_reset(st, line);
    let (a1, label) = a0.take_label();
    reveal(CState::take_label);
    reveal(CState::here);
    let target = a1.here();
    let a = a1.enter_loop(target, label, true);
    lemma_enter_loop(a1, target, label, true);
    let b = a.compile_statement(fuel, &w.body)->Ok_0;
    lemma_stmt(a, a.loops.len() - 1, fuel, &w.body);
    let c = b.patch_continues();
    lemma_continues(b);
    let d = c.compile_expr(fuel, &w.test)->Ok_0;
    lemma_expr(c, fuel, &w.test);
    let (f, exit) = d.jump(OpCode::JumpIfFalse, line);
    lemma_jump(d, OpCode::JumpIfFalse, line);
    let g = f.back(target, line);
    let h = g.patch(exit);
    assert(f.chunk.code.len() <= g.chunk.code.len() && g.loops == f.loops) by {
        reveal(CState::back);
    }
    lemma_patch(g, exit);
    lemma_leave_loop(h);
    assert(e == h.patch_loop_breaks());
    lemma_back(f, target, line);
    let from = st.chunk.code.len() as int;
    let start = a.chunk.code.len() as int;
    let done = b.chunk.code.len() as int;
    let tested = d.chunk.code.len() as int;
    let to = e.chunk.code.len() as int;
    let broken = h.loops.last().break_patches;
    let last = b.loops[b.loops.len() - 1];
    assert(broken == last.break_patches);
    assert(kept::all_between(broken, start, done));
    assert(kept::all_between(last.continue_patches, start, done));
    assert forall|i: int| 0 <= i < to && (i < start || done <= i) implies e.chunk.code[i]
        == h.chunk.code[i] by {}
    assert forall|i: int| 0 <= i < start implies c.chunk.code[i] == b.chunk.code[i] by {}
    assert forall|i: int| start <= i < done implies e.chunk.code[i] == b.chunk.code[i] || waits(b, i)
        || waits_on(b, i) by {
        if !waits(b, i) && !waits_on(b, i) {
            assert forall|j: int| 0 <= j < broken.len() implies #[trigger] broken[j] != i && broken[j]
                + 1 != i by {
                assert(b.loops[b.loops.len() - 1].break_patches[j] == broken[j]);
            }
            assert forall|j: int| 0 <= j < last.continue_patches.len() implies
                #[trigger] last.continue_patches[j] != i && last.continue_patches[j] + 1 != i by {
                assert(b.loops[b.loops.len() - 1].continue_patches[j] == last.continue_patches[j]);
            }
        }
    }
    assert(expr_from(c, d, fuel, &w.test));
    assert(stmt_from(a, b, fuel, &w.body));
    lemma_branches(e.chunk, tested);
    lemma_branches(e.chunk, tested + 3);
    if start > from {
        lemma_resets(e.chunk, from);
    }
    assert(do_while_shape(e.chunk, fuel, w, from, start, done, tested, to));
}

} // verus!
