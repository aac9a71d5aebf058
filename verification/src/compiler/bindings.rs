//! What the code of defaults in patterns, assignments and calls does.

use vstd::prelude::*;
use crate::ast::node::{
    AssignmentExpression, AssignmentOperator, AssignmentTarget, CallExpression, Expression,
    Identifier, LogicalOperator, NewExpression, Pattern,
};
use crate::compiler::chunk;
use crate::compiler::chunk::{
    ChunkFlags, ChunkView, FLAG_ARROW, FLAG_ASYNC, FLAG_GENERATOR, FLAG_STRICT,
};
use crate::compiler::compiler::state::{CState, Failure};
use crate::compiler::compiler::steps;
use crate::compiler::control;
use crate::compiler::execution;
use crate::compiler::execution::{Datum, Run};
use crate::compiler::kept;
use crate::compiler::kept_expressions;
use crate::compiler::opcode::OpCode;
use crate::compiler::shape;
use crate::compiler::variables;
use crate::parser::precedence;
use crate::parser::precedence::Combined;
use crate::util::interner::StringId;

verus! {

/// Whether the code from a position on treats the value on top of the stack as one that has a
/// default: any but `undefined` stays, and control goes behind the default; `undefined` is
/// dropped and the default evaluated in its place.
pub open spec fn has_default(c: ChunkView, from: int, first: int, to: int, r: Run) -> bool {
    r.ip == from && r.stack.len() > 0 ==> execution::reaches(
        c,
        r,
        if r.stack.last() == Datum::Undefined {
            (Run { ip: first, stack: r.stack.drop_last(), ..r })
        } else {
            (Run { ip: to, ..r })
        },
    )
}

/// The code of a default for the value on top of the stack.
pub open spec fn pattern_default_shape<'p>(
    c: ChunkView,
    fuel: nat,
    default: &'p Expression,
    from: int,
    first: int,
    to: int,
) -> bool {
    &&& control::expr_between(c, fuel, default, first, to)
    &&& forall|r: Run| #[trigger] has_default(c, from, first, to, r)
}

/// The code in front of a default.
spec fn checked<'p>(st: CState<'p>, line: u32) -> CState<'p> {
    st.op(OpCode::Dup, line).op(OpCode::Undefined, line).op(OpCode::StrictNe, line)
}

/// The branch over a default.
spec fn skipping<'p>(st: CState<'p>, line: u32) -> CState<'p> {
    st.op(OpCode::JumpIfTrue, line).raw16(0).op(OpCode::Pop, line)
}

proof fn lemma_checked<'p>(st: CState<'p>, line: u32)
    ensures
        ({
            let a = checked(st, line);
            let e = skipping(a, line);
            let n = st.chunk.code.len() as int;
            &&& control::builds(st, e)
            &&& a.chunk.code.len() == n + 3
            &&& e.chunk.code.len() == n + 7
            &&& e.chunk.code[n] == OpCode::Dup.byte()
            &&& e.chunk.code[n + 1] == OpCode::Undefined.byte()
            &&& e.chunk.code[n + 2] == OpCode::StrictNe.byte()
            &&& e.chunk.code[n + 3] == OpCode::JumpIfTrue.byte()
            &&& e.chunk.code[n + 6] == OpCode::Pop.byte()
            &&& e.loops == st.loops
        }),
{
    let a1 = st.op(OpCode::Dup, line);
    let a2 = a1.op(OpCode::Undefined, line);
    let a = a2.op(OpCode::StrictNe, line);
    control::lemma_op(st, OpCode::Dup, line);
    control::lemma_op(a1, OpCode::Undefined, line);
    control::lemma_op(a2, OpCode::StrictNe, line);
    let b = a.op(OpCode::JumpIfTrue, line);
    control::lemma_op(a, OpCode::JumpIfTrue, line);
    reveal(CState::raw16);
    let d = b.raw16(0);
    control::lemma_op(d, OpCode::Pop, line);
}

#[verifier::spinoff_prover]
proof fn lemma_default_code(c: ChunkView, from: int, to: int)
    requires
        0 <= from,
        from + 7 <= to <= c.code.len(),
        c.code[from] == OpCode::Dup.byte(),
        c.code[from + 1] == OpCode::Undefined.byte(),
        c.code[from + 2] == OpCode::StrictNe.byte(),
        c.code[from + 3] == OpCode::JumpIfTrue.byte(),
        execution::jump_to(c, from + 3) == to,
        c.code[from + 6] == OpCode::Pop.byte(),
    ensures
        forall|r: Run| #[trigger] has_default(c, from, from + 7, to, r),
{
    reveal(execution::performed);
    execution::lemma_instruction(c, from, OpCode::Dup);
    execution::lemma_instruction(c, from + 1, OpCode::Undefined);
    execution::lemma_instruction(c, from + 2, OpCode::StrictNe);
    execution::lemma_instruction(c, from + 3, OpCode::JumpIfTrue);
    execution::lemma_instruction(c, from + 6, OpCode::Pop);
    assert forall|r: Run| #[trigger] has_default(c, from, from + 7, to, r) by {
        if r.ip == from && r.stack.len() > 0 {
            let v = r.stack.last();
            let r1 = Run { ip: from + 1, stack: r.stack.push(v), ..r };
            let r2 = Run { ip: from + 2, stack: r1.stack.push(Datum::Undefined), ..r };
            let r3 = Run {
                ip: from + 3,
                stack: r.stack.push(Datum::Bool(v != Datum::Undefined)),
                ..r
            };
            execution::lemma_here(c, r);
            execution::lemma_onward(c, r, r, r1);
            execution::lemma_onward(c, r, r1, r2);
            assert(r2.stack.take(r2.stack.len() - 2) =~= r.stack);
            execution::lemma_onward(c, r, r2, r3);
            assert(r3.stack.drop_last() =~= r.stack);
            if v == Datum::Undefined {
                let r4 = Run { ip: from + 6, ..r };
                execution::lemma_onward(c, r, r3, r4);
                execution::lemma_onward(
                    c,
                    r,
                    r4,
                    Run { ip: from + 7, stack: r.stack.drop_last(), ..r },
                );
            } else {
                execution::lemma_onward(c, r, r3, Run { ip: to, ..r });
            }
        }
    }
}

proof fn lemma_default<'p>(
    st: CState<'p>,
    s: CState<'p>,
    fuel: nat,
    right: &'p Expression,
    line: u32,
)
    requires
        kept::fit(st),
        s.chunk == skipping(checked(st, line), line).chunk,
        s.marks == st.marks,
        s.compile_expr(fuel, right) is Ok,
        ({
            let e = s.compile_expr(fuel, right)->Ok_0.patch_short(checked(st, line).here());
            e.chunk.code.len() <= usize::MAX && !e.chunk.jump_overflow
        }),
    ensures
        ({
            let e = s.compile_expr(fuel, right)->Ok_0.patch_short(checked(st, line).here());
            pattern_default_shape(
                e.chunk,
                fuel,
                right,
                st.chunk.code.len() as int,
                st.chunk.code.len() as int + 7,
                e.chunk.code.len() as int,
            )
        }),
{
    let n = st.chunk.code.len() as int;
    lemma_checked(st, line);
    let x = s.compile_expr(fuel, right)->Ok_0;
    control::lemma_expr(s, fuel, right);
    let at = checked(st, line).here();
    let e = x.patch_short(at);
    reveal(CState::patch_short);
    reveal(CState::here);
    assert(e.chunk.code.len() == x.chunk.code.len());
    assert(at == n + 3);
    assert(!x.chunk.jump_overflow);
    chunk::law_patched_jump_lands(x.chunk, (at + 1) as nat);
    assert(control::expr_from(s, x, fuel, right));
    assert forall|i: int| 0 <= i < e.chunk.code.len() && i != n + 4 && i != n + 5 implies
        #[trigger] e.chunk.code[i] == x.chunk.code[i] by {}
    lemma_default_code(e.chunk, n, e.chunk.code.len() as int);
}

/// A default in a pattern is evaluated just where the value is `undefined`, and takes its
/// place; any other value stays.
pub proof fn law_pattern_default<'p>(
    st: CState<'p>,
    fuel: nat,
    left: &'p Pattern,
    right: &'p Expression,
    line: u32,
)
    requires
        kept::fit(st),
    ensures
        st.emit_default_check(fuel, right, line) matches Ok(e) ==> (e.chunk.code.len() <= usize::MAX
            && !e.chunk.jump_overflow ==> pattern_default_shape(
            e.chunk,
            fuel,
            right,
            st.chunk.code.len() as int,
            st.chunk.code.len() as int + 7,
            e.chunk.code.len() as int,
        )),
        st.default_for_local(fuel, left, right, line) matches Ok(e) ==> (e.chunk.code.len()
            <= usize::MAX && !e.chunk.jump_overflow ==> pattern_default_shape(
            e.chunk,
            fuel,
            right,
            st.chunk.code.len() as int,
            st.chunk.code.len() as int + 7,
            e.chunk.code.len() as int,
        )),
{
    let s = skipping(checked(st, line), line);
    lemma_checked(st, line);
    if let Ok(e) = st.emit_default_check(fuel, right, line) {
        assert(e == s.compile_expr(fuel, right)->Ok_0.patch_short(checked(st, line).here()));
        if e.chunk.code.len() <= usize::MAX && !e.chunk.jump_overflow {
            lemma_default(st, s, fuel, right, line);
        }
    }
    if let Ok(e) = st.default_for_local(fuel, left, right, line) {
        let t = s.name_default(left, right);
        reveal(CState::set_pending_name);
        assert(t.chunk == s.chunk && t.marks == s.marks);
        assert(e == t.compile_expr(fuel, right)->Ok_0.patch_short(checked(st, line).here()));
        if e.chunk.code.len() <= usize::MAX && !e.chunk.jump_overflow {
            lemma_default(st, t, fuel, right, line);
        }
    }
}

/// The code of an assignment to a variable: the value up to a state, and what stores it from
/// there.
pub open spec fn assignment_shape<'p>(
    e: CState<'p>,
    x: CState<'p>,
    fuel: nat,
    name: StringId,
    right: &'p Expression,
    from: int,
) -> bool {
    let at = x.chunk.code.len() as int;
    &&& control::expr_between(e.chunk, fuel, right, from, at)
    &&& variables::plain(x, name) && e.chunk.constants.len() <= 0x10000 ==> variables::stores(
        e.chunk,
        at,
        e.chunk.code.len() as int,
        variables::home(x, name),
    )
}

/// An assignment to a variable evaluates the value and stores it at the place of the variable,
/// where it is a plain one. The value stays on the stack.
pub proof fn law_assign_variable<'p>(
    st: CState<'p>,
    fuel: nat,
    a: &'p AssignmentExpression,
    id: Identifier,
)
    requires
        kept::fit(st),
        st.with_depth == 0,
        a.left == AssignmentTarget::Identifier(id),
        a.operator == AssignmentOperator::Assign,
        st.compile_assignment(fuel, a) matches Ok(e) && e.chunk.code.len() <= usize::MAX,
    ensures
        ({
            let e = st.compile_assignment(fuel, a)->Ok_0;
            exists|x: CState<'p>| #[trigger]
                assignment_shape(e, x, fuel, id.name, &a.right, st.chunk.code.len() as int)
        }),
{
    let line = a.span.start;
    let e = st.compile_assignment(fuel, a)->Ok_0;
    reveal(CState::set_pending_name);
    reveal(CState::with_level);
    let s = if shape::anonymous_fn(a.right) {
        st.set_pending_name(id.name)
    } else {
        st
    };
    assert(st.compile_assignment(fuel, a) == st.assign_identifier(
        fuel,
        id.name,
        a.operator,
        &a.right,
        line,
    ));
    assert(s.ident_needs_with_ref(id.name) == (s, false));
    let x = s.compile_expr(fuel, &a.right)->Ok_0;
    assert(e == x.compile_set_variable(id.name, line));
    control::lemma_expr(s, fuel, &a.right);
    kept::grow_compile_set_variable(x, id.name, line);
    assert(kept::kept(control::floor_of(x), x)) by {
        reveal(kept::kept);
    }
    kept::keep_compile_set_variable(control::floor_of(x), x, id.name, line);
    assert(forall|i: int|
        0 <= i < x.chunk.code.len() ==> #[trigger] e.chunk.code[i] == x.chunk.code[i]) by {
        reveal(kept::kept);
    }
    assert(control::expr_from(s, x, fuel, &a.right));
    if variables::plain(x, id.name) {
        variables::law_variable(x, id.name, line);
    }
    assert(assignment_shape(e, x, fuel, id.name, &a.right, st.chunk.code.len() as int));
}

/// The code of a logical assignment to a variable: behind the read, which ends at `tested`, a
/// value that decides is stored again, and any other is replaced by the right-hand side.
pub open spec fn logical_assignment_shape<'p>(
    e: CState<'p>,
    y: CState<'p>,
    fuel: nat,
    operator: LogicalOperator,
    name: StringId,
    right: &'p Expression,
    tested: int,
    rest: int,
) -> bool {
    let done = y.chunk.code.len() as int;
    &&& forall|r: Run| #[trigger] control::decides(e.chunk, operator, tested, rest, done, r)
    &&& control::expr_between(e.chunk, fuel, right, rest, done)
    &&& variables::plain(y, name) && e.chunk.constants.len() <= 0x10000 ==> variables::stores(
        e.chunk,
        done,
        e.chunk.code.len() as int,
        variables::home(y, name),
    )
}

/// The state in which the right-hand side of a logical assignment is compiled.
spec fn logical_right<'p>(
    g: CState<'p>,
    operator: LogicalOperator,
    name: StringId,
    right: &'p Expression,
    line: u32,
) -> (CState<'p>, usize) {
    let (h, at) = match operator {
        LogicalOperator::NullishCoalescing => {
            let (a, first) = g.jump(OpCode::JumpIfNullishPeek, line);
            let (b, second) = a.jump(OpCode::Jump, line);
            (b.patch(first), second)
        },
        LogicalOperator::And => g.jump(OpCode::JumpIfFalsePeek, line),
        LogicalOperator::Or => g.jump(OpCode::JumpIfTruePeek, line),
    };
    let k = h.op(OpCode::Pop, line);
    (
        if shape::anonymous_fn(*right) {
            k.set_pending_name(name)
        } else {
            k
        },
        at,
    )
}

/// The code of the decision of a logical assignment.
#[verifier::spinoff_prover]
proof fn lemma_logical_right<'p>(
    g: CState<'p>,
    x: CState<'p>,
    fuel: nat,
    operator: LogicalOperator,
    name: StringId,
    right: &'p Expression,
    line: u32,
)
    requires
        kept::fit(g),
        ({
            let (s, at) = logical_right(g, operator, name, right, line);
            &&& s.compile_expr(fuel, right) is Ok
            &&& x == s.compile_expr(fuel, right)->Ok_0.patch(at)
            &&& x.chunk.code.len() <= usize::MAX
            &&& !x.chunk.jump_overflow
        }),
    ensures
        ({
            let (s, at) = logical_right(g, operator, name, right, line);
            let done = x.chunk.code.len() as int;
            &&& x.marks == g.marks
            &&& g.chunk.code.len() <= done
            &&& control::expr_between(x.chunk, fuel, right, s.chunk.code.len() as int, done)
            &&& forall|c: ChunkView, r: Run|
                #![trigger control::decides(
                    c,
                    operator,
                    g.chunk.code.len() as int,
                    s.chunk.code.len() as int,
                    done,
                    r,
                )]
                (done <= c.code.len() && forall|i: int|
                    0 <= i < done ==> #[trigger] c.code[i] == x.chunk.code[i])
                    ==> control::decides(
                    c,
                    operator,
                    g.chunk.code.len() as int,
                    s.chunk.code.len() as int,
                    done,
                    r,
                )
        }),
{
    reveal(CState::set_pending_name);
    reveal(execution::performed);
    let (s, at) = logical_right(g, operator, name, right, line);
    let k = s.compile_expr(fuel, right)->Ok_0;
    let tested = g.chunk.code.len() as int;
    let op = match operator {
        LogicalOperator::And => OpCode::JumpIfFalsePeek,
        LogicalOperator::Or => OpCode::JumpIfTruePeek,
        LogicalOperator::NullishCoalescing => OpCode::JumpIfNullishPeek,
    };
    let (a, first) = g.jump(op, line);
    control::lemma_jump(g, op, line);
    let (b, second) = a.jump(OpCode::Jump, line);
    control::lemma_jump(a, OpCode::Jump, line);
    control::lemma_patch(b, first);
    let h = if operator == LogicalOperator::NullishCoalescing {
        b.patch(first)
    } else {
        a
    };
    control::lemma_op(h, OpCode::Pop, line);
    control::lemma_expr(s, fuel, right);
    control::lemma_patch(k, at);
    let done = x.chunk.code.len() as int;
    let rest = s.chunk.code.len() as int;
    assert(control::expr_from(s, k, fuel, right));
    assert forall|c: ChunkView, r: Run|
        #![trigger control::decides(c, operator, tested, rest, done, r)]
        (done <= c.code.len() && forall|i: int|
            0 <= i < done ==> #[trigger] c.code[i] == x.chunk.code[i]) implies control::decides(
        c,
        operator,
        tested,
        rest,
        done,
        r,
    ) by {
        if r.ip == tested && r.stack.len() > 0 && control::short(operator, r.stack.last()) is Some {
            assert(c.code[tested] == op.byte());
            assert(c.code[tested + 1] == x.chunk.code[tested + 1]);
            assert(c.code[tested + 2] == x.chunk.code[tested + 2]);
            execution::lemma_instruction(c, tested, op);
            execution::lemma_here(c, r);
            assert(c.code[rest - 1] == OpCode::Pop.byte());
            execution::lemma_instruction(c, rest - 1, OpCode::Pop);
            if operator == LogicalOperator::NullishCoalescing {
                assert(c.code[tested + 3] == OpCode::Jump.byte());
                assert(c.code[tested + 4] == x.chunk.code[tested + 4]);
                assert(c.code[tested + 5] == x.chunk.code[tested + 5]);
                execution::lemma_instruction(c, tested + 3, OpCode::Jump);
                if execution::nullish(r.stack.last()) {
                    let next = Run { ip: tested + 6, ..r };
                    execution::lemma_onward(c, r, r, next);
                    execution::lemma_onward(
                        c,
                        r,
                        next,
                        Run { ip: rest, stack: r.stack.drop_last(), ..r },
                    );
                } else {
                    let next = Run { ip: tested + 3, ..r };
                    execution::lemma_onward(c, r, r, next);
                    execution::lemma_onward(c, r, next, Run { ip: done, ..r });
                }
            } else if control::short(operator, r.stack.last()) == Some(true) {
                execution::lemma_onward(c, r, r, Run { ip: done, ..r });
            } else {
                let next = Run { ip: tested + 3, ..r };
                execution::lemma_onward(c, r, r, next);
                execution::lemma_onward(
                    c,
                    r,
                    next,
                    Run { ip: rest, stack: r.stack.drop_last(), ..r },
                );
            }
        }
    }
}

/// A logical assignment to a variable reads it, evaluates the right-hand side just where the
/// value read does not decide, and stores the value that decided.
pub proof fn law_logical_assignment<'p>(
    st: CState<'p>,
    fuel: nat,
    name: StringId,
    operator: AssignmentOperator,
    right: &'p Expression,
    line: u32,
    logical: LogicalOperator,
)
    requires
        kept::fit(st),
        precedence::combined(operator) == Combined::Logical(logical),
        st.assign_identifier(fuel, name, operator, right, line) matches Ok(e)
            && e.chunk.code.len() <= usize::MAX && !e.chunk.jump_overflow,
    ensures
        ({
            let e = st.assign_identifier(fuel, name, operator, right, line)->Ok_0;
            let tested = st.compile_get_variable(name, line).chunk.code.len() as int;
            exists|y: CState<'p>, rest: int| #[trigger]
                logical_assignment_shape(e, y, fuel, logical, name, right, tested, rest)
        }),
{
    reveal(precedence::combined);
    let e = st.assign_identifier(fuel, name, operator, right, line)->Ok_0;
    let g = st.compile_get_variable(name, line);
    kept::grow_compile_get_variable(st, name, line);
    let (s, at) = logical_right(g, logical, name, right, line);
    let y = s.compile_expr(fuel, right)->Ok_0.patch(at);
    assert(s.compile_expr(fuel, right) is Ok);
    assert(e == y.compile_set_variable(name, line));
    kept::grow_compile_set_variable(y, name, line);
    lemma_logical_right(g, y, fuel, logical, name, right, line);
    assert(kept::kept(control::floor_of(y), y)) by {
        reveal(kept::kept);
    }
    kept::keep_compile_set_variable(control::floor_of(y), y, name, line);
    assert(forall|i: int|
        0 <= i < y.chunk.code.len() ==> #[trigger] e.chunk.code[i] == y.chunk.code[i]) by {
        reveal(kept::kept);
    }
    if variables::plain(y, name) {
        variables::law_variable(y, name, line);
    }
    let tested = g.chunk.code.len() as int;
    let rest = s.chunk.code.len() as int;
    let done = y.chunk.code.len() as int;
    assert forall|r: Run| #[trigger]
        control::decides(e.chunk, logical, tested, rest, done, r) by {}
    assert(control::expr_between(e.chunk, fuel, right, rest, done)) by {
        let (p, q) = choose|p: CState<'p>, q: CState<'p>| #[trigger]
            control::expr_from(p, q, fuel, right) && p.chunk.code.len() == rest
                && q.chunk.code.len() == done && rest <= done <= y.chunk.code.len() && forall|
                i: int,
            |
                rest <= i < done ==> #[trigger] y.chunk.code[i] == q.chunk.code[i];
        assert(control::expr_from(p, q, fuel, right));
    }
    assert(logical_assignment_shape(e, y, fuel, logical, name, right, tested, rest));
}

/// What a call or a construction at a position calls: the function below the arguments, and
/// the arguments in order.
pub open spec fn called(c: ChunkView, r: Run) -> Option<(Datum, Seq<Datum>)> {
    let n = r.stack.len() as int;
    let count = c.code[r.ip + 1] as int;
    if (execution::instruction(c, r.ip) == Some(OpCode::Call) || execution::instruction(c, r.ip)
        == Some(OpCode::Construct)) && n > count {
        Some((r.stack[n - count - 1], r.stack.skip(n - count)))
    } else {
        None
    }
}

/// Whether the instruction at a position calls a function with as many arguments.
pub open spec fn calls(c: ChunkView, at: int, op: OpCode, count: int, r: Run) -> bool {
    let n = r.stack.len() as int;
    r.ip == at && n > count ==> execution::instruction(c, at) == Some(op) && called(c, r) == Some(
        (r.stack[n - count - 1], r.stack.skip(n - count)),
    )
}

/// Whether the arguments of a call are compiled from one state to another.
pub open spec fn args_from<'p>(
    a: CState<'p>,
    b: CState<'p>,
    fuel: nat,
    arguments: &'p Vec<Expression>,
    i: int,
) -> bool {
    a.compile_args(fuel, arguments, i) == Ok::<CState<'p>, Failure>(b)
}

/// The code of a call: the function up to one state, the arguments up to another, and the
/// instruction that calls.
pub open spec fn call_shape<'p>(
    c: ChunkView,
    fuel: nat,
    callee: &'p Expression,
    arguments: &'p Vec<Expression>,
    op: OpCode,
    from: int,
    x: CState<'p>,
    y: CState<'p>,
) -> bool {
    &&& control::expr_between(c, fuel, callee, from, x.chunk.code.len() as int)
    &&& args_from(x, y, fuel, arguments, 0)
    &&& forall|r: Run| #[trigger]
        calls(c, y.chunk.code.len() as int, op, arguments@.len() as int, r)
}

/// The arguments of a call are evaluated in order.
pub proof fn law_arguments<'p>(
    st: CState<'p>,
    e: CState<'p>,
    fuel: nat,
    arguments: &'p Vec<Expression>,
    i: int,
)
    requires
        args_from(st, e, fuel, arguments, i),
        0 <= i <= arguments@.len(),
    ensures
        i == arguments@.len() ==> e == st,
        i < arguments@.len() ==> exists|next: CState<'p>| #[trigger]
            control::expr_from(st, next, fuel, &arguments@[i]) && args_from(
                next,
                e,
                fuel,
                arguments,
                i + 1,
            ),
{
    if i < arguments@.len() {
        let next = st.compile_expr(fuel, &arguments@[i])->Ok_0;
        assert(control::expr_from(st, next, fuel, &arguments@[i]));
    }
}

#[verifier::spinoff_prover]
proof fn lemma_call<'p>(
    st: CState<'p>,
    fuel: nat,
    callee: &'p Expression,
    arguments: &'p Vec<Expression>,
    op: OpCode,
    line: u32,
)
    requires
        kept::fit(st),
        op == OpCode::Call || op == OpCode::Construct,
        arguments@.len() < 256,
        st.compile_expr(fuel, callee) is Ok,
        st.compile_expr(fuel, callee)->Ok_0.compile_args(fuel, arguments, 0) is Ok,
        ({
            let y = st.compile_expr(fuel, callee)->Ok_0.compile_args(fuel, arguments, 0)->Ok_0;
            y.op_u8(op, arguments@.len() as u8, line).chunk.code.len() <= usize::MAX
        }),
    ensures
        ({
            let x = st.compile_expr(fuel, callee)->Ok_0;
            let y = x.compile_args(fuel, arguments, 0)->Ok_0;
            call_shape(
                y.op_u8(op, arguments@.len() as u8, line).chunk,
                fuel,
                callee,
                arguments,
                op,
                st.chunk.code.len() as int,
                x,
                y,
            )
        }),
{
    let x = st.compile_expr(fuel, callee)->Ok_0;
    let y = x.compile_args(fuel, arguments, 0)->Ok_0;
    let e = y.op_u8(op, arguments@.len() as u8, line);
    control::lemma_expr(st, fuel, callee);
    assert(kept::kept(control::floor_of(x), x)) by {
        reveal(kept::kept);
    }
    kept_expressions::pass_compile_args(control::floor_of(x), x, fuel, arguments, 0);
    reveal(CState::op_u8);
    assert(forall|i: int|
        0 <= i < x.chunk.code.len() ==> #[trigger] e.chunk.code[i] == x.chunk.code[i]) by {
        reveal(kept::kept);
    }
    assert(control::expr_from(st, x, fuel, callee));
    let at = y.chunk.code.len() as int;
    assert(e.chunk.code[at] == op.byte() && e.chunk.code[at + 1] == arguments@.len() as u8);
    execution::lemma_instruction(e.chunk, at, op);
    assert forall|r: Run| #[trigger] calls(e.chunk, at, op, arguments@.len() as int, r) by {}
}

/// A call of an expression evaluates it, the arguments in order, and calls the one with the
/// others.
pub proof fn law_call<'p>(st: CState<'p>, fuel: nat, c: &'p CallExpression)
    requires
        kept::fit(st),
        !(c.callee is Member),
        !(c.callee is Super),
        !shape::any_spread(c.arguments@),
        c.arguments@.len() < 256,
        st.compile_call(fuel, c) matches Ok(e) && e.chunk.code.len() <= usize::MAX,
    ensures
        ({
            let e = st.compile_call(fuel, c)->Ok_0.chunk;
            exists|x: CState<'p>, y: CState<'p>| #[trigger]
                call_shape(
                    e,
                    fuel,
                    &c.callee,
                    &c.arguments,
                    OpCode::Call,
                    st.chunk.code.len() as int,
                    x,
                    y,
                ) && e.code.len() == y.chunk.code.len() + 2
        }),
{
    let line = c.span.start;
    let e = st.compile_call(fuel, c)->Ok_0;
    let x = st.compile_expr(fuel, &c.callee)->Ok_0;
    let y = x.compile_args(fuel, &c.arguments, 0)->Ok_0;
    assert(st.compile_expr(fuel, &c.callee) is Ok);
    assert(st.compile_call(fuel, c) == x.compile_call_tail(
        fuel,
        &c.arguments,
        c.arguments@.len() as u8,
        line,
    ));
    assert(x.compile_args(fuel, &c.arguments, 0) is Ok);
    assert(e == y.op_u8(OpCode::Call, c.arguments@.len() as u8, line));
    lemma_call(st, fuel, &c.callee, &c.arguments, OpCode::Call, line);
    reveal(CState::op_u8);
}

/// A construction evaluates the class, the arguments in order, and constructs with them.
pub proof fn law_new<'p>(st: CState<'p>, fuel: nat, n: &'p NewExpression)
    requires
        kept::fit(st),
        !shape::any_spread(n.arguments@),
        n.arguments@.len() < 256,
        st.compile_new(fuel, n) matches Ok(e) && e.chunk.code.len() <= usize::MAX,
    ensures
        ({
            let e = st.compile_new(fuel, n)->Ok_0.chunk;
            exists|x: CState<'p>, y: CState<'p>| #[trigger]
                call_shape(
                    e,
                    fuel,
                    &n.callee,
                    &n.arguments,
                    OpCode::Construct,
                    st.chunk.code.len() as int,
                    x,
                    y,
                ) && e.code.len() == y.chunk.code.len() + 2
        }),
{
    let line = n.span.start;
    let e = st.compile_new(fuel, n)->Ok_0;
    let x = st.compile_expr(fuel, &n.callee)->Ok_0;
    let y = x.compile_args(fuel, &n.arguments, 0)->Ok_0;
    assert(e == y.op_u8(OpCode::Construct, n.arguments@.len() as u8, line));
    lemma_call(st, fuel, &n.callee, &n.arguments, OpCode::Construct, line);
    reveal(CState::op_u8);
}

/// A function has the flags of what it is, and no others of these.
pub proof fn law_function_flags(is_async: bool, is_generator: bool, strict: bool)
    ensures
        ({
            let f = steps::flags_of_function(is_async, is_generator, strict);
            &&& f.has(FLAG_ASYNC) == is_async
            &&& f.has(FLAG_GENERATOR) == is_generator
            &&& f.has(FLAG_STRICT) == strict
            &&& !f.has(FLAG_ARROW)
        }),
        ({
            let f = steps::flags_of_arrow(is_async, strict);
            &&& f.has(FLAG_ASYNC) == is_async
            &&& !f.has(FLAG_GENERATOR)
            &&& f.has(FLAG_STRICT) == strict
            &&& f.has(FLAG_ARROW)
        }),
{
    assert(0u16 & 4 != 4 && 0u16 & 2 != 2 && 0u16 & 1 != 1 && 0u16 & 16 != 16 && (0u16 | 16) == 16
        && 16u16 & 4 != 4 && 16u16 & 2 != 2 && 16u16 & 1 != 1 && 16u16 & 16 == 16) by (bit_vector);
    assert(forall|b: u16|
        #![auto]
        (b | 4) & 4 == 4 && ((b | 4) & 2 == b & 2) && ((b | 4) & 1 == b & 1) && ((b | 4) & 16 == b
            & 16) && (b | 2) & 2 == 2 && ((b | 2) & 4 == b & 4) && (
                (b | 2) & 1 == b & 1
            ) && ((b | 2)
            & 16 == b & 16) && (b | 1) & 1 == 1 && ((b | 1) & 4 == b & 4) && ((b | 1) & 2 == b & 2)
            && ((b | 1) & 16 == b & 16)) by (bit_vector);
}

} // verus!
