//! What the code of parameters with defaults, updates and operations does to values.

use vstd::prelude::*;
use crate::ast::node::{Expression, Pattern};
use crate::compiler::chunk;
use crate::compiler::chunk::ChunkView;
use crate::compiler::compiler::state::CState;
use crate::compiler::control;
use crate::compiler::execution;
use crate::compiler::execution::{Datum, Run};
use crate::compiler::kept;
use crate::compiler::kept_expressions;
use crate::compiler::opcode::OpCode;

verus! {

/// Whether the code from one position on takes a parameter as it should, by the argument in
/// its slot: an argument other than `undefined` stays, and control goes behind the default; for
/// `undefined` control goes to the default, with nothing changed.
pub open spec fn takes_argument(
    c: ChunkView,
    slot: int,
    from: int,
    first: int,
    to: int,
    r: Run,
) -> bool {
    r.ip == from && slot < r.stack.len() ==> execution::reaches(
        c,
        r,
        (Run {
            ip: if r.stack[slot] == Datum::Undefined {
                first
            } else {
                to
            },
            ..r
        }),
    )
}

/// Whether the code from one position on puts the value of a default into the slot of its
/// parameter.
pub open spec fn takes_default(c: ChunkView, slot: int, done: int, to: int, r: Run) -> bool {
    r.ip == done && slot + 1 < r.stack.len() ==> execution::reaches(
        c,
        r,
        (Run { ip: to, stack: r.stack.drop_last().update(slot, r.stack.last()), ..r }),
    )
}

/// What the entry code of a function does for a parameter with a default, which stands from
/// `first` to `done`.
pub open spec fn default_shape<'p>(
    c: ChunkView,
    fuel: nat,
    default: &'p Expression,
    slot: int,
    from: int,
    first: int,
    done: int,
    to: int,
) -> bool {
    &&& control::expr_between(c, fuel, default, first, done)
    &&& forall|r: Run| #[trigger] takes_argument(c, slot, from, first, to, r)
    &&& forall|r: Run| #[trigger] takes_default(c, slot, done, to, r)
}

/// Whether the defaults from a parameter on are compiled from a state.
pub open spec fn defaults_from<'p>(
    st: CState<'p>,
    next: CState<'p>,
    fuel: nat,
    params: &'p Vec<Pattern>,
    i: int,
) -> bool {
    st.compile_param_defaults(fuel, params, i) == next.compile_param_defaults(fuel, params, i + 1)
}

proof fn lemma_raw<'p>(st: CState<'p>, byte: u8)
    ensures
        control::builds(st, st.raw(byte)),
        st.raw(byte).chunk.code.len() == st.chunk.code.len() + 1,
        st.raw(byte).chunk.code[st.chunk.code.len() as int] == byte,
        st.raw(byte).chunk.constants == st.chunk.constants,
        st.raw(byte).loops == st.loops,
{
    reveal(CState::raw);
}

/// The code in front of a default.
spec fn default_begun<'p>(st: CState<'p>, slot: u8) -> CState<'p> {
    st.op(OpCode::GetLocal, 0).raw(slot).op(OpCode::Undefined, 0).op(OpCode::StrictNe, 0)
}

/// The code behind a default.
spec fn default_ended<'p>(st: CState<'p>, slot: u8) -> CState<'p> {
    st.end_default().op(OpCode::EndParamExpr, 0).op(OpCode::SetLocal, 0).raw(slot).op(
        OpCode::Pop,
        0,
    )
}

proof fn lemma_begun<'p>(st: CState<'p>, slot: u8)
    ensures
        ({
            let e = default_begun(st, slot);
            let n = st.chunk.code.len() as int;
            &&& control::builds(st, e)
            &&& e.chunk.code.len() == n + 4
            &&& e.chunk.code[n] == OpCode::GetLocal.byte()
            &&& e.chunk.code[n + 1] == slot
            &&& e.chunk.code[n + 2] == OpCode::Undefined.byte()
            &&& e.chunk.code[n + 3] == OpCode::StrictNe.byte()
        }),
{
    let a = st.op(OpCode::GetLocal, 0);
    control::lemma_op(st, OpCode::GetLocal, 0);
    lemma_raw(a, slot);
    control::lemma_op(a.raw(slot), OpCode::Undefined, 0);
    control::lemma_op(a.raw(slot).op(OpCode::Undefined, 0), OpCode::StrictNe, 0);
}

proof fn lemma_branch_begun<'p>(st: CState<'p>, k: usize, count: usize)
    ensures
        ({
            let e = st.op(OpCode::JumpIfTrue, 0).raw16(0).op(
                OpCode::BeginParamExpr,
                0,
            ).begin_default(k, count);
            let n = st.chunk.code.len() as int;
            &&& control::builds(st, e)
            &&& e.chunk.code.len() == n + 4
            &&& e.chunk.code[n] == OpCode::JumpIfTrue.byte()
            &&& e.chunk.code[n + 3] == OpCode::BeginParamExpr.byte()
        }),
{
    let a = st.op(OpCode::JumpIfTrue, 0);
    control::lemma_op(st, OpCode::JumpIfTrue, 0);
    reveal(CState::raw16);
    let b = a.raw16(0);
    control::lemma_op(b, OpCode::BeginParamExpr, 0);
    reveal(CState::begin_default);
}

proof fn lemma_ended<'p>(st: CState<'p>, slot: u8)
    ensures
        ({
            let e = default_ended(st, slot);
            let n = st.chunk.code.len() as int;
            &&& control::builds(st, e)
            &&& e.chunk.code.len() == n + 4
            &&& e.chunk.code[n] == OpCode::EndParamExpr.byte()
            &&& e.chunk.code[n + 1] == OpCode::SetLocal.byte()
            &&& e.chunk.code[n + 2] == slot
            &&& e.chunk.code[n + 3] == OpCode::Pop.byte()
        }),
{
    reveal(CState::end_default);
    let a = st.end_default();
    let b = a.op(OpCode::EndParamExpr, 0);
    control::lemma_op(a, OpCode::EndParamExpr, 0);
    let c = b.op(OpCode::SetLocal, 0);
    control::lemma_op(b, OpCode::SetLocal, 0);
    lemma_raw(c, slot);
    control::lemma_op(c.raw(slot), OpCode::Pop, 0);
}

/// Code that stands as the entry code of a parameter takes arguments and defaults.
#[verifier::spinoff_prover]
proof fn lemma_default_code(c: ChunkView, slot: u8, from: int, done: int)
    requires
        0 <= from,
        from + 8 <= done,
        done + 4 <= c.code.len(),
        c.code[from] == OpCode::GetLocal.byte(),
        c.code[from + 1] == slot,
        c.code[from + 2] == OpCode::Undefined.byte(),
        c.code[from + 3] == OpCode::StrictNe.byte(),
        c.code[from + 4] == OpCode::JumpIfTrue.byte(),
        execution::jump_to(c, from + 4) == done + 4,
        c.code[from + 7] == OpCode::BeginParamExpr.byte(),
        c.code[done] == OpCode::EndParamExpr.byte(),
        c.code[done + 1] == OpCode::SetLocal.byte(),
        c.code[done + 2] == slot,
        c.code[done + 3] == OpCode::Pop.byte(),
    ensures
        forall|r: Run| #[trigger] takes_argument(c, slot as int, from, from + 8, done + 4, r),
        forall|r: Run| #[trigger] takes_default(c, slot as int, done, done + 4, r),
{
    reveal(execution::performed);
    execution::lemma_instruction(c, from, OpCode::GetLocal);
    execution::lemma_instruction(c, from + 2, OpCode::Undefined);
    execution::lemma_instruction(c, from + 3, OpCode::StrictNe);
    execution::lemma_instruction(c, from + 4, OpCode::JumpIfTrue);
    execution::lemma_instruction(c, from + 7, OpCode::BeginParamExpr);
    execution::lemma_instruction(c, done, OpCode::EndParamExpr);
    execution::lemma_instruction(c, done + 1, OpCode::SetLocal);
    execution::lemma_instruction(c, done + 3, OpCode::Pop);
    assert forall|r: Run| #[trigger]
        takes_argument(c, slot as int, from, from + 8, done + 4, r) by {
        if r.ip == from && slot < r.stack.len() {
            let v = r.stack[slot as int];
            let r1 = Run { ip: from + 2, stack: r.stack.push(v), ..r };
            let r2 = Run { ip: from + 3, stack: r1.stack.push(Datum::Undefined), ..r };
            let differs = Datum::Bool(v != Datum::Undefined);
            let r3 = Run { ip: from + 4, stack: r.stack.push(differs), ..r };
            execution::lemma_here(c, r);
            execution::lemma_onward(c, r, r, r1);
            execution::lemma_onward(c, r, r1, r2);
            assert(r2.stack.take(r2.stack.len() - 2) =~= r.stack);
            execution::lemma_onward(c, r, r2, r3);
            assert(r3.stack.drop_last() =~= r.stack);
            if v == Datum::Undefined {
                let r4 = Run { ip: from + 7, ..r };
                execution::lemma_onward(c, r, r3, r4);
                execution::lemma_onward(c, r, r4, Run { ip: from + 8, ..r });
            } else {
                execution::lemma_onward(c, r, r3, Run { ip: done + 4, ..r });
            }
        }
    }
    assert forall|r: Run| #[trigger] takes_default(c, slot as int, done, done + 4, r) by {
        if r.ip == done && slot + 1 < r.stack.len() {
            let r1 = Run { ip: done + 1, ..r };
            let r2 = Run { ip: done + 3, stack: r.stack.update(slot as int, r.stack.last()), ..r };
            let r3 = Run {
                ip: done + 4,
                stack: r.stack.drop_last().update(slot as int, r.stack.last()),
                ..r
            };
            execution::lemma_here(c, r);
            execution::lemma_onward(c, r, r, r1);
            execution::lemma_onward(c, r, r1, r2);
            assert(r2.stack.drop_last() =~= r3.stack);
            execution::lemma_onward(c, r, r2, r3);
        }
    }
}

/// On entry to a function, a parameter with a default keeps its argument unless that is
/// `undefined`; just where it is, the default is evaluated, and its value becomes that of the
/// parameter. The code of the parameters behind follows. A parameter without a default takes
/// no code.
#[verifier::spinoff_prover]
pub proof fn law_param_default<'p>(st: CState<'p>, fuel: nat, params: &'p Vec<Pattern>, i: int)
    requires
        kept::fit(st),
        0 <= i < params@.len(),
        i < 256,
        st.compile_param_defaults(fuel, params, i) matches Ok(e) && e.chunk.code.len() <= usize::MAX
            && !e.chunk.jump_overflow,
    ensures
        match &params@[i] {
            Pattern::Assignment(a) => {
                let e = st.compile_param_defaults(fuel, params, i)->Ok_0.chunk;
                exists|next: CState<'p>, first: int, done: int|
                    #![trigger defaults_from(st, next, fuel, params, i), default_shape(
                        e,
                        fuel,
                        &a.right,
                        i,
                        st.chunk.code.len() as int,
                        first,
                        done,
                        next.chunk.code.len() as int,
                    )]
                    defaults_from(st, next, fuel, params, i) && default_shape(
                        e,
                        fuel,
                        &a.right,
                        i,
                        st.chunk.code.len() as int,
                        first,
                        done,
                        next.chunk.code.len() as int,
                    )
            },
            _ => defaults_from(st, st, fuel, params, i),
        },
{
    match &params@[i] {
        Pattern::Assignment(a) => {
            let slot = i as u8;
            let s1 = default_begun(st, slot);
            lemma_begun(st, slot);
            let at = s1.here();
            let s2 = s1.op(OpCode::JumpIfTrue, 0).raw16(0).op(
                OpCode::BeginParamExpr,
                0,
            ).begin_default(i as usize, params@.len() as usize);
            lemma_branch_begun(s1, i as usize, params@.len() as usize);
            let x = s2.compile_expr(fuel, &a.right)->Ok_0;
            control::lemma_expr(s2, fuel, &a.right);
            let y = default_ended(x, slot);
            lemma_ended(x, slot);
            let next = y.patch_short(at);
            assert(defaults_from(st, next, fuel, params, i));
            let e = next.compile_param_defaults(fuel, params, i + 1)->Ok_0;
            lemma_patch_short(y, at);
            assert(kept::kept(control::floor_of(next), next)) by {
                reveal(kept::kept);
            }
            kept_expressions::pass_compile_param_defaults(
                control::floor_of(next),
                next,
                fuel,
                params,
                i + 1,
            );
            assert(control::builds(next, e)) by {
                reveal(kept::kept);
            }
            reveal(CState::here);
            let from = st.chunk.code.len() as int;
            let done = x.chunk.code.len() as int;
            assert(control::expr_from(s2, x, fuel, &a.right));
            lemma_default_code(e.chunk, slot, from, done);
            assert(default_shape(
                e.chunk,
                fuel,
                &a.right,
                i,
                from,
                from + 8,
                done,
                next.chunk.code.len() as int,
            ));
        },
        _ => {
            assert(defaults_from(st, st, fuel, params, i));
        },
    }
}

proof fn lemma_patch_short<'p>(st: CState<'p>, at: usize)
    ensures
        ({
            let e = st.patch_short(at);
            &&& e.chunk.code.len() == st.chunk.code.len()
            &&& forall|i: int|
                0 <= i < st.chunk.code.len() && i != at + 1 && i != at + 2
                    ==> #[trigger] e.chunk.code[i] == st.chunk.code[i]
            &&& st.chunk.jump_overflow ==> e.chunk.jump_overflow
            &&& at + 3 <= st.chunk.code.len() && !e.chunk.jump_overflow ==> execution::jump_to(
                e.chunk,
                at as int,
            ) == st.chunk.code.len()
            &&& e.loops == st.loops
            &&& e.marks == st.marks
        }),
{
    reveal(CState::patch_short);
    if at + 3 <= st.chunk.code.len() && !st.patch_short(at).chunk.jump_overflow {
        chunk::law_patched_jump_lands(st.chunk, (at + 1) as nat);
    }
}

} // verus!
