//! Compiling a switch leaves the code there is alone.

use vstd::prelude::*;
use crate::ast::node::{SwitchCase, SwitchStatement};
use crate::compiler::{kept, kept_expressions, kept_statements, shape};
use crate::compiler::compiler::state::{CState, Failure};
use crate::compiler::opcode::OpCode;

verus! {

/// How a switch ends, once its bodies are compiled.
spec fn switch_ended<'p>(
    st: CState<'p>,
    base: usize,
    starts: usize,
    pop_pos: usize,
    end_of_compare: usize,
    cases: &'p Vec<SwitchCase>,
) -> CState<'p> {
    let st = st.nop_at(pop_pos).aim_cases(base, starts, cases, 0);
    let st = match shape::untested_case(cases@, cases@.len()) {
        Some(di) => st.aim(end_of_compare, st.mark_at(starts.saturating_add(di))),
        None => st.patch(end_of_compare),
    };
    st.drop_marks(base).end_scope().patch_loop_breaks()
}

proof fn lemma_switch_ended<'p>(
    floor: kept::Floor,
    st: CState<'p>,
    base: usize,
    starts: usize,
    pop_pos: usize,
    end_of_compare: usize,
    cases: &'p Vec<SwitchCase>,
)
    ensures
        ({
            let e = switch_ended(st, base, starts, pop_pos, end_of_compare, cases);
            &&& st.chunk.code.len() <= e.chunk.code.len()
            &&& st.chunk.jump_overflow ==> e.chunk.jump_overflow
            &&& st.loops.len() > 0 ==> e.loops.len() == st.loops.len() - 1
            &&& base <= st.marks.len() && kept::fit(st) ==> e.marks == st.marks.take(base as int)
            &&& kept::kept(floor, st) && base >= floor.marks && st.loops.len() > floor.loops && (
            st.chunk.code.len() <= usize::MAX ==> pop_pos >= floor.code.len() && end_of_compare
                >= floor.code.len()) ==> kept::kept(floor, e)
        }),
{
    let a = st.nop_at(pop_pos);
    assert(kept::passed_if(
        st.chunk.code.len() <= usize::MAX ==> pop_pos >= floor.code.len(),
        floor,
        st,
        a,
    ) && a.marks == st.marks) by {
        broadcast use kept::group_steps;

    }
    kept_expressions::pass_aim_cases(floor, a, base, starts, cases, 0);
    let b = a.aim_cases(base, starts, cases, 0);
    assert(b.chunk.code.len() == a.chunk.code.len()) by {
        kept_expressions::lemma_aim_len(a, base, starts, cases, 0);
    }
    let d = match shape::untested_case(cases@, cases@.len()) {
        Some(di) => b.aim(end_of_compare, b.mark_at(starts.saturating_add(di))),
        None => b.patch(end_of_compare),
    };
    assert(a.chunk.code.len() == st.chunk.code.len()) by {
        reveal(CState::nop_at);
    }
    assert(kept::passed_if(
        b.chunk.code.len() <= usize::MAX ==> end_of_compare >= floor.code.len(),
        floor,
        b,
        d,
    ) && d.marks == b.marks) by {
        broadcast use kept::group_steps;

    }
    let f = d.drop_marks(base).end_scope();
    assert(d.chunk.code.len() <= f.chunk.code.len() && f.loops == d.loops && (
    d.chunk.jump_overflow ==> f.chunk.jump_overflow) && (base <= d.marks.len() ==> f.marks
        == d.marks.take(base as int)) && (
            kept::kept(floor, d) && base >= floor.marks ==> kept::kept(floor, f)
        ))
        by {
        broadcast use kept::group_steps;

    }
    broadcast use {
        kept::grow_patch_loop_breaks,
        kept::keep_patch_loop_breaks,
    };

}

pub(crate) proof fn pass_compile_switch<'p>(
    floor: kept::Floor,
    st: CState<'p>,
    fuel: nat,
    s: &'p SwitchStatement,
)
    ensures
        st.compile_switch(fuel, s) matches Ok(e) ==> kept::passed(floor, st, e),
    decreases fuel, s, 0int,
{
    if st.compile_switch(fuel, s) is Ok {
        let line: u32 = s.span.start;
        let a = st.emit_completion_reset(line);
        let outer_depth = a.depth();
        let b = a.compile_expr(fuel, &s.discriminant)->Ok_0;
        let (d, disc_slot_name) = b.begin_scope().intern("(switch discriminant)"@);
        let f = d.declare_local(disc_slot_name);
        let base = f.mark_len();
        let g = f.compile_case_tests(fuel, line, &s.cases, 0)->Ok_0;
        let (h, end_of_compare) = g.jump(OpCode::Jump, line);
        let pop_pos = h.here();
        let k = h.op(OpCode::Pop, line).push_loop(0, outer_depth, None, false, true, None);
        let starts = k.mark_len();
        let l = k.compile_case_bodies(fuel, &s.cases, 0)->Ok_0;
        let e = switch_ended(l, base, starts, pop_pos, end_of_compare, &s.cases);
        assert(st.compile_switch(fuel, s) == Ok::<CState<'p>, Failure>(e));
        lemma_switch_begun(floor, st, line);
        kept_expressions::pass_compile_expr(floor, a, fuel, &s.discriminant);
        lemma_switch_scope(floor, b);
        kept_expressions::pass_compile_case_tests(floor, f, fuel, line, &s.cases, 0);
        lemma_switch_bodies(floor, g, outer_depth, line);
        kept_statements::pass_compile_case_bodies(floor, k, fuel, &s.cases, 0);
        lemma_switch_ended(floor, l, base, starts, pop_pos, end_of_compare, &s.cases);
        kept::grow_mark_len(f);
        if kept::kept(floor, st) {
            kept::keep_fits(floor, st);
            kept::keep_fits(floor, f);
        }
        if kept::fit(st) {
            kept::keep_taken(f.marks, l.marks);
        }
    }
}

proof fn lemma_switch_begun<'p>(floor: kept::Floor, st: CState<'p>, line: u32)
    ensures
        kept::onward(floor, st, st.emit_completion_reset(line)),
{
    kept::grow_emit_completion_reset(st, line);
    if kept::kept(floor, st) {
        kept::keep_fits(floor, st);
        kept::keep_emit_completion_reset(floor, st, line);
    }
}

proof fn lemma_switch_scope<'p>(floor: kept::Floor, st: CState<'p>)
    ensures
        ({
            let (d, name) = st.begin_scope().intern("(switch discriminant)"@);
            kept::onward(floor, st, d.declare_local(name))
        }),
{
    broadcast use {kept::group_steps, kept::group_parts};

}

proof fn lemma_switch_bodies<'p>(floor: kept::Floor, g: CState<'p>, outer_depth: u32, line: u32)
    ensures
        ({
            let (h, end_of_compare) = g.jump(OpCode::Jump, line);
            let k = h.op(OpCode::Pop, line).push_loop(0, outer_depth, None, false, true, None);
            &&& g.chunk.code.len() < k.chunk.code.len()
            &&& k.loops.len() == g.loops.len() + 1
            &&& k.marks == g.marks
            &&& g.chunk.jump_overflow ==> k.chunk.jump_overflow
            &&& kept::kept(floor, g) ==> kept::kept(floor, k)
            &&& k.chunk.code.len() <= usize::MAX ==> end_of_compare > g.chunk.code.len()
                && h.here() > g.chunk.code.len()
        }),
{
    broadcast use kept::group_steps;

}

} // verus!
