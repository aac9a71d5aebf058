//! For loops, the tests of a switch, and where break and continue lead.

use vstd::prelude::*;
use crate::ast::node::{Expression, ForInit, ForStatement, SwitchCase};
use crate::compiler::chunk::ChunkView;
use crate::compiler::compiler::state;
use crate::compiler::compiler::state::{CState, Failure};
use crate::compiler::compiler::LoopView;
use crate::compiler::control;
use crate::compiler::execution;
use crate::compiler::execution::{Datum, Run};
use crate::compiler::kept;
use crate::compiler::kept_expressions;
use crate::compiler::opcode::OpCode;
use crate::compiler::shape;
use crate::util::interner::StringId;

verus! {

/// Whether a break with a label, or without one, can leave an open statement.
pub open spec fn breaks(open: LoopView, label: Option<StringId>) -> bool {
    label is None || open.label == label
}

/// Whether a continue with a label, or without one, can go on with an open statement.
pub open spec fn continues(open: LoopView, label: Option<StringId>) -> bool {
    !open.is_switch && (label is None || open.label == label)
}

/// A break leaves the innermost open statement that it can leave.
pub proof fn law_break_target(loops: Seq<LoopView>, label: Option<StringId>, n: nat)
    requires
        n <= loops.len() <= usize::MAX,
    ensures
        match state::find_break_target(loops, label, n) {
            Some(at) => at < n && breaks(loops[at as int], label) && forall|k: int|
                at < k < n ==> !breaks(#[trigger] loops[k], label),
            None => forall|k: int| 0 <= k < n ==> !breaks(#[trigger] loops[k], label),
        },
    decreases n,
{
    if n > 0 {
        law_break_target(loops, label, (n - 1) as nat);
    }
}

/// A continue goes on with the innermost open loop that it can go on with; a switch is none.
pub proof fn law_continue_target(loops: Seq<LoopView>, label: Option<StringId>, n: nat)
    requires
        n <= loops.len() <= usize::MAX,
    ensures
        match state::find_continue_target(loops, label, n) {
            Some(at) => at < n && continues(loops[at as int], label) && forall|k: int|
                at < k < n ==> !continues(#[trigger] loops[k], label),
            None => forall|k: int| 0 <= k < n ==> !continues(#[trigger] loops[k], label),
        },
    decreases n,
{
    if n > 0 {
        law_continue_target(loops, label, (n - 1) as nat);
    }
}

/// Where control goes in a for loop: behind the head, which ends at `headed`, comes the test,
/// if there is one, behind which a true value leads into the body and a false one to `out`,
/// behind the loop; behind the body, which ends at `done`, comes the update, if there is one,
/// whose value is dropped, and control goes back to the test. Only what closes the scope of
/// the loop stands behind `out`.
pub open spec fn for_shape<'p>(
    c: ChunkView,
    fuel: nat,
    f: &'p ForStatement,
    from: int,
    headed: int,
    start: int,
    body: int,
    done: int,
    updated: int,
    out: int,
) -> bool {
    &&& match &f.init {
        Some(ForInit::Expression(init)) => control::expr_between(
            c,
            fuel,
            init,
            from,
            headed - 1,
        ) && control::drops(
            c,
            headed - 1,
        ),
        Some(ForInit::Variable(_)) => from <= headed,
        None => from == headed,
    }
    &&& control::resets(c, headed, start)
    &&& match &f.test {
        Some(test) => control::expr_between(c, fuel, test, start, body - 3) && control::branches(
            c,
            body - 3,
            body,
            out,
        ),
        None => body == start,
    }
    &&& control::stmt_between(c, fuel, &f.body, body, done)
    &&& match &f.update {
        Some(update) => control::expr_between(c, fuel, update, done, updated - 1) && control::drops(
            c,
            updated - 1,
        ),
        None => updated == done,
    }
    &&& control::leads(c, updated, start)
    &&& out == updated + 3
}

/// The state in which the head of a for loop is compiled.
#[verifier::opaque]
spec fn for_headed<'p>(st: CState<'p>, fuel: nat, f: &'p ForStatement) -> Result<
    CState<'p>,
    Failure,
> {
    let st = if shape::lexical_head(*f) {
        st.begin_scope()
    } else {
        st
    };
    match &f.init {
        Some(ForInit::Variable(decl)) => st.compile_var_declaration(
            fuel,
            decl.kind,
            &decl.declarations,
            0,
        ),
        Some(ForInit::Expression(init)) => match st.compile_expr(fuel, init) {
            Ok(st) => Ok(st.op(OpCode::Pop, f.span.start)),
            Err(e) => Err(e),
        },
        None => Ok(st),
    }
}

proof fn lemma_for_head<'p>(st: CState<'p>, fuel: nat, f: &'p ForStatement)
    requires
        kept::fit(st),
        for_headed(st, fuel, f) is Ok,
    ensures
        ({
            let e = for_headed(st, fuel, f)->Ok_0;
            &&& st.chunk.code.len() <= e.chunk.code.len()
            &&& e.marks == st.marks
            &&& f.init is None ==> e.chunk == st.chunk
            &&& f.init matches Some(ForInit::Expression(_)) ==> st.chunk.code.len()
                < e.chunk.code.len()
            &&& f.init matches Some(ForInit::Expression(init)) ==> exists|a: CState<'p>, b: CState<
                'p,
            >| #[trigger]
                control::expr_from(a, b, fuel, &init) && a.chunk == st.chunk && e == b.op(
                    OpCode::Pop,
                    f.span.start,
                )
        }),
{
    reveal(for_headed);
    reveal(CState::begin_scope);
    reveal(kept::kept);
    let s = if shape::lexical_head(*f) {
        st.begin_scope()
    } else {
        st
    };
    match &f.init {
        Some(ForInit::Variable(decl)) => {
            kept_expressions::pass_compile_var_declaration(
                control::floor_of(s),
                s,
                fuel,
                decl.kind,
                &decl.declarations,
                0,
            );
        },
        Some(ForInit::Expression(init)) => {
            control::lemma_expr(s, fuel, init);
            let b = s.compile_expr(fuel, init)->Ok_0;
            control::lemma_op(b, OpCode::Pop, f.span.start);
            assert(control::expr_from(s, b, fuel, init));
        },
        None => {},
    }
}

proof fn lemma_end_scope<'p>(st: CState<'p>)
    requires
        kept::fit(st),
    ensures
        st.chunk.code.len() <= st.end_scope().chunk.code.len(),
        st.end_scope().chunk.code.len() <= usize::MAX ==> control::builds(st, st.end_scope()),
{
    assert(kept::kept(control::floor_of(st), st)) by {
        reveal(kept::kept);
    }
    kept::grow_end_scope(st);
    kept::keep_end_scope(control::floor_of(st), st);
    reveal(kept::kept);
}

/// The body of a for loop, compiled.
#[verifier::opaque]
spec fn for_body<'p>(c: CState<'p>, fuel: nat, f: &'p ForStatement) -> CState<'p> {
    c.compile_statement(fuel, &f.body)->Ok_0
}

/// Where the update of a for loop starts.
#[verifier::opaque]
spec fn for_turn<'p>(c: CState<'p>, fuel: nat, f: &'p ForStatement) -> CState<'p> {
    for_body(c, fuel, f).set_continue_here().patch_continues()
}

/// The update of a for loop, compiled.
#[verifier::opaque]
spec fn for_updated<'p>(c: CState<'p>, fuel: nat, f: &'p ForStatement, line: u32) -> CState<'p> {
    match &f.update {
        Some(update) => for_turn(c, fuel, f).compile_expr(fuel, update)->Ok_0.op(
            OpCode::Pop,
            line,
        ),
        None => for_turn(c, fuel, f),
    }
}

/// Body and update of a for loop.
#[verifier::spinoff_prover]
proof fn lemma_for_turn<'p>(c: CState<'p>, fuel: nat, f: &'p ForStatement, line: u32)
    requires
        kept::fit(c),
        c.loops.len() > 0,
        c.loops.last().break_patches.len() == 0,
        c.loops.last().continue_patches.len() == 0,
        c.compile_statement(fuel, &f.body) is Ok,
        f.update matches Some(update) ==> for_turn(c, fuel, f).compile_expr(fuel, &update) is Ok,
    ensures
        ({
            let d = for_body(c, fuel, f);
            let t = for_turn(c, fuel, f);
            let u = for_updated(c, fuel, f, line);
            &&& c.chunk.code.len() <= d.chunk.code.len() == t.chunk.code.len()
            &&& d.chunk.code.len() <= u.chunk.code.len()
            &&& u.marks == c.marks
            &&& t.marks == c.marks
            &&& u.loops.len() == c.loops.len()
            &&& d.loops.len() == c.loops.len()
            &&& u.loops.last().break_patches == d.loops.last().break_patches
            &&& u.chunk.code.len() <= usize::MAX ==> {
                &&& c.chunk.jump_overflow ==> u.chunk.jump_overflow
                &&& kept::all_between(
                    d.loops.last().break_patches,
                    c.chunk.code.len() as int,
                    d.chunk.code.len() as int,
                )
                &&& forall|i: int|
                    0 <= i < c.chunk.code.len() ==> #[trigger] u.chunk.code[i] == c.chunk.code[i]
                &&& forall|i: int|
                    c.chunk.code.len() <= i < d.chunk.code.len() ==> #[trigger] u.chunk.code[i]
                        == d.chunk.code[i] || control::waits_on(d, i)
            }
        }),
{
    reveal(for_body);
    reveal(for_turn);
    reveal(for_updated);
    let d = for_body(c, fuel, f);
    control::lemma_stmt(c, c.loops.len() - 1, fuel, &f.body);
    let d1 = d.set_continue_here();
    reveal(CState::set_continue_here);
    let t = d1.patch_continues();
    control::lemma_continues(d1);
    let u = for_updated(c, fuel, f, line);
    if let Some(update) = &f.update {
        control::lemma_expr(t, fuel, update);
        control::lemma_op(t.compile_expr(fuel, update)->Ok_0, OpCode::Pop, line);
    }
    let last = d.loops[d.loops.len() - 1];
    assert(d1.loops.last().continue_patches == last.continue_patches);
    if u.chunk.code.len() <= usize::MAX {
        assert(kept::all_between(
            last.continue_patches,
            c.chunk.code.len() as int,
            d.chunk.code.len() as int,
        ));
        assert forall|i: int| 0 <= i < c.chunk.code.len() implies #[trigger] u.chunk.code[i]
            == c.chunk.code[i] by {
            assert(t.chunk.code[i] == d1.chunk.code[i]);
        }
        assert forall|i: int|
            c.chunk.code.len() <= i < d.chunk.code.len() implies #[trigger] u.chunk.code[i]
            == d.chunk.code[i] || control::waits_on(d, i) by {
            if !control::waits_on(d, i) {
                assert forall|j: int| 0 <= j < last.continue_patches.len() implies
                    #[trigger] last.continue_patches[j] != i && last.continue_patches[j] + 1
                    != i by {
                    assert(d.loops[d.loops.len() - 1].continue_patches[j]
                        == last.continue_patches[j]);
                }
                assert(t.chunk.code[i] == d1.chunk.code[i]);
            }
        }
    }
}

/// What follows the jump back of a for loop: its exit is led behind it, so are its breaks, and
/// its scope is closed.
#[verifier::opaque]
spec fn for_left<'p>(r: CState<'p>, f: &'p ForStatement, exit: usize) -> CState<'p> {
    let p = if f.test is Some {
        r.patch(exit)
    } else {
        r
    };
    if shape::lexical_head(*f) {
        p.patch_loop_breaks().end_scope()
    } else {
        p.patch_loop_breaks()
    }
}

#[verifier::spinoff_prover]
proof fn lemma_for_left<'p>(r: CState<'p>, f: &'p ForStatement, exit: usize)
    requires
        kept::fit(r),
        r.loops.len() > 0,
    ensures
        ({
            let e = for_left(r, f, exit);
            let broken = r.loops.last().break_patches;
            &&& r.chunk.code.len() <= e.chunk.code.len()
            &&& e.chunk.code.len() <= usize::MAX ==> {
                &&& r.chunk.jump_overflow ==> e.chunk.jump_overflow
                &&& forall|i: int|
                    0 <= i < r.chunk.code.len() && i != exit && i != exit + 1 && (forall|j: int|
                        0 <= j < broken.len() ==> #[trigger] broken[j] != i && broken[j] + 1 != i)
                        ==> #[trigger] e.chunk.code[i] == r.chunk.code[i]
                &&& f.test is None ==> forall|i: int|
                    0 <= i < r.chunk.code.len() && (forall|j: int|
                        0 <= j < broken.len() ==> #[trigger] broken[j] != i && broken[j] + 1 != i)
                        ==> #[trigger] e.chunk.code[i] == r.chunk.code[i]
                &&& f.test is Some && 1 <= exit && exit + 2 <= r.chunk.code.len()
                    && !e.chunk.jump_overflow && (forall|j: int|
                    0 <= j < broken.len() ==> #[trigger] broken[j] >= exit + 2)
                    ==> execution::jump_to(e.chunk, exit - 1) == r.chunk.code.len()
            }
        }),
{
    reveal(for_left);
    let p = if f.test is Some {
        r.patch(exit)
    } else {
        r
    };
    control::lemma_patch(r, exit);
    let x = p.patch_loop_breaks();
    control::lemma_leave_loop(p);
    let e = for_left(r, f, exit);
    if shape::lexical_head(*f) {
        lemma_end_scope(x);
    }
    let broken = r.loops.last().break_patches;
    if e.chunk.code.len() <= usize::MAX && 1 <= exit && exit + 2 <= r.chunk.code.len() && (forall|
        j: int,
    |
        0 <= j < broken.len() ==> #[trigger] broken[j] >= exit + 2) {
        assert(e.chunk.code[exit as int] == p.chunk.code[exit as int]);
        assert(e.chunk.code[exit + 1] == p.chunk.code[exit + 1]);
    }
}

/// Where the body of a for loop starts, and where the offset of its exit stands.
#[verifier::opaque]
spec fn for_tested<'p>(a: CState<'p>, fuel: nat, f: &'p ForStatement) -> (CState<'p>, usize) {
    match &f.test {
        Some(test) => a.compile_expr(fuel, test)->Ok_0.jump(OpCode::JumpIfFalse, f.span.start),
        None => (a, 0),
    }
}

/// The state in which the loop of a for statement is entered.
#[verifier::opaque]
spec fn for_entered<'p>(h: CState<'p>, f: &'p ForStatement) -> CState<'p> {
    let i0 = h.emit_completion_reset(f.span.start);
    let (i1, label) = i0.take_label();
    i1.enter_loop(i0.here(), label, f.update is Some)
}

/// A for loop is compiled in these steps.
proof fn lemma_for_steps<'p>(st: CState<'p>, fuel: nat, f: &'p ForStatement)
    requires
        st.compile_for(fuel, f) is Ok,
    ensures
        ({
            let h = for_headed(st, fuel, f)->Ok_0;
            let a = for_entered(h, f);
            let target = h.emit_completion_reset(f.span.start).here();
            let (c, exit) = for_tested(a, fuel, f);
            let u = for_updated(c, fuel, f, f.span.start);
            &&& for_headed(st, fuel, f) is Ok
            &&& f.test matches Some(test) ==> a.compile_expr(fuel, &test) is Ok
            &&& c.compile_statement(fuel, &f.body) is Ok
            &&& f.update matches Some(update) ==> for_turn(c, fuel, f).compile_expr(
                fuel,
                &update,
            ) is Ok
            &&& st.compile_for(fuel, f)->Ok_0 == for_left(
                u.back(target, f.span.start),
                f,
                exit,
            )
        }),
{
    reveal(for_headed);
    reveal(for_body);
    reveal(for_turn);
    reveal(for_updated);
    reveal(for_left);
    reveal(for_tested);
    reveal(for_entered);
}

/// Code that stands in a chunk stands in any that agrees with it there.
proof fn lemma_moved<'p>(
    a: ChunkView,
    b: ChunkView,
    fuel: nat,
    expr: &'p Expression,
    from: int,
    to: int,
)
    requires
        control::expr_between(a, fuel, expr, from, to),
        to <= b.code.len(),
        forall|i: int| from <= i < to ==> #[trigger] b.code[i] == a.code[i],
    ensures
        control::expr_between(b, fuel, expr, from, to),
{
    let (x, y) = choose|x: CState<'p>, y: CState<'p>| #[trigger]
        control::expr_from(x, y, fuel, expr) && x.chunk.code.len() == from && y.chunk.code.len()
            == to && from <= to <= a.code.len() && forall|i: int|
            from <= i < to ==> #[trigger] a.code[i] == y.chunk.code[i];
    assert(control::expr_from(x, y, fuel, expr));
}

/// Head, completion and entry of a for loop.
proof fn lemma_for_entered<'p>(h: CState<'p>, f: &'p ForStatement)
    ensures
        ({
            let i0 = h.emit_completion_reset(f.span.start);
            let a = for_entered(h, f);
            &&& a.chunk == i0.chunk
            &&& a.marks == h.marks
            &&& a.loops.len() > 0
            &&& a.loops.last().break_patches.len() == 0
            &&& a.loops.last().continue_patches.len() == 0
            &&& i0.chunk.code.len() <= usize::MAX ==> i0.here() == a.chunk.code.len()
        }),
{
    reveal(for_entered);
    control::lemma_reset(h, f.span.start);
    reveal(CState::take_label);
    reveal(CState::here);
    let i0 = h.emit_completion_reset(f.span.start);
    let (i1, label) = i0.take_label();
    control::lemma_enter_loop(i1, i0.here(), label, f.update is Some);
}

/// The test of a for loop.
proof fn lemma_for_tested<'p>(a: CState<'p>, fuel: nat, f: &'p ForStatement)
    requires
        kept::fit(a),
        f.test matches Some(test) ==> a.compile_expr(fuel, &test) is Ok,
    ensures
        ({
            let (c, exit) = for_tested(a, fuel, f);
            let n = c.chunk.code.len() as int;
            &&& a.chunk.code.len() <= n
            &&& c.marks == a.marks
            &&& c.loops == a.loops
            &&& n <= usize::MAX ==> control::builds(a, c)
            &&& f.test is None ==> c == a
            &&& n <= usize::MAX ==> (f.test matches Some(test) ==> {
                &&& control::expr_between(c.chunk, fuel, &test, a.chunk.code.len() as int, n - 3)
                &&& c.chunk.code[n - 3] == OpCode::JumpIfFalse.byte()
                &&& exit == n - 2
                &&& a.chunk.code.len() + 3 <= n
            })
        }),
{
    reveal(for_tested);
    if let Some(test) = &f.test {
        control::lemma_expr(a, fuel, test);
        let b = a.compile_expr(fuel, test)->Ok_0;
        control::lemma_jump(b, OpCode::JumpIfFalse, f.span.start);
        assert(control::expr_from(a, b, fuel, test));
    }
}

/// The update of a for loop.
proof fn lemma_for_updated<'p>(c: CState<'p>, fuel: nat, f: &'p ForStatement, line: u32)
    requires
        kept::fit(for_turn(c, fuel, f)),
        f.update matches Some(update) ==> for_turn(c, fuel, f).compile_expr(fuel, &update) is Ok,
    ensures
        ({
            let t = for_turn(c, fuel, f);
            let u = for_updated(c, fuel, f, line);
            let n = u.chunk.code.len() as int;
            &&& f.update is None ==> u == t
            &&& n <= usize::MAX ==> (f.update matches Some(update) ==> {
                &&& control::expr_between(u.chunk, fuel, &update, t.chunk.code.len() as int, n - 1)
                &&& u.chunk.code[n - 1] == OpCode::Pop.byte()
                &&& t.chunk.code.len() + 1 <= n
            })
        }),
{
    reveal(for_updated);
    if let Some(update) = &f.update {
        let t = for_turn(c, fuel, f);
        control::lemma_expr(t, fuel, update);
        let b = t.compile_expr(fuel, update)->Ok_0;
        control::lemma_op(b, OpCode::Pop, line);
        assert(control::expr_from(t, b, fuel, update));
    }
}

/// A for loop evaluates its head once and its test before each turn, runs the body where the
/// test gives a true value and the update behind the body, and ends with the first false
/// value.
#[verifier::spinoff_prover]
pub proof fn law_for<'p>(st: CState<'p>, fuel: nat, f: &'p ForStatement)
    requires
        kept::fit(st),
        st.compile_for(fuel, f) matches Ok(e) && e.chunk.code.len() <= usize::MAX
            && !e.chunk.jump_overflow,
    ensures
        ({
            let e = st.compile_for(fuel, f)->Ok_0.chunk;
            exists|headed: int, start: int, body: int, done: int, updated: int, out: int|
                out <= e.code.len() && #[trigger] for_shape(
                    e,
                    fuel,
                    f,
                    st.chunk.code.len() as int,
                    headed,
                    start,
                    body,
                    done,
                    updated,
                    out,
                )
        }),
{
    let line = f.span.start;
    let e = st.compile_for(fuel, f)->Ok_0;
    lemma_for_steps(st, fuel, f);
    lemma_for(st, e, fuel, f);
}

#[verifier::spinoff_prover]
proof fn lemma_for<'p>(st: CState<'p>, e: CState<'p>, fuel: nat, f: &'p ForStatement)
    requires
        kept::fit(st),
        e.chunk.code.len() <= usize::MAX,
        !e.chunk.jump_overflow,
        ({
            let h = for_headed(st, fuel, f)->Ok_0;
            let a = for_entered(h, f);
            let target = h.emit_completion_reset(f.span.start).here();
            let (c, exit) = for_tested(a, fuel, f);
            let u = for_updated(c, fuel, f, f.span.start);
            &&& for_headed(st, fuel, f) is Ok
            &&& f.test matches Some(test) ==> a.compile_expr(fuel, &test) is Ok
            &&& c.compile_statement(fuel, &f.body) is Ok
            &&& f.update matches Some(update) ==> for_turn(c, fuel, f).compile_expr(
                fuel,
                &update,
            ) is Ok
            &&& e == for_left(u.back(target, f.span.start), f, exit)
        }),
    ensures
        exists|headed: int, start: int, body: int, done: int, updated: int, out: int|
            out <= e.chunk.code.len() && #[trigger] for_shape(
                e.chunk,
                fuel,
                f,
                st.chunk.code.len() as int,
                headed,
                start,
                body,
                done,
                updated,
                out,
            ),
{
    let line = f.span.start;
    let h = for_headed(st, fuel, f)->Ok_0;
    lemma_for_head(st, fuel, f);
    let i0 = h.emit_completion_reset(line);
    control::lemma_reset(h, line);
    let target = i0.here();
    let a = for_entered(h, f);
    lemma_for_entered(h, f);
    let (c, exit) = for_tested(a, fuel, f);
    lemma_for_tested(a, fuel, f);
    lemma_for_turn(c, fuel, f, line);
    let d = for_body(c, fuel, f);
    let t = for_turn(c, fuel, f);
    let u = for_updated(c, fuel, f, line);
    lemma_for_updated(c, fuel, f, line);
    let r = u.back(target, line);
    assert(u.chunk.code.len() <= r.chunk.code.len() && r.loops == u.loops && r.marks == u.marks)
        by {
        reveal(CState::back);
    }
    lemma_for_left(r, f, exit);
    control::lemma_back(u, target, line);
    let from = st.chunk.code.len() as int;
    let headed = h.chunk.code.len() as int;
    let start = a.chunk.code.len() as int;
    let body = c.chunk.code.len() as int;
    let done = d.chunk.code.len() as int;
    let updated = u.chunk.code.len() as int;
    let out = r.chunk.code.len() as int;
    let broken = r.loops.last().break_patches;
    assert(broken == d.loops.last().break_patches);
    assert(kept::all_between(broken, body, done));
    assert forall|i: int| 0 <= i < out && (i < body || done <= i) && (f.test is None || i < body - 2
        || body <= i) implies #[trigger] e.chunk.code[i] == r.chunk.code[i] by {}
    lemma_for_body_stands(c, d, u, r, e, fuel, f, exit);
    lemma_for_back(u, r, e, target, body);
    if start > headed {
        assert(e.chunk.code[headed] == i0.chunk.code[headed]);
        assert(e.chunk.code[headed + 1] == i0.chunk.code[headed + 1]);
        control::lemma_resets(e.chunk, headed);
    }
    if let Some(test) = &f.test {
        assert(e.chunk.code[body - 3] == c.chunk.code[body - 3]);
        control::lemma_branches(e.chunk, body - 3);
        assert forall|i: int| start <= i < body - 3 implies #[trigger] e.chunk.code[i]
            == c.chunk.code[i] by {}
        lemma_moved(c.chunk, e.chunk, fuel, test, start, body - 3);
    }
    if let Some(update) = &f.update {
        assert forall|i: int| done <= i < updated implies #[trigger] e.chunk.code[i]
            == u.chunk.code[i] by {}
        control::lemma_drops(e.chunk, updated - 1);
        lemma_moved(u.chunk, e.chunk, fuel, update, done, updated - 1);
    }
    if let Some(ForInit::Expression(init)) = &f.init {
        assert forall|i: int| 0 <= i < headed implies #[trigger] e.chunk.code[i]
            == h.chunk.code[i] by {}
        lemma_for_init(st, h, e.chunk, fuel, init, line);
    }
    assert(for_shape(e.chunk, fuel, f, from, headed, start, body, done, updated, out));
}

proof fn lemma_for_init<'p>(
    st: CState<'p>,
    h: CState<'p>,
    e: ChunkView,
    fuel: nat,
    init: &'p Expression,
    line: u32,
)
    requires
        exists|a: CState<'p>, b: CState<'p>| #[trigger]
            control::expr_from(a, b, fuel, init) && a.chunk == st.chunk && h == b.op(
                OpCode::Pop,
                line,
            ),
        st.chunk.code.len() < h.chunk.code.len() <= e.code.len(),
        forall|i: int| 0 <= i < h.chunk.code.len() ==> #[trigger] e.code[i] == h.chunk.code[i],
    ensures
        control::expr_between(
            e,
            fuel,
            init,
            st.chunk.code.len() as int,
            h.chunk.code.len() - 1,
        ),
        control::drops(e, h.chunk.code.len() - 1),
{
    let (a, b) = choose|a: CState<'p>, b: CState<'p>| #[trigger]
        control::expr_from(a, b, fuel, init) && a.chunk == st.chunk && h == b.op(
            OpCode::Pop,
            line,
        );
    control::lemma_op(b, OpCode::Pop, line);
    assert(e.code[h.chunk.code.len() - 1] == OpCode::Pop.byte());
    control::lemma_drops(e, h.chunk.code.len() - 1);
    assert(control::expr_from(a, b, fuel, init));
}

proof fn lemma_for_back<'p>(
    u: CState<'p>,
    r: CState<'p>,
    e: CState<'p>,
    target: usize,
    body: int,
)
    requires
        ({
            let n = u.chunk.code.len() as int;
            &&& n + 3 <= e.chunk.code.len()
            &&& r.chunk.code.len() == n + 3
            &&& r.chunk.code[n] == OpCode::Loop.byte()
            &&& n + 3 - execution::operand(r.chunk, n) == target
            &&& forall|i: int| n <= i < n + 3 ==> #[trigger] e.chunk.code[i] == r.chunk.code[i]
        }),
    ensures
        control::leads(e.chunk, u.chunk.code.len() as int, target as int),
{
    let n = u.chunk.code.len() as int;
    assert(e.chunk.code[n] == r.chunk.code[n]);
    assert(e.chunk.code[n + 1] == r.chunk.code[n + 1]);
    assert(e.chunk.code[n + 2] == r.chunk.code[n + 2]);
    control::lemma_branches(e.chunk, n);
}

proof fn lemma_for_body_stands<'p>(
    c: CState<'p>,
    d: CState<'p>,
    u: CState<'p>,
    r: CState<'p>,
    e: CState<'p>,
    fuel: nat,
    f: &'p ForStatement,
    exit: usize,
)
    requires
        c.compile_statement(fuel, &f.body) is Ok,
        d == for_body(c, fuel, f),
        d.loops.len() > 0,
        r.loops.last().break_patches == d.loops.last().break_patches,
        c.chunk.code.len() <= d.chunk.code.len() <= u.chunk.code.len(),
        u.chunk.code.len() <= r.chunk.code.len() <= e.chunk.code.len(),
        f.test is None || exit + 2 <= c.chunk.code.len(),
        forall|i: int|
            c.chunk.code.len() <= i < d.chunk.code.len() ==> #[trigger] u.chunk.code[i]
                == d.chunk.code[i] || control::waits_on(d, i),
        forall|i: int|
            0 <= i < u.chunk.code.len() ==> #[trigger] r.chunk.code[i] == u.chunk.code[i],
        forall|i: int|
            0 <= i < r.chunk.code.len() && (f.test is None || (i != exit && i != exit + 1)) && (
            forall|j: int|
                0 <= j < r.loops.last().break_patches.len()
                    ==> #[trigger] r.loops.last().break_patches[j] != i
                    && r.loops.last().break_patches[j] + 1 != i) ==> #[trigger] e.chunk.code[i]
                == r.chunk.code[i],
    ensures
        control::stmt_between(
            e.chunk,
            fuel,
            &f.body,
            c.chunk.code.len() as int,
            d.chunk.code.len() as int,
        ),
{
    reveal(for_body);
    let broken = r.loops.last().break_patches;
    assert(control::stmt_from(c, d, fuel, &f.body));
    assert forall|i: int|
        c.chunk.code.len() <= i < d.chunk.code.len() implies #[trigger] e.chunk.code[i]
        == d.chunk.code[i] || control::waits(d, i) || control::waits_on(d, i) by {
        if !control::waits(d, i) {
            assert forall|j: int| 0 <= j < broken.len() implies #[trigger] broken[j] != i
                && broken[j] + 1 != i by {
                assert(d.loops[d.loops.len() - 1].break_patches[j] == broken[j]);
            }
            assert(e.chunk.code[i] == r.chunk.code[i]);
            assert(r.chunk.code[i] == u.chunk.code[i]);
        }
    }
}

/// Whether the code behind the value of a case compares it with the value of the switch, which
/// stands below it: where they are strictly equal, control goes where the jump leads, and
/// otherwise on. The value of the switch stays.
pub open spec fn chooses(c: ChunkView, tested: int, r: Run) -> bool {
    let n = r.stack.len() as int;
    r.ip == tested && n > 1 ==> execution::reaches(
        c,
        r,
        (Run {
            ip: if r.stack[n - 2] == r.stack[n - 1] {
                execution::jump_to(c, tested + 1)
            } else {
                tested + 4
            },
            stack: r.stack.take(n - 2),
            ..r
        }),
    )
}

/// The test of a case: the value of the switch is copied, the value of the case evaluated, and
/// the two compared.
pub open spec fn case_shape<'p>(
    c: ChunkView,
    fuel: nat,
    test: &'p Expression,
    from: int,
    tested: int,
) -> bool {
    &&& forall|r: Run|
        r.ip == from && r.stack.len() > 0 ==> (#[trigger] execution::step(c, r)) == Some(
            (Run { ip: from + 1, stack: r.stack.push(r.stack.last()), ..r }),
        )
    &&& control::expr_between(c, fuel, test, from + 1, tested)
    &&& forall|r: Run| #[trigger] chooses(c, tested, r)
}

/// Whether the tests from a case on are compiled from a state.
pub open spec fn tests_from<'p>(
    st: CState<'p>,
    next: CState<'p>,
    fuel: nat,
    line: u32,
    cases: &'p Vec<SwitchCase>,
    i: int,
) -> bool {
    st.compile_case_tests(fuel, line, cases, i) == next.compile_case_tests(fuel, line, cases, i + 1)
}

/// A switch compares its value with that of each case that has one, in order, by strict
/// equality, and leaves the comparisons with the first that is equal. The default has no test.
#[verifier::spinoff_prover]
pub proof fn law_case_test<'p>(
    st: CState<'p>,
    fuel: nat,
    line: u32,
    cases: &'p Vec<SwitchCase>,
    i: int,
)
    requires
        kept::fit(st),
        0 <= i < cases@.len(),
        st.compile_case_tests(fuel, line, cases, i) matches Ok(e) && e.chunk.code.len()
            <= usize::MAX,
    ensures
        match &cases@[i].test {
            Some(test) => {
                let e = st.compile_case_tests(fuel, line, cases, i)->Ok_0.chunk;
                exists|next: CState<'p>, tested: int|
                    #![trigger tests_from(st, next, fuel, line, cases, i), case_shape(
                        e,
                        fuel,
                        test,
                        st.chunk.code.len() as int,
                        tested,
                    )]
                    tests_from(st, next, fuel, line, cases, i) && case_shape(
                        e,
                        fuel,
                        test,
                        st.chunk.code.len() as int,
                        tested,
                    ) && next.chunk.code.len() == tested + 4
            },
            None => tests_from(st, st, fuel, line, cases, i),
        },
{
    match &cases@[i].test {
        Some(test) => {
            let a = st.op(OpCode::Dup, line);
            control::lemma_op(st, OpCode::Dup, line);
            let x = a.compile_expr(fuel, test)->Ok_0;
            control::lemma_expr(a, fuel, test);
            let y = x.op(OpCode::StrictEq, line);
            control::lemma_op(x, OpCode::StrictEq, line);
            let (z, jump) = y.jump(OpCode::JumpIfTrue, line);
            control::lemma_jump(y, OpCode::JumpIfTrue, line);
            let next = z.push_mark(jump);
            reveal(CState::push_mark);
            assert(tests_from(st, next, fuel, line, cases, i));
            let e = next.compile_case_tests(fuel, line, cases, i + 1)->Ok_0;
            assert(kept::kept(control::floor_of(next), next)) by {
                reveal(kept::kept);
            }
            kept_expressions::pass_compile_case_tests(
                control::floor_of(next),
                next,
                fuel,
                line,
                cases,
                i + 1,
            );
            assert(forall|k: int|
                0 <= k < next.chunk.code.len() ==> #[trigger] e.chunk.code[k]
                    == next.chunk.code[k]) by {
                reveal(kept::kept);
            }
            let from = st.chunk.code.len() as int;
            let tested = x.chunk.code.len() as int;
            let c = e.chunk;
            assert(control::expr_from(a, x, fuel, test));
            reveal(execution::performed);
            execution::lemma_instruction(c, from, OpCode::Dup);
            execution::lemma_instruction(c, tested, OpCode::StrictEq);
            execution::lemma_instruction(c, tested + 1, OpCode::JumpIfTrue);
            assert forall|r: Run| #[trigger] chooses(c, tested, r) by {
                let n = r.stack.len() as int;
                if r.ip == tested && n > 1 {
                    let equal = Datum::Bool(r.stack[n - 2] == r.stack[n - 1]);
                    let r1 = Run { ip: tested + 1, stack: r.stack.take(n - 2).push(equal), ..r };
                    execution::lemma_here(c, r);
                    execution::lemma_onward(c, r, r, r1);
                    assert(r1.stack.drop_last() =~= r.stack.take(n - 2));
                    execution::lemma_onward(
                        c,
                        r,
                        r1,
                        Run {
                            ip: if r.stack[n - 2] == r.stack[n - 1] {
                                execution::jump_to(c, tested + 1)
                            } else {
                                tested + 4
                            },
                            stack: r.stack.take(n - 2),
                            ..r
                        },
                    );
                }
            }
            assert(case_shape(c, fuel, test, from, tested));
        },
        None => {
            assert(tests_from(st, st, fuel, line, cases, i));
        },
    }
}

} // verus!
