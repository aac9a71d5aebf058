//! Where variables live, and what reading, assigning and updating them does.

use vstd::prelude::*;
use crate::ast::node::{Expression, Identifier, UpdateExpression, UpdateOperator};
use crate::compiler::chunk;
use crate::compiler::chunk::{ChunkView, UpvalueDescriptor};
use crate::compiler::compiler::state;
use crate::compiler::compiler::state::{CState, Failure};
use crate::compiler::compiler::{FrameView, Local};
use crate::compiler::control;
use crate::compiler::execution;
use crate::compiler::execution::{Datum, Place, Run};
use crate::compiler::opcode::OpCode;
use crate::runtime::value::Value;
use crate::util::interner::StringId;

verus! {

/// The place of a variable: the innermost local with its name, a local of an enclosing
/// function, or the global.
pub open spec fn home<'p>(st: CState<'p>, name: StringId) -> Place {
    match st.resolve_local(name) {
        Some(slot) => Place::Local(slot as int),
        None => match st.resolve_upvalue(name).1 {
            Some(index) => Place::Captured(index as int),
            None => Place::Global(name),
        },
    }
}

/// Whether a name is that of a plain variable: one that can be assigned, that is not in its
/// dead zone, outside of `with` bodies.
pub open spec fn plain<'p>(st: CState<'p>, name: StringId) -> bool {
    &&& st.with_depth == 0
    &&& !st.param_tdz_violation(name)
    &&& st.locals.len() <= 0x10000
    &&& match st.resolve_local(name) {
        Some(slot) => !st.local_is_self_name(slot) && !st.local_is_const(slot),
        None => !st.name_is(name, "arguments"@) && match st.resolve_upvalue(name).1 {
            Some(_) => !st.resolve_upvalue(name).0.captured_self_name(name),
            None => !st.is_const_global(name),
        },
    }
}

/// Whether a chunk holds the code and the constants of a state.
pub open spec fn covers<'p>(c: ChunkView, st: CState<'p>) -> bool {
    &&& st.chunk.code.len() <= c.code.len()
    &&& forall|i: int| 0 <= i < st.chunk.code.len() ==> #[trigger] c.code[i] == st.chunk.code[i]
    &&& st.chunk.constants.len() <= c.constants.len() <= 0x10000
    &&& forall|i: int|
        0 <= i < st.chunk.constants.len() ==> #[trigger] c.constants[i] == st.chunk.constants[i]
}

/// Whether the instruction at a position pushes the value at a place.
pub open spec fn reads(c: ChunkView, at: int, to: int, place: Place) -> bool {
    forall|r: Run|
        r.ip == at && execution::value_at(r, place) is Some ==> (#[trigger] execution::step(c, r))
            == Some(
            (Run { ip: to, stack: r.stack.push(execution::value_at(r, place)->0), ..r }),
        )
}

/// Whether the instruction at a position puts the value on top of the stack at a place.
pub open spec fn stores(c: ChunkView, at: int, to: int, place: Place) -> bool {
    forall|r: Run|
        r.ip == at && r.stack.len() > 0 && (place matches Place::Local(slot) ==> slot
            < r.stack.len()) ==> (#[trigger] execution::step(c, r)) == Some(
            (Run { ip: to, ..execution::put_at(r, place, r.stack.last()) }),
        )
}

proof fn lemma_find(a: Seq<Local>, b: Seq<Local>, name: StringId, n: nat)
    requires
        n <= a.len(),
        a.len() == b.len(),
        forall|i: int| 0 <= i < a.len() ==> (#[trigger] a[i]).name == b[i].name,
    ensures
        state::find_local(a, name, n) == state::find_local(b, name, n),
    decreases n,
{
    if n > 0 {
        lemma_find(a, b, name, (n - 1) as nat);
    }
}

proof fn lemma_found(locals: Seq<Local>, name: StringId, n: nat)
    requires
        n <= locals.len(),
    ensures
        state::find_local(locals, name, n) matches Some(i) ==> i < n || n > usize::MAX,
    decreases n,
{
    if n > 0 {
        lemma_found(locals, name, (n - 1) as nat);
    }
}

proof fn lemma_first(upvalues: Seq<UpvalueDescriptor>, u: UpvalueDescriptor, from: nat)
    requires
        from <= upvalues.len(),
    ensures
        ({
            let more = state::upvalue_added(upvalues, u);
            let at = state::first_upvalue(upvalues, u, from);
            &&& from <= at <= upvalues.len()
            &&& at < upvalues.len() ==> upvalues[at as int] == u
            &&& state::first_upvalue(upvalues.push(u), u, from) == at
        }),
    decreases upvalues.len() - from,
{
    let pushed = upvalues.push(u);
    if from < upvalues.len() {
        assert(pushed[from as int] == upvalues[from as int]);
        lemma_first(upvalues, u, from + 1);
    } else {
        assert(pushed[from as int] == u);
    }
}

proof fn lemma_added(upvalues: Seq<UpvalueDescriptor>, u: UpvalueDescriptor)
    ensures
        ({
            let more = state::upvalue_added(upvalues, u);
            &&& state::first_upvalue(more, u, 0) == state::first_upvalue(upvalues, u, 0)
            &&& state::upvalue_added(more, u) == more
        }),
{
    lemma_first(upvalues, u, 0);
}

/// Resolving reads only the functions below its level, and changes no others.
proof fn lemma_captured_frame(
    a: Seq<FrameView>,
    b: Seq<FrameView>,
    upvalues: Seq<UpvalueDescriptor>,
    name: StringId,
    level: nat,
)
    requires
        level <= a.len(),
        a.len() == b.len(),
        forall|i: int| 0 <= i < level ==> a[i] == b[i],
    ensures
        ({
            let (x, own, found) = state::captured(a, upvalues, name, level);
            let (y, other, same) = state::captured(b, upvalues, name, level);
            &&& own == other
            &&& found == same
            &&& x.len() == a.len()
            &&& y.len() == b.len()
            &&& forall|i: int| 0 <= i < level ==> x[i] == y[i]
            &&& forall|i: int| level <= i < a.len() ==> x[i] == a[i]
            &&& forall|i: int| level <= i < b.len() ==> y[i] == b[i]
            &&& found is None ==> x == a && own == upvalues
        }),
    decreases level,
{
    if level > 0 {
        let frame = a[level - 1];
        if state::find_local(frame.locals, name, frame.locals.len()) is None {
            lemma_captured_frame(a, b, frame.upvalues, name, (level - 1) as nat);
        }
    }
}

/// Resolving a name again finds the same and changes nothing.
proof fn lemma_captured_again(
    chain: Seq<FrameView>,
    upvalues: Seq<UpvalueDescriptor>,
    name: StringId,
    level: nat,
)
    requires
        level <= chain.len(),
        forall|i: int| #![trigger chain[i]]
            0 <= i < chain.len() ==> chain[i].locals.len() <= usize::MAX,
    ensures
        ({
            let (next, own, found) = state::captured(chain, upvalues, name, level);
            state::captured(next, own, name, level) == (next, own, found)
        }),
    decreases level,
{
    let (next, own, found) = state::captured(chain, upvalues, name, level);
    if level > 0 {
        let frame = chain[level - 1];
        match state::find_local(frame.locals, name, frame.locals.len()) {
            Some(i) => {
                let marked = frame.locals.update(
                    i as int,
                    Local { captured: true, ..frame.locals[i as int] },
                );
                lemma_found(frame.locals, name, frame.locals.len());
                lemma_find(frame.locals, marked, name, frame.locals.len());
                lemma_added(upvalues, UpvalueDescriptor { index: i as u16, is_local: true });
                assert(marked.update(i as int, Local { captured: true, ..marked[i as int] })
                    =~= marked);
                assert(next.update(level - 1, next[level - 1]) =~= next);
            },
            None => {
                let below = (level - 1) as nat;
                let (outer, inner, index) = state::captured(chain, frame.upvalues, name, below);
                lemma_captured_again(chain, frame.upvalues, name, below);
                lemma_captured_frame(chain, chain, frame.upvalues, name, below);
                if index is Some {
                    lemma_added(
                        upvalues,
                        UpvalueDescriptor { index: index->0, is_local: false },
                    );
                    lemma_captured_frame(outer, next, inner, name, below);
                    let (again, most, _) = state::captured(next, inner, name, below);
                    assert(again =~= next);
                    assert(next.update(level - 1, next[level - 1]) =~= next);
                } else {
                    lemma_captured_frame(chain, chain, frame.upvalues, name, below);
                }
            },
        }
    }
}

/// Whether the locals of the enclosing functions can be counted.
pub open spec fn countable<'p>(st: CState<'p>) -> bool {
    forall|i: int| #![trigger st.chain[i]]
        0 <= i < st.chain.len() ==> st.chain[i].locals.len() <= usize::MAX
}

/// Whether two states have the same variables.
pub open spec fn same_variables<'p>(a: CState<'p>, b: CState<'p>) -> bool {
    &&& b.locals == a.locals
    &&& b.chain == a.chain
    &&& b.upvalues == a.upvalues
    &&& b.with_depth == a.with_depth
    &&& b.floors == a.floors
    &&& b.param_init_active == a.param_init_active
    &&& b.const_globals == a.const_globals
    &&& b.table == a.table
    &&& b.marks == a.marks
}

proof fn lemma_get_slot<'p>(c: ChunkView, st: CState<'p>, slot: usize, line: u32)
    requires
        slot < 0x10000,
        covers(c, st.get_slot(slot, line)),
    ensures
        ({
            let e = st.get_slot(slot, line);
            &&& covers(c, st)
            &&& same_variables(st, e)
            &&& reads(
                c,
                st.chunk.code.len() as int,
                e.chunk.code.len() as int,
                Place::Local(slot as int),
            )
        }),
{
    reveal(CState::op_u8);
    reveal(CState::op_u16);
    reveal(execution::performed);
    let n = st.chunk.code.len() as int;
    let e = st.get_slot(slot, line);
    lemma_covered(c, st, e);
    if slot <= 255 {
        assert(e.chunk.code[n] == OpCode::GetLocal.byte() && e.chunk.code[n + 1] == slot as u8);
        execution::lemma_instruction(c, n, OpCode::GetLocal);
    } else {
        chunk::law_read_emitted_u16(st.chunk, OpCode::GetLocalWide, slot as u16, line);
        assert(e.chunk.code[n] == OpCode::GetLocalWide.byte());
        assert(c.code[n + 1] == e.chunk.code[n + 1] && c.code[n + 2] == e.chunk.code[n + 2]);
        execution::lemma_instruction(c, n, OpCode::GetLocalWide);
    }
}

/// A chunk that holds the code of a state holds that of the states it was built from.
pub(crate) proof fn lemma_covered<'p>(c: ChunkView, a: CState<'p>, b: CState<'p>)
    requires
        covers(c, b),
        a.chunk.code.len() <= b.chunk.code.len(),
        forall|i: int| 0 <= i < a.chunk.code.len() ==> b.chunk.code[i] == a.chunk.code[i],
        a.chunk.constants.len() <= b.chunk.constants.len(),
        forall|i: int|
            0 <= i < a.chunk.constants.len() ==> b.chunk.constants[i] == a.chunk.constants[i],
    ensures
        covers(c, a),
{
    assert forall|i: int| 0 <= i < a.chunk.code.len() implies #[trigger] c.code[i]
        == a.chunk.code[i] by {
        assert(c.code[i] == b.chunk.code[i]);
    }
    assert forall|i: int| 0 <= i < a.chunk.constants.len() implies #[trigger] c.constants[i]
        == a.chunk.constants[i] by {
        assert(c.constants[i] == b.chunk.constants[i]);
    }
}

proof fn lemma_set_slot<'p>(c: ChunkView, st: CState<'p>, slot: usize, line: u32)
    requires
        slot < 0x10000,
        covers(c, st.set_slot(slot, line)),
    ensures
        ({
            let e = st.set_slot(slot, line);
            &&& covers(c, st)
            &&& same_variables(st, e)
            &&& stores(
                c,
                st.chunk.code.len() as int,
                e.chunk.code.len() as int,
                Place::Local(slot as int),
            )
        }),
{
    reveal(CState::op_u8);
    reveal(CState::op_u16);
    reveal(execution::performed);
    let n = st.chunk.code.len() as int;
    let e = st.set_slot(slot, line);
    lemma_covered(c, st, e);
    if slot <= 255 {
        assert(e.chunk.code[n] == OpCode::SetLocal.byte() && e.chunk.code[n + 1] == slot as u8);
        execution::lemma_instruction(c, n, OpCode::SetLocal);
    } else {
        chunk::law_read_emitted_u16(st.chunk, OpCode::SetLocalWide, slot as u16, line);
        assert(e.chunk.code[n] == OpCode::SetLocalWide.byte());
        assert(c.code[n + 1] == e.chunk.code[n + 1] && c.code[n + 2] == e.chunk.code[n + 2]);
        execution::lemma_instruction(c, n, OpCode::SetLocalWide);
    }
}

proof fn lemma_upvalue<'p>(c: ChunkView, st: CState<'p>, index: u16, line: u32)
    ensures
        covers(c, st.get_upvalue(index, line)) ==> covers(c, st) && reads(
            c,
            st.chunk.code.len() as int,
            st.get_upvalue(index, line).chunk.code.len() as int,
            Place::Captured(index as int),
        ),
        covers(c, st.set_upvalue(index, line)) ==> covers(c, st) && stores(
            c,
            st.chunk.code.len() as int,
            st.set_upvalue(index, line).chunk.code.len() as int,
            Place::Captured(index as int),
        ),
        same_variables(st, st.get_upvalue(index, line)),
        same_variables(st, st.set_upvalue(index, line)),
{
    reveal(CState::op_u8);
    reveal(CState::op_u16);
    reveal(execution::performed);
    let n = st.chunk.code.len() as int;
    let g = st.get_upvalue(index, line);
    let s = st.set_upvalue(index, line);
    if covers(c, g) {
        lemma_covered(c, st, g);
        if index <= 255 {
            assert(
                g.chunk.code[n] == OpCode::GetUpvalue.byte() && g.chunk.code[n + 1] == index as u8
            );
            execution::lemma_instruction(c, n, OpCode::GetUpvalue);
        } else {
            chunk::law_read_emitted_u16(st.chunk, OpCode::GetUpvalueWide, index, line);
            assert(g.chunk.code[n] == OpCode::GetUpvalueWide.byte());
            assert(c.code[n + 1] == g.chunk.code[n + 1] && c.code[n + 2] == g.chunk.code[n + 2]);
            execution::lemma_instruction(c, n, OpCode::GetUpvalueWide);
        }
    }
    if covers(c, s) {
        lemma_covered(c, st, s);
        if index <= 255 {
            assert(
                s.chunk.code[n] == OpCode::SetUpvalue.byte() && s.chunk.code[n + 1] == index as u8
            );
            execution::lemma_instruction(c, n, OpCode::SetUpvalue);
        } else {
            chunk::law_read_emitted_u16(st.chunk, OpCode::SetUpvalueWide, index, line);
            assert(s.chunk.code[n] == OpCode::SetUpvalueWide.byte());
            assert(c.code[n + 1] == s.chunk.code[n + 1] && c.code[n + 2] == s.chunk.code[n + 2]);
            execution::lemma_instruction(c, n, OpCode::SetUpvalueWide);
        }
    }
}

proof fn lemma_global<'p>(c: ChunkView, st: CState<'p>, name: StringId, line: u32)
    ensures
        covers(c, st.op_name(OpCode::GetGlobal, name, line)) ==> covers(c, st) && reads(
            c,
            st.chunk.code.len() as int,
            st.op_name(OpCode::GetGlobal, name, line).chunk.code.len() as int,
            Place::Global(name),
        ),
        covers(c, st.op_name(OpCode::SetGlobal, name, line)) ==> covers(c, st) && stores(
            c,
            st.chunk.code.len() as int,
            st.op_name(OpCode::SetGlobal, name, line).chunk.code.len() as int,
            Place::Global(name),
        ),
        same_variables(st, st.op_name(OpCode::GetGlobal, name, line)),
        same_variables(st, st.op_name(OpCode::SetGlobal, name, line)),
{
    reveal(CState::make_string_constant);
    reveal(CState::op_u16);
    reveal(execution::performed);
    let n = st.chunk.code.len() as int;
    let k = st.chunk.constants.len();
    let mid = st.make_string_constant(name).0;
    let g = st.op_name(OpCode::GetGlobal, name, line);
    let s = st.op_name(OpCode::SetGlobal, name, line);
    chunk::law_read_emitted_u16(mid.chunk, OpCode::GetGlobal, k as u16, line);
    chunk::law_read_emitted_u16(mid.chunk, OpCode::SetGlobal, k as u16, line);
    if covers(c, g) {
        lemma_covered(c, st, g);
        assert(g.chunk.code[n] == OpCode::GetGlobal.byte());
        assert(c.code[n + 1] == g.chunk.code[n + 1] && c.code[n + 2] == g.chunk.code[n + 2]);
        assert(c.constants[k as int] == g.chunk.constants[k as int]);
        assert(g.chunk.constants[k as int] == Value::Str(name));
        execution::lemma_instruction(c, n, OpCode::GetGlobal);
    }
    if covers(c, s) {
        lemma_covered(c, st, s);
        assert(s.chunk.code[n] == OpCode::SetGlobal.byte());
        assert(c.code[n + 1] == s.chunk.code[n + 1] && c.code[n + 2] == s.chunk.code[n + 2]);
        assert(c.constants[k as int] == s.chunk.constants[k as int]);
        assert(s.chunk.constants[k as int] == Value::Str(name));
        execution::lemma_instruction(c, n, OpCode::SetGlobal);
    }
}

/// The state once a name is resolved.
spec fn resolved<'p>(st: CState<'p>, name: StringId) -> CState<'p> {
    match st.resolve_local(name) {
        Some(_) => st,
        None => st.resolve_upvalue(name).0,
    }
}

/// Once a name is resolved, it stays where it is.
proof fn lemma_stable<'p>(st: CState<'p>, h: CState<'p>, name: StringId)
    requires
        plain(st, name),
        countable(st),
        same_variables(resolved(st, name), h),
    ensures
        plain(h, name),
        home(h, name) == home(st, name),
{
    reveal(CState::resolve_local);
    reveal(CState::resolve_upvalue);
    reveal(CState::local_is_const);
    reveal(CState::local_is_self_name);
    reveal(CState::param_tdz_violation);
    reveal(CState::name_is);
    reveal(CState::captured_self_name);
    reveal(CState::is_const_global);
    if st.resolve_local(name) is None {
        lemma_captured_again(st.chain, st.upvalues, name, st.chain.len());
        lemma_captured_frame(st.chain, st.chain, st.upvalues, name, st.chain.len());
        let (next, own, found) = state::captured(st.chain, st.upvalues, name, st.chain.len());
        assert(next.len() == st.chain.len());
        assert(h.resolve_upvalue(name).1 == found);
        assert(h.resolve_upvalue(name).0.chain == next);
    }
}

proof fn lemma_local_slot<'p>(st: CState<'p>, name: StringId)
    requires
        st.locals.len() <= 0x10000,
    ensures
        st.resolve_local(name) matches Some(slot) ==> slot < 0x10000,
{
    reveal(CState::resolve_local);
    lemma_found(st.locals, name, st.locals.len());
}

/// Reading a plain variable pushes the value at its place.
proof fn lemma_get<'p>(c: ChunkView, st: CState<'p>, name: StringId, line: u32)
    requires
        plain(st, name),
        covers(c, st.compile_get_variable(name, line)),
    ensures
        ({
            let e = st.compile_get_variable(name, line);
            &&& covers(c, st)
            &&& same_variables(resolved(st, name), e)
            &&& reads(
                c,
                st.chunk.code.len() as int,
                e.chunk.code.len() as int,
                home(st, name),
            )
        }),
{
    reveal(CState::local_needs_with_guard);
    reveal(CState::with_level);
    reveal(CState::name_is);
    lemma_local_slot(st, name);
    match st.resolve_local(name) {
        Some(slot) => {
            lemma_get_slot(c, st, slot, line);
        },
        None => {
            reveal(CState::resolve_upvalue);
            let (next, found) = st.resolve_upvalue(name);
            assert(next.chunk == st.chunk);
            match found {
                Some(index) => {
                    lemma_upvalue(c, next, index, line);
                },
                None => {
                    lemma_global(c, next, name, line);
                },
            }
        },
    }
}

/// Assigning a plain variable puts the value on top of the stack at its place.
proof fn lemma_set<'p>(c: ChunkView, st: CState<'p>, name: StringId, line: u32)
    requires
        plain(st, name),
        covers(c, st.compile_set_variable(name, line)),
    ensures
        ({
            let e = st.compile_set_variable(name, line);
            &&& covers(c, st)
            &&& stores(
                c,
                st.chunk.code.len() as int,
                e.chunk.code.len() as int,
                home(st, name),
            )
        }),
{
    reveal(CState::local_needs_with_guard);
    reveal(CState::with_level);
    reveal(CState::is_const_global);
    lemma_local_slot(st, name);
    match st.resolve_local(name) {
        Some(slot) => {
            lemma_set_slot(c, st, slot, line);
        },
        None => {
            let (next, found) = st.resolve_upvalue(name);
            assert(next.chunk == st.chunk && next.const_globals == st.const_globals
                && next.with_depth == st.with_depth) by {
                reveal(CState::resolve_upvalue);
            }
            match found {
                Some(index) => {
                    lemma_upvalue(c, next, index, line);
                },
                None => {
                    lemma_global(c, next, name, line);
                },
            }
        },
    }
}

/// The code of reading and of assigning a plain variable touches one and the same place.
pub proof fn law_variable<'p>(st: CState<'p>, name: StringId, line: u32)
    requires
        plain(st, name),
    ensures
        ({
            let e = st.compile_get_variable(name, line);
            e.chunk.constants.len() <= 0x10000 ==> reads(
                e.chunk,
                st.chunk.code.len() as int,
                e.chunk.code.len() as int,
                home(st, name),
            )
        }),
        ({
            let e = st.compile_set_variable(name, line);
            e.chunk.constants.len() <= 0x10000 ==> stores(
                e.chunk,
                st.chunk.code.len() as int,
                e.chunk.code.len() as int,
                home(st, name),
            )
        }),
{
    let g = st.compile_get_variable(name, line);
    if g.chunk.constants.len() <= 0x10000 {
        lemma_get(g.chunk, st, name, line);
    }
    let s = st.compile_set_variable(name, line);
    if s.chunk.constants.len() <= 0x10000 {
        lemma_set(s.chunk, st, name, line);
    }
}

/// What an update adds.
pub open spec fn change(operator: UpdateOperator) -> int {
    match operator {
        UpdateOperator::Increment => 1,
        UpdateOperator::Decrement => -1,
    }
}

pub(crate) proof fn lemma_op_covered<'p>(c: ChunkView, st: CState<'p>, op: OpCode, line: u32)
    requires
        covers(c, st.op(op, line)),
        op.size() == 1,
    ensures
        covers(c, st),
        same_variables(st, st.op(op, line)),
        st.op(op, line).chunk.code.len() == st.chunk.code.len() + 1,
        execution::instruction(c, st.chunk.code.len() as int) == Some(op),
{
    control::lemma_op(st, op, line);
    let e = st.op(op, line);
    lemma_covered(c, st, e);
    assert(e.chunk.code[st.chunk.code.len() as int] == op.byte());
    execution::lemma_instruction(c, st.chunk.code.len() as int, op);
}

/// The code of `++` on a plain variable stores its old value, as a number, plus one in it, and
/// that of `--` the old value minus one. Written in front, it leaves the new number on the
/// stack, written behind, the old one.
#[verifier::spinoff_prover]
pub proof fn law_update_variable<'p>(
    st: CState<'p>,
    fuel: nat,
    u: &'p UpdateExpression,
    id: Identifier,
    r: Run,
)
    requires
        u.argument == Expression::Identifier(id),
        plain(st, id.name),
        countable(st),
        st.compile_update(fuel, u) matches Ok(e) && e.chunk.constants.len() <= 0x10000,
        r.ip == st.chunk.code.len(),
        execution::value_at(r, home(st, id.name)) matches Some(d) && execution::numeric(d) is Some,
    ensures
        ({
            let e = st.compile_update(fuel, u)->Ok_0.chunk;
            let place = home(st, id.name);
            let before = execution::numeric(execution::value_at(r, place)->0)->0;
            let after = before + change(u.operator);
            let done = execution::put_at(r, place, Datum::Number(after));
            let left = if u.prefix {
                Datum::Number(after)
            } else {
                Datum::Number(before)
            };
            execution::reaches(
                e,
                r,
                (Run { ip: e.code.len() as int, stack: done.stack.push(left), ..done }),
            )
        }),
{
    let line = u.span.start;
    let name = id.name;
    let place = home(st, name);
    let e = st.compile_update(fuel, u)->Ok_0;
    let c = e.chunk;
    reveal(CState::with_level);
    assert(!st.ident_needs_with_ref(name).1 && st.ident_needs_with_ref(name).0 == st);
    let v = execution::value_at(r, place)->0;
    let before = execution::numeric(v)->0;
    let after = before + change(u.operator);
    let op = if u.operator == UpdateOperator::Increment {
        OpCode::Inc
    } else {
        OpCode::Dec
    };
    let g = st.compile_get_variable(name, line);
    reveal(execution::performed);
    execution::lemma_here(c, r);
    let r1 = Run { ip: g.chunk.code.len() as int, stack: r.stack.push(v), ..r };
    let done = execution::put_at(r, place, Datum::Number(after));
    if u.prefix {
        let h = g.op(op, line);
        assert(e == h.compile_set_variable(name, line));
        assert(covers(c, e));
        control::lemma_op(g, op, line);
        lemma_after_get(st, g, h, name, line);
        lemma_set(c, h, name, line);
        lemma_op_covered(c, g, op, line);
        lemma_get(c, st, name, line);
        let r2 = Run {
            ip: h.chunk.code.len() as int,
            stack: r.stack.push(Datum::Number(after)),
            ..r
        };
        let r3 = Run {
            ip: c.code.len() as int,
            stack: done.stack.push(Datum::Number(after)),
            ..done
        };
        execution::lemma_onward(c, r, r, r1);
        assert(r1.stack.drop_last() =~= r.stack);
        execution::lemma_onward(c, r, r1, r2);
        assert(execution::put_at(r2, place, Datum::Number(after)).stack =~= r3.stack);
        execution::lemma_onward(c, r, r2, r3);
    } else {
        let h1 = g.op(OpCode::ToNumeric, line);
        let h2 = h1.op(OpCode::Dup, line);
        let h = h2.op(op, line);
        let s = h.compile_set_variable(name, line);
        assert(e == s.op(OpCode::Pop, line));
        assert(covers(c, e));
        control::lemma_op(g, OpCode::ToNumeric, line);
        control::lemma_op(h1, OpCode::Dup, line);
        control::lemma_op(h2, op, line);
        lemma_after_get(st, g, h, name, line);
        lemma_op_covered(c, s, OpCode::Pop, line);
        lemma_set(c, h, name, line);
        lemma_op_covered(c, h2, op, line);
        lemma_op_covered(c, h1, OpCode::Dup, line);
        lemma_op_covered(c, g, OpCode::ToNumeric, line);
        lemma_get(c, st, name, line);
        let was = Datum::Number(before);
        let now = Datum::Number(after);
        let r2 = Run { ip: h1.chunk.code.len() as int, stack: r.stack.push(was), ..r };
        let r3 = Run { ip: h2.chunk.code.len() as int, stack: r.stack.push(was).push(was), ..r };
        let r4 = Run { ip: h.chunk.code.len() as int, stack: r.stack.push(was).push(now), ..r };
        let r5 = Run {
            ip: s.chunk.code.len() as int,
            stack: done.stack.push(was).push(now),
            ..done
        };
        let r6 = Run { ip: c.code.len() as int, stack: done.stack.push(was), ..done };
        execution::lemma_onward(c, r, r, r1);
        assert(r1.stack.drop_last() =~= r.stack);
        execution::lemma_onward(c, r, r1, r2);
        execution::lemma_onward(c, r, r2, r3);
        assert(r3.stack.drop_last() =~= r.stack.push(was));
        execution::lemma_onward(c, r, r3, r4);
        assert(execution::put_at(r4, place, now).stack =~= r5.stack);
        execution::lemma_onward(c, r, r4, r5);
        assert(r5.stack.drop_last() =~= r6.stack);
        execution::lemma_onward(c, r, r5, r6);
    }
}

/// A variable that was read is assigned where it was read.
proof fn lemma_after_get<'p>(
    st: CState<'p>,
    g: CState<'p>,
    h: CState<'p>,
    name: StringId,
    line: u32,
)
    requires
        plain(st, name),
        countable(st),
        g == st.compile_get_variable(name, line),
        same_variables(g, h),
    ensures
        plain(h, name),
        home(h, name) == home(st, name),
{
    lemma_got(st, name, line);
    lemma_stable(st, h, name);
}

/// Reading a variable changes nothing but that its name is resolved.
proof fn lemma_got<'p>(st: CState<'p>, name: StringId, line: u32)
    requires
        plain(st, name),
    ensures
        same_variables(resolved(st, name), st.compile_get_variable(name, line)),
{
    reveal(CState::local_needs_with_guard);
    reveal(CState::with_level);
    reveal(CState::name_is);
    reveal(CState::op_u8);
    reveal(CState::op_u16);
    reveal(CState::make_string_constant);
    if st.resolve_local(name) is None {
        reveal(CState::resolve_upvalue);
    }
}

} // verus!
