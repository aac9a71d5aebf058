//! Compiling a statement leaves the code there is alone, but for the jumps that wait in it.

use vstd::prelude::*;
use crate::ast::node::{
    BreakStatement, CatchClause, ContinueStatement, DoWhileStatement, ExportDeclaration,
    ForInStatement, ForInit, ForOfStatement, ForStatement, IfStatement, LabeledStatement,
    Pattern, ReturnStatement, Statement, SwitchCase, TryStatement, WhileStatement,
    WithStatement,
};
use crate::compiler::{kept, kept_expressions, kept_switch, names, shape};
use crate::compiler::chunk::FLAG_SCRIPT;
use crate::compiler::compiler::{FinallyEntry, state, steps};
use crate::compiler::compiler::state::CState;
use crate::compiler::opcode::OpCode;
use crate::util::interner::StringId;

verus! {

pub(crate) proof fn pass_compile_statement<'p>(
    floor: kept::Floor,
    st: CState<'p>,
    fuel: nat,
    stmt: &'p Statement,
)
    ensures
        st.compile_statement(fuel, stmt) matches Ok(e) ==> kept::passed(floor, st, e),
    decreases fuel, stmt, 5int,
{
    broadcast use {kept::group_steps, kept::group_parts};

    match stmt {
        Statement::Expression(e) => {
            kept_expressions::pass_compile_expr(floor, st, fuel, &e.expression);
        },
        Statement::Variable(decl) => {
            kept_expressions::pass_compile_var_declaration(
                floor,
                st,
                fuel,
                decl.kind,
                &decl.declarations,
                0,
            );
        },
        Statement::Block(block) => {
            let st = st.begin_scope();
            pass_compile_statements(floor, st, fuel, &block.body, 0);
        },
        Statement::If(s) => {
            pass_compile_if(floor, st, fuel, s);
        },
        Statement::While(w) => {
            pass_compile_while(floor, st, fuel, w);
        },
        Statement::DoWhile(d) => {
            pass_compile_do_while(floor, st, fuel, d);
        },
        Statement::For(f) => {
            pass_compile_for(floor, st, fuel, f);
        },
        Statement::ForIn(f) => {
            pass_compile_for_in(floor, st, fuel, f);
        },
        Statement::ForOf(f) => {
            pass_compile_for_of(floor, st, fuel, f);
        },
        Statement::Switch(s) => {
            kept_switch::pass_compile_switch(floor, st, fuel, s);
        },
        Statement::Return(r) => {
            pass_compile_return(floor, st, fuel, r);
        },
        Statement::Break(b) => {
            if fuel == 0 {
            } else {
                pass_compile_break(floor, st, (fuel - 1) as nat, b);
            }
        },
        Statement::Continue(c) => {
            if fuel == 0 {
            } else {
                pass_compile_continue(floor, st, (fuel - 1) as nat, c);
            }
        },
        Statement::Throw(t) => {
            kept_expressions::pass_compile_expr(floor, st, fuel, &t.argument);
        },
        Statement::Try(t) => {
            pass_compile_try(floor, st, fuel, t);
        },
        Statement::Function(f) => {
            kept_expressions::pass_compile_function_decl(floor, st, fuel, f);
        },
        Statement::Class(c) => {
            kept_expressions::pass_compile_class_decl(floor, st, fuel, c);
        },
        Statement::Labeled(l) => {
            pass_compile_labeled(floor, st, fuel, l);
        },
        Statement::With(w) => {
            pass_compile_with(floor, st, fuel, w);
        },
        Statement::Import(i) => {
            kept_expressions::pass_compile_import(floor, st, i);
        },
        Statement::Export(e) => {
            pass_compile_export(floor, st, fuel, e);
        },
        _ => {},
    }
}

pub(crate) proof fn pass_compile_body_statements<'p>(
    floor: kept::Floor,
    st: CState<'p>,
    fuel: nat,
    hoisted: Seq<StringId>,
    stmts: &'p Vec<Statement>,
    i: int,
)
    ensures
        st.compile_body_statements(fuel, hoisted, stmts, i) matches Ok(e) ==> kept::passed(
            floor,
            st,
            e,
        ),
    decreases fuel, stmts, stmts@.len() - i,
{
    broadcast use {kept::group_steps, kept::group_parts};

    if 0 <= i < stmts@.len() {
        let stmt = &stmts@[i];
        if let Statement::Function(f) = stmt {
            if let Some(name) = f.id {
                if (state::first_name(hoisted, name, 0) < hoisted.len()) {
                    pass_compile_body_statements(floor, st, fuel, hoisted, stmts, i + 1);
                } else {
                    pass_compile_statement(floor, st, fuel, stmt);
                    let st = st.compile_statement(fuel, stmt)->Ok_0;
                    pass_compile_body_statements(floor, st, fuel, hoisted, stmts, i + 1);
                }
            } else {
                pass_compile_statement(floor, st, fuel, stmt);
                let st = st.compile_statement(fuel, stmt)->Ok_0;
                pass_compile_body_statements(floor, st, fuel, hoisted, stmts, i + 1);
            }
        } else {
            pass_compile_statement(floor, st, fuel, stmt);
            let st = st.compile_statement(fuel, stmt)->Ok_0;
            pass_compile_body_statements(floor, st, fuel, hoisted, stmts, i + 1);
        }
    }
}

pub(crate) proof fn pass_compile_statements<'p>(
    floor: kept::Floor,
    st: CState<'p>,
    fuel: nat,
    stmts: &'p Vec<Statement>,
    i: int,
)
    ensures
        st.compile_statements(fuel, stmts, i) matches Ok(e) ==> kept::passed(floor, st, e),
    decreases fuel, stmts, stmts@.len() - i,
{
    broadcast use {kept::group_steps, kept::group_parts};

    if 0 <= i < stmts@.len() {
        let stmt = &stmts@[i];
        pass_compile_statement(floor, st, fuel, stmt);
        let st = st.compile_statement(fuel, stmt)->Ok_0;
        pass_compile_statements(floor, st, fuel, stmts, i + 1);
    }
}

pub(crate) proof fn pass_compile_if<'p>(
    floor: kept::Floor,
    st: CState<'p>,
    fuel: nat,
    s: &'p IfStatement,
)
    ensures
        st.compile_if(fuel, s) matches Ok(e) ==> kept::passed(floor, st, e),
    decreases fuel, s, 0int,
{
    broadcast use {kept::group_steps, kept::group_parts};

    let line: u32 = s.span.start;
    let is_script = st.has_flag(FLAG_SCRIPT);
    kept_expressions::pass_compile_expr(floor, st, fuel, &s.test);
    let st = st.compile_expr(fuel, &s.test)->Ok_0;
    let (st, then_jump) = st.jump(OpCode::JumpIfFalse, line);
    let st = st.emit_completion_reset(line);
    pass_compile_statement(floor, st, fuel, &s.consequent);
    let st = st.compile_statement(fuel, &s.consequent)->Ok_0;
    match &s.alternate {
        Some(alt) => {
            let (st, else_jump) = st.jump(OpCode::Jump, line);
            let st = st.patch(then_jump);
            let st = st.emit_completion_reset(line);
            pass_compile_statement(floor, st, fuel, alt);
        },
        None => {},
    }
}

pub(crate) proof fn pass_compile_while<'p>(
    floor: kept::Floor,
    st: CState<'p>,
    fuel: nat,
    w: &'p WhileStatement,
)
    ensures
        st.compile_while(fuel, w) matches Ok(e) ==> kept::passed(floor, st, e),
    decreases fuel, w, 0int,
{
    broadcast use {kept::group_steps, kept::group_parts};

    let line: u32 = w.span.start;
    let st = st.emit_completion_reset(line);
    let (st, label) = st.take_label();
    let loop_start = st.here();
    let st = st.enter_loop(loop_start, label, false);
    kept_expressions::pass_compile_expr(floor, st, fuel, &w.test);
    let st = st.compile_expr(fuel, &w.test)->Ok_0;
    let (st, exit_jump) = st.jump(OpCode::JumpIfFalse, line);
    pass_compile_statement(floor, st, fuel, &w.body);
}

pub(crate) proof fn pass_compile_do_while<'p>(
    floor: kept::Floor,
    st: CState<'p>,
    fuel: nat,
    d: &'p DoWhileStatement,
)
    ensures
        st.compile_do_while(fuel, d) matches Ok(e) ==> kept::passed(floor, st, e),
    decreases fuel, d, 0int,
{
    broadcast use {kept::group_steps, kept::group_parts};

    let line: u32 = d.span.start;
    let st = st.emit_completion_reset(line);
    let (st, label) = st.take_label();
    let loop_start = st.here();
    let st = st.enter_loop(loop_start, label, true);
    pass_compile_statement(floor, st, fuel, &d.body);
    let st = st.compile_statement(fuel, &d.body)->Ok_0;
    let st = st.patch_continues();
    kept_expressions::pass_compile_expr(floor, st, fuel, &d.test);
}

pub(crate) proof fn pass_compile_for<'p>(
    floor: kept::Floor,
    st: CState<'p>,
    fuel: nat,
    f: &'p ForStatement,
)
    ensures
        st.compile_for(fuel, f) matches Ok(e) ==> kept::passed(floor, st, e),
    decreases fuel, f, 1int,
{
    broadcast use {kept::group_steps, kept::group_parts};

    let line: u32 = f.span.start;
    let needs_scope: bool = shape::lexical_head(*f);
    let st = if needs_scope {
        let st = st.begin_scope();
        st
    } else {
        st
    };
    let st = match &f.init {
        Some(init) => {
            let st = match init {
                ForInit::Variable(decl) => {
                    kept_expressions::pass_compile_var_declaration(
                        floor,
                        st,
                        fuel,
                        decl.kind,
                        &decl.declarations,
                        0,
                    );
                    let st = st.compile_var_declaration(
                        fuel,
                        decl.kind,
                        &decl.declarations,
                        0,
                    )->Ok_0;
                    st
                },
                ForInit::Expression(expr) => {
                    kept_expressions::pass_compile_expr(floor, st, fuel, expr);
                    let st = st.compile_expr(fuel, expr)->Ok_0;
                    let st = st.op(OpCode::Pop, line);
                    st
                },
            };
            st
        },
        None => {
            st
        },
    };
    let st = st.emit_completion_reset(line);
    let loop_start = st.here();
    let (st, label) = st.take_label();
    let st = st.enter_loop(loop_start, label, f.update.is_some());
    match &f.test {
        Some(test) => {
            kept_expressions::pass_compile_expr(floor, st, fuel, test);
            let st = st.compile_expr(fuel, test)->Ok_0;
            let (st, exit) = st.jump(OpCode::JumpIfFalse, line);
            pass_compile_for_rest(floor, st, fuel, f, loop_start, line);
        },
        None => {
            pass_compile_for_rest(floor, st, fuel, f, loop_start, line);
        },
    }
}

pub(crate) proof fn pass_compile_for_rest<'p>(
    floor: kept::Floor,
    st: CState<'p>,
    fuel: nat,
    f: &'p ForStatement,
    loop_start: usize,
    line: u32,
)
    ensures
        st.compile_for_rest(fuel, f, loop_start, line) matches Ok(e) ==> kept::passed_if(
            st.loops.len() > floor.loops,
            floor,
            st,
            e,
        ),
    decreases fuel, f, 0int,
{
    broadcast use {kept::group_steps, kept::group_parts};

    pass_compile_statement(floor, st, fuel, &f.body);
    let st = st.compile_statement(fuel, &f.body)->Ok_0;
    let st = st.set_continue_here();
    let st = st.patch_continues();
    match &f.update {
        Some(update) => {
            kept_expressions::pass_compile_expr(floor, st, fuel, update);
        },
        None => {},
    }
}

pub(crate) proof fn pass_compile_for_in<'p>(
    floor: kept::Floor,
    st: CState<'p>,
    fuel: nat,
    f: &'p ForInStatement,
)
    ensures
        st.compile_for_in(fuel, f) matches Ok(e) ==> kept::passed(floor, st, e),
    decreases fuel, f, 0int,
{
    broadcast use {kept::group_steps, kept::group_parts};

    let line: u32 = f.span.start;
    let is_var: bool = shape::var_head(f.left);
    let is_const: bool = shape::const_head(f.left);
    let is_bare: bool = shape::bare_head(f.left);
    let var_name: Option<StringId> = shape::name_of_head(f.left);
    let st = if !is_var {
        let st = st.begin_scope();
        st
    } else {
        st
    };
    let st = if is_bare {
        let st = if let Some(n) = var_name {
            let st = st.check_strict_restricted(n, "assignment target"@)->Ok_0;
            st
        } else {
            st
        };
        st
    } else {
        st
    };
    let (st, global_head) = st.declare_for_in(var_name, is_var || is_bare, line);
    let fresh_local: bool = var_name.is_some() && !(is_var || is_bare) && !global_head;
    let local_slot = st.last_slot();
    kept_expressions::pass_compile_expr(floor, st, fuel, &f.right);
    let st = st.compile_expr(fuel, &f.right)->Ok_0;
    let st = st.op(OpCode::GetForInIterator, line);
    let iter_slot = st.next_slot();
    let st = if fresh_local {
        let (st, anon) = st.intern("(for-in-iter)"@);
        let st = st.declare_local(anon);
        st
    } else {
        st
    };
    let st = st.emit_completion_reset(line);
    let loop_start = st.here();
    let st = if fresh_local {
        let st = st.op_u8(OpCode::GetLocal, iter_slot, line);
        st
    } else {
        let st = st.op(OpCode::Dup, line);
        st
    };
    let st = st.op(OpCode::IteratorNext, line);
    let st = st.op(OpCode::Dup, line);
    let st = st.op(OpCode::IteratorDone, line);
    let (st, exit_jump) = st.jump(OpCode::JumpIfTrue, line);
    let st = st.op(OpCode::IteratorValue, line);
    let st = match var_name {
        Some(name) => {
            let st = if fresh_local {
                let st = st.op_u8(OpCode::InitLet, local_slot, line);
                st
            } else {
                st
            };
            let st = if is_const {
                let st = if fresh_local {
                    let st = st.op_u8(OpCode::SetLocal, local_slot, line);
                    let st = st.op(OpCode::Pop, line);
                    let st = st.set_const(local_slot as usize);
                    st
                } else if global_head {
                    let st = st.op_name(OpCode::SetGlobal, name, line);
                    let st = st.op(OpCode::Pop, line);
                    let st = st.add_const_global(name);
                    st
                } else {
                    st
                };
                st
            } else {
                let st = st.compile_set_variable(name, line);
                let st = st.op(OpCode::Pop, line);
                st
            };
            st
        },
        None => {
            let st = st.op(OpCode::Pop, line);
            st
        },
    };
    let st = st.enter_loop(loop_start, None, false);
    pass_compile_statement(floor, st, fuel, &f.body);
}

pub(crate) proof fn pass_compile_for_of<'p>(
    floor: kept::Floor,
    st: CState<'p>,
    fuel: nat,
    f: &'p ForOfStatement,
)
    ensures
        st.compile_for_of(fuel, f) matches Ok(e) ==> kept::passed(floor, st, e),
    decreases fuel, f, 0int,
{
    broadcast use {kept::group_steps, kept::group_parts};

    let line: u32 = f.span.start;
    let is_var: bool = shape::var_head(f.left);
    let fresh: bool = shape::fresh_head(f.left);
    let st = if !is_var {
        let st = st.begin_scope();
        st
    } else {
        st
    };
    kept_expressions::pass_declare_for_of_head(floor, st, &f.left, line);
    let st = st.declare_for_of_head(&f.left, line);
    kept_expressions::pass_compile_expr(floor, st, fuel, &f.right);
    let st = st.compile_expr(fuel, &f.right)->Ok_0;
    let st = st.op(OpCode::GetIterator, line);
    let (st, anon) = st.intern("(for-of-iter)"@);
    let st = st.declare_local(anon);
    let last = st.last_index();
    let iter_slot: u16 = last as u16;
    let st = st.emit_completion_reset(line);
    let loop_start = st.here();
    let st = st.op(OpCode::Dup, line);
    let st = st.op(OpCode::IteratorNext, line);
    let st = st.op(OpCode::Dup, line);
    let st = st.op(OpCode::IteratorDone, line);
    let (st, exit_jump) = st.jump(OpCode::JumpIfTrue, line);
    let st = st.op(OpCode::IteratorValue, line);
    kept_expressions::pass_bind_for_of_value(floor, st, fuel, &f.left, line);
    let st = st.bind_for_of_value(fuel, &f.left, line)->Ok_0;
    let here_depth = st.depth();
    let loop_depth: u32 = if fresh { here_depth.wrapping_sub(1) } else { here_depth };
    let st = st.byte(OpCode::PushExcHandler.byte(), line);
    let handler = st.here();
    let st = st.raw16(0xFFFF);
    let st = st.raw16(0xFFFF);
    let st = st.push_loop(loop_start, loop_depth, None, false, false, Some(iter_slot));
    pass_compile_statement(floor, st, fuel, &f.body);
}

pub(crate) proof fn pass_compile_case_bodies<'p>(
    floor: kept::Floor,
    st: CState<'p>,
    fuel: nat,
    cases: &'p Vec<SwitchCase>,
    i: int,
)
    ensures
        st.compile_case_bodies(fuel, cases, i) matches Ok(e) ==> kept::gathered(floor, st, e),
    decreases fuel, cases, cases@.len() - i,
{
    broadcast use {kept::group_steps, kept::group_parts};

    if 0 <= i < cases@.len() {
        let case = &cases@[i];
        let start = st.here();
        let st = st.push_mark(start);
        pass_compile_statements(floor, st, fuel, &case.consequent, 0);
        let st = st.compile_statements(fuel, &case.consequent, 0)->Ok_0;
        pass_compile_case_bodies(floor, st, fuel, cases, i + 1);
    }
}

pub(crate) proof fn pass_compile_return<'p>(
    floor: kept::Floor,
    st: CState<'p>,
    fuel: nat,
    r: &'p ReturnStatement,
)
    ensures
        st.compile_return(fuel, r) matches Ok(e) ==> kept::passed(floor, st, e),
    decreases fuel, r, 0int,
{
    broadcast use {kept::group_steps, kept::group_parts};

    let line: u32 = r.span.start;
    match &r.argument {
        Some(arg) => {
            kept_expressions::pass_compile_expr(floor, st, fuel, arg);
            let st = st.compile_expr(fuel, arg)->Ok_0;
            if fuel == 0 {
            } else {
                pass_compile_abrupt_unwind(floor, st, (fuel - 1) as nat, None, 0, false, line);
            }
        },
        None => {
            if fuel == 0 {
            } else {
                pass_compile_abrupt_unwind(floor, st, (fuel - 1) as nat, None, 0, false, line);
            }
        },
    }
}

pub(crate) proof fn pass_compile_abrupt_unwind<'p>(
    floor: kept::Floor,
    st: CState<'p>,
    fuel: nat,
    target: Option<usize>,
    try_depth: usize,
    pop_handler: bool,
    line: u32,
)
    ensures
        st.compile_abrupt_unwind(
            fuel,
            target,
            try_depth,
            pop_handler,
            line,
        ) matches Ok(e) ==> kept::passed(floor, st, e),
    decreases fuel, target, 0int,
{
    broadcast use {kept::group_steps, kept::group_parts};

    let (st, levels) = st.detach_finally(try_depth);
    let depth: usize = steps::depth_behind(levels, try_depth);
    let lo: usize = match target { Some(at) => at.wrapping_add(1), None => 0 };
    let li = st.loop_len();
    if fuel == 0 {
    } else {
        pass_unwind_loops(floor, st, (fuel - 1) as nat, levels, try_depth, depth, lo, li, line);
        let (st, left) = st.unwind_loops(
            (fuel - 1) as nat,
            levels,
            try_depth,
            depth,
            lo,
            li,
            line,
        )->Ok_0;
        pass_unwind_levels(floor, st, (fuel - 1) as nat, levels, try_depth, left, try_depth, line);
    }
}

pub(crate) proof fn pass_unwind_loops<'p>(
    floor: kept::Floor,
    st: CState<'p>,
    fuel: nat,
    levels: Seq<FinallyEntry<'p>>,
    base: usize,
    depth: usize,
    lo: usize,
    li: usize,
    line: u32,
)
    ensures
        st.unwind_loops(
            fuel,
            levels,
            base,
            depth,
            lo,
            li,
            line,
        ) matches Ok((e, _)) ==> kept::passed(
            floor,
            st,
            e,
        ),
    decreases fuel, levels, li as int,
{
    broadcast use {kept::group_steps, kept::group_parts};

    if li > lo {
        let at: usize = li.wrapping_sub(1);
        let entered = st.loop_try_depth(at);
        let boundary: usize = if entered > base { entered } else { base };
        if fuel == 0 {
        } else {
            pass_unwind_levels(floor, st, (fuel - 1) as nat, levels, base, depth, boundary, line);
            let st = st.unwind_levels((fuel - 1) as nat, levels, base, depth, boundary, line)->Ok_0;
            let st = if let Some(slot) = st.loop_iter_slot(at) {
                let st = st.op(OpCode::PopExcHandler, line);
                let st = st.get_slot(slot as usize, line);
                let st = st.op(OpCode::IteratorClose, line);
                st
            } else {
                st
            };
            let left: usize = if depth > boundary { boundary } else { depth };
            pass_unwind_loops(floor, st, fuel, levels, base, left, lo, at, line);
        }
    }
}

pub(crate) proof fn pass_unwind_levels<'p>(
    floor: kept::Floor,
    st: CState<'p>,
    fuel: nat,
    levels: Seq<FinallyEntry<'p>>,
    base: usize,
    from: usize,
    to: usize,
    line: u32,
)
    ensures
        st.unwind_levels(fuel, levels, base, from, to, line) matches Ok(e) ==> kept::passed(
            floor,
            st,
            e,
        ),
    decreases fuel, levels, from as int,
{
    broadcast use {kept::group_steps, kept::group_parts};

    if from > to {
        let at: usize = from.wrapping_sub(1);
        let level: FinallyEntry<'p> = steps::level_at(levels, base, at);
        let st = if level.active {
            let st = st.op(OpCode::PopExcHandler, line);
            st
        } else {
            st
        };
        if let Some(body) = level.body {
            if fuel == 0 {
            } else {
                pass_compile_statements(floor, st, (fuel - 1) as nat, body, 0);
                let st = st.compile_statements((fuel - 1) as nat, body, 0)->Ok_0;
                pass_unwind_levels(floor, st, fuel, levels, base, at, to, line);
            }
        } else {
            pass_unwind_levels(floor, st, fuel, levels, base, at, to, line);
        }
    }
}

pub(crate) proof fn pass_compile_break<'p>(
    floor: kept::Floor,
    st: CState<'p>,
    fuel: nat,
    b: &'p BreakStatement,
)
    ensures
        st.compile_break(fuel, b) matches Ok(e) ==> kept::passed(floor, st, e),
    decreases fuel, b, 0int,
{
    broadcast use {kept::group_steps, kept::group_parts};

    let line: u32 = b.span.start;
    if st.no_loops() {
    } else {
        match st.find_break(b.label) {
            Some(at) => {
                if fuel == 0 {
                } else {
                    pass_unwind_to_loop(floor, st, (fuel - 1) as nat, at, line);
                }
            },
            None => {},
        }
    }
}

pub(crate) proof fn pass_unwind_to_loop<'p>(
    floor: kept::Floor,
    st: CState<'p>,
    fuel: nat,
    at: usize,
    line: u32,
)
    ensures
        st.unwind_to_loop(fuel, at, line) matches Ok(e) ==> kept::passed(floor, st, e),
    decreases fuel, Some(at), 0int,
{
    broadcast use {kept::group_steps, kept::group_parts};

    let loop_depth = st.loop_scope_depth(at);
    let try_depth = st.loop_try_depth(at);
    let loop_with = st.loop_with_depth(at);
    if fuel == 0 {
    } else {
        pass_compile_abrupt_unwind(floor, st, (fuel - 1) as nat, Some(at), try_depth, true, line);
        let st = st.compile_abrupt_unwind((fuel - 1) as nat, Some(at), try_depth, true, line)->Ok_0;
        let pop_n = st.locals_above_depth(loop_depth);
        let st = if pop_n > 0 && pop_n <= 255 {
            let st = st.op_u8(OpCode::PopN, pop_n as u8, line);
            st
        } else {
            kept::pass_emit_repeated(floor, st, OpCode::Pop, pop_n, line);
            let st = st.emit_repeated(OpCode::Pop, pop_n, line);
            st
        };
        let with_now = st.with_level();
        kept::pass_emit_repeated(
            floor,
            st,
            OpCode::WithExit,
            with_now.saturating_sub(loop_with),
            line,
        );
    }
}

pub(crate) proof fn pass_compile_continue<'p>(
    floor: kept::Floor,
    st: CState<'p>,
    fuel: nat,
    c: &'p ContinueStatement,
)
    ensures
        st.compile_continue(fuel, c) matches Ok(e) ==> kept::passed(floor, st, e),
    decreases fuel, c, 0int,
{
    broadcast use {kept::group_steps, kept::group_parts};

    let line: u32 = c.span.start;
    if st.no_loops() {
    } else {
        match st.find_continue(c.label) {
            Some(at) => {
                let target = st.loop_continue_target(at);
                let deferred = st.loop_defers_continue(at);
                if fuel == 0 {
                } else {
                    pass_unwind_to_loop(floor, st, (fuel - 1) as nat, at, line);
                }
            },
            None => {},
        }
    }
}

pub(crate) proof fn pass_compile_try<'p>(
    floor: kept::Floor,
    st: CState<'p>,
    fuel: nat,
    t: &'p TryStatement,
)
    ensures
        st.compile_try(fuel, t) matches Ok(e) ==> kept::passed(floor, st, e),
    decreases fuel, t, 2int,
{
    broadcast use {kept::group_steps, kept::group_parts};

    let line: u32 = t.span.start;
    match &t.finalizer {
        Some(finalizer) => {
            let st = st.byte(OpCode::PushExcHandler.byte(), line);
            let handler = st.here();
            let st = st.raw16(0xFFFF);
            let st = st.raw16(0xFFFF);
            let st = st.push_finally(Some(&finalizer.body));
            let st = if t.handler.is_some() {
                pass_compile_try_catch(floor, st, fuel, t, line);
                let st = st.compile_try_catch(fuel, t, line)->Ok_0;
                st
            } else {
                pass_compile_statements(floor, st, fuel, &t.block.body, 0);
                let st = st.compile_statements(fuel, &t.block.body, 0)->Ok_0;
                st
            };
            let st = st.deactivate_finally();
            let st = st.op(OpCode::PopExcHandler, line);
            let (st, skip_catch) = st.jump(OpCode::Jump, line);
            let st = st.mark_wide_target();
            let st = st.put_here(handler);
            let st = st.pop_finally();
            pass_compile_rethrow(floor, st, fuel, &finalizer.body, line);
            let st = st.compile_rethrow(fuel, &finalizer.body, line)->Ok_0;
            let st = st.patch(skip_catch);
            let st = st.mark_wide_target();
            let st = st.put_here(handler.wrapping_add(2));
            let st = st.begin_scope();
            pass_compile_statements(floor, st, fuel, &finalizer.body, 0);
        },
        None => {
            pass_compile_try_catch(floor, st, fuel, t, line);
        },
    }
}

pub(crate) proof fn pass_compile_try_catch<'p>(
    floor: kept::Floor,
    st: CState<'p>,
    fuel: nat,
    t: &'p TryStatement,
    line: u32,
)
    ensures
        st.compile_try_catch(fuel, t, line) matches Ok(e) ==> kept::passed(floor, st, e),
    decreases fuel, t, 1int,
{
    broadcast use {kept::group_steps, kept::group_parts};

    let st = st.byte(OpCode::PushExcHandler.byte(), line);
    let handler = st.here();
    let st = st.raw16(0xFFFF);
    let st = st.raw16(0xFFFF);
    let st = st.push_finally(None);
    pass_compile_statements(floor, st, fuel, &t.block.body, 0);
    let st = st.compile_statements(fuel, &t.block.body, 0)->Ok_0;
    let st = st.deactivate_finally();
    let st = st.op(OpCode::PopExcHandler, line);
    let (st, skip_catch) = st.jump(OpCode::Jump, line);
    let st = st.mark_wide_target();
    match &t.handler {
        Some(clause) => {
            let st = st.put_here(handler);
            pass_compile_catch(floor, st, fuel, clause, line);
        },
        None => {},
    }
}

pub(crate) proof fn pass_compile_catch<'p>(
    floor: kept::Floor,
    st: CState<'p>,
    fuel: nat,
    clause: &'p CatchClause,
    line: u32,
)
    ensures
        st.compile_catch(fuel, clause, line) matches Ok(e) ==> kept::passed(floor, st, e),
    decreases fuel, clause, 0int,
{
    broadcast use {kept::group_steps, kept::group_parts};

    let st = st.begin_scope();
    let st = match &clause.param {
        Some(param) => {
            let st = match param {
                Pattern::Identifier(id) => {
                    let st = st.check_strict_restricted(id.name, "catch parameter"@)->Ok_0;
                    let st = if st.depth() > 0 {
                        let st = st.declare_local(id.name);
                        st
                    } else {
                        let st = st.op_name(OpCode::DefineGlobal, id.name, line);
                        st
                    };
                    st
                },
                Pattern::Object(obj_pat) => {
                    let (st, anon) = st.intern("__catch_val__"@);
                    let st = st.declare_local(anon);
                    let src_slot = st.last_slot();
                    kept_expressions::pass_compile_bind_obj_props_local(
                        floor,
                        st,
                        fuel,
                        &obj_pat.properties,
                        src_slot,
                        false,
                        line,
                    );
                    let st = st.compile_bind_obj_props_local(
                        fuel,
                        &obj_pat.properties,
                        src_slot,
                        false,
                        line,
                    )->Ok_0;
                    st
                },
                Pattern::Array(arr_pat) => {
                    let st = st.op(OpCode::GetIterator, line);
                    let (st, anon) = st.intern("__catch_iter__"@);
                    let st = st.declare_local(anon);
                    let iter_slot = st.last_slot();
                    kept_expressions::pass_compile_bind_arr_elems_local(
                        floor,
                        st,
                        fuel,
                        &arr_pat.elements,
                        iter_slot,
                        false,
                        line,
                    );
                    let st = st.compile_bind_arr_elems_local(
                        fuel,
                        &arr_pat.elements,
                        iter_slot,
                        false,
                        line,
                    )->Ok_0;
                    st
                },
                _ => {
                    let st = st.op(OpCode::Pop, line);
                    st
                },
            };
            st
        },
        None => {
            let st = st.op(OpCode::Pop, line);
            st
        },
    };
    pass_compile_statements(floor, st, fuel, &clause.body.body, 0);
}

pub(crate) proof fn pass_compile_rethrow<'p>(
    floor: kept::Floor,
    st: CState<'p>,
    fuel: nat,
    body: &'p Vec<Statement>,
    line: u32,
)
    ensures
        st.compile_rethrow(fuel, body, line) matches Ok(e) ==> kept::passed(floor, st, e),
    decreases fuel, body, body@.len() as int + 1,
{
    broadcast use {kept::group_steps, kept::group_parts};

    if st.depth() > 0 {
        let st = st.begin_scope();
        let (st, exc_name) = st.intern("__pending_exc__"@);
        let st = st.declare_local(exc_name);
        let last = st.last_index();
        let exc_slot: u16 = last as u16;
        pass_compile_statements(floor, st, fuel, body, 0);
    } else {
        let (st, exc_name) = st.intern("__pending_exc__"@);
        let (st, idx) = st.make_string_constant(exc_name);
        let st = st.op_u16(OpCode::DefineGlobal, idx, line);
        pass_compile_statements(floor, st, fuel, body, 0);
    }
}

pub(crate) proof fn pass_compile_labeled<'p>(
    floor: kept::Floor,
    st: CState<'p>,
    fuel: nat,
    l: &'p LabeledStatement,
)
    ensures
        st.compile_labeled(fuel, l) matches Ok(e) ==> kept::passed(floor, st, e),
    decreases fuel, l, 0int,
{
    broadcast use {kept::group_steps, kept::group_parts};

    let here = st.here();
    if shape::adopts_label(l.body) {
        let (st, saved_label) = st.take_label();
        let st = st.set_label(Some(l.label));
        let st = st.enter_loop(here, Some(l.label), false);
        pass_compile_statement(floor, st, fuel, &l.body);
    } else {
        let st = st.enter_loop(here, Some(l.label), false);
        pass_compile_statement(floor, st, fuel, &l.body);
    }
}

pub(crate) proof fn pass_compile_with<'p>(
    floor: kept::Floor,
    st: CState<'p>,
    fuel: nat,
    w: &'p WithStatement,
)
    ensures
        st.compile_with(fuel, w) matches Ok(e) ==> kept::passed(floor, st, e),
    decreases fuel, w, 0int,
{
    broadcast use {kept::group_steps, kept::group_parts};

    let line: u32 = w.span.start;
    kept_expressions::pass_compile_expr(floor, st, fuel, &w.object);
    let st = st.compile_expr(fuel, &w.object)->Ok_0;
    let st = st.op(OpCode::WithEnter, line);
    let st = st.emit_completion_reset(line);
    let st = st.enter_with();
    pass_compile_statement(floor, st, fuel, &w.body);
}

pub(crate) proof fn pass_compile_export<'p>(
    floor: kept::Floor,
    st: CState<'p>,
    fuel: nat,
    e: &'p ExportDeclaration,
)
    ensures
        st.compile_export(fuel, e) matches Ok(e) ==> kept::passed(floor, st, e),
    decreases fuel, e, 0int,
{
    broadcast use {kept::group_steps, kept::group_parts};

    match e {
        ExportDeclaration::Declaration { declaration, span } => {
            pass_compile_statement(floor, st, fuel, declaration);
            let st = st.compile_statement(fuel, declaration)->Ok_0;
            let names: Seq<StringId> = names::declaration_names(**declaration);
            kept_expressions::pass_export_declared(floor, st, span.start, names, 0);
        },
        ExportDeclaration::Default { declaration, span } => {
            let line: u32 = span.start;
            kept_expressions::pass_compile_expr(floor, st, fuel, declaration);
        },
        ExportDeclaration::Named { specifiers, span, .. } => {
            kept_expressions::pass_export_specifiers(floor, st, span.start, specifiers, 0);
        },
        ExportDeclaration::All { source, span, .. } => {},
    }
}

} // verus!
