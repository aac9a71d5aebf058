//! Statement compilation: declarations, control flow, loops, try/catch, with, and module
//! import/export.

use vstd::prelude::*;
use crate::ast::node::{
    AssignmentTarget, BreakStatement, CatchClause, ContinueStatement, DoWhileStatement,
    ExportDeclaration, ExportSpecifier, Expression, ForInOfLeft, ForInStatement, ForInit,
    ForOfStatement, ForStatement, IfStatement, ImportDeclaration, ImportSpecifier,
    LabeledStatement, MemberProperty, ObjectProperty, Pattern, PropertyKey, ReturnStatement,
    Statement, SwitchCase, SwitchStatement, TryStatement, VarKind, VariableDeclaration,
    VariableDeclarator, WhileStatement, WithStatement,
};
use crate::compiler::{names, shape};
use crate::compiler::chunk::FLAG_SCRIPT;
use crate::compiler::compiler::{Compiler, FinallyEntry, steps};
use crate::compiler::compiler::state::{CState, Depths, Failure};
use crate::compiler::compiler::steps::{level_end, level_of, offset_message, too_deep};
use crate::compiler::names::{collect_binding_names, extract_declaration_names};
use crate::compiler::opcode::OpCode;
use crate::compiler::shape::{
    clamped_count, collect_excluded_keys, default_case, for_needs_scope, has_any_spread,
    head_is_bare, head_is_const, head_is_fresh, head_is_var, head_name, is_anonymous_fn_def,
    is_loop_statement, is_pattern_expr, tests_before,
};
use crate::util::interner::StringId;

verus! {

impl<'p> CState<'p> {
    /// Compile a statement. At script level the value of an expression statement becomes the
    /// completion value; inside functions it is discarded.
    pub open spec fn compile_statement(
        self,
        fuel: nat,
        stmt: &'p Statement,
    ) -> Result<CState<'p>, Failure>
        decreases fuel, stmt, 5int,
    {
        let st = self;
        match stmt {
            Statement::Expression(e) => {
                match st.compile_expr(fuel, &e.expression) {
                    Err(e) => Err(e),
                    Ok(st) => {
                        let line: u32 = st.current_line();
                        if st.has_flag(FLAG_SCRIPT) {
                            Ok(st.op(OpCode::SetCompletion, line))
                        } else {
                            Ok(st.op(OpCode::Pop, line))
                        }
                    },
                }
            },
            Statement::Variable(decl) => {
                st.compile_var_declaration(fuel, decl.kind, &decl.declarations, 0)
            },
            Statement::Block(block) => {
                let st = st.begin_scope();
                match st.compile_statements(fuel, &block.body, 0) {
                    Err(e) => Err(e),
                    Ok(st) => Ok(st.end_scope()),
                }
            },
            Statement::If(s) => st.compile_if(fuel, s),
            Statement::While(w) => st.compile_while(fuel, w),
            Statement::DoWhile(d) => st.compile_do_while(fuel, d),
            Statement::For(f) => st.compile_for(fuel, f),
            Statement::ForIn(f) => st.compile_for_in(fuel, f),
            Statement::ForOf(f) => st.compile_for_of(fuel, f),
            Statement::Switch(s) => st.compile_switch(fuel, s),
            Statement::Return(r) => st.compile_return(fuel, r),
            Statement::Break(b) => {
                if fuel == 0 {
                    Err(st.failing(steps::too_deep_text()))
                } else {
                    st.compile_break((fuel - 1) as nat, b)
                }
            },
            Statement::Continue(c) => {
                if fuel == 0 {
                    Err(st.failing(steps::too_deep_text()))
                } else {
                    st.compile_continue((fuel - 1) as nat, c)
                }
            },
            Statement::Throw(t) => {
                match st.compile_expr(fuel, &t.argument) {
                    Err(e) => Err(e),
                    Ok(st) => Ok(st.op(OpCode::Throw, t.span.start)),
                }
            },
            Statement::Try(t) => st.compile_try(fuel, t),
            Statement::Function(f) => st.compile_function_decl(fuel, f),
            Statement::Class(c) => st.compile_class_decl(fuel, c),
            Statement::Labeled(l) => st.compile_labeled(fuel, l),
            Statement::With(w) => st.compile_with(fuel, w),
            Statement::Import(i) => Ok(st.compile_import(i)),
            Statement::Export(e) => st.compile_export(fuel, e),
            Statement::Empty(_) => Ok(st),
            Statement::Debugger(span) => Ok(st.op(OpCode::Debugger, span.start)),
        }
    }

    /// Compile each statement of a list.
    pub open spec fn compile_statements(
        self,
        fuel: nat,
        stmts: &'p Vec<Statement>,
        i: int,
    ) -> Result<CState<'p>, Failure>
        decreases fuel, stmts, stmts@.len() - i,
    {
        let st = self;
        if i < 0 || i >= stmts@.len() {
            Ok(st)
        } else {
            let stmt = &stmts@[i];
            match st.compile_statement(fuel, stmt) {
                Err(e) => Err(e),
                Ok(st) => st.compile_statements(fuel, stmts, i + 1),
            }
        }
    }

    /// Compile each declarator of a declaration.
    pub open spec fn compile_var_declaration(
        self,
        fuel: nat,
        kind: VarKind,
        declarations: &'p Vec<VariableDeclarator>,
        i: int,
    ) -> Result<CState<'p>, Failure>
        decreases fuel, declarations, declarations@.len() - i,
    {
        let st = self;
        if i < 0 || i >= declarations@.len() {
            Ok(st)
        } else {
            let declarator = &declarations@[i];
            match st.compile_declarator(fuel, kind, declarator) {
                Err(e) => Err(e),
                Ok(st) => st.compile_var_declaration(fuel, kind, declarations, i + 1),
            }
        }
    }

    /// Compile a declarator.
    pub open spec fn compile_declarator(
        self,
        fuel: nat,
        kind: VarKind,
        declarator: &'p VariableDeclarator,
    ) -> Result<CState<'p>, Failure>
        decreases fuel, declarator, 0int,
    {
        let st = self;
        let line: u32 = declarator.span.start;
        match &declarator.id {
            Pattern::Identifier(id) => {
                match st.check_strict_restricted(id.name, "binding"@) {
                    Err(e) => Err(e),
                    Ok(st) => {
                        match &declarator.init {
                            Some(init) => {
                                let st = if shape::anonymous_fn(*init) {
                                    st.set_pending_name(id.name)
                                } else {
                                    st
                                };
                                match st.compile_expr(fuel, init) {
                                    Err(e) => Err(e),
                                    Ok(st) => Ok(st.bind_initialized(kind, id.name, line)),
                                }
                            },
                            None => {
                                if kind != VarKind::Var {
                                    Ok(st.bind_uninitialized(kind, id.name, line))
                                } else {
                                    Ok(st)
                                }
                            },
                        }
                    },
                }
            },
            Pattern::Object(obj_pat) => {
                match st.compile_init(fuel, &declarator.init, line) {
                    Err(e) => Err(e),
                    Ok(st) => {
                        if st.depth() > 0 {
                            let (st, anon) = st.intern("__destruct_src__"@);
                            let st = st.declare_local(anon);
                            let src_slot: u8 = st.last_slot();
                            st.compile_bind_obj_props_local(
                                fuel,
                                &obj_pat.properties,
                                src_slot,
                                kind == VarKind::Var,
                                line,
                            )
                        } else {
                            match st.compile_bind_obj_props_global(
                                fuel,
                                &obj_pat.properties,
                                line,
                            ) {
                                Err(e) => Err(e),
                                Ok(st) => Ok(st.op(OpCode::Pop, line)),
                            }
                        }
                    },
                }
            },
            Pattern::Array(arr_pat) => {
                match st.compile_init(fuel, &declarator.init, line) {
                    Err(e) => Err(e),
                    Ok(st) => {
                        let st = st.op(OpCode::GetIterator, line);
                        if st.depth() > 0 {
                            let (st, anon) = st.intern("__destruct_iter__"@);
                            let st = st.declare_local(anon);
                            let iter_slot: u8 = st.last_slot();
                            st.compile_bind_arr_elems_local(
                                fuel,
                                &arr_pat.elements,
                                iter_slot,
                                kind == VarKind::Var,
                                line,
                            )
                        } else {
                            match st.compile_bind_arr_elems_global(fuel, &arr_pat.elements, line) {
                                Err(e) => Err(e),
                                Ok(st) => Ok(st.op(OpCode::Pop, line)),
                            }
                        }
                    },
                }
            },
            _ => {
                match st.compile_init(fuel, &declarator.init, line) {
                    Err(e) => Err(e),
                    Ok(st) => Ok(st.op(OpCode::Pop, line)),
                }
            },
        }
    }

    /// Push an initial value, undefined where there is none.
    pub open spec fn compile_init(
        self,
        fuel: nat,
        init: &'p Option<Expression>,
        line: u32,
    ) -> Result<CState<'p>, Failure>
        decreases fuel, init, 6int,
    {
        let st = self;
        match init {
            Some(e) => st.compile_expr(fuel, e),
            None => Ok(st.op(OpCode::Undefined, line)),
        }
    }

    /// Bind the value on the stack to a declared name. A `var` is assigned, since hoisting
    /// has defined it; a lexical is created, or its reserved slot is filled.
    pub open spec fn bind_initialized(self, kind: VarKind, name: StringId, line: u32) -> CState<'p>
    {
        let st = self;
        if st.depth() == 0 {
            let st = if kind == VarKind::Const {
                st.add_const_global(name)
            } else {
                st
            };
            let (st, idx) = st.make_string_constant(name);
            if kind == VarKind::Var {
                let st = st.op_u16(OpCode::SetGlobal, idx, line);
                st.op(OpCode::Pop, line)
            } else {
                st.op_u16(OpCode::DefineGlobalLex, idx, line)
            }
        } else if kind == VarKind::Var {
            let st = st.compile_set_variable(name, line);
            st.op(OpCode::Pop, line)
        } else {
            let (st, reserved) = st.take_predeclared_lex(name);
            match reserved {
                Some(slot) => {
                    let st = if kind == VarKind::Const {
                        st.set_const(slot)
                    } else {
                        st
                    };
                    let st = if slot <= 255 {
                        let st = st.op_u8(OpCode::InitLet, slot as u8, line);
                        st.op_u8(OpCode::SetLocal, slot as u8, line)
                    } else {
                        st.op_u16(OpCode::SetLocalWide, slot as u16, line)
                    };
                    st.op(OpCode::Pop, line)
                },
                None => st.bind_fresh(kind, name, line),
            }
        }
    }

    /// Make the value on the stack a fresh lexical local.
    pub open spec fn bind_fresh(self, kind: VarKind, name: StringId, line: u32) -> CState<'p>
    {
        let st = self;
        let st = st.declare_local(name);
        let last: usize = st.last_index();
        let st = if kind == VarKind::Const {
            st.set_const(last)
        } else {
            st
        };
        st.op_u8(OpCode::InitLet, last as u8, line)
    }

    /// Declare a lexical without a value: it is undefined from here on.
    pub open spec fn bind_uninitialized(
        self,
        kind: VarKind,
        name: StringId,
        line: u32,
    ) -> CState<'p>
    {
        let st = self;
        let (st, reserved) = st.take_predeclared_lex(name);
        match reserved {
            Some(slot) => {
                let st = if kind == VarKind::Const {
                    st.set_const(slot)
                } else {
                    st
                };
                if slot <= 255 {
                    st.op_u8(OpCode::InitLet, slot as u8, line)
                } else {
                    st
                }
            },
            None => {
                let st = st.op(OpCode::Undefined, line);
                st.bind_fresh(kind, name, line)
            },
        }
    }

    /// Compile an if statement.
    pub open spec fn compile_if(self, fuel: nat, s: &'p IfStatement) -> Result<CState<'p>, Failure>
        decreases fuel, s, 0int,
    {
        let st = self;
        let line: u32 = s.span.start;
        let is_script: bool = st.has_flag(FLAG_SCRIPT);
        match st.compile_expr(fuel, &s.test) {
            Err(e) => Err(e),
            Ok(st) => {
                let (st, then_jump) = st.jump(OpCode::JumpIfFalse, line);
                let st = st.emit_completion_reset(line);
                match st.compile_statement(fuel, &s.consequent) {
                    Err(e) => Err(e),
                    Ok(st) => {
                        match &s.alternate {
                            Some(alt) => {
                                let (st, else_jump) = st.jump(OpCode::Jump, line);
                                let st = st.patch(then_jump);
                                let st = st.emit_completion_reset(line);
                                match st.compile_statement(fuel, alt) {
                                    Err(e) => Err(e),
                                    Ok(st) => Ok(st.patch(else_jump)),
                                }
                            },
                            None => {
                                if is_script {
                                    let (st, else_jump) = st.jump(OpCode::Jump, line);
                                    let st = st.patch(then_jump);
                                    let st = st.emit_completion_reset(line);
                                    Ok(st.patch(else_jump))
                                } else {
                                    Ok(st.patch(then_jump))
                                }
                            },
                        }
                    },
                }
            },
        }
    }

    /// Enter a loop at the current scope depth.
    pub open spec fn enter_loop(
        self,
        target: usize,
        label: Option<StringId>,
        deferred: bool,
    ) -> CState<'p>
    {
        let st = self;
        let depth: u32 = st.depth();
        st.push_loop(target, depth, label, deferred, false, None)
    }

    /// Compile a while loop.
    pub open spec fn compile_while(
        self,
        fuel: nat,
        w: &'p WhileStatement,
    ) -> Result<CState<'p>, Failure>
        decreases fuel, w, 0int,
    {
        let st = self;
        let line: u32 = w.span.start;
        let st = st.emit_completion_reset(line);
        let (st, label) = st.take_label();
        let loop_start: usize = st.here();
        let st = st.enter_loop(loop_start, label, false);
        match st.compile_expr(fuel, &w.test) {
            Err(e) => Err(e),
            Ok(st) => {
                let (st, exit_jump) = st.jump(OpCode::JumpIfFalse, line);
                match st.compile_statement(fuel, &w.body) {
                    Err(e) => Err(e),
                    Ok(st) => {
                        let st = st.back(loop_start, line);
                        let st = st.patch(exit_jump);
                        Ok(st.patch_loop_breaks())
                    },
                }
            },
        }
    }

    /// Compile a do-while loop: continue goes to the test.
    pub open spec fn compile_do_while(
        self,
        fuel: nat,
        d: &'p DoWhileStatement,
    ) -> Result<CState<'p>, Failure>
        decreases fuel, d, 0int,
    {
        let st = self;
        let line: u32 = d.span.start;
        let st = st.emit_completion_reset(line);
        let (st, label) = st.take_label();
        let loop_start: usize = st.here();
        let st = st.enter_loop(loop_start, label, true);
        match st.compile_statement(fuel, &d.body) {
            Err(e) => Err(e),
            Ok(st) => {
                let st = st.patch_continues();
                match st.compile_expr(fuel, &d.test) {
                    Err(e) => Err(e),
                    Ok(st) => {
                        let (st, exit_jump) = st.jump(OpCode::JumpIfFalse, line);
                        let st = st.back(loop_start, line);
                        let st = st.patch(exit_jump);
                        Ok(st.patch_loop_breaks())
                    },
                }
            },
        }
    }

    /// Compile a for loop: continue goes to the update. Only lexical heads open a scope.
    pub open spec fn compile_for(
        self,
        fuel: nat,
        f: &'p ForStatement,
    ) -> Result<CState<'p>, Failure>
        decreases fuel, f, 1int,
    {
        let st = self;
        let line: u32 = f.span.start;
        let needs_scope: bool = shape::lexical_head(*f);
        let st = if needs_scope {
            st.begin_scope()
        } else {
            st
        };
        let r = match &f.init {
            Some(init) => {
                match init {
                    ForInit::Variable(decl) => {
                        st.compile_var_declaration(fuel, decl.kind, &decl.declarations, 0)
                    },
                    ForInit::Expression(expr) => {
                        match st.compile_expr(fuel, expr) {
                            Err(e) => Err(e),
                            Ok(st) => Ok(st.op(OpCode::Pop, line)),
                        }
                    },
                }
            },
            None => Ok(st),
        };
        match r {
            Err(e) => Err(e),
            Ok(st) => {
                let st = st.emit_completion_reset(line);
                let loop_start: usize = st.here();
                let (st, label) = st.take_label();
                let st = st.enter_loop(loop_start, label, f.update.is_some());
                let r = match &f.test {
                    Some(test) => {
                        match st.compile_expr(fuel, test) {
                            Err(e) => Err(e),
                            Ok(st) => {
                                let (st, exit) = st.jump(OpCode::JumpIfFalse, line);
                                match st.compile_for_rest(fuel, f, loop_start, line) {
                                    Err(e) => Err(e),
                                    Ok(st) => Ok(st.patch(exit)),
                                }
                            },
                        }
                    },
                    None => st.compile_for_rest(fuel, f, loop_start, line),
                };
                match r {
                    Err(e) => Err(e),
                    Ok(st) => {
                        let st = st.patch_loop_breaks();
                        if needs_scope {
                            Ok(st.end_scope())
                        } else {
                            Ok(st)
                        }
                    },
                }
            },
        }
    }

    /// Compile body and update of a for loop, and the jump back.
    pub open spec fn compile_for_rest(
        self,
        fuel: nat,
        f: &'p ForStatement,
        loop_start: usize,
        line: u32,
    ) -> Result<CState<'p>, Failure>
        decreases fuel, f, 0int,
    {
        let st = self;
        match st.compile_statement(fuel, &f.body) {
            Err(e) => Err(e),
            Ok(st) => {
                let st = st.set_continue_here();
                let st = st.patch_continues();
                let r = match &f.update {
                    Some(update) => {
                        match st.compile_expr(fuel, update) {
                            Err(e) => Err(e),
                            Ok(st) => Ok(st.op(OpCode::Pop, line)),
                        }
                    },
                    None => Ok(st),
                };
                match r {
                    Err(e) => Err(e),
                    Ok(st) => Ok(st.back(loop_start, line)),
                }
            },
        }
    }

    /// Compile a for-in loop over the enumerable keys of an object.
    pub open spec fn compile_for_in(
        self,
        fuel: nat,
        f: &'p ForInStatement,
    ) -> Result<CState<'p>, Failure>
        decreases fuel, f, 0int,
    {
        let st = self;
        let line: u32 = f.span.start;
        let is_var: bool = shape::var_head(f.left);
        let is_const: bool = shape::const_head(f.left);
        let is_bare: bool = shape::bare_head(f.left);
        let var_name: Option<StringId> = shape::name_of_head(f.left);
        let st = if !is_var {
            st.begin_scope()
        } else {
            st
        };
        let r = if is_bare {
            if let Some(n) = var_name {
                st.check_strict_restricted(n, "assignment target"@)
            } else {
                Ok(st)
            }
        } else {
            Ok(st)
        };
        match r {
            Err(e) => Err(e),
            Ok(st) => {
                let (st, global_head) = st.declare_for_in(var_name, is_var || is_bare, line);
                let fresh_local: bool = var_name.is_some() && !(is_var || is_bare) && !global_head;
                let local_slot: u8 = st.last_slot();
                match st.compile_expr(fuel, &f.right) {
                    Err(e) => Err(e),
                    Ok(st) => {
                        let st = st.op(OpCode::GetForInIterator, line);
                        let iter_slot: u8 = st.next_slot();
                        let st = if fresh_local {
                            let (st, anon) = st.intern("(for-in-iter)"@);
                            st.declare_local(anon)
                        } else {
                            st
                        };
                        let st = st.emit_completion_reset(line);
                        let loop_start: usize = st.here();
                        let st = if fresh_local {
                            st.op_u8(OpCode::GetLocal, iter_slot, line)
                        } else {
                            st.op(OpCode::Dup, line)
                        };
                        let st = st.op(OpCode::IteratorNext, line);
                        let st = st.op(OpCode::Dup, line);
                        let st = st.op(OpCode::IteratorDone, line);
                        let (st, exit_jump) = st.jump(OpCode::JumpIfTrue, line);
                        let st = st.op(OpCode::IteratorValue, line);
                        let st = match var_name {
                            Some(name) => {
                                let st = if fresh_local {
                                    st.op_u8(OpCode::InitLet, local_slot, line)
                                } else {
                                    st
                                };
                                if is_const {
                                    if fresh_local {
                                        let st = st.op_u8(OpCode::SetLocal, local_slot, line);
                                        let st = st.op(OpCode::Pop, line);
                                        st.set_const(local_slot as usize)
                                    } else if global_head {
                                        let st = st.op_name(OpCode::SetGlobal, name, line);
                                        let st = st.op(OpCode::Pop, line);
                                        st.add_const_global(name)
                                    } else {
                                        st
                                    }
                                } else {
                                    let st = st.compile_set_variable(name, line);
                                    st.op(OpCode::Pop, line)
                                }
                            },
                            None => st.op(OpCode::Pop, line),
                        };
                        let st = st.enter_loop(loop_start, None, false);
                        match st.compile_statement(fuel, &f.body) {
                            Err(e) => Err(e),
                            Ok(st) => {
                                let st = st.back(loop_start, line);
                                let st = st.patch(exit_jump);
                                let st = st.op(OpCode::Pop, line);
                                let st = if !fresh_local {
                                    st.op(OpCode::Pop, line)
                                } else {
                                    st
                                };
                                let st = st.patch_loop_breaks();
                                if !is_var {
                                    Ok(st.end_scope())
                                } else {
                                    Ok(st)
                                }
                            },
                        }
                    },
                }
            },
        }
    }

    /// Declare the variable of a for-in head: a global at the outermost level, a fresh local
    /// in its dead zone for a lexical, nothing for one that exists. Whether it is a global.
    pub open spec fn declare_for_in(
        self,
        var_name: Option<StringId>,
        existing: bool,
        line: u32,
    ) -> (CState<'p>, bool)
    {
        let st = self;
        match var_name {
            Some(name) => {
                if existing && st.depth() > 1 {
                    (st, false)
                } else {
                    let st = if existing {
                        st.op(OpCode::Undefined, line)
                    } else {
                        st.op(OpCode::PushEmpty, line)
                    };
                    if st.depth() <= 1 {
                        let st = if !existing {
                            let st = st.op(OpCode::Pop, line);
                            st.op(OpCode::Undefined, line)
                        } else {
                            st
                        };
                        let st = st.op_name(OpCode::DefineGlobal, name, line);
                        (st, true)
                    } else {
                        let st = st.declare_local(name);
                        (st, false)
                    }
                }
            },
            None => (st, false),
        }
    }

    /// Declare a loop variable that is undefined: a global at the outermost level, else a
    /// local.
    pub open spec fn declare_loop_var(self, name: StringId, line: u32) -> CState<'p>
    {
        let st = self;
        let st = st.op(OpCode::Undefined, line);
        if st.depth() <= 1 {
            st.op_name(OpCode::DefineGlobal, name, line)
        } else {
            st.declare_local(name)
        }
    }

    /// Declare each of the loop variables.
    pub open spec fn declare_loop_vars(self, line: u32, names: Seq<StringId>, i: int) -> CState<'p>
        decreases names.len() - i,
    {
        let st = self;
        if i < 0 || i >= names.len() {
            st
        } else {
            let name = names[i];
            let st = st.declare_loop_var(name, line);
            st.declare_loop_vars(line, names, i + 1)
        }
    }

    /// Reserve a marker local for each simple lexical of a for-of head: it is in scope, but
    /// in its dead zone, while the iterable is evaluated.
    pub open spec fn reserve_head_names(
        self,
        line: u32,
        declarations: &'p Vec<VariableDeclarator>,
        i: int,
    ) -> CState<'p>
        decreases declarations@.len() - i,
    {
        let st = self;
        if i < 0 || i >= declarations@.len() {
            st
        } else {
            let d = &declarations@[i];
            if let Pattern::Identifier(id) = &d.id {
                let st = st.op(OpCode::PushEmpty, line);
                let st = st.declare_local(id.name);
                st.reserve_head_names(line, declarations, i + 1)
            } else {
                st.reserve_head_names(line, declarations, i + 1)
            }
        }
    }

    /// Declare what the head of a for-of loop declares before the iterable is evaluated.
    pub open spec fn declare_for_of_head(self, left: &'p ForInOfLeft, line: u32) -> CState<'p>
    {
        let st = self;
        if let ForInOfLeft::Variable(decl) = left {
            let st = if decl.declarations.len() > 0 {
                match &decl.declarations[0].id {
                    Pattern::Identifier(id) => {
                        if decl.kind == VarKind::Var {
                            st.declare_loop_var(id.name, line)
                        } else {
                            st
                        }
                    },
                    Pattern::Array(_) => {
                        let names: Seq<StringId> = names::binding_names(decl.declarations[0].id);
                        st.declare_loop_vars(line, names, 0)
                    },
                    Pattern::Object(_) => {
                        let names: Seq<StringId> = names::binding_names(decl.declarations[0].id);
                        st.declare_loop_vars(line, names, 0)
                    },
                    _ => st,
                }
            } else {
                st
            };
            if decl.kind != VarKind::Var {
                st.reserve_head_names(line, &decl.declarations, 0)
            } else {
                st
            }
        } else {
            st
        }
    }

    /// Compile a for-of loop. A simple lexical head gets a fresh binding per iteration. The
    /// body is guarded by a handler that closes the iterator and rethrows.
    pub open spec fn compile_for_of(
        self,
        fuel: nat,
        f: &'p ForOfStatement,
    ) -> Result<CState<'p>, Failure>
        decreases fuel, f, 0int,
    {
        let st = self;
        let line: u32 = f.span.start;
        let is_var: bool = shape::var_head(f.left);
        let fresh: bool = shape::fresh_head(f.left);
        let st = if !is_var {
            st.begin_scope()
        } else {
            st
        };
        let st = st.declare_for_of_head(&f.left, line);
        match st.compile_expr(fuel, &f.right) {
            Err(e) => Err(e),
            Ok(st) => {
                let st = st.op(OpCode::GetIterator, line);
                let (st, anon) = st.intern("(for-of-iter)"@);
                let st = st.declare_local(anon);
                let last: usize = st.last_index();
                let iter_slot: u16 = last as u16;
                let st = st.emit_completion_reset(line);
                let loop_start: usize = st.here();
                let st = st.op(OpCode::Dup, line);
                let st = st.op(OpCode::IteratorNext, line);
                let st = st.op(OpCode::Dup, line);
                let st = st.op(OpCode::IteratorDone, line);
                let (st, exit_jump) = st.jump(OpCode::JumpIfTrue, line);
                let st = st.op(OpCode::IteratorValue, line);
                match st.bind_for_of_value(fuel, &f.left, line) {
                    Err(e) => Err(e),
                    Ok(st) => {
                        let here_depth: u32 = st.depth();
                        let loop_depth: u32 = if fresh { here_depth.wrapping_sub(1) } else { here_depth };
                        let st = st.byte(OpCode::PushExcHandler.byte(), line);
                        let handler: usize = st.here();
                        let st = st.raw16(0xFFFF);
                        let st = st.raw16(0xFFFF);
                        let st = st.push_loop(
                            loop_start,
                            loop_depth,
                            None,
                            false,
                            false,
                            Some(iter_slot),
                        );
                        match st.compile_statement(fuel, &f.body) {
                            Err(e) => Err(e),
                            Ok(st) => {
                                let st = st.op(OpCode::PopExcHandler, line);
                                let st = if fresh {
                                    st.end_scope()
                                } else {
                                    st
                                };
                                let st = st.back(loop_start, line);
                                let st = st.patch(exit_jump);
                                let st = st.op(OpCode::Pop, line);
                                let st = st.patch_loop_breaks();
                                let st = st.op(OpCode::IteratorClose, line);
                                let (st, skip_catch) = st.jump(OpCode::Jump, line);
                                let st = st.mark_wide_target();
                                let st = st.put_here(handler);
                                let st = st.get_slot(iter_slot as usize, line);
                                let st = st.op(OpCode::IteratorClose, line);
                                let st = st.op(OpCode::Throw, line);
                                let st = st.patch(skip_catch);
                                let st = st.pop_local();
                                if !is_var {
                                    Ok(st.end_scope())
                                } else {
                                    Ok(st)
                                }
                            },
                        }
                    },
                }
            },
        }
    }

    /// With the next value on the stack, bind it to the head of a for-of loop.
    pub open spec fn bind_for_of_value(
        self,
        fuel: nat,
        left: &'p ForInOfLeft,
        line: u32,
    ) -> Result<CState<'p>, Failure>
        decreases fuel, left, 6int,
    {
        let st = self;
        match left {
            ForInOfLeft::Variable(decl) => st.bind_for_of_decl(fuel, decl, line),
            ForInOfLeft::Pattern(p) => {
                match p {
                    Pattern::Identifier(_) => st.compile_assign_pat(fuel, p, line),
                    Pattern::Array(_) => st.compile_assign_pat(fuel, p, line),
                    Pattern::Object(_) => st.compile_assign_pat(fuel, p, line),
                    _ => Ok(st.op(OpCode::Pop, line)),
                }
            },
            ForInOfLeft::Expression(e) => {
                match e {
                    Expression::Identifier(_) => st.compile_assign_expr(fuel, e, line),
                    Expression::Array(_) => st.compile_assign_expr(fuel, e, line),
                    Expression::Object(obj) => {
                        let st = st.emit_nullish_check(line);
                        let has_rest: bool = shape::any_object_spread(obj.properties@);
                        match st.assign_head_properties(fuel, has_rest, line, &obj.properties, 0) {
                            Err(e) => Err(e),
                            Ok(st) => Ok(st.op(OpCode::Pop, line)),
                        }
                    },
                    Expression::Member(m) => {
                        match st.compile_expr(fuel, &m.object) {
                            Err(e) => Err(e),
                            Ok(st) => {
                                let st = st.op(OpCode::Swap, line);
                                match st.store_head_member(fuel, &m.property, line) {
                                    Err(e) => Err(e),
                                    Ok(st) => Ok(st.op(OpCode::Pop, line)),
                                }
                            },
                        }
                    },
                    _ => Ok(st.op(OpCode::Pop, line)),
                }
            },
        }
    }

    /// With object and value on the stack, assign the value to a plain member.
    pub open spec fn store_head_member(
        self,
        fuel: nat,
        property: &'p MemberProperty,
        line: u32,
    ) -> Result<CState<'p>, Failure>
        decreases fuel, property, 0int,
    {
        let st = self;
        match property {
            MemberProperty::Identifier(name) => {
                let (st, idx) = st.make_string_constant(*name);
                Ok(st.emit_set_property(idx, line))
            },
            MemberProperty::Expression(key) => {
                match st.compile_expr(fuel, key) {
                    Err(e) => Err(e),
                    Ok(st) => {
                        let st = st.op(OpCode::Swap, line);
                        Ok(st.op(OpCode::SetElement, line))
                    },
                }
            },
            MemberProperty::PrivateIdentifier(_) => Ok(st),
        }
    }

    /// Bind the value on the stack to the first declarator of a for-of head.
    pub open spec fn bind_for_of_decl(
        self,
        fuel: nat,
        decl: &'p VariableDeclaration,
        line: u32,
    ) -> Result<CState<'p>, Failure>
        decreases fuel, decl, 0int,
    {
        let st = self;
        if decl.declarations.len() == 0 {
            Ok(st.op(OpCode::Pop, line))
        } else {
            st.bind_for_of_declarator(fuel, decl.kind, line, &decl.declarations, 0)
        }
    }

    /// Bind the value on the stack to the first declarator.
    pub open spec fn bind_for_of_declarator(
        self,
        fuel: nat,
        kind: VarKind,
        line: u32,
        declarations: &'p Vec<VariableDeclarator>,
        i: int,
    ) -> Result<CState<'p>, Failure>
        decreases fuel, declarations, declarations@.len() - i,
    {
        let st = self;
        if i < 0 || i >= declarations@.len() {
            Ok(st)
        } else {
            let d = &declarations@[i];
            if i == 0 {
                match &d.id {
                    Pattern::Identifier(id) => {
                        if kind == VarKind::Var {
                            let st = st.compile_set_variable(id.name, line);
                            let st = st.op(OpCode::Pop, line);
                            st.bind_for_of_declarator(fuel, kind, line, declarations, i + 1)
                        } else {
                            let st = st.begin_scope();
                            let st = st.declare_local(id.name);
                            if kind == VarKind::Const {
                                let last: usize = st.last_index();
                                let st = st.set_const(last);
                                st.bind_for_of_declarator(fuel, kind, line, declarations, i + 1)
                            } else {
                                st.bind_for_of_declarator(fuel, kind, line, declarations, i + 1)
                            }
                        }
                    },
                    Pattern::Array(_) => {
                        match st.compile_assign_pat(fuel, &d.id, line) {
                            Err(e) => Err(e),
                            Ok(st) => {
                                st.bind_for_of_declarator(fuel, kind, line, declarations, i + 1)
                            },
                        }
                    },
                    Pattern::Object(_) => {
                        match st.compile_assign_pat(fuel, &d.id, line) {
                            Err(e) => Err(e),
                            Ok(st) => {
                                st.bind_for_of_declarator(fuel, kind, line, declarations, i + 1)
                            },
                        }
                    },
                    _ => {
                        let st = st.op(OpCode::Pop, line);
                        st.bind_for_of_declarator(fuel, kind, line, declarations, i + 1)
                    },
                }
            } else {
                st.bind_for_of_declarator(fuel, kind, line, declarations, i + 1)
            }
        }
    }

    /// Assign each property of an object expression that heads a for-of loop.
    pub open spec fn assign_head_properties(
        self,
        fuel: nat,
        has_rest: bool,
        line: u32,
        properties: &'p Vec<ObjectProperty>,
        i: int,
    ) -> Result<CState<'p>, Failure>
        decreases fuel, properties, properties@.len() - i,
    {
        let st = self;
        if i < 0 || i >= properties@.len() {
            Ok(st)
        } else {
            let prop = &properties@[i];
            match prop {
                ObjectProperty::Property(p) => {
                    if !shape::pattern_expr(p.value) {
                        st.assign_head_properties(fuel, has_rest, line, properties, i + 1)
                    } else {
                        let st = st.op(OpCode::Dup, line);
                        if let PropertyKey::Private(_) = &p.key {
                            let st = st.op(OpCode::Pop, line);
                            st.assign_head_properties(fuel, has_rest, line, properties, i + 1)
                        } else {
                            match st.compile_keyed_read(fuel, &p.key, has_rest, line) {
                                Err(e) => Err(e),
                                Ok(st) => {
                                    match &p.value {
                                        Expression::Assignment(a) => {
                                            let st = match &a.left {
                                                AssignmentTarget::Identifier(id) => {
                                                    if shape::anonymous_fn(a.right) {
                                                        st.set_pending_name(id.name)
                                                    } else {
                                                        st
                                                    }
                                                },
                                                _ => st,
                                            };
                                            match st.emit_default_check(fuel, &a.right, line) {
                                                Err(e) => Err(e),
                                                Ok(st) => {
                                                    match st.compile_assign_target(
                                                        fuel,
                                                        &a.left,
                                                        line,
                                                    ) {
                                                        Err(e) => Err(e),
                                                        Ok(st) => {
                                                            st.assign_head_properties(
                                                                fuel,
                                                                has_rest,
                                                                line,
                                                                properties,
                                                                i + 1,
                                                            )
                                                        },
                                                    }
                                                },
                                            }
                                        },
                                        _ => {
                                            match st.compile_assign_expr(fuel, &p.value, line) {
                                                Err(e) => Err(e),
                                                Ok(st) => {
                                                    st.assign_head_properties(
                                                        fuel,
                                                        has_rest,
                                                        line,
                                                        properties,
                                                        i + 1,
                                                    )
                                                },
                                            }
                                        },
                                    }
                                },
                            }
                        }
                    }
                },
                ObjectProperty::SpreadElement(s) => {
                    let excluded: Seq<StringId> = shape::excluded_keys(properties@);
                    let st = st.op(OpCode::Dup, line);
                    let st = st.emit_object_rest(excluded, shape::clamped(excluded), line);
                    match &s.argument {
                        Expression::Identifier(id) => {
                            let st = st.compile_set_variable(id.name, line);
                            let st = st.op(OpCode::Pop, line);
                            st.assign_head_properties(fuel, has_rest, line, properties, i + 1)
                        },
                        Expression::Member(m) => {
                            match st.compile_expr(fuel, &m.object) {
                                Err(e) => Err(e),
                                Ok(st) => {
                                    let st = st.op(OpCode::Swap, line);
                                    let r = match &m.property {
                                        MemberProperty::PrivateIdentifier(_) => {
                                            Ok(st.op(OpCode::Pop, line))
                                        },
                                        _ => st.store_head_member(fuel, &m.property, line),
                                    };
                                    match r {
                                        Err(e) => Err(e),
                                        Ok(st) => {
                                            let st = st.op(OpCode::Pop, line);
                                            st.assign_head_properties(
                                                fuel,
                                                has_rest,
                                                line,
                                                properties,
                                                i + 1,
                                            )
                                        },
                                    }
                                },
                            }
                        },
                        _ => {
                            let st = st.op(OpCode::Pop, line);
                            st.assign_head_properties(fuel, has_rest, line, properties, i + 1)
                        },
                    }
                },
            }
        }
    }

    /// Compile a switch statement: the comparisons first, then the bodies, with the
    /// discriminant kept in a slot of its own until the end.
    pub open spec fn compile_switch(
        self,
        fuel: nat,
        s: &'p SwitchStatement,
    ) -> Result<CState<'p>, Failure>
        decreases fuel, s, 0int,
    {
        let st = self;
        let line: u32 = s.span.start;
        let st = st.emit_completion_reset(line);
        let outer_depth: u32 = st.depth();
        match st.compile_expr(fuel, &s.discriminant) {
            Err(e) => Err(e),
            Ok(st) => {
                let st = st.begin_scope();
                let (st, disc_slot_name) = st.intern("(switch discriminant)"@);
                let st = st.declare_local(disc_slot_name);
                let base: usize = st.mark_len();
                match st.compile_case_tests(fuel, line, &s.cases, 0) {
                    Err(e) => Err(e),
                    Ok(st) => {
                        let (st, end_of_compare) = st.jump(OpCode::Jump, line);
                        let pop_pos: usize = st.here();
                        let st = st.op(OpCode::Pop, line);
                        let st = st.push_loop(0, outer_depth, None, false, true, None);
                        let starts: usize = st.mark_len();
                        match st.compile_case_bodies(fuel, &s.cases, 0) {
                            Err(e) => Err(e),
                            Ok(st) => {
                                let st = st.nop_at(pop_pos);
                                let st = st.aim_cases(base, starts, &s.cases, 0);
                                let st = match shape::untested_case(s.cases@, s.cases@.len()) {
                                    Some(di) => {
                                        let target: usize = st.mark_at(starts.saturating_add(di));
                                        st.aim(end_of_compare, target)
                                    },
                                    None => st.patch(end_of_compare),
                                };
                                let st = st.drop_marks(base);
                                let st = st.end_scope();
                                Ok(st.patch_loop_breaks())
                            },
                        }
                    },
                }
            },
        }
    }

    /// Compare the discriminant with each case; remember the jumps.
    pub open spec fn compile_case_tests(
        self,
        fuel: nat,
        line: u32,
        cases: &'p Vec<SwitchCase>,
        i: int,
    ) -> Result<CState<'p>, Failure>
        decreases fuel, cases, cases@.len() - i,
    {
        let st = self;
        if i < 0 || i >= cases@.len() {
            Ok(st)
        } else {
            let case = &cases@[i];
            if let Some(test) = &case.test {
                let st = st.op(OpCode::Dup, line);
                match st.compile_expr(fuel, test) {
                    Err(e) => Err(e),
                    Ok(st) => {
                        let st = st.op(OpCode::StrictEq, line);
                        let (st, jump) = st.jump(OpCode::JumpIfTrue, line);
                        let st = st.push_mark(jump);
                        st.compile_case_tests(fuel, line, cases, i + 1)
                    },
                }
            } else {
                st.compile_case_tests(fuel, line, cases, i + 1)
            }
        }
    }

    /// Compile the body of each case; remember where it starts.
    pub open spec fn compile_case_bodies(
        self,
        fuel: nat,
        cases: &'p Vec<SwitchCase>,
        i: int,
    ) -> Result<CState<'p>, Failure>
        decreases fuel, cases, cases@.len() - i,
    {
        let st = self;
        if i < 0 || i >= cases@.len() {
            Ok(st)
        } else {
            let case = &cases@[i];
            let start: usize = st.here();
            let st = st.push_mark(start);
            match st.compile_statements(fuel, &case.consequent, 0) {
                Err(e) => Err(e),
                Ok(st) => st.compile_case_bodies(fuel, cases, i + 1),
            }
        }
    }

    /// Make the jump of each case lead to its body.
    pub open spec fn aim_cases(
        self,
        base: usize,
        starts: usize,
        cases: &'p Vec<SwitchCase>,
        i: int,
    ) -> CState<'p>
        decreases cases@.len() - i,
    {
        let st = self;
        if i < 0 || i >= cases@.len() {
            st
        } else {
            let case = &cases@[i];
            if case.test.is_some() {
                let jump_pos: usize = st.mark_at(
                    base.saturating_add((shape::tested_cases(cases@, i as nat) as usize)),
                );
                let target: usize = st.mark_at(starts.saturating_add(i as usize));
                let st = st.aim(jump_pos, target);
                st.aim_cases(base, starts, cases, i + 1)
            } else {
                st.aim_cases(base, starts, cases, i + 1)
            }
        }
    }

    /// Unwind the try levels from depth `from` down to depth `to`: pop the handler where it is
    /// still active, and run the finalizer.
    pub open spec fn unwind_levels(
        self,
        fuel: nat,
        levels: Seq<FinallyEntry<'p>>,
        base: usize,
        from: usize,
        to: usize,
        line: u32,
    ) -> Result<CState<'p>, Failure>
        decreases fuel, levels, from as int,
    {
        let st = self;
        if from > to {
            let at: usize = from.wrapping_sub(1);
            let level: FinallyEntry<'p> = steps::level_at(levels, base, at);
            let st = if level.active {
                st.op(OpCode::PopExcHandler, line)
            } else {
                st
            };
            if let Some(body) = level.body {
                if fuel == 0 {
                    Err(st.failing(steps::too_deep_text()))
                } else {
                    match st.compile_statements((fuel - 1) as nat, body, 0) {
                        Err(e) => Err(e),
                        Ok(st) => st.unwind_levels(fuel, levels, base, at, to, line),
                    }
                }
            } else {
                st.unwind_levels(fuel, levels, base, at, to, line)
            }
        } else {
            Ok(st)
        }
    }

    /// Unwind the loops from `li` down to `lo`, with the try levels inside each before it. The
    /// handler of a for-of loop is popped and its iterator closed. The depth of the try levels
    /// that are left.
    pub open spec fn unwind_loops(
        self,
        fuel: nat,
        levels: Seq<FinallyEntry<'p>>,
        base: usize,
        depth: usize,
        lo: usize,
        li: usize,
        line: u32,
    ) -> Result<(CState<'p>, usize), Failure>
        decreases fuel, levels, li as int,
    {
        let st = self;
        if li > lo {
            let at: usize = li.wrapping_sub(1);
            let entered: usize = st.loop_try_depth(at);
            let boundary: usize = if entered > base { entered } else { base };
            if fuel == 0 {
                Err(st.failing(steps::too_deep_text()))
            } else {
                match st.unwind_levels((fuel - 1) as nat, levels, base, depth, boundary, line) {
                    Err(e) => Err(e),
                    Ok(st) => {
                        let st = if let Some(slot) = st.loop_iter_slot(at) {
                            let st = st.op(OpCode::PopExcHandler, line);
                            let st = st.get_slot(slot as usize, line);
                            st.op(OpCode::IteratorClose, line)
                        } else {
                            st
                        };
                        let left: usize = if depth > boundary { boundary } else { depth };
                        st.unwind_loops(fuel, levels, base, left, lo, at, line)
                    },
                }
            }
        } else {
            Ok((st, depth))
        }
    }

    /// Unwind the constructs that an abrupt exit (break, continue, return) crosses, in reverse
    /// nesting order: finalizers run in place and for-of iterators are closed. `target` is the
    /// loop that is exited to (none for return); where asked, its own handler is popped, and
    /// its epilogue or next iteration sees to its iterator. The levels being unwound are
    /// detached meanwhile, so that an exit inside a finalizer does not run it again.
    pub open spec fn compile_abrupt_unwind(
        self,
        fuel: nat,
        target: Option<usize>,
        try_depth: usize,
        pop_handler: bool,
        line: u32,
    ) -> Result<CState<'p>, Failure>
        decreases fuel, target, 0int,
    {
        let st = self;
        let (st, levels) = st.detach_finally(try_depth);
        let depth: usize = steps::depth_behind(levels, try_depth);
        let lo: usize = match target { Some(at) => at.wrapping_add(1), None => 0 };
        let li: usize = st.loop_len();
        if fuel == 0 {
            Err(st.failing(steps::too_deep_text()))
        } else {
            match st.unwind_loops((fuel - 1) as nat, levels, try_depth, depth, lo, li, line) {
                Err(e) => Err(e),
                Ok((st, left)) => {
                    match st.unwind_levels(
                        (fuel - 1) as nat,
                        levels,
                        try_depth,
                        left,
                        try_depth,
                        line,
                    ) {
                        Err(e) => Err(e),
                        Ok(st) => {
                            let st = if pop_handler {
                                if let Some(at) = target {
                                    if st.loop_iter_slot(at).is_some() {
                                        st.op(OpCode::PopExcHandler, line)
                                    } else {
                                        st
                                    }
                                } else {
                                    st
                                }
                            } else {
                                st
                            };
                            Ok(st.attach_finally(levels))
                        },
                    }
                },
            }
        }
    }

    /// Compile a return. The argument is evaluated before the handlers are unwound.
    pub open spec fn compile_return(
        self,
        fuel: nat,
        r: &'p ReturnStatement,
    ) -> Result<CState<'p>, Failure>
        decreases fuel, r, 0int,
    {
        let st = self;
        let line: u32 = r.span.start;
        match &r.argument {
            Some(arg) => {
                match st.compile_expr(fuel, arg) {
                    Err(e) => Err(e),
                    Ok(st) => {
                        if fuel == 0 {
                            Err(st.failing(steps::too_deep_text()))
                        } else {
                            match st.compile_abrupt_unwind(
                                (fuel - 1) as nat,
                                None,
                                0,
                                false,
                                line,
                            ) {
                                Err(e) => Err(e),
                                Ok(st) => Ok(st.op(OpCode::Return, line)),
                            }
                        }
                    },
                }
            },
            None => {
                if fuel == 0 {
                    Err(st.failing(steps::too_deep_text()))
                } else {
                    match st.compile_abrupt_unwind((fuel - 1) as nat, None, 0, false, line) {
                        Err(e) => Err(e),
                        Ok(st) => Ok(st.op(OpCode::ReturnUndefined, line)),
                    }
                }
            },
        }
    }

    /// Unwind and drop what stands between here and a loop that is left or continued.
    pub open spec fn unwind_to_loop(
        self,
        fuel: nat,
        at: usize,
        line: u32,
    ) -> Result<CState<'p>, Failure>
        decreases fuel, Some(at), 0int,
    {
        let st = self;
        let loop_depth: u32 = st.loop_scope_depth(at);
        let try_depth: usize = st.loop_try_depth(at);
        let loop_with: usize = st.loop_with_depth(at);
        if fuel == 0 {
            Err(st.failing(steps::too_deep_text()))
        } else {
            match st.compile_abrupt_unwind((fuel - 1) as nat, Some(at), try_depth, true, line) {
                Err(e) => Err(e),
                Ok(st) => {
                    let pop_n: usize = st.locals_above_depth(loop_depth);
                    let st = if pop_n > 0 && pop_n <= 255 {
                        st.op_u8(OpCode::PopN, pop_n as u8, line)
                    } else {
                        st.emit_repeated(OpCode::Pop, pop_n, line)
                    };
                    let with_now: usize = st.with_level();
                    Ok(st.emit_repeated(OpCode::WithExit, with_now.saturating_sub(loop_with), line))
                },
            }
        }
    }

    /// Compile a break.
    pub open spec fn compile_break(
        self,
        fuel: nat,
        b: &'p BreakStatement,
    ) -> Result<CState<'p>, Failure>
        decreases fuel, b, 0int,
    {
        let st = self;
        let line: u32 = b.span.start;
        if st.no_loops() {
            Err(
                st.failing(
                    steps::offset_message_text("'break' outside of loop/switch at offset "@, line),
                ),
            )
        } else {
            match st.find_break(b.label) {
                Some(at) => {
                    if fuel == 0 {
                        Err(st.failing(steps::too_deep_text()))
                    } else {
                        match st.unwind_to_loop((fuel - 1) as nat, at, line) {
                            Err(e) => Err(e),
                            Ok(st) => {
                                let (st, pos) = st.jump(OpCode::Jump, line);
                                Ok(st.add_break(at, pos))
                            },
                        }
                    }
                },
                None => {
                    Err(st.failing(steps::offset_message_text("label not found at offset "@, line)))
                },
            }
        }
    }

    /// Compile a continue.
    pub open spec fn compile_continue(
        self,
        fuel: nat,
        c: &'p ContinueStatement,
    ) -> Result<CState<'p>, Failure>
        decreases fuel, c, 0int,
    {
        let st = self;
        let line: u32 = c.span.start;
        if st.no_loops() {
            Err(
                st.failing(
                    steps::offset_message_text("'continue' outside of loop at offset "@, line),
                ),
            )
        } else {
            match st.find_continue(c.label) {
                Some(at) => {
                    let target: usize = st.loop_continue_target(at);
                    let deferred: bool = st.loop_defers_continue(at);
                    if fuel == 0 {
                        Err(st.failing(steps::too_deep_text()))
                    } else {
                        match st.unwind_to_loop((fuel - 1) as nat, at, line) {
                            Err(e) => Err(e),
                            Ok(st) => {
                                if deferred {
                                    let (st, pos) = st.jump(OpCode::Jump, line);
                                    Ok(st.add_continue(at, pos))
                                } else {
                                    Ok(st.back(target, line))
                                }
                            },
                        }
                    }
                },
                None => {
                    if c.label.is_some() {
                        Err(
                            st.failing(
                                steps::offset_message_text("label not found at offset "@, line),
                            ),
                        )
                    } else {
                        Err(
                            st.failing(
                                steps::offset_message_text(
                                    "'continue' outside of loop at offset "@,
                                    line,
                                ),
                            ),
                        )
                    }
                },
            }
        }
    }

    /// Compile a try statement. With both a catch clause and a finalizer it is a try-catch
    /// inside a try-finally, so that the finalizer also runs when the catch block throws.
    pub open spec fn compile_try(
        self,
        fuel: nat,
        t: &'p TryStatement,
    ) -> Result<CState<'p>, Failure>
        decreases fuel, t, 2int,
    {
        let st = self;
        let line: u32 = t.span.start;
        match &t.finalizer {
            Some(finalizer) => {
                let st = st.byte(OpCode::PushExcHandler.byte(), line);
                let handler: usize = st.here();
                let st = st.raw16(0xFFFF);
                let st = st.raw16(0xFFFF);
                let st = st.push_finally(Some(&finalizer.body));
                let r = if t.handler.is_some() {
                    st.compile_try_catch(fuel, t, line)
                } else {
                    st.compile_statements(fuel, &t.block.body, 0)
                };
                match r {
                    Err(e) => Err(e),
                    Ok(st) => {
                        let st = st.deactivate_finally();
                        let st = st.op(OpCode::PopExcHandler, line);
                        let (st, skip_catch) = st.jump(OpCode::Jump, line);
                        let st = st.mark_wide_target();
                        let st = st.put_here(handler);
                        let st = st.pop_finally();
                        match st.compile_rethrow(fuel, &finalizer.body, line) {
                            Err(e) => Err(e),
                            Ok(st) => {
                                let st = st.patch(skip_catch);
                                let st = st.mark_wide_target();
                                let st = st.put_here(handler.wrapping_add(2));
                                let st = st.begin_scope();
                                match st.compile_statements(fuel, &finalizer.body, 0) {
                                    Err(e) => Err(e),
                                    Ok(st) => Ok(st.end_scope()),
                                }
                            },
                        }
                    },
                }
            },
            None => st.compile_try_catch(fuel, t, line),
        }
    }

    /// Run a finalizer for a pending exception, then rethrow it.
    pub open spec fn compile_rethrow(
        self,
        fuel: nat,
        body: &'p Vec<Statement>,
        line: u32,
    ) -> Result<CState<'p>, Failure>
        decreases fuel, body, body@.len() as int + 1,
    {
        let st = self;
        if st.depth() > 0 {
            let st = st.begin_scope();
            let (st, exc_name) = st.intern("__pending_exc__"@);
            let st = st.declare_local(exc_name);
            let last: usize = st.last_index();
            let exc_slot: u16 = last as u16;
            match st.compile_statements(fuel, body, 0) {
                Err(e) => Err(e),
                Ok(st) => {
                    let st = st.get_slot(exc_slot as usize, line);
                    let st = st.op(OpCode::Throw, line);
                    Ok(st.end_scope())
                },
            }
        } else {
            let (st, exc_name) = st.intern("__pending_exc__"@);
            let (st, idx) = st.make_string_constant(exc_name);
            let st = st.op_u16(OpCode::DefineGlobal, idx, line);
            match st.compile_statements(fuel, body, 0) {
                Err(e) => Err(e),
                Ok(st) => {
                    let st = st.op_u16(OpCode::GetGlobal, idx, line);
                    Ok(st.op(OpCode::Throw, line))
                },
            }
        }
    }

    /// Compile block and catch clause of a try statement.
    pub open spec fn compile_try_catch(
        self,
        fuel: nat,
        t: &'p TryStatement,
        line: u32,
    ) -> Result<CState<'p>, Failure>
        decreases fuel, t, 1int,
    {
        let st = self;
        let st = st.byte(OpCode::PushExcHandler.byte(), line);
        let handler: usize = st.here();
        let st = st.raw16(0xFFFF);
        let st = st.raw16(0xFFFF);
        let st = st.push_finally(None);
        match st.compile_statements(fuel, &t.block.body, 0) {
            Err(e) => Err(e),
            Ok(st) => {
                let st = st.deactivate_finally();
                let st = st.op(OpCode::PopExcHandler, line);
                let (st, skip_catch) = st.jump(OpCode::Jump, line);
                let st = st.mark_wide_target();
                let r = match &t.handler {
                    Some(clause) => {
                        let st = st.put_here(handler);
                        st.compile_catch(fuel, clause, line)
                    },
                    None => Ok(st),
                };
                match r {
                    Err(e) => Err(e),
                    Ok(st) => {
                        let st = st.pop_finally();
                        Ok(st.patch(skip_catch))
                    },
                }
            },
        }
    }

    /// Compile a catch clause: the exception is on the stack.
    pub open spec fn compile_catch(
        self,
        fuel: nat,
        clause: &'p CatchClause,
        line: u32,
    ) -> Result<CState<'p>, Failure>
        decreases fuel, clause, 0int,
    {
        let st = self;
        let st = st.begin_scope();
        let r = match &clause.param {
            Some(param) => {
                match param {
                    Pattern::Identifier(id) => {
                        match st.check_strict_restricted(id.name, "catch parameter"@) {
                            Err(e) => Err(e),
                            Ok(st) => {
                                if st.depth() > 0 {
                                    Ok(st.declare_local(id.name))
                                } else {
                                    Ok(st.op_name(OpCode::DefineGlobal, id.name, line))
                                }
                            },
                        }
                    },
                    Pattern::Object(obj_pat) => {
                        let (st, anon) = st.intern("__catch_val__"@);
                        let st = st.declare_local(anon);
                        let src_slot: u8 = st.last_slot();
                        st.compile_bind_obj_props_local(
                            fuel,
                            &obj_pat.properties,
                            src_slot,
                            false,
                            line,
                        )
                    },
                    Pattern::Array(arr_pat) => {
                        let st = st.op(OpCode::GetIterator, line);
                        let (st, anon) = st.intern("__catch_iter__"@);
                        let st = st.declare_local(anon);
                        let iter_slot: u8 = st.last_slot();
                        st.compile_bind_arr_elems_local(
                            fuel,
                            &arr_pat.elements,
                            iter_slot,
                            false,
                            line,
                        )
                    },
                    _ => Ok(st.op(OpCode::Pop, line)),
                }
            },
            None => Ok(st.op(OpCode::Pop, line)),
        };
        match r {
            Err(e) => Err(e),
            Ok(st) => {
                match st.compile_statements(fuel, &clause.body.body, 0) {
                    Err(e) => Err(e),
                    Ok(st) => Ok(st.end_scope()),
                }
            },
        }
    }

    /// Compile a labelled statement. A loop adopts the label.
    pub open spec fn compile_labeled(
        self,
        fuel: nat,
        l: &'p LabeledStatement,
    ) -> Result<CState<'p>, Failure>
        decreases fuel, l, 0int,
    {
        let st = self;
        let here: usize = st.here();
        if shape::adopts_label(l.body) {
            let (st, saved_label) = st.take_label();
            let st = st.set_label(Some(l.label));
            let st = st.enter_loop(here, Some(l.label), false);
            match st.compile_statement(fuel, &l.body) {
                Err(e) => Err(e),
                Ok(st) => {
                    let st = st.patch_loop_breaks();
                    Ok(st.set_label(saved_label))
                },
            }
        } else {
            let st = st.enter_loop(here, Some(l.label), false);
            match st.compile_statement(fuel, &l.body) {
                Err(e) => Err(e),
                Ok(st) => Ok(st.patch_loop_breaks()),
            }
        }
    }

    /// Compile a with statement.
    pub open spec fn compile_with(
        self,
        fuel: nat,
        w: &'p WithStatement,
    ) -> Result<CState<'p>, Failure>
        decreases fuel, w, 0int,
    {
        let st = self;
        let line: u32 = w.span.start;
        match st.compile_expr(fuel, &w.object) {
            Err(e) => Err(e),
            Ok(st) => {
                let st = st.op(OpCode::WithEnter, line);
                let st = st.emit_completion_reset(line);
                let st = st.enter_with();
                match st.compile_statement(fuel, &w.body) {
                    Err(e) => Err(e),
                    Ok(st) => {
                        let st = st.leave_with();
                        Ok(st.op(OpCode::WithExit, line))
                    },
                }
            },
        }
    }

    /// Compile an import: each specifier becomes a global read from the module object.
    pub open spec fn compile_import(self, i: &'p ImportDeclaration) -> CState<'p>
    {
        let st = self;
        match i {
            ImportDeclaration::Standard { specifiers, source, span } => {
                let st = st.op_name(OpCode::ImportModule, *source, span.start);
                let st = st.bind_imports(span.start, specifiers, 0);
                st.op(OpCode::Pop, span.start)
            },
        }
    }

    /// Bind each specifier from the module object on the stack.
    pub open spec fn bind_imports(
        self,
        line: u32,
        specifiers: &'p Vec<ImportSpecifier>,
        i: int,
    ) -> CState<'p>
        decreases specifiers@.len() - i,
    {
        let st = self;
        if i < 0 || i >= specifiers@.len() {
            st
        } else {
            let spec = &specifiers@[i];
            let st = st.op(OpCode::Dup, line);
            match spec {
                ImportSpecifier::Default { local, .. } => {
                    let (st, key) = st.intern("default"@);
                    let (st, idx) = st.make_string_constant(key);
                    let st = st.emit_get_property(idx, line);
                    let st = st.op_name(OpCode::DefineGlobal, *local, line);
                    st.bind_imports(line, specifiers, i + 1)
                },
                ImportSpecifier::Named { imported, local, .. } => {
                    let (st, idx) = st.make_string_constant(*imported);
                    let st = st.emit_get_property(idx, line);
                    let st = st.op_name(OpCode::DefineGlobal, *local, line);
                    st.bind_imports(line, specifiers, i + 1)
                },
                ImportSpecifier::Namespace { local, .. } => {
                    let st = st.op_name(OpCode::DefineGlobal, *local, line);
                    st.bind_imports(line, specifiers, i + 1)
                },
            }
        }
    }

    /// Compile an export: the value goes to a property of the exports object.
    pub open spec fn compile_export(
        self,
        fuel: nat,
        e: &'p ExportDeclaration,
    ) -> Result<CState<'p>, Failure>
        decreases fuel, e, 0int,
    {
        let st = self;
        match e {
            ExportDeclaration::Declaration { declaration, span } => {
                match st.compile_statement(fuel, declaration) {
                    Err(e) => Err(e),
                    Ok(st) => {
                        let names: Seq<StringId> = names::declaration_names(**declaration);
                        Ok(st.export_declared(span.start, names, 0))
                    },
                }
            },
            ExportDeclaration::Default { declaration, span } => {
                let line: u32 = span.start;
                match st.compile_expr(fuel, declaration) {
                    Err(e) => Err(e),
                    Ok(st) => {
                        let (st, exports_key) = st.intern("__exports__"@);
                        let st = st.op_name(OpCode::GetGlobal, exports_key, line);
                        let st = st.op(OpCode::Swap, line);
                        let st = st.op(OpCode::Swap, line);
                        let (st, default_key) = st.intern("default"@);
                        let (st, default_idx) = st.make_string_constant(default_key);
                        let st = st.emit_set_property(default_idx, line);
                        Ok(st.op(OpCode::Pop, line))
                    },
                }
            },
            ExportDeclaration::Named { specifiers, span, .. } => {
                Ok(st.export_specifiers(span.start, specifiers, 0))
            },
            ExportDeclaration::All { source, span, .. } => {
                Ok(st.op_name(OpCode::ExportAllFrom, *source, span.start))
            },
        }
    }

    /// Export each declared name.
    pub open spec fn export_declared(self, line: u32, names: Seq<StringId>, i: int) -> CState<'p>
        decreases names.len() - i,
    {
        let st = self;
        if i < 0 || i >= names.len() {
            st
        } else {
            let name = names[i];
            let (st, exports_key) = st.intern("__exports__"@);
            let st = st.op_name(OpCode::GetGlobal, exports_key, line);
            let (st, name_idx) = st.make_string_constant(name);
            let st = st.op_u16(OpCode::GetGlobal, name_idx, line);
            let st = st.op(OpCode::Swap, line);
            let st = st.op(OpCode::Swap, line);
            let st = st.emit_set_property(name_idx, line);
            let st = st.op(OpCode::Pop, line);
            st.export_declared(line, names, i + 1)
        }
    }

    /// Export each specifier.
    pub open spec fn export_specifiers(
        self,
        line: u32,
        specifiers: &'p Vec<ExportSpecifier>,
        i: int,
    ) -> CState<'p>
        decreases specifiers@.len() - i,
    {
        let st = self;
        if i < 0 || i >= specifiers@.len() {
            st
        } else {
            let spec = &specifiers@[i];
            let (st, exports_key) = st.intern("__exports__"@);
            let st = st.op_name(OpCode::GetGlobal, exports_key, line);
            let st = st.op_name(OpCode::GetGlobal, spec.local, line);
            let (st, exported_idx) = st.make_string_constant(spec.exported);
            let st = st.op(OpCode::Swap, line);
            let st = st.emit_set_property(exported_idx, line);
            let st = st.op(OpCode::Pop, line);
            st.export_specifiers(line, specifiers, i + 1)
        }
    }
}

impl<'p> Compiler<'p> {
    /// Compile a statement. At script level the value of an expression statement becomes the
    /// completion value; inside functions it is discarded.
    pub(crate) fn compile_statement(
        &mut self,
        fuel: u32,
        stmt: &'p Statement,
    ) -> (done: Result<(), String>)
        requires
            old(self).st().good(),
        ensures
            steps::outcome(
                done,
                final(self).st(),
                old(self).st().compile_statement(fuel as nat, stmt),
            ),
            done is Ok ==> final(self).st().depths() == old(self).st().depths(),
            final(self).st().good(),
            final(self).st().base == old(self).st().base,
        decreases fuel, stmt, 5int,
    {
        match stmt {
            Statement::Expression(e) => {
                self.compile_expr(fuel, &e.expression)?;
                let line: u32 = self.current_line();
                if self.has_flag(FLAG_SCRIPT) {
                    self.op(OpCode::SetCompletion, line);
                } else {
                    self.op(OpCode::Pop, line);
                }
            },
            Statement::Variable(decl) => {
                self.compile_var_declaration(fuel, decl.kind, &decl.declarations)?;
            },
            Statement::Block(block) => {
                self.begin_scope();
                self.compile_statements(fuel, &block.body)?;
                self.end_scope();
            },
            Statement::If(s) => {
                self.compile_if(fuel, s)?;
            },
            Statement::While(w) => {
                self.compile_while(fuel, w)?;
            },
            Statement::DoWhile(d) => {
                self.compile_do_while(fuel, d)?;
            },
            Statement::For(f) => {
                self.compile_for(fuel, f)?;
            },
            Statement::ForIn(f) => {
                self.compile_for_in(fuel, f)?;
            },
            Statement::ForOf(f) => {
                self.compile_for_of(fuel, f)?;
            },
            Statement::Switch(s) => {
                self.compile_switch(fuel, s)?;
            },
            Statement::Return(r) => {
                self.compile_return(fuel, r)?;
            },
            Statement::Break(b) => {
                if fuel == 0 {
                    return Err(too_deep());
                }
                self.compile_break(fuel - 1, b)?;
            },
            Statement::Continue(c) => {
                if fuel == 0 {
                    return Err(too_deep());
                }
                self.compile_continue(fuel - 1, c)?;
            },
            Statement::Throw(t) => {
                self.compile_expr(fuel, &t.argument)?;
                self.op(OpCode::Throw, t.span.start);
            },
            Statement::Try(t) => {
                self.compile_try(fuel, t)?;
            },
            Statement::Function(f) => {
                self.compile_function_decl(fuel, f)?;
            },
            Statement::Class(c) => {
                self.compile_class_decl(fuel, c)?;
            },
            Statement::Labeled(l) => {
                self.compile_labeled(fuel, l)?;
            },
            Statement::With(w) => {
                self.compile_with(fuel, w)?;
            },
            Statement::Import(i) => {
                self.compile_import(i);
            },
            Statement::Export(e) => {
                self.compile_export(fuel, e)?;
            },
            Statement::Empty(_) => {},
            Statement::Debugger(span) => {
                self.op(OpCode::Debugger, span.start);
            },
        }
        Ok(())
    }

    /// Compile each statement of a list.
    pub(crate) fn compile_statements(
        &mut self,
        fuel: u32,
        stmts: &'p Vec<Statement>,
    ) -> (done: Result<(), String>)
        requires
            old(self).st().good(),
        ensures
            steps::outcome(
                done,
                final(self).st(),
                old(self).st().compile_statements(fuel as nat, stmts, 0),
            ),
            done is Ok ==> final(self).st().depths() == old(self).st().depths(),
            final(self).st().good(),
            final(self).st().base == old(self).st().base,
        decreases fuel, stmts, stmts@.len() as int,
    {
        let mut i: usize = 0;
        while i < stmts.len()
            invariant
                i <= stmts@.len(),
                self.st().good(),
                self.st().depths() == old(self).st().depths(),
                self.st().base == old(self).st().base,
                self.st().compile_statements(
                    fuel as nat,
                    stmts,
                    i as int,
                ) == old(self).st().compile_statements(fuel as nat, stmts, 0),
            decreases stmts@.len() - i,
        {
            let stmt = &stmts[i];
            assert(decreases_to!(stmts => stmts[i as int]));
            self.compile_statement(fuel, stmt)?;
            i = i + 1;
        }
        Ok(())
    }

    /// Compile each declarator of a declaration.
    pub(crate) fn compile_var_declaration(
        &mut self,
        fuel: u32,
        kind: VarKind,
        declarations: &'p Vec<VariableDeclarator>,
    ) -> (done: Result<(), String>)
        requires
            old(self).st().good(),
        ensures
            steps::outcome(
                done,
                final(self).st(),
                old(self).st().compile_var_declaration(fuel as nat, kind, declarations, 0),
            ),
            done is Ok ==> final(self).st().depths() == old(self).st().depths(),
            final(self).st().good(),
            final(self).st().base == old(self).st().base,
        decreases fuel, declarations, declarations@.len() as int,
    {
        let mut i: usize = 0;
        while i < declarations.len()
            invariant
                i <= declarations@.len(),
                self.st().good(),
                self.st().depths() == old(self).st().depths(),
                self.st().base == old(self).st().base,
                self.st().compile_var_declaration(
                    fuel as nat,
                    kind,
                    declarations,
                    i as int,
                ) == old(self).st().compile_var_declaration(fuel as nat, kind, declarations, 0),
            decreases declarations@.len() - i,
        {
            let declarator = &declarations[i];
            assert(decreases_to!(declarations => declarations[i as int]));
            self.compile_declarator(fuel, kind, declarator)?;
            i = i + 1;
        }
        Ok(())
    }

    /// Compile a declarator.
    pub(crate) fn compile_declarator(
        &mut self,
        fuel: u32,
        kind: VarKind,
        declarator: &'p VariableDeclarator,
    ) -> (done: Result<(), String>)
        requires
            old(self).st().good(),
        ensures
            steps::outcome(
                done,
                final(self).st(),
                old(self).st().compile_declarator(fuel as nat, kind, declarator),
            ),
            done is Ok ==> final(self).st().depths() == old(self).st().depths(),
            final(self).st().good(),
            final(self).st().base == old(self).st().base,
        decreases fuel, declarator, 0int,
    {
        let line: u32 = declarator.span.start;
        match &declarator.id {
            Pattern::Identifier(id) => {
                self.check_strict_restricted(id.name, "binding")?;
                match &declarator.init {
                    Some(init) => {
                        if is_anonymous_fn_def(init) {
                            self.set_pending_name(id.name);
                        }
                        self.compile_expr(fuel, init)?;
                        self.bind_initialized(kind, id.name, line);
                    },
                    None => {
                        if kind != VarKind::Var {
                            self.bind_uninitialized(kind, id.name, line);
                        }
                    },
                }
            },
            Pattern::Object(obj_pat) => {
                self.compile_init(fuel, &declarator.init, line)?;
                if self.depth() > 0 {
                    let anon: StringId = self.intern("__destruct_src__");
                    self.declare_local(anon);
                    let src_slot: u8 = self.last_slot();
                    self.compile_bind_obj_props_local(
                        fuel,
                        &obj_pat.properties,
                        src_slot,
                        kind == VarKind::Var,
                        line,
                    )?;
                } else {
                    self.compile_bind_obj_props_global(fuel, &obj_pat.properties, line)?;
                    self.op(OpCode::Pop, line);
                }
            },
            Pattern::Array(arr_pat) => {
                self.compile_init(fuel, &declarator.init, line)?;
                self.op(OpCode::GetIterator, line);
                if self.depth() > 0 {
                    let anon: StringId = self.intern("__destruct_iter__");
                    self.declare_local(anon);
                    let iter_slot: u8 = self.last_slot();
                    self.compile_bind_arr_elems_local(
                        fuel,
                        &arr_pat.elements,
                        iter_slot,
                        kind == VarKind::Var,
                        line,
                    )?;
                } else {
                    self.compile_bind_arr_elems_global(fuel, &arr_pat.elements, line)?;
                    self.op(OpCode::Pop, line);
                }
            },
            _ => {
                self.compile_init(fuel, &declarator.init, line)?;
                self.op(OpCode::Pop, line);
            },
        }
        Ok(())
    }

    /// Push an initial value, undefined where there is none.
    pub(crate) fn compile_init(
        &mut self,
        fuel: u32,
        init: &'p Option<Expression>,
        line: u32,
    ) -> (done: Result<(), String>)
        requires
            old(self).st().good(),
        ensures
            steps::outcome(
                done,
                final(self).st(),
                old(self).st().compile_init(fuel as nat, init, line),
            ),
            done is Ok ==> final(self).st().depths() == old(self).st().depths(),
            final(self).st().good(),
            final(self).st().base == old(self).st().base,
        decreases fuel, init, 6int,
    {
        match init {
            Some(e) => {
                self.compile_expr(fuel, e)?;
            },
            None => {
                self.op(OpCode::Undefined, line);
            },
        }
        Ok(())
    }

    /// Bind the value on the stack to a declared name. A `var` is assigned, since hoisting
    /// has defined it; a lexical is created, or its reserved slot is filled.
    pub(crate) fn bind_initialized(&mut self, kind: VarKind, name: StringId, line: u32)
        requires
            old(self).st().good(),
        ensures
            final(self).st() == old(self).st().bind_initialized(kind, name, line),
            final(self).st().depths() == old(self).st().depths(),
            final(self).st().good(),
            final(self).st().base == old(self).st().base,
    {
        if self.depth() == 0 {
            if kind == VarKind::Const {
                self.add_const_global(name);
            }
            let idx: u16 = self.make_string_constant(name);
            if kind == VarKind::Var {
                self.op_u16(OpCode::SetGlobal, idx, line);
                self.op(OpCode::Pop, line);
            } else {
                self.op_u16(OpCode::DefineGlobalLex, idx, line);
            }
        } else if kind == VarKind::Var {
            self.compile_set_variable(name, line);
            self.op(OpCode::Pop, line);
        } else {
            let reserved: Option<usize> = self.take_predeclared_lex(name);
            match reserved {
                Some(slot) => {
                    if kind == VarKind::Const {
                        self.set_const(slot);
                    }
                    if slot <= 255 {
                        self.op_u8(OpCode::InitLet, slot as u8, line);
                        self.op_u8(OpCode::SetLocal, slot as u8, line);
                    } else {
                        self.op_u16(OpCode::SetLocalWide, slot as u16, line);
                    }
                    self.op(OpCode::Pop, line);
                },
                None => {
                    self.bind_fresh(kind, name, line);
                },
            }
        }
    }

    /// Make the value on the stack a fresh lexical local.
    pub(crate) fn bind_fresh(&mut self, kind: VarKind, name: StringId, line: u32)
        requires
            old(self).st().good(),
        ensures
            final(self).st() == old(self).st().bind_fresh(kind, name, line),
            final(self).st().depths() == old(self).st().depths(),
            final(self).st().good(),
            final(self).st().base == old(self).st().base,
    {
        self.declare_local(name);
        let last: usize = self.last_index();
        if kind == VarKind::Const {
            self.set_const(last);
        }
        self.op_u8(OpCode::InitLet, last as u8, line);
    }

    /// Declare a lexical without a value: it is undefined from here on.
    pub(crate) fn bind_uninitialized(&mut self, kind: VarKind, name: StringId, line: u32)
        requires
            old(self).st().good(),
        ensures
            final(self).st() == old(self).st().bind_uninitialized(kind, name, line),
            final(self).st().depths() == old(self).st().depths(),
            final(self).st().good(),
            final(self).st().base == old(self).st().base,
    {
        let reserved: Option<usize> = self.take_predeclared_lex(name);
        match reserved {
            Some(slot) => {
                if kind == VarKind::Const {
                    self.set_const(slot);
                }
                if slot <= 255 {
                    self.op_u8(OpCode::InitLet, slot as u8, line);
                }
            },
            None => {
                self.op(OpCode::Undefined, line);
                self.bind_fresh(kind, name, line);
            },
        }
    }

    /// Compile an if statement.
    pub(crate) fn compile_if(&mut self, fuel: u32, s: &'p IfStatement) -> (done: Result<(), String>)
        requires
            old(self).st().good(),
        ensures
            steps::outcome(done, final(self).st(), old(self).st().compile_if(fuel as nat, s)),
            done is Ok ==> final(self).st().depths() == old(self).st().depths(),
            final(self).st().good(),
            final(self).st().base == old(self).st().base,
        decreases fuel, s, 0int,
    {
        let line: u32 = s.span.start;
        let is_script: bool = self.has_flag(FLAG_SCRIPT);
        self.compile_expr(fuel, &s.test)?;
        let then_jump: usize = self.jump(OpCode::JumpIfFalse, line);
        self.emit_completion_reset(line);
        self.compile_statement(fuel, &s.consequent)?;
        match &s.alternate {
            Some(alt) => {
                let else_jump: usize = self.jump(OpCode::Jump, line);
                self.patch(then_jump);
                self.emit_completion_reset(line);
                self.compile_statement(fuel, alt)?;
                self.patch(else_jump);
            },
            None => {
                if is_script {
                    let else_jump: usize = self.jump(OpCode::Jump, line);
                    self.patch(then_jump);
                    self.emit_completion_reset(line);
                    self.patch(else_jump);
                } else {
                    self.patch(then_jump);
                }
            },
        }
        Ok(())
    }

    /// Enter a loop at the current scope depth.
    pub(crate) fn enter_loop(&mut self, target: usize, label: Option<StringId>, deferred: bool)
        requires
            old(self).st().good(),
        ensures
            final(self).st() == old(self).st().enter_loop(target, label, deferred),
            final(self).st().depths() == (
                Depths { loops: old(self).st().depths().loops + 1, ..old(self).st().depths() }
            ),
            final(self).st().good(),
            final(self).st().base == old(self).st().base,
    {
        let depth: u32 = self.depth();
        self.push_loop(target, depth, label, deferred, false, None);
    }

    /// Compile a while loop.
    pub(crate) fn compile_while(
        &mut self,
        fuel: u32,
        w: &'p WhileStatement,
    ) -> (done: Result<(), String>)
        requires
            old(self).st().good(),
        ensures
            steps::outcome(done, final(self).st(), old(self).st().compile_while(fuel as nat, w)),
            done is Ok ==> final(self).st().depths() == old(self).st().depths(),
            final(self).st().good(),
            final(self).st().base == old(self).st().base,
        decreases fuel, w, 0int,
    {
        let line: u32 = w.span.start;
        self.emit_completion_reset(line);
        let label: Option<StringId> = self.take_label();
        let loop_start: usize = self.here();
        self.enter_loop(loop_start, label, false);
        self.compile_expr(fuel, &w.test)?;
        let exit_jump: usize = self.jump(OpCode::JumpIfFalse, line);
        self.compile_statement(fuel, &w.body)?;
        self.back(loop_start, line);
        self.patch(exit_jump);
        self.patch_loop_breaks();
        Ok(())
    }

    /// Compile a do-while loop: continue goes to the test.
    pub(crate) fn compile_do_while(
        &mut self,
        fuel: u32,
        d: &'p DoWhileStatement,
    ) -> (done: Result<(), String>)
        requires
            old(self).st().good(),
        ensures
            steps::outcome(done, final(self).st(), old(self).st().compile_do_while(fuel as nat, d)),
            done is Ok ==> final(self).st().depths() == old(self).st().depths(),
            final(self).st().good(),
            final(self).st().base == old(self).st().base,
        decreases fuel, d, 0int,
    {
        let line: u32 = d.span.start;
        self.emit_completion_reset(line);
        let label: Option<StringId> = self.take_label();
        let loop_start: usize = self.here();
        self.enter_loop(loop_start, label, true);
        self.compile_statement(fuel, &d.body)?;
        self.patch_continues();
        self.compile_expr(fuel, &d.test)?;
        let exit_jump: usize = self.jump(OpCode::JumpIfFalse, line);
        self.back(loop_start, line);
        self.patch(exit_jump);
        self.patch_loop_breaks();
        Ok(())
    }

    /// Compile a for loop: continue goes to the update. Only lexical heads open a scope.
    pub(crate) fn compile_for(
        &mut self,
        fuel: u32,
        f: &'p ForStatement,
    ) -> (done: Result<(), String>)
        requires
            old(self).st().good(),
        ensures
            steps::outcome(done, final(self).st(), old(self).st().compile_for(fuel as nat, f)),
            done is Ok ==> final(self).st().depths() == old(self).st().depths(),
            final(self).st().good(),
            final(self).st().base == old(self).st().base,
        decreases fuel, f, 1int,
    {
        let line: u32 = f.span.start;
        let needs_scope: bool = for_needs_scope(f);
        if needs_scope {
            self.begin_scope();
        }
        match &f.init {
            Some(init) => {
                match init {
                    ForInit::Variable(decl) => {
                        self.compile_var_declaration(fuel, decl.kind, &decl.declarations)?;
                    },
                    ForInit::Expression(expr) => {
                        self.compile_expr(fuel, expr)?;
                        self.op(OpCode::Pop, line);
                    },
                }
            },
            None => {},
        }
        self.emit_completion_reset(line);
        let loop_start: usize = self.here();
        let label: Option<StringId> = self.take_label();
        self.enter_loop(loop_start, label, f.update.is_some());
        match &f.test {
            Some(test) => {
                self.compile_expr(fuel, test)?;
                let exit: usize = self.jump(OpCode::JumpIfFalse, line);
                self.compile_for_rest(fuel, f, loop_start, line)?;
                self.patch(exit);
            },
            None => {
                self.compile_for_rest(fuel, f, loop_start, line)?;
            },
        }
        self.patch_loop_breaks();
        if needs_scope {
            self.end_scope();
        }
        Ok(())
    }

    /// Compile body and update of a for loop, and the jump back.
    pub(crate) fn compile_for_rest(
        &mut self,
        fuel: u32,
        f: &'p ForStatement,
        loop_start: usize,
        line: u32,
    ) -> (done: Result<(), String>)
        requires
            old(self).st().good(),
        ensures
            steps::outcome(
                done,
                final(self).st(),
                old(self).st().compile_for_rest(fuel as nat, f, loop_start, line),
            ),
            done is Ok ==> final(self).st().depths() == old(self).st().depths(),
            final(self).st().good(),
            final(self).st().base == old(self).st().base,
        decreases fuel, f, 0int,
    {
        self.compile_statement(fuel, &f.body)?;
        self.set_continue_here();
        self.patch_continues();
        match &f.update {
            Some(update) => {
                self.compile_expr(fuel, update)?;
                self.op(OpCode::Pop, line);
            },
            None => {},
        }
        self.back(loop_start, line);
        Ok(())
    }

    /// Compile a for-in loop over the enumerable keys of an object.
    pub(crate) fn compile_for_in(
        &mut self,
        fuel: u32,
        f: &'p ForInStatement,
    ) -> (done: Result<(), String>)
        requires
            old(self).st().good(),
        ensures
            steps::outcome(done, final(self).st(), old(self).st().compile_for_in(fuel as nat, f)),
            done is Ok ==> final(self).st().depths() == old(self).st().depths(),
            final(self).st().good(),
            final(self).st().base == old(self).st().base,
        decreases fuel, f, 0int,
    {
        let line: u32 = f.span.start;
        let is_var: bool = head_is_var(&f.left);
        let is_const: bool = head_is_const(&f.left);
        let is_bare: bool = head_is_bare(&f.left);
        let var_name: Option<StringId> = head_name(&f.left);
        if !is_var {
            self.begin_scope();
        }
        if is_bare {
            if let Some(n) = var_name {
                self.check_strict_restricted(n, "assignment target")?;
            }
        }
        let global_head: bool = self.declare_for_in(var_name, is_var || is_bare, line);
        let fresh_local: bool = var_name.is_some() && !(is_var || is_bare) && !global_head;
        let local_slot: u8 = self.last_slot();
        self.compile_expr(fuel, &f.right)?;
        self.op(OpCode::GetForInIterator, line);
        let iter_slot: u8 = self.next_slot();
        if fresh_local {
            let anon: StringId = self.intern("(for-in-iter)");
            self.declare_local(anon);
        }
        self.emit_completion_reset(line);
        let loop_start: usize = self.here();
        if fresh_local {
            self.op_u8(OpCode::GetLocal, iter_slot, line);
        } else {
            self.op(OpCode::Dup, line);
        }
        self.op(OpCode::IteratorNext, line);
        self.op(OpCode::Dup, line);
        self.op(OpCode::IteratorDone, line);
        let exit_jump: usize = self.jump(OpCode::JumpIfTrue, line);
        self.op(OpCode::IteratorValue, line);
        match var_name {
            Some(name) => {
                if fresh_local {
                    self.op_u8(OpCode::InitLet, local_slot, line);
                }
                if is_const {
                    if fresh_local {
                        self.op_u8(OpCode::SetLocal, local_slot, line);
                        self.op(OpCode::Pop, line);
                        self.set_const(local_slot as usize);
                    } else if global_head {
                        self.op_name(OpCode::SetGlobal, name, line);
                        self.op(OpCode::Pop, line);
                        self.add_const_global(name);
                    }
                } else {
                    self.compile_set_variable(name, line);
                    self.op(OpCode::Pop, line);
                }
            },
            None => {
                self.op(OpCode::Pop, line);
            },
        }
        self.enter_loop(loop_start, None, false);
        self.compile_statement(fuel, &f.body)?;
        self.back(loop_start, line);
        self.patch(exit_jump);
        self.op(OpCode::Pop, line);
        if !fresh_local {
            self.op(OpCode::Pop, line);
        }
        self.patch_loop_breaks();
        if !is_var {
            self.end_scope();
        }
        Ok(())
    }

    /// Declare the variable of a for-in head: a global at the outermost level, a fresh local
    /// in its dead zone for a lexical, nothing for one that exists. Whether it is a global.
    pub(crate) fn declare_for_in(
        &mut self,
        var_name: Option<StringId>,
        existing: bool,
        line: u32,
    ) -> (value: bool)
        requires
            old(self).st().good(),
        ensures
            (final(self).st(), value) == old(self).st().declare_for_in(var_name, existing, line),
            final(self).st().depths() == old(self).st().depths(),
            final(self).st().good(),
            final(self).st().base == old(self).st().base,
    {
        match var_name {
            Some(name) => {
                if existing && self.depth() > 1 {
                    return false;
                }
                if existing {
                    self.op(OpCode::Undefined, line);
                } else {
                    self.op(OpCode::PushEmpty, line);
                }
                if self.depth() <= 1 {
                    if !existing {
                        self.op(OpCode::Pop, line);
                        self.op(OpCode::Undefined, line);
                    }
                    self.op_name(OpCode::DefineGlobal, name, line);
                    return true;
                } else {
                    self.declare_local(name);
                    return false;
                }
            },
            None => {
                return false;
            },
        }
    }

    /// Declare a loop variable that is undefined: a global at the outermost level, else a
    /// local.
    pub(crate) fn declare_loop_var(&mut self, name: StringId, line: u32)
        requires
            old(self).st().good(),
        ensures
            final(self).st() == old(self).st().declare_loop_var(name, line),
            final(self).st().depths() == old(self).st().depths(),
            final(self).st().good(),
            final(self).st().base == old(self).st().base,
    {
        self.op(OpCode::Undefined, line);
        if self.depth() <= 1 {
            self.op_name(OpCode::DefineGlobal, name, line);
        } else {
            self.declare_local(name);
        }
    }

    /// Declare each of the loop variables.
    pub(crate) fn declare_loop_vars(&mut self, line: u32, names: &Vec<StringId>)
        requires
            old(self).st().good(),
        ensures
            final(self).st() == old(self).st().declare_loop_vars(line, names@, 0),
            final(self).st().depths() == old(self).st().depths(),
            final(self).st().good(),
            final(self).st().base == old(self).st().base,
    {
        let mut i: usize = 0;
        while i < names.len()
            invariant
                i <= names@.len(),
                self.st().good(),
                self.st().depths() == old(self).st().depths(),
                self.st().base == old(self).st().base,
                self.st().declare_loop_vars(
                    line,
                    names@,
                    i as int,
                ) == old(self).st().declare_loop_vars(line, names@, 0),
            decreases names@.len() - i,
        {
            let name = names[i];
            self.declare_loop_var(name, line);
            i = i + 1;
        }
    }

    /// Reserve a marker local for each simple lexical of a for-of head: it is in scope, but
    /// in its dead zone, while the iterable is evaluated.
    pub(crate) fn reserve_head_names(
        &mut self,
        line: u32,
        declarations: &'p Vec<VariableDeclarator>,
    )
        requires
            old(self).st().good(),
        ensures
            final(self).st() == old(self).st().reserve_head_names(line, declarations, 0),
            final(self).st().depths() == old(self).st().depths(),
            final(self).st().good(),
            final(self).st().base == old(self).st().base,
    {
        let mut i: usize = 0;
        while i < declarations.len()
            invariant
                i <= declarations@.len(),
                self.st().good(),
                self.st().depths() == old(self).st().depths(),
                self.st().base == old(self).st().base,
                self.st().reserve_head_names(
                    line,
                    declarations,
                    i as int,
                ) == old(self).st().reserve_head_names(line, declarations, 0),
            decreases declarations@.len() - i,
        {
            let d = &declarations[i];
            if let Pattern::Identifier(id) = &d.id {
                self.op(OpCode::PushEmpty, line);
                self.declare_local(id.name);
            }
            i = i + 1;
        }
    }

    /// Declare what the head of a for-of loop declares before the iterable is evaluated.
    pub(crate) fn declare_for_of_head(&mut self, left: &'p ForInOfLeft, line: u32)
        requires
            old(self).st().good(),
        ensures
            final(self).st() == old(self).st().declare_for_of_head(left, line),
            final(self).st().depths() == old(self).st().depths(),
            final(self).st().good(),
            final(self).st().base == old(self).st().base,
    {
        if let ForInOfLeft::Variable(decl) = left {
            if decl.declarations.len() > 0 {
                match &decl.declarations[0].id {
                    Pattern::Identifier(id) => {
                        if decl.kind == VarKind::Var {
                            self.declare_loop_var(id.name, line);
                        }
                    },
                    Pattern::Array(_) => {
                        let names: Vec<StringId> = collect_binding_names(&decl.declarations[0].id);
                        self.declare_loop_vars(line, &names);
                    },
                    Pattern::Object(_) => {
                        let names: Vec<StringId> = collect_binding_names(&decl.declarations[0].id);
                        self.declare_loop_vars(line, &names);
                    },
                    _ => {},
                }
            }
            if decl.kind != VarKind::Var {
                self.reserve_head_names(line, &decl.declarations);
            }
        }
    }

    /// Compile a for-of loop. A simple lexical head gets a fresh binding per iteration. The
    /// body is guarded by a handler that closes the iterator and rethrows.
    pub(crate) fn compile_for_of(
        &mut self,
        fuel: u32,
        f: &'p ForOfStatement,
    ) -> (done: Result<(), String>)
        requires
            old(self).st().good(),
        ensures
            steps::outcome(done, final(self).st(), old(self).st().compile_for_of(fuel as nat, f)),
            done is Ok ==> final(self).st().depths() == old(self).st().depths(),
            final(self).st().good(),
            final(self).st().base == old(self).st().base,
        decreases fuel, f, 0int,
    {
        let line: u32 = f.span.start;
        let is_var: bool = head_is_var(&f.left);
        let fresh: bool = head_is_fresh(&f.left);
        if !is_var {
            self.begin_scope();
        }
        self.declare_for_of_head(&f.left, line);
        self.compile_expr(fuel, &f.right)?;
        self.op(OpCode::GetIterator, line);
        let anon: StringId = self.intern("(for-of-iter)");
        self.declare_local(anon);
        let last: usize = self.last_index();
        let iter_slot: u16 = last as u16;
        self.emit_completion_reset(line);
        let loop_start: usize = self.here();
        self.op(OpCode::Dup, line);
        self.op(OpCode::IteratorNext, line);
        self.op(OpCode::Dup, line);
        self.op(OpCode::IteratorDone, line);
        let exit_jump: usize = self.jump(OpCode::JumpIfTrue, line);
        self.op(OpCode::IteratorValue, line);
        self.bind_for_of_value(fuel, &f.left, line)?;
        let here_depth: u32 = self.depth();
        let loop_depth: u32 = if fresh { here_depth.wrapping_sub(1) } else { here_depth };
        self.byte(OpCode::PushExcHandler.to_byte(), line);
        let handler: usize = self.here();
        self.raw16(0xFFFF);
        self.raw16(0xFFFF);
        self.push_loop(loop_start, loop_depth, None, false, false, Some(iter_slot));
        self.compile_statement(fuel, &f.body)?;
        self.op(OpCode::PopExcHandler, line);
        if fresh {
            self.end_scope();
        }
        self.back(loop_start, line);
        self.patch(exit_jump);
        self.op(OpCode::Pop, line);
        self.patch_loop_breaks();
        self.op(OpCode::IteratorClose, line);
        let skip_catch: usize = self.jump(OpCode::Jump, line);
        self.mark_wide_target();
        self.put_here(handler);
        self.get_slot(iter_slot as usize, line);
        self.op(OpCode::IteratorClose, line);
        self.op(OpCode::Throw, line);
        self.patch(skip_catch);
        self.pop_local();
        if !is_var {
            self.end_scope();
        }
        Ok(())
    }

    /// With the next value on the stack, bind it to the head of a for-of loop.
    pub(crate) fn bind_for_of_value(
        &mut self,
        fuel: u32,
        left: &'p ForInOfLeft,
        line: u32,
    ) -> (done: Result<(), String>)
        requires
            old(self).st().good(),
        ensures
            steps::outcome(
                done,
                final(self).st(),
                old(self).st().bind_for_of_value(fuel as nat, left, line),
            ),
            done is Ok ==> final(self).st().depths() == old(self).st().depths().entered(
                shape::fresh_head(*left),
            ),
            final(self).st().good(),
            final(self).st().base == old(self).st().base,
        decreases fuel, left, 6int,
    {
        match left {
            ForInOfLeft::Variable(decl) => {
                self.bind_for_of_decl(fuel, decl, line)?;
            },
            ForInOfLeft::Pattern(p) => {
                match p {
                    Pattern::Identifier(_) => {
                        self.compile_assign_pat(fuel, p, line)?;
                    },
                    Pattern::Array(_) => {
                        self.compile_assign_pat(fuel, p, line)?;
                    },
                    Pattern::Object(_) => {
                        self.compile_assign_pat(fuel, p, line)?;
                    },
                    _ => {
                        self.op(OpCode::Pop, line);
                    },
                }
            },
            ForInOfLeft::Expression(e) => {
                match e {
                    Expression::Identifier(_) => {
                        self.compile_assign_expr(fuel, e, line)?;
                    },
                    Expression::Array(_) => {
                        self.compile_assign_expr(fuel, e, line)?;
                    },
                    Expression::Object(obj) => {
                        self.emit_nullish_check(line);
                        let has_rest: bool = has_any_spread(&obj.properties);
                        self.assign_head_properties(fuel, has_rest, line, &obj.properties)?;
                        self.op(OpCode::Pop, line);
                    },
                    Expression::Member(m) => {
                        self.compile_expr(fuel, &m.object)?;
                        self.op(OpCode::Swap, line);
                        self.store_head_member(fuel, &m.property, line)?;
                        self.op(OpCode::Pop, line);
                    },
                    _ => {
                        self.op(OpCode::Pop, line);
                    },
                }
            },
        }
        Ok(())
    }

    /// With object and value on the stack, assign the value to a plain member.
    pub(crate) fn store_head_member(
        &mut self,
        fuel: u32,
        property: &'p MemberProperty,
        line: u32,
    ) -> (done: Result<(), String>)
        requires
            old(self).st().good(),
        ensures
            steps::outcome(
                done,
                final(self).st(),
                old(self).st().store_head_member(fuel as nat, property, line),
            ),
            done is Ok ==> final(self).st().depths() == old(self).st().depths(),
            final(self).st().good(),
            final(self).st().base == old(self).st().base,
        decreases fuel, property, 0int,
    {
        match property {
            MemberProperty::Identifier(name) => {
                let idx: u16 = self.make_string_constant(*name);
                self.emit_set_property(idx, line);
            },
            MemberProperty::Expression(key) => {
                self.compile_expr(fuel, key)?;
                self.op(OpCode::Swap, line);
                self.op(OpCode::SetElement, line);
            },
            MemberProperty::PrivateIdentifier(_) => {},
        }
        Ok(())
    }

    /// Bind the value on the stack to the first declarator of a for-of head.
    pub(crate) fn bind_for_of_decl(
        &mut self,
        fuel: u32,
        decl: &'p VariableDeclaration,
        line: u32,
    ) -> (done: Result<(), String>)
        requires
            old(self).st().good(),
        ensures
            steps::outcome(
                done,
                final(self).st(),
                old(self).st().bind_for_of_decl(fuel as nat, decl, line),
            ),
            done is Ok ==> final(self).st().depths() == old(self).st().depths().entered(
                shape::fresh_declaration(decl.kind, decl.declarations@),
            ),
            final(self).st().good(),
            final(self).st().base == old(self).st().base,
        decreases fuel, decl, 0int,
    {
        if decl.declarations.len() == 0 {
            self.op(OpCode::Pop, line);
            return Ok(());
        }
        self.bind_for_of_declarator(fuel, decl.kind, line, &decl.declarations)?;
        Ok(())
    }

    /// Bind the value on the stack to the first declarator.
    pub(crate) fn bind_for_of_declarator(
        &mut self,
        fuel: u32,
        kind: VarKind,
        line: u32,
        declarations: &'p Vec<VariableDeclarator>,
    ) -> (done: Result<(), String>)
        requires
            old(self).st().good(),
        ensures
            steps::outcome(
                done,
                final(self).st(),
                old(self).st().bind_for_of_declarator(fuel as nat, kind, line, declarations, 0),
            ),
            done is Ok ==> final(self).st().depths() == old(self).st().depths().entered(
                shape::fresh_declaration(kind, declarations@),
            ),
            final(self).st().good(),
            final(self).st().base == old(self).st().base,
        decreases fuel, declarations, declarations@.len() as int,
    {
        let mut i: usize = 0;
        while i < declarations.len()
            invariant
                i <= declarations@.len(),
                self.st().good(),
                self.st().depths() == old(self).st().depths().entered(
                    i > 0 && shape::fresh_declaration(kind, declarations@),
                ),
                self.st().base == old(self).st().base,
                self.st().bind_for_of_declarator(
                    fuel as nat,
                    kind,
                    line,
                    declarations,
                    i as int,
                ) == old(self).st().bind_for_of_declarator(
                    fuel as nat,
                    kind,
                    line,
                    declarations,
                    0,
                ),
            decreases declarations@.len() - i,
        {
            let d = &declarations[i];
            assert(decreases_to!(declarations => declarations[i as int]));
            if i == 0 {
                match &d.id {
                    Pattern::Identifier(id) => {
                        if kind == VarKind::Var {
                            self.compile_set_variable(id.name, line);
                            self.op(OpCode::Pop, line);
                        } else {
                            self.begin_scope();
                            self.declare_local(id.name);
                            if kind == VarKind::Const {
                                let last: usize = self.last_index();
                                self.set_const(last);
                            }
                        }
                    },
                    Pattern::Array(_) => {
                        self.compile_assign_pat(fuel, &d.id, line)?;
                    },
                    Pattern::Object(_) => {
                        self.compile_assign_pat(fuel, &d.id, line)?;
                    },
                    _ => {
                        self.op(OpCode::Pop, line);
                    },
                }
            }
            i = i + 1;
        }
        Ok(())
    }

    /// Assign each property of an object expression that heads a for-of loop.
    pub(crate) fn assign_head_properties(
        &mut self,
        fuel: u32,
        has_rest: bool,
        line: u32,
        properties: &'p Vec<ObjectProperty>,
    ) -> (done: Result<(), String>)
        requires
            old(self).st().good(),
        ensures
            steps::outcome(
                done,
                final(self).st(),
                old(self).st().assign_head_properties(fuel as nat, has_rest, line, properties, 0),
            ),
            done is Ok ==> final(self).st().depths() == old(self).st().depths(),
            final(self).st().good(),
            final(self).st().base == old(self).st().base,
        decreases fuel, properties, properties@.len() as int,
    {
        let mut i: usize = 0;
        while i < properties.len()
            invariant
                i <= properties@.len(),
                self.st().good(),
                self.st().depths() == old(self).st().depths(),
                self.st().base == old(self).st().base,
                self.st().assign_head_properties(
                    fuel as nat,
                    has_rest,
                    line,
                    properties,
                    i as int,
                ) == old(self).st().assign_head_properties(
                    fuel as nat,
                    has_rest,
                    line,
                    properties,
                    0,
                ),
            decreases properties@.len() - i,
        {
            let prop = &properties[i];
            assert(decreases_to!(properties => properties[i as int]));
            match prop {
                ObjectProperty::Property(p) => {
                    if !is_pattern_expr(&p.value) {
                        i = i + 1;
                        continue;
                    }
                    self.op(OpCode::Dup, line);
                    if let PropertyKey::Private(_) = &p.key {
                        self.op(OpCode::Pop, line);
                        i = i + 1;
                        continue;
                    }
                    self.compile_keyed_read(fuel, &p.key, has_rest, line)?;
                    match &p.value {
                        Expression::Assignment(a) => {
                            match &a.left {
                                AssignmentTarget::Identifier(id) => {
                                    if is_anonymous_fn_def(&a.right) {
                                        self.set_pending_name(id.name);
                                    }
                                },
                                _ => {},
                            }
                            self.emit_default_check(fuel, &a.right, line)?;
                            self.compile_assign_target(fuel, &a.left, line)?;
                        },
                        _ => {
                            self.compile_assign_expr(fuel, &p.value, line)?;
                        },
                    }
                },
                ObjectProperty::SpreadElement(s) => {
                    let excluded: Vec<StringId> = collect_excluded_keys(properties);
                    self.op(OpCode::Dup, line);
                    self.emit_object_rest(&excluded, clamped_count(&excluded), line);
                    match &s.argument {
                        Expression::Identifier(id) => {
                            self.compile_set_variable(id.name, line);
                            self.op(OpCode::Pop, line);
                        },
                        Expression::Member(m) => {
                            self.compile_expr(fuel, &m.object)?;
                            self.op(OpCode::Swap, line);
                            match &m.property {
                                MemberProperty::PrivateIdentifier(_) => {
                                    self.op(OpCode::Pop, line);
                                },
                                _ => {
                                    self.store_head_member(fuel, &m.property, line)?;
                                },
                            }
                            self.op(OpCode::Pop, line);
                        },
                        _ => {
                            self.op(OpCode::Pop, line);
                        },
                    }
                },
            }
            i = i + 1;
        }
        Ok(())
    }

    /// Compile a switch statement: the comparisons first, then the bodies, with the
    /// discriminant kept in a slot of its own until the end.
    pub(crate) fn compile_switch(
        &mut self,
        fuel: u32,
        s: &'p SwitchStatement,
    ) -> (done: Result<(), String>)
        requires
            old(self).st().good(),
        ensures
            steps::outcome(done, final(self).st(), old(self).st().compile_switch(fuel as nat, s)),
            done is Ok ==> final(self).st().depths() == old(self).st().depths(),
            final(self).st().good(),
            final(self).st().base == old(self).st().base,
        decreases fuel, s, 0int,
    {
        let line: u32 = s.span.start;
        self.emit_completion_reset(line);
        let outer_depth: u32 = self.depth();
        self.compile_expr(fuel, &s.discriminant)?;
        self.begin_scope();
        let disc_slot_name: StringId = self.intern("(switch discriminant)");
        self.declare_local(disc_slot_name);
        let base: usize = self.mark_len();
        self.compile_case_tests(fuel, line, &s.cases)?;
        let end_of_compare: usize = self.jump(OpCode::Jump, line);
        let pop_pos: usize = self.here();
        self.op(OpCode::Pop, line);
        self.push_loop(0, outer_depth, None, false, true, None);
        let starts: usize = self.mark_len();
        self.compile_case_bodies(fuel, &s.cases)?;
        self.nop_at(pop_pos);
        self.aim_cases(base, starts, &s.cases);
        match default_case(&s.cases) {
            Some(di) => {
                let target: usize = self.mark_at(starts.saturating_add(di));
                self.aim(end_of_compare, target);
            },
            None => {
                self.patch(end_of_compare);
            },
        }
        self.drop_marks(base);
        self.end_scope();
        self.patch_loop_breaks();
        Ok(())
    }

    /// Compare the discriminant with each case; remember the jumps.
    pub(crate) fn compile_case_tests(
        &mut self,
        fuel: u32,
        line: u32,
        cases: &'p Vec<SwitchCase>,
    ) -> (done: Result<(), String>)
        requires
            old(self).st().good(),
        ensures
            steps::outcome(
                done,
                final(self).st(),
                old(self).st().compile_case_tests(fuel as nat, line, cases, 0),
            ),
            done is Ok ==> final(self).st().depths() == old(self).st().depths(),
            final(self).st().good(),
            final(self).st().base == old(self).st().base,
        decreases fuel, cases, cases@.len() as int,
    {
        let mut i: usize = 0;
        while i < cases.len()
            invariant
                i <= cases@.len(),
                self.st().good(),
                self.st().depths() == old(self).st().depths(),
                self.st().base == old(self).st().base,
                self.st().compile_case_tests(
                    fuel as nat,
                    line,
                    cases,
                    i as int,
                ) == old(self).st().compile_case_tests(fuel as nat, line, cases, 0),
            decreases cases@.len() - i,
        {
            let case = &cases[i];
            assert(decreases_to!(cases => cases[i as int]));
            if let Some(test) = &case.test {
                self.op(OpCode::Dup, line);
                self.compile_expr(fuel, test)?;
                self.op(OpCode::StrictEq, line);
                let jump: usize = self.jump(OpCode::JumpIfTrue, line);
                self.push_mark(jump);
            }
            i = i + 1;
        }
        Ok(())
    }

    /// Compile the body of each case; remember where it starts.
    pub(crate) fn compile_case_bodies(
        &mut self,
        fuel: u32,
        cases: &'p Vec<SwitchCase>,
    ) -> (done: Result<(), String>)
        requires
            old(self).st().good(),
        ensures
            steps::outcome(
                done,
                final(self).st(),
                old(self).st().compile_case_bodies(fuel as nat, cases, 0),
            ),
            done is Ok ==> final(self).st().depths() == old(self).st().depths(),
            final(self).st().good(),
            final(self).st().base == old(self).st().base,
        decreases fuel, cases, cases@.len() as int,
    {
        let mut i: usize = 0;
        while i < cases.len()
            invariant
                i <= cases@.len(),
                self.st().good(),
                self.st().depths() == old(self).st().depths(),
                self.st().base == old(self).st().base,
                self.st().compile_case_bodies(
                    fuel as nat,
                    cases,
                    i as int,
                ) == old(self).st().compile_case_bodies(fuel as nat, cases, 0),
            decreases cases@.len() - i,
        {
            let case = &cases[i];
            assert(decreases_to!(cases => cases[i as int]));
            let start: usize = self.here();
            self.push_mark(start);
            self.compile_statements(fuel, &case.consequent)?;
            i = i + 1;
        }
        Ok(())
    }

    /// Make the jump of each case lead to its body.
    pub(crate) fn aim_cases(&mut self, base: usize, starts: usize, cases: &'p Vec<SwitchCase>)
        requires
            old(self).st().good(),
        ensures
            final(self).st() == old(self).st().aim_cases(base, starts, cases, 0),
            final(self).st().depths() == old(self).st().depths(),
            final(self).st().good(),
            final(self).st().base == old(self).st().base,
    {
        let mut i: usize = 0;
        while i < cases.len()
            invariant
                i <= cases@.len(),
                self.st().good(),
                self.st().depths() == old(self).st().depths(),
                self.st().base == old(self).st().base,
                self.st().aim_cases(base, starts, cases, i as int) == old(self).st().aim_cases(
                    base,
                    starts,
                    cases,
                    0,
                ),
            decreases cases@.len() - i,
        {
            let case = &cases[i];
            if case.test.is_some() {
                let jump_pos: usize = self.mark_at(
                    base.saturating_add(tests_before(cases, i as usize)),
                );
                let target: usize = self.mark_at(starts.saturating_add(i as usize));
                self.aim(jump_pos, target);
            }
            i = i + 1;
        }
    }

    /// Unwind the try levels from depth `from` down to depth `to`: pop the handler where it is
    /// still active, and run the finalizer.
    pub(crate) fn unwind_levels(
        &mut self,
        fuel: u32,
        levels: &Vec<FinallyEntry<'p>>,
        base: usize,
        from: usize,
        to: usize,
        line: u32,
    ) -> (done: Result<(), String>)
        requires
            old(self).st().good(),
        ensures
            steps::outcome(
                done,
                final(self).st(),
                old(self).st().unwind_levels(fuel as nat, levels@, base, from, to, line),
            ),
            done is Ok ==> final(self).st().depths() == old(self).st().depths(),
            final(self).st().good(),
            final(self).st().base == old(self).st().base,
        decreases fuel, levels, from as int,
    {
        if from > to {
            let at: usize = from.wrapping_sub(1);
            let level: FinallyEntry<'p> = level_of(levels, base, at);
            if level.active {
                self.op(OpCode::PopExcHandler, line);
            }
            if let Some(body) = level.body {
                if fuel == 0 {
                    return Err(too_deep());
                }
                self.compile_statements(fuel - 1, body)?;
            }
            self.unwind_levels(fuel, levels, base, at, to, line)?;
        }
        Ok(())
    }

    /// Unwind the loops from `li` down to `lo`, with the try levels inside each before it. The
    /// handler of a for-of loop is popped and its iterator closed. The depth of the try levels
    /// that are left.
    pub(crate) fn unwind_loops(
        &mut self,
        fuel: u32,
        levels: &Vec<FinallyEntry<'p>>,
        base: usize,
        depth: usize,
        lo: usize,
        li: usize,
        line: u32,
    ) -> (done: Result<usize, String>)
        requires
            old(self).st().good(),
        ensures
            match old(self).st().unwind_loops(fuel as nat, levels@, base, depth, lo, li, line) {
                Ok((st, v)) => final(self).st() == st && done is Ok && done->Ok_0 == v,
                Err(e) => done is Err && e.explains(done->Err_0@, final(self).st().table),
            },
            done is Ok ==> final(self).st().depths() == old(self).st().depths(),
            final(self).st().good(),
            final(self).st().base == old(self).st().base,
        decreases fuel, levels, li as int,
    {
        if li > lo {
            let at: usize = li.wrapping_sub(1);
            let entered: usize = self.loop_try_depth(at);
            let boundary: usize = if entered > base { entered } else { base };
            if fuel == 0 {
                return Err(too_deep());
            }
            self.unwind_levels(fuel - 1, levels, base, depth, boundary, line)?;
            if let Some(slot) = self.loop_iter_slot(at) {
                self.op(OpCode::PopExcHandler, line);
                self.get_slot(slot as usize, line);
                self.op(OpCode::IteratorClose, line);
            }
            let left: usize = if depth > boundary { boundary } else { depth };
            let rest: usize = self.unwind_loops(fuel, levels, base, left, lo, at, line)?;
            return Ok(rest);
        } else {
            return Ok(depth);
        }
    }

    /// Unwind the constructs that an abrupt exit (break, continue, return) crosses, in reverse
    /// nesting order: finalizers run in place and for-of iterators are closed. `target` is the
    /// loop that is exited to (none for return); where asked, its own handler is popped, and
    /// its epilogue or next iteration sees to its iterator. The levels being unwound are
    /// detached meanwhile, so that an exit inside a finalizer does not run it again.
    pub(crate) fn compile_abrupt_unwind(
        &mut self,
        fuel: u32,
        target: Option<usize>,
        try_depth: usize,
        pop_handler: bool,
        line: u32,
    ) -> (done: Result<(), String>)
        requires
            old(self).st().good(),
        ensures
            steps::outcome(
                done,
                final(self).st(),
                old(self).st().compile_abrupt_unwind(
                    fuel as nat,
                    target,
                    try_depth,
                    pop_handler,
                    line,
                ),
            ),
            done is Ok ==> final(self).st().depths() == old(self).st().depths(),
            final(self).st().good(),
            final(self).st().base == old(self).st().base,
        decreases fuel, target, 0int,
    {
        let levels: Vec<FinallyEntry<'p>> = self.detach_finally(try_depth);
        let depth: usize = level_end(&levels, try_depth);
        let lo: usize = match target { Some(at) => at.wrapping_add(1), None => 0 };
        let li: usize = self.loop_len();
        if fuel == 0 {
            return Err(too_deep());
        }
        let left: usize = self.unwind_loops(fuel - 1, &levels, try_depth, depth, lo, li, line)?;
        self.unwind_levels(fuel - 1, &levels, try_depth, left, try_depth, line)?;
        if pop_handler {
            if let Some(at) = target {
                if self.loop_iter_slot(at).is_some() {
                    self.op(OpCode::PopExcHandler, line);
                }
            }
        }
        self.attach_finally(levels);
        Ok(())
    }

    /// Compile a return. The argument is evaluated before the handlers are unwound.
    pub(crate) fn compile_return(
        &mut self,
        fuel: u32,
        r: &'p ReturnStatement,
    ) -> (done: Result<(), String>)
        requires
            old(self).st().good(),
        ensures
            steps::outcome(done, final(self).st(), old(self).st().compile_return(fuel as nat, r)),
            done is Ok ==> final(self).st().depths() == old(self).st().depths(),
            final(self).st().good(),
            final(self).st().base == old(self).st().base,
        decreases fuel, r, 0int,
    {
        let line: u32 = r.span.start;
        match &r.argument {
            Some(arg) => {
                self.compile_expr(fuel, arg)?;
                if fuel == 0 {
                    return Err(too_deep());
                }
                self.compile_abrupt_unwind(fuel - 1, None, 0, false, line)?;
                self.op(OpCode::Return, line);
            },
            None => {
                if fuel == 0 {
                    return Err(too_deep());
                }
                self.compile_abrupt_unwind(fuel - 1, None, 0, false, line)?;
                self.op(OpCode::ReturnUndefined, line);
            },
        }
        Ok(())
    }

    /// Unwind and drop what stands between here and a loop that is left or continued.
    pub(crate) fn unwind_to_loop(
        &mut self,
        fuel: u32,
        at: usize,
        line: u32,
    ) -> (done: Result<(), String>)
        requires
            old(self).st().good(),
        ensures
            steps::outcome(
                done,
                final(self).st(),
                old(self).st().unwind_to_loop(fuel as nat, at, line),
            ),
            done is Ok ==> final(self).st().depths() == old(self).st().depths(),
            final(self).st().good(),
            final(self).st().base == old(self).st().base,
        decreases fuel, Some(at), 0int,
    {
        let loop_depth: u32 = self.loop_scope_depth(at);
        let try_depth: usize = self.loop_try_depth(at);
        let loop_with: usize = self.loop_with_depth(at);
        if fuel == 0 {
            return Err(too_deep());
        }
        self.compile_abrupt_unwind(fuel - 1, Some(at), try_depth, true, line)?;
        let pop_n: usize = self.locals_above_depth(loop_depth);
        if pop_n > 0 && pop_n <= 255 {
            self.op_u8(OpCode::PopN, pop_n as u8, line);
        } else {
            self.emit_repeated(OpCode::Pop, pop_n, line);
        }
        let with_now: usize = self.with_level();
        self.emit_repeated(OpCode::WithExit, with_now.saturating_sub(loop_with), line);
        Ok(())
    }

    /// Compile a break.
    pub(crate) fn compile_break(
        &mut self,
        fuel: u32,
        b: &'p BreakStatement,
    ) -> (done: Result<(), String>)
        requires
            old(self).st().good(),
        ensures
            steps::outcome(done, final(self).st(), old(self).st().compile_break(fuel as nat, b)),
            done is Ok ==> final(self).st().depths() == old(self).st().depths(),
            final(self).st().good(),
            final(self).st().base == old(self).st().base,
        decreases fuel, b, 0int,
    {
        let line: u32 = b.span.start;
        if self.no_loops() {
            return Err(offset_message("'break' outside of loop/switch at offset ", line));
        }
        match self.find_break(b.label) {
            Some(at) => {
                if fuel == 0 {
                    return Err(too_deep());
                }
                self.unwind_to_loop(fuel - 1, at, line)?;
                let pos: usize = self.jump(OpCode::Jump, line);
                self.add_break(at, pos);
            },
            None => {
                return Err(offset_message("label not found at offset ", line));
            },
        }
        Ok(())
    }

    /// Compile a continue.
    pub(crate) fn compile_continue(
        &mut self,
        fuel: u32,
        c: &'p ContinueStatement,
    ) -> (done: Result<(), String>)
        requires
            old(self).st().good(),
        ensures
            steps::outcome(done, final(self).st(), old(self).st().compile_continue(fuel as nat, c)),
            done is Ok ==> final(self).st().depths() == old(self).st().depths(),
            final(self).st().good(),
            final(self).st().base == old(self).st().base,
        decreases fuel, c, 0int,
    {
        let line: u32 = c.span.start;
        if self.no_loops() {
            return Err(offset_message("'continue' outside of loop at offset ", line));
        }
        match self.find_continue(c.label) {
            Some(at) => {
                let target: usize = self.loop_continue_target(at);
                let deferred: bool = self.loop_defers_continue(at);
                if fuel == 0 {
                    return Err(too_deep());
                }
                self.unwind_to_loop(fuel - 1, at, line)?;
                if deferred {
                    let pos: usize = self.jump(OpCode::Jump, line);
                    self.add_continue(at, pos);
                } else {
                    self.back(target, line);
                }
            },
            None => {
                if c.label.is_some() {
                    return Err(offset_message("label not found at offset ", line));
                } else {
                    return Err(offset_message("'continue' outside of loop at offset ", line));
                }
            },
        }
        Ok(())
    }

    /// Compile a try statement. With both a catch clause and a finalizer it is a try-catch
    /// inside a try-finally, so that the finalizer also runs when the catch block throws.
    pub(crate) fn compile_try(
        &mut self,
        fuel: u32,
        t: &'p TryStatement,
    ) -> (done: Result<(), String>)
        requires
            old(self).st().good(),
        ensures
            steps::outcome(done, final(self).st(), old(self).st().compile_try(fuel as nat, t)),
            done is Ok ==> final(self).st().depths() == old(self).st().depths(),
            final(self).st().good(),
            final(self).st().base == old(self).st().base,
        decreases fuel, t, 2int,
    {
        let line: u32 = t.span.start;
        match &t.finalizer {
            Some(finalizer) => {
                self.byte(OpCode::PushExcHandler.to_byte(), line);
                let handler: usize = self.here();
                self.raw16(0xFFFF);
                self.raw16(0xFFFF);
                self.push_finally(Some(&finalizer.body));
                if t.handler.is_some() {
                    self.compile_try_catch(fuel, t, line)?;
                } else {
                    self.compile_statements(fuel, &t.block.body)?;
                }
                self.deactivate_finally();
                self.op(OpCode::PopExcHandler, line);
                let skip_catch: usize = self.jump(OpCode::Jump, line);
                self.mark_wide_target();
                self.put_here(handler);
                self.pop_finally();
                self.compile_rethrow(fuel, &finalizer.body, line)?;
                self.patch(skip_catch);
                self.mark_wide_target();
                self.put_here(handler.wrapping_add(2));
                self.begin_scope();
                self.compile_statements(fuel, &finalizer.body)?;
                self.end_scope();
            },
            None => {
                self.compile_try_catch(fuel, t, line)?;
            },
        }
        Ok(())
    }

    /// Run a finalizer for a pending exception, then rethrow it.
    pub(crate) fn compile_rethrow(
        &mut self,
        fuel: u32,
        body: &'p Vec<Statement>,
        line: u32,
    ) -> (done: Result<(), String>)
        requires
            old(self).st().good(),
        ensures
            steps::outcome(
                done,
                final(self).st(),
                old(self).st().compile_rethrow(fuel as nat, body, line),
            ),
            done is Ok ==> final(self).st().depths() == old(self).st().depths(),
            final(self).st().good(),
            final(self).st().base == old(self).st().base,
        decreases fuel, body, body@.len() as int + 1,
    {
        if self.depth() > 0 {
            self.begin_scope();
            let exc_name: StringId = self.intern("__pending_exc__");
            self.declare_local(exc_name);
            let last: usize = self.last_index();
            let exc_slot: u16 = last as u16;
            self.compile_statements(fuel, body)?;
            self.get_slot(exc_slot as usize, line);
            self.op(OpCode::Throw, line);
            self.end_scope();
        } else {
            let exc_name: StringId = self.intern("__pending_exc__");
            let idx: u16 = self.make_string_constant(exc_name);
            self.op_u16(OpCode::DefineGlobal, idx, line);
            self.compile_statements(fuel, body)?;
            self.op_u16(OpCode::GetGlobal, idx, line);
            self.op(OpCode::Throw, line);
        }
        Ok(())
    }

    /// Compile block and catch clause of a try statement.
    pub(crate) fn compile_try_catch(
        &mut self,
        fuel: u32,
        t: &'p TryStatement,
        line: u32,
    ) -> (done: Result<(), String>)
        requires
            old(self).st().good(),
        ensures
            steps::outcome(
                done,
                final(self).st(),
                old(self).st().compile_try_catch(fuel as nat, t, line),
            ),
            done is Ok ==> final(self).st().depths() == old(self).st().depths(),
            final(self).st().good(),
            final(self).st().base == old(self).st().base,
        decreases fuel, t, 1int,
    {
        self.byte(OpCode::PushExcHandler.to_byte(), line);
        let handler: usize = self.here();
        self.raw16(0xFFFF);
        self.raw16(0xFFFF);
        self.push_finally(None);
        self.compile_statements(fuel, &t.block.body)?;
        self.deactivate_finally();
        self.op(OpCode::PopExcHandler, line);
        let skip_catch: usize = self.jump(OpCode::Jump, line);
        self.mark_wide_target();
        match &t.handler {
            Some(clause) => {
                self.put_here(handler);
                self.compile_catch(fuel, clause, line)?;
            },
            None => {},
        }
        self.pop_finally();
        self.patch(skip_catch);
        Ok(())
    }

    /// Compile a catch clause: the exception is on the stack.
    pub(crate) fn compile_catch(
        &mut self,
        fuel: u32,
        clause: &'p CatchClause,
        line: u32,
    ) -> (done: Result<(), String>)
        requires
            old(self).st().good(),
        ensures
            steps::outcome(
                done,
                final(self).st(),
                old(self).st().compile_catch(fuel as nat, clause, line),
            ),
            done is Ok ==> final(self).st().depths() == old(self).st().depths(),
            final(self).st().good(),
            final(self).st().base == old(self).st().base,
        decreases fuel, clause, 0int,
    {
        self.begin_scope();
        match &clause.param {
            Some(param) => {
                match param {
                    Pattern::Identifier(id) => {
                        self.check_strict_restricted(id.name, "catch parameter")?;
                        if self.depth() > 0 {
                            self.declare_local(id.name);
                        } else {
                            self.op_name(OpCode::DefineGlobal, id.name, line);
                        }
                    },
                    Pattern::Object(obj_pat) => {
                        let anon: StringId = self.intern("__catch_val__");
                        self.declare_local(anon);
                        let src_slot: u8 = self.last_slot();
                        self.compile_bind_obj_props_local(
                            fuel,
                            &obj_pat.properties,
                            src_slot,
                            false,
                            line,
                        )?;
                    },
                    Pattern::Array(arr_pat) => {
                        self.op(OpCode::GetIterator, line);
                        let anon: StringId = self.intern("__catch_iter__");
                        self.declare_local(anon);
                        let iter_slot: u8 = self.last_slot();
                        self.compile_bind_arr_elems_local(
                            fuel,
                            &arr_pat.elements,
                            iter_slot,
                            false,
                            line,
                        )?;
                    },
                    _ => {
                        self.op(OpCode::Pop, line);
                    },
                }
            },
            None => {
                self.op(OpCode::Pop, line);
            },
        }
        self.compile_statements(fuel, &clause.body.body)?;
        self.end_scope();
        Ok(())
    }

    /// Compile a labelled statement. A loop adopts the label.
    pub(crate) fn compile_labeled(
        &mut self,
        fuel: u32,
        l: &'p LabeledStatement,
    ) -> (done: Result<(), String>)
        requires
            old(self).st().good(),
        ensures
            steps::outcome(done, final(self).st(), old(self).st().compile_labeled(fuel as nat, l)),
            done is Ok ==> final(self).st().depths() == old(self).st().depths(),
            final(self).st().good(),
            final(self).st().base == old(self).st().base,
        decreases fuel, l, 0int,
    {
        let here: usize = self.here();
        if is_loop_statement(&l.body) {
            let saved_label: Option<StringId> = self.take_label();
            self.set_label(Some(l.label));
            self.enter_loop(here, Some(l.label), false);
            self.compile_statement(fuel, &l.body)?;
            self.patch_loop_breaks();
            self.set_label(saved_label);
        } else {
            self.enter_loop(here, Some(l.label), false);
            self.compile_statement(fuel, &l.body)?;
            self.patch_loop_breaks();
        }
        Ok(())
    }

    /// Compile a with statement.
    pub(crate) fn compile_with(
        &mut self,
        fuel: u32,
        w: &'p WithStatement,
    ) -> (done: Result<(), String>)
        requires
            old(self).st().good(),
        ensures
            steps::outcome(done, final(self).st(), old(self).st().compile_with(fuel as nat, w)),
            done is Ok ==> final(self).st().depths() == old(self).st().depths(),
            final(self).st().good(),
            final(self).st().base == old(self).st().base,
        decreases fuel, w, 0int,
    {
        let line: u32 = w.span.start;
        self.compile_expr(fuel, &w.object)?;
        self.op(OpCode::WithEnter, line);
        self.emit_completion_reset(line);
        self.enter_with();
        self.compile_statement(fuel, &w.body)?;
        self.leave_with();
        self.op(OpCode::WithExit, line);
        Ok(())
    }

    /// Compile an import: each specifier becomes a global read from the module object.
    pub(crate) fn compile_import(&mut self, i: &'p ImportDeclaration)
        requires
            old(self).st().good(),
        ensures
            final(self).st() == old(self).st().compile_import(i),
            final(self).st().depths() == old(self).st().depths(),
            final(self).st().good(),
            final(self).st().base == old(self).st().base,
    {
        match i {
            ImportDeclaration::Standard { specifiers, source, span } => {
                self.op_name(OpCode::ImportModule, *source, span.start);
                self.bind_imports(span.start, specifiers);
                self.op(OpCode::Pop, span.start);
            },
        }
    }

    /// Bind each specifier from the module object on the stack.
    pub(crate) fn bind_imports(&mut self, line: u32, specifiers: &'p Vec<ImportSpecifier>)
        requires
            old(self).st().good(),
        ensures
            final(self).st() == old(self).st().bind_imports(line, specifiers, 0),
            final(self).st().depths() == old(self).st().depths(),
            final(self).st().good(),
            final(self).st().base == old(self).st().base,
    {
        let mut i: usize = 0;
        while i < specifiers.len()
            invariant
                i <= specifiers@.len(),
                self.st().good(),
                self.st().depths() == old(self).st().depths(),
                self.st().base == old(self).st().base,
                self.st().bind_imports(line, specifiers, i as int) == old(self).st().bind_imports(
                    line,
                    specifiers,
                    0,
                ),
            decreases specifiers@.len() - i,
        {
            let spec = &specifiers[i];
            self.op(OpCode::Dup, line);
            match spec {
                ImportSpecifier::Default { local, .. } => {
                    let key: StringId = self.intern("default");
                    let idx: u16 = self.make_string_constant(key);
                    self.emit_get_property(idx, line);
                    self.op_name(OpCode::DefineGlobal, *local, line);
                },
                ImportSpecifier::Named { imported, local, .. } => {
                    let idx: u16 = self.make_string_constant(*imported);
                    self.emit_get_property(idx, line);
                    self.op_name(OpCode::DefineGlobal, *local, line);
                },
                ImportSpecifier::Namespace { local, .. } => {
                    self.op_name(OpCode::DefineGlobal, *local, line);
                },
            }
            i = i + 1;
        }
    }

    /// Compile an export: the value goes to a property of the exports object.
    pub(crate) fn compile_export(
        &mut self,
        fuel: u32,
        e: &'p ExportDeclaration,
    ) -> (done: Result<(), String>)
        requires
            old(self).st().good(),
        ensures
            steps::outcome(done, final(self).st(), old(self).st().compile_export(fuel as nat, e)),
            done is Ok ==> final(self).st().depths() == old(self).st().depths(),
            final(self).st().good(),
            final(self).st().base == old(self).st().base,
        decreases fuel, e, 0int,
    {
        match e {
            ExportDeclaration::Declaration { declaration, span } => {
                self.compile_statement(fuel, declaration)?;
                let names: Vec<StringId> = extract_declaration_names(&**declaration);
                self.export_declared(span.start, &names);
            },
            ExportDeclaration::Default { declaration, span } => {
                let line: u32 = span.start;
                self.compile_expr(fuel, declaration)?;
                let exports_key: StringId = self.intern("__exports__");
                self.op_name(OpCode::GetGlobal, exports_key, line);
                self.op(OpCode::Swap, line);
                self.op(OpCode::Swap, line);
                let default_key: StringId = self.intern("default");
                let default_idx: u16 = self.make_string_constant(default_key);
                self.emit_set_property(default_idx, line);
                self.op(OpCode::Pop, line);
            },
            ExportDeclaration::Named { specifiers, span, .. } => {
                self.export_specifiers(span.start, specifiers);
            },
            ExportDeclaration::All { source, span, .. } => {
                self.op_name(OpCode::ExportAllFrom, *source, span.start);
            },
        }
        Ok(())
    }

    /// Export each declared name.
    pub(crate) fn export_declared(&mut self, line: u32, names: &Vec<StringId>)
        requires
            old(self).st().good(),
        ensures
            final(self).st() == old(self).st().export_declared(line, names@, 0),
            final(self).st().depths() == old(self).st().depths(),
            final(self).st().good(),
            final(self).st().base == old(self).st().base,
    {
        let mut i: usize = 0;
        while i < names.len()
            invariant
                i <= names@.len(),
                self.st().good(),
                self.st().depths() == old(self).st().depths(),
                self.st().base == old(self).st().base,
                self.st().export_declared(line, names@, i as int) == old(self).st().export_declared(
                    line,
                    names@,
                    0,
                ),
            decreases names@.len() - i,
        {
            let name = names[i];
            let exports_key: StringId = self.intern("__exports__");
            self.op_name(OpCode::GetGlobal, exports_key, line);
            let name_idx: u16 = self.make_string_constant(name);
            self.op_u16(OpCode::GetGlobal, name_idx, line);
            self.op(OpCode::Swap, line);
            self.op(OpCode::Swap, line);
            self.emit_set_property(name_idx, line);
            self.op(OpCode::Pop, line);
            i = i + 1;
        }
    }

    /// Export each specifier.
    pub(crate) fn export_specifiers(&mut self, line: u32, specifiers: &'p Vec<ExportSpecifier>)
        requires
            old(self).st().good(),
        ensures
            final(self).st() == old(self).st().export_specifiers(line, specifiers, 0),
            final(self).st().depths() == old(self).st().depths(),
            final(self).st().good(),
            final(self).st().base == old(self).st().base,
    {
        let mut i: usize = 0;
        while i < specifiers.len()
            invariant
                i <= specifiers@.len(),
                self.st().good(),
                self.st().depths() == old(self).st().depths(),
                self.st().base == old(self).st().base,
                self.st().export_specifiers(
                    line,
                    specifiers,
                    i as int,
                ) == old(self).st().export_specifiers(line, specifiers, 0),
            decreases specifiers@.len() - i,
        {
            let spec = &specifiers[i];
            let exports_key: StringId = self.intern("__exports__");
            self.op_name(OpCode::GetGlobal, exports_key, line);
            self.op_name(OpCode::GetGlobal, spec.local, line);
            let exported_idx: u16 = self.make_string_constant(spec.exported);
            self.op(OpCode::Swap, line);
            self.emit_set_property(exported_idx, line);
            self.op(OpCode::Pop, line);
            i = i + 1;
        }
    }
}

} // verus!
