//! Function, arrow and class compilation: body chunks, hoisting of vars and function
//! declarations, and strict-mode propagation.

use vstd::prelude::*;
use crate::ast::node::{
    ArrowBody, ArrowFunctionExpression, BlockStatement, ClassBody, ClassDeclaration,
    ClassExpression, ClassMember, ClassProperty, Expression, FunctionDeclaration,
    FunctionExpression, MethodDefinition, MethodKind, Pattern, PropertyKey, Statement, VarKind,
    VariableDeclarator,
};
use crate::compiler::{names, shape};
use crate::compiler::chunk::{Chunk, ChunkFlags, ChunkView, FLAG_STRICT};
use crate::compiler::compiler::{Compiler, SavedFrame, state, steps};
use crate::compiler::compiler::state::{CState, Failure, has_name};
use crate::compiler::compiler::steps::{
    arrow_flags, child_chunk, function_flags, renamed_chunk, too_deep,
};
use crate::compiler::names::{
    collect_block_hoisted, collect_body_lexical_names, collect_hoisted, collect_param_names,
    collect_program_var_names, no_names, with_name,
};
use crate::compiler::opcode::OpCode;
use crate::compiler::shape::{
    class_method_opcode, formal_length, has_param_exprs, hides_arguments, hoists_functions,
    is_runtime_key, method_opcode, param_name,
};
use crate::util::interner::StringId;

verus! {

impl<'p> CState<'p> {
    /// Compile a function declaration: a global at the outermost level, else a local.
    pub open spec fn compile_function_decl(
        self,
        fuel: nat,
        f: &'p FunctionDeclaration,
    ) -> Result<CState<'p>, Failure>
        decreases fuel, f, 0int,
    {
        let st = self;
        let line: u32 = f.span.start;
        let (st, name) = st.declared_name(f.id);
        if st.depth() == 0 {
            match st.compile_function_body(
                fuel,
                name,
                &f.params,
                &f.body,
                f.is_async,
                f.is_generator,
            ) {
                Err(e) => Err(e),
                Ok((st, child)) => {
                    let st = st.emit_closure(child, line);
                    Ok(st.op_name(OpCode::DefineGlobal, name, line))
                },
            }
        } else {
            let (st, slot) = st.reserve_local(name, line);
            match st.compile_function_body(
                fuel,
                name,
                &f.params,
                &f.body,
                f.is_async,
                f.is_generator,
            ) {
                Err(e) => Err(e),
                Ok((st, child)) => {
                    let st = st.emit_closure(child, line);
                    let st = st.set_slot(slot, line);
                    Ok(st.op(OpCode::Pop, line))
                },
            }
        }
    }

    /// The name of a declaration, or the placeholder for none.
    pub open spec fn declared_name(self, id: Option<StringId>) -> (CState<'p>, StringId)
    {
        let st = self;
        match id {
            Some(name) => (st, name),
            None => {
                let (st, name) = st.intern("<anonymous>"@);
                (st, name)
            },
        }
    }

    /// The slot of a local with a name; it is declared as undefined if there is none.
    pub open spec fn reserve_local(self, name: StringId, line: u32) -> (CState<'p>, usize)
    {
        let st = self;
        match st.resolve_local(name) {
            Some(slot) => (st, slot),
            None => {
                let st = st.op(OpCode::Undefined, line);
                let st = st.declare_local(name);
                let last: usize = st.last_index();
                (st, last)
            },
        }
    }

    /// Compile a class declaration.
    pub open spec fn compile_class_decl(
        self,
        fuel: nat,
        c: &'p ClassDeclaration,
    ) -> Result<CState<'p>, Failure>
        decreases fuel, c, 0int,
    {
        let st = self;
        let line: u32 = c.span.start;
        let (st, name) = st.declared_name(c.id);
        let st = st.op_name(OpCode::Class, name, line);
        match st.compile_heritage(fuel, &c.super_class, line) {
            Err(e) => Err(e),
            Ok(st) => {
                match st.compile_class_body(fuel, &c.body, line) {
                    Err(e) => Err(e),
                    Ok(st) => {
                        if st.depth() == 0 {
                            Ok(st.op_name(OpCode::DefineGlobal, name, line))
                        } else {
                            Ok(st.declare_local(name))
                        }
                    },
                }
            },
        }
    }

    /// Compile the superclass of a class, if it has one.
    pub open spec fn compile_heritage(
        self,
        fuel: nat,
        super_class: &'p Option<Expression>,
        line: u32,
    ) -> Result<CState<'p>, Failure>
        decreases fuel, super_class, 6int,
    {
        let st = self;
        match super_class {
            Some(e) => {
                match st.compile_expr(fuel, e) {
                    Err(e) => Err(e),
                    Ok(st) => Ok(st.op(OpCode::Inherit, line)),
                }
            },
            None => Ok(st),
        }
    }

    /// Compile a class body. Class bodies are strict.
    pub open spec fn compile_class_body(
        self,
        fuel: nat,
        body: &'p ClassBody,
        line: u32,
    ) -> Result<CState<'p>, Failure>
        decreases fuel, body, 0int,
    {
        let st = self;
        let st = st.enter_class();
        match st.compile_class_body_inner(fuel, line, &body.body, 0) {
            Err(e) => Err(e),
            Ok(st) => Ok(st.leave_class()),
        }
    }

    /// Compile each member of a class.
    pub open spec fn compile_class_body_inner(
        self,
        fuel: nat,
        line: u32,
        members: &'p Vec<ClassMember>,
        i: int,
    ) -> Result<CState<'p>, Failure>
        decreases fuel, members, members@.len() - i,
    {
        let st = self;
        if i < 0 || i >= members@.len() {
            Ok(st)
        } else {
            let member = &members@[i];
            match member {
                ClassMember::Method(m) => {
                    match st.compile_class_method(fuel, m, line) {
                        Err(e) => Err(e),
                        Ok(st) => st.compile_class_body_inner(fuel, line, members, i + 1),
                    }
                },
                ClassMember::Property(p) => {
                    match st.compile_class_property(fuel, p, line) {
                        Err(e) => Err(e),
                        Ok(st) => st.compile_class_body_inner(fuel, line, members, i + 1),
                    }
                },
                ClassMember::StaticBlock(block) => {
                    let (st, name) = st.intern("<static_block>"@);
                    match st.compile_static_block(fuel, name, block) {
                        Err(e) => Err(e),
                        Ok((st, child)) => {
                            let st = st.op(OpCode::Dup, line);
                            let st = st.emit_closure(child, line);
                            let (st, call_name) = st.intern("call"@);
                            let (st, call_id) = st.make_string_constant(call_name);
                            let st = st.op(OpCode::Swap, line);
                            let st = st.emit_call_method(1, call_id, line);
                            let st = st.op(OpCode::Pop, line);
                            st.compile_class_body_inner(fuel, line, members, i + 1)
                        },
                    }
                },
            }
        }
    }

    /// Compile a method. A method whose name is only known at runtime is defined on the class
    /// or its prototype directly.
    pub open spec fn compile_class_method(
        self,
        fuel: nat,
        m: &'p MethodDefinition,
        line: u32,
    ) -> Result<CState<'p>, Failure>
        decreases fuel, m, 0int,
    {
        let st = self;
        let (st, key_id) = st.property_key_name(&m.key);
        let st = st.set_pending_name(key_id);
        if let PropertyKey::Computed(expr) = &m.key {
            if key_id == StringId(0) {
                let (st, proto_key) = st.intern("prototype"@);
                let (st, proto_idx) = st.make_string_constant(proto_key);
                let st = st.op(OpCode::Dup, line);
                let st = if !m.is_static {
                    st.emit_get_property(proto_idx, line)
                } else {
                    st
                };
                match st.compile_expr(fuel, expr) {
                    Err(e) => Err(e),
                    Ok(st) => {
                        let st = st.op(OpCode::ToPropertyKey, line);
                        match st.compile_expr(fuel, &m.value) {
                            Err(e) => Err(e),
                            Ok(st) => {
                                let st = if m.kind != MethodKind::Constructor {
                                    st.mark_last_child_as_method()
                                } else {
                                    st
                                };
                                let st = st.op(shape::method_op(m.kind), line);
                                Ok(st.op(OpCode::Pop, line))
                            },
                        }
                    },
                }
            } else {
                match st.compile_expr(fuel, &m.value) {
                    Err(e) => Err(e),
                    Ok(st) => {
                        let st = if m.kind != MethodKind::Constructor {
                            st.mark_last_child_as_method()
                        } else {
                            st
                        };
                        let (st, actual_key) = st.method_key(m.kind, key_id);
                        Ok(st.op_name(shape::class_method_op(m.key, m.is_static), actual_key, line))
                    },
                }
            }
        } else {
            match st.compile_expr(fuel, &m.value) {
                Err(e) => Err(e),
                Ok(st) => {
                    let st = if m.kind != MethodKind::Constructor {
                        st.mark_last_child_as_method()
                    } else {
                        st
                    };
                    let (st, actual_key) = st.method_key(m.kind, key_id);
                    Ok(st.op_name(shape::class_method_op(m.key, m.is_static), actual_key, line))
                },
            }
        }
    }

    /// The key under which a method is stored.
    pub open spec fn method_key(self, kind: MethodKind, key_id: StringId) -> (CState<'p>, StringId)
    {
        let st = self;
        match kind {
            MethodKind::Getter => {
                let (st, key) = st.intern_around("__get_"@, key_id, "__"@);
                (st, key)
            },
            MethodKind::Setter => {
                let (st, key) = st.intern_around("__set_"@, key_id, "__"@);
                (st, key)
            },
            MethodKind::Constructor => {
                let (st, key) = st.intern("\u{0}ctor"@);
                (st, key)
            },
            MethodKind::Method => (st, key_id),
        }
    }

    /// Compile a class field.
    pub open spec fn compile_class_property(
        self,
        fuel: nat,
        p: &'p ClassProperty,
        line: u32,
    ) -> Result<CState<'p>, Failure>
        decreases fuel, p, 0int,
    {
        let st = self;
        if shape::runtime_key(p.key) {
            match st.compile_property_key(fuel, &p.key, line) {
                Err(e) => Err(e),
                Ok(st) => {
                    match st.compile_init(fuel, &p.value, line) {
                        Err(e) => Err(e),
                        Ok(st) => {
                            Ok(
                                st.op(
                                    if p.is_static { OpCode::ClassStaticFieldComputed } else { OpCode::ClassFieldComputed },
                                    line,
                                ),
                            )
                        },
                    }
                },
            }
        } else {
            match st.compile_init(fuel, &p.value, line) {
                Err(e) => Err(e),
                Ok(st) => {
                    let (st, key_id) = st.property_key_name(&p.key);
                    Ok(
                        st.op_name(
                            if p.is_static { OpCode::ClassStaticField } else { OpCode::ClassField },
                            key_id,
                            line,
                        ),
                    )
                },
            }
        }
    }

    /// Declare the hoisted variables of a function body as undefined locals.
    pub open spec fn hoist_body_vars(self, stmts: &'p Vec<Statement>) -> CState<'p>
    {
        let st = self;
        let names: Seq<StringId> = names::program_var_names(stmts@);
        st.hoist_names(names, 0)
    }

    /// Declare each name as an undefined local, unless there is one.
    pub open spec fn hoist_names(self, names: Seq<StringId>, i: int) -> CState<'p>
        decreases names.len() - i,
    {
        let st = self;
        if i < 0 || i >= names.len() {
            st
        } else {
            let name = names[i];
            if st.resolve_local(name).is_none() {
                let st = st.op(OpCode::Undefined, 0);
                let st = st.declare_local(name);
                st.hoist_names(names, i + 1)
            } else {
                st.hoist_names(names, i + 1)
            }
        }
    }

    /// Hoist the function declarations of a body with their closures, reserving the slots of
    /// the body's simple lexicals first so that the closures can capture them.
    pub open spec fn hoist_body_functions(
        self,
        fuel: nat,
        stmts: &'p Vec<Statement>,
        params: &'p Vec<Pattern>,
    ) -> Result<CState<'p>, Failure>
        decreases fuel, stmts, stmts@.len() as int + 1,
    {
        let st = self;
        let (st, arguments_id) = st.intern("arguments"@);
        if shape::hoisting(stmts@) {
            let st = st.reserve_lexicals(stmts, 0);
            let st = st.reserve_functions(params, arguments_id, stmts, 0);
            st.define_functions(fuel, params, arguments_id, stmts, 0)
        } else {
            Ok(st)
        }
    }

    /// Reserve a slot for each simple lexical of a body.
    pub open spec fn reserve_lexicals(self, stmts: &'p Vec<Statement>, i: int) -> CState<'p>
        decreases stmts@.len() - i,
    {
        let st = self;
        if i < 0 || i >= stmts@.len() {
            st
        } else {
            let stmt = &stmts@[i];
            if let Statement::Variable(d) = stmt {
                if d.kind != VarKind::Var {
                    let st = st.reserve_declarators(&d.declarations, 0);
                    st.reserve_lexicals(stmts, i + 1)
                } else {
                    st.reserve_lexicals(stmts, i + 1)
                }
            } else {
                st.reserve_lexicals(stmts, i + 1)
            }
        }
    }

    /// Reserve a slot for each identifier declared.
    pub open spec fn reserve_declarators(
        self,
        declarations: &'p Vec<VariableDeclarator>,
        i: int,
    ) -> CState<'p>
        decreases declarations@.len() - i,
    {
        let st = self;
        if i < 0 || i >= declarations@.len() {
            st
        } else {
            let dec = &declarations@[i];
            if let Pattern::Identifier(id) = &dec.id {
                if st.resolve_local(id.name).is_none() {
                    let st = st.op(OpCode::Undefined, dec.span.start);
                    let st = st.declare_local(id.name);
                    let st = st.predeclare(id.name);
                    st.reserve_declarators(declarations, i + 1)
                } else {
                    st.reserve_declarators(declarations, i + 1)
                }
            } else {
                st.reserve_declarators(declarations, i + 1)
            }
        }
    }

    /// Reserve a slot for each function that is hoisted.
    pub open spec fn reserve_functions(
        self,
        params: &'p Vec<Pattern>,
        arguments_id: StringId,
        stmts: &'p Vec<Statement>,
        i: int,
    ) -> CState<'p>
        decreases stmts@.len() - i,
    {
        let st = self;
        if i < 0 || i >= stmts@.len() {
            st
        } else {
            let stmt = &stmts@[i];
            if let Statement::Function(f) = stmt {
                if let Some(name) = f.id {
                    if !shape::hides(name, arguments_id, params@) {
                        let (st, slot) = st.reserve_local(name, f.span.start);
                        st.reserve_functions(params, arguments_id, stmts, i + 1)
                    } else {
                        st.reserve_functions(params, arguments_id, stmts, i + 1)
                    }
                } else {
                    st.reserve_functions(params, arguments_id, stmts, i + 1)
                }
            } else {
                st.reserve_functions(params, arguments_id, stmts, i + 1)
            }
        }
    }

    /// Compile each function that is hoisted into its slot.
    pub open spec fn define_functions(
        self,
        fuel: nat,
        params: &'p Vec<Pattern>,
        arguments_id: StringId,
        stmts: &'p Vec<Statement>,
        i: int,
    ) -> Result<CState<'p>, Failure>
        decreases fuel, stmts, stmts@.len() - i,
    {
        let st = self;
        if i < 0 || i >= stmts@.len() {
            Ok(st)
        } else {
            let stmt = &stmts@[i];
            if let Statement::Function(f) = stmt {
                if let Some(name) = f.id {
                    if !shape::hides(name, arguments_id, params@) {
                        let line: u32 = f.span.start;
                        match st.compile_function_body(
                            fuel,
                            name,
                            &f.params,
                            &f.body,
                            f.is_async,
                            f.is_generator,
                        ) {
                            Err(e) => Err(e),
                            Ok((st, child)) => {
                                let st = st.emit_closure(child, line);
                                let (st, slot) = st.reserve_local(name, line);
                                let st = st.set_slot(slot, line);
                                let st = st.op(OpCode::Pop, line);
                                st.define_functions(fuel, params, arguments_id, stmts, i + 1)
                            },
                        }
                    } else {
                        st.define_functions(fuel, params, arguments_id, stmts, i + 1)
                    }
                } else {
                    st.define_functions(fuel, params, arguments_id, stmts, i + 1)
                }
            } else {
                st.define_functions(fuel, params, arguments_id, stmts, i + 1)
            }
        }
    }

    /// Compile each statement of a function body, except the functions already hoisted.
    pub open spec fn compile_body_statements(
        self,
        fuel: nat,
        hoisted: Seq<StringId>,
        stmts: &'p Vec<Statement>,
        i: int,
    ) -> Result<CState<'p>, Failure>
        decreases fuel, stmts, stmts@.len() - i,
    {
        let st = self;
        if i < 0 || i >= stmts@.len() {
            Ok(st)
        } else {
            let stmt = &stmts@[i];
            if let Statement::Function(f) = stmt {
                if let Some(name) = f.id {
                    if (state::first_name(hoisted, name, 0) < hoisted.len()) {
                        st.compile_body_statements(fuel, hoisted, stmts, i + 1)
                    } else {
                        match st.compile_statement(fuel, stmt) {
                            Err(e) => Err(e),
                            Ok(st) => st.compile_body_statements(fuel, hoisted, stmts, i + 1),
                        }
                    }
                } else {
                    match st.compile_statement(fuel, stmt) {
                        Err(e) => Err(e),
                        Ok(st) => st.compile_body_statements(fuel, hoisted, stmts, i + 1),
                    }
                }
            } else {
                match st.compile_statement(fuel, stmt) {
                    Err(e) => Err(e),
                    Ok(st) => st.compile_body_statements(fuel, hoisted, stmts, i + 1),
                }
            }
        }
    }

    /// The chunk of a function with its flags and the names it binds. Functions inherit strict
    /// mode, declare it, or have it from a class body. Those with parameter expressions bind
    /// `arguments` in the parameter scope.
    pub open spec fn function_chunk(
        self,
        name: StringId,
        params: &'p Vec<Pattern>,
        body: &'p Vec<Statement>,
        is_async: bool,
        is_generator: bool,
    ) -> (CState<'p>, ChunkView)
    {
        let st = self;
        let source: StringId = st.source_name();
        let strict: bool = st.has_flag(FLAG_STRICT)
            || st.has_use_strict_directive(body)
            || st.in_class();
        let names: Seq<StringId> = names::params_bind(params@);
        let lexicals: Seq<StringId> = names::body_lexical_names(body@);
        let flags: ChunkFlags = steps::flags_of_function(is_async, is_generator, strict);
        if shape::param_exprs(params@) {
            let (st, arguments_id) = st.intern("arguments"@);
            (
                st,
                steps::fresh_chunk(
                    name,
                    source,
                    params.len() as u16,
                    (shape::formals_from(params@, 0) as u16),
                    flags,
                    names.push(arguments_id),
                    lexicals,
                    false,
                ),
            )
        } else {
            (
                st,
                steps::fresh_chunk(
                    name,
                    source,
                    params.len() as u16,
                    (shape::formals_from(params@, 0) as u16),
                    flags,
                    names,
                    lexicals,
                    true,
                ),
            )
        }
    }

    /// The chunk of a static block.
    pub open spec fn static_chunk(
        self,
        name: StringId,
        body: &'p Vec<Statement>,
    ) -> (CState<'p>, ChunkView)
    {
        let st = self;
        let source: StringId = st.source_name();
        let strict: bool = st.has_flag(FLAG_STRICT)
            || st.has_use_strict_directive(body)
            || st.in_class();
        let lexicals: Seq<StringId> = names::body_lexical_names(body@);
        let names: Seq<StringId> = Seq::<StringId>::empty();
        (
            st,
            steps::fresh_chunk(
                name,
                source,
                0,
                0,
                steps::flags_of_function(false, false, strict),
                names,
                lexicals,
                true,
            ),
        )
    }

    /// The chunk of an arrow function. Arrow functions have no `arguments` of their own.
    pub open spec fn arrow_chunk(
        self,
        params: &'p Vec<Pattern>,
        body: &'p ArrowBody,
        is_async: bool,
    ) -> (CState<'p>, ChunkView)
    {
        let st = self;
        let source: StringId = st.source_name();
        let (st, arrow_name) = st.intern("<arrow>"@);
        let names: Seq<StringId> = names::params_bind(params@);
        let simple: bool = !shape::param_exprs(params@);
        match body {
            ArrowBody::Block(b) => {
                let strict: bool = st.has_flag(FLAG_STRICT)
                    || st.in_class()
                    || st.has_use_strict_directive(&b.body);
                let lexicals: Seq<StringId> = names::body_lexical_names(b.body@);
                (
                    st,
                    steps::fresh_chunk(
                        arrow_name,
                        source,
                        params.len() as u16,
                        (shape::formals_from(params@, 0) as u16),
                        steps::flags_of_arrow(is_async, strict),
                        names,
                        lexicals,
                        simple,
                    ),
                )
            },
            ArrowBody::Expression(_) => {
                let strict: bool = st.has_flag(FLAG_STRICT) || st.in_class();
                let lexicals: Seq<StringId> = Seq::<StringId>::empty();
                (
                    st,
                    steps::fresh_chunk(
                        arrow_name,
                        source,
                        params.len() as u16,
                        (shape::formals_from(params@, 0) as u16),
                        steps::flags_of_arrow(is_async, strict),
                        names,
                        lexicals,
                        simple,
                    ),
                )
            },
        }
    }

    /// Compile a function body into a chunk of its own.
    pub open spec fn compile_function_body(
        self,
        fuel: nat,
        name: StringId,
        params: &'p Vec<Pattern>,
        body: &'p BlockStatement,
        is_async: bool,
        is_generator: bool,
    ) -> Result<(CState<'p>, ChunkView), Failure>
        decreases fuel, body, 10int,
    {
        let st = self;
        st.compile_function_body_with_self(
            fuel,
            name,
            params,
            body,
            is_async,
            is_generator,
            None,
        )
    }

    /// Compile a static block into a chunk of its own.
    pub open spec fn compile_static_block(
        self,
        fuel: nat,
        name: StringId,
        body: &'p BlockStatement,
    ) -> Result<(CState<'p>, ChunkView), Failure>
        decreases fuel, body, 10int,
    {
        let st = self;
        let (st, child) = st.static_chunk(name, &body.body);
        let (st, saved) = st.enter_function(child);
        let st = st.hoist_body_vars(&body.body);
        let (st, arguments_id) = st.intern("arguments"@);
        let r = if shape::hoisting(body.body@) {
            let st = st.reserve_lexicals(&body.body, 0);
            let st = st.reserve_block_functions(arguments_id, &body.body, 0);
            st.define_block_functions(fuel, arguments_id, &body.body, 0)
        } else {
            Ok(st)
        };
        match r {
            Err(e) => Err(e),
            Ok(st) => {
                let hoisted: Seq<StringId> = names::block_hoisted_names(body.body@, arguments_id);
                match st.compile_body_statements(fuel, hoisted, &body.body, 0) {
                    Err(e) => Err(e),
                    Ok(st) => {
                        let line: u32 = st.current_line();
                        let st = st.op(OpCode::ReturnUndefined, line);
                        let st = st.finish_chunk();
                        let (st, compiled) = st.leave_function(saved);
                        if compiled.jump_overflow {
                            let message: Seq<char> = st.message_around(
                                "function '"@,
                                compiled.name,
                                "' too large: a jump offset exceeded the i16 encoding"@,
                            );
                            Err(st.failing(message))
                        } else {
                            Ok((st, compiled))
                        }
                    },
                }
            },
        }
    }

    /// Reserve a slot for each function that a static block hoists.
    pub open spec fn reserve_block_functions(
        self,
        arguments_id: StringId,
        stmts: &'p Vec<Statement>,
        i: int,
    ) -> CState<'p>
        decreases stmts@.len() - i,
    {
        let st = self;
        if i < 0 || i >= stmts@.len() {
            st
        } else {
            let stmt = &stmts@[i];
            if let Statement::Function(f) = stmt {
                if let Some(name) = f.id {
                    if name != arguments_id {
                        let (st, slot) = st.reserve_local(name, f.span.start);
                        st.reserve_block_functions(arguments_id, stmts, i + 1)
                    } else {
                        st.reserve_block_functions(arguments_id, stmts, i + 1)
                    }
                } else {
                    st.reserve_block_functions(arguments_id, stmts, i + 1)
                }
            } else {
                st.reserve_block_functions(arguments_id, stmts, i + 1)
            }
        }
    }

    /// Compile each function that a static block hoists into its slot.
    pub open spec fn define_block_functions(
        self,
        fuel: nat,
        arguments_id: StringId,
        stmts: &'p Vec<Statement>,
        i: int,
    ) -> Result<CState<'p>, Failure>
        decreases fuel, stmts, stmts@.len() - i,
    {
        let st = self;
        if i < 0 || i >= stmts@.len() {
            Ok(st)
        } else {
            let stmt = &stmts@[i];
            if let Statement::Function(f) = stmt {
                if let Some(name) = f.id {
                    if name != arguments_id {
                        let line: u32 = f.span.start;
                        match st.compile_function_body(
                            fuel,
                            name,
                            &f.params,
                            &f.body,
                            f.is_async,
                            f.is_generator,
                        ) {
                            Err(e) => Err(e),
                            Ok((st, child)) => {
                                let st = st.emit_closure(child, line);
                                let (st, slot) = st.reserve_local(name, line);
                                let st = st.set_slot(slot, line);
                                let st = st.op(OpCode::Pop, line);
                                st.define_block_functions(fuel, arguments_id, stmts, i + 1)
                            },
                        }
                    } else {
                        st.define_block_functions(fuel, arguments_id, stmts, i + 1)
                    }
                } else {
                    st.define_block_functions(fuel, arguments_id, stmts, i + 1)
                }
            } else {
                st.define_block_functions(fuel, arguments_id, stmts, i + 1)
            }
        }
    }

    /// Compile a function body into a chunk of its own; a named function expression can
    /// refer to itself by `self_binding`.
    pub open spec fn compile_function_body_with_self(
        self,
        fuel: nat,
        name: StringId,
        params: &'p Vec<Pattern>,
        body: &'p BlockStatement,
        is_async: bool,
        is_generator: bool,
        self_binding: Option<StringId>,
    ) -> Result<(CState<'p>, ChunkView), Failure>
        decreases fuel, body, 9int,
    {
        let st = self;
        let (st, child) = st.function_chunk(name, params, &body.body, is_async, is_generator);
        let (st, saved) = st.enter_function(child);
        let st = st.declare_params(params, 0);
        if fuel == 0 {
            Err(st.failing(steps::too_deep_text()))
        } else {
            match st.compile_params((fuel - 1) as nat, params) {
                Err(e) => Err(e),
                Ok(st) => {
                    let st = st.hoist_body_vars(&body.body);
                    let st = match self_binding {
                        Some(self_name) => {
                            if st.resolve_local(self_name).is_none() {
                                let st = st.op(OpCode::LoadCallee, 0);
                                let st = st.declare_local(self_name);
                                st.mark_self_name()
                            } else {
                                st
                            }
                        },
                        None => st,
                    };
                    match st.hoist_body_functions(fuel, &body.body, params) {
                        Err(e) => Err(e),
                        Ok(st) => {
                            let (st, arguments_id) = st.intern("arguments"@);
                            let hoisted: Seq<StringId> = names::hoisted_names(
                                body.body@,
                                params@,
                                arguments_id,
                            );
                            let st = if is_generator {
                                st.op(OpCode::CreateGenerator, 0)
                            } else {
                                st
                            };
                            match st.compile_body_statements(fuel, hoisted, &body.body, 0) {
                                Err(e) => Err(e),
                                Ok(st) => {
                                    let line: u32 = st.current_line();
                                    let st = st.op(OpCode::ReturnUndefined, line);
                                    let st = st.finish_chunk();
                                    let (st, compiled) = st.leave_function(saved);
                                    if compiled.jump_overflow {
                                        let message: Seq<char> = st.message_around(
                                            "function '"@,
                                            compiled.name,
                                            "' too large: a jump offset exceeded the i16 encoding"@,
                                        );
                                        Err(st.failing(message))
                                    } else {
                                        Ok((st, compiled))
                                    }
                                },
                            }
                        },
                    }
                },
            }
        }
    }

    /// Declare a local for each parameter; one that is no plain identifier gets a placeholder
    /// name.
    pub open spec fn declare_params(self, params: &'p Vec<Pattern>, i: int) -> CState<'p>
        decreases params@.len() - i,
    {
        let st = self;
        if i < 0 || i >= params@.len() {
            st
        } else {
            let param = &params@[i];
            match shape::name_of_param(*param) {
                Some(name) => {
                    let st = st.declare_local(name);
                    st.declare_params(params, i + 1)
                },
                None => {
                    let (st, anon) = st.intern_param(i as usize);
                    let st = st.declare_local(anon);
                    st.declare_params(params, i + 1)
                },
            }
        }
    }

    /// Compile what the parameters of a function do on entry: defaults, rest parameters, and
    /// destructuring, in this order.
    pub open spec fn compile_params(
        self,
        fuel: nat,
        params: &'p Vec<Pattern>,
    ) -> Result<CState<'p>, Failure>
        decreases fuel, params, params@.len() as int + 1,
    {
        let st = self;
        match st.compile_param_defaults(fuel, params, 0) {
            Err(e) => Err(e),
            Ok(st) => {
                let st = st.collect_rest_params(params, 0);
                st.destructure_params(fuel, params, 0)
            },
        }
    }

    /// Compile the default of each parameter that has one.
    pub open spec fn compile_param_defaults(
        self,
        fuel: nat,
        params: &'p Vec<Pattern>,
        i: int,
    ) -> Result<CState<'p>, Failure>
        decreases fuel, params, params@.len() - i,
    {
        let st = self;
        if i < 0 || i >= params@.len() {
            Ok(st)
        } else {
            let param = &params@[i];
            if let Pattern::Assignment(a) = param {
                let st = st.op(OpCode::GetLocal, 0);
                let st = st.raw(i as u8);
                let st = st.op(OpCode::Undefined, 0);
                let st = st.op(OpCode::StrictNe, 0);
                let jump_idx: usize = st.here();
                let st = st.op(OpCode::JumpIfTrue, 0);
                let st = st.raw16(0);
                let st = st.op(OpCode::BeginParamExpr, 0);
                let st = st.begin_default(i as usize, params.len());
                match st.compile_expr(fuel, &a.right) {
                    Err(e) => Err(e),
                    Ok(st) => {
                        let st = st.end_default();
                        let st = st.op(OpCode::EndParamExpr, 0);
                        let st = st.op(OpCode::SetLocal, 0);
                        let st = st.raw(i as u8);
                        let st = st.op(OpCode::Pop, 0);
                        let st = st.patch_short(jump_idx);
                        st.compile_param_defaults(fuel, params, i + 1)
                    },
                }
            } else {
                st.compile_param_defaults(fuel, params, i + 1)
            }
        }
    }

    /// Collect the remaining arguments for each rest parameter.
    pub open spec fn collect_rest_params(self, params: &'p Vec<Pattern>, i: int) -> CState<'p>
        decreases params@.len() - i,
    {
        let st = self;
        if i < 0 || i >= params@.len() {
            st
        } else {
            let param = &params@[i];
            if let Pattern::Rest(r) = param {
                if let Pattern::Identifier(_) = &r.argument {
                    let st = st.byte(OpCode::CollectRest.byte(), 0);
                    let st = st.raw(i as u8);
                    let st = st.raw(i as u8);
                    st.collect_rest_params(params, i + 1)
                } else {
                    st.collect_rest_params(params, i + 1)
                }
            } else {
                st.collect_rest_params(params, i + 1)
            }
        }
    }

    /// Destructure each parameter that is a pattern.
    pub open spec fn destructure_params(
        self,
        fuel: nat,
        params: &'p Vec<Pattern>,
        i: int,
    ) -> Result<CState<'p>, Failure>
        decreases fuel, params, params@.len() - i,
    {
        let st = self;
        if i < 0 || i >= params@.len() {
            Ok(st)
        } else {
            let param = &params@[i];
            match param {
                Pattern::Array(_) => {
                    match st.destructure_pattern_from_slot(fuel, param, i as u8, 0) {
                        Err(e) => Err(e),
                        Ok(st) => st.destructure_params(fuel, params, i + 1),
                    }
                },
                Pattern::Object(_) => {
                    match st.destructure_pattern_from_slot(fuel, param, i as u8, 0) {
                        Err(e) => Err(e),
                        Ok(st) => st.destructure_params(fuel, params, i + 1),
                    }
                },
                Pattern::Assignment(a) => {
                    match st.destructure_pattern_from_slot(fuel, &a.left, i as u8, 0) {
                        Err(e) => Err(e),
                        Ok(st) => st.destructure_params(fuel, params, i + 1),
                    }
                },
                _ => st.destructure_params(fuel, params, i + 1),
            }
        }
    }

    /// Compile the body of an arrow function into a chunk of its own.
    pub open spec fn compile_arrow_body(
        self,
        fuel: nat,
        params: &'p Vec<Pattern>,
        body: &'p ArrowBody,
        is_async: bool,
    ) -> Result<(CState<'p>, ChunkView), Failure>
        decreases fuel, body, 9int,
    {
        let st = self;
        let (st, child) = st.arrow_chunk(params, body, is_async);
        let (st, saved) = st.enter_function(child);
        let st = st.declare_params(params, 0);
        if fuel == 0 {
            Err(st.failing(steps::too_deep_text()))
        } else {
            match st.compile_params((fuel - 1) as nat, params) {
                Err(e) => Err(e),
                Ok(st) => {
                    let r = match body {
                        ArrowBody::Expression(expr) => {
                            match st.compile_expr(fuel, expr) {
                                Err(e) => Err(e),
                                Ok(st) => {
                                    let line: u32 = st.current_line();
                                    Ok(st.op(OpCode::Return, line))
                                },
                            }
                        },
                        ArrowBody::Block(block) => {
                            let st = st.hoist_body_vars(&block.body);
                            match st.hoist_body_functions(fuel, &block.body, params) {
                                Err(e) => Err(e),
                                Ok(st) => {
                                    let (st, arguments_id) = st.intern("arguments"@);
                                    let hoisted: Seq<StringId> = names::hoisted_names(
                                        block.body@,
                                        params@,
                                        arguments_id,
                                    );
                                    match st.compile_body_statements(
                                        fuel,
                                        hoisted,
                                        &block.body,
                                        0,
                                    ) {
                                        Err(e) => Err(e),
                                        Ok(st) => {
                                            let line: u32 = st.current_line();
                                            Ok(st.op(OpCode::ReturnUndefined, line))
                                        },
                                    }
                                },
                            }
                        },
                    };
                    match r {
                        Err(e) => Err(e),
                        Ok(st) => {
                            let st = st.finish_chunk();
                            let (st, compiled) = st.leave_function(saved);
                            if compiled.jump_overflow {
                                let message: Seq<char> = st.message_around(
                                    "function '"@,
                                    compiled.name,
                                    "' too large: a jump offset exceeded the i16 encoding"@,
                                );
                                Err(st.failing(message))
                            } else {
                                Ok((st, compiled))
                            }
                        },
                    }
                },
            }
        }
    }

    /// Compile a function expression.
    pub open spec fn compile_function_expr(
        self,
        fuel: nat,
        f: &'p FunctionExpression,
    ) -> Result<CState<'p>, Failure>
        decreases fuel, f, 0int,
    {
        let st = self;
        let (st, name) = st.function_name(f.id);
        match st.compile_function_body_with_self(
            fuel,
            name,
            &f.params,
            &f.body,
            f.is_async,
            f.is_generator,
            f.id,
        ) {
            Err(e) => Err(e),
            Ok((st, child)) => Ok(st.emit_closure(child, f.span.start)),
        }
    }

    /// The name of a function expression: its own, the one pending, or the placeholder.
    pub open spec fn function_name(self, id: Option<StringId>) -> (CState<'p>, StringId)
    {
        let st = self;
        match id {
            Some(name) => (st, name),
            None => {
                let (st, pending) = st.take_pending_name();
                let (st, name) = st.declared_name(pending);
                (st, name)
            },
        }
    }

    /// Compile an arrow function expression.
    pub open spec fn compile_arrow_expr(
        self,
        fuel: nat,
        a: &'p ArrowFunctionExpression,
    ) -> Result<CState<'p>, Failure>
        decreases fuel, a, 0int,
    {
        let st = self;
        let (st, name_hint) = st.take_pending_name();
        match st.compile_arrow_body(fuel, &a.params, &a.body, a.is_async) {
            Err(e) => Err(e),
            Ok((st, child)) => {
                let named: ChunkView = steps::renamed(child, name_hint);
                Ok(st.emit_closure(named, a.span.start))
            },
        }
    }

    /// Compile a class expression.
    pub open spec fn compile_class_expr(
        self,
        fuel: nat,
        c: &'p ClassExpression,
    ) -> Result<CState<'p>, Failure>
        decreases fuel, c, 0int,
    {
        let st = self;
        let line: u32 = c.span.start;
        let (st, name) = st.class_name(c.id);
        let st = st.op_name(OpCode::Class, name, line);
        match st.compile_heritage(fuel, &c.super_class, line) {
            Err(e) => Err(e),
            Ok(st) => st.compile_class_body(fuel, &c.body, line),
        }
    }

    /// The name of a class expression: its own, the one pending, or the empty one.
    pub open spec fn class_name(self, id: Option<StringId>) -> (CState<'p>, StringId)
    {
        let st = self;
        match id {
            Some(name) => (st, name),
            None => {
                let (st, pending) = st.take_pending_name();
                match pending {
                    Some(name) => (st, name),
                    None => (st, StringId(0)),
                }
            },
        }
    }
}

impl<'p> Compiler<'p> {
    /// Compile a function declaration: a global at the outermost level, else a local.
    pub(crate) fn compile_function_decl(
        &mut self,
        fuel: u32,
        f: &'p FunctionDeclaration,
    ) -> (done: Result<(), String>)
        requires
            old(self).st().good(),
        ensures
            steps::outcome(
                done,
                final(self).st(),
                old(self).st().compile_function_decl(fuel as nat, f),
            ),
            done is Ok ==> final(self).st().depths() == old(self).st().depths(),
            final(self).st().good(),
            final(self).st().base == old(self).st().base,
        decreases fuel, f, 0int,
    {
        let line: u32 = f.span.start;
        let name: StringId = self.declared_name(f.id);
        if self.depth() == 0 {
            let child: Chunk = self.compile_function_body(
                fuel,
                name,
                &f.params,
                &f.body,
                f.is_async,
                f.is_generator,
            )?;
            self.emit_closure(child, line);
            self.op_name(OpCode::DefineGlobal, name, line);
        } else {
            let slot: usize = self.reserve_local(name, line);
            let child: Chunk = self.compile_function_body(
                fuel,
                name,
                &f.params,
                &f.body,
                f.is_async,
                f.is_generator,
            )?;
            self.emit_closure(child, line);
            self.set_slot(slot, line);
            self.op(OpCode::Pop, line);
        }
        Ok(())
    }

    /// The name of a declaration, or the placeholder for none.
    pub(crate) fn declared_name(&mut self, id: Option<StringId>) -> (value: StringId)
        requires
            old(self).st().good(),
        ensures
            (final(self).st(), value) == old(self).st().declared_name(id),
            final(self).st().depths() == old(self).st().depths(),
            final(self).st().good(),
            final(self).st().base == old(self).st().base,
    {
        match id {
            Some(name) => {
                return name;
            },
            None => {
                let name: StringId = self.intern("<anonymous>");
                return name;
            },
        }
    }

    /// The slot of a local with a name; it is declared as undefined if there is none.
    pub(crate) fn reserve_local(&mut self, name: StringId, line: u32) -> (value: usize)
        requires
            old(self).st().good(),
        ensures
            (final(self).st(), value) == old(self).st().reserve_local(name, line),
            final(self).st().depths() == old(self).st().depths(),
            final(self).st().good(),
            final(self).st().base == old(self).st().base,
    {
        match self.resolve_local(name) {
            Some(slot) => {
                return slot;
            },
            None => {
                self.op(OpCode::Undefined, line);
                self.declare_local(name);
                let last: usize = self.last_index();
                return last;
            },
        }
    }

    /// Compile a class declaration.
    pub(crate) fn compile_class_decl(
        &mut self,
        fuel: u32,
        c: &'p ClassDeclaration,
    ) -> (done: Result<(), String>)
        requires
            old(self).st().good(),
        ensures
            steps::outcome(
                done,
                final(self).st(),
                old(self).st().compile_class_decl(fuel as nat, c),
            ),
            done is Ok ==> final(self).st().depths() == old(self).st().depths(),
            final(self).st().good(),
            final(self).st().base == old(self).st().base,
        decreases fuel, c, 0int,
    {
        let line: u32 = c.span.start;
        let name: StringId = self.declared_name(c.id);
        self.op_name(OpCode::Class, name, line);
        self.compile_heritage(fuel, &c.super_class, line)?;
        self.compile_class_body(fuel, &c.body, line)?;
        if self.depth() == 0 {
            self.op_name(OpCode::DefineGlobal, name, line);
        } else {
            self.declare_local(name);
        }
        Ok(())
    }

    /// Compile the superclass of a class, if it has one.
    pub(crate) fn compile_heritage(
        &mut self,
        fuel: u32,
        super_class: &'p Option<Expression>,
        line: u32,
    ) -> (done: Result<(), String>)
        requires
            old(self).st().good(),
        ensures
            steps::outcome(
                done,
                final(self).st(),
                old(self).st().compile_heritage(fuel as nat, super_class, line),
            ),
            done is Ok ==> final(self).st().depths() == old(self).st().depths(),
            final(self).st().good(),
            final(self).st().base == old(self).st().base,
        decreases fuel, super_class, 6int,
    {
        match super_class {
            Some(e) => {
                self.compile_expr(fuel, e)?;
                self.op(OpCode::Inherit, line);
            },
            None => {},
        }
        Ok(())
    }

    /// Compile a class body. Class bodies are strict.
    pub(crate) fn compile_class_body(
        &mut self,
        fuel: u32,
        body: &'p ClassBody,
        line: u32,
    ) -> (done: Result<(), String>)
        requires
            old(self).st().good(),
        ensures
            steps::outcome(
                done,
                final(self).st(),
                old(self).st().compile_class_body(fuel as nat, body, line),
            ),
            done is Ok ==> final(self).st().depths() == old(self).st().depths(),
            final(self).st().good(),
            final(self).st().base == old(self).st().base,
        decreases fuel, body, 0int,
    {
        self.enter_class();
        self.compile_class_body_inner(fuel, line, &body.body)?;
        self.leave_class();
        Ok(())
    }

    /// Compile each member of a class.
    pub(crate) fn compile_class_body_inner(
        &mut self,
        fuel: u32,
        line: u32,
        members: &'p Vec<ClassMember>,
    ) -> (done: Result<(), String>)
        requires
            old(self).st().good(),
        ensures
            steps::outcome(
                done,
                final(self).st(),
                old(self).st().compile_class_body_inner(fuel as nat, line, members, 0),
            ),
            done is Ok ==> final(self).st().depths() == old(self).st().depths(),
            final(self).st().good(),
            final(self).st().base == old(self).st().base,
        decreases fuel, members, members@.len() as int,
    {
        let mut i: usize = 0;
        while i < members.len()
            invariant
                i <= members@.len(),
                self.st().good(),
                self.st().depths() == old(self).st().depths(),
                self.st().base == old(self).st().base,
                self.st().compile_class_body_inner(
                    fuel as nat,
                    line,
                    members,
                    i as int,
                ) == old(self).st().compile_class_body_inner(fuel as nat, line, members, 0),
            decreases members@.len() - i,
        {
            let member = &members[i];
            assert(decreases_to!(members => members[i as int]));
            match member {
                ClassMember::Method(m) => {
                    self.compile_class_method(fuel, m, line)?;
                },
                ClassMember::Property(p) => {
                    self.compile_class_property(fuel, p, line)?;
                },
                ClassMember::StaticBlock(block) => {
                    let name: StringId = self.intern("<static_block>");
                    let child: Chunk = self.compile_static_block(fuel, name, block)?;
                    self.op(OpCode::Dup, line);
                    self.emit_closure(child, line);
                    let call_name: StringId = self.intern("call");
                    let call_id: u16 = self.make_string_constant(call_name);
                    self.op(OpCode::Swap, line);
                    self.emit_call_method(1, call_id, line);
                    self.op(OpCode::Pop, line);
                },
            }
            i = i + 1;
        }
        Ok(())
    }

    /// Compile a method. A method whose name is only known at runtime is defined on the class
    /// or its prototype directly.
    pub(crate) fn compile_class_method(
        &mut self,
        fuel: u32,
        m: &'p MethodDefinition,
        line: u32,
    ) -> (done: Result<(), String>)
        requires
            old(self).st().good(),
        ensures
            steps::outcome(
                done,
                final(self).st(),
                old(self).st().compile_class_method(fuel as nat, m, line),
            ),
            done is Ok ==> final(self).st().depths() == old(self).st().depths(),
            final(self).st().good(),
            final(self).st().base == old(self).st().base,
        decreases fuel, m, 0int,
    {
        let key_id: StringId = self.property_key_name(&m.key);
        self.set_pending_name(key_id);
        if let PropertyKey::Computed(expr) = &m.key {
            if key_id == StringId(0) {
                let proto_key: StringId = self.intern("prototype");
                let proto_idx: u16 = self.make_string_constant(proto_key);
                self.op(OpCode::Dup, line);
                if !m.is_static {
                    self.emit_get_property(proto_idx, line);
                }
                self.compile_expr(fuel, expr)?;
                self.op(OpCode::ToPropertyKey, line);
                self.compile_expr(fuel, &m.value)?;
                if m.kind != MethodKind::Constructor {
                    self.mark_last_child_as_method();
                }
                self.op(method_opcode(m.kind), line);
                self.op(OpCode::Pop, line);
                return Ok(());
            }
        }
        self.compile_expr(fuel, &m.value)?;
        if m.kind != MethodKind::Constructor {
            self.mark_last_child_as_method();
        }
        let actual_key: StringId = self.method_key(m.kind, key_id);
        self.op_name(class_method_opcode(&m.key, m.is_static), actual_key, line);
        Ok(())
    }

    /// The key under which a method is stored.
    pub(crate) fn method_key(&mut self, kind: MethodKind, key_id: StringId) -> (value: StringId)
        requires
            old(self).st().good(),
        ensures
            (final(self).st(), value) == old(self).st().method_key(kind, key_id),
            final(self).st().depths() == old(self).st().depths(),
            final(self).st().good(),
            final(self).st().base == old(self).st().base,
    {
        match kind {
            MethodKind::Getter => {
                let key: StringId = self.intern_around("__get_", key_id, "__");
                return key;
            },
            MethodKind::Setter => {
                let key: StringId = self.intern_around("__set_", key_id, "__");
                return key;
            },
            MethodKind::Constructor => {
                let key: StringId = self.intern("\u{0}ctor");
                return key;
            },
            MethodKind::Method => {
                return key_id;
            },
        }
    }

    /// Compile a class field.
    pub(crate) fn compile_class_property(
        &mut self,
        fuel: u32,
        p: &'p ClassProperty,
        line: u32,
    ) -> (done: Result<(), String>)
        requires
            old(self).st().good(),
        ensures
            steps::outcome(
                done,
                final(self).st(),
                old(self).st().compile_class_property(fuel as nat, p, line),
            ),
            done is Ok ==> final(self).st().depths() == old(self).st().depths(),
            final(self).st().good(),
            final(self).st().base == old(self).st().base,
        decreases fuel, p, 0int,
    {
        if is_runtime_key(&p.key) {
            self.compile_property_key(fuel, &p.key, line)?;
            self.compile_init(fuel, &p.value, line)?;
            self.op(
                if p.is_static { OpCode::ClassStaticFieldComputed } else { OpCode::ClassFieldComputed },
                line,
            );
        } else {
            self.compile_init(fuel, &p.value, line)?;
            let key_id: StringId = self.property_key_name(&p.key);
            self.op_name(
                if p.is_static { OpCode::ClassStaticField } else { OpCode::ClassField },
                key_id,
                line,
            );
        }
        Ok(())
    }

    /// Declare the hoisted variables of a function body as undefined locals.
    pub(crate) fn hoist_body_vars(&mut self, stmts: &'p Vec<Statement>)
        requires
            old(self).st().good(),
        ensures
            final(self).st() == old(self).st().hoist_body_vars(stmts),
            final(self).st().depths() == old(self).st().depths(),
            final(self).st().good(),
            final(self).st().base == old(self).st().base,
    {
        let names: Vec<StringId> = collect_program_var_names(stmts);
        self.hoist_names(&names);
    }

    /// Declare each name as an undefined local, unless there is one.
    pub(crate) fn hoist_names(&mut self, names: &Vec<StringId>)
        requires
            old(self).st().good(),
        ensures
            final(self).st() == old(self).st().hoist_names(names@, 0),
            final(self).st().depths() == old(self).st().depths(),
            final(self).st().good(),
            final(self).st().base == old(self).st().base,
    {
        let mut i: usize = 0;
        while i < names.len()
            invariant
                i <= names@.len(),
                self.st().good(),
                self.st().depths() == old(self).st().depths(),
                self.st().base == old(self).st().base,
                self.st().hoist_names(names@, i as int) == old(self).st().hoist_names(names@, 0),
            decreases names@.len() - i,
        {
            let name = names[i];
            if self.resolve_local(name).is_none() {
                self.op(OpCode::Undefined, 0);
                self.declare_local(name);
            }
            i = i + 1;
        }
    }

    /// Hoist the function declarations of a body with their closures, reserving the slots of
    /// the body's simple lexicals first so that the closures can capture them.
    pub(crate) fn hoist_body_functions(
        &mut self,
        fuel: u32,
        stmts: &'p Vec<Statement>,
        params: &'p Vec<Pattern>,
    ) -> (done: Result<(), String>)
        requires
            old(self).st().good(),
        ensures
            steps::outcome(
                done,
                final(self).st(),
                old(self).st().hoist_body_functions(fuel as nat, stmts, params),
            ),
            done is Ok ==> final(self).st().depths() == old(self).st().depths(),
            final(self).st().good(),
            final(self).st().base == old(self).st().base,
        decreases fuel, stmts, stmts@.len() as int + 1,
    {
        let arguments_id: StringId = self.intern("arguments");
        if hoists_functions(stmts) {
            self.reserve_lexicals(stmts);
            self.reserve_functions(params, arguments_id, stmts);
            self.define_functions(fuel, params, arguments_id, stmts)?;
        }
        Ok(())
    }

    /// Reserve a slot for each simple lexical of a body.
    pub(crate) fn reserve_lexicals(&mut self, stmts: &'p Vec<Statement>)
        requires
            old(self).st().good(),
        ensures
            final(self).st() == old(self).st().reserve_lexicals(stmts, 0),
            final(self).st().depths() == old(self).st().depths(),
            final(self).st().good(),
            final(self).st().base == old(self).st().base,
    {
        let mut i: usize = 0;
        while i < stmts.len()
            invariant
                i <= stmts@.len(),
                self.st().good(),
                self.st().depths() == old(self).st().depths(),
                self.st().base == old(self).st().base,
                self.st().reserve_lexicals(
                    stmts,
                    i as int,
                ) == old(self).st().reserve_lexicals(stmts, 0),
            decreases stmts@.len() - i,
        {
            let stmt = &stmts[i];
            if let Statement::Variable(d) = stmt {
                if d.kind != VarKind::Var {
                    self.reserve_declarators(&d.declarations);
                }
            }
            i = i + 1;
        }
    }

    /// Reserve a slot for each identifier declared.
    pub(crate) fn reserve_declarators(&mut self, declarations: &'p Vec<VariableDeclarator>)
        requires
            old(self).st().good(),
        ensures
            final(self).st() == old(self).st().reserve_declarators(declarations, 0),
            final(self).st().depths() == old(self).st().depths(),
            final(self).st().good(),
            final(self).st().base == old(self).st().base,
    {
        let mut i: usize = 0;
        while i < declarations.len()
            invariant
                i <= declarations@.len(),
                self.st().good(),
                self.st().depths() == old(self).st().depths(),
                self.st().base == old(self).st().base,
                self.st().reserve_declarators(
                    declarations,
                    i as int,
                ) == old(self).st().reserve_declarators(declarations, 0),
            decreases declarations@.len() - i,
        {
            let dec = &declarations[i];
            if let Pattern::Identifier(id) = &dec.id {
                if self.resolve_local(id.name).is_none() {
                    self.op(OpCode::Undefined, dec.span.start);
                    self.declare_local(id.name);
                    self.predeclare(id.name);
                }
            }
            i = i + 1;
        }
    }

    /// Reserve a slot for each function that is hoisted.
    pub(crate) fn reserve_functions(
        &mut self,
        params: &'p Vec<Pattern>,
        arguments_id: StringId,
        stmts: &'p Vec<Statement>,
    )
        requires
            old(self).st().good(),
        ensures
            final(self).st() == old(self).st().reserve_functions(params, arguments_id, stmts, 0),
            final(self).st().depths() == old(self).st().depths(),
            final(self).st().good(),
            final(self).st().base == old(self).st().base,
    {
        let mut i: usize = 0;
        while i < stmts.len()
            invariant
                i <= stmts@.len(),
                self.st().good(),
                self.st().depths() == old(self).st().depths(),
                self.st().base == old(self).st().base,
                self.st().reserve_functions(
                    params,
                    arguments_id,
                    stmts,
                    i as int,
                ) == old(self).st().reserve_functions(params, arguments_id, stmts, 0),
            decreases stmts@.len() - i,
        {
            let stmt = &stmts[i];
            if let Statement::Function(f) = stmt {
                if let Some(name) = f.id {
                    if !hides_arguments(name, arguments_id, params) {
                        let slot: usize = self.reserve_local(name, f.span.start);
                    }
                }
            }
            i = i + 1;
        }
    }

    /// Compile each function that is hoisted into its slot.
    pub(crate) fn define_functions(
        &mut self,
        fuel: u32,
        params: &'p Vec<Pattern>,
        arguments_id: StringId,
        stmts: &'p Vec<Statement>,
    ) -> (done: Result<(), String>)
        requires
            old(self).st().good(),
        ensures
            steps::outcome(
                done,
                final(self).st(),
                old(self).st().define_functions(fuel as nat, params, arguments_id, stmts, 0),
            ),
            done is Ok ==> final(self).st().depths() == old(self).st().depths(),
            final(self).st().good(),
            final(self).st().base == old(self).st().base,
        decreases fuel, stmts, stmts@.len() as int,
    {
        let mut i: usize = 0;
        while i < stmts.len()
            invariant
                i <= stmts@.len(),
                self.st().good(),
                self.st().depths() == old(self).st().depths(),
                self.st().base == old(self).st().base,
                self.st().define_functions(
                    fuel as nat,
                    params,
                    arguments_id,
                    stmts,
                    i as int,
                ) == old(self).st().define_functions(fuel as nat, params, arguments_id, stmts, 0),
            decreases stmts@.len() - i,
        {
            let stmt = &stmts[i];
            assert(decreases_to!(stmts => stmts[i as int]));
            if let Statement::Function(f) = stmt {
                if let Some(name) = f.id {
                    if !hides_arguments(name, arguments_id, params) {
                        let line: u32 = f.span.start;
                        let child: Chunk = self.compile_function_body(
                            fuel,
                            name,
                            &f.params,
                            &f.body,
                            f.is_async,
                            f.is_generator,
                        )?;
                        self.emit_closure(child, line);
                        let slot: usize = self.reserve_local(name, line);
                        self.set_slot(slot, line);
                        self.op(OpCode::Pop, line);
                    }
                }
            }
            i = i + 1;
        }
        Ok(())
    }

    /// Compile each statement of a function body, except the functions already hoisted.
    pub(crate) fn compile_body_statements(
        &mut self,
        fuel: u32,
        hoisted: &Vec<StringId>,
        stmts: &'p Vec<Statement>,
    ) -> (done: Result<(), String>)
        requires
            old(self).st().good(),
        ensures
            steps::outcome(
                done,
                final(self).st(),
                old(self).st().compile_body_statements(fuel as nat, hoisted@, stmts, 0),
            ),
            done is Ok ==> final(self).st().depths() == old(self).st().depths(),
            final(self).st().good(),
            final(self).st().base == old(self).st().base,
        decreases fuel, stmts, stmts@.len() as int,
    {
        let mut i: usize = 0;
        while i < stmts.len()
            invariant
                i <= stmts@.len(),
                self.st().good(),
                self.st().depths() == old(self).st().depths(),
                self.st().base == old(self).st().base,
                self.st().compile_body_statements(
                    fuel as nat,
                    hoisted@,
                    stmts,
                    i as int,
                ) == old(self).st().compile_body_statements(fuel as nat, hoisted@, stmts, 0),
            decreases stmts@.len() - i,
        {
            let stmt = &stmts[i];
            assert(decreases_to!(stmts => stmts[i as int]));
            if let Statement::Function(f) = stmt {
                if let Some(name) = f.id {
                    if has_name(hoisted, name) {
                        i = i + 1;
                        continue;
                    }
                }
            }
            self.compile_statement(fuel, stmt)?;
            i = i + 1;
        }
        Ok(())
    }

    /// The chunk of a function with its flags and the names it binds. Functions inherit strict
    /// mode, declare it, or have it from a class body. Those with parameter expressions bind
    /// `arguments` in the parameter scope.
    pub(crate) fn function_chunk(
        &mut self,
        name: StringId,
        params: &'p Vec<Pattern>,
        body: &'p Vec<Statement>,
        is_async: bool,
        is_generator: bool,
    ) -> (value: Chunk)
        requires
            old(self).st().good(),
        ensures
            (final(self).st(), value@) == old(self).st().function_chunk(
                name,
                params,
                body,
                is_async,
                is_generator,
            ),
            final(self).st().depths() == old(self).st().depths(),
            final(self).st().good(),
            final(self).st().base == old(self).st().base,
            value@.sound(),
    {
        let source: StringId = self.source_name();
        let strict: bool = self.has_flag(FLAG_STRICT)
            || self.has_use_strict_directive(body)
            || self.in_class();
        let names: Vec<StringId> = collect_param_names(params);
        let lexicals: Vec<StringId> = collect_body_lexical_names(body);
        let flags: ChunkFlags = function_flags(is_async, is_generator, strict);
        if has_param_exprs(params) {
            let arguments_id: StringId = self.intern("arguments");
            return child_chunk(
                name,
                source,
                params.len() as u16,
                formal_length(params),
                flags,
                with_name(names, arguments_id),
                lexicals,
                false,
            );
        } else {
            return child_chunk(
                name,
                source,
                params.len() as u16,
                formal_length(params),
                flags,
                names,
                lexicals,
                true,
            );
        }
    }

    /// The chunk of a static block.
    pub(crate) fn static_chunk(
        &mut self,
        name: StringId,
        body: &'p Vec<Statement>,
    ) -> (value: Chunk)
        requires
            old(self).st().good(),
        ensures
            (final(self).st(), value@) == old(self).st().static_chunk(name, body),
            final(self).st().depths() == old(self).st().depths(),
            final(self).st().good(),
            final(self).st().base == old(self).st().base,
            value@.sound(),
    {
        let source: StringId = self.source_name();
        let strict: bool = self.has_flag(FLAG_STRICT)
            || self.has_use_strict_directive(body)
            || self.in_class();
        let lexicals: Vec<StringId> = collect_body_lexical_names(body);
        let names: Vec<StringId> = no_names();
        return child_chunk(
            name,
            source,
            0,
            0,
            function_flags(false, false, strict),
            names,
            lexicals,
            true,
        );
    }

    /// The chunk of an arrow function. Arrow functions have no `arguments` of their own.
    pub(crate) fn arrow_chunk(
        &mut self,
        params: &'p Vec<Pattern>,
        body: &'p ArrowBody,
        is_async: bool,
    ) -> (value: Chunk)
        requires
            old(self).st().good(),
        ensures
            (final(self).st(), value@) == old(self).st().arrow_chunk(params, body, is_async),
            final(self).st().depths() == old(self).st().depths(),
            final(self).st().good(),
            final(self).st().base == old(self).st().base,
            value@.sound(),
    {
        let source: StringId = self.source_name();
        let arrow_name: StringId = self.intern("<arrow>");
        let names: Vec<StringId> = collect_param_names(params);
        let simple: bool = !has_param_exprs(params);
        match body {
            ArrowBody::Block(b) => {
                let strict: bool = self.has_flag(FLAG_STRICT)
                    || self.in_class()
                    || self.has_use_strict_directive(&b.body);
                let lexicals: Vec<StringId> = collect_body_lexical_names(&b.body);
                return child_chunk(
                    arrow_name,
                    source,
                    params.len() as u16,
                    formal_length(params),
                    arrow_flags(is_async, strict),
                    names,
                    lexicals,
                    simple,
                );
            },
            ArrowBody::Expression(_) => {
                let strict: bool = self.has_flag(FLAG_STRICT) || self.in_class();
                let lexicals: Vec<StringId> = no_names();
                return child_chunk(
                    arrow_name,
                    source,
                    params.len() as u16,
                    formal_length(params),
                    arrow_flags(is_async, strict),
                    names,
                    lexicals,
                    simple,
                );
            },
        }
    }

    /// Compile a function body into a chunk of its own.
    pub(crate) fn compile_function_body(
        &mut self,
        fuel: u32,
        name: StringId,
        params: &'p Vec<Pattern>,
        body: &'p BlockStatement,
        is_async: bool,
        is_generator: bool,
    ) -> (done: Result<Chunk, String>)
        requires
            old(self).st().good(),
        ensures
            match old(self).st().compile_function_body(
                fuel as nat,
                name,
                params,
                body,
                is_async,
                is_generator,
            ) {
                Ok((st, v)) => final(self).st() == st && done is Ok && done->Ok_0@ == v,
                Err(e) => done is Err && e.explains(done->Err_0@, final(self).st().table),
            },
            done is Ok ==> final(self).st().depths() == old(self).st().depths(),
            final(self).st().good(),
            final(self).st().base == old(self).st().base,
            done matches Ok(chunk) ==> chunk@.sound(),
        decreases fuel, body, 10int,
    {
        let compiled: Chunk = self.compile_function_body_with_self(
            fuel,
            name,
            params,
            body,
            is_async,
            is_generator,
            None,
        )?;
        return Ok(compiled);
    }

    /// Compile a static block into a chunk of its own.
    pub(crate) fn compile_static_block(
        &mut self,
        fuel: u32,
        name: StringId,
        body: &'p BlockStatement,
    ) -> (done: Result<Chunk, String>)
        requires
            old(self).st().good(),
        ensures
            match old(self).st().compile_static_block(fuel as nat, name, body) {
                Ok((st, v)) => final(self).st() == st && done is Ok && done->Ok_0@ == v,
                Err(e) => done is Err && e.explains(done->Err_0@, final(self).st().table),
            },
            done is Ok ==> final(self).st().depths() == old(self).st().depths(),
            final(self).st().good(),
            final(self).st().base == old(self).st().base,
            done matches Ok(chunk) ==> chunk@.sound(),
        decreases fuel, body, 10int,
    {
        let child: Chunk = self.static_chunk(name, &body.body);
        let saved: SavedFrame<'p> = self.enter_function(child);
        self.hoist_body_vars(&body.body);
        let arguments_id: StringId = self.intern("arguments");
        if hoists_functions(&body.body) {
            self.reserve_lexicals(&body.body);
            self.reserve_block_functions(arguments_id, &body.body);
            self.define_block_functions(fuel, arguments_id, &body.body)?;
        }
        let hoisted: Vec<StringId> = collect_block_hoisted(&body.body, arguments_id);
        self.compile_body_statements(fuel, &hoisted, &body.body)?;
        let line: u32 = self.current_line();
        self.op(OpCode::ReturnUndefined, line);
        self.finish_chunk();
        let compiled: Chunk = self.leave_function(saved);
        if compiled.jump_overflow {
            let message: String = self.message_around(
                "function '",
                compiled.name,
                "' too large: a jump offset exceeded the i16 encoding",
            );
            return Err(message);
        }
        return Ok(compiled);
    }

    /// Reserve a slot for each function that a static block hoists.
    pub(crate) fn reserve_block_functions(
        &mut self,
        arguments_id: StringId,
        stmts: &'p Vec<Statement>,
    )
        requires
            old(self).st().good(),
        ensures
            final(self).st() == old(self).st().reserve_block_functions(arguments_id, stmts, 0),
            final(self).st().depths() == old(self).st().depths(),
            final(self).st().good(),
            final(self).st().base == old(self).st().base,
    {
        let mut i: usize = 0;
        while i < stmts.len()
            invariant
                i <= stmts@.len(),
                self.st().good(),
                self.st().depths() == old(self).st().depths(),
                self.st().base == old(self).st().base,
                self.st().reserve_block_functions(
                    arguments_id,
                    stmts,
                    i as int,
                ) == old(self).st().reserve_block_functions(arguments_id, stmts, 0),
            decreases stmts@.len() - i,
        {
            let stmt = &stmts[i];
            if let Statement::Function(f) = stmt {
                if let Some(name) = f.id {
                    if name != arguments_id {
                        let slot: usize = self.reserve_local(name, f.span.start);
                    }
                }
            }
            i = i + 1;
        }
    }

    /// Compile each function that a static block hoists into its slot.
    pub(crate) fn define_block_functions(
        &mut self,
        fuel: u32,
        arguments_id: StringId,
        stmts: &'p Vec<Statement>,
    ) -> (done: Result<(), String>)
        requires
            old(self).st().good(),
        ensures
            steps::outcome(
                done,
                final(self).st(),
                old(self).st().define_block_functions(fuel as nat, arguments_id, stmts, 0),
            ),
            done is Ok ==> final(self).st().depths() == old(self).st().depths(),
            final(self).st().good(),
            final(self).st().base == old(self).st().base,
        decreases fuel, stmts, stmts@.len() as int,
    {
        let mut i: usize = 0;
        while i < stmts.len()
            invariant
                i <= stmts@.len(),
                self.st().good(),
                self.st().depths() == old(self).st().depths(),
                self.st().base == old(self).st().base,
                self.st().define_block_functions(
                    fuel as nat,
                    arguments_id,
                    stmts,
                    i as int,
                ) == old(self).st().define_block_functions(fuel as nat, arguments_id, stmts, 0),
            decreases stmts@.len() - i,
        {
            let stmt = &stmts[i];
            assert(decreases_to!(stmts => stmts[i as int]));
            if let Statement::Function(f) = stmt {
                if let Some(name) = f.id {
                    if name != arguments_id {
                        let line: u32 = f.span.start;
                        let child: Chunk = self.compile_function_body(
                            fuel,
                            name,
                            &f.params,
                            &f.body,
                            f.is_async,
                            f.is_generator,
                        )?;
                        self.emit_closure(child, line);
                        let slot: usize = self.reserve_local(name, line);
                        self.set_slot(slot, line);
                        self.op(OpCode::Pop, line);
                    }
                }
            }
            i = i + 1;
        }
        Ok(())
    }

    /// Compile a function body into a chunk of its own; a named function expression can
    /// refer to itself by `self_binding`.
    pub(crate) fn compile_function_body_with_self(
        &mut self,
        fuel: u32,
        name: StringId,
        params: &'p Vec<Pattern>,
        body: &'p BlockStatement,
        is_async: bool,
        is_generator: bool,
        self_binding: Option<StringId>,
    ) -> (done: Result<Chunk, String>)
        requires
            old(self).st().good(),
        ensures
            match old(self).st().compile_function_body_with_self(
                fuel as nat,
                name,
                params,
                body,
                is_async,
                is_generator,
                self_binding,
            ) {
                Ok((st, v)) => final(self).st() == st && done is Ok && done->Ok_0@ == v,
                Err(e) => done is Err && e.explains(done->Err_0@, final(self).st().table),
            },
            done is Ok ==> final(self).st().depths() == old(self).st().depths(),
            final(self).st().good(),
            final(self).st().base == old(self).st().base,
            done matches Ok(chunk) ==> chunk@.sound(),
        decreases fuel, body, 9int,
    {
        let child: Chunk = self.function_chunk(name, params, &body.body, is_async, is_generator);
        let saved: SavedFrame<'p> = self.enter_function(child);
        self.declare_params(params);
        if fuel == 0 {
            return Err(too_deep());
        }
        self.compile_params(fuel - 1, params)?;
        self.hoist_body_vars(&body.body);
        match self_binding {
            Some(self_name) => {
                if self.resolve_local(self_name).is_none() {
                    self.op(OpCode::LoadCallee, 0);
                    self.declare_local(self_name);
                    self.mark_self_name();
                }
            },
            None => {},
        }
        self.hoist_body_functions(fuel, &body.body, params)?;
        let arguments_id: StringId = self.intern("arguments");
        let hoisted: Vec<StringId> = collect_hoisted(&body.body, params, arguments_id);
        if is_generator {
            self.op(OpCode::CreateGenerator, 0);
        }
        self.compile_body_statements(fuel, &hoisted, &body.body)?;
        let line: u32 = self.current_line();
        self.op(OpCode::ReturnUndefined, line);
        self.finish_chunk();
        let compiled: Chunk = self.leave_function(saved);
        if compiled.jump_overflow {
            let message: String = self.message_around(
                "function '",
                compiled.name,
                "' too large: a jump offset exceeded the i16 encoding",
            );
            return Err(message);
        }
        return Ok(compiled);
    }

    /// Declare a local for each parameter; one that is no plain identifier gets a placeholder
    /// name.
    pub(crate) fn declare_params(&mut self, params: &'p Vec<Pattern>)
        requires
            old(self).st().good(),
        ensures
            final(self).st() == old(self).st().declare_params(params, 0),
            final(self).st().depths() == old(self).st().depths(),
            final(self).st().good(),
            final(self).st().base == old(self).st().base,
    {
        let mut i: usize = 0;
        while i < params.len()
            invariant
                i <= params@.len(),
                self.st().good(),
                self.st().depths() == old(self).st().depths(),
                self.st().base == old(self).st().base,
                self.st().declare_params(
                    params,
                    i as int,
                ) == old(self).st().declare_params(params, 0),
            decreases params@.len() - i,
        {
            let param = &params[i];
            match param_name(param) {
                Some(name) => {
                    self.declare_local(name);
                },
                None => {
                    let anon: StringId = self.intern_param(i as usize);
                    self.declare_local(anon);
                },
            }
            i = i + 1;
        }
    }

    /// Compile what the parameters of a function do on entry: defaults, rest parameters, and
    /// destructuring, in this order.
    pub(crate) fn compile_params(
        &mut self,
        fuel: u32,
        params: &'p Vec<Pattern>,
    ) -> (done: Result<(), String>)
        requires
            old(self).st().good(),
        ensures
            steps::outcome(
                done,
                final(self).st(),
                old(self).st().compile_params(fuel as nat, params),
            ),
            done is Ok ==> final(self).st().depths() == old(self).st().depths(),
            final(self).st().good(),
            final(self).st().base == old(self).st().base,
        decreases fuel, params, params@.len() as int + 1,
    {
        self.compile_param_defaults(fuel, params)?;
        self.collect_rest_params(params);
        self.destructure_params(fuel, params)?;
        Ok(())
    }

    /// Compile the default of each parameter that has one.
    pub(crate) fn compile_param_defaults(
        &mut self,
        fuel: u32,
        params: &'p Vec<Pattern>,
    ) -> (done: Result<(), String>)
        requires
            old(self).st().good(),
        ensures
            steps::outcome(
                done,
                final(self).st(),
                old(self).st().compile_param_defaults(fuel as nat, params, 0),
            ),
            done is Ok ==> final(self).st().depths() == old(self).st().depths(),
            final(self).st().good(),
            final(self).st().base == old(self).st().base,
        decreases fuel, params, params@.len() as int,
    {
        let mut i: usize = 0;
        while i < params.len()
            invariant
                i <= params@.len(),
                self.st().good(),
                self.st().depths() == old(self).st().depths(),
                self.st().base == old(self).st().base,
                self.st().compile_param_defaults(
                    fuel as nat,
                    params,
                    i as int,
                ) == old(self).st().compile_param_defaults(fuel as nat, params, 0),
            decreases params@.len() - i,
        {
            let param = &params[i];
            assert(decreases_to!(params => params[i as int]));
            if let Pattern::Assignment(a) = param {
                self.op(OpCode::GetLocal, 0);
                self.raw(i as u8);
                self.op(OpCode::Undefined, 0);
                self.op(OpCode::StrictNe, 0);
                let jump_idx: usize = self.here();
                self.op(OpCode::JumpIfTrue, 0);
                self.raw16(0);
                self.op(OpCode::BeginParamExpr, 0);
                self.begin_default(i as usize, params.len());
                self.compile_expr(fuel, &a.right)?;
                self.end_default();
                self.op(OpCode::EndParamExpr, 0);
                self.op(OpCode::SetLocal, 0);
                self.raw(i as u8);
                self.op(OpCode::Pop, 0);
                self.patch_short(jump_idx);
            }
            i = i + 1;
        }
        Ok(())
    }

    /// Collect the remaining arguments for each rest parameter.
    pub(crate) fn collect_rest_params(&mut self, params: &'p Vec<Pattern>)
        requires
            old(self).st().good(),
        ensures
            final(self).st() == old(self).st().collect_rest_params(params, 0),
            final(self).st().depths() == old(self).st().depths(),
            final(self).st().good(),
            final(self).st().base == old(self).st().base,
    {
        let mut i: usize = 0;
        while i < params.len()
            invariant
                i <= params@.len(),
                self.st().good(),
                self.st().depths() == old(self).st().depths(),
                self.st().base == old(self).st().base,
                self.st().collect_rest_params(
                    params,
                    i as int,
                ) == old(self).st().collect_rest_params(params, 0),
            decreases params@.len() - i,
        {
            let param = &params[i];
            if let Pattern::Rest(r) = param {
                if let Pattern::Identifier(_) = &r.argument {
                    self.byte(OpCode::CollectRest.to_byte(), 0);
                    self.raw(i as u8);
                    self.raw(i as u8);
                }
            }
            i = i + 1;
        }
    }

    /// Destructure each parameter that is a pattern.
    pub(crate) fn destructure_params(
        &mut self,
        fuel: u32,
        params: &'p Vec<Pattern>,
    ) -> (done: Result<(), String>)
        requires
            old(self).st().good(),
        ensures
            steps::outcome(
                done,
                final(self).st(),
                old(self).st().destructure_params(fuel as nat, params, 0),
            ),
            done is Ok ==> final(self).st().depths() == old(self).st().depths(),
            final(self).st().good(),
            final(self).st().base == old(self).st().base,
        decreases fuel, params, params@.len() as int,
    {
        let mut i: usize = 0;
        while i < params.len()
            invariant
                i <= params@.len(),
                self.st().good(),
                self.st().depths() == old(self).st().depths(),
                self.st().base == old(self).st().base,
                self.st().destructure_params(
                    fuel as nat,
                    params,
                    i as int,
                ) == old(self).st().destructure_params(fuel as nat, params, 0),
            decreases params@.len() - i,
        {
            let param = &params[i];
            assert(decreases_to!(params => params[i as int]));
            match param {
                Pattern::Array(_) => {
                    self.destructure_pattern_from_slot(fuel, param, i as u8, 0)?;
                },
                Pattern::Object(_) => {
                    self.destructure_pattern_from_slot(fuel, param, i as u8, 0)?;
                },
                Pattern::Assignment(a) => {
                    self.destructure_pattern_from_slot(fuel, &a.left, i as u8, 0)?;
                },
                _ => {},
            }
            i = i + 1;
        }
        Ok(())
    }

    /// Compile the body of an arrow function into a chunk of its own.
    pub(crate) fn compile_arrow_body(
        &mut self,
        fuel: u32,
        params: &'p Vec<Pattern>,
        body: &'p ArrowBody,
        is_async: bool,
    ) -> (done: Result<Chunk, String>)
        requires
            old(self).st().good(),
        ensures
            match old(self).st().compile_arrow_body(fuel as nat, params, body, is_async) {
                Ok((st, v)) => final(self).st() == st && done is Ok && done->Ok_0@ == v,
                Err(e) => done is Err && e.explains(done->Err_0@, final(self).st().table),
            },
            done is Ok ==> final(self).st().depths() == old(self).st().depths(),
            final(self).st().good(),
            final(self).st().base == old(self).st().base,
            done matches Ok(chunk) ==> chunk@.sound(),
        decreases fuel, body, 9int,
    {
        let child: Chunk = self.arrow_chunk(params, body, is_async);
        let saved: SavedFrame<'p> = self.enter_function(child);
        self.declare_params(params);
        if fuel == 0 {
            return Err(too_deep());
        }
        self.compile_params(fuel - 1, params)?;
        match body {
            ArrowBody::Expression(expr) => {
                self.compile_expr(fuel, expr)?;
                let line: u32 = self.current_line();
                self.op(OpCode::Return, line);
            },
            ArrowBody::Block(block) => {
                self.hoist_body_vars(&block.body);
                self.hoist_body_functions(fuel, &block.body, params)?;
                let arguments_id: StringId = self.intern("arguments");
                let hoisted: Vec<StringId> = collect_hoisted(&block.body, params, arguments_id);
                self.compile_body_statements(fuel, &hoisted, &block.body)?;
                let line: u32 = self.current_line();
                self.op(OpCode::ReturnUndefined, line);
            },
        }
        self.finish_chunk();
        let compiled: Chunk = self.leave_function(saved);
        if compiled.jump_overflow {
            let message: String = self.message_around(
                "function '",
                compiled.name,
                "' too large: a jump offset exceeded the i16 encoding",
            );
            return Err(message);
        }
        return Ok(compiled);
    }

    /// Compile a function expression.
    pub(crate) fn compile_function_expr(
        &mut self,
        fuel: u32,
        f: &'p FunctionExpression,
    ) -> (done: Result<(), String>)
        requires
            old(self).st().good(),
        ensures
            steps::outcome(
                done,
                final(self).st(),
                old(self).st().compile_function_expr(fuel as nat, f),
            ),
            done is Ok ==> final(self).st().depths() == old(self).st().depths(),
            final(self).st().good(),
            final(self).st().base == old(self).st().base,
        decreases fuel, f, 0int,
    {
        let name: StringId = self.function_name(f.id);
        let child: Chunk = self.compile_function_body_with_self(
            fuel,
            name,
            &f.params,
            &f.body,
            f.is_async,
            f.is_generator,
            f.id,
        )?;
        self.emit_closure(child, f.span.start);
        Ok(())
    }

    /// The name of a function expression: its own, the one pending, or the placeholder.
    pub(crate) fn function_name(&mut self, id: Option<StringId>) -> (value: StringId)
        requires
            old(self).st().good(),
        ensures
            (final(self).st(), value) == old(self).st().function_name(id),
            final(self).st().depths() == old(self).st().depths(),
            final(self).st().good(),
            final(self).st().base == old(self).st().base,
    {
        match id {
            Some(name) => {
                return name;
            },
            None => {
                let pending: Option<StringId> = self.take_pending_name();
                let name: StringId = self.declared_name(pending);
                return name;
            },
        }
    }

    /// Compile an arrow function expression.
    pub(crate) fn compile_arrow_expr(
        &mut self,
        fuel: u32,
        a: &'p ArrowFunctionExpression,
    ) -> (done: Result<(), String>)
        requires
            old(self).st().good(),
        ensures
            steps::outcome(
                done,
                final(self).st(),
                old(self).st().compile_arrow_expr(fuel as nat, a),
            ),
            done is Ok ==> final(self).st().depths() == old(self).st().depths(),
            final(self).st().good(),
            final(self).st().base == old(self).st().base,
        decreases fuel, a, 0int,
    {
        let name_hint: Option<StringId> = self.take_pending_name();
        let child: Chunk = self.compile_arrow_body(fuel, &a.params, &a.body, a.is_async)?;
        let named: Chunk = renamed_chunk(child, name_hint);
        self.emit_closure(named, a.span.start);
        Ok(())
    }

    /// Compile a class expression.
    pub(crate) fn compile_class_expr(
        &mut self,
        fuel: u32,
        c: &'p ClassExpression,
    ) -> (done: Result<(), String>)
        requires
            old(self).st().good(),
        ensures
            steps::outcome(
                done,
                final(self).st(),
                old(self).st().compile_class_expr(fuel as nat, c),
            ),
            done is Ok ==> final(self).st().depths() == old(self).st().depths(),
            final(self).st().good(),
            final(self).st().base == old(self).st().base,
        decreases fuel, c, 0int,
    {
        let line: u32 = c.span.start;
        let name: StringId = self.class_name(c.id);
        self.op_name(OpCode::Class, name, line);
        self.compile_heritage(fuel, &c.super_class, line)?;
        self.compile_class_body(fuel, &c.body, line)?;
        Ok(())
    }

    /// The name of a class expression: its own, the one pending, or the empty one.
    pub(crate) fn class_name(&mut self, id: Option<StringId>) -> (value: StringId)
        requires
            old(self).st().good(),
        ensures
            (final(self).st(), value) == old(self).st().class_name(id),
            final(self).st().depths() == old(self).st().depths(),
            final(self).st().good(),
            final(self).st().base == old(self).st().base,
    {
        match id {
            Some(name) => {
                return name;
            },
            None => {
                let pending: Option<StringId> = self.take_pending_name();
                match pending {
                    Some(name) => {
                        return name;
                    },
                    None => {
                        return StringId(0);
                    },
                }
            },
        }
    }
}

} // verus!
