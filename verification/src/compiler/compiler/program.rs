//! Scripts and modules.

use vstd::prelude::*;
use crate::ast::node::{Program, SourceType, Statement};
use crate::compiler::names;
use crate::compiler::chunk::{Chunk, FLAG_MODULE, FLAG_SCRIPT, FLAG_STRICT};
use crate::compiler::compiler::{Compiler, steps};
use crate::compiler::compiler::state::{CState, Failure};
use crate::compiler::compiler::steps::plain_message;
use crate::compiler::names::{collect_function_names, collect_program_var_names};
use crate::compiler::opcode::OpCode;
use crate::util::interner::StringId;

verus! {

impl<'p> CState<'p> {
    /// Define each hoisted `var` of a script as an undefined global.
    pub open spec fn define_hoisted(self, names: Seq<StringId>, i: int) -> CState<'p>
        decreases names.len() - i,
    {
        let st = self;
        if i < 0 || i >= names.len() {
            st
        } else {
            let name = names[i];
            let (st, idx) = st.make_string_constant(name);
            let st = st.op(OpCode::Undefined, 0);
            let st = st.op_u16(OpCode::DefineGlobal, idx, 0);
            st.define_hoisted(names, i + 1)
        }
    }

    /// Compile the function declarations at the top level of a script and define each as a
    /// global.
    pub open spec fn define_top_functions(
        self,
        fuel: nat,
        stmts: &'p Vec<Statement>,
        i: int,
    ) -> Result<CState<'p>, Failure>
        decreases fuel, stmts, stmts@.len() - i,
    {
        let st = self;
        if i < 0 || i >= stmts@.len() {
            Ok(st)
        } else {
            let stmt = &stmts@[i];
            if let Statement::Function(f) = stmt {
                if let Some(name) = f.id {
                    let line: u32 = f.span.start;
                    match st.compile_function_body(
                        fuel,
                        name,
                        &f.params,
                        &f.body,
                        f.is_async,
                        f.is_generator,
                    ) {
                        Err(e) => Err(e),
                        Ok((st, child)) => {
                            let st = st.emit_closure(child, line);
                            let st = st.op_name(OpCode::DefineGlobal, name, line);
                            st.define_top_functions(fuel, stmts, i + 1)
                        },
                    }
                } else {
                    st.define_top_functions(fuel, stmts, i + 1)
                }
            } else {
                st.define_top_functions(fuel, stmts, i + 1)
            }
        }
    }

    /// Compile a script or module. Top-level functions are hoisted with their closures, `var`
    /// names as undefined. A value-producing statement updates the completion register, which
    /// the final Halt returns.
    pub open spec fn compile_top_level(
        self,
        fuel: nat,
        program: &'p Program,
    ) -> Result<CState<'p>, Failure>
        decreases fuel, program, 0int,
    {
        let st = self;
        let st = st.add_flag(FLAG_SCRIPT);
        let st = if program.source_type == SourceType::Module {
            let st = st.add_flag(FLAG_MODULE);
            st.add_flag(FLAG_STRICT)
        } else {
            st
        };
        let st = if st.has_use_strict_directive(&program.body) {
            st.add_flag(FLAG_STRICT)
        } else {
            st
        };
        let hoisted: Seq<StringId> = names::program_var_names(program.body@);
        let st = st.define_hoisted(hoisted, 0);
        match st.define_top_functions(fuel, &program.body, 0) {
            Err(e) => Err(e),
            Ok(st) => {
                let functions: Seq<StringId> = names::function_names(program.body@);
                match st.compile_body_statements(fuel, functions, &program.body, 0) {
                    Err(e) => Err(e),
                    Ok(st) => {
                        let line: u32 = st.current_line();
                        let st = st.op(OpCode::Halt, line);
                        let st = st.finish_script();
                        if st.overflowed() {
                            Err(
                                st.failing(
                                    steps::plain_message_text(
                                        "script too large: a jump offset exceeded the i16 encoding"@,
                                    ),
                                ),
                            )
                        } else {
                            Ok(st)
                        }
                    },
                }
            },
        }
    }
}

impl<'p> Compiler<'p> {
    /// Define each hoisted `var` of a script as an undefined global.
    pub(crate) fn define_hoisted(&mut self, names: &Vec<StringId>)
        requires
            old(self).st().good(),
        ensures
            final(self).st() == old(self).st().define_hoisted(names@, 0),
            final(self).st().depths() == old(self).st().depths(),
            final(self).st().good(),
            final(self).st().base == old(self).st().base,
    {
        let mut i: usize = 0;
        while i < names.len()
            invariant
                i <= names@.len(),
                self.st().good(),
                self.st().depths() == old(self).st().depths(),
                self.st().base == old(self).st().base,
                self.st().define_hoisted(
                    names@,
                    i as int,
                ) == old(self).st().define_hoisted(names@, 0),
            decreases names@.len() - i,
        {
            let name = names[i];
            let idx: u16 = self.make_string_constant(name);
            self.op(OpCode::Undefined, 0);
            self.op_u16(OpCode::DefineGlobal, idx, 0);
            i = i + 1;
        }
    }

    /// Compile the function declarations at the top level of a script and define each as a
    /// global.
    pub(crate) fn define_top_functions(
        &mut self,
        fuel: u32,
        stmts: &'p Vec<Statement>,
    ) -> (done: Result<(), String>)
        requires
            old(self).st().good(),
        ensures
            steps::outcome(
                done,
                final(self).st(),
                old(self).st().define_top_functions(fuel as nat, stmts, 0),
            ),
            done is Ok ==> final(self).st().depths() == old(self).st().depths(),
            final(self).st().good(),
            final(self).st().base == old(self).st().base,
        decreases fuel, stmts, stmts@.len() as int,
    {
        let mut i: usize = 0;
        while i < stmts.len()
            invariant
                i <= stmts@.len(),
                self.st().good(),
                self.st().depths() == old(self).st().depths(),
                self.st().base == old(self).st().base,
                self.st().define_top_functions(
                    fuel as nat,
                    stmts,
                    i as int,
                ) == old(self).st().define_top_functions(fuel as nat, stmts, 0),
            decreases stmts@.len() - i,
        {
            let stmt = &stmts[i];
            assert(decreases_to!(stmts => stmts[i as int]));
            if let Statement::Function(f) = stmt {
                if let Some(name) = f.id {
                    let line: u32 = f.span.start;
                    let child: Chunk = self.compile_function_body(
                        fuel,
                        name,
                        &f.params,
                        &f.body,
                        f.is_async,
                        f.is_generator,
                    )?;
                    self.emit_closure(child, line);
                    self.op_name(OpCode::DefineGlobal, name, line);
                }
            }
            i = i + 1;
        }
        Ok(())
    }

    /// Compile a script or module. Top-level functions are hoisted with their closures, `var`
    /// names as undefined. A value-producing statement updates the completion register, which
    /// the final Halt returns.
    pub(crate) fn compile_top_level(
        &mut self,
        fuel: u32,
        program: &'p Program,
    ) -> (done: Result<(), String>)
        requires
            old(self).st().good(),
        ensures
            steps::outcome(
                done,
                final(self).st(),
                old(self).st().compile_top_level(fuel as nat, program),
            ),
            done is Ok ==> final(self).st().depths() == old(self).st().depths(),
            final(self).st().good(),
            final(self).st().base == old(self).st().base,
        decreases fuel, program, 0int,
    {
        self.add_flag(FLAG_SCRIPT);
        if program.source_type == SourceType::Module {
            self.add_flag(FLAG_MODULE);
            self.add_flag(FLAG_STRICT);
        }
        if self.has_use_strict_directive(&program.body) {
            self.add_flag(FLAG_STRICT);
        }
        let hoisted: Vec<StringId> = collect_program_var_names(&program.body);
        self.define_hoisted(&hoisted);
        self.define_top_functions(fuel, &program.body)?;
        let functions: Vec<StringId> = collect_function_names(&program.body);
        self.compile_body_statements(fuel, &functions, &program.body)?;
        let line: u32 = self.current_line();
        self.op(OpCode::Halt, line);
        self.finish_script();
        if self.overflowed() {
            return Err(plain_message("script too large: a jump offset exceeded the i16 encoding"));
        }
        Ok(())
    }
}

} // verus!
