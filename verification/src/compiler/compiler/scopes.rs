//! Variable access: locals, upvalues and globals, and the guards emitted around them
//! inside `with` bodies.

use vstd::prelude::*;
use crate::compiler::chunk::{FLAG_ARROW, FLAG_SCRIPT, FLAG_STRICT};
use crate::compiler::compiler::{Compiler, steps};
use crate::compiler::compiler::state::{CState, Failure};
use crate::compiler::compiler::steps::restricted_name;
use crate::compiler::opcode::OpCode;
use crate::util::interner::StringId;

verus! {

impl<'p> CState<'p> {
    /// Push the local in a slot.
    pub open spec fn get_slot(self, slot: usize, line: u32) -> CState<'p>
    {
        let st = self;
        if slot <= 255 {
            st.op_u8(OpCode::GetLocal, slot as u8, line)
        } else {
            st.op_u16(OpCode::GetLocalWide, slot as u16, line)
        }
    }

    /// Assign the local in a slot.
    pub open spec fn set_slot(self, slot: usize, line: u32) -> CState<'p>
    {
        let st = self;
        if slot <= 255 {
            st.op_u8(OpCode::SetLocal, slot as u8, line)
        } else {
            st.op_u16(OpCode::SetLocalWide, slot as u16, line)
        }
    }

    /// Push an upvalue.
    pub open spec fn get_upvalue(self, index: u16, line: u32) -> CState<'p>
    {
        let st = self;
        if index <= 255 {
            st.op_u8(OpCode::GetUpvalue, index as u8, line)
        } else {
            st.op_u16(OpCode::GetUpvalueWide, index, line)
        }
    }

    /// Assign an upvalue.
    pub open spec fn set_upvalue(self, index: u16, line: u32) -> CState<'p>
    {
        let st = self;
        if index <= 255 {
            st.op_u8(OpCode::SetUpvalue, index as u8, line)
        } else {
            st.op_u16(OpCode::SetUpvalueWide, index, line)
        }
    }

    /// Emit an opcode whose operand is a name constant.
    pub open spec fn op_name(self, op: OpCode, name: StringId, line: u32) -> CState<'p>
    {
        let st = self;
        let (st, idx) = st.make_string_constant(name);
        st.op_u16(op, idx, line)
    }

    /// Declare a local that holds a value from the start.
    pub open spec fn declare_local(self, name: StringId) -> CState<'p>
    {
        let st = self;
        let st = st.add_local(name);
        st.mark_initialized()
    }

    /// At script level, reset the completion register to `undefined`.
    pub open spec fn emit_completion_reset(self, line: u32) -> CState<'p>
    {
        let st = self;
        if st.has_flag(FLAG_SCRIPT) {
            let st = st.op(OpCode::Undefined, line);
            st.op(OpCode::SetCompletion, line)
        } else {
            st
        }
    }

    /// Emit code that pops the current stack value and throws a TypeError with a message.
    pub open spec fn emit_throw_type_error(self, msg: Seq<char>, line: u32) -> CState<'p>
    {
        let st = self;
        let st = st.op(OpCode::Pop, line);
        let (st, te_name) = st.intern("TypeError"@);
        let st = st.op_name(OpCode::GetGlobal, te_name, line);
        let (st, msg_id) = st.intern(msg);
        let st = st.op_name(OpCode::Const, msg_id, line);
        let st = st.op_u8(OpCode::Construct, 1, line);
        st.op(OpCode::Throw, line)
    }

    /// Emit code that pops the current stack value and throws the TypeError of an assignment
    /// to a constant.
    pub open spec fn emit_throw_const_error(self, name: StringId, line: u32) -> CState<'p>
    {
        let st = self;
        let st = st.op(OpCode::Pop, line);
        let (st, te_name) = st.intern("TypeError"@);
        let st = st.op_name(OpCode::GetGlobal, te_name, line);
        let (st, msg_id) = st.intern_around("Assignment to constant variable '"@, name, "'"@);
        let st = st.op_name(OpCode::Const, msg_id, line);
        let st = st.op_u8(OpCode::Construct, 1, line);
        st.op(OpCode::Throw, line)
    }

    /// Emit code that throws the ReferenceError of a binding that has no value yet.
    pub open spec fn emit_throw_reference_error(self, name: StringId, line: u32) -> CState<'p>
    {
        let st = self;
        let (st, re_name) = st.intern("ReferenceError"@);
        let st = st.op_name(OpCode::GetGlobal, re_name, line);
        let (st, msg_id) = st.intern_around("Cannot access '"@, name, "' before initialization"@);
        let st = st.op_name(OpCode::Const, msg_id, line);
        let st = st.op_u8(OpCode::Construct, 1, line);
        st.op(OpCode::Throw, line)
    }

    /// Strict code may not bind or assign the names `eval` and `arguments`.
    pub open spec fn check_strict_restricted(
        self,
        name: StringId,
        what: Seq<char>,
    ) -> Result<CState<'p>, Failure>
    {
        let st = self;
        if st.has_flag(FLAG_STRICT) && (
            st.name_is(name, "eval"@) || st.name_is(name, "arguments"@)
        ) {
            Err(st.failing(steps::restricted_name_text(what)))
        } else {
            Ok(st)
        }
    }

    /// Inside a `with` body, a name that statically resolves to a local or upvalue may still
    /// be shadowed by the `with` object at runtime. Emit a guard before the static access; the
    /// guard handles the name via the object (and jumps over the fallback) when the object
    /// owns the property. The position of the embedded jump offset.
    pub open spec fn emit_with_guard(
        self,
        op: OpCode,
        name: StringId,
        line: u32,
    ) -> (CState<'p>, usize)
    {
        let st = self;
        let st = st.op_name(op, name, line);
        let (st, pos) = st.placeholder(line);
        (st, pos)
    }

    /// True when an identifier assignment target inside a `with` body must be resolved as a
    /// reference before the right-hand side runs. Const bindings are excluded.
    pub open spec fn ident_needs_with_ref(self, name: StringId) -> (CState<'p>, bool)
    {
        let st = self;
        if st.with_level() == 0 {
            (st, false)
        } else {
            match st.resolve_local(name) {
                Some(slot) => (st, !st.local_is_const(slot) && st.local_needs_with_guard(slot)),
                None => {
                    let (st, found) = st.resolve_upvalue(name);
                    (st, found.is_some() || !st.is_const_global(name))
                },
            }
        }
    }

    /// Emit the read for a `with` reference already resolved (stack: [ref] to [ref, value]).
    pub open spec fn compile_get_variable_resolved(self, name: StringId, line: u32) -> CState<'p>
    {
        let st = self;
        let (st, guard) = st.emit_with_guard(OpCode::WithRefGet, name, line);
        let st = match st.resolve_local(name) {
            Some(slot) => st.get_slot(slot, line),
            None => {
                let (st, found) = st.resolve_upvalue(name);
                match found {
                    Some(index) => st.get_upvalue(index, line),
                    None => st.op_name(OpCode::GetGlobal, name, line),
                }
            },
        };
        st.patch(guard)
    }

    /// Emit the store for an assignment whose `with` reference was already resolved
    /// (stack: [ref, value]).
    pub open spec fn compile_set_variable_resolved(self, name: StringId, line: u32) -> CState<'p>
    {
        let st = self;
        let (st, guard) = st.emit_with_guard(OpCode::WithRefSet, name, line);
        let st = match st.resolve_local(name) {
            Some(slot) => st.set_slot(slot, line),
            None => {
                let (st, found) = st.resolve_upvalue(name);
                match found {
                    Some(index) => st.set_upvalue(index, line),
                    None => st.op_name(OpCode::SetGlobal, name, line),
                }
            },
        };
        st.patch(guard)
    }

    /// Emit the read of a variable. In the default of a parameter, the read of a parameter
    /// that has no value yet throws instead.
    pub open spec fn compile_get_variable(self, name: StringId, line: u32) -> CState<'p>
    {
        let st = self;
        if st.param_tdz_violation(name) {
            st.emit_throw_reference_error(name, line)
        } else {
            st.compile_get_bound_variable(name, line)
        }
    }

    /// Emit the read of a variable: local, upvalue or global, with a guard inside a `with`
    /// body. Every non-arrow function has its own `arguments` binding.
    pub open spec fn compile_get_bound_variable(self, name: StringId, line: u32) -> CState<'p>
    {
        let st = self;
        match st.resolve_local(name) {
            Some(slot) => {
                if st.local_needs_with_guard(slot) {
                    let (st, guard) = st.emit_with_guard(OpCode::WithGetCheck, name, line);
                    let st = st.get_slot(slot, line);
                    st.patch(guard)
                } else {
                    st.get_slot(slot, line)
                }
            },
            None => {
                if st.name_is(name, "arguments"@) && !st.has_flag(FLAG_ARROW) {
                    let st = st.note_arguments();
                    st.op_name(OpCode::GetGlobal, name, line)
                } else {
                    let (st, found) = st.resolve_upvalue(name);
                    match found {
                        Some(index) => {
                            if st.with_level() > 0 {
                                let (st, guard) = st.emit_with_guard(
                                    OpCode::WithGetCheck,
                                    name,
                                    line,
                                );
                                let st = st.get_upvalue(index, line);
                                st.patch(guard)
                            } else {
                                st.get_upvalue(index, line)
                            }
                        },
                        None => {
                            let st = if st.name_is(name, "arguments"@) {
                                st.note_arguments()
                            } else {
                                st
                            };
                            st.op_name(OpCode::GetGlobal, name, line)
                        },
                    }
                }
            },
        }
    }

    /// Emit the assignment of a variable. In the default of a parameter, the assignment of a
    /// parameter
    /// that has no value yet throws instead.
    pub open spec fn compile_set_variable(self, name: StringId, line: u32) -> CState<'p>
    {
        let st = self;
        if st.param_tdz_violation(name) {
            st.emit_throw_reference_error(name, line)
        } else {
            st.compile_set_bound_variable(name, line)
        }
    }

    /// Emit the assignment of a variable. The self-binding of a named function expression is
    /// immutable: sloppy assignments are ignored, strict ones throw. Constants throw.
    pub open spec fn compile_set_bound_variable(self, name: StringId, line: u32) -> CState<'p>
    {
        let st = self;
        match st.resolve_local(name) {
            Some(slot) => {
                if st.local_is_self_name(slot) {
                    if st.has_flag(FLAG_STRICT) {
                        st.emit_throw_const_error(name, line)
                    } else {
                        st
                    }
                } else if st.local_is_const(slot) {
                    st.emit_throw_const_error(name, line)
                } else if st.local_needs_with_guard(slot) {
                    let (st, guard) = st.emit_with_guard(OpCode::WithSetCheck, name, line);
                    let st = st.set_slot(slot, line);
                    st.patch(guard)
                } else {
                    st.set_slot(slot, line)
                }
            },
            None => {
                let (st, found) = st.resolve_upvalue(name);
                match found {
                    Some(index) => {
                        if st.captured_self_name(name) {
                            if st.has_flag(FLAG_STRICT) {
                                st.emit_throw_const_error(name, line)
                            } else {
                                st
                            }
                        } else if st.with_level() > 0 {
                            let (st, guard) = st.emit_with_guard(OpCode::WithSetCheck, name, line);
                            let st = st.set_upvalue(index, line);
                            st.patch(guard)
                        } else {
                            st.set_upvalue(index, line)
                        }
                    },
                    None => {
                        if st.is_const_global(name) {
                            st.emit_throw_const_error(name, line)
                        } else {
                            st.op_name(OpCode::SetGlobal, name, line)
                        }
                    },
                }
            },
        }
    }
}

impl<'p> Compiler<'p> {
    /// Push the local in a slot.
    pub(crate) fn get_slot(&mut self, slot: usize, line: u32)
        requires
            old(self).st().good(),
        ensures
            final(self).st() == old(self).st().get_slot(slot, line),
            final(self).st().depths() == old(self).st().depths(),
            final(self).st().good(),
            final(self).st().base == old(self).st().base,
    {
        if slot <= 255 {
            self.op_u8(OpCode::GetLocal, slot as u8, line);
        } else {
            self.op_u16(OpCode::GetLocalWide, slot as u16, line);
        }
    }

    /// Assign the local in a slot.
    pub(crate) fn set_slot(&mut self, slot: usize, line: u32)
        requires
            old(self).st().good(),
        ensures
            final(self).st() == old(self).st().set_slot(slot, line),
            final(self).st().depths() == old(self).st().depths(),
            final(self).st().good(),
            final(self).st().base == old(self).st().base,
    {
        if slot <= 255 {
            self.op_u8(OpCode::SetLocal, slot as u8, line);
        } else {
            self.op_u16(OpCode::SetLocalWide, slot as u16, line);
        }
    }

    /// Push an upvalue.
    pub(crate) fn get_upvalue(&mut self, index: u16, line: u32)
        requires
            old(self).st().good(),
        ensures
            final(self).st() == old(self).st().get_upvalue(index, line),
            final(self).st().depths() == old(self).st().depths(),
            final(self).st().good(),
            final(self).st().base == old(self).st().base,
    {
        if index <= 255 {
            self.op_u8(OpCode::GetUpvalue, index as u8, line);
        } else {
            self.op_u16(OpCode::GetUpvalueWide, index, line);
        }
    }

    /// Assign an upvalue.
    pub(crate) fn set_upvalue(&mut self, index: u16, line: u32)
        requires
            old(self).st().good(),
        ensures
            final(self).st() == old(self).st().set_upvalue(index, line),
            final(self).st().depths() == old(self).st().depths(),
            final(self).st().good(),
            final(self).st().base == old(self).st().base,
    {
        if index <= 255 {
            self.op_u8(OpCode::SetUpvalue, index as u8, line);
        } else {
            self.op_u16(OpCode::SetUpvalueWide, index, line);
        }
    }

    /// Emit an opcode whose operand is a name constant.
    pub(crate) fn op_name(&mut self, op: OpCode, name: StringId, line: u32)
        requires
            old(self).st().good(),
        ensures
            final(self).st() == old(self).st().op_name(op, name, line),
            final(self).st().depths() == old(self).st().depths(),
            final(self).st().good(),
            final(self).st().base == old(self).st().base,
    {
        let idx: u16 = self.make_string_constant(name);
        self.op_u16(op, idx, line);
    }

    /// Declare a local that holds a value from the start.
    pub(crate) fn declare_local(&mut self, name: StringId)
        requires
            old(self).st().good(),
        ensures
            final(self).st() == old(self).st().declare_local(name),
            final(self).st().depths() == old(self).st().depths(),
            final(self).st().good(),
            final(self).st().base == old(self).st().base,
    {
        self.add_local(name);
        self.mark_initialized();
    }

    /// At script level, reset the completion register to `undefined`.
    pub(crate) fn emit_completion_reset(&mut self, line: u32)
        requires
            old(self).st().good(),
        ensures
            final(self).st() == old(self).st().emit_completion_reset(line),
            final(self).st().depths() == old(self).st().depths(),
            final(self).st().good(),
            final(self).st().base == old(self).st().base,
    {
        if self.has_flag(FLAG_SCRIPT) {
            self.op(OpCode::Undefined, line);
            self.op(OpCode::SetCompletion, line);
        }
    }

    /// Emit code that pops the current stack value and throws a TypeError with a message.
    pub(crate) fn emit_throw_type_error(&mut self, msg: &str, line: u32)
        requires
            old(self).st().good(),
        ensures
            final(self).st() == old(self).st().emit_throw_type_error(msg@, line),
            final(self).st().depths() == old(self).st().depths(),
            final(self).st().good(),
            final(self).st().base == old(self).st().base,
    {
        self.op(OpCode::Pop, line);
        let te_name: StringId = self.intern("TypeError");
        self.op_name(OpCode::GetGlobal, te_name, line);
        let msg_id: StringId = self.intern(msg);
        self.op_name(OpCode::Const, msg_id, line);
        self.op_u8(OpCode::Construct, 1, line);
        self.op(OpCode::Throw, line);
    }

    /// Emit code that pops the current stack value and throws the TypeError of an assignment
    /// to a constant.
    pub(crate) fn emit_throw_const_error(&mut self, name: StringId, line: u32)
        requires
            old(self).st().good(),
        ensures
            final(self).st() == old(self).st().emit_throw_const_error(name, line),
            final(self).st().depths() == old(self).st().depths(),
            final(self).st().good(),
            final(self).st().base == old(self).st().base,
    {
        self.op(OpCode::Pop, line);
        let te_name: StringId = self.intern("TypeError");
        self.op_name(OpCode::GetGlobal, te_name, line);
        let msg_id: StringId = self.intern_around("Assignment to constant variable '", name, "'");
        self.op_name(OpCode::Const, msg_id, line);
        self.op_u8(OpCode::Construct, 1, line);
        self.op(OpCode::Throw, line);
    }

    /// Emit code that throws the ReferenceError of a binding that has no value yet.
    pub(crate) fn emit_throw_reference_error(&mut self, name: StringId, line: u32)
        requires
            old(self).st().good(),
        ensures
            final(self).st() == old(self).st().emit_throw_reference_error(name, line),
            final(self).st().depths() == old(self).st().depths(),
            final(self).st().good(),
            final(self).st().base == old(self).st().base,
    {
        let re_name: StringId = self.intern("ReferenceError");
        self.op_name(OpCode::GetGlobal, re_name, line);
        let msg_id: StringId = self.intern_around(
            "Cannot access '",
            name,
            "' before initialization",
        );
        self.op_name(OpCode::Const, msg_id, line);
        self.op_u8(OpCode::Construct, 1, line);
        self.op(OpCode::Throw, line);
    }

    /// Strict code may not bind or assign the names `eval` and `arguments`.
    pub(crate) fn check_strict_restricted(
        &mut self,
        name: StringId,
        what: &str,
    ) -> (done: Result<(), String>)
        requires
            old(self).st().good(),
        ensures
            steps::outcome(
                done,
                final(self).st(),
                old(self).st().check_strict_restricted(name, what@),
            ),
            done is Ok ==> final(self).st().depths() == old(self).st().depths(),
            final(self).st().good(),
            final(self).st().base == old(self).st().base,
    {
        if self.has_flag(FLAG_STRICT) && (
            self.name_is(name, "eval") || self.name_is(name, "arguments")
        ) {
            return Err(restricted_name(what));
        }
        Ok(())
    }

    /// Inside a `with` body, a name that statically resolves to a local or upvalue may still
    /// be shadowed by the `with` object at runtime. Emit a guard before the static access; the
    /// guard handles the name via the object (and jumps over the fallback) when the object
    /// owns the property. The position of the embedded jump offset.
    pub(crate) fn emit_with_guard(
        &mut self,
        op: OpCode,
        name: StringId,
        line: u32,
    ) -> (value: usize)
        requires
            old(self).st().good(),
        ensures
            (final(self).st(), value) == old(self).st().emit_with_guard(op, name, line),
            final(self).st().depths() == old(self).st().depths(),
            final(self).st().good(),
            final(self).st().base == old(self).st().base,
    {
        self.op_name(op, name, line);
        let pos: usize = self.placeholder(line);
        return pos;
    }

    /// True when an identifier assignment target inside a `with` body must be resolved as a
    /// reference before the right-hand side runs. Const bindings are excluded.
    pub(crate) fn ident_needs_with_ref(&mut self, name: StringId) -> (value: bool)
        requires
            old(self).st().good(),
        ensures
            (final(self).st(), value) == old(self).st().ident_needs_with_ref(name),
            final(self).st().depths() == old(self).st().depths(),
            final(self).st().good(),
            final(self).st().base == old(self).st().base,
    {
        if self.with_level() == 0 {
            return false;
        }
        match self.resolve_local(name) {
            Some(slot) => {
                return !self.local_is_const(slot) && self.local_needs_with_guard(slot);
            },
            None => {
                let found: Option<u16> = self.resolve_upvalue(name);
                return found.is_some() || !self.is_const_global(name);
            },
        }
    }

    /// Emit the read for a `with` reference already resolved (stack: [ref] to [ref, value]).
    pub(crate) fn compile_get_variable_resolved(&mut self, name: StringId, line: u32)
        requires
            old(self).st().good(),
        ensures
            final(self).st() == old(self).st().compile_get_variable_resolved(name, line),
            final(self).st().depths() == old(self).st().depths(),
            final(self).st().good(),
            final(self).st().base == old(self).st().base,
    {
        let guard: usize = self.emit_with_guard(OpCode::WithRefGet, name, line);
        match self.resolve_local(name) {
            Some(slot) => {
                self.get_slot(slot, line);
            },
            None => {
                let found: Option<u16> = self.resolve_upvalue(name);
                match found {
                    Some(index) => {
                        self.get_upvalue(index, line);
                    },
                    None => {
                        self.op_name(OpCode::GetGlobal, name, line);
                    },
                }
            },
        }
        self.patch(guard);
    }

    /// Emit the store for an assignment whose `with` reference was already resolved
    /// (stack: [ref, value]).
    pub(crate) fn compile_set_variable_resolved(&mut self, name: StringId, line: u32)
        requires
            old(self).st().good(),
        ensures
            final(self).st() == old(self).st().compile_set_variable_resolved(name, line),
            final(self).st().depths() == old(self).st().depths(),
            final(self).st().good(),
            final(self).st().base == old(self).st().base,
    {
        let guard: usize = self.emit_with_guard(OpCode::WithRefSet, name, line);
        match self.resolve_local(name) {
            Some(slot) => {
                self.set_slot(slot, line);
            },
            None => {
                let found: Option<u16> = self.resolve_upvalue(name);
                match found {
                    Some(index) => {
                        self.set_upvalue(index, line);
                    },
                    None => {
                        self.op_name(OpCode::SetGlobal, name, line);
                    },
                }
            },
        }
        self.patch(guard);
    }

    /// Emit the read of a variable. In the default of a parameter, the read of a parameter
    /// that has no value yet throws instead.
    pub(crate) fn compile_get_variable(&mut self, name: StringId, line: u32)
        requires
            old(self).st().good(),
        ensures
            final(self).st() == old(self).st().compile_get_variable(name, line),
            final(self).st().depths() == old(self).st().depths(),
            final(self).st().good(),
            final(self).st().base == old(self).st().base,
    {
        if self.param_tdz_violation(name) {
            self.emit_throw_reference_error(name, line);
        } else {
            self.compile_get_bound_variable(name, line);
        }
    }

    /// Emit the read of a variable: local, upvalue or global, with a guard inside a `with`
    /// body. Every non-arrow function has its own `arguments` binding.
    pub(crate) fn compile_get_bound_variable(&mut self, name: StringId, line: u32)
        requires
            old(self).st().good(),
        ensures
            final(self).st() == old(self).st().compile_get_bound_variable(name, line),
            final(self).st().depths() == old(self).st().depths(),
            final(self).st().good(),
            final(self).st().base == old(self).st().base,
    {
        match self.resolve_local(name) {
            Some(slot) => {
                if self.local_needs_with_guard(slot) {
                    let guard: usize = self.emit_with_guard(OpCode::WithGetCheck, name, line);
                    self.get_slot(slot, line);
                    self.patch(guard);
                } else {
                    self.get_slot(slot, line);
                }
            },
            None => {
                if self.name_is(name, "arguments") && !self.has_flag(FLAG_ARROW) {
                    self.note_arguments();
                    self.op_name(OpCode::GetGlobal, name, line);
                } else {
                    let found: Option<u16> = self.resolve_upvalue(name);
                    match found {
                        Some(index) => {
                            if self.with_level() > 0 {
                                let guard: usize = self.emit_with_guard(
                                    OpCode::WithGetCheck,
                                    name,
                                    line,
                                );
                                self.get_upvalue(index, line);
                                self.patch(guard);
                            } else {
                                self.get_upvalue(index, line);
                            }
                        },
                        None => {
                            if self.name_is(name, "arguments") {
                                self.note_arguments();
                            }
                            self.op_name(OpCode::GetGlobal, name, line);
                        },
                    }
                }
            },
        }
    }

    /// Emit the assignment of a variable. In the default of a parameter, the assignment of a
    /// parameter
    /// that has no value yet throws instead.
    pub(crate) fn compile_set_variable(&mut self, name: StringId, line: u32)
        requires
            old(self).st().good(),
        ensures
            final(self).st() == old(self).st().compile_set_variable(name, line),
            final(self).st().depths() == old(self).st().depths(),
            final(self).st().good(),
            final(self).st().base == old(self).st().base,
    {
        if self.param_tdz_violation(name) {
            self.emit_throw_reference_error(name, line);
        } else {
            self.compile_set_bound_variable(name, line);
        }
    }

    /// Emit the assignment of a variable. The self-binding of a named function expression is
    /// immutable: sloppy assignments are ignored, strict ones throw. Constants throw.
    pub(crate) fn compile_set_bound_variable(&mut self, name: StringId, line: u32)
        requires
            old(self).st().good(),
        ensures
            final(self).st() == old(self).st().compile_set_bound_variable(name, line),
            final(self).st().depths() == old(self).st().depths(),
            final(self).st().good(),
            final(self).st().base == old(self).st().base,
    {
        match self.resolve_local(name) {
            Some(slot) => {
                if self.local_is_self_name(slot) {
                    if self.has_flag(FLAG_STRICT) {
                        self.emit_throw_const_error(name, line);
                    }
                } else if self.local_is_const(slot) {
                    self.emit_throw_const_error(name, line);
                } else if self.local_needs_with_guard(slot) {
                    let guard: usize = self.emit_with_guard(OpCode::WithSetCheck, name, line);
                    self.set_slot(slot, line);
                    self.patch(guard);
                } else {
                    self.set_slot(slot, line);
                }
            },
            None => {
                let found: Option<u16> = self.resolve_upvalue(name);
                match found {
                    Some(index) => {
                        if self.captured_self_name(name) {
                            if self.has_flag(FLAG_STRICT) {
                                self.emit_throw_const_error(name, line);
                            }
                        } else if self.with_level() > 0 {
                            let guard: usize = self.emit_with_guard(
                                OpCode::WithSetCheck,
                                name,
                                line,
                            );
                            self.set_upvalue(index, line);
                            self.patch(guard);
                        } else {
                            self.set_upvalue(index, line);
                        }
                    },
                    None => {
                        if self.is_const_global(name) {
                            self.emit_throw_const_error(name, line);
                        } else {
                            self.op_name(OpCode::SetGlobal, name, line);
                        }
                    },
                }
            },
        }
    }
}

} // verus!
