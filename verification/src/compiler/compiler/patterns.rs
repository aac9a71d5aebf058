//! Destructuring: binding and assigning the leaves of patterns.

use vstd::prelude::*;
use crate::ast::node::{
    AssignmentTarget, Expression, MemberProperty, ObjectPatternProperty, ObjectProperty, Pattern,
    PropertyKey,
};
use crate::compiler::shape;
use crate::compiler::compiler::{Compiler, steps};
use crate::compiler::compiler::state::{CState, Failure};
use crate::compiler::opcode::OpCode;
use crate::compiler::shape::{
    clamped_count, collect_excluded, collect_excluded_keys, has_array_rest, has_object_rest,
    has_object_spread, has_spread_element, is_anonymous_fn_def, is_pattern_expr, name_count,
};
use crate::runtime::value::Value;
use crate::util::interner::StringId;

verus! {

impl<'p> CState<'p> {
    /// With a value on the stack, replace it by a default expression if it is undefined.
    pub open spec fn emit_default_check(
        self,
        fuel: nat,
        right: &'p Expression,
        line: u32,
    ) -> Result<CState<'p>, Failure>
        decreases fuel, right, 6int,
    {
        let st = self;
        let st = st.op(OpCode::Dup, line);
        let st = st.op(OpCode::Undefined, line);
        let st = st.op(OpCode::StrictNe, line);
        let jump_idx: usize = st.here();
        let st = st.op(OpCode::JumpIfTrue, line);
        let st = st.raw16(0);
        let st = st.op(OpCode::Pop, line);
        match st.compile_expr(fuel, right) {
            Err(e) => Err(e),
            Ok(st) => Ok(st.patch_short(jump_idx)),
        }
    }

    /// Emit the check that the value on the stack can be destructured: null and undefined
    /// throw. The value stays.
    pub open spec fn emit_object_check(self, line: u32) -> CState<'p>
    {
        let st = self;
        let st = st.op(OpCode::Dup, line);
        let st = st.op(OpCode::Undefined, line);
        let st = st.op(OpCode::StrictEq, line);
        let (st, undef_jump) = st.jump(OpCode::JumpIfTrue, line);
        let st = st.op(OpCode::Dup, line);
        let st = st.op(OpCode::Null, line);
        let st = st.op(OpCode::StrictEq, line);
        let (st, null_jump) = st.jump(OpCode::JumpIfTrue, line);
        let (st, skip_throw) = st.jump(OpCode::Jump, line);
        let st = st.patch(undef_jump);
        let st = st.patch(null_jump);
        let st = st.emit_throw_type_error("Cannot destructure 'undefined' or 'null'"@, line);
        st.patch(skip_throw)
    }

    /// Collect what the iterator in a slot still yields into a new array.
    pub open spec fn collect_from_slot(self, iter_slot: u8, line: u32) -> CState<'p>
    {
        let st = self;
        let st = st.op_u16(OpCode::CreateArray, 0, line);
        let loop_start: usize = st.here();
        let st = st.op_u8(OpCode::GetLocal, iter_slot, line);
        let st = st.op(OpCode::IteratorNext, line);
        let st = st.op(OpCode::Dup, line);
        let st = st.op(OpCode::IteratorDone, line);
        let (st, exit_jump) = st.jump(OpCode::JumpIfTrue, line);
        let st = st.op(OpCode::IteratorValue, line);
        let st = st.op(OpCode::ArrayAppend, line);
        let st = st.back(loop_start, line);
        let st = st.patch(exit_jump);
        st.op(OpCode::Pop, line)
    }

    /// Advance the iterator in a slot and drop the result.
    pub open spec fn skip_from_slot(self, iter_slot: u8, line: u32) -> CState<'p>
    {
        let st = self;
        let st = st.op_u8(OpCode::GetLocal, iter_slot, line);
        let st = st.op(OpCode::IteratorNext, line);
        st.op(OpCode::Pop, line)
    }

    /// Advance the iterator in a slot, note whether it is done, and push the value or
    /// undefined.
    pub open spec fn next_from_slot(self, iter_slot: u8, done_slot: u8, line: u32) -> CState<'p>
    {
        let st = self;
        let st = st.op_u8(OpCode::GetLocal, iter_slot, line);
        let st = st.op(OpCode::IteratorNext, line);
        let st = st.op(OpCode::Dup, line);
        let st = st.op(OpCode::IteratorDone, line);
        let st = st.op(OpCode::Dup, line);
        let st = st.op_u8(OpCode::SetLocal, done_slot, line);
        let st = st.op(OpCode::Pop, line);
        st.emit_value_or_undefined(line)
    }

    /// Close the iterator in a slot unless it was noted as done.
    pub open spec fn close_unless_done(self, iter_slot: u8, done_slot: u8, line: u32) -> CState<'p>
    {
        let st = self;
        let st = st.op_u8(OpCode::GetLocal, done_slot, line);
        let (st, skip_close) = st.jump(OpCode::JumpIfTrue, line);
        let st = st.op_u8(OpCode::GetLocal, iter_slot, line);
        let st = st.op(OpCode::IteratorClose, line);
        st.patch(skip_close)
    }

    /// Bind the value on the stack to a name: a `var` is assigned, since hoisting has declared
    /// it, any other name becomes a local.
    pub open spec fn bind_leaf(self, name: StringId, hoisted: bool, line: u32) -> CState<'p>
    {
        let st = self;
        if hoisted {
            let st = st.compile_set_variable(name, line);
            st.op(OpCode::Pop, line)
        } else {
            st.declare_local(name)
        }
    }

    /// With a value on the stack, bind it according to a pattern, to locals or to variables
    /// that are hoisted.
    pub open spec fn compile_bind_value_local(
        self,
        fuel: nat,
        pat: &'p Pattern,
        hoisted: bool,
        line: u32,
    ) -> Result<CState<'p>, Failure>
        decreases fuel, pat, 5int,
    {
        let st = self;
        match pat {
            Pattern::Identifier(id) => Ok(st.bind_leaf(id.name, hoisted, line)),
            Pattern::Array(inner) => {
                let st = st.op(OpCode::GetIterator, line);
                let (st, anon) = st.intern("__d__"@);
                let st = st.declare_local(anon);
                let slot: u8 = st.last_slot();
                st.compile_bind_arr_elems_local(fuel, &inner.elements, slot, hoisted, line)
            },
            Pattern::Object(inner) => {
                let (st, anon) = st.intern("__d__"@);
                let st = st.declare_local(anon);
                let slot: u8 = st.last_slot();
                st.compile_bind_obj_props_local(
                    fuel,
                    &inner.properties,
                    slot,
                    hoisted,
                    line,
                )
            },
            _ => Ok(st.op(OpCode::Pop, line)),
        }
    }

    /// Bind array elements to locals; the iterator is in a local slot. It is closed at the
    /// end unless it is exhausted.
    pub open spec fn compile_bind_arr_elems_local(
        self,
        fuel: nat,
        elements: &'p Vec<Option<Pattern>>,
        iter_slot: u8,
        hoisted: bool,
        line: u32,
    ) -> Result<CState<'p>, Failure>
        decreases fuel, elements, elements@.len() as int + 1,
    {
        let st = self;
        let st = st.op(OpCode::False, line);
        let done_slot: u8 = st.next_slot();
        let (st, done_anon) = st.intern("__iter_done__"@);
        let st = st.declare_local(done_anon);
        match st.bind_elements_local(fuel, iter_slot, done_slot, hoisted, line, elements, 0) {
            Err(e) => Err(e),
            Ok(st) => {
                if !shape::array_rest(elements@) {
                    Ok(st.close_unless_done(iter_slot, done_slot, line))
                } else {
                    Ok(st)
                }
            },
        }
    }

    /// Bind each element in turn; a rest element takes what is left and ends the pattern.
    pub open spec fn bind_elements_local(
        self,
        fuel: nat,
        iter_slot: u8,
        done_slot: u8,
        hoisted: bool,
        line: u32,
        elements: &'p Vec<Option<Pattern>>,
        i: int,
    ) -> Result<CState<'p>, Failure>
        decreases fuel, elements, elements@.len() - i,
    {
        let st = self;
        if i < 0 || i >= elements@.len() {
            Ok(st)
        } else {
            let elem = &elements@[i];
            match elem {
                None => {
                    let st = st.skip_from_slot(iter_slot, line);
                    st.bind_elements_local(
                        fuel,
                        iter_slot,
                        done_slot,
                        hoisted,
                        line,
                        elements,
                        i + 1,
                    )
                },
                Some(pat) => {
                    match pat {
                        Pattern::Rest(rest) => {
                            let st = st.collect_from_slot(iter_slot, line);
                            st.compile_bind_value_local(fuel, &rest.argument, hoisted, line)
                        },
                        Pattern::Assignment(a) => {
                            let st = st.next_from_slot(iter_slot, done_slot, line);
                            let st = st.name_default(&a.left, &a.right);
                            match st.emit_default_check(fuel, &a.right, line) {
                                Err(e) => Err(e),
                                Ok(st) => {
                                    match st.compile_bind_value_local(
                                        fuel,
                                        &a.left,
                                        hoisted,
                                        line,
                                    ) {
                                        Err(e) => Err(e),
                                        Ok(st) => {
                                            st.bind_elements_local(
                                                fuel,
                                                iter_slot,
                                                done_slot,
                                                hoisted,
                                                line,
                                                elements,
                                                i + 1,
                                            )
                                        },
                                    }
                                },
                            }
                        },
                        _ => {
                            let st = st.next_from_slot(iter_slot, done_slot, line);
                            match st.compile_bind_value_local(fuel, pat, hoisted, line) {
                                Err(e) => Err(e),
                                Ok(st) => {
                                    st.bind_elements_local(
                                        fuel,
                                        iter_slot,
                                        done_slot,
                                        hoisted,
                                        line,
                                        elements,
                                        i + 1,
                                    )
                                },
                            }
                        },
                    }
                },
            }
        }
    }

    /// Bind object properties to locals; the source object is in a local slot.
    pub open spec fn compile_bind_obj_props_local(
        self,
        fuel: nat,
        properties: &'p Vec<ObjectPatternProperty>,
        src_slot: u8,
        hoisted: bool,
        line: u32,
    ) -> Result<CState<'p>, Failure>
        decreases fuel, properties, properties@.len() as int + 1,
    {
        let st = self;
        let st = st.op_u8(OpCode::GetLocal, src_slot, line);
        let st = st.emit_object_check(line);
        let st = st.op(OpCode::Pop, line);
        st.bind_properties_local(fuel, src_slot, hoisted, line, properties, 0)
    }

    /// Bind each property in turn; a rest element takes what is left.
    pub open spec fn bind_properties_local(
        self,
        fuel: nat,
        src_slot: u8,
        hoisted: bool,
        line: u32,
        properties: &'p Vec<ObjectPatternProperty>,
        i: int,
    ) -> Result<CState<'p>, Failure>
        decreases fuel, properties, properties@.len() - i,
    {
        let st = self;
        if i < 0 || i >= properties@.len() {
            Ok(st)
        } else {
            let prop = &properties@[i];
            match prop {
                ObjectPatternProperty::Property { key, value, .. } => {
                    let st = st.op_u8(OpCode::GetLocal, src_slot, line);
                    if let PropertyKey::Private(_) = key {
                        let st = st.op(OpCode::Pop, line);
                        st.bind_properties_local(fuel, src_slot, hoisted, line, properties, i + 1)
                    } else {
                        match st.compile_keyed_read(fuel, key, false, line) {
                            Err(e) => Err(e),
                            Ok(st) => {
                                match value {
                                    Pattern::Assignment(a) => {
                                        let st = st.name_default(&a.left, &a.right);
                                        match st.emit_default_check(fuel, &a.right, line) {
                                            Err(e) => Err(e),
                                            Ok(st) => {
                                                match st.compile_bind_value_local(
                                                    fuel,
                                                    &a.left,
                                                    hoisted,
                                                    line,
                                                ) {
                                                    Err(e) => Err(e),
                                                    Ok(st) => {
                                                        st.bind_properties_local(
                                                            fuel,
                                                            src_slot,
                                                            hoisted,
                                                            line,
                                                            properties,
                                                            i + 1,
                                                        )
                                                    },
                                                }
                                            },
                                        }
                                    },
                                    _ => {
                                        match st.compile_bind_value_local(
                                            fuel,
                                            value,
                                            hoisted,
                                            line,
                                        ) {
                                            Err(e) => Err(e),
                                            Ok(st) => {
                                                st.bind_properties_local(
                                                    fuel,
                                                    src_slot,
                                                    hoisted,
                                                    line,
                                                    properties,
                                                    i + 1,
                                                )
                                            },
                                        }
                                    },
                                }
                            },
                        }
                    }
                },
                ObjectPatternProperty::Rest(rest) => {
                    if let Pattern::Identifier(id) = &rest.argument {
                        let excluded: Seq<StringId> = shape::excluded_names(properties@);
                        let st = st.op_u8(OpCode::GetLocal, src_slot, line);
                        let st = st.emit_object_rest(excluded, excluded.len() as u8, line);
                        let st = st.bind_leaf(id.name, hoisted, line);
                        st.bind_properties_local(fuel, src_slot, hoisted, line, properties, i + 1)
                    } else {
                        st.bind_properties_local(fuel, src_slot, hoisted, line, properties, i + 1)
                    }
                },
            }
        }
    }

    /// With a value on the stack, bind it to globals according to a pattern.
    pub open spec fn compile_bind_value_global(
        self,
        fuel: nat,
        pat: &'p Pattern,
        line: u32,
    ) -> Result<CState<'p>, Failure>
        decreases fuel, pat, 5int,
    {
        let st = self;
        match pat {
            Pattern::Identifier(id) => Ok(st.op_name(OpCode::DefineGlobal, id.name, line)),
            Pattern::Array(inner) => {
                let st = st.op(OpCode::GetIterator, line);
                match st.compile_bind_arr_elems_global(fuel, &inner.elements, line) {
                    Err(e) => Err(e),
                    Ok(st) => Ok(st.op(OpCode::Pop, line)),
                }
            },
            Pattern::Object(inner) => {
                match st.compile_bind_obj_props_global(fuel, &inner.properties, line) {
                    Err(e) => Err(e),
                    Ok(st) => Ok(st.op(OpCode::Pop, line)),
                }
            },
            _ => Ok(st.op(OpCode::Pop, line)),
        }
    }

    /// Bind array elements to globals; the iterator is on the stack and stays there.
    pub open spec fn compile_bind_arr_elems_global(
        self,
        fuel: nat,
        elements: &'p Vec<Option<Pattern>>,
        line: u32,
    ) -> Result<CState<'p>, Failure>
        decreases fuel, elements, elements@.len() as int + 1,
    {
        let st = self;
        let iter_slot: u8 = st.next_slot();
        let (st, anon) = st.intern("__iter_g__"@);
        let st = st.declare_local(anon);
        match st.bind_elements_global(fuel, iter_slot, line, elements, 0) {
            Err(e) => Err(e),
            Ok(st) => {
                let st = if !shape::array_rest(elements@) {
                    let st = st.op_u8(OpCode::GetLocal, iter_slot, line);
                    st.op(OpCode::IteratorClose, line)
                } else {
                    st
                };
                Ok(st.pop_local())
            },
        }
    }

    /// Bind each element in turn; a rest element takes what is left and ends the pattern.
    pub open spec fn bind_elements_global(
        self,
        fuel: nat,
        iter_slot: u8,
        line: u32,
        elements: &'p Vec<Option<Pattern>>,
        i: int,
    ) -> Result<CState<'p>, Failure>
        decreases fuel, elements, elements@.len() - i,
    {
        let st = self;
        if i < 0 || i >= elements@.len() {
            Ok(st)
        } else {
            let elem = &elements@[i];
            match elem {
                None => {
                    let st = st.skip_from_slot(iter_slot, line);
                    st.bind_elements_global(fuel, iter_slot, line, elements, i + 1)
                },
                Some(pat) => {
                    match pat {
                        Pattern::Rest(rest) => {
                            let st = st.collect_from_slot(iter_slot, line);
                            st.compile_bind_value_global(fuel, &rest.argument, line)
                        },
                        Pattern::Assignment(a) => {
                            let st = st.next_plain_from_slot(iter_slot, line);
                            let st = st.name_default(&a.left, &a.right);
                            match st.emit_default_check(fuel, &a.right, line) {
                                Err(e) => Err(e),
                                Ok(st) => {
                                    match st.compile_bind_value_global(fuel, &a.left, line) {
                                        Err(e) => Err(e),
                                        Ok(st) => {
                                            st.bind_elements_global(
                                                fuel,
                                                iter_slot,
                                                line,
                                                elements,
                                                i + 1,
                                            )
                                        },
                                    }
                                },
                            }
                        },
                        _ => {
                            let st = st.next_plain_from_slot(iter_slot, line);
                            match st.compile_bind_value_global(fuel, pat, line) {
                                Err(e) => Err(e),
                                Ok(st) => {
                                    st.bind_elements_global(fuel, iter_slot, line, elements, i + 1)
                                },
                            }
                        },
                    }
                },
            }
        }
    }

    /// Advance the iterator in a slot and push the value or undefined.
    pub open spec fn next_plain_from_slot(self, iter_slot: u8, line: u32) -> CState<'p>
    {
        let st = self;
        let st = st.op_u8(OpCode::GetLocal, iter_slot, line);
        let st = st.op(OpCode::IteratorNext, line);
        let st = st.op(OpCode::Dup, line);
        let st = st.op(OpCode::IteratorDone, line);
        st.emit_value_or_undefined(line)
    }

    /// Bind object properties to globals; the source is on the stack and stays there.
    pub open spec fn compile_bind_obj_props_global(
        self,
        fuel: nat,
        properties: &'p Vec<ObjectPatternProperty>,
        line: u32,
    ) -> Result<CState<'p>, Failure>
        decreases fuel, properties, properties@.len() as int + 1,
    {
        let st = self;
        let st = st.emit_object_check(line);
        let src_slot: u8 = st.next_slot();
        let (st, anon_src) = st.intern("__obj_src__"@);
        let st = st.declare_local(anon_src);
        match st.bind_properties_global(fuel, src_slot, line, properties, 0) {
            Err(e) => Err(e),
            Ok(st) => Ok(st.pop_local()),
        }
    }

    /// Bind each property in turn; a rest element takes what is left.
    pub open spec fn bind_properties_global(
        self,
        fuel: nat,
        src_slot: u8,
        line: u32,
        properties: &'p Vec<ObjectPatternProperty>,
        i: int,
    ) -> Result<CState<'p>, Failure>
        decreases fuel, properties, properties@.len() - i,
    {
        let st = self;
        if i < 0 || i >= properties@.len() {
            Ok(st)
        } else {
            let prop = &properties@[i];
            match prop {
                ObjectPatternProperty::Property { key, value, .. } => {
                    let st = st.op_u8(OpCode::GetLocal, src_slot, line);
                    if let PropertyKey::Private(_) = key {
                        let st = st.op(OpCode::Pop, line);
                        st.bind_properties_global(fuel, src_slot, line, properties, i + 1)
                    } else {
                        match st.compile_keyed_read(fuel, key, false, line) {
                            Err(e) => Err(e),
                            Ok(st) => {
                                match value {
                                    Pattern::Assignment(a) => {
                                        let st = st.name_default(&a.left, &a.right);
                                        match st.emit_default_check(fuel, &a.right, line) {
                                            Err(e) => Err(e),
                                            Ok(st) => {
                                                match st.compile_bind_value_global(
                                                    fuel,
                                                    &a.left,
                                                    line,
                                                ) {
                                                    Err(e) => Err(e),
                                                    Ok(st) => {
                                                        st.bind_properties_global(
                                                            fuel,
                                                            src_slot,
                                                            line,
                                                            properties,
                                                            i + 1,
                                                        )
                                                    },
                                                }
                                            },
                                        }
                                    },
                                    _ => {
                                        match st.compile_bind_value_global(fuel, value, line) {
                                            Err(e) => Err(e),
                                            Ok(st) => {
                                                st.bind_properties_global(
                                                    fuel,
                                                    src_slot,
                                                    line,
                                                    properties,
                                                    i + 1,
                                                )
                                            },
                                        }
                                    },
                                }
                            },
                        }
                    }
                },
                ObjectPatternProperty::Rest(rest) => {
                    if let Pattern::Identifier(id) = &rest.argument {
                        let excluded: Seq<StringId> = shape::excluded_names(properties@);
                        let st = st.op_u8(OpCode::GetLocal, src_slot, line);
                        let st = st.emit_object_rest(excluded, excluded.len() as u8, line);
                        let st = st.op_name(OpCode::DefineGlobal, id.name, line);
                        st.bind_properties_global(fuel, src_slot, line, properties, i + 1)
                    } else {
                        st.bind_properties_global(fuel, src_slot, line, properties, i + 1)
                    }
                },
            }
        }
    }

    /// Emit the check that the value on the stack can be destructured, with a plain message
    /// thrown. The value stays.
    pub open spec fn emit_nullish_check(self, line: u32) -> CState<'p>
    {
        let st = self;
        let st = st.op(OpCode::Dup, line);
        let (st, nullish_jump) = st.jump(OpCode::JumpIfNullishPeek, line);
        let st = st.op(OpCode::Pop, line);
        let (st, skip_throw) = st.jump(OpCode::Jump, line);
        let st = st.patch(nullish_jump);
        let st = st.op(OpCode::Pop, line);
        let st = st.op(OpCode::Pop, line);
        let (st, msg_id) = st.intern("Cannot destructure property of null or undefined"@);
        let st = st.op_name(OpCode::Const, msg_id, line);
        let st = st.op(OpCode::Throw, line);
        st.patch(skip_throw)
    }

    /// With an iterator on the stack, push its next value or undefined.
    pub open spec fn next_on_stack(self, line: u32) -> CState<'p>
    {
        let st = self;
        let st = st.op(OpCode::Dup, line);
        let st = st.op(OpCode::IteratorNext, line);
        let st = st.op(OpCode::Dup, line);
        let st = st.op(OpCode::IteratorDone, line);
        st.emit_value_or_undefined(line)
    }

    /// Destructure the value on the stack into a pattern, consuming it. Leaf identifiers are
    /// assigned, not declared.
    pub open spec fn compile_assign_pat(
        self,
        fuel: nat,
        pat: &'p Pattern,
        line: u32,
    ) -> Result<CState<'p>, Failure>
        decreases fuel, pat, 5int,
    {
        let st = self;
        match pat {
            Pattern::Identifier(id) => {
                let st = st.compile_set_variable(id.name, line);
                Ok(st.op(OpCode::Pop, line))
            },
            Pattern::Array(inner) => {
                let st = st.op(OpCode::GetIterator, line);
                match st.assign_pat_elements(fuel, line, &inner.elements, 0) {
                    Err(e) => Err(e),
                    Ok(st) => {
                        if !shape::array_rest(inner.elements@) {
                            Ok(st.op(OpCode::IteratorClose, line))
                        } else {
                            Ok(st)
                        }
                    },
                }
            },
            Pattern::Object(inner) => {
                let st = st.emit_nullish_check(line);
                let has_rest: bool = shape::object_rest(inner.properties@);
                match st.assign_pat_properties(fuel, has_rest, line, &inner.properties, 0) {
                    Err(e) => Err(e),
                    Ok(st) => Ok(st.op(OpCode::Pop, line)),
                }
            },
            Pattern::Assignment(a) => {
                match st.emit_default_check(fuel, &a.right, line) {
                    Err(e) => Err(e),
                    Ok(st) => st.compile_assign_pat(fuel, &a.left, line),
                }
            },
            Pattern::Member(m) => {
                match st.compile_expr(fuel, &m.object) {
                    Err(e) => Err(e),
                    Ok(st) => {
                        let st = st.op(OpCode::Swap, line);
                        match st.store_swapped_member(fuel, &m.property, line) {
                            Err(e) => Err(e),
                            Ok(st) => Ok(st.op(OpCode::Pop, line)),
                        }
                    },
                }
            },
            Pattern::Rest(_) => Ok(st.op(OpCode::Pop, line)),
        }
    }

    /// With object and value on the stack, assign the value to a member.
    pub open spec fn store_swapped_member(
        self,
        fuel: nat,
        property: &'p MemberProperty,
        line: u32,
    ) -> Result<CState<'p>, Failure>
        decreases fuel, property, 0int,
    {
        let st = self;
        match property {
            MemberProperty::Identifier(name) => {
                let (st, idx) = st.make_string_constant(*name);
                Ok(st.emit_set_property(idx, line))
            },
            MemberProperty::Expression(key) => {
                match st.compile_expr(fuel, key) {
                    Err(e) => Err(e),
                    Ok(st) => {
                        let st = st.op(OpCode::Swap, line);
                        Ok(st.op(OpCode::SetElement, line))
                    },
                }
            },
            MemberProperty::PrivateIdentifier(name) => {
                Ok(st.op_name(OpCode::SetPrivate, *name, line))
            },
        }
    }

    /// Assign each element in turn from the iterator on the stack; a rest element takes what
    /// is left, drops the iterator and ends the pattern.
    pub open spec fn assign_pat_elements(
        self,
        fuel: nat,
        line: u32,
        elements: &'p Vec<Option<Pattern>>,
        i: int,
    ) -> Result<CState<'p>, Failure>
        decreases fuel, elements, elements@.len() - i,
    {
        let st = self;
        if i < 0 || i >= elements@.len() {
            Ok(st)
        } else {
            let elem = &elements@[i];
            match elem {
                None => {
                    let st = st.op(OpCode::Dup, line);
                    let st = st.op(OpCode::IteratorNext, line);
                    let st = st.op(OpCode::Pop, line);
                    st.assign_pat_elements(fuel, line, elements, i + 1)
                },
                Some(pat) => {
                    match pat {
                        Pattern::Rest(rest) => {
                            let st = st.collect_iterated(line);
                            st.compile_assign_pat(fuel, &rest.argument, line)
                        },
                        Pattern::Assignment(a) => {
                            let st = st.next_on_stack(line);
                            let st = st.name_default(&a.left, &a.right);
                            match st.emit_default_check(fuel, &a.right, line) {
                                Err(e) => Err(e),
                                Ok(st) => {
                                    match st.compile_assign_pat(fuel, &a.left, line) {
                                        Err(e) => Err(e),
                                        Ok(st) => {
                                            st.assign_pat_elements(fuel, line, elements, i + 1)
                                        },
                                    }
                                },
                            }
                        },
                        _ => {
                            let st = st.next_on_stack(line);
                            match st.compile_assign_pat(fuel, pat, line) {
                                Err(e) => Err(e),
                                Ok(st) => st.assign_pat_elements(fuel, line, elements, i + 1),
                            }
                        },
                    }
                },
            }
        }
    }

    /// Assign each property in turn from the object on the stack.
    pub open spec fn assign_pat_properties(
        self,
        fuel: nat,
        has_rest: bool,
        line: u32,
        properties: &'p Vec<ObjectPatternProperty>,
        i: int,
    ) -> Result<CState<'p>, Failure>
        decreases fuel, properties, properties@.len() - i,
    {
        let st = self;
        if i < 0 || i >= properties@.len() {
            Ok(st)
        } else {
            let prop = &properties@[i];
            match prop {
                ObjectPatternProperty::Property { key, value, .. } => {
                    let st = st.op(OpCode::Dup, line);
                    if let PropertyKey::Private(_) = key {
                        let st = st.op(OpCode::Pop, line);
                        st.assign_pat_properties(fuel, has_rest, line, properties, i + 1)
                    } else {
                        match st.compile_keyed_read(fuel, key, has_rest, line) {
                            Err(e) => Err(e),
                            Ok(st) => {
                                match value {
                                    Pattern::Assignment(a) => {
                                        let st = st.name_default(&a.left, &a.right);
                                        match st.emit_default_check(fuel, &a.right, line) {
                                            Err(e) => Err(e),
                                            Ok(st) => {
                                                match st.compile_assign_pat(fuel, &a.left, line) {
                                                    Err(e) => Err(e),
                                                    Ok(st) => {
                                                        st.assign_pat_properties(
                                                            fuel,
                                                            has_rest,
                                                            line,
                                                            properties,
                                                            i + 1,
                                                        )
                                                    },
                                                }
                                            },
                                        }
                                    },
                                    _ => {
                                        match st.compile_assign_pat(fuel, value, line) {
                                            Err(e) => Err(e),
                                            Ok(st) => {
                                                st.assign_pat_properties(
                                                    fuel,
                                                    has_rest,
                                                    line,
                                                    properties,
                                                    i + 1,
                                                )
                                            },
                                        }
                                    },
                                }
                            },
                        }
                    }
                },
                ObjectPatternProperty::Rest(rest) => {
                    let excluded: Seq<StringId> = shape::excluded_names(properties@);
                    let st = st.op(OpCode::Dup, line);
                    let st = st.emit_object_rest(excluded, shape::clamped(excluded), line);
                    match st.compile_assign_pat(fuel, &rest.argument, line) {
                        Err(e) => Err(e),
                        Ok(st) => st.assign_pat_properties(fuel, has_rest, line, properties, i + 1),
                    }
                },
            }
        }
    }

    /// Destructure the value on the stack into an expression that stands for a pattern (the
    /// head of a for-of loop), consuming it.
    pub open spec fn compile_assign_expr(
        self,
        fuel: nat,
        expr: &'p Expression,
        line: u32,
    ) -> Result<CState<'p>, Failure>
        decreases fuel, expr, 6int,
    {
        let st = self;
        match expr {
            Expression::Identifier(id) => {
                let st = st.compile_set_variable(id.name, line);
                Ok(st.op(OpCode::Pop, line))
            },
            Expression::Array(arr) => {
                let st = st.op(OpCode::GetIterator, line);
                match st.assign_expr_elements(fuel, line, &arr.elements, 0) {
                    Err(e) => Err(e),
                    Ok(st) => {
                        if !shape::spread_element(arr.elements@) {
                            Ok(st.op(OpCode::IteratorClose, line))
                        } else {
                            Ok(st)
                        }
                    },
                }
            },
            Expression::Object(obj) => {
                let st = st.emit_nullish_check(line);
                let has_rest: bool = shape::object_spread(obj.properties@);
                match st.assign_expr_properties(fuel, has_rest, line, &obj.properties, 0) {
                    Err(e) => Err(e),
                    Ok(st) => Ok(st.op(OpCode::Pop, line)),
                }
            },
            Expression::Member(m) => {
                match st.compile_expr(fuel, &m.object) {
                    Err(e) => Err(e),
                    Ok(st) => {
                        let st = st.op(OpCode::Swap, line);
                        match st.store_swapped_member(fuel, &m.property, line) {
                            Err(e) => Err(e),
                            Ok(st) => Ok(st.op(OpCode::Pop, line)),
                        }
                    },
                }
            },
            Expression::Assignment(a) => {
                match st.emit_default_check(fuel, &a.right, line) {
                    Err(e) => Err(e),
                    Ok(st) => st.compile_assign_target(fuel, &a.left, line),
                }
            },
            _ => Ok(st.op(OpCode::Pop, line)),
        }
    }

    /// Assign the value on the stack to an assignment target, consuming it.
    pub open spec fn compile_assign_target(
        self,
        fuel: nat,
        target: &'p AssignmentTarget,
        line: u32,
    ) -> Result<CState<'p>, Failure>
        decreases fuel, target, 6int,
    {
        let st = self;
        match target {
            AssignmentTarget::Identifier(id) => {
                let st = st.compile_set_variable(id.name, line);
                Ok(st.op(OpCode::Pop, line))
            },
            AssignmentTarget::Member(m) => {
                match st.compile_expr(fuel, &m.object) {
                    Err(e) => Err(e),
                    Ok(st) => {
                        let st = st.op(OpCode::Swap, line);
                        match st.store_swapped_member(fuel, &m.property, line) {
                            Err(e) => Err(e),
                            Ok(st) => Ok(st.op(OpCode::Pop, line)),
                        }
                    },
                }
            },
            AssignmentTarget::Pattern(p) => st.compile_assign_pat(fuel, p, line),
        }
    }

    /// An anonymous function that is the default of an identifier target takes its name.
    pub open spec fn name_target_default(
        self,
        target: &'p AssignmentTarget,
        right: &'p Expression,
    ) -> CState<'p>
    {
        let st = self;
        match target {
            AssignmentTarget::Identifier(id) => {
                if shape::anonymous_fn(*right) {
                    st.set_pending_name(id.name)
                } else {
                    st
                }
            },
            AssignmentTarget::Pattern(p) => st.name_default(p, right),
            AssignmentTarget::Member(_) => st,
        }
    }

    /// Assign each element in turn from the iterator on the stack. An element that is no
    /// pattern counts as a hole.
    pub open spec fn assign_expr_elements(
        self,
        fuel: nat,
        line: u32,
        elements: &'p Vec<Option<Expression>>,
        i: int,
    ) -> Result<CState<'p>, Failure>
        decreases fuel, elements, elements@.len() - i,
    {
        let st = self;
        if i < 0 || i >= elements@.len() {
            Ok(st)
        } else {
            let elem = &elements@[i];
            match elem {
                None => {
                    let st = st.op(OpCode::Dup, line);
                    let st = st.op(OpCode::IteratorNext, line);
                    let st = st.op(OpCode::Pop, line);
                    st.assign_expr_elements(fuel, line, elements, i + 1)
                },
                Some(e) => {
                    match e {
                        Expression::Spread(s) => {
                            if shape::pattern_expr(s.argument) {
                                let st = st.collect_iterated(line);
                                st.compile_assign_expr(fuel, &s.argument, line)
                            } else {
                                let st = st.op(OpCode::Dup, line);
                                let st = st.op(OpCode::IteratorNext, line);
                                let st = st.op(OpCode::Pop, line);
                                st.assign_expr_elements(fuel, line, elements, i + 1)
                            }
                        },
                        Expression::Assignment(a) => {
                            let st = st.next_on_stack(line);
                            let st = st.name_target_default(&a.left, &a.right);
                            match st.emit_default_check(fuel, &a.right, line) {
                                Err(e) => Err(e),
                                Ok(st) => {
                                    match st.compile_assign_target(fuel, &a.left, line) {
                                        Err(e) => Err(e),
                                        Ok(st) => {
                                            st.assign_expr_elements(fuel, line, elements, i + 1)
                                        },
                                    }
                                },
                            }
                        },
                        _ => {
                            if shape::pattern_expr(*e) {
                                let st = st.next_on_stack(line);
                                match st.compile_assign_expr(fuel, e, line) {
                                    Err(e) => Err(e),
                                    Ok(st) => st.assign_expr_elements(fuel, line, elements, i + 1),
                                }
                            } else {
                                let st = st.op(OpCode::Dup, line);
                                let st = st.op(OpCode::IteratorNext, line);
                                let st = st.op(OpCode::Pop, line);
                                st.assign_expr_elements(fuel, line, elements, i + 1)
                            }
                        },
                    }
                },
            }
        }
    }

    /// Assign each property in turn from the object on the stack. A value that is no pattern
    /// is assigned to the empty name.
    pub open spec fn assign_expr_properties(
        self,
        fuel: nat,
        has_rest: bool,
        line: u32,
        properties: &'p Vec<ObjectProperty>,
        i: int,
    ) -> Result<CState<'p>, Failure>
        decreases fuel, properties, properties@.len() - i,
    {
        let st = self;
        if i < 0 || i >= properties@.len() {
            Ok(st)
        } else {
            let prop = &properties@[i];
            match prop {
                ObjectProperty::Property(p) => {
                    let st = st.op(OpCode::Dup, line);
                    if let PropertyKey::Private(_) = &p.key {
                        let st = st.op(OpCode::Pop, line);
                        st.assign_expr_properties(fuel, has_rest, line, properties, i + 1)
                    } else {
                        match st.compile_keyed_read(fuel, &p.key, has_rest, line) {
                            Err(e) => Err(e),
                            Ok(st) => {
                                match &p.value {
                                    Expression::Assignment(a) => {
                                        let st = st.name_target_default(&a.left, &a.right);
                                        match st.emit_default_check(fuel, &a.right, line) {
                                            Err(e) => Err(e),
                                            Ok(st) => {
                                                match st.compile_assign_target(
                                                    fuel,
                                                    &a.left,
                                                    line,
                                                ) {
                                                    Err(e) => Err(e),
                                                    Ok(st) => {
                                                        st.assign_expr_properties(
                                                            fuel,
                                                            has_rest,
                                                            line,
                                                            properties,
                                                            i + 1,
                                                        )
                                                    },
                                                }
                                            },
                                        }
                                    },
                                    _ => {
                                        if shape::pattern_expr(p.value) {
                                            match st.compile_assign_expr(fuel, &p.value, line) {
                                                Err(e) => Err(e),
                                                Ok(st) => {
                                                    st.assign_expr_properties(
                                                        fuel,
                                                        has_rest,
                                                        line,
                                                        properties,
                                                        i + 1,
                                                    )
                                                },
                                            }
                                        } else {
                                            let st = st.compile_set_variable(StringId(0), line);
                                            let st = st.op(OpCode::Pop, line);
                                            st.assign_expr_properties(
                                                fuel,
                                                has_rest,
                                                line,
                                                properties,
                                                i + 1,
                                            )
                                        }
                                    },
                                }
                            },
                        }
                    }
                },
                ObjectProperty::SpreadElement(s) => {
                    if shape::pattern_expr(s.argument) {
                        let excluded: Seq<StringId> = shape::excluded_keys(properties@);
                        let st = st.op(OpCode::Dup, line);
                        let st = st.emit_object_rest(excluded, shape::clamped(excluded), line);
                        match st.compile_assign_expr(fuel, &s.argument, line) {
                            Err(e) => Err(e),
                            Ok(st) => {
                                st.assign_expr_properties(fuel, has_rest, line, properties, i + 1)
                            },
                        }
                    } else {
                        st.assign_expr_properties(fuel, has_rest, line, properties, i + 1)
                    }
                },
            }
        }
    }

    /// Destructure the value in a local slot into fresh locals.
    pub open spec fn destructure_pattern_from_slot(
        self,
        fuel: nat,
        pat: &'p Pattern,
        src_slot: u8,
        line: u32,
    ) -> Result<CState<'p>, Failure>
        decreases fuel, pat, 5int,
    {
        let st = self;
        match pat {
            Pattern::Array(arr) => {
                let st = st.op_u8(OpCode::GetLocal, src_slot, line);
                let st = st.op(OpCode::GetIterator, line);
                let iter_slot: u8 = st.next_slot();
                let (st, iter_anon) = st.intern("__arr_iter__"@);
                let st = st.declare_local(iter_anon);
                let st = st.op(OpCode::False, line);
                let done_slot: u8 = st.next_slot();
                let (st, done_anon) = st.intern("__iter_done__"@);
                let st = st.declare_local(done_anon);
                match st.destructure_elements(fuel, iter_slot, done_slot, line, &arr.elements, 0) {
                    Err(e) => Err(e),
                    Ok(st) => {
                        if !shape::array_rest(arr.elements@) {
                            Ok(st.close_unless_done(iter_slot, done_slot, line))
                        } else {
                            Ok(st)
                        }
                    },
                }
            },
            Pattern::Object(obj) => {
                let st = st.op_u8(OpCode::GetLocal, src_slot, line);
                let st = st.emit_falsy_object_check(line);
                st.destructure_properties(fuel, src_slot, line, &obj.properties, 0)
            },
            _ => Ok(st),
        }
    }

    /// Consume the value on the stack; null and undefined throw. Only falsy values are looked
    /// at closely.
    pub open spec fn emit_falsy_object_check(self, line: u32) -> CState<'p>
    {
        let st = self;
        let (st, skip) = st.jump(OpCode::JumpIfFalsePeek, line);
        let st = st.op(OpCode::Pop, line);
        let (st, after_throw) = st.jump(OpCode::Jump, line);
        let st = st.patch(skip);
        let st = st.op(OpCode::Dup, line);
        let st = st.op(OpCode::Undefined, line);
        let st = st.op(OpCode::StrictEq, line);
        let (st, is_undef_jump) = st.jump(OpCode::JumpIfTrue, line);
        let st = st.op(OpCode::Dup, line);
        let st = st.op(OpCode::Null, line);
        let st = st.op(OpCode::StrictEq, line);
        let (st, is_null_jump) = st.jump(OpCode::JumpIfTrue, line);
        let st = st.op(OpCode::Pop, line);
        let (st, after_throw2) = st.jump(OpCode::Jump, line);
        let st = st.patch(is_undef_jump);
        let st = st.patch(is_null_jump);
        let st = st.emit_throw_type_error("Cannot destructure 'undefined' or 'null'"@, line);
        let st = st.patch(after_throw);
        st.patch(after_throw2)
    }

    /// Bind each element in turn from the iterator in a slot.
    pub open spec fn destructure_elements(
        self,
        fuel: nat,
        iter_slot: u8,
        done_slot: u8,
        line: u32,
        elements: &'p Vec<Option<Pattern>>,
        i: int,
    ) -> Result<CState<'p>, Failure>
        decreases fuel, elements, elements@.len() - i,
    {
        let st = self;
        if i < 0 || i >= elements@.len() {
            Ok(st)
        } else {
            let elem = &elements@[i];
            match elem {
                Some(pat) => {
                    match pat {
                        Pattern::Rest(r) => {
                            let st = st.collect_from_slot(iter_slot, line);
                            st.destructure_value(
                                fuel,
                                &r.argument,
                                "__destruct_rest__"@,
                                line,
                            )
                        },
                        Pattern::Assignment(a) => {
                            let st = st.next_from_slot(iter_slot, done_slot, line);
                            match st.default_for_local(fuel, &a.left, &a.right, line) {
                                Err(e) => Err(e),
                                Ok(st) => {
                                    match st.destructure_value(
                                        fuel,
                                        &a.left,
                                        "__destruct_inner__"@,
                                        line,
                                    ) {
                                        Err(e) => Err(e),
                                        Ok(st) => {
                                            st.destructure_elements(
                                                fuel,
                                                iter_slot,
                                                done_slot,
                                                line,
                                                elements,
                                                i + 1,
                                            )
                                        },
                                    }
                                },
                            }
                        },
                        _ => {
                            let st = st.next_from_slot(iter_slot, done_slot, line);
                            match st.destructure_value(fuel, pat, "__destruct_inner__"@, line) {
                                Err(e) => Err(e),
                                Ok(st) => {
                                    st.destructure_elements(
                                        fuel,
                                        iter_slot,
                                        done_slot,
                                        line,
                                        elements,
                                        i + 1,
                                    )
                                },
                            }
                        },
                    }
                },
                None => {
                    let st = st.skip_from_slot(iter_slot, line);
                    st.destructure_elements(fuel, iter_slot, done_slot, line, elements, i + 1)
                },
            }
        }
    }

    /// With a value on the stack, make it a local, and destructure it further where the
    /// pattern asks for it.
    pub open spec fn destructure_value(
        self,
        fuel: nat,
        pat: &'p Pattern,
        anon: Seq<char>,
        line: u32,
    ) -> Result<CState<'p>, Failure>
        decreases fuel, pat, 6int,
    {
        let st = self;
        match pat {
            Pattern::Identifier(id) => Ok(st.declare_local(id.name)),
            Pattern::Array(_) => {
                let (st, anon_id) = st.intern(anon);
                let st = st.declare_local(anon_id);
                let inner_slot: u8 = st.last_slot();
                st.destructure_pattern_from_slot(fuel, pat, inner_slot, line)
            },
            Pattern::Object(_) => {
                let (st, anon_id) = st.intern(anon);
                let st = st.declare_local(anon_id);
                let inner_slot: u8 = st.last_slot();
                st.destructure_pattern_from_slot(fuel, pat, inner_slot, line)
            },
            _ => Ok(st.op(OpCode::Pop, line)),
        }
    }

    /// With a value on the stack, replace it by a default if it is undefined.
    pub open spec fn default_for_local(
        self,
        fuel: nat,
        left: &'p Pattern,
        right: &'p Expression,
        line: u32,
    ) -> Result<CState<'p>, Failure>
        decreases fuel, right, 6int,
    {
        let st = self;
        let st = st.op(OpCode::Dup, line);
        let st = st.op(OpCode::Undefined, line);
        let st = st.op(OpCode::StrictNe, line);
        let jump_idx: usize = st.here();
        let st = st.op(OpCode::JumpIfTrue, line);
        let st = st.raw16(0);
        let st = st.op(OpCode::Pop, line);
        let st = st.name_default(left, right);
        match st.compile_expr(fuel, right) {
            Err(e) => Err(e),
            Ok(st) => Ok(st.patch_short(jump_idx)),
        }
    }

    /// Bind each property in turn from the object in a slot.
    pub open spec fn destructure_properties(
        self,
        fuel: nat,
        src_slot: u8,
        line: u32,
        properties: &'p Vec<ObjectPatternProperty>,
        i: int,
    ) -> Result<CState<'p>, Failure>
        decreases fuel, properties, properties@.len() - i,
    {
        let st = self;
        if i < 0 || i >= properties@.len() {
            Ok(st)
        } else {
            let prop = &properties@[i];
            match prop {
                ObjectPatternProperty::Property { key, value, .. } => {
                    let st = st.op_u8(OpCode::GetLocal, src_slot, line);
                    if let PropertyKey::Private(_) = key {
                        let st = st.op(OpCode::Pop, line);
                        st.destructure_properties(fuel, src_slot, line, properties, i + 1)
                    } else {
                        match st.compile_keyed_read(fuel, key, false, line) {
                            Err(e) => Err(e),
                            Ok(st) => {
                                match value {
                                    Pattern::Assignment(a) => {
                                        match st.default_for_local(fuel, &a.left, &a.right, line) {
                                            Err(e) => Err(e),
                                            Ok(st) => {
                                                match st.destructure_value(
                                                    fuel,
                                                    &a.left,
                                                    "__destruct_inner__"@,
                                                    line,
                                                ) {
                                                    Err(e) => Err(e),
                                                    Ok(st) => {
                                                        st.destructure_properties(
                                                            fuel,
                                                            src_slot,
                                                            line,
                                                            properties,
                                                            i + 1,
                                                        )
                                                    },
                                                }
                                            },
                                        }
                                    },
                                    _ => {
                                        match st.destructure_value(
                                            fuel,
                                            value,
                                            "__destruct_inner__"@,
                                            line,
                                        ) {
                                            Err(e) => Err(e),
                                            Ok(st) => {
                                                st.destructure_properties(
                                                    fuel,
                                                    src_slot,
                                                    line,
                                                    properties,
                                                    i + 1,
                                                )
                                            },
                                        }
                                    },
                                }
                            },
                        }
                    }
                },
                ObjectPatternProperty::Rest(rest) => {
                    let excluded: Seq<StringId> = shape::excluded_names(properties@);
                    let st = st.op_u8(OpCode::GetLocal, src_slot, line);
                    let st = st.emit_object_rest(excluded, shape::clamped(excluded), line);
                    if let Pattern::Identifier(id) = &rest.argument {
                        let st = st.declare_local(id.name);
                        st.destructure_properties(fuel, src_slot, line, properties, i + 1)
                    } else {
                        let st = st.op(OpCode::Pop, line);
                        st.destructure_properties(fuel, src_slot, line, properties, i + 1)
                    }
                },
            }
        }
    }

    /// Destructure the value on the stack into a pattern of existing variables, consuming it.
    /// Array patterns are read by index.
    pub open spec fn compile_assign_to_pattern(
        self,
        fuel: nat,
        pat: &'p Pattern,
        line: u32,
    ) -> Result<CState<'p>, Failure>
        decreases fuel, pat, 5int,
    {
        let st = self;
        match pat {
            Pattern::Identifier(id) => {
                let st = st.compile_set_variable(id.name, line);
                Ok(st.op(OpCode::Pop, line))
            },
            Pattern::Member(m) => st.compile_member_target(fuel, m, line),
            Pattern::Object(obj) => {
                match st.assign_to_properties(fuel, line, &obj.properties, 0) {
                    Err(e) => Err(e),
                    Ok(st) => Ok(st.op(OpCode::Pop, line)),
                }
            },
            Pattern::Array(arr) => {
                let st = st.op(OpCode::Dup, line);
                let st = st.op(OpCode::Undefined, line);
                let st = st.op(OpCode::StrictEq, line);
                let (st, undef_jump) = st.jump(OpCode::JumpIfTrue, line);
                let st = st.op(OpCode::Dup, line);
                let st = st.op(OpCode::Null, line);
                let st = st.op(OpCode::StrictEq, line);
                let (st, null_jump) = st.jump(OpCode::JumpIfTrue, line);
                let (st, skip_throw) = st.jump(OpCode::Jump, line);
                let st = st.patch(undef_jump);
                let st = st.patch(null_jump);
                let st = st.emit_throw_type_error("object is not iterable"@, line);
                let st = st.patch(skip_throw);
                match st.assign_to_elements(fuel, line, &arr.elements, 0) {
                    Err(e) => Err(e),
                    Ok(st) => Ok(st.op(OpCode::Pop, line)),
                }
            },
            _ => Ok(st.op(OpCode::Pop, line)),
        }
    }

    /// Assign each property in turn from the object on the stack.
    pub open spec fn assign_to_properties(
        self,
        fuel: nat,
        line: u32,
        properties: &'p Vec<ObjectPatternProperty>,
        i: int,
    ) -> Result<CState<'p>, Failure>
        decreases fuel, properties, properties@.len() - i,
    {
        let st = self;
        if i < 0 || i >= properties@.len() {
            Ok(st)
        } else {
            let prop = &properties@[i];
            if let ObjectPatternProperty::Property { key, value, .. } = prop {
                let st = st.op(OpCode::Dup, line);
                if let PropertyKey::Private(_) = key {
                    let st = st.op(OpCode::Pop, line);
                    st.assign_to_properties(fuel, line, properties, i + 1)
                } else {
                    match st.compile_keyed_read(fuel, key, false, line) {
                        Err(e) => Err(e),
                        Ok(st) => {
                            match value {
                                Pattern::Identifier(id) => {
                                    let st = st.compile_set_variable(id.name, line);
                                    let st = st.op(OpCode::Pop, line);
                                    st.assign_to_properties(fuel, line, properties, i + 1)
                                },
                                Pattern::Assignment(a) => {
                                    let st = st.op(OpCode::Dup, line);
                                    let st = st.op(OpCode::Undefined, line);
                                    let st = st.op(OpCode::StrictEq, line);
                                    let jump_idx: usize = st.here();
                                    let st = st.op(OpCode::JumpIfFalse, line);
                                    let st = st.raw16(0);
                                    let st = st.op(OpCode::Pop, line);
                                    match st.compile_expr(fuel, &a.right) {
                                        Err(e) => Err(e),
                                        Ok(st) => {
                                            let st = st.patch_short(jump_idx);
                                            let st = if let Pattern::Identifier(id) = &a.left {
                                                st.compile_set_variable(id.name, line)
                                            } else {
                                                st
                                            };
                                            let st = st.op(OpCode::Pop, line);
                                            st.assign_to_properties(fuel, line, properties, i + 1)
                                        },
                                    }
                                },
                                Pattern::Object(_) => {
                                    match st.compile_assign_to_pattern(fuel, value, line) {
                                        Err(e) => Err(e),
                                        Ok(st) => {
                                            st.assign_to_properties(fuel, line, properties, i + 1)
                                        },
                                    }
                                },
                                Pattern::Array(_) => {
                                    match st.compile_assign_to_pattern(fuel, value, line) {
                                        Err(e) => Err(e),
                                        Ok(st) => {
                                            st.assign_to_properties(fuel, line, properties, i + 1)
                                        },
                                    }
                                },
                                _ => {
                                    let st = st.op(OpCode::Pop, line);
                                    st.assign_to_properties(fuel, line, properties, i + 1)
                                },
                            }
                        },
                    }
                }
            } else {
                st.assign_to_properties(fuel, line, properties, i + 1)
            }
        }
    }

    /// Assign each element in turn, read by index from the value on the stack.
    pub open spec fn assign_to_elements(
        self,
        fuel: nat,
        line: u32,
        elements: &'p Vec<Option<Pattern>>,
        i: int,
    ) -> Result<CState<'p>, Failure>
        decreases fuel, elements, elements@.len() - i,
    {
        let st = self;
        if i < 0 || i >= elements@.len() {
            Ok(st)
        } else {
            let elem = &elements@[i];
            if let Some(elem_pat) = elem {
                let st = st.op(OpCode::Dup, line);
                let st = st.emit_constant(Value::Int(i as i32), line);
                let st = st.op(OpCode::GetElement, line);
                match elem_pat {
                    Pattern::Identifier(id) => {
                        let st = st.compile_set_variable(id.name, line);
                        let st = st.op(OpCode::Pop, line);
                        st.assign_to_elements(fuel, line, elements, i + 1)
                    },
                    Pattern::Object(_) => {
                        match st.compile_assign_to_pattern(fuel, elem_pat, line) {
                            Err(e) => Err(e),
                            Ok(st) => st.assign_to_elements(fuel, line, elements, i + 1),
                        }
                    },
                    Pattern::Array(_) => {
                        match st.compile_assign_to_pattern(fuel, elem_pat, line) {
                            Err(e) => Err(e),
                            Ok(st) => st.assign_to_elements(fuel, line, elements, i + 1),
                        }
                    },
                    _ => {
                        let st = st.op(OpCode::Pop, line);
                        st.assign_to_elements(fuel, line, elements, i + 1)
                    },
                }
            } else {
                st.assign_to_elements(fuel, line, elements, i + 1)
            }
        }
    }
}

impl<'p> Compiler<'p> {
    /// With a value on the stack, replace it by a default expression if it is undefined.
    pub(crate) fn emit_default_check(
        &mut self,
        fuel: u32,
        right: &'p Expression,
        line: u32,
    ) -> (done: Result<(), String>)
        requires
            old(self).st().good(),
        ensures
            steps::outcome(
                done,
                final(self).st(),
                old(self).st().emit_default_check(fuel as nat, right, line),
            ),
            done is Ok ==> final(self).st().depths() == old(self).st().depths(),
            final(self).st().good(),
            final(self).st().base == old(self).st().base,
        decreases fuel, right, 6int,
    {
        self.op(OpCode::Dup, line);
        self.op(OpCode::Undefined, line);
        self.op(OpCode::StrictNe, line);
        let jump_idx: usize = self.here();
        self.op(OpCode::JumpIfTrue, line);
        self.raw16(0);
        self.op(OpCode::Pop, line);
        self.compile_expr(fuel, right)?;
        self.patch_short(jump_idx);
        Ok(())
    }

    /// Emit the check that the value on the stack can be destructured: null and undefined
    /// throw. The value stays.
    pub(crate) fn emit_object_check(&mut self, line: u32)
        requires
            old(self).st().good(),
        ensures
            final(self).st() == old(self).st().emit_object_check(line),
            final(self).st().depths() == old(self).st().depths(),
            final(self).st().good(),
            final(self).st().base == old(self).st().base,
    {
        self.op(OpCode::Dup, line);
        self.op(OpCode::Undefined, line);
        self.op(OpCode::StrictEq, line);
        let undef_jump: usize = self.jump(OpCode::JumpIfTrue, line);
        self.op(OpCode::Dup, line);
        self.op(OpCode::Null, line);
        self.op(OpCode::StrictEq, line);
        let null_jump: usize = self.jump(OpCode::JumpIfTrue, line);
        let skip_throw: usize = self.jump(OpCode::Jump, line);
        self.patch(undef_jump);
        self.patch(null_jump);
        self.emit_throw_type_error("Cannot destructure 'undefined' or 'null'", line);
        self.patch(skip_throw);
    }

    /// Collect what the iterator in a slot still yields into a new array.
    pub(crate) fn collect_from_slot(&mut self, iter_slot: u8, line: u32)
        requires
            old(self).st().good(),
        ensures
            final(self).st() == old(self).st().collect_from_slot(iter_slot, line),
            final(self).st().depths() == old(self).st().depths(),
            final(self).st().good(),
            final(self).st().base == old(self).st().base,
    {
        self.op_u16(OpCode::CreateArray, 0, line);
        let loop_start: usize = self.here();
        self.op_u8(OpCode::GetLocal, iter_slot, line);
        self.op(OpCode::IteratorNext, line);
        self.op(OpCode::Dup, line);
        self.op(OpCode::IteratorDone, line);
        let exit_jump: usize = self.jump(OpCode::JumpIfTrue, line);
        self.op(OpCode::IteratorValue, line);
        self.op(OpCode::ArrayAppend, line);
        self.back(loop_start, line);
        self.patch(exit_jump);
        self.op(OpCode::Pop, line);
    }

    /// Advance the iterator in a slot and drop the result.
    pub(crate) fn skip_from_slot(&mut self, iter_slot: u8, line: u32)
        requires
            old(self).st().good(),
        ensures
            final(self).st() == old(self).st().skip_from_slot(iter_slot, line),
            final(self).st().depths() == old(self).st().depths(),
            final(self).st().good(),
            final(self).st().base == old(self).st().base,
    {
        self.op_u8(OpCode::GetLocal, iter_slot, line);
        self.op(OpCode::IteratorNext, line);
        self.op(OpCode::Pop, line);
    }

    /// Advance the iterator in a slot, note whether it is done, and push the value or
    /// undefined.
    pub(crate) fn next_from_slot(&mut self, iter_slot: u8, done_slot: u8, line: u32)
        requires
            old(self).st().good(),
        ensures
            final(self).st() == old(self).st().next_from_slot(iter_slot, done_slot, line),
            final(self).st().depths() == old(self).st().depths(),
            final(self).st().good(),
            final(self).st().base == old(self).st().base,
    {
        self.op_u8(OpCode::GetLocal, iter_slot, line);
        self.op(OpCode::IteratorNext, line);
        self.op(OpCode::Dup, line);
        self.op(OpCode::IteratorDone, line);
        self.op(OpCode::Dup, line);
        self.op_u8(OpCode::SetLocal, done_slot, line);
        self.op(OpCode::Pop, line);
        self.emit_value_or_undefined(line);
    }

    /// Close the iterator in a slot unless it was noted as done.
    pub(crate) fn close_unless_done(&mut self, iter_slot: u8, done_slot: u8, line: u32)
        requires
            old(self).st().good(),
        ensures
            final(self).st() == old(self).st().close_unless_done(iter_slot, done_slot, line),
            final(self).st().depths() == old(self).st().depths(),
            final(self).st().good(),
            final(self).st().base == old(self).st().base,
    {
        self.op_u8(OpCode::GetLocal, done_slot, line);
        let skip_close: usize = self.jump(OpCode::JumpIfTrue, line);
        self.op_u8(OpCode::GetLocal, iter_slot, line);
        self.op(OpCode::IteratorClose, line);
        self.patch(skip_close);
    }

    /// Bind the value on the stack to a name: a `var` is assigned, since hoisting has declared
    /// it, any other name becomes a local.
    pub(crate) fn bind_leaf(&mut self, name: StringId, hoisted: bool, line: u32)
        requires
            old(self).st().good(),
        ensures
            final(self).st() == old(self).st().bind_leaf(name, hoisted, line),
            final(self).st().depths() == old(self).st().depths(),
            final(self).st().good(),
            final(self).st().base == old(self).st().base,
    {
        if hoisted {
            self.compile_set_variable(name, line);
            self.op(OpCode::Pop, line);
        } else {
            self.declare_local(name);
        }
    }

    /// With a value on the stack, bind it according to a pattern, to locals or to variables
    /// that are hoisted.
    pub(crate) fn compile_bind_value_local(
        &mut self,
        fuel: u32,
        pat: &'p Pattern,
        hoisted: bool,
        line: u32,
    ) -> (done: Result<(), String>)
        requires
            old(self).st().good(),
        ensures
            steps::outcome(
                done,
                final(self).st(),
                old(self).st().compile_bind_value_local(fuel as nat, pat, hoisted, line),
            ),
            done is Ok ==> final(self).st().depths() == old(self).st().depths(),
            final(self).st().good(),
            final(self).st().base == old(self).st().base,
        decreases fuel, pat, 5int,
    {
        match pat {
            Pattern::Identifier(id) => {
                self.bind_leaf(id.name, hoisted, line);
            },
            Pattern::Array(inner) => {
                self.op(OpCode::GetIterator, line);
                let anon: StringId = self.intern("__d__");
                self.declare_local(anon);
                let slot: u8 = self.last_slot();
                self.compile_bind_arr_elems_local(fuel, &inner.elements, slot, hoisted, line)?;
            },
            Pattern::Object(inner) => {
                let anon: StringId = self.intern("__d__");
                self.declare_local(anon);
                let slot: u8 = self.last_slot();
                self.compile_bind_obj_props_local(fuel, &inner.properties, slot, hoisted, line)?;
            },
            _ => {
                self.op(OpCode::Pop, line);
            },
        }
        Ok(())
    }

    /// Bind array elements to locals; the iterator is in a local slot. It is closed at the
    /// end unless it is exhausted.
    pub(crate) fn compile_bind_arr_elems_local(
        &mut self,
        fuel: u32,
        elements: &'p Vec<Option<Pattern>>,
        iter_slot: u8,
        hoisted: bool,
        line: u32,
    ) -> (done: Result<(), String>)
        requires
            old(self).st().good(),
        ensures
            steps::outcome(
                done,
                final(self).st(),
                old(self).st().compile_bind_arr_elems_local(
                    fuel as nat,
                    elements,
                    iter_slot,
                    hoisted,
                    line,
                ),
            ),
            done is Ok ==> final(self).st().depths() == old(self).st().depths(),
            final(self).st().good(),
            final(self).st().base == old(self).st().base,
        decreases fuel, elements, elements@.len() as int + 1,
    {
        self.op(OpCode::False, line);
        let done_slot: u8 = self.next_slot();
        let done_anon: StringId = self.intern("__iter_done__");
        self.declare_local(done_anon);
        self.bind_elements_local(fuel, iter_slot, done_slot, hoisted, line, elements)?;
        if !has_array_rest(elements) {
            self.close_unless_done(iter_slot, done_slot, line);
        }
        Ok(())
    }

    /// Bind each element in turn; a rest element takes what is left and ends the pattern.
    pub(crate) fn bind_elements_local(
        &mut self,
        fuel: u32,
        iter_slot: u8,
        done_slot: u8,
        hoisted: bool,
        line: u32,
        elements: &'p Vec<Option<Pattern>>,
    ) -> (done: Result<(), String>)
        requires
            old(self).st().good(),
        ensures
            steps::outcome(
                done,
                final(self).st(),
                old(self).st().bind_elements_local(
                    fuel as nat,
                    iter_slot,
                    done_slot,
                    hoisted,
                    line,
                    elements,
                    0,
                ),
            ),
            done is Ok ==> final(self).st().depths() == old(self).st().depths(),
            final(self).st().good(),
            final(self).st().base == old(self).st().base,
        decreases fuel, elements, elements@.len() as int,
    {
        let mut i: usize = 0;
        while i < elements.len()
            invariant
                i <= elements@.len(),
                self.st().good(),
                self.st().depths() == old(self).st().depths(),
                self.st().base == old(self).st().base,
                self.st().bind_elements_local(
                    fuel as nat,
                    iter_slot,
                    done_slot,
                    hoisted,
                    line,
                    elements,
                    i as int,
                ) == old(self).st().bind_elements_local(
                    fuel as nat,
                    iter_slot,
                    done_slot,
                    hoisted,
                    line,
                    elements,
                    0,
                ),
            decreases elements@.len() - i,
        {
            let elem = &elements[i];
            assert(decreases_to!(elements => elements[i as int]));
            match elem {
                None => {
                    self.skip_from_slot(iter_slot, line);
                },
                Some(pat) => {
                    match pat {
                        Pattern::Rest(rest) => {
                            self.collect_from_slot(iter_slot, line);
                            self.compile_bind_value_local(fuel, &rest.argument, hoisted, line)?;
                            return Ok(());
                        },
                        Pattern::Assignment(a) => {
                            self.next_from_slot(iter_slot, done_slot, line);
                            self.name_default(&a.left, &a.right);
                            self.emit_default_check(fuel, &a.right, line)?;
                            self.compile_bind_value_local(fuel, &a.left, hoisted, line)?;
                        },
                        _ => {
                            self.next_from_slot(iter_slot, done_slot, line);
                            self.compile_bind_value_local(fuel, pat, hoisted, line)?;
                        },
                    }
                },
            }
            i = i + 1;
        }
        Ok(())
    }

    /// Bind object properties to locals; the source object is in a local slot.
    pub(crate) fn compile_bind_obj_props_local(
        &mut self,
        fuel: u32,
        properties: &'p Vec<ObjectPatternProperty>,
        src_slot: u8,
        hoisted: bool,
        line: u32,
    ) -> (done: Result<(), String>)
        requires
            old(self).st().good(),
        ensures
            steps::outcome(
                done,
                final(self).st(),
                old(self).st().compile_bind_obj_props_local(
                    fuel as nat,
                    properties,
                    src_slot,
                    hoisted,
                    line,
                ),
            ),
            done is Ok ==> final(self).st().depths() == old(self).st().depths(),
            final(self).st().good(),
            final(self).st().base == old(self).st().base,
        decreases fuel, properties, properties@.len() as int + 1,
    {
        self.op_u8(OpCode::GetLocal, src_slot, line);
        self.emit_object_check(line);
        self.op(OpCode::Pop, line);
        self.bind_properties_local(fuel, src_slot, hoisted, line, properties)?;
        Ok(())
    }

    /// Bind each property in turn; a rest element takes what is left.
    pub(crate) fn bind_properties_local(
        &mut self,
        fuel: u32,
        src_slot: u8,
        hoisted: bool,
        line: u32,
        properties: &'p Vec<ObjectPatternProperty>,
    ) -> (done: Result<(), String>)
        requires
            old(self).st().good(),
        ensures
            steps::outcome(
                done,
                final(self).st(),
                old(self).st().bind_properties_local(
                    fuel as nat,
                    src_slot,
                    hoisted,
                    line,
                    properties,
                    0,
                ),
            ),
            done is Ok ==> final(self).st().depths() == old(self).st().depths(),
            final(self).st().good(),
            final(self).st().base == old(self).st().base,
        decreases fuel, properties, properties@.len() as int,
    {
        let mut i: usize = 0;
        while i < properties.len()
            invariant
                i <= properties@.len(),
                self.st().good(),
                self.st().depths() == old(self).st().depths(),
                self.st().base == old(self).st().base,
                self.st().bind_properties_local(
                    fuel as nat,
                    src_slot,
                    hoisted,
                    line,
                    properties,
                    i as int,
                ) == old(self).st().bind_properties_local(
                    fuel as nat,
                    src_slot,
                    hoisted,
                    line,
                    properties,
                    0,
                ),
            decreases properties@.len() - i,
        {
            let prop = &properties[i];
            assert(decreases_to!(properties => properties[i as int]));
            match prop {
                ObjectPatternProperty::Property { key, value, .. } => {
                    self.op_u8(OpCode::GetLocal, src_slot, line);
                    if let PropertyKey::Private(_) = key {
                        self.op(OpCode::Pop, line);
                        i = i + 1;
                        continue;
                    }
                    self.compile_keyed_read(fuel, key, false, line)?;
                    match value {
                        Pattern::Assignment(a) => {
                            self.name_default(&a.left, &a.right);
                            self.emit_default_check(fuel, &a.right, line)?;
                            self.compile_bind_value_local(fuel, &a.left, hoisted, line)?;
                        },
                        _ => {
                            self.compile_bind_value_local(fuel, value, hoisted, line)?;
                        },
                    }
                },
                ObjectPatternProperty::Rest(rest) => {
                    if let Pattern::Identifier(id) = &rest.argument {
                        let excluded: Vec<StringId> = collect_excluded(properties);
                        self.op_u8(OpCode::GetLocal, src_slot, line);
                        self.emit_object_rest(&excluded, name_count(&excluded), line);
                        self.bind_leaf(id.name, hoisted, line);
                    }
                },
            }
            i = i + 1;
        }
        Ok(())
    }

    /// With a value on the stack, bind it to globals according to a pattern.
    pub(crate) fn compile_bind_value_global(
        &mut self,
        fuel: u32,
        pat: &'p Pattern,
        line: u32,
    ) -> (done: Result<(), String>)
        requires
            old(self).st().good(),
        ensures
            steps::outcome(
                done,
                final(self).st(),
                old(self).st().compile_bind_value_global(fuel as nat, pat, line),
            ),
            done is Ok ==> final(self).st().depths() == old(self).st().depths(),
            final(self).st().good(),
            final(self).st().base == old(self).st().base,
        decreases fuel, pat, 5int,
    {
        match pat {
            Pattern::Identifier(id) => {
                self.op_name(OpCode::DefineGlobal, id.name, line);
            },
            Pattern::Array(inner) => {
                self.op(OpCode::GetIterator, line);
                self.compile_bind_arr_elems_global(fuel, &inner.elements, line)?;
                self.op(OpCode::Pop, line);
            },
            Pattern::Object(inner) => {
                self.compile_bind_obj_props_global(fuel, &inner.properties, line)?;
                self.op(OpCode::Pop, line);
            },
            _ => {
                self.op(OpCode::Pop, line);
            },
        }
        Ok(())
    }

    /// Bind array elements to globals; the iterator is on the stack and stays there.
    pub(crate) fn compile_bind_arr_elems_global(
        &mut self,
        fuel: u32,
        elements: &'p Vec<Option<Pattern>>,
        line: u32,
    ) -> (done: Result<(), String>)
        requires
            old(self).st().good(),
        ensures
            steps::outcome(
                done,
                final(self).st(),
                old(self).st().compile_bind_arr_elems_global(fuel as nat, elements, line),
            ),
            done is Ok ==> final(self).st().depths() == old(self).st().depths(),
            final(self).st().good(),
            final(self).st().base == old(self).st().base,
        decreases fuel, elements, elements@.len() as int + 1,
    {
        let iter_slot: u8 = self.next_slot();
        let anon: StringId = self.intern("__iter_g__");
        self.declare_local(anon);
        self.bind_elements_global(fuel, iter_slot, line, elements)?;
        if !has_array_rest(elements) {
            self.op_u8(OpCode::GetLocal, iter_slot, line);
            self.op(OpCode::IteratorClose, line);
        }
        self.pop_local();
        Ok(())
    }

    /// Bind each element in turn; a rest element takes what is left and ends the pattern.
    pub(crate) fn bind_elements_global(
        &mut self,
        fuel: u32,
        iter_slot: u8,
        line: u32,
        elements: &'p Vec<Option<Pattern>>,
    ) -> (done: Result<(), String>)
        requires
            old(self).st().good(),
        ensures
            steps::outcome(
                done,
                final(self).st(),
                old(self).st().bind_elements_global(fuel as nat, iter_slot, line, elements, 0),
            ),
            done is Ok ==> final(self).st().depths() == old(self).st().depths(),
            final(self).st().good(),
            final(self).st().base == old(self).st().base,
        decreases fuel, elements, elements@.len() as int,
    {
        let mut i: usize = 0;
        while i < elements.len()
            invariant
                i <= elements@.len(),
                self.st().good(),
                self.st().depths() == old(self).st().depths(),
                self.st().base == old(self).st().base,
                self.st().bind_elements_global(
                    fuel as nat,
                    iter_slot,
                    line,
                    elements,
                    i as int,
                ) == old(self).st().bind_elements_global(fuel as nat, iter_slot, line, elements, 0),
            decreases elements@.len() - i,
        {
            let elem = &elements[i];
            assert(decreases_to!(elements => elements[i as int]));
            match elem {
                None => {
                    self.skip_from_slot(iter_slot, line);
                },
                Some(pat) => {
                    match pat {
                        Pattern::Rest(rest) => {
                            self.collect_from_slot(iter_slot, line);
                            self.compile_bind_value_global(fuel, &rest.argument, line)?;
                            return Ok(());
                        },
                        Pattern::Assignment(a) => {
                            self.next_plain_from_slot(iter_slot, line);
                            self.name_default(&a.left, &a.right);
                            self.emit_default_check(fuel, &a.right, line)?;
                            self.compile_bind_value_global(fuel, &a.left, line)?;
                        },
                        _ => {
                            self.next_plain_from_slot(iter_slot, line);
                            self.compile_bind_value_global(fuel, pat, line)?;
                        },
                    }
                },
            }
            i = i + 1;
        }
        Ok(())
    }

    /// Advance the iterator in a slot and push the value or undefined.
    pub(crate) fn next_plain_from_slot(&mut self, iter_slot: u8, line: u32)
        requires
            old(self).st().good(),
        ensures
            final(self).st() == old(self).st().next_plain_from_slot(iter_slot, line),
            final(self).st().depths() == old(self).st().depths(),
            final(self).st().good(),
            final(self).st().base == old(self).st().base,
    {
        self.op_u8(OpCode::GetLocal, iter_slot, line);
        self.op(OpCode::IteratorNext, line);
        self.op(OpCode::Dup, line);
        self.op(OpCode::IteratorDone, line);
        self.emit_value_or_undefined(line);
    }

    /// Bind object properties to globals; the source is on the stack and stays there.
    pub(crate) fn compile_bind_obj_props_global(
        &mut self,
        fuel: u32,
        properties: &'p Vec<ObjectPatternProperty>,
        line: u32,
    ) -> (done: Result<(), String>)
        requires
            old(self).st().good(),
        ensures
            steps::outcome(
                done,
                final(self).st(),
                old(self).st().compile_bind_obj_props_global(fuel as nat, properties, line),
            ),
            done is Ok ==> final(self).st().depths() == old(self).st().depths(),
            final(self).st().good(),
            final(self).st().base == old(self).st().base,
        decreases fuel, properties, properties@.len() as int + 1,
    {
        self.emit_object_check(line);
        let src_slot: u8 = self.next_slot();
        let anon_src: StringId = self.intern("__obj_src__");
        self.declare_local(anon_src);
        self.bind_properties_global(fuel, src_slot, line, properties)?;
        self.pop_local();
        Ok(())
    }

    /// Bind each property in turn; a rest element takes what is left.
    pub(crate) fn bind_properties_global(
        &mut self,
        fuel: u32,
        src_slot: u8,
        line: u32,
        properties: &'p Vec<ObjectPatternProperty>,
    ) -> (done: Result<(), String>)
        requires
            old(self).st().good(),
        ensures
            steps::outcome(
                done,
                final(self).st(),
                old(self).st().bind_properties_global(fuel as nat, src_slot, line, properties, 0),
            ),
            done is Ok ==> final(self).st().depths() == old(self).st().depths(),
            final(self).st().good(),
            final(self).st().base == old(self).st().base,
        decreases fuel, properties, properties@.len() as int,
    {
        let mut i: usize = 0;
        while i < properties.len()
            invariant
                i <= properties@.len(),
                self.st().good(),
                self.st().depths() == old(self).st().depths(),
                self.st().base == old(self).st().base,
                self.st().bind_properties_global(
                    fuel as nat,
                    src_slot,
                    line,
                    properties,
                    i as int,
                ) == old(self).st().bind_properties_global(
                    fuel as nat,
                    src_slot,
                    line,
                    properties,
                    0,
                ),
            decreases properties@.len() - i,
        {
            let prop = &properties[i];
            assert(decreases_to!(properties => properties[i as int]));
            match prop {
                ObjectPatternProperty::Property { key, value, .. } => {
                    self.op_u8(OpCode::GetLocal, src_slot, line);
                    if let PropertyKey::Private(_) = key {
                        self.op(OpCode::Pop, line);
                        i = i + 1;
                        continue;
                    }
                    self.compile_keyed_read(fuel, key, false, line)?;
                    match value {
                        Pattern::Assignment(a) => {
                            self.name_default(&a.left, &a.right);
                            self.emit_default_check(fuel, &a.right, line)?;
                            self.compile_bind_value_global(fuel, &a.left, line)?;
                        },
                        _ => {
                            self.compile_bind_value_global(fuel, value, line)?;
                        },
                    }
                },
                ObjectPatternProperty::Rest(rest) => {
                    if let Pattern::Identifier(id) = &rest.argument {
                        let excluded: Vec<StringId> = collect_excluded(properties);
                        self.op_u8(OpCode::GetLocal, src_slot, line);
                        self.emit_object_rest(&excluded, name_count(&excluded), line);
                        self.op_name(OpCode::DefineGlobal, id.name, line);
                    }
                },
            }
            i = i + 1;
        }
        Ok(())
    }

    /// Emit the check that the value on the stack can be destructured, with a plain message
    /// thrown. The value stays.
    pub(crate) fn emit_nullish_check(&mut self, line: u32)
        requires
            old(self).st().good(),
        ensures
            final(self).st() == old(self).st().emit_nullish_check(line),
            final(self).st().depths() == old(self).st().depths(),
            final(self).st().good(),
            final(self).st().base == old(self).st().base,
    {
        self.op(OpCode::Dup, line);
        let nullish_jump: usize = self.jump(OpCode::JumpIfNullishPeek, line);
        self.op(OpCode::Pop, line);
        let skip_throw: usize = self.jump(OpCode::Jump, line);
        self.patch(nullish_jump);
        self.op(OpCode::Pop, line);
        self.op(OpCode::Pop, line);
        let msg_id: StringId = self.intern("Cannot destructure property of null or undefined");
        self.op_name(OpCode::Const, msg_id, line);
        self.op(OpCode::Throw, line);
        self.patch(skip_throw);
    }

    /// With an iterator on the stack, push its next value or undefined.
    pub(crate) fn next_on_stack(&mut self, line: u32)
        requires
            old(self).st().good(),
        ensures
            final(self).st() == old(self).st().next_on_stack(line),
            final(self).st().depths() == old(self).st().depths(),
            final(self).st().good(),
            final(self).st().base == old(self).st().base,
    {
        self.op(OpCode::Dup, line);
        self.op(OpCode::IteratorNext, line);
        self.op(OpCode::Dup, line);
        self.op(OpCode::IteratorDone, line);
        self.emit_value_or_undefined(line);
    }

    /// Destructure the value on the stack into a pattern, consuming it. Leaf identifiers are
    /// assigned, not declared.
    pub(crate) fn compile_assign_pat(
        &mut self,
        fuel: u32,
        pat: &'p Pattern,
        line: u32,
    ) -> (done: Result<(), String>)
        requires
            old(self).st().good(),
        ensures
            steps::outcome(
                done,
                final(self).st(),
                old(self).st().compile_assign_pat(fuel as nat, pat, line),
            ),
            done is Ok ==> final(self).st().depths() == old(self).st().depths(),
            final(self).st().good(),
            final(self).st().base == old(self).st().base,
        decreases fuel, pat, 5int,
    {
        match pat {
            Pattern::Identifier(id) => {
                self.compile_set_variable(id.name, line);
                self.op(OpCode::Pop, line);
            },
            Pattern::Array(inner) => {
                self.op(OpCode::GetIterator, line);
                self.assign_pat_elements(fuel, line, &inner.elements)?;
                if !has_array_rest(&inner.elements) {
                    self.op(OpCode::IteratorClose, line);
                }
            },
            Pattern::Object(inner) => {
                self.emit_nullish_check(line);
                let has_rest: bool = has_object_rest(&inner.properties);
                self.assign_pat_properties(fuel, has_rest, line, &inner.properties)?;
                self.op(OpCode::Pop, line);
            },
            Pattern::Assignment(a) => {
                self.emit_default_check(fuel, &a.right, line)?;
                self.compile_assign_pat(fuel, &a.left, line)?;
            },
            Pattern::Member(m) => {
                self.compile_expr(fuel, &m.object)?;
                self.op(OpCode::Swap, line);
                self.store_swapped_member(fuel, &m.property, line)?;
                self.op(OpCode::Pop, line);
            },
            Pattern::Rest(_) => {
                self.op(OpCode::Pop, line);
            },
        }
        Ok(())
    }

    /// With object and value on the stack, assign the value to a member.
    pub(crate) fn store_swapped_member(
        &mut self,
        fuel: u32,
        property: &'p MemberProperty,
        line: u32,
    ) -> (done: Result<(), String>)
        requires
            old(self).st().good(),
        ensures
            steps::outcome(
                done,
                final(self).st(),
                old(self).st().store_swapped_member(fuel as nat, property, line),
            ),
            done is Ok ==> final(self).st().depths() == old(self).st().depths(),
            final(self).st().good(),
            final(self).st().base == old(self).st().base,
        decreases fuel, property, 0int,
    {
        match property {
            MemberProperty::Identifier(name) => {
                let idx: u16 = self.make_string_constant(*name);
                self.emit_set_property(idx, line);
            },
            MemberProperty::Expression(key) => {
                self.compile_expr(fuel, key)?;
                self.op(OpCode::Swap, line);
                self.op(OpCode::SetElement, line);
            },
            MemberProperty::PrivateIdentifier(name) => {
                self.op_name(OpCode::SetPrivate, *name, line);
            },
        }
        Ok(())
    }

    /// Assign each element in turn from the iterator on the stack; a rest element takes what
    /// is left, drops the iterator and ends the pattern.
    pub(crate) fn assign_pat_elements(
        &mut self,
        fuel: u32,
        line: u32,
        elements: &'p Vec<Option<Pattern>>,
    ) -> (done: Result<(), String>)
        requires
            old(self).st().good(),
        ensures
            steps::outcome(
                done,
                final(self).st(),
                old(self).st().assign_pat_elements(fuel as nat, line, elements, 0),
            ),
            done is Ok ==> final(self).st().depths() == old(self).st().depths(),
            final(self).st().good(),
            final(self).st().base == old(self).st().base,
        decreases fuel, elements, elements@.len() as int,
    {
        let mut i: usize = 0;
        while i < elements.len()
            invariant
                i <= elements@.len(),
                self.st().good(),
                self.st().depths() == old(self).st().depths(),
                self.st().base == old(self).st().base,
                self.st().assign_pat_elements(
                    fuel as nat,
                    line,
                    elements,
                    i as int,
                ) == old(self).st().assign_pat_elements(fuel as nat, line, elements, 0),
            decreases elements@.len() - i,
        {
            let elem = &elements[i];
            assert(decreases_to!(elements => elements[i as int]));
            match elem {
                None => {
                    self.op(OpCode::Dup, line);
                    self.op(OpCode::IteratorNext, line);
                    self.op(OpCode::Pop, line);
                },
                Some(pat) => {
                    match pat {
                        Pattern::Rest(rest) => {
                            self.collect_iterated(line);
                            self.compile_assign_pat(fuel, &rest.argument, line)?;
                            return Ok(());
                        },
                        Pattern::Assignment(a) => {
                            self.next_on_stack(line);
                            self.name_default(&a.left, &a.right);
                            self.emit_default_check(fuel, &a.right, line)?;
                            self.compile_assign_pat(fuel, &a.left, line)?;
                        },
                        _ => {
                            self.next_on_stack(line);
                            self.compile_assign_pat(fuel, pat, line)?;
                        },
                    }
                },
            }
            i = i + 1;
        }
        Ok(())
    }

    /// Assign each property in turn from the object on the stack.
    pub(crate) fn assign_pat_properties(
        &mut self,
        fuel: u32,
        has_rest: bool,
        line: u32,
        properties: &'p Vec<ObjectPatternProperty>,
    ) -> (done: Result<(), String>)
        requires
            old(self).st().good(),
        ensures
            steps::outcome(
                done,
                final(self).st(),
                old(self).st().assign_pat_properties(fuel as nat, has_rest, line, properties, 0),
            ),
            done is Ok ==> final(self).st().depths() == old(self).st().depths(),
            final(self).st().good(),
            final(self).st().base == old(self).st().base,
        decreases fuel, properties, properties@.len() as int,
    {
        let mut i: usize = 0;
        while i < properties.len()
            invariant
                i <= properties@.len(),
                self.st().good(),
                self.st().depths() == old(self).st().depths(),
                self.st().base == old(self).st().base,
                self.st().assign_pat_properties(
                    fuel as nat,
                    has_rest,
                    line,
                    properties,
                    i as int,
                ) == old(self).st().assign_pat_properties(
                    fuel as nat,
                    has_rest,
                    line,
                    properties,
                    0,
                ),
            decreases properties@.len() - i,
        {
            let prop = &properties[i];
            assert(decreases_to!(properties => properties[i as int]));
            match prop {
                ObjectPatternProperty::Property { key, value, .. } => {
                    self.op(OpCode::Dup, line);
                    if let PropertyKey::Private(_) = key {
                        self.op(OpCode::Pop, line);
                        i = i + 1;
                        continue;
                    }
                    self.compile_keyed_read(fuel, key, has_rest, line)?;
                    match value {
                        Pattern::Assignment(a) => {
                            self.name_default(&a.left, &a.right);
                            self.emit_default_check(fuel, &a.right, line)?;
                            self.compile_assign_pat(fuel, &a.left, line)?;
                        },
                        _ => {
                            self.compile_assign_pat(fuel, value, line)?;
                        },
                    }
                },
                ObjectPatternProperty::Rest(rest) => {
                    let excluded: Vec<StringId> = collect_excluded(properties);
                    self.op(OpCode::Dup, line);
                    self.emit_object_rest(&excluded, clamped_count(&excluded), line);
                    self.compile_assign_pat(fuel, &rest.argument, line)?;
                },
            }
            i = i + 1;
        }
        Ok(())
    }

    /// Destructure the value on the stack into an expression that stands for a pattern (the
    /// head of a for-of loop), consuming it.
    pub(crate) fn compile_assign_expr(
        &mut self,
        fuel: u32,
        expr: &'p Expression,
        line: u32,
    ) -> (done: Result<(), String>)
        requires
            old(self).st().good(),
        ensures
            steps::outcome(
                done,
                final(self).st(),
                old(self).st().compile_assign_expr(fuel as nat, expr, line),
            ),
            done is Ok ==> final(self).st().depths() == old(self).st().depths(),
            final(self).st().good(),
            final(self).st().base == old(self).st().base,
        decreases fuel, expr, 6int,
    {
        match expr {
            Expression::Identifier(id) => {
                self.compile_set_variable(id.name, line);
                self.op(OpCode::Pop, line);
            },
            Expression::Array(arr) => {
                self.op(OpCode::GetIterator, line);
                self.assign_expr_elements(fuel, line, &arr.elements)?;
                if !has_spread_element(&arr.elements) {
                    self.op(OpCode::IteratorClose, line);
                }
            },
            Expression::Object(obj) => {
                self.emit_nullish_check(line);
                let has_rest: bool = has_object_spread(&obj.properties);
                self.assign_expr_properties(fuel, has_rest, line, &obj.properties)?;
                self.op(OpCode::Pop, line);
            },
            Expression::Member(m) => {
                self.compile_expr(fuel, &m.object)?;
                self.op(OpCode::Swap, line);
                self.store_swapped_member(fuel, &m.property, line)?;
                self.op(OpCode::Pop, line);
            },
            Expression::Assignment(a) => {
                self.emit_default_check(fuel, &a.right, line)?;
                self.compile_assign_target(fuel, &a.left, line)?;
            },
            _ => {
                self.op(OpCode::Pop, line);
            },
        }
        Ok(())
    }

    /// Assign the value on the stack to an assignment target, consuming it.
    pub(crate) fn compile_assign_target(
        &mut self,
        fuel: u32,
        target: &'p AssignmentTarget,
        line: u32,
    ) -> (done: Result<(), String>)
        requires
            old(self).st().good(),
        ensures
            steps::outcome(
                done,
                final(self).st(),
                old(self).st().compile_assign_target(fuel as nat, target, line),
            ),
            done is Ok ==> final(self).st().depths() == old(self).st().depths(),
            final(self).st().good(),
            final(self).st().base == old(self).st().base,
        decreases fuel, target, 6int,
    {
        match target {
            AssignmentTarget::Identifier(id) => {
                self.compile_set_variable(id.name, line);
                self.op(OpCode::Pop, line);
            },
            AssignmentTarget::Member(m) => {
                self.compile_expr(fuel, &m.object)?;
                self.op(OpCode::Swap, line);
                self.store_swapped_member(fuel, &m.property, line)?;
                self.op(OpCode::Pop, line);
            },
            AssignmentTarget::Pattern(p) => {
                self.compile_assign_pat(fuel, p, line)?;
            },
        }
        Ok(())
    }

    /// An anonymous function that is the default of an identifier target takes its name.
    pub(crate) fn name_target_default(
        &mut self,
        target: &'p AssignmentTarget,
        right: &'p Expression,
    )
        requires
            old(self).st().good(),
        ensures
            final(self).st() == old(self).st().name_target_default(target, right),
            final(self).st().depths() == old(self).st().depths(),
            final(self).st().good(),
            final(self).st().base == old(self).st().base,
    {
        match target {
            AssignmentTarget::Identifier(id) => {
                if is_anonymous_fn_def(right) {
                    self.set_pending_name(id.name);
                }
            },
            AssignmentTarget::Pattern(p) => {
                self.name_default(p, right);
            },
            AssignmentTarget::Member(_) => {},
        }
    }

    /// Assign each element in turn from the iterator on the stack. An element that is no
    /// pattern counts as a hole.
    pub(crate) fn assign_expr_elements(
        &mut self,
        fuel: u32,
        line: u32,
        elements: &'p Vec<Option<Expression>>,
    ) -> (done: Result<(), String>)
        requires
            old(self).st().good(),
        ensures
            steps::outcome(
                done,
                final(self).st(),
                old(self).st().assign_expr_elements(fuel as nat, line, elements, 0),
            ),
            done is Ok ==> final(self).st().depths() == old(self).st().depths(),
            final(self).st().good(),
            final(self).st().base == old(self).st().base,
        decreases fuel, elements, elements@.len() as int,
    {
        let mut i: usize = 0;
        while i < elements.len()
            invariant
                i <= elements@.len(),
                self.st().good(),
                self.st().depths() == old(self).st().depths(),
                self.st().base == old(self).st().base,
                self.st().assign_expr_elements(
                    fuel as nat,
                    line,
                    elements,
                    i as int,
                ) == old(self).st().assign_expr_elements(fuel as nat, line, elements, 0),
            decreases elements@.len() - i,
        {
            let elem = &elements[i];
            assert(decreases_to!(elements => elements[i as int]));
            match elem {
                None => {
                    self.op(OpCode::Dup, line);
                    self.op(OpCode::IteratorNext, line);
                    self.op(OpCode::Pop, line);
                },
                Some(e) => {
                    match e {
                        Expression::Spread(s) => {
                            if is_pattern_expr(&s.argument) {
                                self.collect_iterated(line);
                                self.compile_assign_expr(fuel, &s.argument, line)?;
                                return Ok(());
                            } else {
                                self.op(OpCode::Dup, line);
                                self.op(OpCode::IteratorNext, line);
                                self.op(OpCode::Pop, line);
                            }
                        },
                        Expression::Assignment(a) => {
                            self.next_on_stack(line);
                            self.name_target_default(&a.left, &a.right);
                            self.emit_default_check(fuel, &a.right, line)?;
                            self.compile_assign_target(fuel, &a.left, line)?;
                        },
                        _ => {
                            if is_pattern_expr(e) {
                                self.next_on_stack(line);
                                self.compile_assign_expr(fuel, e, line)?;
                            } else {
                                self.op(OpCode::Dup, line);
                                self.op(OpCode::IteratorNext, line);
                                self.op(OpCode::Pop, line);
                            }
                        },
                    }
                },
            }
            i = i + 1;
        }
        Ok(())
    }

    /// Assign each property in turn from the object on the stack. A value that is no pattern
    /// is assigned to the empty name.
    pub(crate) fn assign_expr_properties(
        &mut self,
        fuel: u32,
        has_rest: bool,
        line: u32,
        properties: &'p Vec<ObjectProperty>,
    ) -> (done: Result<(), String>)
        requires
            old(self).st().good(),
        ensures
            steps::outcome(
                done,
                final(self).st(),
                old(self).st().assign_expr_properties(fuel as nat, has_rest, line, properties, 0),
            ),
            done is Ok ==> final(self).st().depths() == old(self).st().depths(),
            final(self).st().good(),
            final(self).st().base == old(self).st().base,
        decreases fuel, properties, properties@.len() as int,
    {
        let mut i: usize = 0;
        while i < properties.len()
            invariant
                i <= properties@.len(),
                self.st().good(),
                self.st().depths() == old(self).st().depths(),
                self.st().base == old(self).st().base,
                self.st().assign_expr_properties(
                    fuel as nat,
                    has_rest,
                    line,
                    properties,
                    i as int,
                ) == old(self).st().assign_expr_properties(
                    fuel as nat,
                    has_rest,
                    line,
                    properties,
                    0,
                ),
            decreases properties@.len() - i,
        {
            let prop = &properties[i];
            assert(decreases_to!(properties => properties[i as int]));
            match prop {
                ObjectProperty::Property(p) => {
                    self.op(OpCode::Dup, line);
                    if let PropertyKey::Private(_) = &p.key {
                        self.op(OpCode::Pop, line);
                        i = i + 1;
                        continue;
                    }
                    self.compile_keyed_read(fuel, &p.key, has_rest, line)?;
                    match &p.value {
                        Expression::Assignment(a) => {
                            self.name_target_default(&a.left, &a.right);
                            self.emit_default_check(fuel, &a.right, line)?;
                            self.compile_assign_target(fuel, &a.left, line)?;
                        },
                        _ => {
                            if is_pattern_expr(&p.value) {
                                self.compile_assign_expr(fuel, &p.value, line)?;
                            } else {
                                self.compile_set_variable(StringId(0), line);
                                self.op(OpCode::Pop, line);
                            }
                        },
                    }
                },
                ObjectProperty::SpreadElement(s) => {
                    if is_pattern_expr(&s.argument) {
                        let excluded: Vec<StringId> = collect_excluded_keys(properties);
                        self.op(OpCode::Dup, line);
                        self.emit_object_rest(&excluded, clamped_count(&excluded), line);
                        self.compile_assign_expr(fuel, &s.argument, line)?;
                    }
                },
            }
            i = i + 1;
        }
        Ok(())
    }

    /// Destructure the value in a local slot into fresh locals.
    pub(crate) fn destructure_pattern_from_slot(
        &mut self,
        fuel: u32,
        pat: &'p Pattern,
        src_slot: u8,
        line: u32,
    ) -> (done: Result<(), String>)
        requires
            old(self).st().good(),
        ensures
            steps::outcome(
                done,
                final(self).st(),
                old(self).st().destructure_pattern_from_slot(fuel as nat, pat, src_slot, line),
            ),
            done is Ok ==> final(self).st().depths() == old(self).st().depths(),
            final(self).st().good(),
            final(self).st().base == old(self).st().base,
        decreases fuel, pat, 5int,
    {
        match pat {
            Pattern::Array(arr) => {
                self.op_u8(OpCode::GetLocal, src_slot, line);
                self.op(OpCode::GetIterator, line);
                let iter_slot: u8 = self.next_slot();
                let iter_anon: StringId = self.intern("__arr_iter__");
                self.declare_local(iter_anon);
                self.op(OpCode::False, line);
                let done_slot: u8 = self.next_slot();
                let done_anon: StringId = self.intern("__iter_done__");
                self.declare_local(done_anon);
                self.destructure_elements(fuel, iter_slot, done_slot, line, &arr.elements)?;
                if !has_array_rest(&arr.elements) {
                    self.close_unless_done(iter_slot, done_slot, line);
                }
            },
            Pattern::Object(obj) => {
                self.op_u8(OpCode::GetLocal, src_slot, line);
                self.emit_falsy_object_check(line);
                self.destructure_properties(fuel, src_slot, line, &obj.properties)?;
            },
            _ => {},
        }
        Ok(())
    }

    /// Consume the value on the stack; null and undefined throw. Only falsy values are looked
    /// at closely.
    pub(crate) fn emit_falsy_object_check(&mut self, line: u32)
        requires
            old(self).st().good(),
        ensures
            final(self).st() == old(self).st().emit_falsy_object_check(line),
            final(self).st().depths() == old(self).st().depths(),
            final(self).st().good(),
            final(self).st().base == old(self).st().base,
    {
        let skip: usize = self.jump(OpCode::JumpIfFalsePeek, line);
        self.op(OpCode::Pop, line);
        let after_throw: usize = self.jump(OpCode::Jump, line);
        self.patch(skip);
        self.op(OpCode::Dup, line);
        self.op(OpCode::Undefined, line);
        self.op(OpCode::StrictEq, line);
        let is_undef_jump: usize = self.jump(OpCode::JumpIfTrue, line);
        self.op(OpCode::Dup, line);
        self.op(OpCode::Null, line);
        self.op(OpCode::StrictEq, line);
        let is_null_jump: usize = self.jump(OpCode::JumpIfTrue, line);
        self.op(OpCode::Pop, line);
        let after_throw2: usize = self.jump(OpCode::Jump, line);
        self.patch(is_undef_jump);
        self.patch(is_null_jump);
        self.emit_throw_type_error("Cannot destructure 'undefined' or 'null'", line);
        self.patch(after_throw);
        self.patch(after_throw2);
    }

    /// Bind each element in turn from the iterator in a slot.
    pub(crate) fn destructure_elements(
        &mut self,
        fuel: u32,
        iter_slot: u8,
        done_slot: u8,
        line: u32,
        elements: &'p Vec<Option<Pattern>>,
    ) -> (done: Result<(), String>)
        requires
            old(self).st().good(),
        ensures
            steps::outcome(
                done,
                final(self).st(),
                old(self).st().destructure_elements(
                    fuel as nat,
                    iter_slot,
                    done_slot,
                    line,
                    elements,
                    0,
                ),
            ),
            done is Ok ==> final(self).st().depths() == old(self).st().depths(),
            final(self).st().good(),
            final(self).st().base == old(self).st().base,
        decreases fuel, elements, elements@.len() as int,
    {
        let mut i: usize = 0;
        while i < elements.len()
            invariant
                i <= elements@.len(),
                self.st().good(),
                self.st().depths() == old(self).st().depths(),
                self.st().base == old(self).st().base,
                self.st().destructure_elements(
                    fuel as nat,
                    iter_slot,
                    done_slot,
                    line,
                    elements,
                    i as int,
                ) == old(self).st().destructure_elements(
                    fuel as nat,
                    iter_slot,
                    done_slot,
                    line,
                    elements,
                    0,
                ),
            decreases elements@.len() - i,
        {
            let elem = &elements[i];
            assert(decreases_to!(elements => elements[i as int]));
            match elem {
                Some(pat) => {
                    match pat {
                        Pattern::Rest(r) => {
                            self.collect_from_slot(iter_slot, line);
                            self.destructure_value(fuel, &r.argument, "__destruct_rest__", line)?;
                            return Ok(());
                        },
                        Pattern::Assignment(a) => {
                            self.next_from_slot(iter_slot, done_slot, line);
                            self.default_for_local(fuel, &a.left, &a.right, line)?;
                            self.destructure_value(fuel, &a.left, "__destruct_inner__", line)?;
                        },
                        _ => {
                            self.next_from_slot(iter_slot, done_slot, line);
                            self.destructure_value(fuel, pat, "__destruct_inner__", line)?;
                        },
                    }
                },
                None => {
                    self.skip_from_slot(iter_slot, line);
                },
            }
            i = i + 1;
        }
        Ok(())
    }

    /// With a value on the stack, make it a local, and destructure it further where the
    /// pattern asks for it.
    pub(crate) fn destructure_value(
        &mut self,
        fuel: u32,
        pat: &'p Pattern,
        anon: &str,
        line: u32,
    ) -> (done: Result<(), String>)
        requires
            old(self).st().good(),
        ensures
            steps::outcome(
                done,
                final(self).st(),
                old(self).st().destructure_value(fuel as nat, pat, anon@, line),
            ),
            done is Ok ==> final(self).st().depths() == old(self).st().depths(),
            final(self).st().good(),
            final(self).st().base == old(self).st().base,
        decreases fuel, pat, 6int,
    {
        match pat {
            Pattern::Identifier(id) => {
                self.declare_local(id.name);
            },
            Pattern::Array(_) => {
                let anon_id: StringId = self.intern(anon);
                self.declare_local(anon_id);
                let inner_slot: u8 = self.last_slot();
                self.destructure_pattern_from_slot(fuel, pat, inner_slot, line)?;
            },
            Pattern::Object(_) => {
                let anon_id: StringId = self.intern(anon);
                self.declare_local(anon_id);
                let inner_slot: u8 = self.last_slot();
                self.destructure_pattern_from_slot(fuel, pat, inner_slot, line)?;
            },
            _ => {
                self.op(OpCode::Pop, line);
            },
        }
        Ok(())
    }

    /// With a value on the stack, replace it by a default if it is undefined.
    pub(crate) fn default_for_local(
        &mut self,
        fuel: u32,
        left: &'p Pattern,
        right: &'p Expression,
        line: u32,
    ) -> (done: Result<(), String>)
        requires
            old(self).st().good(),
        ensures
            steps::outcome(
                done,
                final(self).st(),
                old(self).st().default_for_local(fuel as nat, left, right, line),
            ),
            done is Ok ==> final(self).st().depths() == old(self).st().depths(),
            final(self).st().good(),
            final(self).st().base == old(self).st().base,
        decreases fuel, right, 6int,
    {
        self.op(OpCode::Dup, line);
        self.op(OpCode::Undefined, line);
        self.op(OpCode::StrictNe, line);
        let jump_idx: usize = self.here();
        self.op(OpCode::JumpIfTrue, line);
        self.raw16(0);
        self.op(OpCode::Pop, line);
        self.name_default(left, right);
        self.compile_expr(fuel, right)?;
        self.patch_short(jump_idx);
        Ok(())
    }

    /// Bind each property in turn from the object in a slot.
    pub(crate) fn destructure_properties(
        &mut self,
        fuel: u32,
        src_slot: u8,
        line: u32,
        properties: &'p Vec<ObjectPatternProperty>,
    ) -> (done: Result<(), String>)
        requires
            old(self).st().good(),
        ensures
            steps::outcome(
                done,
                final(self).st(),
                old(self).st().destructure_properties(fuel as nat, src_slot, line, properties, 0),
            ),
            done is Ok ==> final(self).st().depths() == old(self).st().depths(),
            final(self).st().good(),
            final(self).st().base == old(self).st().base,
        decreases fuel, properties, properties@.len() as int,
    {
        let mut i: usize = 0;
        while i < properties.len()
            invariant
                i <= properties@.len(),
                self.st().good(),
                self.st().depths() == old(self).st().depths(),
                self.st().base == old(self).st().base,
                self.st().destructure_properties(
                    fuel as nat,
                    src_slot,
                    line,
                    properties,
                    i as int,
                ) == old(self).st().destructure_properties(
                    fuel as nat,
                    src_slot,
                    line,
                    properties,
                    0,
                ),
            decreases properties@.len() - i,
        {
            let prop = &properties[i];
            assert(decreases_to!(properties => properties[i as int]));
            match prop {
                ObjectPatternProperty::Property { key, value, .. } => {
                    self.op_u8(OpCode::GetLocal, src_slot, line);
                    if let PropertyKey::Private(_) = key {
                        self.op(OpCode::Pop, line);
                        i = i + 1;
                        continue;
                    }
                    self.compile_keyed_read(fuel, key, false, line)?;
                    match value {
                        Pattern::Assignment(a) => {
                            self.default_for_local(fuel, &a.left, &a.right, line)?;
                            self.destructure_value(fuel, &a.left, "__destruct_inner__", line)?;
                        },
                        _ => {
                            self.destructure_value(fuel, value, "__destruct_inner__", line)?;
                        },
                    }
                },
                ObjectPatternProperty::Rest(rest) => {
                    let excluded: Vec<StringId> = collect_excluded(properties);
                    self.op_u8(OpCode::GetLocal, src_slot, line);
                    self.emit_object_rest(&excluded, clamped_count(&excluded), line);
                    if let Pattern::Identifier(id) = &rest.argument {
                        self.declare_local(id.name);
                    } else {
                        self.op(OpCode::Pop, line);
                    }
                },
            }
            i = i + 1;
        }
        Ok(())
    }

    /// Destructure the value on the stack into a pattern of existing variables, consuming it.
    /// Array patterns are read by index.
    pub(crate) fn compile_assign_to_pattern(
        &mut self,
        fuel: u32,
        pat: &'p Pattern,
        line: u32,
    ) -> (done: Result<(), String>)
        requires
            old(self).st().good(),
        ensures
            steps::outcome(
                done,
                final(self).st(),
                old(self).st().compile_assign_to_pattern(fuel as nat, pat, line),
            ),
            done is Ok ==> final(self).st().depths() == old(self).st().depths(),
            final(self).st().good(),
            final(self).st().base == old(self).st().base,
        decreases fuel, pat, 5int,
    {
        match pat {
            Pattern::Identifier(id) => {
                self.compile_set_variable(id.name, line);
                self.op(OpCode::Pop, line);
            },
            Pattern::Member(m) => {
                self.compile_member_target(fuel, m, line)?;
            },
            Pattern::Object(obj) => {
                self.assign_to_properties(fuel, line, &obj.properties)?;
                self.op(OpCode::Pop, line);
            },
            Pattern::Array(arr) => {
                self.op(OpCode::Dup, line);
                self.op(OpCode::Undefined, line);
                self.op(OpCode::StrictEq, line);
                let undef_jump: usize = self.jump(OpCode::JumpIfTrue, line);
                self.op(OpCode::Dup, line);
                self.op(OpCode::Null, line);
                self.op(OpCode::StrictEq, line);
                let null_jump: usize = self.jump(OpCode::JumpIfTrue, line);
                let skip_throw: usize = self.jump(OpCode::Jump, line);
                self.patch(undef_jump);
                self.patch(null_jump);
                self.emit_throw_type_error("object is not iterable", line);
                self.patch(skip_throw);
                self.assign_to_elements(fuel, line, &arr.elements)?;
                self.op(OpCode::Pop, line);
            },
            _ => {
                self.op(OpCode::Pop, line);
            },
        }
        Ok(())
    }

    /// Assign each property in turn from the object on the stack.
    pub(crate) fn assign_to_properties(
        &mut self,
        fuel: u32,
        line: u32,
        properties: &'p Vec<ObjectPatternProperty>,
    ) -> (done: Result<(), String>)
        requires
            old(self).st().good(),
        ensures
            steps::outcome(
                done,
                final(self).st(),
                old(self).st().assign_to_properties(fuel as nat, line, properties, 0),
            ),
            done is Ok ==> final(self).st().depths() == old(self).st().depths(),
            final(self).st().good(),
            final(self).st().base == old(self).st().base,
        decreases fuel, properties, properties@.len() as int,
    {
        let mut i: usize = 0;
        while i < properties.len()
            invariant
                i <= properties@.len(),
                self.st().good(),
                self.st().depths() == old(self).st().depths(),
                self.st().base == old(self).st().base,
                self.st().assign_to_properties(
                    fuel as nat,
                    line,
                    properties,
                    i as int,
                ) == old(self).st().assign_to_properties(fuel as nat, line, properties, 0),
            decreases properties@.len() - i,
        {
            let prop = &properties[i];
            assert(decreases_to!(properties => properties[i as int]));
            if let ObjectPatternProperty::Property { key, value, .. } = prop {
                self.op(OpCode::Dup, line);
                if let PropertyKey::Private(_) = key {
                    self.op(OpCode::Pop, line);
                    i = i + 1;
                    continue;
                }
                self.compile_keyed_read(fuel, key, false, line)?;
                match value {
                    Pattern::Identifier(id) => {
                        self.compile_set_variable(id.name, line);
                        self.op(OpCode::Pop, line);
                    },
                    Pattern::Assignment(a) => {
                        self.op(OpCode::Dup, line);
                        self.op(OpCode::Undefined, line);
                        self.op(OpCode::StrictEq, line);
                        let jump_idx: usize = self.here();
                        self.op(OpCode::JumpIfFalse, line);
                        self.raw16(0);
                        self.op(OpCode::Pop, line);
                        self.compile_expr(fuel, &a.right)?;
                        self.patch_short(jump_idx);
                        if let Pattern::Identifier(id) = &a.left {
                            self.compile_set_variable(id.name, line);
                        }
                        self.op(OpCode::Pop, line);
                    },
                    Pattern::Object(_) => {
                        self.compile_assign_to_pattern(fuel, value, line)?;
                    },
                    Pattern::Array(_) => {
                        self.compile_assign_to_pattern(fuel, value, line)?;
                    },
                    _ => {
                        self.op(OpCode::Pop, line);
                    },
                }
            }
            i = i + 1;
        }
        Ok(())
    }

    /// Assign each element in turn, read by index from the value on the stack.
    pub(crate) fn assign_to_elements(
        &mut self,
        fuel: u32,
        line: u32,
        elements: &'p Vec<Option<Pattern>>,
    ) -> (done: Result<(), String>)
        requires
            old(self).st().good(),
        ensures
            steps::outcome(
                done,
                final(self).st(),
                old(self).st().assign_to_elements(fuel as nat, line, elements, 0),
            ),
            done is Ok ==> final(self).st().depths() == old(self).st().depths(),
            final(self).st().good(),
            final(self).st().base == old(self).st().base,
        decreases fuel, elements, elements@.len() as int,
    {
        let mut i: usize = 0;
        while i < elements.len()
            invariant
                i <= elements@.len(),
                self.st().good(),
                self.st().depths() == old(self).st().depths(),
                self.st().base == old(self).st().base,
                self.st().assign_to_elements(
                    fuel as nat,
                    line,
                    elements,
                    i as int,
                ) == old(self).st().assign_to_elements(fuel as nat, line, elements, 0),
            decreases elements@.len() - i,
        {
            let elem = &elements[i];
            assert(decreases_to!(elements => elements[i as int]));
            if let Some(elem_pat) = elem {
                self.op(OpCode::Dup, line);
                self.emit_constant(Value::Int(i as i32), line);
                self.op(OpCode::GetElement, line);
                match elem_pat {
                    Pattern::Identifier(id) => {
                        self.compile_set_variable(id.name, line);
                        self.op(OpCode::Pop, line);
                    },
                    Pattern::Object(_) => {
                        self.compile_assign_to_pattern(fuel, elem_pat, line)?;
                    },
                    Pattern::Array(_) => {
                        self.compile_assign_to_pattern(fuel, elem_pat, line)?;
                    },
                    _ => {
                        self.op(OpCode::Pop, line);
                    },
                }
            }
            i = i + 1;
        }
        Ok(())
    }
}

} // verus!
