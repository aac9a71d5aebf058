//! Expression compilation.

use vstd::prelude::*;
use crate::ast::node::{
    ArrayExpression, AssignmentExpression, AssignmentOperator, AssignmentTarget, BinaryExpression,
    BinaryOperator, CallExpression, ConditionalExpression, Expression, Identifier,
    LogicalExpression, LogicalOperator, MemberExpression, MemberProperty, MetaProperty,
    NewExpression, NumberLiteral, ObjectExpression, ObjectPatternProperty, ObjectProperty,
    OptionalChainElement, OptionalChainExpression, Pattern, Property, PropertyKey, PropertyKindVal,
    RegExpLiteral, TaggedTemplateExpression, TemplateElement, TemplateLiteral, UnaryExpression,
    UnaryOperator, UpdateExpression, UpdateOperator, YieldExpression,
};
use crate::compiler::shape;
use crate::compiler::compiler::{Compiler, steps};
use crate::compiler::compiler::state::{CState, Failure};
use crate::compiler::compiler::steps::{offset_message, plain_message};
use crate::compiler::opcode::OpCode;
use crate::compiler::shape::{
    binary_opcode, collect_excluded, compound_opcode, element_text, has_array_rest,
    has_object_rest, has_spread, is_anonymous_fn_def, is_logical_assignment, is_super,
    links_method, method_link, name_count, spread_index, tagged_count, unary_opcode,
};
use crate::runtime::number;
use crate::runtime::number::{POSITIVE_ONE, POSITIVE_ZERO, small_integer};
use crate::runtime::value::Value;
use crate::util::interner::StringId;

verus! {

impl<'p> CState<'p> {
    /// Compile an expression: its value ends up on top of the stack.
    pub open spec fn compile_expr(
        self,
        fuel: nat,
        expr: &'p Expression,
    ) -> Result<CState<'p>, Failure>
        decreases fuel, expr, 5int,
    {
        let st = self;
        match expr {
            Expression::NumberLiteral(n) => Ok(st.compile_number(n)),
            Expression::BigIntLiteral(b) => Ok(st.op_name(OpCode::LoadBigInt, b.raw, b.span.start)),
            Expression::StringLiteral(s) => Ok(st.op_name(OpCode::Const, s.value, s.span.start)),
            Expression::BooleanLiteral(b) => {
                Ok(st.op(if b.value { OpCode::True } else { OpCode::False }, b.span.start))
            },
            Expression::NullLiteral(span) => Ok(st.op(OpCode::Null, span.start)),
            Expression::Identifier(id) => Ok(st.compile_identifier(id)),
            Expression::This(span) => {
                let (st, this_name) = st.intern("__this__"@);
                Ok(st.op_name(OpCode::GetGlobal, this_name, span.start))
            },
            Expression::Binary(b) => st.compile_binary(fuel, b),
            Expression::Unary(u) => st.compile_unary(fuel, u),
            Expression::Update(u) => st.compile_update(fuel, u),
            Expression::Logical(l) => st.compile_logical(fuel, l),
            Expression::Conditional(c) => st.compile_conditional(fuel, c),
            Expression::Assignment(a) => st.compile_assignment(fuel, a),
            Expression::Sequence(s) => st.compile_sequence(fuel, &s.expressions, 0),
            Expression::Member(m) => st.compile_member(fuel, m),
            Expression::Call(c) => st.compile_call(fuel, c),
            Expression::New(n) => st.compile_new(fuel, n),
            Expression::Array(a) => st.compile_array(fuel, a),
            Expression::Object(o) => st.compile_object(fuel, o),
            Expression::Function(f) => st.compile_function_expr(fuel, f),
            Expression::ArrowFunction(a) => st.compile_arrow_expr(fuel, a),
            Expression::Class(c) => st.compile_class_expr(fuel, c),
            Expression::TemplateLiteral(t) => st.compile_template_literal(fuel, t),
            Expression::TaggedTemplate(t) => st.compile_tagged_template(fuel, t),
            Expression::Spread(s) => st.compile_expr(fuel, &s.argument),
            Expression::Yield(y) => st.compile_yield(fuel, y),
            Expression::Await(a) => {
                match st.compile_expr(fuel, &a.argument) {
                    Err(e) => Err(e),
                    Ok(st) => Ok(st.op(OpCode::Await, a.span.start)),
                }
            },
            Expression::OptionalChain(o) => st.compile_optional_chain(fuel, o),
            Expression::RegExpLiteral(r) => Ok(st.compile_regexp(r)),
            Expression::MetaProperty(m) => Ok(st.compile_meta_property(m)),
            Expression::Import(i) => {
                match st.compile_expr(fuel, &i.source) {
                    Err(e) => Err(e),
                    Ok(st) => Ok(st.op(OpCode::ImportDynamic, i.span.start)),
                }
            },
            Expression::Super(_) => Ok(st.op(OpCode::GetSuperConstructor, 0)),
        }
    }

    /// Compile a numeric literal: zero and one have opcodes of their own, small integers are
    /// integer constants, all else is a number constant.
    pub open spec fn compile_number(self, n: &'p NumberLiteral) -> CState<'p>
    {
        let st = self;
        let line: u32 = n.span.start;
        if n.value == POSITIVE_ZERO {
            st.op(OpCode::Zero, line)
        } else if n.value == POSITIVE_ONE {
            st.op(OpCode::One, line)
        } else {
            match number::small_integer_of(n.value) {
                Some(i) => st.emit_constant(Value::Int(i), line),
                None => st.emit_constant(Value::Number(n.value), line),
            }
        }
    }

    /// Compile an identifier reference.
    pub open spec fn compile_identifier(self, id: &'p Identifier) -> CState<'p>
    {
        let st = self;
        if st.name_is(id.name, "undefined"@) {
            st.op(OpCode::Undefined, id.span.start)
        } else {
            st.compile_get_variable(id.name, id.span.start)
        }
    }

    /// Compile a binary operation; `#name in obj` is a private-name check.
    pub open spec fn compile_binary(
        self,
        fuel: nat,
        b: &'p BinaryExpression,
    ) -> Result<CState<'p>, Failure>
        decreases fuel, b, 0int,
    {
        let st = self;
        let line: u32 = b.span.start;
        if b.operator == BinaryOperator::In {
            if let Expression::Identifier(id) = &b.left {
                if st.name_is_private(id.name) {
                    match st.compile_expr(fuel, &b.right) {
                        Err(e) => Err(e),
                        Ok(st) => Ok(st.op_name(OpCode::HasPrivate, id.name, line)),
                    }
                } else {
                    match st.compile_expr(fuel, &b.left) {
                        Err(e) => Err(e),
                        Ok(st) => {
                            match st.compile_expr(fuel, &b.right) {
                                Err(e) => Err(e),
                                Ok(st) => Ok(st.op(shape::binary_op(b.operator), line)),
                            }
                        },
                    }
                }
            } else {
                match st.compile_expr(fuel, &b.left) {
                    Err(e) => Err(e),
                    Ok(st) => {
                        match st.compile_expr(fuel, &b.right) {
                            Err(e) => Err(e),
                            Ok(st) => Ok(st.op(shape::binary_op(b.operator), line)),
                        }
                    },
                }
            }
        } else {
            match st.compile_expr(fuel, &b.left) {
                Err(e) => Err(e),
                Ok(st) => {
                    match st.compile_expr(fuel, &b.right) {
                        Err(e) => Err(e),
                        Ok(st) => Ok(st.op(shape::binary_op(b.operator), line)),
                    }
                },
            }
        }
    }

    /// Compile a unary operation. `typeof` of an unresolved name does not throw.
    pub open spec fn compile_unary(
        self,
        fuel: nat,
        u: &'p UnaryExpression,
    ) -> Result<CState<'p>, Failure>
        decreases fuel, u, 0int,
    {
        let st = self;
        let line: u32 = u.span.start;
        if u.operator == UnaryOperator::TypeOf {
            if let Expression::Identifier(id) = &u.argument {
                if st.resolve_local(id.name).is_none() {
                    let (st, found) = st.resolve_upvalue(id.name);
                    if found.is_none() {
                        Ok(st.op_name(OpCode::TypeOfGlobal, id.name, line))
                    } else {
                        if u.operator == UnaryOperator::Delete {
                            st.compile_delete(fuel, &u.argument, line)
                        } else {
                            match st.compile_expr(fuel, &u.argument) {
                                Err(e) => Err(e),
                                Ok(st) => Ok(st.op(shape::unary_op(u.operator), line)),
                            }
                        }
                    }
                } else {
                    if u.operator == UnaryOperator::Delete {
                        st.compile_delete(fuel, &u.argument, line)
                    } else {
                        match st.compile_expr(fuel, &u.argument) {
                            Err(e) => Err(e),
                            Ok(st) => Ok(st.op(shape::unary_op(u.operator), line)),
                        }
                    }
                }
            } else {
                if u.operator == UnaryOperator::Delete {
                    st.compile_delete(fuel, &u.argument, line)
                } else {
                    match st.compile_expr(fuel, &u.argument) {
                        Err(e) => Err(e),
                        Ok(st) => Ok(st.op(shape::unary_op(u.operator), line)),
                    }
                }
            }
        } else {
            if u.operator == UnaryOperator::Delete {
                st.compile_delete(fuel, &u.argument, line)
            } else {
                match st.compile_expr(fuel, &u.argument) {
                    Err(e) => Err(e),
                    Ok(st) => Ok(st.op(shape::unary_op(u.operator), line)),
                }
            }
        }
    }

    /// Compile a deletion.
    pub open spec fn compile_delete(
        self,
        fuel: nat,
        argument: &'p Expression,
        line: u32,
    ) -> Result<CState<'p>, Failure>
        decreases fuel, argument, 6int,
    {
        let st = self;
        match argument {
            Expression::Member(m) => {
                match st.compile_expr(fuel, &m.object) {
                    Err(e) => Err(e),
                    Ok(st) => {
                        match &m.property {
                            MemberProperty::Identifier(id) => {
                                let st = st.op_name(OpCode::Const, *id, line);
                                Ok(st.op(OpCode::DeleteProp, line))
                            },
                            MemberProperty::Expression(key) => {
                                match st.compile_expr(fuel, key) {
                                    Err(e) => Err(e),
                                    Ok(st) => Ok(st.op(OpCode::DeleteProp, line)),
                                }
                            },
                            MemberProperty::PrivateIdentifier(_) => Ok(st.op(OpCode::False, line)),
                        }
                    },
                }
            },
            Expression::Identifier(id) => Ok(st.op_name(OpCode::DeleteGlobal, id.name, line)),
            _ => {
                match st.compile_expr(fuel, argument) {
                    Err(e) => Err(e),
                    Ok(st) => {
                        let st = st.op(OpCode::Pop, line);
                        Ok(st.op(OpCode::True, line))
                    },
                }
            },
        }
    }

    /// Compile an increment or decrement.
    pub open spec fn compile_update(
        self,
        fuel: nat,
        u: &'p UpdateExpression,
    ) -> Result<CState<'p>, Failure>
        decreases fuel, u, 0int,
    {
        let st = self;
        let line: u32 = u.span.start;
        let inc_op: OpCode = if u.operator == UpdateOperator::Increment { OpCode::Inc } else { OpCode::Dec };
        match &u.argument {
            Expression::Identifier(id) => Ok(st.update_identifier(id.name, inc_op, u.prefix, line)),
            Expression::Member(m) => {
                match st.compile_expr(fuel, &m.object) {
                    Err(e) => Err(e),
                    Ok(st) => {
                        match &m.property {
                            MemberProperty::Identifier(name) => {
                                Ok(st.update_property(*name, inc_op, u.prefix, line))
                            },
                            MemberProperty::Expression(key) => {
                                match st.compile_expr(fuel, key) {
                                    Err(e) => Err(e),
                                    Ok(st) => Ok(st.update_element(inc_op, u.prefix, line)),
                                }
                            },
                            MemberProperty::PrivateIdentifier(_) => {
                                Ok(st.op(OpCode::Undefined, line))
                            },
                        }
                    },
                }
            },
            _ => {
                Err(
                    st.failing(
                        steps::offset_message_text("invalid update expression target at "@, line),
                    ),
                )
            },
        }
    }

    /// Increment or decrement a variable.
    pub open spec fn update_identifier(
        self,
        name: StringId,
        inc_op: OpCode,
        prefix: bool,
        line: u32,
    ) -> CState<'p>
    {
        let st = self;
        let (st, needs_ref) = st.ident_needs_with_ref(name);
        if needs_ref {
            let st = st.op_name(OpCode::WithRefResolve, name, line);
            let st = st.compile_get_variable_resolved(name, line);
            if prefix {
                let st = st.op(inc_op, line);
                st.compile_set_variable_resolved(name, line)
            } else {
                let st = st.op(OpCode::ToNumeric, line);
                let st = st.op(OpCode::Dup, line);
                let st = st.op(inc_op, line);
                let st = st.op(OpCode::Rot3, line);
                let st = st.op(OpCode::Rot3, line);
                let st = st.op(OpCode::Swap, line);
                let st = st.compile_set_variable_resolved(name, line);
                st.op(OpCode::Pop, line)
            }
        } else {
            let st = st.compile_get_variable(name, line);
            if prefix {
                let st = st.op(inc_op, line);
                st.compile_set_variable(name, line)
            } else {
                let st = st.op(OpCode::ToNumeric, line);
                let st = st.op(OpCode::Dup, line);
                let st = st.op(inc_op, line);
                let st = st.compile_set_variable(name, line);
                st.op(OpCode::Pop, line)
            }
        }
    }

    /// Increment or decrement a property of the object on the stack.
    pub open spec fn update_property(
        self,
        name: StringId,
        inc_op: OpCode,
        prefix: bool,
        line: u32,
    ) -> CState<'p>
    {
        let st = self;
        let (st, idx) = st.make_string_constant(name);
        let st = st.op(OpCode::Dup, line);
        let st = st.emit_get_property(idx, line);
        if prefix {
            let st = st.op(inc_op, line);
            st.emit_set_property(idx, line)
        } else {
            let st = st.op(OpCode::Dup, line);
            let st = st.op(OpCode::Rot3, line);
            let st = st.op(inc_op, line);
            let st = st.emit_set_property(idx, line);
            st.op(OpCode::Pop, line)
        }
    }

    /// Increment or decrement the element that object and key on the stack denote.
    pub open spec fn update_element(self, inc_op: OpCode, prefix: bool, line: u32) -> CState<'p>
    {
        let st = self;
        let st = st.op(OpCode::Dup2, line);
        let st = st.op(OpCode::GetElement, line);
        if prefix {
            let st = st.op(inc_op, line);
            st.op(OpCode::SetElement, line)
        } else {
            let st = st.op(OpCode::ToNumeric, line);
            let st = st.op(OpCode::Rot3, line);
            let st = st.op(OpCode::Dup2, line);
            let st = st.op(OpCode::GetElement, line);
            let st = st.op(inc_op, line);
            let st = st.op(OpCode::SetElement, line);
            st.op(OpCode::Pop, line)
        }
    }

    /// Compile a short-circuit operation.
    pub open spec fn compile_logical(
        self,
        fuel: nat,
        l: &'p LogicalExpression,
    ) -> Result<CState<'p>, Failure>
        decreases fuel, l, 0int,
    {
        let st = self;
        let line: u32 = l.span.start;
        match st.compile_expr(fuel, &l.left) {
            Err(e) => Err(e),
            Ok(st) => {
                match l.operator {
                    LogicalOperator::And => {
                        let (st, jump) = st.jump(OpCode::JumpIfFalsePeek, line);
                        let st = st.op(OpCode::Pop, line);
                        match st.compile_expr(fuel, &l.right) {
                            Err(e) => Err(e),
                            Ok(st) => Ok(st.patch(jump)),
                        }
                    },
                    LogicalOperator::Or => {
                        let (st, jump) = st.jump(OpCode::JumpIfTruePeek, line);
                        let st = st.op(OpCode::Pop, line);
                        match st.compile_expr(fuel, &l.right) {
                            Err(e) => Err(e),
                            Ok(st) => Ok(st.patch(jump)),
                        }
                    },
                    LogicalOperator::NullishCoalescing => {
                        let (st, jump) = st.jump(OpCode::JumpIfNullishPeek, line);
                        let (st, end) = st.jump(OpCode::Jump, line);
                        let st = st.patch(jump);
                        let st = st.op(OpCode::Pop, line);
                        match st.compile_expr(fuel, &l.right) {
                            Err(e) => Err(e),
                            Ok(st) => Ok(st.patch(end)),
                        }
                    },
                }
            },
        }
    }

    /// Compile a conditional expression.
    pub open spec fn compile_conditional(
        self,
        fuel: nat,
        c: &'p ConditionalExpression,
    ) -> Result<CState<'p>, Failure>
        decreases fuel, c, 0int,
    {
        let st = self;
        let line: u32 = c.span.start;
        match st.compile_expr(fuel, &c.test) {
            Err(e) => Err(e),
            Ok(st) => {
                let (st, then_jump) = st.jump(OpCode::JumpIfFalse, line);
                match st.compile_expr(fuel, &c.consequent) {
                    Err(e) => Err(e),
                    Ok(st) => {
                        let (st, else_jump) = st.jump(OpCode::Jump, line);
                        let st = st.patch(then_jump);
                        match st.compile_expr(fuel, &c.alternate) {
                            Err(e) => Err(e),
                            Ok(st) => Ok(st.patch(else_jump)),
                        }
                    },
                }
            },
        }
    }

    /// Compile an assignment.
    pub open spec fn compile_assignment(
        self,
        fuel: nat,
        a: &'p AssignmentExpression,
    ) -> Result<CState<'p>, Failure>
        decreases fuel, a, 1int,
    {
        let st = self;
        let line: u32 = a.span.start;
        match &a.left {
            AssignmentTarget::Identifier(id) => {
                st.assign_identifier(fuel, id.name, a.operator, &a.right, line)
            },
            AssignmentTarget::Member(m) => {
                match st.compile_expr(fuel, &m.object) {
                    Err(e) => Err(e),
                    Ok(st) => st.compile_member_store(fuel, a, line),
                }
            },
            AssignmentTarget::Pattern(pat) => {
                match st.compile_expr(fuel, &a.right) {
                    Err(e) => Err(e),
                    Ok(st) => {
                        match pat {
                            Pattern::Array(arr_pat) => {
                                if shape::array_rest(arr_pat.elements@) {
                                    st.assign_indexed_elements(
                                        fuel,
                                        line,
                                        &arr_pat.elements,
                                        0,
                                    )
                                } else {
                                    st.assign_iterated_elements(
                                        fuel,
                                        &arr_pat.elements,
                                        line,
                                    )
                                }
                            },
                            Pattern::Object(obj_pat) => {
                                let st = st.op(OpCode::Dup, line);
                                let (st, nullish_jump) = st.jump(OpCode::JumpIfNullishPeek, line);
                                let st = st.op(OpCode::Pop, line);
                                let (st, skip_throw) = st.jump(OpCode::Jump, line);
                                let st = st.patch(nullish_jump);
                                let st = st.op(OpCode::Pop, line);
                                let st = st.emit_throw_type_error(
                                    "Cannot destructure 'undefined' or 'null'"@,
                                    line,
                                );
                                let st = st.patch(skip_throw);
                                let has_rest: bool = shape::object_rest(obj_pat.properties@);
                                st.assign_properties(
                                    fuel,
                                    has_rest,
                                    line,
                                    &obj_pat.properties,
                                    0,
                                )
                            },
                            _ => Ok(st),
                        }
                    },
                }
            },
        }
    }

    /// Assign a value to a variable, with a plain, compound or logical operator.
    pub open spec fn assign_identifier(
        self,
        fuel: nat,
        name: StringId,
        operator: AssignmentOperator,
        right: &'p Expression,
        line: u32,
    ) -> Result<CState<'p>, Failure>
        decreases fuel, right, 7int,
    {
        let st = self;
        if operator == AssignmentOperator::Assign {
            let st = if shape::anonymous_fn(*right) {
                st.set_pending_name(name)
            } else {
                st
            };
            let (st, needs_ref) = st.ident_needs_with_ref(name);
            let r = if needs_ref {
                let st = st.op_name(OpCode::WithRefResolve, name, line);
                match st.compile_expr(fuel, right) {
                    Err(e) => Err(e),
                    Ok(st) => Ok(st.compile_set_variable_resolved(name, line)),
                }
            } else {
                match st.compile_expr(fuel, right) {
                    Err(e) => Err(e),
                    Ok(st) => Ok(st.compile_set_variable(name, line)),
                }
            };
            r
        } else {
            if shape::logical_assignment(operator) {
                let st = st.compile_get_variable(name, line);
                let r = if operator == AssignmentOperator::NullishAssign {
                    let (st, jump) = st.jump(OpCode::JumpIfNullishPeek, line);
                    let (st, end) = st.jump(OpCode::Jump, line);
                    let st = st.patch(jump);
                    let st = st.op(OpCode::Pop, line);
                    let st = if shape::anonymous_fn(*right) {
                        st.set_pending_name(name)
                    } else {
                        st
                    };
                    match st.compile_expr(fuel, right) {
                        Err(e) => Err(e),
                        Ok(st) => Ok(st.patch(end)),
                    }
                } else {
                    let (st, jump) = st.jump(
                        if operator == AssignmentOperator::AndAssign { OpCode::JumpIfFalsePeek } else { OpCode::JumpIfTruePeek },
                        line,
                    );
                    let st = st.op(OpCode::Pop, line);
                    let st = if shape::anonymous_fn(*right) {
                        st.set_pending_name(name)
                    } else {
                        st
                    };
                    match st.compile_expr(fuel, right) {
                        Err(e) => Err(e),
                        Ok(st) => Ok(st.patch(jump)),
                    }
                };
                match r {
                    Err(e) => Err(e),
                    Ok(st) => Ok(st.compile_set_variable(name, line)),
                }
            } else {
                let (st, needs_ref) = st.ident_needs_with_ref(name);
                if needs_ref {
                    let st = st.op_name(OpCode::WithRefResolve, name, line);
                    let st = st.compile_get_variable_resolved(name, line);
                    match st.compile_expr(fuel, right) {
                        Err(e) => Err(e),
                        Ok(st) => {
                            match st.emit_compound_arith(operator, line) {
                                Err(e) => Err(e),
                                Ok(st) => Ok(st.compile_set_variable_resolved(name, line)),
                            }
                        },
                    }
                } else {
                    let st = st.compile_get_variable(name, line);
                    match st.compile_expr(fuel, right) {
                        Err(e) => Err(e),
                        Ok(st) => {
                            match st.emit_compound_arith(operator, line) {
                                Err(e) => Err(e),
                                Ok(st) => Ok(st.compile_set_variable(name, line)),
                            }
                        },
                    }
                }
            }
        }
    }

    /// Assign the elements of an iterated right-hand side, closing the iterator unless it is
    /// exhausted. The right-hand side stays on the stack as the value of the expression.
    pub open spec fn assign_iterated_elements(
        self,
        fuel: nat,
        elements: &'p Vec<Option<Pattern>>,
        line: u32,
    ) -> Result<CState<'p>, Failure>
        decreases fuel, elements, elements@.len() as int + 1,
    {
        let st = self;
        let st = st.op(OpCode::False, line);
        let st = st.op(OpCode::Swap, line);
        let done_slot: u8 = st.next_slot();
        let (st, done_anon) = st.intern("__assign_iter_done__"@);
        let st = st.declare_local(done_anon);
        let st = st.op(OpCode::Dup, line);
        let st = st.op(OpCode::GetIterator, line);
        match st.assign_iterated(fuel, done_slot, line, elements, 0) {
            Err(e) => Err(e),
            Ok(st) => {
                let st = st.op_u8(OpCode::GetLocal, done_slot, line);
                let (st, skip_close) = st.jump(OpCode::JumpIfTrue, line);
                let st = st.op(OpCode::IteratorClose, line);
                let (st, after_close) = st.jump(OpCode::Jump, line);
                let st = st.patch(skip_close);
                let st = st.op(OpCode::Pop, line);
                let st = st.patch(after_close);
                let st = st.op(OpCode::Swap, line);
                let st = st.op(OpCode::Pop, line);
                Ok(st.pop_local())
            },
        }
    }

    /// Assign each element in turn from the iterator on the stack.
    pub open spec fn assign_iterated(
        self,
        fuel: nat,
        done_slot: u8,
        line: u32,
        elements: &'p Vec<Option<Pattern>>,
        i: int,
    ) -> Result<CState<'p>, Failure>
        decreases fuel, elements, elements@.len() - i,
    {
        let st = self;
        if i < 0 || i >= elements@.len() {
            Ok(st)
        } else {
            let elem = &elements@[i];
            let st = st.op(OpCode::Dup, line);
            let st = st.op(OpCode::IteratorNext, line);
            match elem {
                None => {
                    let st = st.op(OpCode::Pop, line);
                    st.assign_iterated(fuel, done_slot, line, elements, i + 1)
                },
                Some(pat) => {
                    let st = st.op(OpCode::Dup, line);
                    let st = st.op(OpCode::IteratorDone, line);
                    let st = st.op(OpCode::Dup, line);
                    let st = st.op_u8(OpCode::SetLocal, done_slot, line);
                    let st = st.op(OpCode::Pop, line);
                    let st = st.emit_value_or_undefined(line);
                    match pat {
                        Pattern::Assignment(a) => {
                            let st = st.op(OpCode::Dup, line);
                            let st = st.op(OpCode::Undefined, line);
                            let st = st.op(OpCode::StrictNe, line);
                            let (st, skip) = st.jump(OpCode::JumpIfTrue, line);
                            let st = st.op(OpCode::Pop, line);
                            let st = st.name_default(&a.left, &a.right);
                            match st.compile_expr(fuel, &a.right) {
                                Err(e) => Err(e),
                                Ok(st) => {
                                    let st = st.patch(skip);
                                    match st.compile_assign_to_pattern(fuel, &a.left, line) {
                                        Err(e) => Err(e),
                                        Ok(st) => {
                                            st.assign_iterated(
                                                fuel,
                                                done_slot,
                                                line,
                                                elements,
                                                i + 1,
                                            )
                                        },
                                    }
                                },
                            }
                        },
                        _ => {
                            match st.compile_assign_to_pattern(fuel, pat, line) {
                                Err(e) => Err(e),
                                Ok(st) => {
                                    st.assign_iterated(fuel, done_slot, line, elements, i + 1)
                                },
                            }
                        },
                    }
                },
            }
        }
    }

    /// With an iterator result and its done flag on the stack, leave the value, or undefined
    /// where the iterator is done.
    pub open spec fn emit_value_or_undefined(self, line: u32) -> CState<'p>
    {
        let st = self;
        let (st, not_done) = st.jump(OpCode::JumpIfFalse, line);
        let st = st.op(OpCode::Pop, line);
        let st = st.op(OpCode::Undefined, line);
        let (st, after) = st.jump(OpCode::Jump, line);
        let st = st.patch(not_done);
        let st = st.op(OpCode::IteratorValue, line);
        st.patch(after)
    }

    /// An anonymous function that is the default of an identifier takes its name.
    pub open spec fn name_default(self, left: &'p Pattern, right: &'p Expression) -> CState<'p>
    {
        let st = self;
        if let Pattern::Identifier(id) = left {
            if shape::anonymous_fn(*right) {
                st.set_pending_name(id.name)
            } else {
                st
            }
        } else {
            st
        }
    }

    /// Assign each element by index; a rest element iterates over what is left.
    pub open spec fn assign_indexed_elements(
        self,
        fuel: nat,
        line: u32,
        elements: &'p Vec<Option<Pattern>>,
        i: int,
    ) -> Result<CState<'p>, Failure>
        decreases fuel, elements, elements@.len() - i,
    {
        let st = self;
        if i < 0 || i >= elements@.len() {
            Ok(st)
        } else {
            let elem = &elements@[i];
            if let Some(elem_pat) = elem {
                let st = st.op(OpCode::Dup, line);
                let st = st.emit_constant(Value::Int(i as i32), line);
                let st = st.op(OpCode::GetElement, line);
                match elem_pat {
                    Pattern::Identifier(id) => {
                        let st = st.compile_set_variable(id.name, line);
                        let st = st.op(OpCode::Pop, line);
                        st.assign_indexed_elements(fuel, line, elements, i + 1)
                    },
                    Pattern::Rest(r) => {
                        let st = st.op(OpCode::Pop, line);
                        let st = st.op(OpCode::Dup, line);
                        let st = st.op(OpCode::GetIterator, line);
                        let st = st.skip_iterated(i as usize, line);
                        let st = st.collect_iterated(line);
                        match &r.argument {
                            Pattern::Identifier(id) => {
                                let st = st.compile_set_variable(id.name, line);
                                let st = st.op(OpCode::Pop, line);
                                st.assign_indexed_elements(fuel, line, elements, i + 1)
                            },
                            Pattern::Member(m) => {
                                match st.compile_expr(fuel, &m.object) {
                                    Err(e) => Err(e),
                                    Ok(st) => {
                                        let r = match &m.property {
                                            MemberProperty::Identifier(id) => {
                                                let (st, idx) = st.make_string_constant(*id);
                                                let st = st.op(OpCode::Swap, line);
                                                Ok(st.emit_set_property(idx, line))
                                            },
                                            MemberProperty::Expression(key) => {
                                                match st.compile_expr(fuel, key) {
                                                    Err(e) => Err(e),
                                                    Ok(st) => {
                                                        let st = st.op(OpCode::Rot3, line);
                                                        let st = st.op(OpCode::Rot3, line);
                                                        Ok(st.op(OpCode::SetElement, line))
                                                    },
                                                }
                                            },
                                            MemberProperty::PrivateIdentifier(_) => {
                                                let st = st.op(OpCode::Pop, line);
                                                Ok(st.op(OpCode::Pop, line))
                                            },
                                        };
                                        match r {
                                            Err(e) => Err(e),
                                            Ok(st) => {
                                                let st = st.op(OpCode::Pop, line);
                                                st.assign_indexed_elements(
                                                    fuel,
                                                    line,
                                                    elements,
                                                    i + 1,
                                                )
                                            },
                                        }
                                    },
                                }
                            },
                            Pattern::Object(_) => {
                                match st.compile_assign_to_pattern(fuel, &r.argument, line) {
                                    Err(e) => Err(e),
                                    Ok(st) => {
                                        st.assign_indexed_elements(fuel, line, elements, i + 1)
                                    },
                                }
                            },
                            Pattern::Array(_) => {
                                match st.compile_assign_to_pattern(fuel, &r.argument, line) {
                                    Err(e) => Err(e),
                                    Ok(st) => {
                                        st.assign_indexed_elements(fuel, line, elements, i + 1)
                                    },
                                }
                            },
                            _ => {
                                let st = st.op(OpCode::Pop, line);
                                st.assign_indexed_elements(fuel, line, elements, i + 1)
                            },
                        }
                    },
                    Pattern::Object(_) => {
                        match st.compile_assign_to_pattern(fuel, elem_pat, line) {
                            Err(e) => Err(e),
                            Ok(st) => st.assign_indexed_elements(fuel, line, elements, i + 1),
                        }
                    },
                    Pattern::Array(_) => {
                        match st.compile_assign_to_pattern(fuel, elem_pat, line) {
                            Err(e) => Err(e),
                            Ok(st) => st.assign_indexed_elements(fuel, line, elements, i + 1),
                        }
                    },
                    _ => {
                        let st = st.op(OpCode::Pop, line);
                        st.assign_indexed_elements(fuel, line, elements, i + 1)
                    },
                }
            } else {
                st.assign_indexed_elements(fuel, line, elements, i + 1)
            }
        }
    }

    /// With an iterator on the stack, replace it by the array of what it still yields.
    pub open spec fn collect_iterated(self, line: u32) -> CState<'p>
    {
        let st = self;
        let st = st.op_u16(OpCode::CreateArray, 0, line);
        let st = st.op(OpCode::Swap, line);
        let loop_start: usize = st.here();
        let st = st.op(OpCode::Dup, line);
        let st = st.op(OpCode::IteratorNext, line);
        let st = st.op(OpCode::Dup, line);
        let st = st.op(OpCode::IteratorDone, line);
        let (st, exit_jump) = st.jump(OpCode::JumpIfTrue, line);
        let st = st.op(OpCode::IteratorValue, line);
        let st = st.op(OpCode::Swap, line);
        let st = st.op(OpCode::Rot3, line);
        let st = st.op(OpCode::ArrayAppend, line);
        let st = st.op(OpCode::Swap, line);
        let st = st.back(loop_start, line);
        let st = st.patch(exit_jump);
        let st = st.op(OpCode::Pop, line);
        st.op(OpCode::Pop, line)
    }

    /// Assign each property of an object pattern from the object on the stack.
    pub open spec fn assign_properties(
        self,
        fuel: nat,
        has_rest: bool,
        line: u32,
        properties: &'p Vec<ObjectPatternProperty>,
        i: int,
    ) -> Result<CState<'p>, Failure>
        decreases fuel, properties, properties@.len() - i,
    {
        let st = self;
        if i < 0 || i >= properties@.len() {
            Ok(st)
        } else {
            let prop = &properties@[i];
            match prop {
                ObjectPatternProperty::Property { key, value, .. } => {
                    let st = st.op(OpCode::Dup, line);
                    if let PropertyKey::Private(_) = key {
                        let st = st.op(OpCode::Pop, line);
                        st.assign_properties(fuel, has_rest, line, properties, i + 1)
                    } else {
                        match st.compile_keyed_read(fuel, key, has_rest, line) {
                            Err(e) => Err(e),
                            Ok(st) => {
                                match value {
                                    Pattern::Identifier(id) => {
                                        let st = st.compile_set_variable(id.name, line);
                                        let st = st.op(OpCode::Pop, line);
                                        st.assign_properties(
                                            fuel,
                                            has_rest,
                                            line,
                                            properties,
                                            i + 1,
                                        )
                                    },
                                    Pattern::Member(m) => {
                                        match st.compile_member_target(fuel, m, line) {
                                            Err(e) => Err(e),
                                            Ok(st) => {
                                                st.assign_properties(
                                                    fuel,
                                                    has_rest,
                                                    line,
                                                    properties,
                                                    i + 1,
                                                )
                                            },
                                        }
                                    },
                                    Pattern::Assignment(a) => {
                                        let st = st.op(OpCode::Dup, line);
                                        let st = st.op(OpCode::Undefined, line);
                                        let st = st.op(OpCode::StrictEq, line);
                                        let jump_idx: usize = st.here();
                                        let st = st.op(OpCode::JumpIfFalse, line);
                                        let st = st.raw16(0);
                                        let st = st.op(OpCode::Pop, line);
                                        let st = st.name_default(&a.left, &a.right);
                                        match st.compile_expr(fuel, &a.right) {
                                            Err(e) => Err(e),
                                            Ok(st) => {
                                                let st = st.patch_short(jump_idx);
                                                match &a.left {
                                                    Pattern::Identifier(id) => {
                                                        let st = st.compile_set_variable(
                                                            id.name,
                                                            line,
                                                        );
                                                        let st = st.op(OpCode::Pop, line);
                                                        st.assign_properties(
                                                            fuel,
                                                            has_rest,
                                                            line,
                                                            properties,
                                                            i + 1,
                                                        )
                                                    },
                                                    Pattern::Member(_) => {
                                                        match st.compile_assign_to_pattern(
                                                            fuel,
                                                            &a.left,
                                                            line,
                                                        ) {
                                                            Err(e) => Err(e),
                                                            Ok(st) => {
                                                                st.assign_properties(
                                                                    fuel,
                                                                    has_rest,
                                                                    line,
                                                                    properties,
                                                                    i + 1,
                                                                )
                                                            },
                                                        }
                                                    },
                                                    Pattern::Object(_) => {
                                                        match st.compile_assign_to_pattern(
                                                            fuel,
                                                            &a.left,
                                                            line,
                                                        ) {
                                                            Err(e) => Err(e),
                                                            Ok(st) => {
                                                                st.assign_properties(
                                                                    fuel,
                                                                    has_rest,
                                                                    line,
                                                                    properties,
                                                                    i + 1,
                                                                )
                                                            },
                                                        }
                                                    },
                                                    Pattern::Array(_) => {
                                                        match st.compile_assign_to_pattern(
                                                            fuel,
                                                            &a.left,
                                                            line,
                                                        ) {
                                                            Err(e) => Err(e),
                                                            Ok(st) => {
                                                                st.assign_properties(
                                                                    fuel,
                                                                    has_rest,
                                                                    line,
                                                                    properties,
                                                                    i + 1,
                                                                )
                                                            },
                                                        }
                                                    },
                                                    _ => {
                                                        let st = st.op(OpCode::Pop, line);
                                                        st.assign_properties(
                                                            fuel,
                                                            has_rest,
                                                            line,
                                                            properties,
                                                            i + 1,
                                                        )
                                                    },
                                                }
                                            },
                                        }
                                    },
                                    Pattern::Object(_) => {
                                        match st.compile_assign_to_pattern(fuel, value, line) {
                                            Err(e) => Err(e),
                                            Ok(st) => {
                                                st.assign_properties(
                                                    fuel,
                                                    has_rest,
                                                    line,
                                                    properties,
                                                    i + 1,
                                                )
                                            },
                                        }
                                    },
                                    Pattern::Array(_) => {
                                        match st.compile_assign_to_pattern(fuel, value, line) {
                                            Err(e) => Err(e),
                                            Ok(st) => {
                                                st.assign_properties(
                                                    fuel,
                                                    has_rest,
                                                    line,
                                                    properties,
                                                    i + 1,
                                                )
                                            },
                                        }
                                    },
                                    _ => {
                                        let st = st.op(OpCode::Pop, line);
                                        st.assign_properties(
                                            fuel,
                                            has_rest,
                                            line,
                                            properties,
                                            i + 1,
                                        )
                                    },
                                }
                            },
                        }
                    }
                },
                ObjectPatternProperty::Rest(rest) => {
                    if let Pattern::Identifier(id) = &rest.argument {
                        let excluded: Seq<StringId> = shape::excluded_names(properties@);
                        let st = st.op(OpCode::Dup, line);
                        let st = st.emit_object_rest(excluded, excluded.len() as u8, line);
                        let st = st.compile_set_variable(id.name, line);
                        let st = st.op(OpCode::Pop, line);
                        st.assign_properties(fuel, has_rest, line, properties, i + 1)
                    } else {
                        st.assign_properties(fuel, has_rest, line, properties, i + 1)
                    }
                },
            }
        }
    }

    /// Read the property with a key from the object on the stack, replacing it. Where a rest
    /// element follows, a computed key is noted as excluded.
    pub open spec fn compile_keyed_read(
        self,
        fuel: nat,
        key: &'p PropertyKey,
        has_rest: bool,
        line: u32,
    ) -> Result<CState<'p>, Failure>
        decreases fuel, key, 0int,
    {
        let st = self;
        match key {
            PropertyKey::Identifier(s) => {
                let (st, key_idx) = st.make_string_constant(*s);
                Ok(st.emit_get_property(key_idx, line))
            },
            PropertyKey::StringLiteral(s) => {
                let (st, key_idx) = st.make_string_constant(*s);
                Ok(st.emit_get_property(key_idx, line))
            },
            PropertyKey::Computed(expr) => {
                match st.compile_expr(fuel, expr) {
                    Err(e) => Err(e),
                    Ok(st) => Ok(st.emit_element_read(has_rest, line)),
                }
            },
            PropertyKey::NumberLiteral(n) => {
                let st = st.emit_constant(Value::Number(*n), line);
                Ok(st.emit_element_read(has_rest, line))
            },
            PropertyKey::Private(_) => Ok(st),
        }
    }

    /// Read an element; where a rest element follows, its key is noted as excluded.
    pub open spec fn emit_element_read(self, has_rest: bool, line: u32) -> CState<'p>
    {
        let st = self;
        let st = if has_rest {
            let st = st.op(OpCode::Dup, line);
            st.op(OpCode::PushComputedExclude, line)
        } else {
            st
        };
        st.op(OpCode::GetElement, line)
    }

    /// Collect the properties that are left, given the names that are not.
    pub open spec fn emit_object_rest(
        self,
        excluded: Seq<StringId>,
        count: u8,
        line: u32,
    ) -> CState<'p>
    {
        let st = self;
        let st = st.byte(OpCode::ObjectRest.byte(), line);
        let st = st.raw(count);
        st.emit_excluded(excluded, 0)
    }

    /// Append the constant index of each name.
    pub open spec fn emit_excluded(self, names: Seq<StringId>, i: int) -> CState<'p>
        decreases names.len() - i,
    {
        let st = self;
        if i < 0 || i >= names.len() {
            st
        } else {
            let name = names[i];
            let (st, idx) = st.make_string_constant(name);
            let st = st.raw16(idx);
            st.emit_excluded(names, i + 1)
        }
    }

    /// With a value on the stack, assign it to a member and drop it.
    pub open spec fn compile_member_target(
        self,
        fuel: nat,
        m: &'p MemberExpression,
        line: u32,
    ) -> Result<CState<'p>, Failure>
        decreases fuel, m, 0int,
    {
        let st = self;
        match st.compile_expr(fuel, &m.object) {
            Err(e) => Err(e),
            Ok(st) => {
                match &m.property {
                    MemberProperty::Identifier(id) => {
                        let (st, idx) = st.make_string_constant(*id);
                        let st = st.op(OpCode::Swap, line);
                        let st = st.emit_set_property(idx, line);
                        Ok(st.op(OpCode::Pop, line))
                    },
                    MemberProperty::Expression(key) => {
                        match st.compile_expr(fuel, key) {
                            Err(e) => Err(e),
                            Ok(st) => {
                                let st = st.op(OpCode::Rot3, line);
                                let st = st.op(OpCode::Rot3, line);
                                let st = st.op(OpCode::SetElement, line);
                                Ok(st.op(OpCode::Pop, line))
                            },
                        }
                    },
                    MemberProperty::PrivateIdentifier(_) => {
                        let st = st.op(OpCode::Pop, line);
                        Ok(st.op(OpCode::Pop, line))
                    },
                }
            },
        }
    }

    /// With the object on the stack, assign the right-hand side to one of its members.
    pub open spec fn compile_member_store(
        self,
        fuel: nat,
        a: &'p AssignmentExpression,
        line: u32,
    ) -> Result<CState<'p>, Failure>
        decreases fuel, a, 0int,
    {
        let st = self;
        if let AssignmentTarget::Member(m) = &a.left {
            match &m.property {
                MemberProperty::Identifier(name) => {
                    let (st, idx) = st.make_string_constant(*name);
                    st.store_property(fuel, idx, a.operator, &a.right, line)
                },
                MemberProperty::Expression(key) => {
                    match st.compile_expr(fuel, key) {
                        Err(e) => Err(e),
                        Ok(st) => st.store_element(fuel, a.operator, &a.right, line),
                    }
                },
                MemberProperty::PrivateIdentifier(name) => {
                    let (st, idx) = st.make_string_constant(*name);
                    st.store_private(fuel, idx, a.operator, &a.right, line)
                },
            }
        } else {
            Ok(st)
        }
    }

    /// Assign a property of the object on the stack.
    pub open spec fn store_property(
        self,
        fuel: nat,
        idx: u16,
        operator: AssignmentOperator,
        rhs: &'p Expression,
        line: u32,
    ) -> Result<CState<'p>, Failure>
        decreases fuel, rhs, 8int,
    {
        let st = self;
        if shape::logical_assignment(operator) {
            let st = st.op(OpCode::Dup, line);
            let st = st.emit_get_property(idx, line);
            st.emit_logical_member_assign(fuel, operator, idx, rhs, line)
        } else {
            let r = if operator != AssignmentOperator::Assign {
                let st = st.op(OpCode::Dup, line);
                let st = st.emit_get_property(idx, line);
                match st.compile_expr(fuel, rhs) {
                    Err(e) => Err(e),
                    Ok(st) => st.emit_compound_arith(operator, line),
                }
            } else {
                st.compile_expr(fuel, rhs)
            };
            match r {
                Err(e) => Err(e),
                Ok(st) => Ok(st.emit_set_property(idx, line)),
            }
        }
    }

    /// Assign the element that object and key on the stack denote.
    pub open spec fn store_element(
        self,
        fuel: nat,
        operator: AssignmentOperator,
        rhs: &'p Expression,
        line: u32,
    ) -> Result<CState<'p>, Failure>
        decreases fuel, rhs, 8int,
    {
        let st = self;
        if shape::logical_assignment(operator) {
            let st = st.op(OpCode::Dup2, line);
            let st = st.op(OpCode::GetElement, line);
            st.emit_logical_elem_assign(fuel, operator, rhs, line)
        } else {
            let r = if operator != AssignmentOperator::Assign {
                let st = st.op(OpCode::Dup2, line);
                let st = st.op(OpCode::GetElement, line);
                match st.compile_expr(fuel, rhs) {
                    Err(e) => Err(e),
                    Ok(st) => st.emit_compound_arith(operator, line),
                }
            } else {
                st.compile_expr(fuel, rhs)
            };
            match r {
                Err(e) => Err(e),
                Ok(st) => Ok(st.op(OpCode::SetElement, line)),
            }
        }
    }

    /// Assign a private field of the object on the stack.
    pub open spec fn store_private(
        self,
        fuel: nat,
        idx: u16,
        operator: AssignmentOperator,
        rhs: &'p Expression,
        line: u32,
    ) -> Result<CState<'p>, Failure>
        decreases fuel, rhs, 8int,
    {
        let st = self;
        if shape::logical_assignment(operator) {
            let st = st.op(OpCode::Dup, line);
            let st = st.op_u16(OpCode::GetPrivate, idx, line);
            st.emit_logical_priv_assign(fuel, operator, idx, rhs, line)
        } else {
            let r = if operator != AssignmentOperator::Assign {
                let st = st.op(OpCode::Dup, line);
                let st = st.op_u16(OpCode::GetPrivate, idx, line);
                match st.compile_expr(fuel, rhs) {
                    Err(e) => Err(e),
                    Ok(st) => st.emit_compound_arith(operator, line),
                }
            } else {
                st.compile_expr(fuel, rhs)
            };
            match r {
                Err(e) => Err(e),
                Ok(st) => Ok(st.op_u16(OpCode::SetPrivate, idx, line)),
            }
        }
    }

    /// Logical assignment of a property: stack [obj, old].
    pub open spec fn emit_logical_member_assign(
        self,
        fuel: nat,
        operator: AssignmentOperator,
        idx: u16,
        rhs: &'p Expression,
        line: u32,
    ) -> Result<CState<'p>, Failure>
        decreases fuel, rhs, 7int,
    {
        let st = self;
        if operator == AssignmentOperator::NullishAssign {
            let (st, to_assign) = st.jump(OpCode::JumpIfNullishPeek, line);
            let st = st.op(OpCode::Swap, line);
            let st = st.op(OpCode::Pop, line);
            let (st, end) = st.jump(OpCode::Jump, line);
            let st = st.patch(to_assign);
            let st = st.op(OpCode::Pop, line);
            match st.compile_expr(fuel, rhs) {
                Err(e) => Err(e),
                Ok(st) => {
                    let st = st.emit_set_property(idx, line);
                    Ok(st.patch(end))
                },
            }
        } else {
            let (st, skip) = st.jump(
                if operator == AssignmentOperator::AndAssign { OpCode::JumpIfFalsePeek } else { OpCode::JumpIfTruePeek },
                line,
            );
            let st = st.op(OpCode::Pop, line);
            match st.compile_expr(fuel, rhs) {
                Err(e) => Err(e),
                Ok(st) => {
                    let st = st.emit_set_property(idx, line);
                    let (st, end) = st.jump(OpCode::Jump, line);
                    let st = st.patch(skip);
                    let st = st.op(OpCode::Swap, line);
                    let st = st.op(OpCode::Pop, line);
                    Ok(st.patch(end))
                },
            }
        }
    }

    /// Logical assignment of an element: stack [obj, key, old].
    pub open spec fn emit_logical_elem_assign(
        self,
        fuel: nat,
        operator: AssignmentOperator,
        rhs: &'p Expression,
        line: u32,
    ) -> Result<CState<'p>, Failure>
        decreases fuel, rhs, 7int,
    {
        let st = self;
        if operator == AssignmentOperator::NullishAssign {
            let (st, to_assign) = st.jump(OpCode::JumpIfNullishPeek, line);
            let st = st.op(OpCode::Swap, line);
            let st = st.op(OpCode::Pop, line);
            let st = st.op(OpCode::Swap, line);
            let st = st.op(OpCode::Pop, line);
            let (st, end) = st.jump(OpCode::Jump, line);
            let st = st.patch(to_assign);
            let st = st.op(OpCode::Pop, line);
            match st.compile_expr(fuel, rhs) {
                Err(e) => Err(e),
                Ok(st) => {
                    let st = st.op(OpCode::SetElement, line);
                    Ok(st.patch(end))
                },
            }
        } else {
            let (st, skip) = st.jump(
                if operator == AssignmentOperator::AndAssign { OpCode::JumpIfFalsePeek } else { OpCode::JumpIfTruePeek },
                line,
            );
            let st = st.op(OpCode::Pop, line);
            match st.compile_expr(fuel, rhs) {
                Err(e) => Err(e),
                Ok(st) => {
                    let st = st.op(OpCode::SetElement, line);
                    let (st, end) = st.jump(OpCode::Jump, line);
                    let st = st.patch(skip);
                    let st = st.op(OpCode::Swap, line);
                    let st = st.op(OpCode::Pop, line);
                    let st = st.op(OpCode::Swap, line);
                    let st = st.op(OpCode::Pop, line);
                    Ok(st.patch(end))
                },
            }
        }
    }

    /// Logical assignment of a private field: stack [obj, old].
    pub open spec fn emit_logical_priv_assign(
        self,
        fuel: nat,
        operator: AssignmentOperator,
        idx: u16,
        rhs: &'p Expression,
        line: u32,
    ) -> Result<CState<'p>, Failure>
        decreases fuel, rhs, 7int,
    {
        let st = self;
        if operator == AssignmentOperator::NullishAssign {
            let (st, to_assign) = st.jump(OpCode::JumpIfNullishPeek, line);
            let st = st.op(OpCode::Swap, line);
            let st = st.op(OpCode::Pop, line);
            let (st, end) = st.jump(OpCode::Jump, line);
            let st = st.patch(to_assign);
            let st = st.op(OpCode::Pop, line);
            match st.compile_expr(fuel, rhs) {
                Err(e) => Err(e),
                Ok(st) => {
                    let st = st.op_u16(OpCode::SetPrivate, idx, line);
                    Ok(st.patch(end))
                },
            }
        } else {
            let (st, skip) = st.jump(
                if operator == AssignmentOperator::AndAssign { OpCode::JumpIfFalsePeek } else { OpCode::JumpIfTruePeek },
                line,
            );
            let st = st.op(OpCode::Pop, line);
            match st.compile_expr(fuel, rhs) {
                Err(e) => Err(e),
                Ok(st) => {
                    let st = st.op_u16(OpCode::SetPrivate, idx, line);
                    let (st, end) = st.jump(OpCode::Jump, line);
                    let st = st.patch(skip);
                    let st = st.op(OpCode::Swap, line);
                    let st = st.op(OpCode::Pop, line);
                    Ok(st.patch(end))
                },
            }
        }
    }

    /// Emit the operation of a compound assignment.
    pub open spec fn emit_compound_arith(
        self,
        operator: AssignmentOperator,
        line: u32,
    ) -> Result<CState<'p>, Failure>
    {
        let st = self;
        match shape::compound_op(operator) {
            Some(op) => Ok(st.op(op, line)),
            None => {
                Err(
                    st.failing(
                        steps::offset_message_text(
                            "unexpected compound assignment operator at "@,
                            line,
                        ),
                    ),
                )
            },
        }
    }

    /// Compile the expressions of a sequence, keeping only the last value.
    pub open spec fn compile_sequence(
        self,
        fuel: nat,
        expressions: &'p Vec<Expression>,
        i: int,
    ) -> Result<CState<'p>, Failure>
        decreases fuel, expressions, expressions@.len() - i,
    {
        let st = self;
        if i < 0 || i >= expressions@.len() {
            Ok(st)
        } else {
            let expr = &expressions@[i];
            match st.compile_expr(fuel, expr) {
                Err(e) => Err(e),
                Ok(st) => {
                    if i + 1 < expressions.len() {
                        let line: u32 = st.current_line();
                        let st = st.op(OpCode::Pop, line);
                        st.compile_sequence(fuel, expressions, i + 1)
                    } else {
                        st.compile_sequence(fuel, expressions, i + 1)
                    }
                },
            }
        }
    }

    /// Compile a member access.
    pub open spec fn compile_member(
        self,
        fuel: nat,
        m: &'p MemberExpression,
    ) -> Result<CState<'p>, Failure>
        decreases fuel, m, 0int,
    {
        let st = self;
        let line: u32 = m.span.start;
        if shape::super_expr(m.object) {
            let st = st.op(OpCode::GetSuperClass, line);
            let r = match &m.property {
                MemberProperty::Identifier(name) => {
                    let (st, idx) = st.make_string_constant(*name);
                    Ok(st.emit_get_property(idx, line))
                },
                MemberProperty::Expression(key) => {
                    match st.compile_expr(fuel, key) {
                        Err(e) => Err(e),
                        Ok(st) => Ok(st.op(OpCode::GetElement, line)),
                    }
                },
                MemberProperty::PrivateIdentifier(_) => Ok(st),
            };
            r
        } else {
            match st.compile_expr(fuel, &m.object) {
                Err(e) => Err(e),
                Ok(st) => st.compile_member_read(fuel, &m.property, line),
            }
        }
    }

    /// With the object on the stack, read one of its members.
    pub open spec fn compile_member_read(
        self,
        fuel: nat,
        property: &'p MemberProperty,
        line: u32,
    ) -> Result<CState<'p>, Failure>
        decreases fuel, property, 0int,
    {
        let st = self;
        match property {
            MemberProperty::Identifier(name) => {
                let (st, idx) = st.make_string_constant(*name);
                Ok(st.emit_get_property(idx, line))
            },
            MemberProperty::Expression(key) => {
                match st.compile_expr(fuel, key) {
                    Err(e) => Err(e),
                    Ok(st) => Ok(st.op(OpCode::GetElement, line)),
                }
            },
            MemberProperty::PrivateIdentifier(name) => {
                Ok(st.op_name(OpCode::GetPrivate, *name, line))
            },
        }
    }

    /// Compile each expression of a list.
    pub open spec fn compile_args(
        self,
        fuel: nat,
        arguments: &'p Vec<Expression>,
        i: int,
    ) -> Result<CState<'p>, Failure>
        decreases fuel, arguments, arguments@.len() - i,
    {
        let st = self;
        if i < 0 || i >= arguments@.len() {
            Ok(st)
        } else {
            let arg = &arguments@[i];
            match st.compile_expr(fuel, arg) {
                Err(e) => Err(e),
                Ok(st) => st.compile_args(fuel, arguments, i + 1),
            }
        }
    }

    /// Compile each argument into the array on the stack, spreading where asked.
    pub open spec fn compile_spread_args(
        self,
        fuel: nat,
        line: u32,
        arguments: &'p Vec<Expression>,
        i: int,
    ) -> Result<CState<'p>, Failure>
        decreases fuel, arguments, arguments@.len() - i,
    {
        let st = self;
        if i < 0 || i >= arguments@.len() {
            Ok(st)
        } else {
            let arg = &arguments@[i];
            match arg {
                Expression::Spread(sp) => {
                    match st.compile_expr(fuel, &sp.argument) {
                        Err(e) => Err(e),
                        Ok(st) => {
                            let st = st.op(OpCode::ArraySpread, line);
                            st.compile_spread_args(fuel, line, arguments, i + 1)
                        },
                    }
                },
                _ => {
                    match st.compile_expr(fuel, arg) {
                        Err(e) => Err(e),
                        Ok(st) => {
                            let st = st.op_u32(
                                OpCode::SetArrayItem,
                                shape::spread_at(arguments@, i as usize),
                                line,
                            );
                            st.compile_spread_args(fuel, line, arguments, i + 1)
                        },
                    }
                },
            }
        }
    }

    /// Emit a method call by name.
    pub open spec fn emit_call_method(self, argc: u8, idx: u16, line: u32) -> CState<'p>
    {
        let st = self;
        let st = st.byte(OpCode::CallMethod.byte(), line);
        let st = st.byte(argc, line);
        st.raw16(idx)
    }

    /// Compile a call.
    pub open spec fn compile_call(
        self,
        fuel: nat,
        c: &'p CallExpression,
    ) -> Result<CState<'p>, Failure>
        decreases fuel, c, 1int,
    {
        let st = self;
        let line: u32 = c.span.start;
        let argc: u8 = c.arguments.len() as u8;
        match &c.callee {
            Expression::Member(_) => st.compile_method_call(fuel, c, argc, line),
            Expression::Super(_) => {
                let st = st.op(OpCode::GetSuperConstructor, line);
                st.compile_call_tail(fuel, &c.arguments, argc, line)
            },
            _ => {
                match st.compile_expr(fuel, &c.callee) {
                    Err(e) => Err(e),
                    Ok(st) => st.compile_call_tail(fuel, &c.arguments, argc, line),
                }
            },
        }
    }

    /// With the function on the stack, compile the arguments and the call.
    pub open spec fn compile_call_tail(
        self,
        fuel: nat,
        arguments: &'p Vec<Expression>,
        argc: u8,
        line: u32,
    ) -> Result<CState<'p>, Failure>
        decreases fuel, arguments, arguments@.len() as int + 1,
    {
        let st = self;
        if shape::any_spread(arguments@) {
            let st = st.op_u16(OpCode::CreateArray, 0, line);
            match st.compile_spread_args(fuel, line, arguments, 0) {
                Err(e) => Err(e),
                Ok(st) => Ok(st.op_u8(OpCode::SpreadCall, 0, line)),
            }
        } else {
            match st.compile_args(fuel, arguments, 0) {
                Err(e) => Err(e),
                Ok(st) => Ok(st.op_u8(OpCode::Call, argc, line)),
            }
        }
    }

    /// Compile a call of a member, with the receiver bound to `this`.
    pub open spec fn compile_method_call(
        self,
        fuel: nat,
        c: &'p CallExpression,
        argc: u8,
        line: u32,
    ) -> Result<CState<'p>, Failure>
        decreases fuel, c, 0int,
    {
        let st = self;
        if let Expression::Member(m) = &c.callee {
            match &m.property {
                MemberProperty::Identifier(name) => {
                    if shape::super_expr(m.object) {
                        let st = st.op(OpCode::GetSuperClass, line);
                        let (st, idx) = st.make_string_constant(*name);
                        let st = st.emit_get_property(idx, line);
                        match st.compile_args(fuel, &c.arguments, 0) {
                            Err(e) => Err(e),
                            Ok(st) => Ok(st.op_u8(OpCode::Call, argc, line)),
                        }
                    } else if shape::any_spread(c.arguments@) {
                        match st.compile_expr(fuel, &m.object) {
                            Err(e) => Err(e),
                            Ok(st) => {
                                let st = st.op(OpCode::Dup, line);
                                let (st, name_idx) = st.make_string_constant(*name);
                                let st = st.emit_get_property(name_idx, line);
                                let st = st.op(OpCode::Swap, line);
                                let st = st.op_u16(OpCode::CreateArray, 0, line);
                                match st.compile_spread_args(fuel, line, &c.arguments, 0) {
                                    Err(e) => Err(e),
                                    Ok(st) => {
                                        let (st, apply_name) = st.intern("apply"@);
                                        let (st, apply_idx) = st.make_string_constant(apply_name);
                                        Ok(st.emit_call_method(2, apply_idx, line))
                                    },
                                }
                            },
                        }
                    } else {
                        match st.compile_expr(fuel, &m.object) {
                            Err(e) => Err(e),
                            Ok(st) => {
                                match st.compile_args(fuel, &c.arguments, 0) {
                                    Err(e) => Err(e),
                                    Ok(st) => {
                                        let (st, idx) = st.make_string_constant(*name);
                                        Ok(st.emit_call_method(argc, idx, line))
                                    },
                                }
                            },
                        }
                    }
                },
                MemberProperty::Expression(key_expr) => {
                    if let Expression::StringLiteral(s) = key_expr {
                        match st.compile_expr(fuel, &m.object) {
                            Err(e) => Err(e),
                            Ok(st) => {
                                match st.compile_args(fuel, &c.arguments, 0) {
                                    Err(e) => Err(e),
                                    Ok(st) => {
                                        let (st, idx) = st.make_string_constant(s.value);
                                        Ok(st.emit_call_method(argc, idx, line))
                                    },
                                }
                            },
                        }
                    } else {
                        match st.compile_expr(fuel, &m.object) {
                            Err(e) => Err(e),
                            Ok(st) => {
                                if argc < 255 {
                                    let st = st.op(OpCode::Dup, line);
                                    match st.compile_expr(fuel, key_expr) {
                                        Err(e) => Err(e),
                                        Ok(st) => {
                                            let st = st.op(OpCode::GetElement, line);
                                            let st = st.op(OpCode::Swap, line);
                                            match st.compile_args(fuel, &c.arguments, 0) {
                                                Err(e) => Err(e),
                                                Ok(st) => {
                                                    let (st, call_name) = st.intern("call"@);
                                                    let (st, idx) = st.make_string_constant(call_name);
                                                    Ok(
                                                        st.emit_call_method(
                                                            argc.wrapping_add(1),
                                                            idx,
                                                            line,
                                                        ),
                                                    )
                                                },
                                            }
                                        },
                                    }
                                } else {
                                    match st.compile_expr(fuel, key_expr) {
                                        Err(e) => Err(e),
                                        Ok(st) => {
                                            let st = st.op(OpCode::GetElement, line);
                                            match st.compile_args(fuel, &c.arguments, 0) {
                                                Err(e) => Err(e),
                                                Ok(st) => Ok(st.op_u8(OpCode::Call, argc, line)),
                                            }
                                        },
                                    }
                                }
                            },
                        }
                    }
                },
                MemberProperty::PrivateIdentifier(name) => {
                    match st.compile_expr(fuel, &m.object) {
                        Err(e) => Err(e),
                        Ok(st) => {
                            match st.compile_args(fuel, &c.arguments, 0) {
                                Err(e) => Err(e),
                                Ok(st) => {
                                    let (st, idx) = st.make_string_constant(*name);
                                    Ok(st.emit_call_method(argc, idx, line))
                                },
                            }
                        },
                    }
                },
            }
        } else {
            Ok(st)
        }
    }

    /// Compile a construction.
    pub open spec fn compile_new(
        self,
        fuel: nat,
        n: &'p NewExpression,
    ) -> Result<CState<'p>, Failure>
        decreases fuel, n, 0int,
    {
        let st = self;
        let line: u32 = n.span.start;
        match st.compile_expr(fuel, &n.callee) {
            Err(e) => Err(e),
            Ok(st) => {
                if shape::any_spread(n.arguments@) {
                    let st = st.op_u16(OpCode::CreateArray, 0, line);
                    match st.compile_spread_args(fuel, line, &n.arguments, 0) {
                        Err(e) => Err(e),
                        Ok(st) => Ok(st.op_u8(OpCode::SpreadConstruct, 0, line)),
                    }
                } else {
                    match st.compile_args(fuel, &n.arguments, 0) {
                        Err(e) => Err(e),
                        Ok(st) => Ok(st.op_u8(OpCode::Construct, n.arguments.len() as u8, line)),
                    }
                }
            },
        }
    }

    /// Compile an array literal.
    pub open spec fn compile_array(
        self,
        fuel: nat,
        a: &'p ArrayExpression,
    ) -> Result<CState<'p>, Failure>
        decreases fuel, a, 0int,
    {
        let st = self;
        let st = st.op_u16(OpCode::CreateArray, a.elements.len() as u16, a.span.start);
        st.compile_array_elements(fuel, a.span.start, &a.elements, 0)
    }

    /// Compile each element into the array on the stack; a hole is undefined.
    pub open spec fn compile_array_elements(
        self,
        fuel: nat,
        line: u32,
        elements: &'p Vec<Option<Expression>>,
        i: int,
    ) -> Result<CState<'p>, Failure>
        decreases fuel, elements, elements@.len() - i,
    {
        let st = self;
        if i < 0 || i >= elements@.len() {
            Ok(st)
        } else {
            let elem = &elements@[i];
            match elem {
                Some(e) => {
                    match e {
                        Expression::Spread(sp) => {
                            match st.compile_expr(fuel, &sp.argument) {
                                Err(e) => Err(e),
                                Ok(st) => {
                                    let st = st.op(OpCode::ArraySpread, line);
                                    st.compile_array_elements(fuel, line, elements, i + 1)
                                },
                            }
                        },
                        _ => {
                            match st.compile_expr(fuel, e) {
                                Err(e) => Err(e),
                                Ok(st) => {
                                    let st = st.op_u32(OpCode::SetArrayItem, i as u32, line);
                                    st.compile_array_elements(fuel, line, elements, i + 1)
                                },
                            }
                        },
                    }
                },
                None => {
                    let st = st.op(OpCode::Undefined, line);
                    let st = st.op_u32(OpCode::SetArrayItem, i as u32, line);
                    st.compile_array_elements(fuel, line, elements, i + 1)
                },
            }
        }
    }

    /// Compile an object literal.
    pub open spec fn compile_object(
        self,
        fuel: nat,
        o: &'p ObjectExpression,
    ) -> Result<CState<'p>, Failure>
        decreases fuel, o, 0int,
    {
        let st = self;
        let st = st.op(OpCode::CreateObject, o.span.start);
        st.compile_object_properties(fuel, o.span.start, &o.properties, 0)
    }

    /// Compile each property into the object on the stack.
    pub open spec fn compile_object_properties(
        self,
        fuel: nat,
        line: u32,
        properties: &'p Vec<ObjectProperty>,
        i: int,
    ) -> Result<CState<'p>, Failure>
        decreases fuel, properties, properties@.len() - i,
    {
        let st = self;
        if i < 0 || i >= properties@.len() {
            Ok(st)
        } else {
            let prop = &properties@[i];
            match prop {
                ObjectProperty::Property(p) => {
                    match st.compile_object_property(fuel, p, line) {
                        Err(e) => Err(e),
                        Ok(st) => st.compile_object_properties(fuel, line, properties, i + 1),
                    }
                },
                ObjectProperty::SpreadElement(s) => {
                    match st.compile_expr(fuel, &s.argument) {
                        Err(e) => Err(e),
                        Ok(st) => {
                            let st = st.op(OpCode::ObjectSpread, line);
                            st.compile_object_properties(fuel, line, properties, i + 1)
                        },
                    }
                },
            }
        }
    }

    /// Whether a property sets the prototype: `{__proto__: val}` in its explicit form only.
    pub open spec fn sets_prototype(self, p: &'p Property) -> (CState<'p>, bool)
    {
        let st = self;
        if p.kind != PropertyKindVal::Init || p.method || p.shorthand || p.computed {
            (st, false)
        } else {
            match &p.key {
                PropertyKey::Identifier(id) => (st, st.name_is(*id, "__proto__"@)),
                PropertyKey::StringLiteral(id) => (st, st.name_is(*id, "__proto__"@)),
                _ => (st, false),
            }
        }
    }

    /// Compile a property of an object literal.
    pub open spec fn compile_object_property(
        self,
        fuel: nat,
        p: &'p Property,
        line: u32,
    ) -> Result<CState<'p>, Failure>
        decreases fuel, p, 0int,
    {
        let st = self;
        let (st, proto) = st.sets_prototype(p);
        if proto {
            match st.compile_expr(fuel, &p.value) {
                Err(e) => Err(e),
                Ok(st) => Ok(st.op(OpCode::SetObjectProto, line)),
            }
        } else {
            match st.compile_property_key(fuel, &p.key, line) {
                Err(e) => Err(e),
                Ok(st) => {
                    match p.kind {
                        PropertyKindVal::Init => {
                            let st = if shape::anonymous_fn(p.value) {
                                let (st, key_name) = st.property_key_name(&p.key);
                                if key_name != StringId(0) {
                                    st.set_pending_name(key_name)
                                } else {
                                    st
                                }
                            } else {
                                st
                            };
                            match st.compile_expr(fuel, &p.value) {
                                Err(e) => Err(e),
                                Ok(st) => {
                                    let st = if p.method {
                                        st.mark_last_child_as_method()
                                    } else {
                                        st
                                    };
                                    Ok(st.op(OpCode::DefineDataProp, line))
                                },
                            }
                        },
                        PropertyKindVal::Getter => {
                            match st.compile_expr(fuel, &p.value) {
                                Err(e) => Err(e),
                                Ok(st) => {
                                    let st = st.mark_last_child_as_method();
                                    Ok(st.op(OpCode::DefineGetter, line))
                                },
                            }
                        },
                        PropertyKindVal::Setter => {
                            match st.compile_expr(fuel, &p.value) {
                                Err(e) => Err(e),
                                Ok(st) => {
                                    let st = st.mark_last_child_as_method();
                                    Ok(st.op(OpCode::DefineSetter, line))
                                },
                            }
                        },
                    }
                },
            }
        }
    }

    /// Push a property key. A computed key is converted before the value is evaluated.
    pub open spec fn compile_property_key(
        self,
        fuel: nat,
        key: &'p PropertyKey,
        line: u32,
    ) -> Result<CState<'p>, Failure>
        decreases fuel, key, 0int,
    {
        let st = self;
        match key {
            PropertyKey::Identifier(id) => Ok(st.op_name(OpCode::Const, *id, line)),
            PropertyKey::StringLiteral(id) => Ok(st.op_name(OpCode::Const, *id, line)),
            PropertyKey::Private(id) => Ok(st.op_name(OpCode::Const, *id, line)),
            PropertyKey::NumberLiteral(n) => Ok(st.emit_constant(Value::Number(*n), line)),
            PropertyKey::Computed(expr) => {
                match st.compile_expr(fuel, expr) {
                    Err(e) => Err(e),
                    Ok(st) => Ok(st.op(OpCode::ToPropertyKey, line)),
                }
            },
        }
    }

    /// The name that a property key is known by at compile time, or the empty name.
    pub open spec fn property_key_name(self, key: &'p PropertyKey) -> (CState<'p>, StringId)
    {
        let st = self;
        match key {
            PropertyKey::Identifier(id) => (st, *id),
            PropertyKey::StringLiteral(id) => (st, *id),
            PropertyKey::Private(id) => (st, *id),
            PropertyKey::NumberLiteral(n) => {
                let (st, id) = st.intern_number(*n);
                (st, id)
            },
            PropertyKey::Computed(expr) => {
                match &**expr {
                    Expression::Member(mem) => {
                        let (st, id) = st.symbol_member_name(mem);
                        (st, id)
                    },
                    Expression::StringLiteral(lit) => (st, lit.value),
                    Expression::NumberLiteral(lit) => {
                        let (st, id) = st.intern_number(lit.value);
                        (st, id)
                    },
                    _ => (st, StringId(0)),
                }
            },
        }
    }

    /// The name of a well-known symbol access `Symbol.xxx`, or the empty name.
    pub open spec fn symbol_member_name(self, mem: &'p MemberExpression) -> (CState<'p>, StringId)
    {
        let st = self;
        match &mem.object {
            Expression::Identifier(obj_id) => {
                match &mem.property {
                    MemberProperty::Identifier(prop_id) => {
                        if st.name_is(obj_id.name, "Symbol"@) {
                            let (st, id) = st.symbol_name(*prop_id);
                            (st, id)
                        } else {
                            (st, StringId(0))
                        }
                    },
                    _ => (st, StringId(0)),
                }
            },
            _ => (st, StringId(0)),
        }
    }

    /// The name that stands for a well-known symbol, or the empty name.
    pub open spec fn symbol_name(self, prop: StringId) -> (CState<'p>, StringId)
    {
        let st = self;
        if st.name_is(prop, "iterator"@) {
            let (st, id) = st.intern("__sym_0__"@);
            (st, id)
        } else if st.name_is(prop, "hasInstance"@) {
            let (st, id) = st.intern("__sym_1__"@);
            (st, id)
        } else if st.name_is(prop, "toPrimitive"@) {
            let (st, id) = st.intern("__sym_2__"@);
            (st, id)
        } else if st.name_is(prop, "toStringTag"@) {
            let (st, id) = st.intern("__sym_3__"@);
            (st, id)
        } else if st.name_is(prop, "species"@) {
            let (st, id) = st.intern("__sym_4__"@);
            (st, id)
        } else if st.name_is(prop, "unscopables"@) {
            let (st, id) = st.intern("__sym_5__"@);
            (st, id)
        } else if st.name_is(prop, "asyncIterator"@) {
            let (st, id) = st.intern("__sym_6__"@);
            (st, id)
        } else if st.name_is(prop, "matchAll"@) {
            let (st, id) = st.intern("__sym_7__"@);
            (st, id)
        } else {
            (st, StringId(0))
        }
    }

    /// Compile a template literal. Prefixing an empty string makes the result a string.
    pub open spec fn compile_template_literal(
        self,
        fuel: nat,
        t: &'p TemplateLiteral,
    ) -> Result<CState<'p>, Failure>
        decreases fuel, t, 0int,
    {
        let st = self;
        let line: u32 = t.span.start;
        let (st, empty) = st.intern(""@);
        let st = st.op_name(OpCode::Const, empty, line);
        match st.template_pairs(fuel, &t.quasis, line, &t.expressions, 0) {
            Err(e) => Err(e),
            Ok(st) => Ok(st.template_tail(t.expressions.len(), line, &t.quasis, 0)),
        }
    }

    /// Append each text and the expression that follows it.
    pub open spec fn template_pairs(
        self,
        fuel: nat,
        quasis: &'p Vec<TemplateElement>,
        line: u32,
        expressions: &'p Vec<Expression>,
        i: int,
    ) -> Result<CState<'p>, Failure>
        decreases fuel, expressions, expressions@.len() - i,
    {
        let st = self;
        if i < 0 || i >= expressions@.len() {
            Ok(st)
        } else {
            let expr = &expressions@[i];
            if i < quasis.len() {
                let st = st.template_text(&quasis[i], line);
                match st.compile_expr(fuel, expr) {
                    Err(e) => Err(e),
                    Ok(st) => {
                        let st = st.op(OpCode::Add, line);
                        st.template_pairs(fuel, quasis, line, expressions, i + 1)
                    },
                }
            } else {
                st.template_pairs(fuel, quasis, line, expressions, i + 1)
            }
        }
    }

    /// Append the texts behind the last expression.
    pub open spec fn template_tail(
        self,
        from: usize,
        line: u32,
        quasis: &'p Vec<TemplateElement>,
        i: int,
    ) -> CState<'p>
        decreases quasis@.len() - i,
    {
        let st = self;
        if i < 0 || i >= quasis@.len() {
            st
        } else {
            let quasi = &quasis@[i];
            if i >= from {
                let st = st.template_text(quasi, line);
                st.template_tail(from, line, quasis, i + 1)
            } else {
                st.template_tail(from, line, quasis, i + 1)
            }
        }
    }

    /// Append a text unless it is empty.
    pub open spec fn template_text(self, quasi: &'p TemplateElement, line: u32) -> CState<'p>
    {
        let st = self;
        let text: StringId = shape::text_of_element(*quasi);
        if !st.name_is_empty(text) {
            let st = st.op_name(OpCode::Const, text, line);
            st.op(OpCode::Add, line)
        } else {
            st
        }
    }

    /// Compile a tagged template: the tag is called with the texts and the values.
    pub open spec fn compile_tagged_template(
        self,
        fuel: nat,
        t: &'p TaggedTemplateExpression,
    ) -> Result<CState<'p>, Failure>
        decreases fuel, t, 0int,
    {
        let st = self;
        let line: u32 = t.span.start;
        match st.compile_expr(fuel, &t.tag) {
            Err(e) => Err(e),
            Ok(st) => {
                let st = st.tagged_texts(line, &t.quasi.quasis, 0);
                match st.compile_args(fuel, &t.quasi.expressions, 0) {
                    Err(e) => Err(e),
                    Ok(st) => Ok(st.op_u8(OpCode::TemplateTag, shape::tagged_total(t.quasi), line)),
                }
            },
        }
    }

    /// Push each text.
    pub open spec fn tagged_texts(
        self,
        line: u32,
        quasis: &'p Vec<TemplateElement>,
        i: int,
    ) -> CState<'p>
        decreases quasis@.len() - i,
    {
        let st = self;
        if i < 0 || i >= quasis@.len() {
            st
        } else {
            let quasi = &quasis@[i];
            let st = st.op_name(OpCode::Const, shape::text_of_element(*quasi), line);
            st.tagged_texts(line, quasis, i + 1)
        }
    }

    /// Compile an optional chain. A short circuit skips the whole rest of the chain.
    pub open spec fn compile_optional_chain(
        self,
        fuel: nat,
        o: &'p OptionalChainExpression,
    ) -> Result<CState<'p>, Failure>
        decreases fuel, o, 0int,
    {
        let st = self;
        let line: u32 = o.span.start;
        match st.compile_expr(fuel, &o.base) {
            Err(e) => Err(e),
            Ok(st) => {
                let base: usize = st.mark_len();
                match st.compile_chain(fuel, line, &o.chain, 0) {
                    Err(e) => Err(e),
                    Ok(st) => Ok(st.patch_marks(base)),
                }
            },
        }
    }

    /// Compile each link of an optional chain. A property followed by a plain call becomes a
    /// method call, so that `this` is bound to the receiver.
    pub open spec fn compile_chain(
        self,
        fuel: nat,
        line: u32,
        chain: &'p Vec<OptionalChainElement>,
        i: int,
    ) -> Result<CState<'p>, Failure>
        decreases fuel, chain, chain@.len() - i,
    {
        let st = self;
        if i < 0 || i >= chain@.len() {
            Ok(st)
        } else {
            let element = &chain@[i];
            match element {
                OptionalChainElement::Member { property, optional, .. } => {
                    let st = if *optional {
                        let (st, skip) = st.jump(OpCode::OptionalChain, line);
                        st.push_mark(skip)
                    } else {
                        st
                    };
                    if !(shape::called_property(chain@, i + 1) is Some) {
                        match st.compile_member_read(fuel, property, line) {
                            Err(e) => Err(e),
                            Ok(st) => st.compile_chain(fuel, line, chain, i + 1),
                        }
                    } else {
                        st.compile_chain(fuel, line, chain, i + 1)
                    }
                },
                OptionalChainElement::Call { arguments, optional } => {
                    match shape::called_property(chain@, i) {
                        Some(id) => {
                            match st.compile_args(fuel, arguments, 0) {
                                Err(e) => Err(e),
                                Ok(st) => {
                                    let (st, idx) = st.make_string_constant(id);
                                    let st = st.emit_call_method(arguments.len() as u8, idx, line);
                                    st.compile_chain(fuel, line, chain, i + 1)
                                },
                            }
                        },
                        None => {
                            let st = if *optional {
                                let (st, skip) = st.jump(OpCode::OptionalChain, line);
                                st.push_mark(skip)
                            } else {
                                st
                            };
                            match st.compile_args(fuel, arguments, 0) {
                                Err(e) => Err(e),
                                Ok(st) => {
                                    let st = st.op_u8(OpCode::Call, arguments.len() as u8, line);
                                    st.compile_chain(fuel, line, chain, i + 1)
                                },
                            }
                        },
                    }
                },
            }
        }
    }

    /// Compile a yield. `yield*` passes on what an iterator yields until it is done.
    pub open spec fn compile_yield(
        self,
        fuel: nat,
        y: &'p YieldExpression,
    ) -> Result<CState<'p>, Failure>
        decreases fuel, y, 0int,
    {
        let st = self;
        let line: u32 = y.span.start;
        if y.delegate {
            match &y.argument {
                Some(arg) => {
                    match st.compile_expr(fuel, arg) {
                        Err(e) => Err(e),
                        Ok(st) => Ok(st.emit_delegation(line)),
                    }
                },
                None => Err(st.failing(steps::plain_message_text("yield* requires an argument"@))),
            }
        } else {
            let r = match &y.argument {
                Some(arg) => st.compile_expr(fuel, arg),
                None => Ok(st.op(OpCode::Undefined, line)),
            };
            match r {
                Err(e) => Err(e),
                Ok(st) => Ok(st.op(OpCode::Yield, line)),
            }
        }
    }

    /// Yield what the iterable on the stack yields; leave its final value.
    pub open spec fn emit_delegation(self, line: u32) -> CState<'p>
    {
        let st = self;
        let st = st.op(OpCode::GetIterator, line);
        let loop_start: usize = st.here();
        let st = st.op(OpCode::Dup, line);
        let st = st.op(OpCode::IteratorNext, line);
        let st = st.op(OpCode::Dup, line);
        let st = st.op(OpCode::IteratorDone, line);
        let (st, exit_jump) = st.jump(OpCode::JumpIfTrue, line);
        let st = st.op(OpCode::IteratorValue, line);
        let st = st.op(OpCode::Yield, line);
        let st = st.op(OpCode::Pop, line);
        let st = st.back(loop_start, line);
        let st = st.patch(exit_jump);
        let st = st.op(OpCode::Pop, line);
        let st = st.op(OpCode::IteratorValue, line);
        let st = st.op(OpCode::Swap, line);
        st.op(OpCode::Pop, line)
    }

    /// Compile a regular expression literal.
    pub open spec fn compile_regexp(self, r: &'p RegExpLiteral) -> CState<'p>
    {
        let st = self;
        let (st, pat_idx) = st.make_string_constant(r.pattern);
        let (st, flags_idx) = st.make_string_constant(r.flags);
        let st = st.byte(OpCode::CreateRegExp.byte(), r.span.start);
        let st = st.raw16(pat_idx);
        st.raw16(flags_idx)
    }

    /// Compile `new.target` or `import.meta`.
    pub open spec fn compile_meta_property(self, m: &'p MetaProperty) -> CState<'p>
    {
        let st = self;
        if st.name_is(m.meta, "new"@) && st.name_is(m.property, "target"@) {
            st.op(OpCode::NewTarget, m.span.start)
        } else if st.name_is(m.meta, "import"@) && st.name_is(m.property, "meta"@) {
            st.op(OpCode::ImportMeta, m.span.start)
        } else {
            st.op(OpCode::Undefined, m.span.start)
        }
    }
}

impl<'p> Compiler<'p> {
    /// Compile an expression: its value ends up on top of the stack.
    pub(crate) fn compile_expr(
        &mut self,
        fuel: u32,
        expr: &'p Expression,
    ) -> (done: Result<(), String>)
        requires
            old(self).st().good(),
        ensures
            steps::outcome(done, final(self).st(), old(self).st().compile_expr(fuel as nat, expr)),
            done is Ok ==> final(self).st().depths() == old(self).st().depths(),
            final(self).st().good(),
            final(self).st().base == old(self).st().base,
        decreases fuel, expr, 5int,
    {
        match expr {
            Expression::NumberLiteral(n) => {
                self.compile_number(n);
            },
            Expression::BigIntLiteral(b) => {
                self.op_name(OpCode::LoadBigInt, b.raw, b.span.start);
            },
            Expression::StringLiteral(s) => {
                self.op_name(OpCode::Const, s.value, s.span.start);
            },
            Expression::BooleanLiteral(b) => {
                self.op(if b.value { OpCode::True } else { OpCode::False }, b.span.start);
            },
            Expression::NullLiteral(span) => {
                self.op(OpCode::Null, span.start);
            },
            Expression::Identifier(id) => {
                self.compile_identifier(id);
            },
            Expression::This(span) => {
                let this_name: StringId = self.intern("__this__");
                self.op_name(OpCode::GetGlobal, this_name, span.start);
            },
            Expression::Binary(b) => {
                self.compile_binary(fuel, b)?;
            },
            Expression::Unary(u) => {
                self.compile_unary(fuel, u)?;
            },
            Expression::Update(u) => {
                self.compile_update(fuel, u)?;
            },
            Expression::Logical(l) => {
                self.compile_logical(fuel, l)?;
            },
            Expression::Conditional(c) => {
                self.compile_conditional(fuel, c)?;
            },
            Expression::Assignment(a) => {
                self.compile_assignment(fuel, a)?;
            },
            Expression::Sequence(s) => {
                self.compile_sequence(fuel, &s.expressions)?;
            },
            Expression::Member(m) => {
                self.compile_member(fuel, m)?;
            },
            Expression::Call(c) => {
                self.compile_call(fuel, c)?;
            },
            Expression::New(n) => {
                self.compile_new(fuel, n)?;
            },
            Expression::Array(a) => {
                self.compile_array(fuel, a)?;
            },
            Expression::Object(o) => {
                self.compile_object(fuel, o)?;
            },
            Expression::Function(f) => {
                self.compile_function_expr(fuel, f)?;
            },
            Expression::ArrowFunction(a) => {
                self.compile_arrow_expr(fuel, a)?;
            },
            Expression::Class(c) => {
                self.compile_class_expr(fuel, c)?;
            },
            Expression::TemplateLiteral(t) => {
                self.compile_template_literal(fuel, t)?;
            },
            Expression::TaggedTemplate(t) => {
                self.compile_tagged_template(fuel, t)?;
            },
            Expression::Spread(s) => {
                self.compile_expr(fuel, &s.argument)?;
            },
            Expression::Yield(y) => {
                self.compile_yield(fuel, y)?;
            },
            Expression::Await(a) => {
                self.compile_expr(fuel, &a.argument)?;
                self.op(OpCode::Await, a.span.start);
            },
            Expression::OptionalChain(o) => {
                self.compile_optional_chain(fuel, o)?;
            },
            Expression::RegExpLiteral(r) => {
                self.compile_regexp(r);
            },
            Expression::MetaProperty(m) => {
                self.compile_meta_property(m);
            },
            Expression::Import(i) => {
                self.compile_expr(fuel, &i.source)?;
                self.op(OpCode::ImportDynamic, i.span.start);
            },
            Expression::Super(_) => {
                self.op(OpCode::GetSuperConstructor, 0);
            },
        }
        Ok(())
    }

    /// Compile a numeric literal: zero and one have opcodes of their own, small integers are
    /// integer constants, all else is a number constant.
    pub(crate) fn compile_number(&mut self, n: &'p NumberLiteral)
        requires
            old(self).st().good(),
        ensures
            final(self).st() == old(self).st().compile_number(n),
            final(self).st().depths() == old(self).st().depths(),
            final(self).st().good(),
            final(self).st().base == old(self).st().base,
    {
        let line: u32 = n.span.start;
        if n.value == POSITIVE_ZERO {
            self.op(OpCode::Zero, line);
        } else if n.value == POSITIVE_ONE {
            self.op(OpCode::One, line);
        } else {
            match small_integer(n.value) {
                Some(i) => {
                    self.emit_constant(Value::Int(i), line);
                },
                None => {
                    self.emit_constant(Value::Number(n.value), line);
                },
            }
        }
    }

    /// Compile an identifier reference.
    pub(crate) fn compile_identifier(&mut self, id: &'p Identifier)
        requires
            old(self).st().good(),
        ensures
            final(self).st() == old(self).st().compile_identifier(id),
            final(self).st().depths() == old(self).st().depths(),
            final(self).st().good(),
            final(self).st().base == old(self).st().base,
    {
        if self.name_is(id.name, "undefined") {
            self.op(OpCode::Undefined, id.span.start);
        } else {
            self.compile_get_variable(id.name, id.span.start);
        }
    }

    /// Compile a binary operation; `#name in obj` is a private-name check.
    pub(crate) fn compile_binary(
        &mut self,
        fuel: u32,
        b: &'p BinaryExpression,
    ) -> (done: Result<(), String>)
        requires
            old(self).st().good(),
        ensures
            steps::outcome(done, final(self).st(), old(self).st().compile_binary(fuel as nat, b)),
            done is Ok ==> final(self).st().depths() == old(self).st().depths(),
            final(self).st().good(),
            final(self).st().base == old(self).st().base,
        decreases fuel, b, 0int,
    {
        let line: u32 = b.span.start;
        if b.operator == BinaryOperator::In {
            if let Expression::Identifier(id) = &b.left {
                if self.name_is_private(id.name) {
                    self.compile_expr(fuel, &b.right)?;
                    self.op_name(OpCode::HasPrivate, id.name, line);
                    return Ok(());
                }
            }
        }
        self.compile_expr(fuel, &b.left)?;
        self.compile_expr(fuel, &b.right)?;
        self.op(binary_opcode(b.operator), line);
        Ok(())
    }

    /// Compile a unary operation. `typeof` of an unresolved name does not throw.
    pub(crate) fn compile_unary(
        &mut self,
        fuel: u32,
        u: &'p UnaryExpression,
    ) -> (done: Result<(), String>)
        requires
            old(self).st().good(),
        ensures
            steps::outcome(done, final(self).st(), old(self).st().compile_unary(fuel as nat, u)),
            done is Ok ==> final(self).st().depths() == old(self).st().depths(),
            final(self).st().good(),
            final(self).st().base == old(self).st().base,
        decreases fuel, u, 0int,
    {
        let line: u32 = u.span.start;
        if u.operator == UnaryOperator::TypeOf {
            if let Expression::Identifier(id) = &u.argument {
                if self.resolve_local(id.name).is_none() {
                    let found: Option<u16> = self.resolve_upvalue(id.name);
                    if found.is_none() {
                        self.op_name(OpCode::TypeOfGlobal, id.name, line);
                        return Ok(());
                    }
                }
            }
        }
        if u.operator == UnaryOperator::Delete {
            self.compile_delete(fuel, &u.argument, line)?;
        } else {
            self.compile_expr(fuel, &u.argument)?;
            self.op(unary_opcode(u.operator), line);
        }
        Ok(())
    }

    /// Compile a deletion.
    pub(crate) fn compile_delete(
        &mut self,
        fuel: u32,
        argument: &'p Expression,
        line: u32,
    ) -> (done: Result<(), String>)
        requires
            old(self).st().good(),
        ensures
            steps::outcome(
                done,
                final(self).st(),
                old(self).st().compile_delete(fuel as nat, argument, line),
            ),
            done is Ok ==> final(self).st().depths() == old(self).st().depths(),
            final(self).st().good(),
            final(self).st().base == old(self).st().base,
        decreases fuel, argument, 6int,
    {
        match argument {
            Expression::Member(m) => {
                self.compile_expr(fuel, &m.object)?;
                match &m.property {
                    MemberProperty::Identifier(id) => {
                        self.op_name(OpCode::Const, *id, line);
                        self.op(OpCode::DeleteProp, line);
                    },
                    MemberProperty::Expression(key) => {
                        self.compile_expr(fuel, key)?;
                        self.op(OpCode::DeleteProp, line);
                    },
                    MemberProperty::PrivateIdentifier(_) => {
                        self.op(OpCode::False, line);
                    },
                }
            },
            Expression::Identifier(id) => {
                self.op_name(OpCode::DeleteGlobal, id.name, line);
            },
            _ => {
                self.compile_expr(fuel, argument)?;
                self.op(OpCode::Pop, line);
                self.op(OpCode::True, line);
            },
        }
        Ok(())
    }

    /// Compile an increment or decrement.
    pub(crate) fn compile_update(
        &mut self,
        fuel: u32,
        u: &'p UpdateExpression,
    ) -> (done: Result<(), String>)
        requires
            old(self).st().good(),
        ensures
            steps::outcome(done, final(self).st(), old(self).st().compile_update(fuel as nat, u)),
            done is Ok ==> final(self).st().depths() == old(self).st().depths(),
            final(self).st().good(),
            final(self).st().base == old(self).st().base,
        decreases fuel, u, 0int,
    {
        let line: u32 = u.span.start;
        let inc_op: OpCode = if u.operator == UpdateOperator::Increment { OpCode::Inc } else { OpCode::Dec };
        match &u.argument {
            Expression::Identifier(id) => {
                self.update_identifier(id.name, inc_op, u.prefix, line);
            },
            Expression::Member(m) => {
                self.compile_expr(fuel, &m.object)?;
                match &m.property {
                    MemberProperty::Identifier(name) => {
                        self.update_property(*name, inc_op, u.prefix, line);
                    },
                    MemberProperty::Expression(key) => {
                        self.compile_expr(fuel, key)?;
                        self.update_element(inc_op, u.prefix, line);
                    },
                    MemberProperty::PrivateIdentifier(_) => {
                        self.op(OpCode::Undefined, line);
                    },
                }
            },
            _ => {
                return Err(offset_message("invalid update expression target at ", line));
            },
        }
        Ok(())
    }

    /// Increment or decrement a variable.
    pub(crate) fn update_identifier(
        &mut self,
        name: StringId,
        inc_op: OpCode,
        prefix: bool,
        line: u32,
    )
        requires
            old(self).st().good(),
        ensures
            final(self).st() == old(self).st().update_identifier(name, inc_op, prefix, line),
            final(self).st().depths() == old(self).st().depths(),
            final(self).st().good(),
            final(self).st().base == old(self).st().base,
    {
        let needs_ref: bool = self.ident_needs_with_ref(name);
        if needs_ref {
            self.op_name(OpCode::WithRefResolve, name, line);
            self.compile_get_variable_resolved(name, line);
            if prefix {
                self.op(inc_op, line);
                self.compile_set_variable_resolved(name, line);
            } else {
                self.op(OpCode::ToNumeric, line);
                self.op(OpCode::Dup, line);
                self.op(inc_op, line);
                self.op(OpCode::Rot3, line);
                self.op(OpCode::Rot3, line);
                self.op(OpCode::Swap, line);
                self.compile_set_variable_resolved(name, line);
                self.op(OpCode::Pop, line);
            }
        } else {
            self.compile_get_variable(name, line);
            if prefix {
                self.op(inc_op, line);
                self.compile_set_variable(name, line);
            } else {
                self.op(OpCode::ToNumeric, line);
                self.op(OpCode::Dup, line);
                self.op(inc_op, line);
                self.compile_set_variable(name, line);
                self.op(OpCode::Pop, line);
            }
        }
    }

    /// Increment or decrement a property of the object on the stack.
    pub(crate) fn update_property(
        &mut self,
        name: StringId,
        inc_op: OpCode,
        prefix: bool,
        line: u32,
    )
        requires
            old(self).st().good(),
        ensures
            final(self).st() == old(self).st().update_property(name, inc_op, prefix, line),
            final(self).st().depths() == old(self).st().depths(),
            final(self).st().good(),
            final(self).st().base == old(self).st().base,
    {
        let idx: u16 = self.make_string_constant(name);
        self.op(OpCode::Dup, line);
        self.emit_get_property(idx, line);
        if prefix {
            self.op(inc_op, line);
            self.emit_set_property(idx, line);
        } else {
            self.op(OpCode::Dup, line);
            self.op(OpCode::Rot3, line);
            self.op(inc_op, line);
            self.emit_set_property(idx, line);
            self.op(OpCode::Pop, line);
        }
    }

    /// Increment or decrement the element that object and key on the stack denote.
    pub(crate) fn update_element(&mut self, inc_op: OpCode, prefix: bool, line: u32)
        requires
            old(self).st().good(),
        ensures
            final(self).st() == old(self).st().update_element(inc_op, prefix, line),
            final(self).st().depths() == old(self).st().depths(),
            final(self).st().good(),
            final(self).st().base == old(self).st().base,
    {
        self.op(OpCode::Dup2, line);
        self.op(OpCode::GetElement, line);
        if prefix {
            self.op(inc_op, line);
            self.op(OpCode::SetElement, line);
        } else {
            self.op(OpCode::ToNumeric, line);
            self.op(OpCode::Rot3, line);
            self.op(OpCode::Dup2, line);
            self.op(OpCode::GetElement, line);
            self.op(inc_op, line);
            self.op(OpCode::SetElement, line);
            self.op(OpCode::Pop, line);
        }
    }

    /// Compile a short-circuit operation.
    pub(crate) fn compile_logical(
        &mut self,
        fuel: u32,
        l: &'p LogicalExpression,
    ) -> (done: Result<(), String>)
        requires
            old(self).st().good(),
        ensures
            steps::outcome(done, final(self).st(), old(self).st().compile_logical(fuel as nat, l)),
            done is Ok ==> final(self).st().depths() == old(self).st().depths(),
            final(self).st().good(),
            final(self).st().base == old(self).st().base,
        decreases fuel, l, 0int,
    {
        let line: u32 = l.span.start;
        self.compile_expr(fuel, &l.left)?;
        match l.operator {
            LogicalOperator::And => {
                let jump: usize = self.jump(OpCode::JumpIfFalsePeek, line);
                self.op(OpCode::Pop, line);
                self.compile_expr(fuel, &l.right)?;
                self.patch(jump);
            },
            LogicalOperator::Or => {
                let jump: usize = self.jump(OpCode::JumpIfTruePeek, line);
                self.op(OpCode::Pop, line);
                self.compile_expr(fuel, &l.right)?;
                self.patch(jump);
            },
            LogicalOperator::NullishCoalescing => {
                let jump: usize = self.jump(OpCode::JumpIfNullishPeek, line);
                let end: usize = self.jump(OpCode::Jump, line);
                self.patch(jump);
                self.op(OpCode::Pop, line);
                self.compile_expr(fuel, &l.right)?;
                self.patch(end);
            },
        }
        Ok(())
    }

    /// Compile a conditional expression.
    pub(crate) fn compile_conditional(
        &mut self,
        fuel: u32,
        c: &'p ConditionalExpression,
    ) -> (done: Result<(), String>)
        requires
            old(self).st().good(),
        ensures
            steps::outcome(
                done,
                final(self).st(),
                old(self).st().compile_conditional(fuel as nat, c),
            ),
            done is Ok ==> final(self).st().depths() == old(self).st().depths(),
            final(self).st().good(),
            final(self).st().base == old(self).st().base,
        decreases fuel, c, 0int,
    {
        let line: u32 = c.span.start;
        self.compile_expr(fuel, &c.test)?;
        let then_jump: usize = self.jump(OpCode::JumpIfFalse, line);
        self.compile_expr(fuel, &c.consequent)?;
        let else_jump: usize = self.jump(OpCode::Jump, line);
        self.patch(then_jump);
        self.compile_expr(fuel, &c.alternate)?;
        self.patch(else_jump);
        Ok(())
    }

    /// Compile an assignment.
    pub(crate) fn compile_assignment(
        &mut self,
        fuel: u32,
        a: &'p AssignmentExpression,
    ) -> (done: Result<(), String>)
        requires
            old(self).st().good(),
        ensures
            steps::outcome(
                done,
                final(self).st(),
                old(self).st().compile_assignment(fuel as nat, a),
            ),
            done is Ok ==> final(self).st().depths() == old(self).st().depths(),
            final(self).st().good(),
            final(self).st().base == old(self).st().base,
        decreases fuel, a, 1int,
    {
        let line: u32 = a.span.start;
        match &a.left {
            AssignmentTarget::Identifier(id) => {
                self.assign_identifier(fuel, id.name, a.operator, &a.right, line)?;
            },
            AssignmentTarget::Member(m) => {
                self.compile_expr(fuel, &m.object)?;
                self.compile_member_store(fuel, a, line)?;
            },
            AssignmentTarget::Pattern(pat) => {
                self.compile_expr(fuel, &a.right)?;
                match pat {
                    Pattern::Array(arr_pat) => {
                        if has_array_rest(&arr_pat.elements) {
                            self.assign_indexed_elements(fuel, line, &arr_pat.elements)?;
                        } else {
                            self.assign_iterated_elements(fuel, &arr_pat.elements, line)?;
                        }
                    },
                    Pattern::Object(obj_pat) => {
                        self.op(OpCode::Dup, line);
                        let nullish_jump: usize = self.jump(OpCode::JumpIfNullishPeek, line);
                        self.op(OpCode::Pop, line);
                        let skip_throw: usize = self.jump(OpCode::Jump, line);
                        self.patch(nullish_jump);
                        self.op(OpCode::Pop, line);
                        self.emit_throw_type_error(
                            "Cannot destructure 'undefined' or 'null'",
                            line,
                        );
                        self.patch(skip_throw);
                        let has_rest: bool = has_object_rest(&obj_pat.properties);
                        self.assign_properties(fuel, has_rest, line, &obj_pat.properties)?;
                    },
                    _ => {},
                }
            },
        }
        Ok(())
    }

    /// Assign a value to a variable, with a plain, compound or logical operator.
    pub(crate) fn assign_identifier(
        &mut self,
        fuel: u32,
        name: StringId,
        operator: AssignmentOperator,
        right: &'p Expression,
        line: u32,
    ) -> (done: Result<(), String>)
        requires
            old(self).st().good(),
        ensures
            steps::outcome(
                done,
                final(self).st(),
                old(self).st().assign_identifier(fuel as nat, name, operator, right, line),
            ),
            done is Ok ==> final(self).st().depths() == old(self).st().depths(),
            final(self).st().good(),
            final(self).st().base == old(self).st().base,
        decreases fuel, right, 7int,
    {
        if operator == AssignmentOperator::Assign {
            if is_anonymous_fn_def(right) {
                self.set_pending_name(name);
            }
            let needs_ref: bool = self.ident_needs_with_ref(name);
            if needs_ref {
                self.op_name(OpCode::WithRefResolve, name, line);
                self.compile_expr(fuel, right)?;
                self.compile_set_variable_resolved(name, line);
            } else {
                self.compile_expr(fuel, right)?;
                self.compile_set_variable(name, line);
            }
            return Ok(());
        }
        if is_logical_assignment(operator) {
            self.compile_get_variable(name, line);
            if operator == AssignmentOperator::NullishAssign {
                let jump: usize = self.jump(OpCode::JumpIfNullishPeek, line);
                let end: usize = self.jump(OpCode::Jump, line);
                self.patch(jump);
                self.op(OpCode::Pop, line);
                if is_anonymous_fn_def(right) {
                    self.set_pending_name(name);
                }
                self.compile_expr(fuel, right)?;
                self.patch(end);
            } else {
                let jump: usize = self.jump(
                    if operator == AssignmentOperator::AndAssign { OpCode::JumpIfFalsePeek } else { OpCode::JumpIfTruePeek },
                    line,
                );
                self.op(OpCode::Pop, line);
                if is_anonymous_fn_def(right) {
                    self.set_pending_name(name);
                }
                self.compile_expr(fuel, right)?;
                self.patch(jump);
            }
            self.compile_set_variable(name, line);
            return Ok(());
        }
        let needs_ref: bool = self.ident_needs_with_ref(name);
        if needs_ref {
            self.op_name(OpCode::WithRefResolve, name, line);
            self.compile_get_variable_resolved(name, line);
            self.compile_expr(fuel, right)?;
            self.emit_compound_arith(operator, line)?;
            self.compile_set_variable_resolved(name, line);
        } else {
            self.compile_get_variable(name, line);
            self.compile_expr(fuel, right)?;
            self.emit_compound_arith(operator, line)?;
            self.compile_set_variable(name, line);
        }
        Ok(())
    }

    /// Assign the elements of an iterated right-hand side, closing the iterator unless it is
    /// exhausted. The right-hand side stays on the stack as the value of the expression.
    pub(crate) fn assign_iterated_elements(
        &mut self,
        fuel: u32,
        elements: &'p Vec<Option<Pattern>>,
        line: u32,
    ) -> (done: Result<(), String>)
        requires
            old(self).st().good(),
        ensures
            steps::outcome(
                done,
                final(self).st(),
                old(self).st().assign_iterated_elements(fuel as nat, elements, line),
            ),
            done is Ok ==> final(self).st().depths() == old(self).st().depths(),
            final(self).st().good(),
            final(self).st().base == old(self).st().base,
        decreases fuel, elements, elements@.len() as int + 1,
    {
        self.op(OpCode::False, line);
        self.op(OpCode::Swap, line);
        let done_slot: u8 = self.next_slot();
        let done_anon: StringId = self.intern("__assign_iter_done__");
        self.declare_local(done_anon);
        self.op(OpCode::Dup, line);
        self.op(OpCode::GetIterator, line);
        self.assign_iterated(fuel, done_slot, line, elements)?;
        self.op_u8(OpCode::GetLocal, done_slot, line);
        let skip_close: usize = self.jump(OpCode::JumpIfTrue, line);
        self.op(OpCode::IteratorClose, line);
        let after_close: usize = self.jump(OpCode::Jump, line);
        self.patch(skip_close);
        self.op(OpCode::Pop, line);
        self.patch(after_close);
        self.op(OpCode::Swap, line);
        self.op(OpCode::Pop, line);
        self.pop_local();
        Ok(())
    }

    /// Assign each element in turn from the iterator on the stack.
    pub(crate) fn assign_iterated(
        &mut self,
        fuel: u32,
        done_slot: u8,
        line: u32,
        elements: &'p Vec<Option<Pattern>>,
    ) -> (done: Result<(), String>)
        requires
            old(self).st().good(),
        ensures
            steps::outcome(
                done,
                final(self).st(),
                old(self).st().assign_iterated(fuel as nat, done_slot, line, elements, 0),
            ),
            done is Ok ==> final(self).st().depths() == old(self).st().depths(),
            final(self).st().good(),
            final(self).st().base == old(self).st().base,
        decreases fuel, elements, elements@.len() as int,
    {
        let mut i: usize = 0;
        while i < elements.len()
            invariant
                i <= elements@.len(),
                self.st().good(),
                self.st().depths() == old(self).st().depths(),
                self.st().base == old(self).st().base,
                self.st().assign_iterated(
                    fuel as nat,
                    done_slot,
                    line,
                    elements,
                    i as int,
                ) == old(self).st().assign_iterated(fuel as nat, done_slot, line, elements, 0),
            decreases elements@.len() - i,
        {
            let elem = &elements[i];
            assert(decreases_to!(elements => elements[i as int]));
            self.op(OpCode::Dup, line);
            self.op(OpCode::IteratorNext, line);
            match elem {
                None => {
                    self.op(OpCode::Pop, line);
                },
                Some(pat) => {
                    self.op(OpCode::Dup, line);
                    self.op(OpCode::IteratorDone, line);
                    self.op(OpCode::Dup, line);
                    self.op_u8(OpCode::SetLocal, done_slot, line);
                    self.op(OpCode::Pop, line);
                    self.emit_value_or_undefined(line);
                    match pat {
                        Pattern::Assignment(a) => {
                            self.op(OpCode::Dup, line);
                            self.op(OpCode::Undefined, line);
                            self.op(OpCode::StrictNe, line);
                            let skip: usize = self.jump(OpCode::JumpIfTrue, line);
                            self.op(OpCode::Pop, line);
                            self.name_default(&a.left, &a.right);
                            self.compile_expr(fuel, &a.right)?;
                            self.patch(skip);
                            self.compile_assign_to_pattern(fuel, &a.left, line)?;
                        },
                        _ => {
                            self.compile_assign_to_pattern(fuel, pat, line)?;
                        },
                    }
                },
            }
            i = i + 1;
        }
        Ok(())
    }

    /// With an iterator result and its done flag on the stack, leave the value, or undefined
    /// where the iterator is done.
    pub(crate) fn emit_value_or_undefined(&mut self, line: u32)
        requires
            old(self).st().good(),
        ensures
            final(self).st() == old(self).st().emit_value_or_undefined(line),
            final(self).st().depths() == old(self).st().depths(),
            final(self).st().good(),
            final(self).st().base == old(self).st().base,
    {
        let not_done: usize = self.jump(OpCode::JumpIfFalse, line);
        self.op(OpCode::Pop, line);
        self.op(OpCode::Undefined, line);
        let after: usize = self.jump(OpCode::Jump, line);
        self.patch(not_done);
        self.op(OpCode::IteratorValue, line);
        self.patch(after);
    }

    /// An anonymous function that is the default of an identifier takes its name.
    pub(crate) fn name_default(&mut self, left: &'p Pattern, right: &'p Expression)
        requires
            old(self).st().good(),
        ensures
            final(self).st() == old(self).st().name_default(left, right),
            final(self).st().depths() == old(self).st().depths(),
            final(self).st().good(),
            final(self).st().base == old(self).st().base,
    {
        if let Pattern::Identifier(id) = left {
            if is_anonymous_fn_def(right) {
                self.set_pending_name(id.name);
            }
        }
    }

    /// Assign each element by index; a rest element iterates over what is left.
    pub(crate) fn assign_indexed_elements(
        &mut self,
        fuel: u32,
        line: u32,
        elements: &'p Vec<Option<Pattern>>,
    ) -> (done: Result<(), String>)
        requires
            old(self).st().good(),
        ensures
            steps::outcome(
                done,
                final(self).st(),
                old(self).st().assign_indexed_elements(fuel as nat, line, elements, 0),
            ),
            done is Ok ==> final(self).st().depths() == old(self).st().depths(),
            final(self).st().good(),
            final(self).st().base == old(self).st().base,
        decreases fuel, elements, elements@.len() as int,
    {
        let mut i: usize = 0;
        while i < elements.len()
            invariant
                i <= elements@.len(),
                self.st().good(),
                self.st().depths() == old(self).st().depths(),
                self.st().base == old(self).st().base,
                self.st().assign_indexed_elements(
                    fuel as nat,
                    line,
                    elements,
                    i as int,
                ) == old(self).st().assign_indexed_elements(fuel as nat, line, elements, 0),
            decreases elements@.len() - i,
        {
            let elem = &elements[i];
            assert(decreases_to!(elements => elements[i as int]));
            if let Some(elem_pat) = elem {
                self.op(OpCode::Dup, line);
                self.emit_constant(Value::Int(i as i32), line);
                self.op(OpCode::GetElement, line);
                match elem_pat {
                    Pattern::Identifier(id) => {
                        self.compile_set_variable(id.name, line);
                        self.op(OpCode::Pop, line);
                    },
                    Pattern::Rest(r) => {
                        self.op(OpCode::Pop, line);
                        self.op(OpCode::Dup, line);
                        self.op(OpCode::GetIterator, line);
                        self.skip_iterated(i as usize, line);
                        self.collect_iterated(line);
                        match &r.argument {
                            Pattern::Identifier(id) => {
                                self.compile_set_variable(id.name, line);
                                self.op(OpCode::Pop, line);
                            },
                            Pattern::Member(m) => {
                                self.compile_expr(fuel, &m.object)?;
                                match &m.property {
                                    MemberProperty::Identifier(id) => {
                                        let idx: u16 = self.make_string_constant(*id);
                                        self.op(OpCode::Swap, line);
                                        self.emit_set_property(idx, line);
                                    },
                                    MemberProperty::Expression(key) => {
                                        self.compile_expr(fuel, key)?;
                                        self.op(OpCode::Rot3, line);
                                        self.op(OpCode::Rot3, line);
                                        self.op(OpCode::SetElement, line);
                                    },
                                    MemberProperty::PrivateIdentifier(_) => {
                                        self.op(OpCode::Pop, line);
                                        self.op(OpCode::Pop, line);
                                    },
                                }
                                self.op(OpCode::Pop, line);
                            },
                            Pattern::Object(_) => {
                                self.compile_assign_to_pattern(fuel, &r.argument, line)?;
                            },
                            Pattern::Array(_) => {
                                self.compile_assign_to_pattern(fuel, &r.argument, line)?;
                            },
                            _ => {
                                self.op(OpCode::Pop, line);
                            },
                        }
                    },
                    Pattern::Object(_) => {
                        self.compile_assign_to_pattern(fuel, elem_pat, line)?;
                    },
                    Pattern::Array(_) => {
                        self.compile_assign_to_pattern(fuel, elem_pat, line)?;
                    },
                    _ => {
                        self.op(OpCode::Pop, line);
                    },
                }
            }
            i = i + 1;
        }
        Ok(())
    }

    /// With an iterator on the stack, replace it by the array of what it still yields.
    pub(crate) fn collect_iterated(&mut self, line: u32)
        requires
            old(self).st().good(),
        ensures
            final(self).st() == old(self).st().collect_iterated(line),
            final(self).st().depths() == old(self).st().depths(),
            final(self).st().good(),
            final(self).st().base == old(self).st().base,
    {
        self.op_u16(OpCode::CreateArray, 0, line);
        self.op(OpCode::Swap, line);
        let loop_start: usize = self.here();
        self.op(OpCode::Dup, line);
        self.op(OpCode::IteratorNext, line);
        self.op(OpCode::Dup, line);
        self.op(OpCode::IteratorDone, line);
        let exit_jump: usize = self.jump(OpCode::JumpIfTrue, line);
        self.op(OpCode::IteratorValue, line);
        self.op(OpCode::Swap, line);
        self.op(OpCode::Rot3, line);
        self.op(OpCode::ArrayAppend, line);
        self.op(OpCode::Swap, line);
        self.back(loop_start, line);
        self.patch(exit_jump);
        self.op(OpCode::Pop, line);
        self.op(OpCode::Pop, line);
    }

    /// Assign each property of an object pattern from the object on the stack.
    pub(crate) fn assign_properties(
        &mut self,
        fuel: u32,
        has_rest: bool,
        line: u32,
        properties: &'p Vec<ObjectPatternProperty>,
    ) -> (done: Result<(), String>)
        requires
            old(self).st().good(),
        ensures
            steps::outcome(
                done,
                final(self).st(),
                old(self).st().assign_properties(fuel as nat, has_rest, line, properties, 0),
            ),
            done is Ok ==> final(self).st().depths() == old(self).st().depths(),
            final(self).st().good(),
            final(self).st().base == old(self).st().base,
        decreases fuel, properties, properties@.len() as int,
    {
        let mut i: usize = 0;
        while i < properties.len()
            invariant
                i <= properties@.len(),
                self.st().good(),
                self.st().depths() == old(self).st().depths(),
                self.st().base == old(self).st().base,
                self.st().assign_properties(
                    fuel as nat,
                    has_rest,
                    line,
                    properties,
                    i as int,
                ) == old(self).st().assign_properties(fuel as nat, has_rest, line, properties, 0),
            decreases properties@.len() - i,
        {
            let prop = &properties[i];
            assert(decreases_to!(properties => properties[i as int]));
            match prop {
                ObjectPatternProperty::Property { key, value, .. } => {
                    self.op(OpCode::Dup, line);
                    if let PropertyKey::Private(_) = key {
                        self.op(OpCode::Pop, line);
                        i = i + 1;
                        continue;
                    }
                    self.compile_keyed_read(fuel, key, has_rest, line)?;
                    match value {
                        Pattern::Identifier(id) => {
                            self.compile_set_variable(id.name, line);
                            self.op(OpCode::Pop, line);
                        },
                        Pattern::Member(m) => {
                            self.compile_member_target(fuel, m, line)?;
                        },
                        Pattern::Assignment(a) => {
                            self.op(OpCode::Dup, line);
                            self.op(OpCode::Undefined, line);
                            self.op(OpCode::StrictEq, line);
                            let jump_idx: usize = self.here();
                            self.op(OpCode::JumpIfFalse, line);
                            self.raw16(0);
                            self.op(OpCode::Pop, line);
                            self.name_default(&a.left, &a.right);
                            self.compile_expr(fuel, &a.right)?;
                            self.patch_short(jump_idx);
                            match &a.left {
                                Pattern::Identifier(id) => {
                                    self.compile_set_variable(id.name, line);
                                    self.op(OpCode::Pop, line);
                                },
                                Pattern::Member(_) => {
                                    self.compile_assign_to_pattern(fuel, &a.left, line)?;
                                },
                                Pattern::Object(_) => {
                                    self.compile_assign_to_pattern(fuel, &a.left, line)?;
                                },
                                Pattern::Array(_) => {
                                    self.compile_assign_to_pattern(fuel, &a.left, line)?;
                                },
                                _ => {
                                    self.op(OpCode::Pop, line);
                                },
                            }
                        },
                        Pattern::Object(_) => {
                            self.compile_assign_to_pattern(fuel, value, line)?;
                        },
                        Pattern::Array(_) => {
                            self.compile_assign_to_pattern(fuel, value, line)?;
                        },
                        _ => {
                            self.op(OpCode::Pop, line);
                        },
                    }
                },
                ObjectPatternProperty::Rest(rest) => {
                    if let Pattern::Identifier(id) = &rest.argument {
                        let excluded: Vec<StringId> = collect_excluded(properties);
                        self.op(OpCode::Dup, line);
                        self.emit_object_rest(&excluded, name_count(&excluded), line);
                        self.compile_set_variable(id.name, line);
                        self.op(OpCode::Pop, line);
                    }
                },
            }
            i = i + 1;
        }
        Ok(())
    }

    /// Read the property with a key from the object on the stack, replacing it. Where a rest
    /// element follows, a computed key is noted as excluded.
    pub(crate) fn compile_keyed_read(
        &mut self,
        fuel: u32,
        key: &'p PropertyKey,
        has_rest: bool,
        line: u32,
    ) -> (done: Result<(), String>)
        requires
            old(self).st().good(),
        ensures
            steps::outcome(
                done,
                final(self).st(),
                old(self).st().compile_keyed_read(fuel as nat, key, has_rest, line),
            ),
            done is Ok ==> final(self).st().depths() == old(self).st().depths(),
            final(self).st().good(),
            final(self).st().base == old(self).st().base,
        decreases fuel, key, 0int,
    {
        match key {
            PropertyKey::Identifier(s) => {
                let key_idx: u16 = self.make_string_constant(*s);
                self.emit_get_property(key_idx, line);
            },
            PropertyKey::StringLiteral(s) => {
                let key_idx: u16 = self.make_string_constant(*s);
                self.emit_get_property(key_idx, line);
            },
            PropertyKey::Computed(expr) => {
                self.compile_expr(fuel, expr)?;
                self.emit_element_read(has_rest, line);
            },
            PropertyKey::NumberLiteral(n) => {
                self.emit_constant(Value::Number(*n), line);
                self.emit_element_read(has_rest, line);
            },
            PropertyKey::Private(_) => {},
        }
        Ok(())
    }

    /// Read an element; where a rest element follows, its key is noted as excluded.
    pub(crate) fn emit_element_read(&mut self, has_rest: bool, line: u32)
        requires
            old(self).st().good(),
        ensures
            final(self).st() == old(self).st().emit_element_read(has_rest, line),
            final(self).st().depths() == old(self).st().depths(),
            final(self).st().good(),
            final(self).st().base == old(self).st().base,
    {
        if has_rest {
            self.op(OpCode::Dup, line);
            self.op(OpCode::PushComputedExclude, line);
        }
        self.op(OpCode::GetElement, line);
    }

    /// Collect the properties that are left, given the names that are not.
    pub(crate) fn emit_object_rest(&mut self, excluded: &Vec<StringId>, count: u8, line: u32)
        requires
            old(self).st().good(),
        ensures
            final(self).st() == old(self).st().emit_object_rest(excluded@, count, line),
            final(self).st().depths() == old(self).st().depths(),
            final(self).st().good(),
            final(self).st().base == old(self).st().base,
    {
        self.byte(OpCode::ObjectRest.to_byte(), line);
        self.raw(count);
        self.emit_excluded(excluded);
    }

    /// Append the constant index of each name.
    pub(crate) fn emit_excluded(&mut self, names: &Vec<StringId>)
        requires
            old(self).st().good(),
        ensures
            final(self).st() == old(self).st().emit_excluded(names@, 0),
            final(self).st().depths() == old(self).st().depths(),
            final(self).st().good(),
            final(self).st().base == old(self).st().base,
    {
        let mut i: usize = 0;
        while i < names.len()
            invariant
                i <= names@.len(),
                self.st().good(),
                self.st().depths() == old(self).st().depths(),
                self.st().base == old(self).st().base,
                self.st().emit_excluded(
                    names@,
                    i as int,
                ) == old(self).st().emit_excluded(names@, 0),
            decreases names@.len() - i,
        {
            let name = names[i];
            let idx: u16 = self.make_string_constant(name);
            self.raw16(idx);
            i = i + 1;
        }
    }

    /// With a value on the stack, assign it to a member and drop it.
    pub(crate) fn compile_member_target(
        &mut self,
        fuel: u32,
        m: &'p MemberExpression,
        line: u32,
    ) -> (done: Result<(), String>)
        requires
            old(self).st().good(),
        ensures
            steps::outcome(
                done,
                final(self).st(),
                old(self).st().compile_member_target(fuel as nat, m, line),
            ),
            done is Ok ==> final(self).st().depths() == old(self).st().depths(),
            final(self).st().good(),
            final(self).st().base == old(self).st().base,
        decreases fuel, m, 0int,
    {
        self.compile_expr(fuel, &m.object)?;
        match &m.property {
            MemberProperty::Identifier(id) => {
                let idx: u16 = self.make_string_constant(*id);
                self.op(OpCode::Swap, line);
                self.emit_set_property(idx, line);
                self.op(OpCode::Pop, line);
            },
            MemberProperty::Expression(key) => {
                self.compile_expr(fuel, key)?;
                self.op(OpCode::Rot3, line);
                self.op(OpCode::Rot3, line);
                self.op(OpCode::SetElement, line);
                self.op(OpCode::Pop, line);
            },
            MemberProperty::PrivateIdentifier(_) => {
                self.op(OpCode::Pop, line);
                self.op(OpCode::Pop, line);
            },
        }
        Ok(())
    }

    /// With the object on the stack, assign the right-hand side to one of its members.
    pub(crate) fn compile_member_store(
        &mut self,
        fuel: u32,
        a: &'p AssignmentExpression,
        line: u32,
    ) -> (done: Result<(), String>)
        requires
            old(self).st().good(),
        ensures
            steps::outcome(
                done,
                final(self).st(),
                old(self).st().compile_member_store(fuel as nat, a, line),
            ),
            done is Ok ==> final(self).st().depths() == old(self).st().depths(),
            final(self).st().good(),
            final(self).st().base == old(self).st().base,
        decreases fuel, a, 0int,
    {
        if let AssignmentTarget::Member(m) = &a.left {
            match &m.property {
                MemberProperty::Identifier(name) => {
                    let idx: u16 = self.make_string_constant(*name);
                    self.store_property(fuel, idx, a.operator, &a.right, line)?;
                },
                MemberProperty::Expression(key) => {
                    self.compile_expr(fuel, key)?;
                    self.store_element(fuel, a.operator, &a.right, line)?;
                },
                MemberProperty::PrivateIdentifier(name) => {
                    let idx: u16 = self.make_string_constant(*name);
                    self.store_private(fuel, idx, a.operator, &a.right, line)?;
                },
            }
        }
        Ok(())
    }

    /// Assign a property of the object on the stack.
    pub(crate) fn store_property(
        &mut self,
        fuel: u32,
        idx: u16,
        operator: AssignmentOperator,
        rhs: &'p Expression,
        line: u32,
    ) -> (done: Result<(), String>)
        requires
            old(self).st().good(),
        ensures
            steps::outcome(
                done,
                final(self).st(),
                old(self).st().store_property(fuel as nat, idx, operator, rhs, line),
            ),
            done is Ok ==> final(self).st().depths() == old(self).st().depths(),
            final(self).st().good(),
            final(self).st().base == old(self).st().base,
        decreases fuel, rhs, 8int,
    {
        if is_logical_assignment(operator) {
            self.op(OpCode::Dup, line);
            self.emit_get_property(idx, line);
            self.emit_logical_member_assign(fuel, operator, idx, rhs, line)?;
        } else {
            if operator != AssignmentOperator::Assign {
                self.op(OpCode::Dup, line);
                self.emit_get_property(idx, line);
                self.compile_expr(fuel, rhs)?;
                self.emit_compound_arith(operator, line)?;
            } else {
                self.compile_expr(fuel, rhs)?;
            }
            self.emit_set_property(idx, line);
        }
        Ok(())
    }

    /// Assign the element that object and key on the stack denote.
    pub(crate) fn store_element(
        &mut self,
        fuel: u32,
        operator: AssignmentOperator,
        rhs: &'p Expression,
        line: u32,
    ) -> (done: Result<(), String>)
        requires
            old(self).st().good(),
        ensures
            steps::outcome(
                done,
                final(self).st(),
                old(self).st().store_element(fuel as nat, operator, rhs, line),
            ),
            done is Ok ==> final(self).st().depths() == old(self).st().depths(),
            final(self).st().good(),
            final(self).st().base == old(self).st().base,
        decreases fuel, rhs, 8int,
    {
        if is_logical_assignment(operator) {
            self.op(OpCode::Dup2, line);
            self.op(OpCode::GetElement, line);
            self.emit_logical_elem_assign(fuel, operator, rhs, line)?;
        } else {
            if operator != AssignmentOperator::Assign {
                self.op(OpCode::Dup2, line);
                self.op(OpCode::GetElement, line);
                self.compile_expr(fuel, rhs)?;
                self.emit_compound_arith(operator, line)?;
            } else {
                self.compile_expr(fuel, rhs)?;
            }
            self.op(OpCode::SetElement, line);
        }
        Ok(())
    }

    /// Assign a private field of the object on the stack.
    pub(crate) fn store_private(
        &mut self,
        fuel: u32,
        idx: u16,
        operator: AssignmentOperator,
        rhs: &'p Expression,
        line: u32,
    ) -> (done: Result<(), String>)
        requires
            old(self).st().good(),
        ensures
            steps::outcome(
                done,
                final(self).st(),
                old(self).st().store_private(fuel as nat, idx, operator, rhs, line),
            ),
            done is Ok ==> final(self).st().depths() == old(self).st().depths(),
            final(self).st().good(),
            final(self).st().base == old(self).st().base,
        decreases fuel, rhs, 8int,
    {
        if is_logical_assignment(operator) {
            self.op(OpCode::Dup, line);
            self.op_u16(OpCode::GetPrivate, idx, line);
            self.emit_logical_priv_assign(fuel, operator, idx, rhs, line)?;
        } else {
            if operator != AssignmentOperator::Assign {
                self.op(OpCode::Dup, line);
                self.op_u16(OpCode::GetPrivate, idx, line);
                self.compile_expr(fuel, rhs)?;
                self.emit_compound_arith(operator, line)?;
            } else {
                self.compile_expr(fuel, rhs)?;
            }
            self.op_u16(OpCode::SetPrivate, idx, line);
        }
        Ok(())
    }

    /// Logical assignment of a property: stack [obj, old].
    pub(crate) fn emit_logical_member_assign(
        &mut self,
        fuel: u32,
        operator: AssignmentOperator,
        idx: u16,
        rhs: &'p Expression,
        line: u32,
    ) -> (done: Result<(), String>)
        requires
            old(self).st().good(),
        ensures
            steps::outcome(
                done,
                final(self).st(),
                old(self).st().emit_logical_member_assign(fuel as nat, operator, idx, rhs, line),
            ),
            done is Ok ==> final(self).st().depths() == old(self).st().depths(),
            final(self).st().good(),
            final(self).st().base == old(self).st().base,
        decreases fuel, rhs, 7int,
    {
        if operator == AssignmentOperator::NullishAssign {
            let to_assign: usize = self.jump(OpCode::JumpIfNullishPeek, line);
            self.op(OpCode::Swap, line);
            self.op(OpCode::Pop, line);
            let end: usize = self.jump(OpCode::Jump, line);
            self.patch(to_assign);
            self.op(OpCode::Pop, line);
            self.compile_expr(fuel, rhs)?;
            self.emit_set_property(idx, line);
            self.patch(end);
        } else {
            let skip: usize = self.jump(
                if operator == AssignmentOperator::AndAssign { OpCode::JumpIfFalsePeek } else { OpCode::JumpIfTruePeek },
                line,
            );
            self.op(OpCode::Pop, line);
            self.compile_expr(fuel, rhs)?;
            self.emit_set_property(idx, line);
            let end: usize = self.jump(OpCode::Jump, line);
            self.patch(skip);
            self.op(OpCode::Swap, line);
            self.op(OpCode::Pop, line);
            self.patch(end);
        }
        Ok(())
    }

    /// Logical assignment of an element: stack [obj, key, old].
    pub(crate) fn emit_logical_elem_assign(
        &mut self,
        fuel: u32,
        operator: AssignmentOperator,
        rhs: &'p Expression,
        line: u32,
    ) -> (done: Result<(), String>)
        requires
            old(self).st().good(),
        ensures
            steps::outcome(
                done,
                final(self).st(),
                old(self).st().emit_logical_elem_assign(fuel as nat, operator, rhs, line),
            ),
            done is Ok ==> final(self).st().depths() == old(self).st().depths(),
            final(self).st().good(),
            final(self).st().base == old(self).st().base,
        decreases fuel, rhs, 7int,
    {
        if operator == AssignmentOperator::NullishAssign {
            let to_assign: usize = self.jump(OpCode::JumpIfNullishPeek, line);
            self.op(OpCode::Swap, line);
            self.op(OpCode::Pop, line);
            self.op(OpCode::Swap, line);
            self.op(OpCode::Pop, line);
            let end: usize = self.jump(OpCode::Jump, line);
            self.patch(to_assign);
            self.op(OpCode::Pop, line);
            self.compile_expr(fuel, rhs)?;
            self.op(OpCode::SetElement, line);
            self.patch(end);
        } else {
            let skip: usize = self.jump(
                if operator == AssignmentOperator::AndAssign { OpCode::JumpIfFalsePeek } else { OpCode::JumpIfTruePeek },
                line,
            );
            self.op(OpCode::Pop, line);
            self.compile_expr(fuel, rhs)?;
            self.op(OpCode::SetElement, line);
            let end: usize = self.jump(OpCode::Jump, line);
            self.patch(skip);
            self.op(OpCode::Swap, line);
            self.op(OpCode::Pop, line);
            self.op(OpCode::Swap, line);
            self.op(OpCode::Pop, line);
            self.patch(end);
        }
        Ok(())
    }

    /// Logical assignment of a private field: stack [obj, old].
    pub(crate) fn emit_logical_priv_assign(
        &mut self,
        fuel: u32,
        operator: AssignmentOperator,
        idx: u16,
        rhs: &'p Expression,
        line: u32,
    ) -> (done: Result<(), String>)
        requires
            old(self).st().good(),
        ensures
            steps::outcome(
                done,
                final(self).st(),
                old(self).st().emit_logical_priv_assign(fuel as nat, operator, idx, rhs, line),
            ),
            done is Ok ==> final(self).st().depths() == old(self).st().depths(),
            final(self).st().good(),
            final(self).st().base == old(self).st().base,
        decreases fuel, rhs, 7int,
    {
        if operator == AssignmentOperator::NullishAssign {
            let to_assign: usize = self.jump(OpCode::JumpIfNullishPeek, line);
            self.op(OpCode::Swap, line);
            self.op(OpCode::Pop, line);
            let end: usize = self.jump(OpCode::Jump, line);
            self.patch(to_assign);
            self.op(OpCode::Pop, line);
            self.compile_expr(fuel, rhs)?;
            self.op_u16(OpCode::SetPrivate, idx, line);
            self.patch(end);
        } else {
            let skip: usize = self.jump(
                if operator == AssignmentOperator::AndAssign { OpCode::JumpIfFalsePeek } else { OpCode::JumpIfTruePeek },
                line,
            );
            self.op(OpCode::Pop, line);
            self.compile_expr(fuel, rhs)?;
            self.op_u16(OpCode::SetPrivate, idx, line);
            let end: usize = self.jump(OpCode::Jump, line);
            self.patch(skip);
            self.op(OpCode::Swap, line);
            self.op(OpCode::Pop, line);
            self.patch(end);
        }
        Ok(())
    }

    /// Emit the operation of a compound assignment.
    pub(crate) fn emit_compound_arith(
        &mut self,
        operator: AssignmentOperator,
        line: u32,
    ) -> (done: Result<(), String>)
        requires
            old(self).st().good(),
        ensures
            steps::outcome(
                done,
                final(self).st(),
                old(self).st().emit_compound_arith(operator, line),
            ),
            done is Ok ==> final(self).st().depths() == old(self).st().depths(),
            final(self).st().good(),
            final(self).st().base == old(self).st().base,
    {
        match compound_opcode(operator) {
            Some(op) => {
                self.op(op, line);
            },
            None => {
                return Err(offset_message("unexpected compound assignment operator at ", line));
            },
        }
        Ok(())
    }

    /// Compile the expressions of a sequence, keeping only the last value.
    pub(crate) fn compile_sequence(
        &mut self,
        fuel: u32,
        expressions: &'p Vec<Expression>,
    ) -> (done: Result<(), String>)
        requires
            old(self).st().good(),
        ensures
            steps::outcome(
                done,
                final(self).st(),
                old(self).st().compile_sequence(fuel as nat, expressions, 0),
            ),
            done is Ok ==> final(self).st().depths() == old(self).st().depths(),
            final(self).st().good(),
            final(self).st().base == old(self).st().base,
        decreases fuel, expressions, expressions@.len() as int,
    {
        let mut i: usize = 0;
        while i < expressions.len()
            invariant
                i <= expressions@.len(),
                self.st().good(),
                self.st().depths() == old(self).st().depths(),
                self.st().base == old(self).st().base,
                self.st().compile_sequence(
                    fuel as nat,
                    expressions,
                    i as int,
                ) == old(self).st().compile_sequence(fuel as nat, expressions, 0),
            decreases expressions@.len() - i,
        {
            let expr = &expressions[i];
            assert(decreases_to!(expressions => expressions[i as int]));
            self.compile_expr(fuel, expr)?;
            if i + 1 < expressions.len() {
                let line: u32 = self.current_line();
                self.op(OpCode::Pop, line);
            }
            i = i + 1;
        }
        Ok(())
    }

    /// Compile a member access.
    pub(crate) fn compile_member(
        &mut self,
        fuel: u32,
        m: &'p MemberExpression,
    ) -> (done: Result<(), String>)
        requires
            old(self).st().good(),
        ensures
            steps::outcome(done, final(self).st(), old(self).st().compile_member(fuel as nat, m)),
            done is Ok ==> final(self).st().depths() == old(self).st().depths(),
            final(self).st().good(),
            final(self).st().base == old(self).st().base,
        decreases fuel, m, 0int,
    {
        let line: u32 = m.span.start;
        if is_super(&m.object) {
            self.op(OpCode::GetSuperClass, line);
            match &m.property {
                MemberProperty::Identifier(name) => {
                    let idx: u16 = self.make_string_constant(*name);
                    self.emit_get_property(idx, line);
                },
                MemberProperty::Expression(key) => {
                    self.compile_expr(fuel, key)?;
                    self.op(OpCode::GetElement, line);
                },
                MemberProperty::PrivateIdentifier(_) => {},
            }
            return Ok(());
        }
        self.compile_expr(fuel, &m.object)?;
        self.compile_member_read(fuel, &m.property, line)?;
        Ok(())
    }

    /// With the object on the stack, read one of its members.
    pub(crate) fn compile_member_read(
        &mut self,
        fuel: u32,
        property: &'p MemberProperty,
        line: u32,
    ) -> (done: Result<(), String>)
        requires
            old(self).st().good(),
        ensures
            steps::outcome(
                done,
                final(self).st(),
                old(self).st().compile_member_read(fuel as nat, property, line),
            ),
            done is Ok ==> final(self).st().depths() == old(self).st().depths(),
            final(self).st().good(),
            final(self).st().base == old(self).st().base,
        decreases fuel, property, 0int,
    {
        match property {
            MemberProperty::Identifier(name) => {
                let idx: u16 = self.make_string_constant(*name);
                self.emit_get_property(idx, line);
            },
            MemberProperty::Expression(key) => {
                self.compile_expr(fuel, key)?;
                self.op(OpCode::GetElement, line);
            },
            MemberProperty::PrivateIdentifier(name) => {
                self.op_name(OpCode::GetPrivate, *name, line);
            },
        }
        Ok(())
    }

    /// Compile each expression of a list.
    pub(crate) fn compile_args(
        &mut self,
        fuel: u32,
        arguments: &'p Vec<Expression>,
    ) -> (done: Result<(), String>)
        requires
            old(self).st().good(),
        ensures
            steps::outcome(
                done,
                final(self).st(),
                old(self).st().compile_args(fuel as nat, arguments, 0),
            ),
            done is Ok ==> final(self).st().depths() == old(self).st().depths(),
            final(self).st().good(),
            final(self).st().base == old(self).st().base,
        decreases fuel, arguments, arguments@.len() as int,
    {
        let mut i: usize = 0;
        while i < arguments.len()
            invariant
                i <= arguments@.len(),
                self.st().good(),
                self.st().depths() == old(self).st().depths(),
                self.st().base == old(self).st().base,
                self.st().compile_args(
                    fuel as nat,
                    arguments,
                    i as int,
                ) == old(self).st().compile_args(fuel as nat, arguments, 0),
            decreases arguments@.len() - i,
        {
            let arg = &arguments[i];
            assert(decreases_to!(arguments => arguments[i as int]));
            self.compile_expr(fuel, arg)?;
            i = i + 1;
        }
        Ok(())
    }

    /// Compile each argument into the array on the stack, spreading where asked.
    pub(crate) fn compile_spread_args(
        &mut self,
        fuel: u32,
        line: u32,
        arguments: &'p Vec<Expression>,
    ) -> (done: Result<(), String>)
        requires
            old(self).st().good(),
        ensures
            steps::outcome(
                done,
                final(self).st(),
                old(self).st().compile_spread_args(fuel as nat, line, arguments, 0),
            ),
            done is Ok ==> final(self).st().depths() == old(self).st().depths(),
            final(self).st().good(),
            final(self).st().base == old(self).st().base,
        decreases fuel, arguments, arguments@.len() as int,
    {
        let mut i: usize = 0;
        while i < arguments.len()
            invariant
                i <= arguments@.len(),
                self.st().good(),
                self.st().depths() == old(self).st().depths(),
                self.st().base == old(self).st().base,
                self.st().compile_spread_args(
                    fuel as nat,
                    line,
                    arguments,
                    i as int,
                ) == old(self).st().compile_spread_args(fuel as nat, line, arguments, 0),
            decreases arguments@.len() - i,
        {
            let arg = &arguments[i];
            assert(decreases_to!(arguments => arguments[i as int]));
            match arg {
                Expression::Spread(sp) => {
                    self.compile_expr(fuel, &sp.argument)?;
                    self.op(OpCode::ArraySpread, line);
                },
                _ => {
                    self.compile_expr(fuel, arg)?;
                    self.op_u32(OpCode::SetArrayItem, spread_index(arguments, i as usize), line);
                },
            }
            i = i + 1;
        }
        Ok(())
    }

    /// Emit a method call by name.
    pub(crate) fn emit_call_method(&mut self, argc: u8, idx: u16, line: u32)
        requires
            old(self).st().good(),
        ensures
            final(self).st() == old(self).st().emit_call_method(argc, idx, line),
            final(self).st().depths() == old(self).st().depths(),
            final(self).st().good(),
            final(self).st().base == old(self).st().base,
    {
        self.byte(OpCode::CallMethod.to_byte(), line);
        self.byte(argc, line);
        self.raw16(idx);
    }

    /// Compile a call.
    pub(crate) fn compile_call(
        &mut self,
        fuel: u32,
        c: &'p CallExpression,
    ) -> (done: Result<(), String>)
        requires
            old(self).st().good(),
        ensures
            steps::outcome(done, final(self).st(), old(self).st().compile_call(fuel as nat, c)),
            done is Ok ==> final(self).st().depths() == old(self).st().depths(),
            final(self).st().good(),
            final(self).st().base == old(self).st().base,
        decreases fuel, c, 1int,
    {
        let line: u32 = c.span.start;
        let argc: u8 = c.arguments.len() as u8;
        match &c.callee {
            Expression::Member(_) => {
                self.compile_method_call(fuel, c, argc, line)?;
            },
            Expression::Super(_) => {
                self.op(OpCode::GetSuperConstructor, line);
                self.compile_call_tail(fuel, &c.arguments, argc, line)?;
            },
            _ => {
                self.compile_expr(fuel, &c.callee)?;
                self.compile_call_tail(fuel, &c.arguments, argc, line)?;
            },
        }
        Ok(())
    }

    /// With the function on the stack, compile the arguments and the call.
    pub(crate) fn compile_call_tail(
        &mut self,
        fuel: u32,
        arguments: &'p Vec<Expression>,
        argc: u8,
        line: u32,
    ) -> (done: Result<(), String>)
        requires
            old(self).st().good(),
        ensures
            steps::outcome(
                done,
                final(self).st(),
                old(self).st().compile_call_tail(fuel as nat, arguments, argc, line),
            ),
            done is Ok ==> final(self).st().depths() == old(self).st().depths(),
            final(self).st().good(),
            final(self).st().base == old(self).st().base,
        decreases fuel, arguments, arguments@.len() as int + 1,
    {
        if has_spread(arguments) {
            self.op_u16(OpCode::CreateArray, 0, line);
            self.compile_spread_args(fuel, line, arguments)?;
            self.op_u8(OpCode::SpreadCall, 0, line);
        } else {
            self.compile_args(fuel, arguments)?;
            self.op_u8(OpCode::Call, argc, line);
        }
        Ok(())
    }

    /// Compile a call of a member, with the receiver bound to `this`.
    pub(crate) fn compile_method_call(
        &mut self,
        fuel: u32,
        c: &'p CallExpression,
        argc: u8,
        line: u32,
    ) -> (done: Result<(), String>)
        requires
            old(self).st().good(),
        ensures
            steps::outcome(
                done,
                final(self).st(),
                old(self).st().compile_method_call(fuel as nat, c, argc, line),
            ),
            done is Ok ==> final(self).st().depths() == old(self).st().depths(),
            final(self).st().good(),
            final(self).st().base == old(self).st().base,
        decreases fuel, c, 0int,
    {
        if let Expression::Member(m) = &c.callee {
            match &m.property {
                MemberProperty::Identifier(name) => {
                    if is_super(&m.object) {
                        self.op(OpCode::GetSuperClass, line);
                        let idx: u16 = self.make_string_constant(*name);
                        self.emit_get_property(idx, line);
                        self.compile_args(fuel, &c.arguments)?;
                        self.op_u8(OpCode::Call, argc, line);
                    } else if has_spread(&c.arguments) {
                        self.compile_expr(fuel, &m.object)?;
                        self.op(OpCode::Dup, line);
                        let name_idx: u16 = self.make_string_constant(*name);
                        self.emit_get_property(name_idx, line);
                        self.op(OpCode::Swap, line);
                        self.op_u16(OpCode::CreateArray, 0, line);
                        self.compile_spread_args(fuel, line, &c.arguments)?;
                        let apply_name: StringId = self.intern("apply");
                        let apply_idx: u16 = self.make_string_constant(apply_name);
                        self.emit_call_method(2, apply_idx, line);
                    } else {
                        self.compile_expr(fuel, &m.object)?;
                        self.compile_args(fuel, &c.arguments)?;
                        let idx: u16 = self.make_string_constant(*name);
                        self.emit_call_method(argc, idx, line);
                    }
                },
                MemberProperty::Expression(key_expr) => {
                    if let Expression::StringLiteral(s) = key_expr {
                        self.compile_expr(fuel, &m.object)?;
                        self.compile_args(fuel, &c.arguments)?;
                        let idx: u16 = self.make_string_constant(s.value);
                        self.emit_call_method(argc, idx, line);
                        return Ok(());
                    }
                    self.compile_expr(fuel, &m.object)?;
                    if argc < 255 {
                        self.op(OpCode::Dup, line);
                        self.compile_expr(fuel, key_expr)?;
                        self.op(OpCode::GetElement, line);
                        self.op(OpCode::Swap, line);
                        self.compile_args(fuel, &c.arguments)?;
                        let call_name: StringId = self.intern("call");
                        let idx: u16 = self.make_string_constant(call_name);
                        self.emit_call_method(argc.wrapping_add(1), idx, line);
                    } else {
                        self.compile_expr(fuel, key_expr)?;
                        self.op(OpCode::GetElement, line);
                        self.compile_args(fuel, &c.arguments)?;
                        self.op_u8(OpCode::Call, argc, line);
                    }
                },
                MemberProperty::PrivateIdentifier(name) => {
                    self.compile_expr(fuel, &m.object)?;
                    self.compile_args(fuel, &c.arguments)?;
                    let idx: u16 = self.make_string_constant(*name);
                    self.emit_call_method(argc, idx, line);
                },
            }
        }
        Ok(())
    }

    /// Compile a construction.
    pub(crate) fn compile_new(
        &mut self,
        fuel: u32,
        n: &'p NewExpression,
    ) -> (done: Result<(), String>)
        requires
            old(self).st().good(),
        ensures
            steps::outcome(done, final(self).st(), old(self).st().compile_new(fuel as nat, n)),
            done is Ok ==> final(self).st().depths() == old(self).st().depths(),
            final(self).st().good(),
            final(self).st().base == old(self).st().base,
        decreases fuel, n, 0int,
    {
        let line: u32 = n.span.start;
        self.compile_expr(fuel, &n.callee)?;
        if has_spread(&n.arguments) {
            self.op_u16(OpCode::CreateArray, 0, line);
            self.compile_spread_args(fuel, line, &n.arguments)?;
            self.op_u8(OpCode::SpreadConstruct, 0, line);
        } else {
            self.compile_args(fuel, &n.arguments)?;
            self.op_u8(OpCode::Construct, n.arguments.len() as u8, line);
        }
        Ok(())
    }

    /// Compile an array literal.
    pub(crate) fn compile_array(
        &mut self,
        fuel: u32,
        a: &'p ArrayExpression,
    ) -> (done: Result<(), String>)
        requires
            old(self).st().good(),
        ensures
            steps::outcome(done, final(self).st(), old(self).st().compile_array(fuel as nat, a)),
            done is Ok ==> final(self).st().depths() == old(self).st().depths(),
            final(self).st().good(),
            final(self).st().base == old(self).st().base,
        decreases fuel, a, 0int,
    {
        self.op_u16(OpCode::CreateArray, a.elements.len() as u16, a.span.start);
        self.compile_array_elements(fuel, a.span.start, &a.elements)?;
        Ok(())
    }

    /// Compile each element into the array on the stack; a hole is undefined.
    pub(crate) fn compile_array_elements(
        &mut self,
        fuel: u32,
        line: u32,
        elements: &'p Vec<Option<Expression>>,
    ) -> (done: Result<(), String>)
        requires
            old(self).st().good(),
        ensures
            steps::outcome(
                done,
                final(self).st(),
                old(self).st().compile_array_elements(fuel as nat, line, elements, 0),
            ),
            done is Ok ==> final(self).st().depths() == old(self).st().depths(),
            final(self).st().good(),
            final(self).st().base == old(self).st().base,
        decreases fuel, elements, elements@.len() as int,
    {
        let mut i: usize = 0;
        while i < elements.len()
            invariant
                i <= elements@.len(),
                self.st().good(),
                self.st().depths() == old(self).st().depths(),
                self.st().base == old(self).st().base,
                self.st().compile_array_elements(
                    fuel as nat,
                    line,
                    elements,
                    i as int,
                ) == old(self).st().compile_array_elements(fuel as nat, line, elements, 0),
            decreases elements@.len() - i,
        {
            let elem = &elements[i];
            assert(decreases_to!(elements => elements[i as int]));
            match elem {
                Some(e) => {
                    match e {
                        Expression::Spread(sp) => {
                            self.compile_expr(fuel, &sp.argument)?;
                            self.op(OpCode::ArraySpread, line);
                        },
                        _ => {
                            self.compile_expr(fuel, e)?;
                            self.op_u32(OpCode::SetArrayItem, i as u32, line);
                        },
                    }
                },
                None => {
                    self.op(OpCode::Undefined, line);
                    self.op_u32(OpCode::SetArrayItem, i as u32, line);
                },
            }
            i = i + 1;
        }
        Ok(())
    }

    /// Compile an object literal.
    pub(crate) fn compile_object(
        &mut self,
        fuel: u32,
        o: &'p ObjectExpression,
    ) -> (done: Result<(), String>)
        requires
            old(self).st().good(),
        ensures
            steps::outcome(done, final(self).st(), old(self).st().compile_object(fuel as nat, o)),
            done is Ok ==> final(self).st().depths() == old(self).st().depths(),
            final(self).st().good(),
            final(self).st().base == old(self).st().base,
        decreases fuel, o, 0int,
    {
        self.op(OpCode::CreateObject, o.span.start);
        self.compile_object_properties(fuel, o.span.start, &o.properties)?;
        Ok(())
    }

    /// Compile each property into the object on the stack.
    pub(crate) fn compile_object_properties(
        &mut self,
        fuel: u32,
        line: u32,
        properties: &'p Vec<ObjectProperty>,
    ) -> (done: Result<(), String>)
        requires
            old(self).st().good(),
        ensures
            steps::outcome(
                done,
                final(self).st(),
                old(self).st().compile_object_properties(fuel as nat, line, properties, 0),
            ),
            done is Ok ==> final(self).st().depths() == old(self).st().depths(),
            final(self).st().good(),
            final(self).st().base == old(self).st().base,
        decreases fuel, properties, properties@.len() as int,
    {
        let mut i: usize = 0;
        while i < properties.len()
            invariant
                i <= properties@.len(),
                self.st().good(),
                self.st().depths() == old(self).st().depths(),
                self.st().base == old(self).st().base,
                self.st().compile_object_properties(
                    fuel as nat,
                    line,
                    properties,
                    i as int,
                ) == old(self).st().compile_object_properties(fuel as nat, line, properties, 0),
            decreases properties@.len() - i,
        {
            let prop = &properties[i];
            assert(decreases_to!(properties => properties[i as int]));
            match prop {
                ObjectProperty::Property(p) => {
                    self.compile_object_property(fuel, p, line)?;
                },
                ObjectProperty::SpreadElement(s) => {
                    self.compile_expr(fuel, &s.argument)?;
                    self.op(OpCode::ObjectSpread, line);
                },
            }
            i = i + 1;
        }
        Ok(())
    }

    /// Whether a property sets the prototype: `{__proto__: val}` in its explicit form only.
    pub(crate) fn sets_prototype(&mut self, p: &'p Property) -> (value: bool)
        requires
            old(self).st().good(),
        ensures
            (final(self).st(), value) == old(self).st().sets_prototype(p),
            final(self).st().depths() == old(self).st().depths(),
            final(self).st().good(),
            final(self).st().base == old(self).st().base,
    {
        if p.kind != PropertyKindVal::Init || p.method || p.shorthand || p.computed {
            return false;
        }
        match &p.key {
            PropertyKey::Identifier(id) => {
                return self.name_is(*id, "__proto__");
            },
            PropertyKey::StringLiteral(id) => {
                return self.name_is(*id, "__proto__");
            },
            _ => {
                return false;
            },
        }
    }

    /// Compile a property of an object literal.
    pub(crate) fn compile_object_property(
        &mut self,
        fuel: u32,
        p: &'p Property,
        line: u32,
    ) -> (done: Result<(), String>)
        requires
            old(self).st().good(),
        ensures
            steps::outcome(
                done,
                final(self).st(),
                old(self).st().compile_object_property(fuel as nat, p, line),
            ),
            done is Ok ==> final(self).st().depths() == old(self).st().depths(),
            final(self).st().good(),
            final(self).st().base == old(self).st().base,
        decreases fuel, p, 0int,
    {
        let proto: bool = self.sets_prototype(p);
        if proto {
            self.compile_expr(fuel, &p.value)?;
            self.op(OpCode::SetObjectProto, line);
            return Ok(());
        }
        self.compile_property_key(fuel, &p.key, line)?;
        match p.kind {
            PropertyKindVal::Init => {
                if is_anonymous_fn_def(&p.value) {
                    let key_name: StringId = self.property_key_name(&p.key);
                    if key_name != StringId(0) {
                        self.set_pending_name(key_name);
                    }
                }
                self.compile_expr(fuel, &p.value)?;
                if p.method {
                    self.mark_last_child_as_method();
                }
                self.op(OpCode::DefineDataProp, line);
            },
            PropertyKindVal::Getter => {
                self.compile_expr(fuel, &p.value)?;
                self.mark_last_child_as_method();
                self.op(OpCode::DefineGetter, line);
            },
            PropertyKindVal::Setter => {
                self.compile_expr(fuel, &p.value)?;
                self.mark_last_child_as_method();
                self.op(OpCode::DefineSetter, line);
            },
        }
        Ok(())
    }

    /// Push a property key. A computed key is converted before the value is evaluated.
    pub(crate) fn compile_property_key(
        &mut self,
        fuel: u32,
        key: &'p PropertyKey,
        line: u32,
    ) -> (done: Result<(), String>)
        requires
            old(self).st().good(),
        ensures
            steps::outcome(
                done,
                final(self).st(),
                old(self).st().compile_property_key(fuel as nat, key, line),
            ),
            done is Ok ==> final(self).st().depths() == old(self).st().depths(),
            final(self).st().good(),
            final(self).st().base == old(self).st().base,
        decreases fuel, key, 0int,
    {
        match key {
            PropertyKey::Identifier(id) => {
                self.op_name(OpCode::Const, *id, line);
            },
            PropertyKey::StringLiteral(id) => {
                self.op_name(OpCode::Const, *id, line);
            },
            PropertyKey::Private(id) => {
                self.op_name(OpCode::Const, *id, line);
            },
            PropertyKey::NumberLiteral(n) => {
                self.emit_constant(Value::Number(*n), line);
            },
            PropertyKey::Computed(expr) => {
                self.compile_expr(fuel, expr)?;
                self.op(OpCode::ToPropertyKey, line);
            },
        }
        Ok(())
    }

    /// The name that a property key is known by at compile time, or the empty name.
    pub(crate) fn property_key_name(&mut self, key: &'p PropertyKey) -> (value: StringId)
        requires
            old(self).st().good(),
        ensures
            (final(self).st(), value) == old(self).st().property_key_name(key),
            final(self).st().depths() == old(self).st().depths(),
            final(self).st().good(),
            final(self).st().base == old(self).st().base,
    {
        match key {
            PropertyKey::Identifier(id) => {
                return *id;
            },
            PropertyKey::StringLiteral(id) => {
                return *id;
            },
            PropertyKey::Private(id) => {
                return *id;
            },
            PropertyKey::NumberLiteral(n) => {
                let id: StringId = self.intern_number(*n);
                return id;
            },
            PropertyKey::Computed(expr) => {
                match &**expr {
                    Expression::Member(mem) => {
                        let id: StringId = self.symbol_member_name(mem);
                        return id;
                    },
                    Expression::StringLiteral(lit) => {
                        return lit.value;
                    },
                    Expression::NumberLiteral(lit) => {
                        let id: StringId = self.intern_number(lit.value);
                        return id;
                    },
                    _ => {
                        return StringId(0);
                    },
                }
            },
        }
    }

    /// The name of a well-known symbol access `Symbol.xxx`, or the empty name.
    pub(crate) fn symbol_member_name(&mut self, mem: &'p MemberExpression) -> (value: StringId)
        requires
            old(self).st().good(),
        ensures
            (final(self).st(), value) == old(self).st().symbol_member_name(mem),
            final(self).st().depths() == old(self).st().depths(),
            final(self).st().good(),
            final(self).st().base == old(self).st().base,
    {
        match &mem.object {
            Expression::Identifier(obj_id) => {
                match &mem.property {
                    MemberProperty::Identifier(prop_id) => {
                        if self.name_is(obj_id.name, "Symbol") {
                            let id: StringId = self.symbol_name(*prop_id);
                            return id;
                        } else {
                            return StringId(0);
                        }
                    },
                    _ => {
                        return StringId(0);
                    },
                }
            },
            _ => {
                return StringId(0);
            },
        }
    }

    /// The name that stands for a well-known symbol, or the empty name.
    pub(crate) fn symbol_name(&mut self, prop: StringId) -> (value: StringId)
        requires
            old(self).st().good(),
        ensures
            (final(self).st(), value) == old(self).st().symbol_name(prop),
            final(self).st().depths() == old(self).st().depths(),
            final(self).st().good(),
            final(self).st().base == old(self).st().base,
    {
        if self.name_is(prop, "iterator") {
            let id: StringId = self.intern("__sym_0__");
            return id;
        } else if self.name_is(prop, "hasInstance") {
            let id: StringId = self.intern("__sym_1__");
            return id;
        } else if self.name_is(prop, "toPrimitive") {
            let id: StringId = self.intern("__sym_2__");
            return id;
        } else if self.name_is(prop, "toStringTag") {
            let id: StringId = self.intern("__sym_3__");
            return id;
        } else if self.name_is(prop, "species") {
            let id: StringId = self.intern("__sym_4__");
            return id;
        } else if self.name_is(prop, "unscopables") {
            let id: StringId = self.intern("__sym_5__");
            return id;
        } else if self.name_is(prop, "asyncIterator") {
            let id: StringId = self.intern("__sym_6__");
            return id;
        } else if self.name_is(prop, "matchAll") {
            let id: StringId = self.intern("__sym_7__");
            return id;
        } else {
            return StringId(0);
        }
    }

    /// Compile a template literal. Prefixing an empty string makes the result a string.
    pub(crate) fn compile_template_literal(
        &mut self,
        fuel: u32,
        t: &'p TemplateLiteral,
    ) -> (done: Result<(), String>)
        requires
            old(self).st().good(),
        ensures
            steps::outcome(
                done,
                final(self).st(),
                old(self).st().compile_template_literal(fuel as nat, t),
            ),
            done is Ok ==> final(self).st().depths() == old(self).st().depths(),
            final(self).st().good(),
            final(self).st().base == old(self).st().base,
        decreases fuel, t, 0int,
    {
        let line: u32 = t.span.start;
        let empty: StringId = self.intern("");
        self.op_name(OpCode::Const, empty, line);
        self.template_pairs(fuel, &t.quasis, line, &t.expressions)?;
        self.template_tail(t.expressions.len(), line, &t.quasis);
        Ok(())
    }

    /// Append each text and the expression that follows it.
    pub(crate) fn template_pairs(
        &mut self,
        fuel: u32,
        quasis: &'p Vec<TemplateElement>,
        line: u32,
        expressions: &'p Vec<Expression>,
    ) -> (done: Result<(), String>)
        requires
            old(self).st().good(),
        ensures
            steps::outcome(
                done,
                final(self).st(),
                old(self).st().template_pairs(fuel as nat, quasis, line, expressions, 0),
            ),
            done is Ok ==> final(self).st().depths() == old(self).st().depths(),
            final(self).st().good(),
            final(self).st().base == old(self).st().base,
        decreases fuel, expressions, expressions@.len() as int,
    {
        let mut i: usize = 0;
        while i < expressions.len()
            invariant
                i <= expressions@.len(),
                self.st().good(),
                self.st().depths() == old(self).st().depths(),
                self.st().base == old(self).st().base,
                self.st().template_pairs(
                    fuel as nat,
                    quasis,
                    line,
                    expressions,
                    i as int,
                ) == old(self).st().template_pairs(fuel as nat, quasis, line, expressions, 0),
            decreases expressions@.len() - i,
        {
            let expr = &expressions[i];
            assert(decreases_to!(expressions => expressions[i as int]));
            if i < quasis.len() {
                self.template_text(&quasis[i], line);
                self.compile_expr(fuel, expr)?;
                self.op(OpCode::Add, line);
            }
            i = i + 1;
        }
        Ok(())
    }

    /// Append the texts behind the last expression.
    pub(crate) fn template_tail(&mut self, from: usize, line: u32, quasis: &'p Vec<TemplateElement>)
        requires
            old(self).st().good(),
        ensures
            final(self).st() == old(self).st().template_tail(from, line, quasis, 0),
            final(self).st().depths() == old(self).st().depths(),
            final(self).st().good(),
            final(self).st().base == old(self).st().base,
    {
        let mut i: usize = 0;
        while i < quasis.len()
            invariant
                i <= quasis@.len(),
                self.st().good(),
                self.st().depths() == old(self).st().depths(),
                self.st().base == old(self).st().base,
                self.st().template_tail(
                    from,
                    line,
                    quasis,
                    i as int,
                ) == old(self).st().template_tail(from, line, quasis, 0),
            decreases quasis@.len() - i,
        {
            let quasi = &quasis[i];
            if i >= from {
                self.template_text(quasi, line);
            }
            i = i + 1;
        }
    }

    /// Append a text unless it is empty.
    pub(crate) fn template_text(&mut self, quasi: &'p TemplateElement, line: u32)
        requires
            old(self).st().good(),
        ensures
            final(self).st() == old(self).st().template_text(quasi, line),
            final(self).st().depths() == old(self).st().depths(),
            final(self).st().good(),
            final(self).st().base == old(self).st().base,
    {
        let text: StringId = element_text(quasi);
        if !self.name_is_empty(text) {
            self.op_name(OpCode::Const, text, line);
            self.op(OpCode::Add, line);
        }
    }

    /// Compile a tagged template: the tag is called with the texts and the values.
    pub(crate) fn compile_tagged_template(
        &mut self,
        fuel: u32,
        t: &'p TaggedTemplateExpression,
    ) -> (done: Result<(), String>)
        requires
            old(self).st().good(),
        ensures
            steps::outcome(
                done,
                final(self).st(),
                old(self).st().compile_tagged_template(fuel as nat, t),
            ),
            done is Ok ==> final(self).st().depths() == old(self).st().depths(),
            final(self).st().good(),
            final(self).st().base == old(self).st().base,
        decreases fuel, t, 0int,
    {
        let line: u32 = t.span.start;
        self.compile_expr(fuel, &t.tag)?;
        self.tagged_texts(line, &t.quasi.quasis);
        self.compile_args(fuel, &t.quasi.expressions)?;
        self.op_u8(OpCode::TemplateTag, tagged_count(&t.quasi), line);
        Ok(())
    }

    /// Push each text.
    pub(crate) fn tagged_texts(&mut self, line: u32, quasis: &'p Vec<TemplateElement>)
        requires
            old(self).st().good(),
        ensures
            final(self).st() == old(self).st().tagged_texts(line, quasis, 0),
            final(self).st().depths() == old(self).st().depths(),
            final(self).st().good(),
            final(self).st().base == old(self).st().base,
    {
        let mut i: usize = 0;
        while i < quasis.len()
            invariant
                i <= quasis@.len(),
                self.st().good(),
                self.st().depths() == old(self).st().depths(),
                self.st().base == old(self).st().base,
                self.st().tagged_texts(line, quasis, i as int) == old(self).st().tagged_texts(
                    line,
                    quasis,
                    0,
                ),
            decreases quasis@.len() - i,
        {
            let quasi = &quasis[i];
            self.op_name(OpCode::Const, element_text(quasi), line);
            i = i + 1;
        }
    }

    /// Compile an optional chain. A short circuit skips the whole rest of the chain.
    pub(crate) fn compile_optional_chain(
        &mut self,
        fuel: u32,
        o: &'p OptionalChainExpression,
    ) -> (done: Result<(), String>)
        requires
            old(self).st().good(),
        ensures
            steps::outcome(
                done,
                final(self).st(),
                old(self).st().compile_optional_chain(fuel as nat, o),
            ),
            done is Ok ==> final(self).st().depths() == old(self).st().depths(),
            final(self).st().good(),
            final(self).st().base == old(self).st().base,
        decreases fuel, o, 0int,
    {
        let line: u32 = o.span.start;
        self.compile_expr(fuel, &o.base)?;
        let base: usize = self.mark_len();
        self.compile_chain(fuel, line, &o.chain)?;
        self.patch_marks(base);
        Ok(())
    }

    /// Compile each link of an optional chain. A property followed by a plain call becomes a
    /// method call, so that `this` is bound to the receiver.
    pub(crate) fn compile_chain(
        &mut self,
        fuel: u32,
        line: u32,
        chain: &'p Vec<OptionalChainElement>,
    ) -> (done: Result<(), String>)
        requires
            old(self).st().good(),
        ensures
            steps::outcome(
                done,
                final(self).st(),
                old(self).st().compile_chain(fuel as nat, line, chain, 0),
            ),
            done is Ok ==> final(self).st().depths() == old(self).st().depths(),
            final(self).st().good(),
            final(self).st().base == old(self).st().base,
        decreases fuel, chain, chain@.len() as int,
    {
        let mut i: usize = 0;
        while i < chain.len()
            invariant
                i <= chain@.len(),
                self.st().good(),
                self.st().depths() == old(self).st().depths(),
                self.st().base == old(self).st().base,
                self.st().compile_chain(
                    fuel as nat,
                    line,
                    chain,
                    i as int,
                ) == old(self).st().compile_chain(fuel as nat, line, chain, 0),
            decreases chain@.len() - i,
        {
            let element = &chain[i];
            assert(decreases_to!(chain => chain[i as int]));
            match element {
                OptionalChainElement::Member { property, optional, .. } => {
                    if *optional {
                        let skip: usize = self.jump(OpCode::OptionalChain, line);
                        self.push_mark(skip);
                    }
                    if !links_method(chain, i as usize) {
                        self.compile_member_read(fuel, property, line)?;
                    }
                },
                OptionalChainElement::Call { arguments, optional } => {
                    match method_link(chain, i as usize) {
                        Some(id) => {
                            self.compile_args(fuel, arguments)?;
                            let idx: u16 = self.make_string_constant(id);
                            self.emit_call_method(arguments.len() as u8, idx, line);
                        },
                        None => {
                            if *optional {
                                let skip: usize = self.jump(OpCode::OptionalChain, line);
                                self.push_mark(skip);
                            }
                            self.compile_args(fuel, arguments)?;
                            self.op_u8(OpCode::Call, arguments.len() as u8, line);
                        },
                    }
                },
            }
            i = i + 1;
        }
        Ok(())
    }

    /// Compile a yield. `yield*` passes on what an iterator yields until it is done.
    pub(crate) fn compile_yield(
        &mut self,
        fuel: u32,
        y: &'p YieldExpression,
    ) -> (done: Result<(), String>)
        requires
            old(self).st().good(),
        ensures
            steps::outcome(done, final(self).st(), old(self).st().compile_yield(fuel as nat, y)),
            done is Ok ==> final(self).st().depths() == old(self).st().depths(),
            final(self).st().good(),
            final(self).st().base == old(self).st().base,
        decreases fuel, y, 0int,
    {
        let line: u32 = y.span.start;
        if y.delegate {
            match &y.argument {
                Some(arg) => {
                    self.compile_expr(fuel, arg)?;
                    self.emit_delegation(line);
                },
                None => {
                    return Err(plain_message("yield* requires an argument"));
                },
            }
        } else {
            match &y.argument {
                Some(arg) => {
                    self.compile_expr(fuel, arg)?;
                },
                None => {
                    self.op(OpCode::Undefined, line);
                },
            }
            self.op(OpCode::Yield, line);
        }
        Ok(())
    }

    /// Yield what the iterable on the stack yields; leave its final value.
    pub(crate) fn emit_delegation(&mut self, line: u32)
        requires
            old(self).st().good(),
        ensures
            final(self).st() == old(self).st().emit_delegation(line),
            final(self).st().depths() == old(self).st().depths(),
            final(self).st().good(),
            final(self).st().base == old(self).st().base,
    {
        self.op(OpCode::GetIterator, line);
        let loop_start: usize = self.here();
        self.op(OpCode::Dup, line);
        self.op(OpCode::IteratorNext, line);
        self.op(OpCode::Dup, line);
        self.op(OpCode::IteratorDone, line);
        let exit_jump: usize = self.jump(OpCode::JumpIfTrue, line);
        self.op(OpCode::IteratorValue, line);
        self.op(OpCode::Yield, line);
        self.op(OpCode::Pop, line);
        self.back(loop_start, line);
        self.patch(exit_jump);
        self.op(OpCode::Pop, line);
        self.op(OpCode::IteratorValue, line);
        self.op(OpCode::Swap, line);
        self.op(OpCode::Pop, line);
    }

    /// Compile a regular expression literal.
    pub(crate) fn compile_regexp(&mut self, r: &'p RegExpLiteral)
        requires
            old(self).st().good(),
        ensures
            final(self).st() == old(self).st().compile_regexp(r),
            final(self).st().depths() == old(self).st().depths(),
            final(self).st().good(),
            final(self).st().base == old(self).st().base,
    {
        let pat_idx: u16 = self.make_string_constant(r.pattern);
        let flags_idx: u16 = self.make_string_constant(r.flags);
        self.byte(OpCode::CreateRegExp.to_byte(), r.span.start);
        self.raw16(pat_idx);
        self.raw16(flags_idx);
    }

    /// Compile `new.target` or `import.meta`.
    pub(crate) fn compile_meta_property(&mut self, m: &'p MetaProperty)
        requires
            old(self).st().good(),
        ensures
            final(self).st() == old(self).st().compile_meta_property(m),
            final(self).st().depths() == old(self).st().depths(),
            final(self).st().good(),
            final(self).st().base == old(self).st().base,
    {
        if self.name_is(m.meta, "new") && self.name_is(m.property, "target") {
            self.op(OpCode::NewTarget, m.span.start);
        } else if self.name_is(m.meta, "import") && self.name_is(m.property, "meta") {
            self.op(OpCode::ImportMeta, m.span.start);
        } else {
            self.op(OpCode::Undefined, m.span.start);
        }
    }
}

} // verus!
