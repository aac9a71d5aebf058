//! Compiling an expression leaves the code there is alone.

use vstd::prelude::*;
use crate::ast::node::{
    ArrayExpression, ArrowBody, ArrowFunctionExpression, AssignmentExpression,
    AssignmentOperator, AssignmentTarget, BinaryExpression, BinaryOperator, BlockStatement,
    CallExpression, ClassBody, ClassDeclaration, ClassExpression, ClassMember, ClassProperty,
    ConditionalExpression, ExportSpecifier, Expression, ForInOfLeft, FunctionDeclaration,
    FunctionExpression, ImportDeclaration, ImportSpecifier, LogicalExpression, LogicalOperator,
    MemberExpression, MemberProperty, MethodDefinition, NewExpression, ObjectExpression,
    ObjectPatternProperty, ObjectProperty, OptionalChainElement, OptionalChainExpression,
    Pattern, Property, PropertyKey, PropertyKindVal, Statement, SwitchCase,
    TaggedTemplateExpression, TemplateElement, TemplateLiteral, UnaryExpression, UnaryOperator,
    UpdateExpression, UpdateOperator, VarKind, VariableDeclaration, VariableDeclarator,
    YieldExpression,
};
use crate::compiler::{kept, names, shape};
use crate::compiler::compiler::state::CState;
use crate::compiler::opcode::OpCode;
use crate::runtime::value::Value;
use crate::util::interner::StringId;

verus! {

pub(crate) proof fn pass_compile_expr<'p>(
    floor: kept::Floor,
    st: CState<'p>,
    fuel: nat,
    expr: &'p Expression,
)
    ensures
        st.compile_expr(fuel, expr) matches Ok(e) ==> kept::onward(floor, st, e),
    decreases fuel, expr, 5int,
{
    broadcast use {kept::group_steps, kept::group_parts};

    match expr {
        Expression::Binary(b) => {
            pass_compile_binary(floor, st, fuel, b);
        },
        Expression::Unary(u) => {
            pass_compile_unary(floor, st, fuel, u);
        },
        Expression::Update(u) => {
            pass_compile_update(floor, st, fuel, u);
        },
        Expression::Logical(l) => {
            pass_compile_logical(floor, st, fuel, l);
        },
        Expression::Conditional(c) => {
            pass_compile_conditional(floor, st, fuel, c);
        },
        Expression::Assignment(a) => {
            pass_compile_assignment(floor, st, fuel, a);
        },
        Expression::Sequence(s) => {
            pass_compile_sequence(floor, st, fuel, &s.expressions, 0);
        },
        Expression::Member(m) => {
            pass_compile_member(floor, st, fuel, m);
        },
        Expression::Call(c) => {
            pass_compile_call(floor, st, fuel, c);
        },
        Expression::New(n) => {
            pass_compile_new(floor, st, fuel, n);
        },
        Expression::Array(a) => {
            pass_compile_array(floor, st, fuel, a);
        },
        Expression::Object(o) => {
            pass_compile_object(floor, st, fuel, o);
        },
        Expression::Function(f) => {
            pass_compile_function_expr(floor, st, fuel, f);
        },
        Expression::ArrowFunction(a) => {
            pass_compile_arrow_expr(floor, st, fuel, a);
        },
        Expression::Class(c) => {
            pass_compile_class_expr(floor, st, fuel, c);
        },
        Expression::TemplateLiteral(t) => {
            pass_compile_template_literal(floor, st, fuel, t);
        },
        Expression::TaggedTemplate(t) => {
            pass_compile_tagged_template(floor, st, fuel, t);
        },
        Expression::Spread(s) => {
            pass_compile_expr(floor, st, fuel, &s.argument);
        },
        Expression::Yield(y) => {
            pass_compile_yield(floor, st, fuel, y);
        },
        Expression::Await(a) => {
            pass_compile_expr(floor, st, fuel, &a.argument);
        },
        Expression::OptionalChain(o) => {
            pass_compile_optional_chain(floor, st, fuel, o);
        },
        Expression::Import(i) => {
            pass_compile_expr(floor, st, fuel, &i.source);
        },
        _ => {},
    }
}

pub(crate) proof fn pass_compile_binary<'p>(
    floor: kept::Floor,
    st: CState<'p>,
    fuel: nat,
    b: &'p BinaryExpression,
)
    ensures
        st.compile_binary(fuel, b) matches Ok(e) ==> kept::onward(floor, st, e),
    decreases fuel, b, 0int,
{
    broadcast use {kept::group_steps, kept::group_parts};

    let line: u32 = b.span.start;
    if b.operator == BinaryOperator::In {
        if let Expression::Identifier(id) = &b.left {
            if st.name_is_private(id.name) {
                pass_compile_expr(floor, st, fuel, &b.right);
            } else {
                pass_compile_expr(floor, st, fuel, &b.left);
                let st = st.compile_expr(fuel, &b.left)->Ok_0;
                pass_compile_expr(floor, st, fuel, &b.right);
            }
        } else {
            pass_compile_expr(floor, st, fuel, &b.left);
            let st = st.compile_expr(fuel, &b.left)->Ok_0;
            pass_compile_expr(floor, st, fuel, &b.right);
        }
    } else {
        pass_compile_expr(floor, st, fuel, &b.left);
        let st = st.compile_expr(fuel, &b.left)->Ok_0;
        pass_compile_expr(floor, st, fuel, &b.right);
    }
}

pub(crate) proof fn pass_compile_unary<'p>(
    floor: kept::Floor,
    st: CState<'p>,
    fuel: nat,
    u: &'p UnaryExpression,
)
    ensures
        st.compile_unary(fuel, u) matches Ok(e) ==> kept::onward(floor, st, e),
    decreases fuel, u, 0int,
{
    broadcast use {kept::group_steps, kept::group_parts};

    let line: u32 = u.span.start;
    if u.operator == UnaryOperator::TypeOf {
        if let Expression::Identifier(id) = &u.argument {
            if st.resolve_local(id.name).is_none() {
                let (st, found) = st.resolve_upvalue(id.name);
                if found.is_none() {
                } else {
                    if u.operator == UnaryOperator::Delete {
                        pass_compile_delete(floor, st, fuel, &u.argument, line);
                    } else {
                        pass_compile_expr(floor, st, fuel, &u.argument);
                    }
                }
            } else {
                if u.operator == UnaryOperator::Delete {
                    pass_compile_delete(floor, st, fuel, &u.argument, line);
                } else {
                    pass_compile_expr(floor, st, fuel, &u.argument);
                }
            }
        } else {
            if u.operator == UnaryOperator::Delete {
                pass_compile_delete(floor, st, fuel, &u.argument, line);
            } else {
                pass_compile_expr(floor, st, fuel, &u.argument);
            }
        }
    } else {
        if u.operator == UnaryOperator::Delete {
            pass_compile_delete(floor, st, fuel, &u.argument, line);
        } else {
            pass_compile_expr(floor, st, fuel, &u.argument);
        }
    }
}

pub(crate) proof fn pass_compile_delete<'p>(
    floor: kept::Floor,
    st: CState<'p>,
    fuel: nat,
    argument: &'p Expression,
    line: u32,
)
    ensures
        st.compile_delete(fuel, argument, line) matches Ok(e) ==> kept::onward(floor, st, e),
    decreases fuel, argument, 6int,
{
    broadcast use {kept::group_steps, kept::group_parts};

    match argument {
        Expression::Member(m) => {
            pass_compile_expr(floor, st, fuel, &m.object);
            let st = st.compile_expr(fuel, &m.object)->Ok_0;
            match &m.property {
                MemberProperty::Expression(key) => {
                    pass_compile_expr(floor, st, fuel, key);
                },
                _ => {},
            }
        },
        Expression::Identifier(id) => {},
        _ => {
            pass_compile_expr(floor, st, fuel, argument);
        },
    }
}

pub(crate) proof fn pass_compile_update<'p>(
    floor: kept::Floor,
    st: CState<'p>,
    fuel: nat,
    u: &'p UpdateExpression,
)
    ensures
        st.compile_update(fuel, u) matches Ok(e) ==> kept::onward(floor, st, e),
    decreases fuel, u, 0int,
{
    broadcast use {kept::group_steps, kept::group_parts};

    let line: u32 = u.span.start;
    let inc_op: OpCode = if u.operator == UpdateOperator::Increment { OpCode::Inc } else { OpCode::Dec };
    match &u.argument {
        Expression::Member(m) => {
            pass_compile_expr(floor, st, fuel, &m.object);
            let st = st.compile_expr(fuel, &m.object)->Ok_0;
            match &m.property {
                MemberProperty::Expression(key) => {
                    pass_compile_expr(floor, st, fuel, key);
                },
                _ => {},
            }
        },
        _ => {},
    }
}

pub(crate) proof fn pass_compile_logical<'p>(
    floor: kept::Floor,
    st: CState<'p>,
    fuel: nat,
    l: &'p LogicalExpression,
)
    ensures
        st.compile_logical(fuel, l) matches Ok(e) ==> kept::onward(floor, st, e),
    decreases fuel, l, 0int,
{
    broadcast use {kept::group_steps, kept::group_parts};

    let line: u32 = l.span.start;
    pass_compile_expr(floor, st, fuel, &l.left);
    let st = st.compile_expr(fuel, &l.left)->Ok_0;
    match l.operator {
        LogicalOperator::And => {
            let (st, jump) = st.jump(OpCode::JumpIfFalsePeek, line);
            let st = st.op(OpCode::Pop, line);
            pass_compile_expr(floor, st, fuel, &l.right);
        },
        LogicalOperator::Or => {
            let (st, jump) = st.jump(OpCode::JumpIfTruePeek, line);
            let st = st.op(OpCode::Pop, line);
            pass_compile_expr(floor, st, fuel, &l.right);
        },
        LogicalOperator::NullishCoalescing => {
            let (st, jump) = st.jump(OpCode::JumpIfNullishPeek, line);
            let (st, end) = st.jump(OpCode::Jump, line);
            let st = st.patch(jump);
            let st = st.op(OpCode::Pop, line);
            pass_compile_expr(floor, st, fuel, &l.right);
        },
    }
}

pub(crate) proof fn pass_compile_conditional<'p>(
    floor: kept::Floor,
    st: CState<'p>,
    fuel: nat,
    c: &'p ConditionalExpression,
)
    ensures
        st.compile_conditional(fuel, c) matches Ok(e) ==> kept::onward(floor, st, e),
    decreases fuel, c, 0int,
{
    broadcast use {kept::group_steps, kept::group_parts};

    let line: u32 = c.span.start;
    pass_compile_expr(floor, st, fuel, &c.test);
    let st = st.compile_expr(fuel, &c.test)->Ok_0;
    let (st, then_jump) = st.jump(OpCode::JumpIfFalse, line);
    pass_compile_expr(floor, st, fuel, &c.consequent);
    let st = st.compile_expr(fuel, &c.consequent)->Ok_0;
    let (st, else_jump) = st.jump(OpCode::Jump, line);
    let st = st.patch(then_jump);
    pass_compile_expr(floor, st, fuel, &c.alternate);
}

pub(crate) proof fn pass_compile_assignment<'p>(
    floor: kept::Floor,
    st: CState<'p>,
    fuel: nat,
    a: &'p AssignmentExpression,
)
    ensures
        st.compile_assignment(fuel, a) matches Ok(e) ==> kept::onward(floor, st, e),
    decreases fuel, a, 1int,
{
    broadcast use {kept::group_steps, kept::group_parts};

    let line: u32 = a.span.start;
    match &a.left {
        AssignmentTarget::Identifier(id) => {
            pass_assign_identifier(floor, st, fuel, id.name, a.operator, &a.right, line);
        },
        AssignmentTarget::Member(m) => {
            pass_compile_expr(floor, st, fuel, &m.object);
            let st = st.compile_expr(fuel, &m.object)->Ok_0;
            pass_compile_member_store(floor, st, fuel, a, line);
        },
        AssignmentTarget::Pattern(pat) => {
            pass_compile_expr(floor, st, fuel, &a.right);
            let st = st.compile_expr(fuel, &a.right)->Ok_0;
            match pat {
                Pattern::Array(arr_pat) => {
                    if shape::array_rest(arr_pat.elements@) {
                        pass_assign_indexed_elements(floor, st, fuel, line, &arr_pat.elements, 0);
                    } else {
                        pass_assign_iterated_elements(floor, st, fuel, &arr_pat.elements, line);
                    }
                },
                Pattern::Object(obj_pat) => {
                    let st = st.op(OpCode::Dup, line);
                    let (st, nullish_jump) = st.jump(OpCode::JumpIfNullishPeek, line);
                    let st = st.op(OpCode::Pop, line);
                    let (st, skip_throw) = st.jump(OpCode::Jump, line);
                    let st = st.patch(nullish_jump);
                    let st = st.op(OpCode::Pop, line);
                    let st = st.emit_throw_type_error(
                        "Cannot destructure 'undefined' or 'null'"@,
                        line,
                    );
                    let st = st.patch(skip_throw);
                    let has_rest: bool = shape::object_rest(obj_pat.properties@);
                    pass_assign_properties(floor, st, fuel, has_rest, line, &obj_pat.properties, 0);
                },
                _ => {},
            }
        },
    }
}

pub(crate) proof fn pass_assign_identifier<'p>(
    floor: kept::Floor,
    st: CState<'p>,
    fuel: nat,
    name: StringId,
    operator: AssignmentOperator,
    right: &'p Expression,
    line: u32,
)
    ensures
        st.assign_identifier(fuel, name, operator, right, line) matches Ok(e) ==> kept::onward(
            floor,
            st,
            e,
        ),
    decreases fuel, right, 7int,
{
    broadcast use {kept::group_steps, kept::group_parts};

    if operator == AssignmentOperator::Assign {
        let st = if shape::anonymous_fn(*right) {
            let st = st.set_pending_name(name);
            st
        } else {
            st
        };
        let (st, needs_ref) = st.ident_needs_with_ref(name);
        if needs_ref {
            let st = st.op_name(OpCode::WithRefResolve, name, line);
            pass_compile_expr(floor, st, fuel, right);
        } else {
            pass_compile_expr(floor, st, fuel, right);
        }
    } else {
        if shape::logical_assignment(operator) {
            let st = st.compile_get_variable(name, line);
            if operator == AssignmentOperator::NullishAssign {
                let (st, jump) = st.jump(OpCode::JumpIfNullishPeek, line);
                let (st, end) = st.jump(OpCode::Jump, line);
                let st = st.patch(jump);
                let st = st.op(OpCode::Pop, line);
                let st = if shape::anonymous_fn(*right) {
                    let st = st.set_pending_name(name);
                    st
                } else {
                    st
                };
                pass_compile_expr(floor, st, fuel, right);
            } else {
                let (st, jump) = st.jump(
                    if operator == AssignmentOperator::AndAssign { OpCode::JumpIfFalsePeek } else { OpCode::JumpIfTruePeek },
                    line,
                );
                let st = st.op(OpCode::Pop, line);
                let st = if shape::anonymous_fn(*right) {
                    let st = st.set_pending_name(name);
                    st
                } else {
                    st
                };
                pass_compile_expr(floor, st, fuel, right);
            }
        } else {
            let (st, needs_ref) = st.ident_needs_with_ref(name);
            if needs_ref {
                let st = st.op_name(OpCode::WithRefResolve, name, line);
                let st = st.compile_get_variable_resolved(name, line);
                pass_compile_expr(floor, st, fuel, right);
            } else {
                let st = st.compile_get_variable(name, line);
                pass_compile_expr(floor, st, fuel, right);
            }
        }
    }
}

pub(crate) proof fn pass_compile_member_store<'p>(
    floor: kept::Floor,
    st: CState<'p>,
    fuel: nat,
    a: &'p AssignmentExpression,
    line: u32,
)
    ensures
        st.compile_member_store(fuel, a, line) matches Ok(e) ==> kept::onward(floor, st, e),
    decreases fuel, a, 0int,
{
    broadcast use {kept::group_steps, kept::group_parts};

    if let AssignmentTarget::Member(m) = &a.left {
        match &m.property {
            MemberProperty::Identifier(name) => {
                let (st, idx) = st.make_string_constant(*name);
                pass_store_property(floor, st, fuel, idx, a.operator, &a.right, line);
            },
            MemberProperty::Expression(key) => {
                pass_compile_expr(floor, st, fuel, key);
                let st = st.compile_expr(fuel, key)->Ok_0;
                pass_store_element(floor, st, fuel, a.operator, &a.right, line);
            },
            MemberProperty::PrivateIdentifier(name) => {
                let (st, idx) = st.make_string_constant(*name);
                pass_store_private(floor, st, fuel, idx, a.operator, &a.right, line);
            },
        }
    }
}

pub(crate) proof fn pass_store_property<'p>(
    floor: kept::Floor,
    st: CState<'p>,
    fuel: nat,
    idx: u16,
    operator: AssignmentOperator,
    rhs: &'p Expression,
    line: u32,
)
    ensures
        st.store_property(fuel, idx, operator, rhs, line) matches Ok(e) ==> kept::onward(
            floor,
            st,
            e,
        ),
    decreases fuel, rhs, 8int,
{
    broadcast use {kept::group_steps, kept::group_parts};

    if shape::logical_assignment(operator) {
        let st = st.op(OpCode::Dup, line);
        let st = st.emit_get_property(idx, line);
        pass_emit_logical_member_assign(floor, st, fuel, operator, idx, rhs, line);
    } else {
        if operator != AssignmentOperator::Assign {
            let st = st.op(OpCode::Dup, line);
            let st = st.emit_get_property(idx, line);
            pass_compile_expr(floor, st, fuel, rhs);
        } else {
            pass_compile_expr(floor, st, fuel, rhs);
        }
    }
}

pub(crate) proof fn pass_emit_logical_member_assign<'p>(
    floor: kept::Floor,
    st: CState<'p>,
    fuel: nat,
    operator: AssignmentOperator,
    idx: u16,
    rhs: &'p Expression,
    line: u32,
)
    ensures
        st.emit_logical_member_assign(
            fuel,
            operator,
            idx,
            rhs,
            line,
        ) matches Ok(e) ==> kept::onward(
            floor,
            st,
            e,
        ),
    decreases fuel, rhs, 7int,
{
    broadcast use {kept::group_steps, kept::group_parts};

    if operator == AssignmentOperator::NullishAssign {
        let (st, to_assign) = st.jump(OpCode::JumpIfNullishPeek, line);
        let st = st.op(OpCode::Swap, line);
        let st = st.op(OpCode::Pop, line);
        let (st, end) = st.jump(OpCode::Jump, line);
        let st = st.patch(to_assign);
        let st = st.op(OpCode::Pop, line);
        pass_compile_expr(floor, st, fuel, rhs);
    } else {
        let (st, skip) = st.jump(
            if operator == AssignmentOperator::AndAssign { OpCode::JumpIfFalsePeek } else { OpCode::JumpIfTruePeek },
            line,
        );
        let st = st.op(OpCode::Pop, line);
        pass_compile_expr(floor, st, fuel, rhs);
    }
}

pub(crate) proof fn pass_store_element<'p>(
    floor: kept::Floor,
    st: CState<'p>,
    fuel: nat,
    operator: AssignmentOperator,
    rhs: &'p Expression,
    line: u32,
)
    ensures
        st.store_element(fuel, operator, rhs, line) matches Ok(e) ==> kept::onward(floor, st, e),
    decreases fuel, rhs, 8int,
{
    broadcast use {kept::group_steps, kept::group_parts};

    if shape::logical_assignment(operator) {
        let st = st.op(OpCode::Dup2, line);
        let st = st.op(OpCode::GetElement, line);
        pass_emit_logical_elem_assign(floor, st, fuel, operator, rhs, line);
    } else {
        if operator != AssignmentOperator::Assign {
            let st = st.op(OpCode::Dup2, line);
            let st = st.op(OpCode::GetElement, line);
            pass_compile_expr(floor, st, fuel, rhs);
        } else {
            pass_compile_expr(floor, st, fuel, rhs);
        }
    }
}

pub(crate) proof fn pass_emit_logical_elem_assign<'p>(
    floor: kept::Floor,
    st: CState<'p>,
    fuel: nat,
    operator: AssignmentOperator,
    rhs: &'p Expression,
    line: u32,
)
    ensures
        st.emit_logical_elem_assign(fuel, operator, rhs, line) matches Ok(e) ==> kept::onward(
            floor,
            st,
            e,
        ),
    decreases fuel, rhs, 7int,
{
    broadcast use {kept::group_steps, kept::group_parts};

    if operator == AssignmentOperator::NullishAssign {
        let (st, to_assign) = st.jump(OpCode::JumpIfNullishPeek, line);
        let st = st.op(OpCode::Swap, line);
        let st = st.op(OpCode::Pop, line);
        let st = st.op(OpCode::Swap, line);
        let st = st.op(OpCode::Pop, line);
        let (st, end) = st.jump(OpCode::Jump, line);
        let st = st.patch(to_assign);
        let st = st.op(OpCode::Pop, line);
        pass_compile_expr(floor, st, fuel, rhs);
    } else {
        let (st, skip) = st.jump(
            if operator == AssignmentOperator::AndAssign { OpCode::JumpIfFalsePeek } else { OpCode::JumpIfTruePeek },
            line,
        );
        let st = st.op(OpCode::Pop, line);
        pass_compile_expr(floor, st, fuel, rhs);
    }
}

pub(crate) proof fn pass_store_private<'p>(
    floor: kept::Floor,
    st: CState<'p>,
    fuel: nat,
    idx: u16,
    operator: AssignmentOperator,
    rhs: &'p Expression,
    line: u32,
)
    ensures
        st.store_private(fuel, idx, operator, rhs, line) matches Ok(e) ==> kept::onward(
            floor,
            st,
            e,
        ),
    decreases fuel, rhs, 8int,
{
    broadcast use {kept::group_steps, kept::group_parts};

    if shape::logical_assignment(operator) {
        let st = st.op(OpCode::Dup, line);
        let st = st.op_u16(OpCode::GetPrivate, idx, line);
        pass_emit_logical_priv_assign(floor, st, fuel, operator, idx, rhs, line);
    } else {
        if operator != AssignmentOperator::Assign {
            let st = st.op(OpCode::Dup, line);
            let st = st.op_u16(OpCode::GetPrivate, idx, line);
            pass_compile_expr(floor, st, fuel, rhs);
        } else {
            pass_compile_expr(floor, st, fuel, rhs);
        }
    }
}

pub(crate) proof fn pass_emit_logical_priv_assign<'p>(
    floor: kept::Floor,
    st: CState<'p>,
    fuel: nat,
    operator: AssignmentOperator,
    idx: u16,
    rhs: &'p Expression,
    line: u32,
)
    ensures
        st.emit_logical_priv_assign(fuel, operator, idx, rhs, line) matches Ok(e) ==> kept::onward(
            floor,
            st,
            e,
        ),
    decreases fuel, rhs, 7int,
{
    broadcast use {kept::group_steps, kept::group_parts};

    if operator == AssignmentOperator::NullishAssign {
        let (st, to_assign) = st.jump(OpCode::JumpIfNullishPeek, line);
        let st = st.op(OpCode::Swap, line);
        let st = st.op(OpCode::Pop, line);
        let (st, end) = st.jump(OpCode::Jump, line);
        let st = st.patch(to_assign);
        let st = st.op(OpCode::Pop, line);
        pass_compile_expr(floor, st, fuel, rhs);
    } else {
        let (st, skip) = st.jump(
            if operator == AssignmentOperator::AndAssign { OpCode::JumpIfFalsePeek } else { OpCode::JumpIfTruePeek },
            line,
        );
        let st = st.op(OpCode::Pop, line);
        pass_compile_expr(floor, st, fuel, rhs);
    }
}

pub(crate) proof fn pass_assign_indexed_elements<'p>(
    floor: kept::Floor,
    st: CState<'p>,
    fuel: nat,
    line: u32,
    elements: &'p Vec<Option<Pattern>>,
    i: int,
)
    ensures
        st.assign_indexed_elements(fuel, line, elements, i) matches Ok(e) ==> kept::onward(
            floor,
            st,
            e,
        ),
    decreases fuel, elements, elements@.len() - i,
{
    broadcast use {kept::group_steps, kept::group_parts};

    if 0 <= i < elements@.len() {
        let elem = &elements@[i];
        if let Some(elem_pat) = elem {
            let st = st.op(OpCode::Dup, line);
            let st = st.emit_constant(Value::Int(i as i32), line);
            let st = st.op(OpCode::GetElement, line);
            match elem_pat {
                Pattern::Identifier(id) => {
                    let st = st.compile_set_variable(id.name, line);
                    let st = st.op(OpCode::Pop, line);
                    pass_assign_indexed_elements(floor, st, fuel, line, elements, i + 1);
                },
                Pattern::Rest(r) => {
                    let st = st.op(OpCode::Pop, line);
                    let st = st.op(OpCode::Dup, line);
                    let st = st.op(OpCode::GetIterator, line);
                    kept::pass_skip_iterated(floor, st, i as usize, line);
                    let st = st.skip_iterated(i as usize, line);
                    let st = st.collect_iterated(line);
                    match &r.argument {
                        Pattern::Identifier(id) => {
                            let st = st.compile_set_variable(id.name, line);
                            let st = st.op(OpCode::Pop, line);
                            pass_assign_indexed_elements(floor, st, fuel, line, elements, i + 1);
                        },
                        Pattern::Member(m) => {
                            pass_compile_expr(floor, st, fuel, &m.object);
                            let st = st.compile_expr(fuel, &m.object)->Ok_0;
                            let st = match &m.property {
                                MemberProperty::Identifier(id) => {
                                    let (st, idx) = st.make_string_constant(*id);
                                    let st = st.op(OpCode::Swap, line);
                                    let st = st.emit_set_property(idx, line);
                                    st
                                },
                                MemberProperty::Expression(key) => {
                                    pass_compile_expr(floor, st, fuel, key);
                                    let st = st.compile_expr(fuel, key)->Ok_0;
                                    let st = st.op(OpCode::Rot3, line);
                                    let st = st.op(OpCode::Rot3, line);
                                    let st = st.op(OpCode::SetElement, line);
                                    st
                                },
                                MemberProperty::PrivateIdentifier(_) => {
                                    let st = st.op(OpCode::Pop, line);
                                    let st = st.op(OpCode::Pop, line);
                                    st
                                },
                            };
                            let st = st.op(OpCode::Pop, line);
                            pass_assign_indexed_elements(floor, st, fuel, line, elements, i + 1);
                        },
                        Pattern::Object(_) => {
                            pass_compile_assign_to_pattern(floor, st, fuel, &r.argument, line);
                            let st = st.compile_assign_to_pattern(fuel, &r.argument, line)->Ok_0;
                            pass_assign_indexed_elements(floor, st, fuel, line, elements, i + 1);
                        },
                        Pattern::Array(_) => {
                            pass_compile_assign_to_pattern(floor, st, fuel, &r.argument, line);
                            let st = st.compile_assign_to_pattern(fuel, &r.argument, line)->Ok_0;
                            pass_assign_indexed_elements(floor, st, fuel, line, elements, i + 1);
                        },
                        _ => {
                            let st = st.op(OpCode::Pop, line);
                            pass_assign_indexed_elements(floor, st, fuel, line, elements, i + 1);
                        },
                    }
                },
                Pattern::Object(_) => {
                    pass_compile_assign_to_pattern(floor, st, fuel, elem_pat, line);
                    let st = st.compile_assign_to_pattern(fuel, elem_pat, line)->Ok_0;
                    pass_assign_indexed_elements(floor, st, fuel, line, elements, i + 1);
                },
                Pattern::Array(_) => {
                    pass_compile_assign_to_pattern(floor, st, fuel, elem_pat, line);
                    let st = st.compile_assign_to_pattern(fuel, elem_pat, line)->Ok_0;
                    pass_assign_indexed_elements(floor, st, fuel, line, elements, i + 1);
                },
                _ => {
                    let st = st.op(OpCode::Pop, line);
                    pass_assign_indexed_elements(floor, st, fuel, line, elements, i + 1);
                },
            }
        } else {
            pass_assign_indexed_elements(floor, st, fuel, line, elements, i + 1);
        }
    }
}

pub(crate) proof fn pass_compile_assign_to_pattern<'p>(
    floor: kept::Floor,
    st: CState<'p>,
    fuel: nat,
    pat: &'p Pattern,
    line: u32,
)
    ensures
        st.compile_assign_to_pattern(fuel, pat, line) matches Ok(e) ==> kept::onward(floor, st, e),
    decreases fuel, pat, 5int,
{
    broadcast use {kept::group_steps, kept::group_parts};

    match pat {
        Pattern::Member(m) => {
            pass_compile_member_target(floor, st, fuel, m, line);
        },
        Pattern::Object(obj) => {
            pass_assign_to_properties(floor, st, fuel, line, &obj.properties, 0);
        },
        Pattern::Array(arr) => {
            let st = st.op(OpCode::Dup, line);
            let st = st.op(OpCode::Undefined, line);
            let st = st.op(OpCode::StrictEq, line);
            let (st, undef_jump) = st.jump(OpCode::JumpIfTrue, line);
            let st = st.op(OpCode::Dup, line);
            let st = st.op(OpCode::Null, line);
            let st = st.op(OpCode::StrictEq, line);
            let (st, null_jump) = st.jump(OpCode::JumpIfTrue, line);
            let (st, skip_throw) = st.jump(OpCode::Jump, line);
            let st = st.patch(undef_jump);
            let st = st.patch(null_jump);
            let st = st.emit_throw_type_error("object is not iterable"@, line);
            let st = st.patch(skip_throw);
            pass_assign_to_elements(floor, st, fuel, line, &arr.elements, 0);
        },
        _ => {},
    }
}

pub(crate) proof fn pass_compile_member_target<'p>(
    floor: kept::Floor,
    st: CState<'p>,
    fuel: nat,
    m: &'p MemberExpression,
    line: u32,
)
    ensures
        st.compile_member_target(fuel, m, line) matches Ok(e) ==> kept::onward(floor, st, e),
    decreases fuel, m, 0int,
{
    broadcast use {kept::group_steps, kept::group_parts};

    pass_compile_expr(floor, st, fuel, &m.object);
    let st = st.compile_expr(fuel, &m.object)->Ok_0;
    match &m.property {
        MemberProperty::Expression(key) => {
            pass_compile_expr(floor, st, fuel, key);
        },
        _ => {},
    }
}

pub(crate) proof fn pass_assign_to_properties<'p>(
    floor: kept::Floor,
    st: CState<'p>,
    fuel: nat,
    line: u32,
    properties: &'p Vec<ObjectPatternProperty>,
    i: int,
)
    ensures
        st.assign_to_properties(fuel, line, properties, i) matches Ok(e) ==> kept::onward(
            floor,
            st,
            e,
        ),
    decreases fuel, properties, properties@.len() - i,
{
    broadcast use {kept::group_steps, kept::group_parts};

    if 0 <= i < properties@.len() {
        let prop = &properties@[i];
        if let ObjectPatternProperty::Property { key, value, .. } = prop {
            let st = st.op(OpCode::Dup, line);
            if let PropertyKey::Private(_) = key {
                let st = st.op(OpCode::Pop, line);
                pass_assign_to_properties(floor, st, fuel, line, properties, i + 1);
            } else {
                pass_compile_keyed_read(floor, st, fuel, key, false, line);
                let st = st.compile_keyed_read(fuel, key, false, line)->Ok_0;
                match value {
                    Pattern::Identifier(id) => {
                        let st = st.compile_set_variable(id.name, line);
                        let st = st.op(OpCode::Pop, line);
                        pass_assign_to_properties(floor, st, fuel, line, properties, i + 1);
                    },
                    Pattern::Assignment(a) => {
                        let st = st.op(OpCode::Dup, line);
                        let st = st.op(OpCode::Undefined, line);
                        let st = st.op(OpCode::StrictEq, line);
                        let jump_idx = st.here();
                        let st = st.op(OpCode::JumpIfFalse, line);
                        let st = st.raw16(0);
                        let st = st.op(OpCode::Pop, line);
                        pass_compile_expr(floor, st, fuel, &a.right);
                        let st = st.compile_expr(fuel, &a.right)->Ok_0;
                        let st = st.patch_short(jump_idx);
                        let st = if let Pattern::Identifier(id) = &a.left {
                            let st = st.compile_set_variable(id.name, line);
                            st
                        } else {
                            st
                        };
                        let st = st.op(OpCode::Pop, line);
                        pass_assign_to_properties(floor, st, fuel, line, properties, i + 1);
                    },
                    Pattern::Object(_) => {
                        pass_compile_assign_to_pattern(floor, st, fuel, value, line);
                        let st = st.compile_assign_to_pattern(fuel, value, line)->Ok_0;
                        pass_assign_to_properties(floor, st, fuel, line, properties, i + 1);
                    },
                    Pattern::Array(_) => {
                        pass_compile_assign_to_pattern(floor, st, fuel, value, line);
                        let st = st.compile_assign_to_pattern(fuel, value, line)->Ok_0;
                        pass_assign_to_properties(floor, st, fuel, line, properties, i + 1);
                    },
                    _ => {
                        let st = st.op(OpCode::Pop, line);
                        pass_assign_to_properties(floor, st, fuel, line, properties, i + 1);
                    },
                }
            }
        } else {
            pass_assign_to_properties(floor, st, fuel, line, properties, i + 1);
        }
    }
}

pub(crate) proof fn pass_compile_keyed_read<'p>(
    floor: kept::Floor,
    st: CState<'p>,
    fuel: nat,
    key: &'p PropertyKey,
    has_rest: bool,
    line: u32,
)
    ensures
        st.compile_keyed_read(fuel, key, has_rest, line) matches Ok(e) ==> kept::onward(
            floor,
            st,
            e,
        ),
    decreases fuel, key, 0int,
{
    broadcast use {kept::group_steps, kept::group_parts};

    match key {
        PropertyKey::Computed(expr) => {
            pass_compile_expr(floor, st, fuel, expr);
        },
        _ => {},
    }
}

pub(crate) proof fn pass_assign_to_elements<'p>(
    floor: kept::Floor,
    st: CState<'p>,
    fuel: nat,
    line: u32,
    elements: &'p Vec<Option<Pattern>>,
    i: int,
)
    ensures
        st.assign_to_elements(fuel, line, elements, i) matches Ok(e) ==> kept::onward(floor, st, e),
    decreases fuel, elements, elements@.len() - i,
{
    broadcast use {kept::group_steps, kept::group_parts};

    if 0 <= i < elements@.len() {
        let elem = &elements@[i];
        if let Some(elem_pat) = elem {
            let st = st.op(OpCode::Dup, line);
            let st = st.emit_constant(Value::Int(i as i32), line);
            let st = st.op(OpCode::GetElement, line);
            match elem_pat {
                Pattern::Identifier(id) => {
                    let st = st.compile_set_variable(id.name, line);
                    let st = st.op(OpCode::Pop, line);
                    pass_assign_to_elements(floor, st, fuel, line, elements, i + 1);
                },
                Pattern::Object(_) => {
                    pass_compile_assign_to_pattern(floor, st, fuel, elem_pat, line);
                    let st = st.compile_assign_to_pattern(fuel, elem_pat, line)->Ok_0;
                    pass_assign_to_elements(floor, st, fuel, line, elements, i + 1);
                },
                Pattern::Array(_) => {
                    pass_compile_assign_to_pattern(floor, st, fuel, elem_pat, line);
                    let st = st.compile_assign_to_pattern(fuel, elem_pat, line)->Ok_0;
                    pass_assign_to_elements(floor, st, fuel, line, elements, i + 1);
                },
                _ => {
                    let st = st.op(OpCode::Pop, line);
                    pass_assign_to_elements(floor, st, fuel, line, elements, i + 1);
                },
            }
        } else {
            pass_assign_to_elements(floor, st, fuel, line, elements, i + 1);
        }
    }
}

pub(crate) proof fn pass_assign_iterated_elements<'p>(
    floor: kept::Floor,
    st: CState<'p>,
    fuel: nat,
    elements: &'p Vec<Option<Pattern>>,
    line: u32,
)
    ensures
        st.assign_iterated_elements(fuel, elements, line) matches Ok(e) ==> kept::onward(
            floor,
            st,
            e,
        ),
    decreases fuel, elements, elements@.len() as int + 1,
{
    broadcast use {kept::group_steps, kept::group_parts};

    let st = st.op(OpCode::False, line);
    let st = st.op(OpCode::Swap, line);
    let done_slot = st.next_slot();
    let (st, done_anon) = st.intern("__assign_iter_done__"@);
    let st = st.declare_local(done_anon);
    let st = st.op(OpCode::Dup, line);
    let st = st.op(OpCode::GetIterator, line);
    pass_assign_iterated(floor, st, fuel, done_slot, line, elements, 0);
}

pub(crate) proof fn pass_assign_iterated<'p>(
    floor: kept::Floor,
    st: CState<'p>,
    fuel: nat,
    done_slot: u8,
    line: u32,
    elements: &'p Vec<Option<Pattern>>,
    i: int,
)
    ensures
        st.assign_iterated(fuel, done_slot, line, elements, i) matches Ok(e) ==> kept::onward(
            floor,
            st,
            e,
        ),
    decreases fuel, elements, elements@.len() - i,
{
    broadcast use {kept::group_steps, kept::group_parts};

    if 0 <= i < elements@.len() {
        let elem = &elements@[i];
        let st = st.op(OpCode::Dup, line);
        let st = st.op(OpCode::IteratorNext, line);
        match elem {
            None => {
                let st = st.op(OpCode::Pop, line);
                pass_assign_iterated(floor, st, fuel, done_slot, line, elements, i + 1);
            },
            Some(pat) => {
                let st = st.op(OpCode::Dup, line);
                let st = st.op(OpCode::IteratorDone, line);
                let st = st.op(OpCode::Dup, line);
                let st = st.op_u8(OpCode::SetLocal, done_slot, line);
                let st = st.op(OpCode::Pop, line);
                let st = st.emit_value_or_undefined(line);
                match pat {
                    Pattern::Assignment(a) => {
                        let st = st.op(OpCode::Dup, line);
                        let st = st.op(OpCode::Undefined, line);
                        let st = st.op(OpCode::StrictNe, line);
                        let (st, skip) = st.jump(OpCode::JumpIfTrue, line);
                        let st = st.op(OpCode::Pop, line);
                        let st = st.name_default(&a.left, &a.right);
                        pass_compile_expr(floor, st, fuel, &a.right);
                        let st = st.compile_expr(fuel, &a.right)->Ok_0;
                        let st = st.patch(skip);
                        pass_compile_assign_to_pattern(floor, st, fuel, &a.left, line);
                        let st = st.compile_assign_to_pattern(fuel, &a.left, line)->Ok_0;
                        pass_assign_iterated(floor, st, fuel, done_slot, line, elements, i + 1);
                    },
                    _ => {
                        pass_compile_assign_to_pattern(floor, st, fuel, pat, line);
                        let st = st.compile_assign_to_pattern(fuel, pat, line)->Ok_0;
                        pass_assign_iterated(floor, st, fuel, done_slot, line, elements, i + 1);
                    },
                }
            },
        }
    }
}

pub(crate) proof fn pass_assign_properties<'p>(
    floor: kept::Floor,
    st: CState<'p>,
    fuel: nat,
    has_rest: bool,
    line: u32,
    properties: &'p Vec<ObjectPatternProperty>,
    i: int,
)
    ensures
        st.assign_properties(fuel, has_rest, line, properties, i) matches Ok(e) ==> kept::onward(
            floor,
            st,
            e,
        ),
    decreases fuel, properties, properties@.len() - i,
{
    broadcast use {kept::group_steps, kept::group_parts};

    if 0 <= i < properties@.len() {
        let prop = &properties@[i];
        match prop {
            ObjectPatternProperty::Property { key, value, .. } => {
                let st = st.op(OpCode::Dup, line);
                if let PropertyKey::Private(_) = key {
                    let st = st.op(OpCode::Pop, line);
                    pass_assign_properties(floor, st, fuel, has_rest, line, properties, i + 1);
                } else {
                    pass_compile_keyed_read(floor, st, fuel, key, has_rest, line);
                    let st = st.compile_keyed_read(fuel, key, has_rest, line)->Ok_0;
                    match value {
                        Pattern::Identifier(id) => {
                            let st = st.compile_set_variable(id.name, line);
                            let st = st.op(OpCode::Pop, line);
                            pass_assign_properties(
                                floor,
                                st,
                                fuel,
                                has_rest,
                                line,
                                properties,
                                i + 1,
                            );
                        },
                        Pattern::Member(m) => {
                            pass_compile_member_target(floor, st, fuel, m, line);
                            let st = st.compile_member_target(fuel, m, line)->Ok_0;
                            pass_assign_properties(
                                floor,
                                st,
                                fuel,
                                has_rest,
                                line,
                                properties,
                                i + 1,
                            );
                        },
                        Pattern::Assignment(a) => {
                            let st = st.op(OpCode::Dup, line);
                            let st = st.op(OpCode::Undefined, line);
                            let st = st.op(OpCode::StrictEq, line);
                            let jump_idx = st.here();
                            let st = st.op(OpCode::JumpIfFalse, line);
                            let st = st.raw16(0);
                            let st = st.op(OpCode::Pop, line);
                            let st = st.name_default(&a.left, &a.right);
                            pass_compile_expr(floor, st, fuel, &a.right);
                            let st = st.compile_expr(fuel, &a.right)->Ok_0;
                            let st = st.patch_short(jump_idx);
                            match &a.left {
                                Pattern::Identifier(id) => {
                                    let st = st.compile_set_variable(id.name, line);
                                    let st = st.op(OpCode::Pop, line);
                                    pass_assign_properties(
                                        floor,
                                        st,
                                        fuel,
                                        has_rest,
                                        line,
                                        properties,
                                        i + 1,
                                    );
                                },
                                Pattern::Member(_) => {
                                    pass_compile_assign_to_pattern(floor, st, fuel, &a.left, line);
                                    let st = st.compile_assign_to_pattern(
                                        fuel,
                                        &a.left,
                                        line,
                                    )->Ok_0;
                                    pass_assign_properties(
                                        floor,
                                        st,
                                        fuel,
                                        has_rest,
                                        line,
                                        properties,
                                        i + 1,
                                    );
                                },
                                Pattern::Object(_) => {
                                    pass_compile_assign_to_pattern(floor, st, fuel, &a.left, line);
                                    let st = st.compile_assign_to_pattern(
                                        fuel,
                                        &a.left,
                                        line,
                                    )->Ok_0;
                                    pass_assign_properties(
                                        floor,
                                        st,
                                        fuel,
                                        has_rest,
                                        line,
                                        properties,
                                        i + 1,
                                    );
                                },
                                Pattern::Array(_) => {
                                    pass_compile_assign_to_pattern(floor, st, fuel, &a.left, line);
                                    let st = st.compile_assign_to_pattern(
                                        fuel,
                                        &a.left,
                                        line,
                                    )->Ok_0;
                                    pass_assign_properties(
                                        floor,
                                        st,
                                        fuel,
                                        has_rest,
                                        line,
                                        properties,
                                        i + 1,
                                    );
                                },
                                _ => {
                                    let st = st.op(OpCode::Pop, line);
                                    pass_assign_properties(
                                        floor,
                                        st,
                                        fuel,
                                        has_rest,
                                        line,
                                        properties,
                                        i + 1,
                                    );
                                },
                            }
                        },
                        Pattern::Object(_) => {
                            pass_compile_assign_to_pattern(floor, st, fuel, value, line);
                            let st = st.compile_assign_to_pattern(fuel, value, line)->Ok_0;
                            pass_assign_properties(
                                floor,
                                st,
                                fuel,
                                has_rest,
                                line,
                                properties,
                                i + 1,
                            );
                        },
                        Pattern::Array(_) => {
                            pass_compile_assign_to_pattern(floor, st, fuel, value, line);
                            let st = st.compile_assign_to_pattern(fuel, value, line)->Ok_0;
                            pass_assign_properties(
                                floor,
                                st,
                                fuel,
                                has_rest,
                                line,
                                properties,
                                i + 1,
                            );
                        },
                        _ => {
                            let st = st.op(OpCode::Pop, line);
                            pass_assign_properties(
                                floor,
                                st,
                                fuel,
                                has_rest,
                                line,
                                properties,
                                i + 1,
                            );
                        },
                    }
                }
            },
            ObjectPatternProperty::Rest(rest) => {
                if let Pattern::Identifier(id) = &rest.argument {
                    let excluded: Seq<StringId> = shape::excluded_names(properties@);
                    let st = st.op(OpCode::Dup, line);
                    pass_emit_object_rest(floor, st, excluded, excluded.len() as u8, line);
                    let st = st.emit_object_rest(excluded, excluded.len() as u8, line);
                    let st = st.compile_set_variable(id.name, line);
                    let st = st.op(OpCode::Pop, line);
                    pass_assign_properties(floor, st, fuel, has_rest, line, properties, i + 1);
                } else {
                    pass_assign_properties(floor, st, fuel, has_rest, line, properties, i + 1);
                }
            },
        }
    }
}

pub(crate) proof fn pass_emit_object_rest<'p>(
    floor: kept::Floor,
    st: CState<'p>,
    excluded: Seq<StringId>,
    count: u8,
    line: u32,
)
    ensures
        kept::onward(floor, st, st.emit_object_rest(excluded, count, line)),
{
    broadcast use {kept::group_steps, kept::group_parts};

    let st = st.byte(OpCode::ObjectRest.byte(), line);
    let st = st.raw(count);
    pass_emit_excluded(floor, st, excluded, 0);
}

pub(crate) proof fn pass_emit_excluded<'p>(
    floor: kept::Floor,
    st: CState<'p>,
    names: Seq<StringId>,
    i: int,
)
    ensures
        kept::onward(floor, st, st.emit_excluded(names, i)),
    decreases names.len() - i,
{
    broadcast use {kept::group_steps, kept::group_parts};

    if 0 <= i < names.len() {
        let name = names[i];
        let (st, idx) = st.make_string_constant(name);
        let st = st.raw16(idx);
        pass_emit_excluded(floor, st, names, i + 1);
    }
}

pub(crate) proof fn pass_compile_sequence<'p>(
    floor: kept::Floor,
    st: CState<'p>,
    fuel: nat,
    expressions: &'p Vec<Expression>,
    i: int,
)
    ensures
        st.compile_sequence(fuel, expressions, i) matches Ok(e) ==> kept::onward(floor, st, e),
    decreases fuel, expressions, expressions@.len() - i,
{
    broadcast use {kept::group_steps, kept::group_parts};

    if 0 <= i < expressions@.len() {
        let expr = &expressions@[i];
        pass_compile_expr(floor, st, fuel, expr);
        let st = st.compile_expr(fuel, expr)->Ok_0;
        if i + 1 < expressions.len() {
            let line = st.current_line();
            let st = st.op(OpCode::Pop, line);
            pass_compile_sequence(floor, st, fuel, expressions, i + 1);
        } else {
            pass_compile_sequence(floor, st, fuel, expressions, i + 1);
        }
    }
}

pub(crate) proof fn pass_compile_member<'p>(
    floor: kept::Floor,
    st: CState<'p>,
    fuel: nat,
    m: &'p MemberExpression,
)
    ensures
        st.compile_member(fuel, m) matches Ok(e) ==> kept::onward(floor, st, e),
    decreases fuel, m, 0int,
{
    broadcast use {kept::group_steps, kept::group_parts};

    let line: u32 = m.span.start;
    if shape::super_expr(m.object) {
        let st = st.op(OpCode::GetSuperClass, line);
        match &m.property {
            MemberProperty::Expression(key) => {
                pass_compile_expr(floor, st, fuel, key);
            },
            _ => {},
        }
    } else {
        pass_compile_expr(floor, st, fuel, &m.object);
        let st = st.compile_expr(fuel, &m.object)->Ok_0;
        pass_compile_member_read(floor, st, fuel, &m.property, line);
    }
}

pub(crate) proof fn pass_compile_member_read<'p>(
    floor: kept::Floor,
    st: CState<'p>,
    fuel: nat,
    property: &'p MemberProperty,
    line: u32,
)
    ensures
        st.compile_member_read(fuel, property, line) matches Ok(e) ==> kept::onward(floor, st, e),
    decreases fuel, property, 0int,
{
    broadcast use {kept::group_steps, kept::group_parts};

    match property {
        MemberProperty::Expression(key) => {
            pass_compile_expr(floor, st, fuel, key);
        },
        _ => {},
    }
}

pub(crate) proof fn pass_compile_call<'p>(
    floor: kept::Floor,
    st: CState<'p>,
    fuel: nat,
    c: &'p CallExpression,
)
    ensures
        st.compile_call(fuel, c) matches Ok(e) ==> kept::onward(floor, st, e),
    decreases fuel, c, 1int,
{
    broadcast use {kept::group_steps, kept::group_parts};

    let line: u32 = c.span.start;
    let argc: u8 = c.arguments.len() as u8;
    match &c.callee {
        Expression::Member(_) => {
            pass_compile_method_call(floor, st, fuel, c, argc, line);
        },
        Expression::Super(_) => {
            let st = st.op(OpCode::GetSuperConstructor, line);
            pass_compile_call_tail(floor, st, fuel, &c.arguments, argc, line);
        },
        _ => {
            pass_compile_expr(floor, st, fuel, &c.callee);
            let st = st.compile_expr(fuel, &c.callee)->Ok_0;
            pass_compile_call_tail(floor, st, fuel, &c.arguments, argc, line);
        },
    }
}

pub(crate) proof fn pass_compile_method_call<'p>(
    floor: kept::Floor,
    st: CState<'p>,
    fuel: nat,
    c: &'p CallExpression,
    argc: u8,
    line: u32,
)
    ensures
        st.compile_method_call(fuel, c, argc, line) matches Ok(e) ==> kept::onward(floor, st, e),
    decreases fuel, c, 0int,
{
    broadcast use {kept::group_steps, kept::group_parts};

    if let Expression::Member(m) = &c.callee {
        match &m.property {
            MemberProperty::Identifier(name) => {
                if shape::super_expr(m.object) {
                    let st = st.op(OpCode::GetSuperClass, line);
                    let (st, idx) = st.make_string_constant(*name);
                    let st = st.emit_get_property(idx, line);
                    pass_compile_args(floor, st, fuel, &c.arguments, 0);
                } else if shape::any_spread(c.arguments@) {
                    pass_compile_expr(floor, st, fuel, &m.object);
                    let st = st.compile_expr(fuel, &m.object)->Ok_0;
                    let st = st.op(OpCode::Dup, line);
                    let (st, name_idx) = st.make_string_constant(*name);
                    let st = st.emit_get_property(name_idx, line);
                    let st = st.op(OpCode::Swap, line);
                    let st = st.op_u16(OpCode::CreateArray, 0, line);
                    pass_compile_spread_args(floor, st, fuel, line, &c.arguments, 0);
                } else {
                    pass_compile_expr(floor, st, fuel, &m.object);
                    let st = st.compile_expr(fuel, &m.object)->Ok_0;
                    pass_compile_args(floor, st, fuel, &c.arguments, 0);
                }
            },
            MemberProperty::Expression(key_expr) => {
                if let Expression::StringLiteral(s) = key_expr {
                    pass_compile_expr(floor, st, fuel, &m.object);
                    let st = st.compile_expr(fuel, &m.object)->Ok_0;
                    pass_compile_args(floor, st, fuel, &c.arguments, 0);
                } else {
                    pass_compile_expr(floor, st, fuel, &m.object);
                    let st = st.compile_expr(fuel, &m.object)->Ok_0;
                    if argc < 255 {
                        let st = st.op(OpCode::Dup, line);
                        pass_compile_expr(floor, st, fuel, key_expr);
                        let st = st.compile_expr(fuel, key_expr)->Ok_0;
                        let st = st.op(OpCode::GetElement, line);
                        let st = st.op(OpCode::Swap, line);
                        pass_compile_args(floor, st, fuel, &c.arguments, 0);
                    } else {
                        pass_compile_expr(floor, st, fuel, key_expr);
                        let st = st.compile_expr(fuel, key_expr)->Ok_0;
                        let st = st.op(OpCode::GetElement, line);
                        pass_compile_args(floor, st, fuel, &c.arguments, 0);
                    }
                }
            },
            MemberProperty::PrivateIdentifier(name) => {
                pass_compile_expr(floor, st, fuel, &m.object);
                let st = st.compile_expr(fuel, &m.object)->Ok_0;
                pass_compile_args(floor, st, fuel, &c.arguments, 0);
            },
        }
    }
}

pub(crate) proof fn pass_compile_args<'p>(
    floor: kept::Floor,
    st: CState<'p>,
    fuel: nat,
    arguments: &'p Vec<Expression>,
    i: int,
)
    ensures
        st.compile_args(fuel, arguments, i) matches Ok(e) ==> kept::onward(floor, st, e),
    decreases fuel, arguments, arguments@.len() - i,
{
    broadcast use {kept::group_steps, kept::group_parts};

    if 0 <= i < arguments@.len() {
        let arg = &arguments@[i];
        pass_compile_expr(floor, st, fuel, arg);
        let st = st.compile_expr(fuel, arg)->Ok_0;
        pass_compile_args(floor, st, fuel, arguments, i + 1);
    }
}

pub(crate) proof fn pass_compile_spread_args<'p>(
    floor: kept::Floor,
    st: CState<'p>,
    fuel: nat,
    line: u32,
    arguments: &'p Vec<Expression>,
    i: int,
)
    ensures
        st.compile_spread_args(fuel, line, arguments, i) matches Ok(e) ==> kept::onward(
            floor,
            st,
            e,
        ),
    decreases fuel, arguments, arguments@.len() - i,
{
    broadcast use {kept::group_steps, kept::group_parts};

    if 0 <= i < arguments@.len() {
        let arg = &arguments@[i];
        match arg {
            Expression::Spread(sp) => {
                pass_compile_expr(floor, st, fuel, &sp.argument);
                let st = st.compile_expr(fuel, &sp.argument)->Ok_0;
                let st = st.op(OpCode::ArraySpread, line);
                pass_compile_spread_args(floor, st, fuel, line, arguments, i + 1);
            },
            _ => {
                pass_compile_expr(floor, st, fuel, arg);
                let st = st.compile_expr(fuel, arg)->Ok_0;
                let st = st.op_u32(
                    OpCode::SetArrayItem,
                    shape::spread_at(arguments@, i as usize),
                    line,
                );
                pass_compile_spread_args(floor, st, fuel, line, arguments, i + 1);
            },
        }
    }
}

pub(crate) proof fn pass_compile_call_tail<'p>(
    floor: kept::Floor,
    st: CState<'p>,
    fuel: nat,
    arguments: &'p Vec<Expression>,
    argc: u8,
    line: u32,
)
    ensures
        st.compile_call_tail(fuel, arguments, argc, line) matches Ok(e) ==> kept::onward(
            floor,
            st,
            e,
        ),
    decreases fuel, arguments, arguments@.len() as int + 1,
{
    broadcast use {kept::group_steps, kept::group_parts};

    if shape::any_spread(arguments@) {
        let st = st.op_u16(OpCode::CreateArray, 0, line);
        pass_compile_spread_args(floor, st, fuel, line, arguments, 0);
    } else {
        pass_compile_args(floor, st, fuel, arguments, 0);
    }
}

pub(crate) proof fn pass_compile_new<'p>(
    floor: kept::Floor,
    st: CState<'p>,
    fuel: nat,
    n: &'p NewExpression,
)
    ensures
        st.compile_new(fuel, n) matches Ok(e) ==> kept::onward(floor, st, e),
    decreases fuel, n, 0int,
{
    broadcast use {kept::group_steps, kept::group_parts};

    let line: u32 = n.span.start;
    pass_compile_expr(floor, st, fuel, &n.callee);
    let st = st.compile_expr(fuel, &n.callee)->Ok_0;
    if shape::any_spread(n.arguments@) {
        let st = st.op_u16(OpCode::CreateArray, 0, line);
        pass_compile_spread_args(floor, st, fuel, line, &n.arguments, 0);
    } else {
        pass_compile_args(floor, st, fuel, &n.arguments, 0);
    }
}

pub(crate) proof fn pass_compile_array<'p>(
    floor: kept::Floor,
    st: CState<'p>,
    fuel: nat,
    a: &'p ArrayExpression,
)
    ensures
        st.compile_array(fuel, a) matches Ok(e) ==> kept::onward(floor, st, e),
    decreases fuel, a, 0int,
{
    broadcast use {kept::group_steps, kept::group_parts};

    let st = st.op_u16(OpCode::CreateArray, a.elements.len() as u16, a.span.start);
    pass_compile_array_elements(floor, st, fuel, a.span.start, &a.elements, 0);
}

pub(crate) proof fn pass_compile_array_elements<'p>(
    floor: kept::Floor,
    st: CState<'p>,
    fuel: nat,
    line: u32,
    elements: &'p Vec<Option<Expression>>,
    i: int,
)
    ensures
        st.compile_array_elements(fuel, line, elements, i) matches Ok(e) ==> kept::onward(
            floor,
            st,
            e,
        ),
    decreases fuel, elements, elements@.len() - i,
{
    broadcast use {kept::group_steps, kept::group_parts};

    if 0 <= i < elements@.len() {
        let elem = &elements@[i];
        match elem {
            Some(e) => {
                match e {
                    Expression::Spread(sp) => {
                        pass_compile_expr(floor, st, fuel, &sp.argument);
                        let st = st.compile_expr(fuel, &sp.argument)->Ok_0;
                        let st = st.op(OpCode::ArraySpread, line);
                        pass_compile_array_elements(floor, st, fuel, line, elements, i + 1);
                    },
                    _ => {
                        pass_compile_expr(floor, st, fuel, e);
                        let st = st.compile_expr(fuel, e)->Ok_0;
                        let st = st.op_u32(OpCode::SetArrayItem, i as u32, line);
                        pass_compile_array_elements(floor, st, fuel, line, elements, i + 1);
                    },
                }
            },
            None => {
                let st = st.op(OpCode::Undefined, line);
                let st = st.op_u32(OpCode::SetArrayItem, i as u32, line);
                pass_compile_array_elements(floor, st, fuel, line, elements, i + 1);
            },
        }
    }
}

pub(crate) proof fn pass_compile_object<'p>(
    floor: kept::Floor,
    st: CState<'p>,
    fuel: nat,
    o: &'p ObjectExpression,
)
    ensures
        st.compile_object(fuel, o) matches Ok(e) ==> kept::onward(floor, st, e),
    decreases fuel, o, 0int,
{
    broadcast use {kept::group_steps, kept::group_parts};

    let st = st.op(OpCode::CreateObject, o.span.start);
    pass_compile_object_properties(floor, st, fuel, o.span.start, &o.properties, 0);
}

pub(crate) proof fn pass_compile_object_properties<'p>(
    floor: kept::Floor,
    st: CState<'p>,
    fuel: nat,
    line: u32,
    properties: &'p Vec<ObjectProperty>,
    i: int,
)
    ensures
        st.compile_object_properties(fuel, line, properties, i) matches Ok(e) ==> kept::onward(
            floor,
            st,
            e,
        ),
    decreases fuel, properties, properties@.len() - i,
{
    broadcast use {kept::group_steps, kept::group_parts};

    if 0 <= i < properties@.len() {
        let prop = &properties@[i];
        match prop {
            ObjectProperty::Property(p) => {
                pass_compile_object_property(floor, st, fuel, p, line);
                let st = st.compile_object_property(fuel, p, line)->Ok_0;
                pass_compile_object_properties(floor, st, fuel, line, properties, i + 1);
            },
            ObjectProperty::SpreadElement(s) => {
                pass_compile_expr(floor, st, fuel, &s.argument);
                let st = st.compile_expr(fuel, &s.argument)->Ok_0;
                let st = st.op(OpCode::ObjectSpread, line);
                pass_compile_object_properties(floor, st, fuel, line, properties, i + 1);
            },
        }
    }
}

pub(crate) proof fn pass_compile_object_property<'p>(
    floor: kept::Floor,
    st: CState<'p>,
    fuel: nat,
    p: &'p Property,
    line: u32,
)
    ensures
        st.compile_object_property(fuel, p, line) matches Ok(e) ==> kept::onward(floor, st, e),
    decreases fuel, p, 0int,
{
    broadcast use {kept::group_steps, kept::group_parts};

    let (st, proto) = st.sets_prototype(p);
    if proto {
        pass_compile_expr(floor, st, fuel, &p.value);
    } else {
        pass_compile_property_key(floor, st, fuel, &p.key, line);
        let st = st.compile_property_key(fuel, &p.key, line)->Ok_0;
        match p.kind {
            PropertyKindVal::Init => {
                let st = if shape::anonymous_fn(p.value) {
                    let (st, key_name) = st.property_key_name(&p.key);
                    let st = if key_name != StringId(0) {
                        let st = st.set_pending_name(key_name);
                        st
                    } else {
                        st
                    };
                    st
                } else {
                    st
                };
                pass_compile_expr(floor, st, fuel, &p.value);
            },
            PropertyKindVal::Getter => {
                pass_compile_expr(floor, st, fuel, &p.value);
            },
            PropertyKindVal::Setter => {
                pass_compile_expr(floor, st, fuel, &p.value);
            },
        }
    }
}

pub(crate) proof fn pass_compile_property_key<'p>(
    floor: kept::Floor,
    st: CState<'p>,
    fuel: nat,
    key: &'p PropertyKey,
    line: u32,
)
    ensures
        st.compile_property_key(fuel, key, line) matches Ok(e) ==> kept::onward(floor, st, e),
    decreases fuel, key, 0int,
{
    broadcast use {kept::group_steps, kept::group_parts};

    match key {
        PropertyKey::Computed(expr) => {
            pass_compile_expr(floor, st, fuel, expr);
        },
        _ => {},
    }
}

pub(crate) proof fn pass_compile_function_expr<'p>(
    floor: kept::Floor,
    st: CState<'p>,
    fuel: nat,
    f: &'p FunctionExpression,
)
    ensures
        st.compile_function_expr(fuel, f) matches Ok(e) ==> kept::onward(floor, st, e),
    decreases fuel, f, 0int,
{
    broadcast use {kept::group_steps, kept::group_parts};

    let (st, name) = st.function_name(f.id);
    pass_compile_function_body_with_self(
        floor,
        st,
        fuel,
        name,
        &f.params,
        &f.body,
        f.is_async,
        f.is_generator,
        f.id,
    );
}

pub(crate) proof fn pass_compile_function_body_with_self<'p>(
    floor: kept::Floor,
    st: CState<'p>,
    fuel: nat,
    name: StringId,
    params: &'p Vec<Pattern>,
    body: &'p BlockStatement,
    is_async: bool,
    is_generator: bool,
    self_binding: Option<StringId>,
)
    ensures
        st.compile_function_body_with_self(
            fuel,
            name,
            params,
            body,
            is_async,
            is_generator,
            self_binding,
        ) matches Ok((e, _)) ==> kept::onward(floor, st, e),
    decreases fuel, body, 9int,
{
    broadcast use {
        kept::grow_function_chunk,
        kept::keep_function_chunk,
        kept::enter_saves,
        kept::leave_restores,
    };

    let (begun, child) = st.function_chunk(name, params, &body.body, is_async, is_generator);
    if let Ok((e, _)) = st.compile_function_body_with_self(
        fuel,
        name,
        params,
        body,
        is_async,
        is_generator,
        self_binding,
    ) {
        kept::lemma_left(floor, begun, e);
    }
}

pub(crate) proof fn pass_declare_params<'p>(
    floor: kept::Floor,
    st: CState<'p>,
    params: &'p Vec<Pattern>,
    i: int,
)
    ensures
        kept::onward(floor, st, st.declare_params(params, i)),
    decreases params@.len() - i,
{
    broadcast use {kept::group_steps, kept::group_parts};

    if 0 <= i < params@.len() {
        let param = &params@[i];
        match shape::name_of_param(*param) {
            Some(name) => {
                let st = st.declare_local(name);
                pass_declare_params(floor, st, params, i + 1);
            },
            None => {
                let (st, anon) = st.intern_param(i as usize);
                let st = st.declare_local(anon);
                pass_declare_params(floor, st, params, i + 1);
            },
        }
    }
}

pub(crate) proof fn pass_compile_params<'p>(
    floor: kept::Floor,
    st: CState<'p>,
    fuel: nat,
    params: &'p Vec<Pattern>,
)
    ensures
        st.compile_params(fuel, params) matches Ok(e) ==> kept::onward(floor, st, e),
    decreases fuel, params, params@.len() as int + 1,
{
    broadcast use {kept::group_steps, kept::group_parts};

    pass_compile_param_defaults(floor, st, fuel, params, 0);
    let st = st.compile_param_defaults(fuel, params, 0)->Ok_0;
    pass_collect_rest_params(floor, st, params, 0);
    let st = st.collect_rest_params(params, 0);
    pass_destructure_params(floor, st, fuel, params, 0);
}

pub(crate) proof fn pass_compile_param_defaults<'p>(
    floor: kept::Floor,
    st: CState<'p>,
    fuel: nat,
    params: &'p Vec<Pattern>,
    i: int,
)
    ensures
        st.compile_param_defaults(fuel, params, i) matches Ok(e) ==> kept::onward(floor, st, e),
    decreases fuel, params, params@.len() - i,
{
    broadcast use {kept::group_steps, kept::group_parts};

    if 0 <= i < params@.len() {
        let param = &params@[i];
        if let Pattern::Assignment(a) = param {
            let st = st.op(OpCode::GetLocal, 0);
            let st = st.raw(i as u8);
            let st = st.op(OpCode::Undefined, 0);
            let st = st.op(OpCode::StrictNe, 0);
            let jump_idx = st.here();
            let st = st.op(OpCode::JumpIfTrue, 0);
            let st = st.raw16(0);
            let st = st.op(OpCode::BeginParamExpr, 0);
            let st = st.begin_default(i as usize, params.len());
            pass_compile_expr(floor, st, fuel, &a.right);
            let st = st.compile_expr(fuel, &a.right)->Ok_0;
            let st = st.end_default();
            let st = st.op(OpCode::EndParamExpr, 0);
            let st = st.op(OpCode::SetLocal, 0);
            let st = st.raw(i as u8);
            let st = st.op(OpCode::Pop, 0);
            let st = st.patch_short(jump_idx);
            pass_compile_param_defaults(floor, st, fuel, params, i + 1);
        } else {
            pass_compile_param_defaults(floor, st, fuel, params, i + 1);
        }
    }
}

pub(crate) proof fn pass_collect_rest_params<'p>(
    floor: kept::Floor,
    st: CState<'p>,
    params: &'p Vec<Pattern>,
    i: int,
)
    ensures
        kept::onward(floor, st, st.collect_rest_params(params, i)),
    decreases params@.len() - i,
{
    broadcast use {kept::group_steps, kept::group_parts};

    if 0 <= i < params@.len() {
        let param = &params@[i];
        if let Pattern::Rest(r) = param {
            if let Pattern::Identifier(_) = &r.argument {
                let st = st.byte(OpCode::CollectRest.byte(), 0);
                let st = st.raw(i as u8);
                let st = st.raw(i as u8);
                pass_collect_rest_params(floor, st, params, i + 1);
            } else {
                pass_collect_rest_params(floor, st, params, i + 1);
            }
        } else {
            pass_collect_rest_params(floor, st, params, i + 1);
        }
    }
}

pub(crate) proof fn pass_destructure_params<'p>(
    floor: kept::Floor,
    st: CState<'p>,
    fuel: nat,
    params: &'p Vec<Pattern>,
    i: int,
)
    ensures
        st.destructure_params(fuel, params, i) matches Ok(e) ==> kept::onward(floor, st, e),
    decreases fuel, params, params@.len() - i,
{
    broadcast use {kept::group_steps, kept::group_parts};

    if 0 <= i < params@.len() {
        let param = &params@[i];
        match param {
            Pattern::Array(_) => {
                pass_destructure_pattern_from_slot(floor, st, fuel, param, i as u8, 0);
                let st = st.destructure_pattern_from_slot(fuel, param, i as u8, 0)->Ok_0;
                pass_destructure_params(floor, st, fuel, params, i + 1);
            },
            Pattern::Object(_) => {
                pass_destructure_pattern_from_slot(floor, st, fuel, param, i as u8, 0);
                let st = st.destructure_pattern_from_slot(fuel, param, i as u8, 0)->Ok_0;
                pass_destructure_params(floor, st, fuel, params, i + 1);
            },
            Pattern::Assignment(a) => {
                pass_destructure_pattern_from_slot(floor, st, fuel, &a.left, i as u8, 0);
                let st = st.destructure_pattern_from_slot(fuel, &a.left, i as u8, 0)->Ok_0;
                pass_destructure_params(floor, st, fuel, params, i + 1);
            },
            _ => {
                pass_destructure_params(floor, st, fuel, params, i + 1);
            },
        }
    }
}

pub(crate) proof fn pass_destructure_pattern_from_slot<'p>(
    floor: kept::Floor,
    st: CState<'p>,
    fuel: nat,
    pat: &'p Pattern,
    src_slot: u8,
    line: u32,
)
    ensures
        st.destructure_pattern_from_slot(fuel, pat, src_slot, line) matches Ok(e) ==> kept::onward(
            floor,
            st,
            e,
        ),
    decreases fuel, pat, 5int,
{
    broadcast use {kept::group_steps, kept::group_parts};

    match pat {
        Pattern::Array(arr) => {
            let st = st.op_u8(OpCode::GetLocal, src_slot, line);
            let st = st.op(OpCode::GetIterator, line);
            let iter_slot = st.next_slot();
            let (st, iter_anon) = st.intern("__arr_iter__"@);
            let st = st.declare_local(iter_anon);
            let st = st.op(OpCode::False, line);
            let done_slot = st.next_slot();
            let (st, done_anon) = st.intern("__iter_done__"@);
            let st = st.declare_local(done_anon);
            pass_destructure_elements(
                floor,
                st,
                fuel,
                iter_slot,
                done_slot,
                line,
                &arr.elements,
                0,
            );
        },
        Pattern::Object(obj) => {
            let st = st.op_u8(OpCode::GetLocal, src_slot, line);
            let st = st.emit_falsy_object_check(line);
            pass_destructure_properties(floor, st, fuel, src_slot, line, &obj.properties, 0);
        },
        _ => {},
    }
}

pub(crate) proof fn pass_destructure_elements<'p>(
    floor: kept::Floor,
    st: CState<'p>,
    fuel: nat,
    iter_slot: u8,
    done_slot: u8,
    line: u32,
    elements: &'p Vec<Option<Pattern>>,
    i: int,
)
    ensures
        st.destructure_elements(
            fuel,
            iter_slot,
            done_slot,
            line,
            elements,
            i,
        ) matches Ok(e) ==> kept::onward(floor, st, e),
    decreases fuel, elements, elements@.len() - i,
{
    broadcast use {kept::group_steps, kept::group_parts};

    if 0 <= i < elements@.len() {
        let elem = &elements@[i];
        match elem {
            Some(pat) => {
                match pat {
                    Pattern::Rest(r) => {
                        let st = st.collect_from_slot(iter_slot, line);
                        pass_destructure_value(
                            floor,
                            st,
                            fuel,
                            &r.argument,
                            "__destruct_rest__"@,
                            line,
                        );
                        let st = st.destructure_value(
                            fuel,
                            &r.argument,
                            "__destruct_rest__"@,
                            line,
                        )->Ok_0;
                    },
                    Pattern::Assignment(a) => {
                        let st = st.next_from_slot(iter_slot, done_slot, line);
                        pass_default_for_local(floor, st, fuel, &a.left, &a.right, line);
                        let st = st.default_for_local(fuel, &a.left, &a.right, line)->Ok_0;
                        pass_destructure_value(
                            floor,
                            st,
                            fuel,
                            &a.left,
                            "__destruct_inner__"@,
                            line,
                        );
                        let st = st.destructure_value(
                            fuel,
                            &a.left,
                            "__destruct_inner__"@,
                            line,
                        )->Ok_0;
                        pass_destructure_elements(
                            floor,
                            st,
                            fuel,
                            iter_slot,
                            done_slot,
                            line,
                            elements,
                            i + 1,
                        );
                    },
                    _ => {
                        let st = st.next_from_slot(iter_slot, done_slot, line);
                        pass_destructure_value(floor, st, fuel, pat, "__destruct_inner__"@, line);
                        let st = st.destructure_value(fuel, pat, "__destruct_inner__"@, line)->Ok_0;
                        pass_destructure_elements(
                            floor,
                            st,
                            fuel,
                            iter_slot,
                            done_slot,
                            line,
                            elements,
                            i + 1,
                        );
                    },
                }
            },
            None => {
                let st = st.skip_from_slot(iter_slot, line);
                pass_destructure_elements(
                    floor,
                    st,
                    fuel,
                    iter_slot,
                    done_slot,
                    line,
                    elements,
                    i + 1,
                );
            },
        }
    }
}

pub(crate) proof fn pass_destructure_value<'p>(
    floor: kept::Floor,
    st: CState<'p>,
    fuel: nat,
    pat: &'p Pattern,
    anon: Seq<char>,
    line: u32,
)
    ensures
        st.destructure_value(fuel, pat, anon, line) matches Ok(e) ==> kept::onward(floor, st, e),
    decreases fuel, pat, 6int,
{
    broadcast use {kept::group_steps, kept::group_parts};

    match pat {
        Pattern::Array(_) => {
            let (st, anon_id) = st.intern(anon);
            let st = st.declare_local(anon_id);
            let inner_slot = st.last_slot();
            pass_destructure_pattern_from_slot(floor, st, fuel, pat, inner_slot, line);
        },
        Pattern::Object(_) => {
            let (st, anon_id) = st.intern(anon);
            let st = st.declare_local(anon_id);
            let inner_slot = st.last_slot();
            pass_destructure_pattern_from_slot(floor, st, fuel, pat, inner_slot, line);
        },
        _ => {},
    }
}

pub(crate) proof fn pass_default_for_local<'p>(
    floor: kept::Floor,
    st: CState<'p>,
    fuel: nat,
    left: &'p Pattern,
    right: &'p Expression,
    line: u32,
)
    ensures
        st.default_for_local(fuel, left, right, line) matches Ok(e) ==> kept::onward(floor, st, e),
    decreases fuel, right, 6int,
{
    broadcast use {kept::group_steps, kept::group_parts};

    let st = st.op(OpCode::Dup, line);
    let st = st.op(OpCode::Undefined, line);
    let st = st.op(OpCode::StrictNe, line);
    let jump_idx = st.here();
    let st = st.op(OpCode::JumpIfTrue, line);
    let st = st.raw16(0);
    let st = st.op(OpCode::Pop, line);
    let st = st.name_default(left, right);
    pass_compile_expr(floor, st, fuel, right);
}

pub(crate) proof fn pass_destructure_properties<'p>(
    floor: kept::Floor,
    st: CState<'p>,
    fuel: nat,
    src_slot: u8,
    line: u32,
    properties: &'p Vec<ObjectPatternProperty>,
    i: int,
)
    ensures
        st.destructure_properties(
            fuel,
            src_slot,
            line,
            properties,
            i,
        ) matches Ok(e) ==> kept::onward(floor, st, e),
    decreases fuel, properties, properties@.len() - i,
{
    broadcast use {kept::group_steps, kept::group_parts};

    if 0 <= i < properties@.len() {
        let prop = &properties@[i];
        match prop {
            ObjectPatternProperty::Property { key, value, .. } => {
                let st = st.op_u8(OpCode::GetLocal, src_slot, line);
                if let PropertyKey::Private(_) = key {
                    let st = st.op(OpCode::Pop, line);
                    pass_destructure_properties(floor, st, fuel, src_slot, line, properties, i + 1);
                } else {
                    pass_compile_keyed_read(floor, st, fuel, key, false, line);
                    let st = st.compile_keyed_read(fuel, key, false, line)->Ok_0;
                    match value {
                        Pattern::Assignment(a) => {
                            pass_default_for_local(floor, st, fuel, &a.left, &a.right, line);
                            let st = st.default_for_local(fuel, &a.left, &a.right, line)->Ok_0;
                            pass_destructure_value(
                                floor,
                                st,
                                fuel,
                                &a.left,
                                "__destruct_inner__"@,
                                line,
                            );
                            let st = st.destructure_value(
                                fuel,
                                &a.left,
                                "__destruct_inner__"@,
                                line,
                            )->Ok_0;
                            pass_destructure_properties(
                                floor,
                                st,
                                fuel,
                                src_slot,
                                line,
                                properties,
                                i + 1,
                            );
                        },
                        _ => {
                            pass_destructure_value(
                                floor,
                                st,
                                fuel,
                                value,
                                "__destruct_inner__"@,
                                line,
                            );
                            let st = st.destructure_value(
                                fuel,
                                value,
                                "__destruct_inner__"@,
                                line,
                            )->Ok_0;
                            pass_destructure_properties(
                                floor,
                                st,
                                fuel,
                                src_slot,
                                line,
                                properties,
                                i + 1,
                            );
                        },
                    }
                }
            },
            ObjectPatternProperty::Rest(rest) => {
                let excluded: Seq<StringId> = shape::excluded_names(properties@);
                let st = st.op_u8(OpCode::GetLocal, src_slot, line);
                pass_emit_object_rest(floor, st, excluded, shape::clamped(excluded), line);
                let st = st.emit_object_rest(excluded, shape::clamped(excluded), line);
                if let Pattern::Identifier(id) = &rest.argument {
                    let st = st.declare_local(id.name);
                    pass_destructure_properties(floor, st, fuel, src_slot, line, properties, i + 1);
                } else {
                    let st = st.op(OpCode::Pop, line);
                    pass_destructure_properties(floor, st, fuel, src_slot, line, properties, i + 1);
                }
            },
        }
    }
}

pub(crate) proof fn pass_hoist_body_vars<'p>(
    floor: kept::Floor,
    st: CState<'p>,
    stmts: &'p Vec<Statement>,
)
    ensures
        kept::onward(floor, st, st.hoist_body_vars(stmts)),
{
    broadcast use {kept::group_steps, kept::group_parts};

    let names: Seq<StringId> = names::program_var_names(stmts@);
    pass_hoist_names(floor, st, names, 0);
}

pub(crate) proof fn pass_hoist_names<'p>(
    floor: kept::Floor,
    st: CState<'p>,
    names: Seq<StringId>,
    i: int,
)
    ensures
        kept::onward(floor, st, st.hoist_names(names, i)),
    decreases names.len() - i,
{
    broadcast use {kept::group_steps, kept::group_parts};

    if 0 <= i < names.len() {
        let name = names[i];
        if st.resolve_local(name).is_none() {
            let st = st.op(OpCode::Undefined, 0);
            let st = st.declare_local(name);
            pass_hoist_names(floor, st, names, i + 1);
        } else {
            pass_hoist_names(floor, st, names, i + 1);
        }
    }
}

pub(crate) proof fn pass_hoist_body_functions<'p>(
    floor: kept::Floor,
    st: CState<'p>,
    fuel: nat,
    stmts: &'p Vec<Statement>,
    params: &'p Vec<Pattern>,
)
    ensures
        st.hoist_body_functions(fuel, stmts, params) matches Ok(e) ==> kept::onward(floor, st, e),
    decreases fuel, stmts, stmts@.len() as int + 1,
{
    broadcast use {kept::group_steps, kept::group_parts};

    let (st, arguments_id) = st.intern("arguments"@);
    if shape::hoisting(stmts@) {
        pass_reserve_lexicals(floor, st, stmts, 0);
        let st = st.reserve_lexicals(stmts, 0);
        pass_reserve_functions(floor, st, params, arguments_id, stmts, 0);
        let st = st.reserve_functions(params, arguments_id, stmts, 0);
        pass_define_functions(floor, st, fuel, params, arguments_id, stmts, 0);
    }
}

pub(crate) proof fn pass_reserve_lexicals<'p>(
    floor: kept::Floor,
    st: CState<'p>,
    stmts: &'p Vec<Statement>,
    i: int,
)
    ensures
        kept::onward(floor, st, st.reserve_lexicals(stmts, i)),
    decreases stmts@.len() - i,
{
    broadcast use {kept::group_steps, kept::group_parts};

    if 0 <= i < stmts@.len() {
        let stmt = &stmts@[i];
        if let Statement::Variable(d) = stmt {
            if d.kind != VarKind::Var {
                pass_reserve_declarators(floor, st, &d.declarations, 0);
                let st = st.reserve_declarators(&d.declarations, 0);
                pass_reserve_lexicals(floor, st, stmts, i + 1);
            } else {
                pass_reserve_lexicals(floor, st, stmts, i + 1);
            }
        } else {
            pass_reserve_lexicals(floor, st, stmts, i + 1);
        }
    }
}

pub(crate) proof fn pass_reserve_declarators<'p>(
    floor: kept::Floor,
    st: CState<'p>,
    declarations: &'p Vec<VariableDeclarator>,
    i: int,
)
    ensures
        kept::onward(floor, st, st.reserve_declarators(declarations, i)),
    decreases declarations@.len() - i,
{
    broadcast use {kept::group_steps, kept::group_parts};

    if 0 <= i < declarations@.len() {
        let dec = &declarations@[i];
        if let Pattern::Identifier(id) = &dec.id {
            if st.resolve_local(id.name).is_none() {
                let st = st.op(OpCode::Undefined, dec.span.start);
                let st = st.declare_local(id.name);
                let st = st.predeclare(id.name);
                pass_reserve_declarators(floor, st, declarations, i + 1);
            } else {
                pass_reserve_declarators(floor, st, declarations, i + 1);
            }
        } else {
            pass_reserve_declarators(floor, st, declarations, i + 1);
        }
    }
}

pub(crate) proof fn pass_reserve_functions<'p>(
    floor: kept::Floor,
    st: CState<'p>,
    params: &'p Vec<Pattern>,
    arguments_id: StringId,
    stmts: &'p Vec<Statement>,
    i: int,
)
    ensures
        kept::onward(floor, st, st.reserve_functions(params, arguments_id, stmts, i)),
    decreases stmts@.len() - i,
{
    broadcast use {kept::group_steps, kept::group_parts};

    if 0 <= i < stmts@.len() {
        let stmt = &stmts@[i];
        if let Statement::Function(f) = stmt {
            if let Some(name) = f.id {
                if !shape::hides(name, arguments_id, params@) {
                    let (st, slot) = st.reserve_local(name, f.span.start);
                    pass_reserve_functions(floor, st, params, arguments_id, stmts, i + 1);
                } else {
                    pass_reserve_functions(floor, st, params, arguments_id, stmts, i + 1);
                }
            } else {
                pass_reserve_functions(floor, st, params, arguments_id, stmts, i + 1);
            }
        } else {
            pass_reserve_functions(floor, st, params, arguments_id, stmts, i + 1);
        }
    }
}

pub(crate) proof fn pass_define_functions<'p>(
    floor: kept::Floor,
    st: CState<'p>,
    fuel: nat,
    params: &'p Vec<Pattern>,
    arguments_id: StringId,
    stmts: &'p Vec<Statement>,
    i: int,
)
    ensures
        st.define_functions(fuel, params, arguments_id, stmts, i) matches Ok(e) ==> kept::onward(
            floor,
            st,
            e,
        ),
    decreases fuel, stmts, stmts@.len() - i,
{
    broadcast use {kept::group_steps, kept::group_parts};

    if 0 <= i < stmts@.len() {
        let stmt = &stmts@[i];
        if let Statement::Function(f) = stmt {
            if let Some(name) = f.id {
                if !shape::hides(name, arguments_id, params@) {
                    let line: u32 = f.span.start;
                    pass_compile_function_body(
                        floor,
                        st,
                        fuel,
                        name,
                        &f.params,
                        &f.body,
                        f.is_async,
                        f.is_generator,
                    );
                    let (st, child) = st.compile_function_body(
                        fuel,
                        name,
                        &f.params,
                        &f.body,
                        f.is_async,
                        f.is_generator,
                    )->Ok_0;
                    let st = st.emit_closure(child, line);
                    let (st, slot) = st.reserve_local(name, line);
                    let st = st.set_slot(slot, line);
                    let st = st.op(OpCode::Pop, line);
                    pass_define_functions(floor, st, fuel, params, arguments_id, stmts, i + 1);
                } else {
                    pass_define_functions(floor, st, fuel, params, arguments_id, stmts, i + 1);
                }
            } else {
                pass_define_functions(floor, st, fuel, params, arguments_id, stmts, i + 1);
            }
        } else {
            pass_define_functions(floor, st, fuel, params, arguments_id, stmts, i + 1);
        }
    }
}

pub(crate) proof fn pass_compile_function_body<'p>(
    floor: kept::Floor,
    st: CState<'p>,
    fuel: nat,
    name: StringId,
    params: &'p Vec<Pattern>,
    body: &'p BlockStatement,
    is_async: bool,
    is_generator: bool,
)
    ensures
        st.compile_function_body(
            fuel,
            name,
            params,
            body,
            is_async,
            is_generator,
        ) matches Ok((e, _)) ==> kept::onward(floor, st, e),
    decreases fuel, body, 10int,
{
    broadcast use {kept::group_steps, kept::group_parts};

    pass_compile_function_body_with_self(
        floor,
        st,
        fuel,
        name,
        params,
        body,
        is_async,
        is_generator,
        None,
    );
}

pub(crate) proof fn pass_compile_arrow_expr<'p>(
    floor: kept::Floor,
    st: CState<'p>,
    fuel: nat,
    a: &'p ArrowFunctionExpression,
)
    ensures
        st.compile_arrow_expr(fuel, a) matches Ok(e) ==> kept::onward(floor, st, e),
    decreases fuel, a, 0int,
{
    broadcast use {kept::group_steps, kept::group_parts};

    let (st, name_hint) = st.take_pending_name();
    pass_compile_arrow_body(floor, st, fuel, &a.params, &a.body, a.is_async);
}

pub(crate) proof fn pass_compile_arrow_body<'p>(
    floor: kept::Floor,
    st: CState<'p>,
    fuel: nat,
    params: &'p Vec<Pattern>,
    body: &'p ArrowBody,
    is_async: bool,
)
    ensures
        st.compile_arrow_body(fuel, params, body, is_async) matches Ok((e, _)) ==> kept::onward(
            floor,
            st,
            e,
        ),
    decreases fuel, body, 9int,
{
    broadcast use {
        kept::grow_arrow_chunk,
        kept::keep_arrow_chunk,
        kept::enter_saves,
        kept::leave_restores,
    };

    let (begun, child) = st.arrow_chunk(params, body, is_async);
    if let Ok((e, _)) = st.compile_arrow_body(fuel, params, body, is_async) {
        kept::lemma_left(floor, begun, e);
    }
}

pub(crate) proof fn pass_compile_class_expr<'p>(
    floor: kept::Floor,
    st: CState<'p>,
    fuel: nat,
    c: &'p ClassExpression,
)
    ensures
        st.compile_class_expr(fuel, c) matches Ok(e) ==> kept::onward(floor, st, e),
    decreases fuel, c, 0int,
{
    broadcast use {kept::group_steps, kept::group_parts};

    let line: u32 = c.span.start;
    let (st, name) = st.class_name(c.id);
    let st = st.op_name(OpCode::Class, name, line);
    pass_compile_heritage(floor, st, fuel, &c.super_class, line);
    let st = st.compile_heritage(fuel, &c.super_class, line)->Ok_0;
    pass_compile_class_body(floor, st, fuel, &c.body, line);
}

pub(crate) proof fn pass_compile_heritage<'p>(
    floor: kept::Floor,
    st: CState<'p>,
    fuel: nat,
    super_class: &'p Option<Expression>,
    line: u32,
)
    ensures
        st.compile_heritage(fuel, super_class, line) matches Ok(e) ==> kept::onward(floor, st, e),
    decreases fuel, super_class, 6int,
{
    broadcast use {kept::group_steps, kept::group_parts};

    match super_class {
        Some(e) => {
            pass_compile_expr(floor, st, fuel, e);
        },
        None => {},
    }
}

pub(crate) proof fn pass_compile_class_body<'p>(
    floor: kept::Floor,
    st: CState<'p>,
    fuel: nat,
    body: &'p ClassBody,
    line: u32,
)
    ensures
        st.compile_class_body(fuel, body, line) matches Ok(e) ==> kept::onward(floor, st, e),
    decreases fuel, body, 0int,
{
    broadcast use {kept::group_steps, kept::group_parts};

    let st = st.enter_class();
    pass_compile_class_body_inner(floor, st, fuel, line, &body.body, 0);
}

pub(crate) proof fn pass_compile_class_body_inner<'p>(
    floor: kept::Floor,
    st: CState<'p>,
    fuel: nat,
    line: u32,
    members: &'p Vec<ClassMember>,
    i: int,
)
    ensures
        st.compile_class_body_inner(fuel, line, members, i) matches Ok(e) ==> kept::onward(
            floor,
            st,
            e,
        ),
    decreases fuel, members, members@.len() - i,
{
    broadcast use {kept::group_steps, kept::group_parts};

    if 0 <= i < members@.len() {
        let member = &members@[i];
        match member {
            ClassMember::Method(m) => {
                pass_compile_class_method(floor, st, fuel, m, line);
                let st = st.compile_class_method(fuel, m, line)->Ok_0;
                pass_compile_class_body_inner(floor, st, fuel, line, members, i + 1);
            },
            ClassMember::Property(p) => {
                pass_compile_class_property(floor, st, fuel, p, line);
                let st = st.compile_class_property(fuel, p, line)->Ok_0;
                pass_compile_class_body_inner(floor, st, fuel, line, members, i + 1);
            },
            ClassMember::StaticBlock(block) => {
                let (st, name) = st.intern("<static_block>"@);
                pass_compile_static_block(floor, st, fuel, name, block);
                let (st, child) = st.compile_static_block(fuel, name, block)->Ok_0;
                let st = st.op(OpCode::Dup, line);
                let st = st.emit_closure(child, line);
                let (st, call_name) = st.intern("call"@);
                let (st, call_id) = st.make_string_constant(call_name);
                let st = st.op(OpCode::Swap, line);
                let st = st.emit_call_method(1, call_id, line);
                let st = st.op(OpCode::Pop, line);
                pass_compile_class_body_inner(floor, st, fuel, line, members, i + 1);
            },
        }
    }
}

pub(crate) proof fn pass_compile_class_method<'p>(
    floor: kept::Floor,
    st: CState<'p>,
    fuel: nat,
    m: &'p MethodDefinition,
    line: u32,
)
    ensures
        st.compile_class_method(fuel, m, line) matches Ok(e) ==> kept::onward(floor, st, e),
    decreases fuel, m, 0int,
{
    broadcast use {kept::group_steps, kept::group_parts};

    let (st, key_id) = st.property_key_name(&m.key);
    let st = st.set_pending_name(key_id);
    if let PropertyKey::Computed(expr) = &m.key {
        if key_id == StringId(0) {
            let (st, proto_key) = st.intern("prototype"@);
            let (st, proto_idx) = st.make_string_constant(proto_key);
            let st = st.op(OpCode::Dup, line);
            let st = if !m.is_static {
                let st = st.emit_get_property(proto_idx, line);
                st
            } else {
                st
            };
            pass_compile_expr(floor, st, fuel, expr);
            let st = st.compile_expr(fuel, expr)->Ok_0;
            let st = st.op(OpCode::ToPropertyKey, line);
            pass_compile_expr(floor, st, fuel, &m.value);
        } else {
            pass_compile_expr(floor, st, fuel, &m.value);
        }
    } else {
        pass_compile_expr(floor, st, fuel, &m.value);
    }
}

pub(crate) proof fn pass_compile_class_property<'p>(
    floor: kept::Floor,
    st: CState<'p>,
    fuel: nat,
    p: &'p ClassProperty,
    line: u32,
)
    ensures
        st.compile_class_property(fuel, p, line) matches Ok(e) ==> kept::onward(floor, st, e),
    decreases fuel, p, 0int,
{
    broadcast use {kept::group_steps, kept::group_parts};

    if shape::runtime_key(p.key) {
        pass_compile_property_key(floor, st, fuel, &p.key, line);
        let st = st.compile_property_key(fuel, &p.key, line)->Ok_0;
        pass_compile_init(floor, st, fuel, &p.value, line);
    } else {
        pass_compile_init(floor, st, fuel, &p.value, line);
    }
}

pub(crate) proof fn pass_compile_init<'p>(
    floor: kept::Floor,
    st: CState<'p>,
    fuel: nat,
    init: &'p Option<Expression>,
    line: u32,
)
    ensures
        st.compile_init(fuel, init, line) matches Ok(e) ==> kept::onward(floor, st, e),
    decreases fuel, init, 6int,
{
    broadcast use {kept::group_steps, kept::group_parts};

    match init {
        Some(e) => {
            pass_compile_expr(floor, st, fuel, e);
        },
        None => {},
    }
}

pub(crate) proof fn pass_compile_static_block<'p>(
    floor: kept::Floor,
    st: CState<'p>,
    fuel: nat,
    name: StringId,
    body: &'p BlockStatement,
)
    ensures
        st.compile_static_block(fuel, name, body) matches Ok((e, _)) ==> kept::onward(floor, st, e),
    decreases fuel, body, 10int,
{
    broadcast use {
        kept::grow_static_chunk,
        kept::keep_static_chunk,
        kept::enter_saves,
        kept::leave_restores,
    };

    let (begun, child) = st.static_chunk(name, &body.body);
    if let Ok((e, _)) = st.compile_static_block(fuel, name, body) {
        kept::lemma_left(floor, begun, e);
    }
}

pub(crate) proof fn pass_reserve_block_functions<'p>(
    floor: kept::Floor,
    st: CState<'p>,
    arguments_id: StringId,
    stmts: &'p Vec<Statement>,
    i: int,
)
    ensures
        kept::onward(floor, st, st.reserve_block_functions(arguments_id, stmts, i)),
    decreases stmts@.len() - i,
{
    broadcast use {kept::group_steps, kept::group_parts};

    if 0 <= i < stmts@.len() {
        let stmt = &stmts@[i];
        if let Statement::Function(f) = stmt {
            if let Some(name) = f.id {
                if name != arguments_id {
                    let (st, slot) = st.reserve_local(name, f.span.start);
                    pass_reserve_block_functions(floor, st, arguments_id, stmts, i + 1);
                } else {
                    pass_reserve_block_functions(floor, st, arguments_id, stmts, i + 1);
                }
            } else {
                pass_reserve_block_functions(floor, st, arguments_id, stmts, i + 1);
            }
        } else {
            pass_reserve_block_functions(floor, st, arguments_id, stmts, i + 1);
        }
    }
}

pub(crate) proof fn pass_define_block_functions<'p>(
    floor: kept::Floor,
    st: CState<'p>,
    fuel: nat,
    arguments_id: StringId,
    stmts: &'p Vec<Statement>,
    i: int,
)
    ensures
        st.define_block_functions(fuel, arguments_id, stmts, i) matches Ok(e) ==> kept::onward(
            floor,
            st,
            e,
        ),
    decreases fuel, stmts, stmts@.len() - i,
{
    broadcast use {kept::group_steps, kept::group_parts};

    if 0 <= i < stmts@.len() {
        let stmt = &stmts@[i];
        if let Statement::Function(f) = stmt {
            if let Some(name) = f.id {
                if name != arguments_id {
                    let line: u32 = f.span.start;
                    pass_compile_function_body(
                        floor,
                        st,
                        fuel,
                        name,
                        &f.params,
                        &f.body,
                        f.is_async,
                        f.is_generator,
                    );
                    let (st, child) = st.compile_function_body(
                        fuel,
                        name,
                        &f.params,
                        &f.body,
                        f.is_async,
                        f.is_generator,
                    )->Ok_0;
                    let st = st.emit_closure(child, line);
                    let (st, slot) = st.reserve_local(name, line);
                    let st = st.set_slot(slot, line);
                    let st = st.op(OpCode::Pop, line);
                    pass_define_block_functions(floor, st, fuel, arguments_id, stmts, i + 1);
                } else {
                    pass_define_block_functions(floor, st, fuel, arguments_id, stmts, i + 1);
                }
            } else {
                pass_define_block_functions(floor, st, fuel, arguments_id, stmts, i + 1);
            }
        } else {
            pass_define_block_functions(floor, st, fuel, arguments_id, stmts, i + 1);
        }
    }
}

pub(crate) proof fn pass_compile_template_literal<'p>(
    floor: kept::Floor,
    st: CState<'p>,
    fuel: nat,
    t: &'p TemplateLiteral,
)
    ensures
        st.compile_template_literal(fuel, t) matches Ok(e) ==> kept::onward(floor, st, e),
    decreases fuel, t, 0int,
{
    broadcast use {kept::group_steps, kept::group_parts};

    let line: u32 = t.span.start;
    let (st, empty) = st.intern(""@);
    let st = st.op_name(OpCode::Const, empty, line);
    pass_template_pairs(floor, st, fuel, &t.quasis, line, &t.expressions, 0);
    let st = st.template_pairs(fuel, &t.quasis, line, &t.expressions, 0)->Ok_0;
    pass_template_tail(floor, st, t.expressions.len(), line, &t.quasis, 0);
}

pub(crate) proof fn pass_template_pairs<'p>(
    floor: kept::Floor,
    st: CState<'p>,
    fuel: nat,
    quasis: &'p Vec<TemplateElement>,
    line: u32,
    expressions: &'p Vec<Expression>,
    i: int,
)
    ensures
        st.template_pairs(fuel, quasis, line, expressions, i) matches Ok(e) ==> kept::onward(
            floor,
            st,
            e,
        ),
    decreases fuel, expressions, expressions@.len() - i,
{
    broadcast use {kept::group_steps, kept::group_parts};

    if 0 <= i < expressions@.len() {
        let expr = &expressions@[i];
        if i < quasis.len() {
            let st = st.template_text(&quasis[i], line);
            pass_compile_expr(floor, st, fuel, expr);
            let st = st.compile_expr(fuel, expr)->Ok_0;
            let st = st.op(OpCode::Add, line);
            pass_template_pairs(floor, st, fuel, quasis, line, expressions, i + 1);
        } else {
            pass_template_pairs(floor, st, fuel, quasis, line, expressions, i + 1);
        }
    }
}

pub(crate) proof fn pass_template_tail<'p>(
    floor: kept::Floor,
    st: CState<'p>,
    from: usize,
    line: u32,
    quasis: &'p Vec<TemplateElement>,
    i: int,
)
    ensures
        kept::onward(floor, st, st.template_tail(from, line, quasis, i)),
    decreases quasis@.len() - i,
{
    broadcast use {kept::group_steps, kept::group_parts};

    if 0 <= i < quasis@.len() {
        let quasi = &quasis@[i];
        if i >= from {
            let st = st.template_text(quasi, line);
            pass_template_tail(floor, st, from, line, quasis, i + 1);
        } else {
            pass_template_tail(floor, st, from, line, quasis, i + 1);
        }
    }
}

pub(crate) proof fn pass_compile_tagged_template<'p>(
    floor: kept::Floor,
    st: CState<'p>,
    fuel: nat,
    t: &'p TaggedTemplateExpression,
)
    ensures
        st.compile_tagged_template(fuel, t) matches Ok(e) ==> kept::onward(floor, st, e),
    decreases fuel, t, 0int,
{
    broadcast use {kept::group_steps, kept::group_parts};

    let line: u32 = t.span.start;
    pass_compile_expr(floor, st, fuel, &t.tag);
    let st = st.compile_expr(fuel, &t.tag)->Ok_0;
    pass_tagged_texts(floor, st, line, &t.quasi.quasis, 0);
    let st = st.tagged_texts(line, &t.quasi.quasis, 0);
    pass_compile_args(floor, st, fuel, &t.quasi.expressions, 0);
}

pub(crate) proof fn pass_tagged_texts<'p>(
    floor: kept::Floor,
    st: CState<'p>,
    line: u32,
    quasis: &'p Vec<TemplateElement>,
    i: int,
)
    ensures
        kept::onward(floor, st, st.tagged_texts(line, quasis, i)),
    decreases quasis@.len() - i,
{
    broadcast use {kept::group_steps, kept::group_parts};

    if 0 <= i < quasis@.len() {
        let quasi = &quasis@[i];
        let st = st.op_name(OpCode::Const, shape::text_of_element(*quasi), line);
        pass_tagged_texts(floor, st, line, quasis, i + 1);
    }
}

pub(crate) proof fn pass_compile_yield<'p>(
    floor: kept::Floor,
    st: CState<'p>,
    fuel: nat,
    y: &'p YieldExpression,
)
    ensures
        st.compile_yield(fuel, y) matches Ok(e) ==> kept::onward(floor, st, e),
    decreases fuel, y, 0int,
{
    broadcast use {kept::group_steps, kept::group_parts};

    let line: u32 = y.span.start;
    if y.delegate {
        match &y.argument {
            Some(arg) => {
                pass_compile_expr(floor, st, fuel, arg);
            },
            None => {},
        }
    } else {
        match &y.argument {
            Some(arg) => {
                pass_compile_expr(floor, st, fuel, arg);
            },
            None => {},
        }
    }
}

pub(crate) proof fn pass_compile_optional_chain<'p>(
    floor: kept::Floor,
    st: CState<'p>,
    fuel: nat,
    o: &'p OptionalChainExpression,
)
    ensures
        st.compile_optional_chain(fuel, o) matches Ok(e) ==> kept::onward(floor, st, e),
    decreases fuel, o, 0int,
{
    broadcast use {kept::group_steps, kept::group_parts};

    let line: u32 = o.span.start;
    pass_compile_expr(floor, st, fuel, &o.base);
    let st = st.compile_expr(fuel, &o.base)->Ok_0;
    let base = st.mark_len();
    pass_compile_chain(floor, st, fuel, line, &o.chain, 0);
}

pub(crate) proof fn pass_compile_chain<'p>(
    floor: kept::Floor,
    st: CState<'p>,
    fuel: nat,
    line: u32,
    chain: &'p Vec<OptionalChainElement>,
    i: int,
)
    ensures
        st.compile_chain(fuel, line, chain, i) matches Ok(e) ==> kept::gathered(
            floor,
            st,
            e,
        ) && e.loops == st.loops,
    decreases fuel, chain, chain@.len() - i,
{
    broadcast use {kept::group_steps, kept::group_parts};

    if 0 <= i < chain@.len() {
        let element = &chain@[i];
        match element {
            OptionalChainElement::Member { property, optional, .. } => {
                let st = if *optional {
                    let (st, skip) = st.jump(OpCode::OptionalChain, line);
                    let st = st.push_mark(skip);
                    st
                } else {
                    st
                };
                if !(shape::called_property(chain@, i + 1) is Some) {
                    pass_compile_member_read(floor, st, fuel, property, line);
                    let st = st.compile_member_read(fuel, property, line)->Ok_0;
                    pass_compile_chain(floor, st, fuel, line, chain, i + 1);
                } else {
                    pass_compile_chain(floor, st, fuel, line, chain, i + 1);
                }
            },
            OptionalChainElement::Call { arguments, optional } => {
                match shape::called_property(chain@, i) {
                    Some(id) => {
                        pass_compile_args(floor, st, fuel, arguments, 0);
                        let st = st.compile_args(fuel, arguments, 0)->Ok_0;
                        let (st, idx) = st.make_string_constant(id);
                        let st = st.emit_call_method(arguments.len() as u8, idx, line);
                        pass_compile_chain(floor, st, fuel, line, chain, i + 1);
                    },
                    None => {
                        let st = if *optional {
                            let (st, skip) = st.jump(OpCode::OptionalChain, line);
                            let st = st.push_mark(skip);
                            st
                        } else {
                            st
                        };
                        pass_compile_args(floor, st, fuel, arguments, 0);
                        let st = st.compile_args(fuel, arguments, 0)->Ok_0;
                        let st = st.op_u8(OpCode::Call, arguments.len() as u8, line);
                        pass_compile_chain(floor, st, fuel, line, chain, i + 1);
                    },
                }
            },
        }
    }
}

pub(crate) proof fn pass_compile_var_declaration<'p>(
    floor: kept::Floor,
    st: CState<'p>,
    fuel: nat,
    kind: VarKind,
    declarations: &'p Vec<VariableDeclarator>,
    i: int,
)
    ensures
        st.compile_var_declaration(fuel, kind, declarations, i) matches Ok(e) ==> kept::onward(
            floor,
            st,
            e,
        ),
    decreases fuel, declarations, declarations@.len() - i,
{
    broadcast use {kept::group_steps, kept::group_parts};

    if 0 <= i < declarations@.len() {
        let declarator = &declarations@[i];
        pass_compile_declarator(floor, st, fuel, kind, declarator);
        let st = st.compile_declarator(fuel, kind, declarator)->Ok_0;
        pass_compile_var_declaration(floor, st, fuel, kind, declarations, i + 1);
    }
}

pub(crate) proof fn pass_compile_declarator<'p>(
    floor: kept::Floor,
    st: CState<'p>,
    fuel: nat,
    kind: VarKind,
    declarator: &'p VariableDeclarator,
)
    ensures
        st.compile_declarator(fuel, kind, declarator) matches Ok(e) ==> kept::onward(floor, st, e),
    decreases fuel, declarator, 0int,
{
    broadcast use {kept::group_steps, kept::group_parts};

    let line: u32 = declarator.span.start;
    match &declarator.id {
        Pattern::Identifier(id) => {
            let st = st.check_strict_restricted(id.name, "binding"@)->Ok_0;
            match &declarator.init {
                Some(init) => {
                    let st = if shape::anonymous_fn(*init) {
                        let st = st.set_pending_name(id.name);
                        st
                    } else {
                        st
                    };
                    pass_compile_expr(floor, st, fuel, init);
                },
                None => {},
            }
        },
        Pattern::Object(obj_pat) => {
            pass_compile_init(floor, st, fuel, &declarator.init, line);
            let st = st.compile_init(fuel, &declarator.init, line)->Ok_0;
            if st.depth() > 0 {
                let (st, anon) = st.intern("__destruct_src__"@);
                let st = st.declare_local(anon);
                let src_slot = st.last_slot();
                pass_compile_bind_obj_props_local(
                    floor,
                    st,
                    fuel,
                    &obj_pat.properties,
                    src_slot,
                    kind == VarKind::Var,
                    line,
                );
            } else {
                pass_compile_bind_obj_props_global(floor, st, fuel, &obj_pat.properties, line);
            }
        },
        Pattern::Array(arr_pat) => {
            pass_compile_init(floor, st, fuel, &declarator.init, line);
            let st = st.compile_init(fuel, &declarator.init, line)->Ok_0;
            let st = st.op(OpCode::GetIterator, line);
            if st.depth() > 0 {
                let (st, anon) = st.intern("__destruct_iter__"@);
                let st = st.declare_local(anon);
                let iter_slot = st.last_slot();
                pass_compile_bind_arr_elems_local(
                    floor,
                    st,
                    fuel,
                    &arr_pat.elements,
                    iter_slot,
                    kind == VarKind::Var,
                    line,
                );
            } else {
                pass_compile_bind_arr_elems_global(floor, st, fuel, &arr_pat.elements, line);
            }
        },
        _ => {
            pass_compile_init(floor, st, fuel, &declarator.init, line);
        },
    }
}

pub(crate) proof fn pass_compile_bind_obj_props_local<'p>(
    floor: kept::Floor,
    st: CState<'p>,
    fuel: nat,
    properties: &'p Vec<ObjectPatternProperty>,
    src_slot: u8,
    hoisted: bool,
    line: u32,
)
    ensures
        st.compile_bind_obj_props_local(
            fuel,
            properties,
            src_slot,
            hoisted,
            line,
        ) matches Ok(e) ==> kept::onward(floor, st, e),
    decreases fuel, properties, properties@.len() as int + 1,
{
    broadcast use {kept::group_steps, kept::group_parts};

    let st = st.op_u8(OpCode::GetLocal, src_slot, line);
    let st = st.emit_object_check(line);
    let st = st.op(OpCode::Pop, line);
    pass_bind_properties_local(floor, st, fuel, src_slot, hoisted, line, properties, 0);
}

pub(crate) proof fn pass_bind_properties_local<'p>(
    floor: kept::Floor,
    st: CState<'p>,
    fuel: nat,
    src_slot: u8,
    hoisted: bool,
    line: u32,
    properties: &'p Vec<ObjectPatternProperty>,
    i: int,
)
    ensures
        st.bind_properties_local(
            fuel,
            src_slot,
            hoisted,
            line,
            properties,
            i,
        ) matches Ok(e) ==> kept::onward(floor, st, e),
    decreases fuel, properties, properties@.len() - i,
{
    broadcast use {kept::group_steps, kept::group_parts};

    if 0 <= i < properties@.len() {
        let prop = &properties@[i];
        match prop {
            ObjectPatternProperty::Property { key, value, .. } => {
                let st = st.op_u8(OpCode::GetLocal, src_slot, line);
                if let PropertyKey::Private(_) = key {
                    let st = st.op(OpCode::Pop, line);
                    pass_bind_properties_local(
                        floor,
                        st,
                        fuel,
                        src_slot,
                        hoisted,
                        line,
                        properties,
                        i + 1,
                    );
                } else {
                    pass_compile_keyed_read(floor, st, fuel, key, false, line);
                    let st = st.compile_keyed_read(fuel, key, false, line)->Ok_0;
                    match value {
                        Pattern::Assignment(a) => {
                            let st = st.name_default(&a.left, &a.right);
                            pass_emit_default_check(floor, st, fuel, &a.right, line);
                            let st = st.emit_default_check(fuel, &a.right, line)->Ok_0;
                            pass_compile_bind_value_local(floor, st, fuel, &a.left, hoisted, line);
                            let st = st.compile_bind_value_local(
                                fuel,
                                &a.left,
                                hoisted,
                                line,
                            )->Ok_0;
                            pass_bind_properties_local(
                                floor,
                                st,
                                fuel,
                                src_slot,
                                hoisted,
                                line,
                                properties,
                                i + 1,
                            );
                        },
                        _ => {
                            pass_compile_bind_value_local(floor, st, fuel, value, hoisted, line);
                            let st = st.compile_bind_value_local(fuel, value, hoisted, line)->Ok_0;
                            pass_bind_properties_local(
                                floor,
                                st,
                                fuel,
                                src_slot,
                                hoisted,
                                line,
                                properties,
                                i + 1,
                            );
                        },
                    }
                }
            },
            ObjectPatternProperty::Rest(rest) => {
                if let Pattern::Identifier(id) = &rest.argument {
                    let excluded: Seq<StringId> = shape::excluded_names(properties@);
                    let st = st.op_u8(OpCode::GetLocal, src_slot, line);
                    pass_emit_object_rest(floor, st, excluded, excluded.len() as u8, line);
                    let st = st.emit_object_rest(excluded, excluded.len() as u8, line);
                    let st = st.bind_leaf(id.name, hoisted, line);
                    pass_bind_properties_local(
                        floor,
                        st,
                        fuel,
                        src_slot,
                        hoisted,
                        line,
                        properties,
                        i + 1,
                    );
                } else {
                    pass_bind_properties_local(
                        floor,
                        st,
                        fuel,
                        src_slot,
                        hoisted,
                        line,
                        properties,
                        i + 1,
                    );
                }
            },
        }
    }
}

pub(crate) proof fn pass_emit_default_check<'p>(
    floor: kept::Floor,
    st: CState<'p>,
    fuel: nat,
    right: &'p Expression,
    line: u32,
)
    ensures
        st.emit_default_check(fuel, right, line) matches Ok(e) ==> kept::onward(floor, st, e),
    decreases fuel, right, 6int,
{
    broadcast use {kept::group_steps, kept::group_parts};

    let st = st.op(OpCode::Dup, line);
    let st = st.op(OpCode::Undefined, line);
    let st = st.op(OpCode::StrictNe, line);
    let jump_idx = st.here();
    let st = st.op(OpCode::JumpIfTrue, line);
    let st = st.raw16(0);
    let st = st.op(OpCode::Pop, line);
    pass_compile_expr(floor, st, fuel, right);
}

pub(crate) proof fn pass_compile_bind_value_local<'p>(
    floor: kept::Floor,
    st: CState<'p>,
    fuel: nat,
    pat: &'p Pattern,
    hoisted: bool,
    line: u32,
)
    ensures
        st.compile_bind_value_local(fuel, pat, hoisted, line) matches Ok(e) ==> kept::onward(
            floor,
            st,
            e,
        ),
    decreases fuel, pat, 5int,
{
    broadcast use {kept::group_steps, kept::group_parts};

    match pat {
        Pattern::Array(inner) => {
            let st = st.op(OpCode::GetIterator, line);
            let (st, anon) = st.intern("__d__"@);
            let st = st.declare_local(anon);
            let slot = st.last_slot();
            pass_compile_bind_arr_elems_local(
                floor,
                st,
                fuel,
                &inner.elements,
                slot,
                hoisted,
                line,
            );
        },
        Pattern::Object(inner) => {
            let (st, anon) = st.intern("__d__"@);
            let st = st.declare_local(anon);
            let slot = st.last_slot();
            pass_compile_bind_obj_props_local(
                floor,
                st,
                fuel,
                &inner.properties,
                slot,
                hoisted,
                line,
            );
        },
        _ => {},
    }
}

pub(crate) proof fn pass_compile_bind_arr_elems_local<'p>(
    floor: kept::Floor,
    st: CState<'p>,
    fuel: nat,
    elements: &'p Vec<Option<Pattern>>,
    iter_slot: u8,
    hoisted: bool,
    line: u32,
)
    ensures
        st.compile_bind_arr_elems_local(
            fuel,
            elements,
            iter_slot,
            hoisted,
            line,
        ) matches Ok(e) ==> kept::onward(floor, st, e),
    decreases fuel, elements, elements@.len() as int + 1,
{
    broadcast use {kept::group_steps, kept::group_parts};

    let st = st.op(OpCode::False, line);
    let done_slot = st.next_slot();
    let (st, done_anon) = st.intern("__iter_done__"@);
    let st = st.declare_local(done_anon);
    pass_bind_elements_local(floor, st, fuel, iter_slot, done_slot, hoisted, line, elements, 0);
}

pub(crate) proof fn pass_bind_elements_local<'p>(
    floor: kept::Floor,
    st: CState<'p>,
    fuel: nat,
    iter_slot: u8,
    done_slot: u8,
    hoisted: bool,
    line: u32,
    elements: &'p Vec<Option<Pattern>>,
    i: int,
)
    ensures
        st.bind_elements_local(
            fuel,
            iter_slot,
            done_slot,
            hoisted,
            line,
            elements,
            i,
        ) matches Ok(e) ==> kept::onward(floor, st, e),
    decreases fuel, elements, elements@.len() - i,
{
    broadcast use {kept::group_steps, kept::group_parts};

    if 0 <= i < elements@.len() {
        let elem = &elements@[i];
        match elem {
            None => {
                let st = st.skip_from_slot(iter_slot, line);
                pass_bind_elements_local(
                    floor,
                    st,
                    fuel,
                    iter_slot,
                    done_slot,
                    hoisted,
                    line,
                    elements,
                    i + 1,
                );
            },
            Some(pat) => {
                match pat {
                    Pattern::Rest(rest) => {
                        let st = st.collect_from_slot(iter_slot, line);
                        pass_compile_bind_value_local(
                            floor,
                            st,
                            fuel,
                            &rest.argument,
                            hoisted,
                            line,
                        );
                        let st = st.compile_bind_value_local(
                            fuel,
                            &rest.argument,
                            hoisted,
                            line,
                        )->Ok_0;
                    },
                    Pattern::Assignment(a) => {
                        let st = st.next_from_slot(iter_slot, done_slot, line);
                        let st = st.name_default(&a.left, &a.right);
                        pass_emit_default_check(floor, st, fuel, &a.right, line);
                        let st = st.emit_default_check(fuel, &a.right, line)->Ok_0;
                        pass_compile_bind_value_local(floor, st, fuel, &a.left, hoisted, line);
                        let st = st.compile_bind_value_local(fuel, &a.left, hoisted, line)->Ok_0;
                        pass_bind_elements_local(
                            floor,
                            st,
                            fuel,
                            iter_slot,
                            done_slot,
                            hoisted,
                            line,
                            elements,
                            i + 1,
                        );
                    },
                    _ => {
                        let st = st.next_from_slot(iter_slot, done_slot, line);
                        pass_compile_bind_value_local(floor, st, fuel, pat, hoisted, line);
                        let st = st.compile_bind_value_local(fuel, pat, hoisted, line)->Ok_0;
                        pass_bind_elements_local(
                            floor,
                            st,
                            fuel,
                            iter_slot,
                            done_slot,
                            hoisted,
                            line,
                            elements,
                            i + 1,
                        );
                    },
                }
            },
        }
    }
}

pub(crate) proof fn pass_compile_bind_obj_props_global<'p>(
    floor: kept::Floor,
    st: CState<'p>,
    fuel: nat,
    properties: &'p Vec<ObjectPatternProperty>,
    line: u32,
)
    ensures
        st.compile_bind_obj_props_global(fuel, properties, line) matches Ok(e) ==> kept::onward(
            floor,
            st,
            e,
        ),
    decreases fuel, properties, properties@.len() as int + 1,
{
    broadcast use {kept::group_steps, kept::group_parts};

    let st = st.emit_object_check(line);
    let src_slot = st.next_slot();
    let (st, anon_src) = st.intern("__obj_src__"@);
    let st = st.declare_local(anon_src);
    pass_bind_properties_global(floor, st, fuel, src_slot, line, properties, 0);
}

pub(crate) proof fn pass_bind_properties_global<'p>(
    floor: kept::Floor,
    st: CState<'p>,
    fuel: nat,
    src_slot: u8,
    line: u32,
    properties: &'p Vec<ObjectPatternProperty>,
    i: int,
)
    ensures
        st.bind_properties_global(
            fuel,
            src_slot,
            line,
            properties,
            i,
        ) matches Ok(e) ==> kept::onward(floor, st, e),
    decreases fuel, properties, properties@.len() - i,
{
    broadcast use {kept::group_steps, kept::group_parts};

    if 0 <= i < properties@.len() {
        let prop = &properties@[i];
        match prop {
            ObjectPatternProperty::Property { key, value, .. } => {
                let st = st.op_u8(OpCode::GetLocal, src_slot, line);
                if let PropertyKey::Private(_) = key {
                    let st = st.op(OpCode::Pop, line);
                    pass_bind_properties_global(floor, st, fuel, src_slot, line, properties, i + 1);
                } else {
                    pass_compile_keyed_read(floor, st, fuel, key, false, line);
                    let st = st.compile_keyed_read(fuel, key, false, line)->Ok_0;
                    match value {
                        Pattern::Assignment(a) => {
                            let st = st.name_default(&a.left, &a.right);
                            pass_emit_default_check(floor, st, fuel, &a.right, line);
                            let st = st.emit_default_check(fuel, &a.right, line)->Ok_0;
                            pass_compile_bind_value_global(floor, st, fuel, &a.left, line);
                            let st = st.compile_bind_value_global(fuel, &a.left, line)->Ok_0;
                            pass_bind_properties_global(
                                floor,
                                st,
                                fuel,
                                src_slot,
                                line,
                                properties,
                                i + 1,
                            );
                        },
                        _ => {
                            pass_compile_bind_value_global(floor, st, fuel, value, line);
                            let st = st.compile_bind_value_global(fuel, value, line)->Ok_0;
                            pass_bind_properties_global(
                                floor,
                                st,
                                fuel,
                                src_slot,
                                line,
                                properties,
                                i + 1,
                            );
                        },
                    }
                }
            },
            ObjectPatternProperty::Rest(rest) => {
                if let Pattern::Identifier(id) = &rest.argument {
                    let excluded: Seq<StringId> = shape::excluded_names(properties@);
                    let st = st.op_u8(OpCode::GetLocal, src_slot, line);
                    pass_emit_object_rest(floor, st, excluded, excluded.len() as u8, line);
                    let st = st.emit_object_rest(excluded, excluded.len() as u8, line);
                    let st = st.op_name(OpCode::DefineGlobal, id.name, line);
                    pass_bind_properties_global(floor, st, fuel, src_slot, line, properties, i + 1);
                } else {
                    pass_bind_properties_global(floor, st, fuel, src_slot, line, properties, i + 1);
                }
            },
        }
    }
}

pub(crate) proof fn pass_compile_bind_value_global<'p>(
    floor: kept::Floor,
    st: CState<'p>,
    fuel: nat,
    pat: &'p Pattern,
    line: u32,
)
    ensures
        st.compile_bind_value_global(fuel, pat, line) matches Ok(e) ==> kept::onward(floor, st, e),
    decreases fuel, pat, 5int,
{
    broadcast use {kept::group_steps, kept::group_parts};

    match pat {
        Pattern::Array(inner) => {
            let st = st.op(OpCode::GetIterator, line);
            pass_compile_bind_arr_elems_global(floor, st, fuel, &inner.elements, line);
        },
        Pattern::Object(inner) => {
            pass_compile_bind_obj_props_global(floor, st, fuel, &inner.properties, line);
        },
        _ => {},
    }
}

pub(crate) proof fn pass_compile_bind_arr_elems_global<'p>(
    floor: kept::Floor,
    st: CState<'p>,
    fuel: nat,
    elements: &'p Vec<Option<Pattern>>,
    line: u32,
)
    ensures
        st.compile_bind_arr_elems_global(fuel, elements, line) matches Ok(e) ==> kept::onward(
            floor,
            st,
            e,
        ),
    decreases fuel, elements, elements@.len() as int + 1,
{
    broadcast use {kept::group_steps, kept::group_parts};

    let iter_slot = st.next_slot();
    let (st, anon) = st.intern("__iter_g__"@);
    let st = st.declare_local(anon);
    pass_bind_elements_global(floor, st, fuel, iter_slot, line, elements, 0);
}

pub(crate) proof fn pass_bind_elements_global<'p>(
    floor: kept::Floor,
    st: CState<'p>,
    fuel: nat,
    iter_slot: u8,
    line: u32,
    elements: &'p Vec<Option<Pattern>>,
    i: int,
)
    ensures
        st.bind_elements_global(fuel, iter_slot, line, elements, i) matches Ok(e) ==> kept::onward(
            floor,
            st,
            e,
        ),
    decreases fuel, elements, elements@.len() - i,
{
    broadcast use {kept::group_steps, kept::group_parts};

    if 0 <= i < elements@.len() {
        let elem = &elements@[i];
        match elem {
            None => {
                let st = st.skip_from_slot(iter_slot, line);
                pass_bind_elements_global(floor, st, fuel, iter_slot, line, elements, i + 1);
            },
            Some(pat) => {
                match pat {
                    Pattern::Rest(rest) => {
                        let st = st.collect_from_slot(iter_slot, line);
                        pass_compile_bind_value_global(floor, st, fuel, &rest.argument, line);
                        let st = st.compile_bind_value_global(fuel, &rest.argument, line)->Ok_0;
                    },
                    Pattern::Assignment(a) => {
                        let st = st.next_plain_from_slot(iter_slot, line);
                        let st = st.name_default(&a.left, &a.right);
                        pass_emit_default_check(floor, st, fuel, &a.right, line);
                        let st = st.emit_default_check(fuel, &a.right, line)->Ok_0;
                        pass_compile_bind_value_global(floor, st, fuel, &a.left, line);
                        let st = st.compile_bind_value_global(fuel, &a.left, line)->Ok_0;
                        pass_bind_elements_global(
                            floor,
                            st,
                            fuel,
                            iter_slot,
                            line,
                            elements,
                            i + 1,
                        );
                    },
                    _ => {
                        let st = st.next_plain_from_slot(iter_slot, line);
                        pass_compile_bind_value_global(floor, st, fuel, pat, line);
                        let st = st.compile_bind_value_global(fuel, pat, line)->Ok_0;
                        pass_bind_elements_global(
                            floor,
                            st,
                            fuel,
                            iter_slot,
                            line,
                            elements,
                            i + 1,
                        );
                    },
                }
            },
        }
    }
}

pub(crate) proof fn pass_declare_for_of_head<'p>(
    floor: kept::Floor,
    st: CState<'p>,
    left: &'p ForInOfLeft,
    line: u32,
)
    ensures
        kept::onward(floor, st, st.declare_for_of_head(left, line)),
{
    broadcast use {kept::group_steps, kept::group_parts};

    if let ForInOfLeft::Variable(decl) = left {
        let st = if decl.declarations.len() > 0 {
            let st = match &decl.declarations[0].id {
                Pattern::Identifier(id) => {
                    let st = if decl.kind == VarKind::Var {
                        let st = st.declare_loop_var(id.name, line);
                        st
                    } else {
                        st
                    };
                    st
                },
                Pattern::Array(_) => {
                    let names: Seq<StringId> = names::binding_names(decl.declarations[0].id);
                    pass_declare_loop_vars(floor, st, line, names, 0);
                    let st = st.declare_loop_vars(line, names, 0);
                    st
                },
                Pattern::Object(_) => {
                    let names: Seq<StringId> = names::binding_names(decl.declarations[0].id);
                    pass_declare_loop_vars(floor, st, line, names, 0);
                    let st = st.declare_loop_vars(line, names, 0);
                    st
                },
                _ => {
                    st
                },
            };
            st
        } else {
            st
        };
        if decl.kind != VarKind::Var {
            pass_reserve_head_names(floor, st, line, &decl.declarations, 0);
        }
    }
}

pub(crate) proof fn pass_declare_loop_vars<'p>(
    floor: kept::Floor,
    st: CState<'p>,
    line: u32,
    names: Seq<StringId>,
    i: int,
)
    ensures
        kept::onward(floor, st, st.declare_loop_vars(line, names, i)),
    decreases names.len() - i,
{
    broadcast use {kept::group_steps, kept::group_parts};

    if 0 <= i < names.len() {
        let name = names[i];
        let st = st.declare_loop_var(name, line);
        pass_declare_loop_vars(floor, st, line, names, i + 1);
    }
}

pub(crate) proof fn pass_reserve_head_names<'p>(
    floor: kept::Floor,
    st: CState<'p>,
    line: u32,
    declarations: &'p Vec<VariableDeclarator>,
    i: int,
)
    ensures
        kept::onward(floor, st, st.reserve_head_names(line, declarations, i)),
    decreases declarations@.len() - i,
{
    broadcast use {kept::group_steps, kept::group_parts};

    if 0 <= i < declarations@.len() {
        let d = &declarations@[i];
        if let Pattern::Identifier(id) = &d.id {
            let st = st.op(OpCode::PushEmpty, line);
            let st = st.declare_local(id.name);
            pass_reserve_head_names(floor, st, line, declarations, i + 1);
        } else {
            pass_reserve_head_names(floor, st, line, declarations, i + 1);
        }
    }
}

pub(crate) proof fn pass_bind_for_of_value<'p>(
    floor: kept::Floor,
    st: CState<'p>,
    fuel: nat,
    left: &'p ForInOfLeft,
    line: u32,
)
    ensures
        st.bind_for_of_value(fuel, left, line) matches Ok(e) ==> kept::onward(floor, st, e),
    decreases fuel, left, 6int,
{
    broadcast use {kept::group_steps, kept::group_parts};

    match left {
        ForInOfLeft::Variable(decl) => {
            pass_bind_for_of_decl(floor, st, fuel, decl, line);
        },
        ForInOfLeft::Pattern(p) => {
            match p {
                Pattern::Identifier(_) => {
                    pass_compile_assign_pat(floor, st, fuel, p, line);
                },
                Pattern::Array(_) => {
                    pass_compile_assign_pat(floor, st, fuel, p, line);
                },
                Pattern::Object(_) => {
                    pass_compile_assign_pat(floor, st, fuel, p, line);
                },
                _ => {},
            }
        },
        ForInOfLeft::Expression(e) => {
            match e {
                Expression::Identifier(_) => {
                    pass_compile_assign_expr(floor, st, fuel, e, line);
                },
                Expression::Array(_) => {
                    pass_compile_assign_expr(floor, st, fuel, e, line);
                },
                Expression::Object(obj) => {
                    let st = st.emit_nullish_check(line);
                    let has_rest: bool = shape::any_object_spread(obj.properties@);
                    pass_assign_head_properties(
                        floor,
                        st,
                        fuel,
                        has_rest,
                        line,
                        &obj.properties,
                        0,
                    );
                },
                Expression::Member(m) => {
                    pass_compile_expr(floor, st, fuel, &m.object);
                    let st = st.compile_expr(fuel, &m.object)->Ok_0;
                    let st = st.op(OpCode::Swap, line);
                    pass_store_head_member(floor, st, fuel, &m.property, line);
                },
                _ => {},
            }
        },
    }
}

pub(crate) proof fn pass_bind_for_of_decl<'p>(
    floor: kept::Floor,
    st: CState<'p>,
    fuel: nat,
    decl: &'p VariableDeclaration,
    line: u32,
)
    ensures
        st.bind_for_of_decl(fuel, decl, line) matches Ok(e) ==> kept::onward(floor, st, e),
    decreases fuel, decl, 0int,
{
    broadcast use {kept::group_steps, kept::group_parts};

    if decl.declarations.len() == 0 {
    } else {
        pass_bind_for_of_declarator(floor, st, fuel, decl.kind, line, &decl.declarations, 0);
    }
}

pub(crate) proof fn pass_bind_for_of_declarator<'p>(
    floor: kept::Floor,
    st: CState<'p>,
    fuel: nat,
    kind: VarKind,
    line: u32,
    declarations: &'p Vec<VariableDeclarator>,
    i: int,
)
    ensures
        st.bind_for_of_declarator(fuel, kind, line, declarations, i) matches Ok(e) ==> kept::onward(
            floor,
            st,
            e,
        ),
    decreases fuel, declarations, declarations@.len() - i,
{
    broadcast use {kept::group_steps, kept::group_parts};

    if 0 <= i < declarations@.len() {
        let d = &declarations@[i];
        if i == 0 {
            match &d.id {
                Pattern::Identifier(id) => {
                    if kind == VarKind::Var {
                        let st = st.compile_set_variable(id.name, line);
                        let st = st.op(OpCode::Pop, line);
                        pass_bind_for_of_declarator(
                            floor,
                            st,
                            fuel,
                            kind,
                            line,
                            declarations,
                            i + 1,
                        );
                    } else {
                        let st = st.begin_scope();
                        let st = st.declare_local(id.name);
                        if kind == VarKind::Const {
                            let last = st.last_index();
                            let st = st.set_const(last);
                            pass_bind_for_of_declarator(
                                floor,
                                st,
                                fuel,
                                kind,
                                line,
                                declarations,
                                i + 1,
                            );
                        } else {
                            pass_bind_for_of_declarator(
                                floor,
                                st,
                                fuel,
                                kind,
                                line,
                                declarations,
                                i + 1,
                            );
                        }
                    }
                },
                Pattern::Array(_) => {
                    pass_compile_assign_pat(floor, st, fuel, &d.id, line);
                    let st = st.compile_assign_pat(fuel, &d.id, line)->Ok_0;
                    pass_bind_for_of_declarator(floor, st, fuel, kind, line, declarations, i + 1);
                },
                Pattern::Object(_) => {
                    pass_compile_assign_pat(floor, st, fuel, &d.id, line);
                    let st = st.compile_assign_pat(fuel, &d.id, line)->Ok_0;
                    pass_bind_for_of_declarator(floor, st, fuel, kind, line, declarations, i + 1);
                },
                _ => {
                    let st = st.op(OpCode::Pop, line);
                    pass_bind_for_of_declarator(floor, st, fuel, kind, line, declarations, i + 1);
                },
            }
        } else {
            pass_bind_for_of_declarator(floor, st, fuel, kind, line, declarations, i + 1);
        }
    }
}

pub(crate) proof fn pass_compile_assign_pat<'p>(
    floor: kept::Floor,
    st: CState<'p>,
    fuel: nat,
    pat: &'p Pattern,
    line: u32,
)
    ensures
        st.compile_assign_pat(fuel, pat, line) matches Ok(e) ==> kept::onward(floor, st, e),
    decreases fuel, pat, 5int,
{
    broadcast use {kept::group_steps, kept::group_parts};

    match pat {
        Pattern::Array(inner) => {
            let st = st.op(OpCode::GetIterator, line);
            pass_assign_pat_elements(floor, st, fuel, line, &inner.elements, 0);
        },
        Pattern::Object(inner) => {
            let st = st.emit_nullish_check(line);
            let has_rest: bool = shape::object_rest(inner.properties@);
            pass_assign_pat_properties(floor, st, fuel, has_rest, line, &inner.properties, 0);
        },
        Pattern::Assignment(a) => {
            pass_emit_default_check(floor, st, fuel, &a.right, line);
            let st = st.emit_default_check(fuel, &a.right, line)->Ok_0;
            pass_compile_assign_pat(floor, st, fuel, &a.left, line);
        },
        Pattern::Member(m) => {
            pass_compile_expr(floor, st, fuel, &m.object);
            let st = st.compile_expr(fuel, &m.object)->Ok_0;
            let st = st.op(OpCode::Swap, line);
            pass_store_swapped_member(floor, st, fuel, &m.property, line);
        },
        _ => {},
    }
}

pub(crate) proof fn pass_assign_pat_elements<'p>(
    floor: kept::Floor,
    st: CState<'p>,
    fuel: nat,
    line: u32,
    elements: &'p Vec<Option<Pattern>>,
    i: int,
)
    ensures
        st.assign_pat_elements(fuel, line, elements, i) matches Ok(e) ==> kept::onward(
            floor,
            st,
            e,
        ),
    decreases fuel, elements, elements@.len() - i,
{
    broadcast use {kept::group_steps, kept::group_parts};

    if 0 <= i < elements@.len() {
        let elem = &elements@[i];
        match elem {
            None => {
                let st = st.op(OpCode::Dup, line);
                let st = st.op(OpCode::IteratorNext, line);
                let st = st.op(OpCode::Pop, line);
                pass_assign_pat_elements(floor, st, fuel, line, elements, i + 1);
            },
            Some(pat) => {
                match pat {
                    Pattern::Rest(rest) => {
                        let st = st.collect_iterated(line);
                        pass_compile_assign_pat(floor, st, fuel, &rest.argument, line);
                        let st = st.compile_assign_pat(fuel, &rest.argument, line)->Ok_0;
                    },
                    Pattern::Assignment(a) => {
                        let st = st.next_on_stack(line);
                        let st = st.name_default(&a.left, &a.right);
                        pass_emit_default_check(floor, st, fuel, &a.right, line);
                        let st = st.emit_default_check(fuel, &a.right, line)->Ok_0;
                        pass_compile_assign_pat(floor, st, fuel, &a.left, line);
                        let st = st.compile_assign_pat(fuel, &a.left, line)->Ok_0;
                        pass_assign_pat_elements(floor, st, fuel, line, elements, i + 1);
                    },
                    _ => {
                        let st = st.next_on_stack(line);
                        pass_compile_assign_pat(floor, st, fuel, pat, line);
                        let st = st.compile_assign_pat(fuel, pat, line)->Ok_0;
                        pass_assign_pat_elements(floor, st, fuel, line, elements, i + 1);
                    },
                }
            },
        }
    }
}

pub(crate) proof fn pass_assign_pat_properties<'p>(
    floor: kept::Floor,
    st: CState<'p>,
    fuel: nat,
    has_rest: bool,
    line: u32,
    properties: &'p Vec<ObjectPatternProperty>,
    i: int,
)
    ensures
        st.assign_pat_properties(
            fuel,
            has_rest,
            line,
            properties,
            i,
        ) matches Ok(e) ==> kept::onward(
            floor,
            st,
            e,
        ),
    decreases fuel, properties, properties@.len() - i,
{
    broadcast use {kept::group_steps, kept::group_parts};

    if 0 <= i < properties@.len() {
        let prop = &properties@[i];
        match prop {
            ObjectPatternProperty::Property { key, value, .. } => {
                let st = st.op(OpCode::Dup, line);
                if let PropertyKey::Private(_) = key {
                    let st = st.op(OpCode::Pop, line);
                    pass_assign_pat_properties(floor, st, fuel, has_rest, line, properties, i + 1);
                } else {
                    pass_compile_keyed_read(floor, st, fuel, key, has_rest, line);
                    let st = st.compile_keyed_read(fuel, key, has_rest, line)->Ok_0;
                    match value {
                        Pattern::Assignment(a) => {
                            let st = st.name_default(&a.left, &a.right);
                            pass_emit_default_check(floor, st, fuel, &a.right, line);
                            let st = st.emit_default_check(fuel, &a.right, line)->Ok_0;
                            pass_compile_assign_pat(floor, st, fuel, &a.left, line);
                            let st = st.compile_assign_pat(fuel, &a.left, line)->Ok_0;
                            pass_assign_pat_properties(
                                floor,
                                st,
                                fuel,
                                has_rest,
                                line,
                                properties,
                                i + 1,
                            );
                        },
                        _ => {
                            pass_compile_assign_pat(floor, st, fuel, value, line);
                            let st = st.compile_assign_pat(fuel, value, line)->Ok_0;
                            pass_assign_pat_properties(
                                floor,
                                st,
                                fuel,
                                has_rest,
                                line,
                                properties,
                                i + 1,
                            );
                        },
                    }
                }
            },
            ObjectPatternProperty::Rest(rest) => {
                let excluded: Seq<StringId> = shape::excluded_names(properties@);
                let st = st.op(OpCode::Dup, line);
                pass_emit_object_rest(floor, st, excluded, shape::clamped(excluded), line);
                let st = st.emit_object_rest(excluded, shape::clamped(excluded), line);
                pass_compile_assign_pat(floor, st, fuel, &rest.argument, line);
                let st = st.compile_assign_pat(fuel, &rest.argument, line)->Ok_0;
                pass_assign_pat_properties(floor, st, fuel, has_rest, line, properties, i + 1);
            },
        }
    }
}

pub(crate) proof fn pass_store_swapped_member<'p>(
    floor: kept::Floor,
    st: CState<'p>,
    fuel: nat,
    property: &'p MemberProperty,
    line: u32,
)
    ensures
        st.store_swapped_member(fuel, property, line) matches Ok(e) ==> kept::onward(floor, st, e),
    decreases fuel, property, 0int,
{
    broadcast use {kept::group_steps, kept::group_parts};

    match property {
        MemberProperty::Expression(key) => {
            pass_compile_expr(floor, st, fuel, key);
        },
        _ => {},
    }
}

pub(crate) proof fn pass_compile_assign_expr<'p>(
    floor: kept::Floor,
    st: CState<'p>,
    fuel: nat,
    expr: &'p Expression,
    line: u32,
)
    ensures
        st.compile_assign_expr(fuel, expr, line) matches Ok(e) ==> kept::onward(floor, st, e),
    decreases fuel, expr, 6int,
{
    broadcast use {kept::group_steps, kept::group_parts};

    match expr {
        Expression::Array(arr) => {
            let st = st.op(OpCode::GetIterator, line);
            pass_assign_expr_elements(floor, st, fuel, line, &arr.elements, 0);
        },
        Expression::Object(obj) => {
            let st = st.emit_nullish_check(line);
            let has_rest: bool = shape::object_spread(obj.properties@);
            pass_assign_expr_properties(floor, st, fuel, has_rest, line, &obj.properties, 0);
        },
        Expression::Member(m) => {
            pass_compile_expr(floor, st, fuel, &m.object);
            let st = st.compile_expr(fuel, &m.object)->Ok_0;
            let st = st.op(OpCode::Swap, line);
            pass_store_swapped_member(floor, st, fuel, &m.property, line);
        },
        Expression::Assignment(a) => {
            pass_emit_default_check(floor, st, fuel, &a.right, line);
            let st = st.emit_default_check(fuel, &a.right, line)->Ok_0;
            pass_compile_assign_target(floor, st, fuel, &a.left, line);
        },
        _ => {},
    }
}

pub(crate) proof fn pass_assign_expr_elements<'p>(
    floor: kept::Floor,
    st: CState<'p>,
    fuel: nat,
    line: u32,
    elements: &'p Vec<Option<Expression>>,
    i: int,
)
    ensures
        st.assign_expr_elements(fuel, line, elements, i) matches Ok(e) ==> kept::onward(
            floor,
            st,
            e,
        ),
    decreases fuel, elements, elements@.len() - i,
{
    broadcast use {kept::group_steps, kept::group_parts};

    if 0 <= i < elements@.len() {
        let elem = &elements@[i];
        match elem {
            None => {
                let st = st.op(OpCode::Dup, line);
                let st = st.op(OpCode::IteratorNext, line);
                let st = st.op(OpCode::Pop, line);
                pass_assign_expr_elements(floor, st, fuel, line, elements, i + 1);
            },
            Some(e) => {
                match e {
                    Expression::Spread(s) => {
                        if shape::pattern_expr(s.argument) {
                            let st = st.collect_iterated(line);
                            pass_compile_assign_expr(floor, st, fuel, &s.argument, line);
                            let st = st.compile_assign_expr(fuel, &s.argument, line)->Ok_0;
                        } else {
                            let st = st.op(OpCode::Dup, line);
                            let st = st.op(OpCode::IteratorNext, line);
                            let st = st.op(OpCode::Pop, line);
                            pass_assign_expr_elements(floor, st, fuel, line, elements, i + 1);
                        }
                    },
                    Expression::Assignment(a) => {
                        let st = st.next_on_stack(line);
                        let st = st.name_target_default(&a.left, &a.right);
                        pass_emit_default_check(floor, st, fuel, &a.right, line);
                        let st = st.emit_default_check(fuel, &a.right, line)->Ok_0;
                        pass_compile_assign_target(floor, st, fuel, &a.left, line);
                        let st = st.compile_assign_target(fuel, &a.left, line)->Ok_0;
                        pass_assign_expr_elements(floor, st, fuel, line, elements, i + 1);
                    },
                    _ => {
                        if shape::pattern_expr(*e) {
                            let st = st.next_on_stack(line);
                            pass_compile_assign_expr(floor, st, fuel, e, line);
                            let st = st.compile_assign_expr(fuel, e, line)->Ok_0;
                            pass_assign_expr_elements(floor, st, fuel, line, elements, i + 1);
                        } else {
                            let st = st.op(OpCode::Dup, line);
                            let st = st.op(OpCode::IteratorNext, line);
                            let st = st.op(OpCode::Pop, line);
                            pass_assign_expr_elements(floor, st, fuel, line, elements, i + 1);
                        }
                    },
                }
            },
        }
    }
}

pub(crate) proof fn pass_compile_assign_target<'p>(
    floor: kept::Floor,
    st: CState<'p>,
    fuel: nat,
    target: &'p AssignmentTarget,
    line: u32,
)
    ensures
        st.compile_assign_target(fuel, target, line) matches Ok(e) ==> kept::onward(floor, st, e),
    decreases fuel, target, 6int,
{
    broadcast use {kept::group_steps, kept::group_parts};

    match target {
        AssignmentTarget::Identifier(id) => {},
        AssignmentTarget::Member(m) => {
            pass_compile_expr(floor, st, fuel, &m.object);
            let st = st.compile_expr(fuel, &m.object)->Ok_0;
            let st = st.op(OpCode::Swap, line);
            pass_store_swapped_member(floor, st, fuel, &m.property, line);
        },
        AssignmentTarget::Pattern(p) => {
            pass_compile_assign_pat(floor, st, fuel, p, line);
        },
    }
}

pub(crate) proof fn pass_assign_expr_properties<'p>(
    floor: kept::Floor,
    st: CState<'p>,
    fuel: nat,
    has_rest: bool,
    line: u32,
    properties: &'p Vec<ObjectProperty>,
    i: int,
)
    ensures
        st.assign_expr_properties(
            fuel,
            has_rest,
            line,
            properties,
            i,
        ) matches Ok(e) ==> kept::onward(floor, st, e),
    decreases fuel, properties, properties@.len() - i,
{
    broadcast use {kept::group_steps, kept::group_parts};

    if 0 <= i < properties@.len() {
        let prop = &properties@[i];
        match prop {
            ObjectProperty::Property(p) => {
                let st = st.op(OpCode::Dup, line);
                if let PropertyKey::Private(_) = &p.key {
                    let st = st.op(OpCode::Pop, line);
                    pass_assign_expr_properties(floor, st, fuel, has_rest, line, properties, i + 1);
                } else {
                    pass_compile_keyed_read(floor, st, fuel, &p.key, has_rest, line);
                    let st = st.compile_keyed_read(fuel, &p.key, has_rest, line)->Ok_0;
                    match &p.value {
                        Expression::Assignment(a) => {
                            let st = st.name_target_default(&a.left, &a.right);
                            pass_emit_default_check(floor, st, fuel, &a.right, line);
                            let st = st.emit_default_check(fuel, &a.right, line)->Ok_0;
                            pass_compile_assign_target(floor, st, fuel, &a.left, line);
                            let st = st.compile_assign_target(fuel, &a.left, line)->Ok_0;
                            pass_assign_expr_properties(
                                floor,
                                st,
                                fuel,
                                has_rest,
                                line,
                                properties,
                                i + 1,
                            );
                        },
                        _ => {
                            if shape::pattern_expr(p.value) {
                                pass_compile_assign_expr(floor, st, fuel, &p.value, line);
                                let st = st.compile_assign_expr(fuel, &p.value, line)->Ok_0;
                                pass_assign_expr_properties(
                                    floor,
                                    st,
                                    fuel,
                                    has_rest,
                                    line,
                                    properties,
                                    i + 1,
                                );
                            } else {
                                let st = st.compile_set_variable(StringId(0), line);
                                let st = st.op(OpCode::Pop, line);
                                pass_assign_expr_properties(
                                    floor,
                                    st,
                                    fuel,
                                    has_rest,
                                    line,
                                    properties,
                                    i + 1,
                                );
                            }
                        },
                    }
                }
            },
            ObjectProperty::SpreadElement(s) => {
                if shape::pattern_expr(s.argument) {
                    let excluded: Seq<StringId> = shape::excluded_keys(properties@);
                    let st = st.op(OpCode::Dup, line);
                    pass_emit_object_rest(floor, st, excluded, shape::clamped(excluded), line);
                    let st = st.emit_object_rest(excluded, shape::clamped(excluded), line);
                    pass_compile_assign_expr(floor, st, fuel, &s.argument, line);
                    let st = st.compile_assign_expr(fuel, &s.argument, line)->Ok_0;
                    pass_assign_expr_properties(floor, st, fuel, has_rest, line, properties, i + 1);
                } else {
                    pass_assign_expr_properties(floor, st, fuel, has_rest, line, properties, i + 1);
                }
            },
        }
    }
}

pub(crate) proof fn pass_assign_head_properties<'p>(
    floor: kept::Floor,
    st: CState<'p>,
    fuel: nat,
    has_rest: bool,
    line: u32,
    properties: &'p Vec<ObjectProperty>,
    i: int,
)
    ensures
        st.assign_head_properties(
            fuel,
            has_rest,
            line,
            properties,
            i,
        ) matches Ok(e) ==> kept::onward(floor, st, e),
    decreases fuel, properties, properties@.len() - i,
{
    broadcast use {kept::group_steps, kept::group_parts};

    if 0 <= i < properties@.len() {
        let prop = &properties@[i];
        match prop {
            ObjectProperty::Property(p) => {
                if !shape::pattern_expr(p.value) {
                    pass_assign_head_properties(floor, st, fuel, has_rest, line, properties, i + 1);
                } else {
                    let st = st.op(OpCode::Dup, line);
                    if let PropertyKey::Private(_) = &p.key {
                        let st = st.op(OpCode::Pop, line);
                        pass_assign_head_properties(
                            floor,
                            st,
                            fuel,
                            has_rest,
                            line,
                            properties,
                            i + 1,
                        );
                    } else {
                        pass_compile_keyed_read(floor, st, fuel, &p.key, has_rest, line);
                        let st = st.compile_keyed_read(fuel, &p.key, has_rest, line)->Ok_0;
                        match &p.value {
                            Expression::Assignment(a) => {
                                let st = match &a.left {
                                    AssignmentTarget::Identifier(id) => {
                                        let st = if shape::anonymous_fn(a.right) {
                                            let st = st.set_pending_name(id.name);
                                            st
                                        } else {
                                            st
                                        };
                                        st
                                    },
                                    _ => {
                                        st
                                    },
                                };
                                pass_emit_default_check(floor, st, fuel, &a.right, line);
                                let st = st.emit_default_check(fuel, &a.right, line)->Ok_0;
                                pass_compile_assign_target(floor, st, fuel, &a.left, line);
                                let st = st.compile_assign_target(fuel, &a.left, line)->Ok_0;
                                pass_assign_head_properties(
                                    floor,
                                    st,
                                    fuel,
                                    has_rest,
                                    line,
                                    properties,
                                    i + 1,
                                );
                            },
                            _ => {
                                pass_compile_assign_expr(floor, st, fuel, &p.value, line);
                                let st = st.compile_assign_expr(fuel, &p.value, line)->Ok_0;
                                pass_assign_head_properties(
                                    floor,
                                    st,
                                    fuel,
                                    has_rest,
                                    line,
                                    properties,
                                    i + 1,
                                );
                            },
                        }
                    }
                }
            },
            ObjectProperty::SpreadElement(s) => {
                let excluded: Seq<StringId> = shape::excluded_keys(properties@);
                let st = st.op(OpCode::Dup, line);
                pass_emit_object_rest(floor, st, excluded, shape::clamped(excluded), line);
                let st = st.emit_object_rest(excluded, shape::clamped(excluded), line);
                match &s.argument {
                    Expression::Identifier(id) => {
                        let st = st.compile_set_variable(id.name, line);
                        let st = st.op(OpCode::Pop, line);
                        pass_assign_head_properties(
                            floor,
                            st,
                            fuel,
                            has_rest,
                            line,
                            properties,
                            i + 1,
                        );
                    },
                    Expression::Member(m) => {
                        pass_compile_expr(floor, st, fuel, &m.object);
                        let st = st.compile_expr(fuel, &m.object)->Ok_0;
                        let st = st.op(OpCode::Swap, line);
                        let st = match &m.property {
                            MemberProperty::PrivateIdentifier(_) => {
                                let st = st.op(OpCode::Pop, line);
                                st
                            },
                            _ => {
                                pass_store_head_member(floor, st, fuel, &m.property, line);
                                let st = st.store_head_member(fuel, &m.property, line)->Ok_0;
                                st
                            },
                        };
                        let st = st.op(OpCode::Pop, line);
                        pass_assign_head_properties(
                            floor,
                            st,
                            fuel,
                            has_rest,
                            line,
                            properties,
                            i + 1,
                        );
                    },
                    _ => {
                        let st = st.op(OpCode::Pop, line);
                        pass_assign_head_properties(
                            floor,
                            st,
                            fuel,
                            has_rest,
                            line,
                            properties,
                            i + 1,
                        );
                    },
                }
            },
        }
    }
}

pub(crate) proof fn pass_store_head_member<'p>(
    floor: kept::Floor,
    st: CState<'p>,
    fuel: nat,
    property: &'p MemberProperty,
    line: u32,
)
    ensures
        st.store_head_member(fuel, property, line) matches Ok(e) ==> kept::onward(floor, st, e),
    decreases fuel, property, 0int,
{
    broadcast use {kept::group_steps, kept::group_parts};

    match property {
        MemberProperty::Expression(key) => {
            pass_compile_expr(floor, st, fuel, key);
        },
        _ => {},
    }
}

pub(crate) proof fn pass_compile_case_tests<'p>(
    floor: kept::Floor,
    st: CState<'p>,
    fuel: nat,
    line: u32,
    cases: &'p Vec<SwitchCase>,
    i: int,
)
    ensures
        st.compile_case_tests(fuel, line, cases, i) matches Ok(e) ==> kept::gathered(
            floor,
            st,
            e,
        ) && e.loops == st.loops,
    decreases fuel, cases, cases@.len() - i,
{
    broadcast use {kept::group_steps, kept::group_parts};

    if 0 <= i < cases@.len() {
        let case = &cases@[i];
        if let Some(test) = &case.test {
            let st = st.op(OpCode::Dup, line);
            pass_compile_expr(floor, st, fuel, test);
            let st = st.compile_expr(fuel, test)->Ok_0;
            let st = st.op(OpCode::StrictEq, line);
            let (st, jump) = st.jump(OpCode::JumpIfTrue, line);
            let st = st.push_mark(jump);
            pass_compile_case_tests(floor, st, fuel, line, cases, i + 1);
        } else {
            pass_compile_case_tests(floor, st, fuel, line, cases, i + 1);
        }
    }
}

pub(crate) proof fn pass_aim_cases<'p>(
    floor: kept::Floor,
    st: CState<'p>,
    base: usize,
    starts: usize,
    cases: &'p Vec<SwitchCase>,
    i: int,
)
    ensures
        kept::onward_if(base >= floor.marks, floor, st, st.aim_cases(base, starts, cases, i)),
    decreases cases@.len() - i,
{
    broadcast use {kept::group_steps, kept::group_parts};

    if 0 <= i < cases@.len() {
        let case = &cases@[i];
        if case.test.is_some() {
            let jump_pos = st.mark_at(
                base.saturating_add((shape::tested_cases(cases@, i as nat) as usize)),
            );
            let target = st.mark_at(starts.saturating_add(i as usize));
            let st = st.aim(jump_pos, target);
            pass_aim_cases(floor, st, base, starts, cases, i + 1);
        } else {
            pass_aim_cases(floor, st, base, starts, cases, i + 1);
        }
    }
}

pub(crate) proof fn pass_compile_function_decl<'p>(
    floor: kept::Floor,
    st: CState<'p>,
    fuel: nat,
    f: &'p FunctionDeclaration,
)
    ensures
        st.compile_function_decl(fuel, f) matches Ok(e) ==> kept::onward(floor, st, e),
    decreases fuel, f, 0int,
{
    broadcast use {kept::group_steps, kept::group_parts};

    let line: u32 = f.span.start;
    let (st, name) = st.declared_name(f.id);
    if st.depth() == 0 {
        pass_compile_function_body(
            floor,
            st,
            fuel,
            name,
            &f.params,
            &f.body,
            f.is_async,
            f.is_generator,
        );
    } else {
        let (st, slot) = st.reserve_local(name, line);
        pass_compile_function_body(
            floor,
            st,
            fuel,
            name,
            &f.params,
            &f.body,
            f.is_async,
            f.is_generator,
        );
    }
}

pub(crate) proof fn pass_compile_class_decl<'p>(
    floor: kept::Floor,
    st: CState<'p>,
    fuel: nat,
    c: &'p ClassDeclaration,
)
    ensures
        st.compile_class_decl(fuel, c) matches Ok(e) ==> kept::onward(floor, st, e),
    decreases fuel, c, 0int,
{
    broadcast use {kept::group_steps, kept::group_parts};

    let line: u32 = c.span.start;
    let (st, name) = st.declared_name(c.id);
    let st = st.op_name(OpCode::Class, name, line);
    pass_compile_heritage(floor, st, fuel, &c.super_class, line);
    let st = st.compile_heritage(fuel, &c.super_class, line)->Ok_0;
    pass_compile_class_body(floor, st, fuel, &c.body, line);
}

pub(crate) proof fn pass_compile_import<'p>(
    floor: kept::Floor,
    st: CState<'p>,
    i: &'p ImportDeclaration,
)
    ensures
        kept::onward(floor, st, st.compile_import(i)),
{
    broadcast use {kept::group_steps, kept::group_parts};

    match i {
        ImportDeclaration::Standard { specifiers, source, span } => {
            let st = st.op_name(OpCode::ImportModule, *source, span.start);
            pass_bind_imports(floor, st, span.start, specifiers, 0);
        },
    }
}

pub(crate) proof fn pass_bind_imports<'p>(
    floor: kept::Floor,
    st: CState<'p>,
    line: u32,
    specifiers: &'p Vec<ImportSpecifier>,
    i: int,
)
    ensures
        kept::onward(floor, st, st.bind_imports(line, specifiers, i)),
    decreases specifiers@.len() - i,
{
    broadcast use {kept::group_steps, kept::group_parts};

    if 0 <= i < specifiers@.len() {
        let spec = &specifiers@[i];
        let st = st.op(OpCode::Dup, line);
        match spec {
            ImportSpecifier::Default { local, .. } => {
                let (st, key) = st.intern("default"@);
                let (st, idx) = st.make_string_constant(key);
                let st = st.emit_get_property(idx, line);
                let st = st.op_name(OpCode::DefineGlobal, *local, line);
                pass_bind_imports(floor, st, line, specifiers, i + 1);
            },
            ImportSpecifier::Named { imported, local, .. } => {
                let (st, idx) = st.make_string_constant(*imported);
                let st = st.emit_get_property(idx, line);
                let st = st.op_name(OpCode::DefineGlobal, *local, line);
                pass_bind_imports(floor, st, line, specifiers, i + 1);
            },
            ImportSpecifier::Namespace { local, .. } => {
                let st = st.op_name(OpCode::DefineGlobal, *local, line);
                pass_bind_imports(floor, st, line, specifiers, i + 1);
            },
        }
    }
}

pub(crate) proof fn pass_export_declared<'p>(
    floor: kept::Floor,
    st: CState<'p>,
    line: u32,
    names: Seq<StringId>,
    i: int,
)
    ensures
        kept::onward(floor, st, st.export_declared(line, names, i)),
    decreases names.len() - i,
{
    broadcast use {kept::group_steps, kept::group_parts};

    if 0 <= i < names.len() {
        let name = names[i];
        let (st, exports_key) = st.intern("__exports__"@);
        let st = st.op_name(OpCode::GetGlobal, exports_key, line);
        let (st, name_idx) = st.make_string_constant(name);
        let st = st.op_u16(OpCode::GetGlobal, name_idx, line);
        let st = st.op(OpCode::Swap, line);
        let st = st.op(OpCode::Swap, line);
        let st = st.emit_set_property(name_idx, line);
        let st = st.op(OpCode::Pop, line);
        pass_export_declared(floor, st, line, names, i + 1);
    }
}

pub(crate) proof fn pass_export_specifiers<'p>(
    floor: kept::Floor,
    st: CState<'p>,
    line: u32,
    specifiers: &'p Vec<ExportSpecifier>,
    i: int,
)
    ensures
        kept::onward(floor, st, st.export_specifiers(line, specifiers, i)),
    decreases specifiers@.len() - i,
{
    broadcast use {kept::group_steps, kept::group_parts};

    if 0 <= i < specifiers@.len() {
        let spec = &specifiers@[i];
        let (st, exports_key) = st.intern("__exports__"@);
        let st = st.op_name(OpCode::GetGlobal, exports_key, line);
        let st = st.op_name(OpCode::GetGlobal, spec.local, line);
        let (st, exported_idx) = st.make_string_constant(spec.exported);
        let st = st.op(OpCode::Swap, line);
        let st = st.emit_set_property(exported_idx, line);
        let st = st.op(OpCode::Pop, line);
        pass_export_specifiers(floor, st, line, specifiers, i + 1);
    }
}

pub(crate) proof fn lemma_aim_len<'p>(
    st: CState<'p>,
    base: usize,
    starts: usize,
    cases: &'p Vec<SwitchCase>,
    i: int,
)
    ensures
        st.aim_cases(base, starts, cases, i).chunk.code.len() == st.chunk.code.len(),
    decreases cases@.len() - i,
{
    if 0 <= i < cases@.len() {
        reveal(CState::aim);
        if cases@[i].test is Some {
            let jump_pos = st.mark_at(
                base.saturating_add((shape::tested_cases(cases@, i as nat) as usize)),
            );
            let target = st.mark_at(starts.saturating_add(i as usize));
            lemma_aim_len(st.aim(jump_pos, target), base, starts, cases, i + 1);
        } else {
            lemma_aim_len(st, base, starts, cases, i + 1);
        }
    }
}

} // verus!
