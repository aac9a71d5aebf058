//! What the code of operations and of updates of fields computes.

use vstd::prelude::*;
use vstd::arithmetic::power;
use vstd::arithmetic::power2;
use crate::ast::node::{
    AssignmentOperator, BinaryExpression, BinaryOperator, Expression, MemberExpression,
    MemberProperty, UnaryExpression, UnaryOperator, UpdateExpression, UpdateOperator,
};
use crate::compiler::chunk;
use crate::compiler::chunk::ChunkView;
use crate::compiler::compiler::state::CState;
use crate::compiler::control;
use crate::compiler::execution;
use crate::compiler::execution::{Datum, Run};
use crate::compiler::kept;
use crate::compiler::opcode::OpCode;
use crate::compiler::shape;
use crate::compiler::variables;
use crate::parser::precedence;
use crate::parser::precedence::Combined;
use crate::runtime::value::Value;
use crate::util::interner::StringId;

verus! {

/// What a binary operator of the language gives for two numbers.
pub open spec fn of_numbers(operator: BinaryOperator, a: int, b: int) -> Option<Datum> {
    let fits = execution::small(a) && execution::small(b);
    let shift = power2::pow2(b as nat) as int;
    match operator {
        BinaryOperator::Add => Some(Datum::Number(a + b)),
        BinaryOperator::Sub => Some(Datum::Number(a - b)),
        BinaryOperator::Mul => Some(Datum::Number(a * b)),
        BinaryOperator::Div if b != 0 && a % b == 0 => Some(Datum::Number(a / b)),
        BinaryOperator::Rem if a >= 0 && b > 0 => Some(Datum::Number(a % b)),
        BinaryOperator::Exp if b >= 0 => Some(Datum::Number(power::pow(a, b as nat))),
        BinaryOperator::BitAnd if fits => Some(Datum::Number(((a as i32) & (b as i32)) as int)),
        BinaryOperator::BitOr if fits => Some(Datum::Number(((a as i32) | (b as i32)) as int)),
        BinaryOperator::BitXor if fits => Some(Datum::Number(((a as i32) ^ (b as i32)) as int)),
        BinaryOperator::Shl if 0 <= b < 32 && execution::small(a * shift) => Some(
            Datum::Number(a * shift),
        ),
        BinaryOperator::Shr if 0 <= b < 32 && execution::small(a) => Some(
            Datum::Number(a / shift),
        ),
        BinaryOperator::UShr if 0 <= b < 32 && execution::small(a) => Some(
            Datum::Number((a % 0x1_0000_0000) / shift),
        ),
        BinaryOperator::Lt => Some(Datum::Bool(a < b)),
        BinaryOperator::LtEq => Some(Datum::Bool(a <= b)),
        BinaryOperator::Gt => Some(Datum::Bool(a > b)),
        BinaryOperator::GtEq => Some(Datum::Bool(a >= b)),
        _ => None,
    }
}

/// What a binary operator of the language gives for two values of a running program, where it
/// is told here.
pub open spec fn evaluated(operator: BinaryOperator, a: Datum, b: Datum, r: Run) -> Option<Datum> {
    match (operator, a, b) {
        (BinaryOperator::StrictEq, _, _) => Some(Datum::Bool(a == b)),
        (BinaryOperator::StrictNotEq, _, _) => Some(Datum::Bool(a != b)),
        (BinaryOperator::EqEq, _, _) => Some(Datum::Bool(execution::loosely_equal(a, b))),
        (BinaryOperator::NotEq, _, _) => Some(Datum::Bool(!execution::loosely_equal(a, b))),
        (BinaryOperator::In, key, Datum::Object(o)) => Some(
            Datum::Bool(r.fields.contains_key((o, key))),
        ),
        (BinaryOperator::InstanceOf, Datum::Object(o), Datum::Object(class)) => Some(
            Datum::Bool(r.instances.contains_key((o, class))),
        ),
        (_, Datum::Number(x), Datum::Number(y)) => of_numbers(operator, x, y),
        _ => None,
    }
}

/// What a unary operator of the language gives for a value.
pub open spec fn evaluated_one(operator: UnaryOperator, a: Datum) -> Option<Datum> {
    match operator {
        UnaryOperator::Not => match execution::truth(a) {
            Some(t) => Some(Datum::Bool(!t)),
            None => None,
        },
        UnaryOperator::TypeOf => Some(execution::kind(a)),
        UnaryOperator::Void => Some(Datum::Undefined),
        _ => match execution::numeric(a) {
            Some(n) => match operator {
                UnaryOperator::Minus => Some(Datum::Number(-n)),
                UnaryOperator::Plus => Some(Datum::Number(n)),
                UnaryOperator::BitNot if execution::small(n) => Some(Datum::Number(-n - 1)),
                _ => None,
            },
            None => None,
        },
    }
}

/// The opcode of a binary operator computes what the operator means.
proof fn lemma_binary_op(operator: BinaryOperator, a: Datum, b: Datum, r: Run)
    requires
        evaluated(operator, a, b, r) is Some,
    ensures
        execution::takes_two(shape::binary_op(operator)),
        execution::made_of_two(shape::binary_op(operator), a, b, r) == evaluated(operator, a, b, r),
        shape::binary_op(operator).size() == 1,
{
}

/// Whether the instruction at a position applies a binary operator to the two values on top of
/// the stack, the first below the second.
pub open spec fn applies(c: ChunkView, at: int, operator: BinaryOperator, r: Run) -> bool {
    let n = r.stack.len() as int;
    r.ip == at && n > 1 && evaluated(operator, r.stack[n - 2], r.stack[n - 1], r) is Some
        ==> execution::step(c, r) == Some(
        (Run {
            ip: at + 1,
            stack: r.stack.take(n - 2).push(
                evaluated(operator, r.stack[n - 2], r.stack[n - 1], r)->0,
            ),
            ..r
        }),
    )
}

/// The code of a binary operation: the first operand up to `mid`, the second up to the
/// instruction at the end that applies the operator.
pub open spec fn binary_shape<'p>(
    c: ChunkView,
    fuel: nat,
    b: &'p BinaryExpression,
    from: int,
    mid: int,
    to: int,
) -> bool {
    &&& control::expr_between(c, fuel, &b.left, from, mid)
    &&& control::expr_between(c, fuel, &b.right, mid, to - 1)
    &&& forall|r: Run| #[trigger] applies(c, to - 1, b.operator, r)
}

proof fn lemma_applies(c: ChunkView, at: int, operator: BinaryOperator)
    requires
        0 <= at < c.code.len(),
        c.code[at] == shape::binary_op(operator).byte(),
    ensures
        forall|r: Run| #[trigger] applies(c, at, operator, r),
{
    reveal(execution::performed);
    assert forall|r: Run| #[trigger] applies(c, at, operator, r) by {
        let n = r.stack.len() as int;
        if r.ip == at && n > 1 && evaluated(operator, r.stack[n - 2], r.stack[n - 1], r) is Some {
            lemma_binary_op(operator, r.stack[n - 2], r.stack[n - 1], r);
            execution::lemma_instruction(c, at, shape::binary_op(operator));
        }
    }
}

/// A binary operation evaluates its first operand, its second, and applies its operator to
/// them in that order.
pub proof fn law_binary<'p>(st: CState<'p>, fuel: nat, b: &'p BinaryExpression)
    requires
        kept::fit(st),
        b.operator == BinaryOperator::In ==> !(b.left is Identifier),
        st.compile_binary(fuel, b) matches Ok(e) && e.chunk.code.len() <= usize::MAX,
    ensures
        ({
            let e = st.compile_binary(fuel, b)->Ok_0.chunk;
            exists|mid: int| #[trigger]
                binary_shape(
                    e,
                    fuel,
                    b,
                    st.chunk.code.len() as int,
                    mid,
                    e.code.len() as int,
                )
        }),
{
    let e = st.compile_binary(fuel, b)->Ok_0;
    let x = st.compile_expr(fuel, &b.left)->Ok_0;
    control::lemma_expr(st, fuel, &b.left);
    let y = x.compile_expr(fuel, &b.right)->Ok_0;
    control::lemma_expr(x, fuel, &b.right);
    let op = shape::binary_op(b.operator);
    control::lemma_op(y, op, b.span.start);
    assert(e == y.op(op, b.span.start));
    assert(control::expr_from(st, x, fuel, &b.left));
    assert(control::expr_from(x, y, fuel, &b.right));
    let at = y.chunk.code.len() as int;
    lemma_applies(e.chunk, at, b.operator);
    assert(binary_shape(
        e.chunk,
        fuel,
        b,
        st.chunk.code.len() as int,
        x.chunk.code.len() as int,
        e.chunk.code.len() as int,
    ));
}

/// Whether the instruction at a position applies a unary operator to the value on top of the
/// stack.
pub open spec fn applies_one(c: ChunkView, at: int, operator: UnaryOperator, r: Run) -> bool {
    r.ip == at && r.stack.len() > 0 && evaluated_one(operator, r.stack.last()) is Some
        ==> execution::step(c, r) == Some(
        (Run {
            ip: at + 1,
            stack: r.stack.drop_last().push(evaluated_one(operator, r.stack.last())->0),
            ..r
        }),
    )
}

/// The code of a unary operation: the operand, up to the instruction that applies the
/// operator.
pub open spec fn unary_shape<'p>(
    c: ChunkView,
    fuel: nat,
    u: &'p UnaryExpression,
    from: int,
    to: int,
) -> bool {
    &&& control::expr_between(c, fuel, &u.argument, from, to - 1)
    &&& forall|r: Run| #[trigger] applies_one(c, to - 1, u.operator, r)
}

/// A unary operation evaluates its operand and applies its operator to it. (Deletions have
/// code of their own, and so has `typeof` of a name.)
pub proof fn law_unary<'p>(st: CState<'p>, fuel: nat, u: &'p UnaryExpression)
    requires
        kept::fit(st),
        u.operator != UnaryOperator::Delete,
        u.operator == UnaryOperator::TypeOf ==> !(u.argument is Identifier),
        st.compile_unary(fuel, u) matches Ok(e) && e.chunk.code.len() <= usize::MAX,
    ensures
        ({
            let e = st.compile_unary(fuel, u)->Ok_0.chunk;
            unary_shape(e, fuel, u, st.chunk.code.len() as int, e.code.len() as int)
        }),
{
    let e = st.compile_unary(fuel, u)->Ok_0;
    let x = st.compile_expr(fuel, &u.argument)->Ok_0;
    control::lemma_expr(st, fuel, &u.argument);
    let op = shape::unary_op(u.operator);
    control::lemma_op(x, op, u.span.start);
    assert(e == x.op(op, u.span.start));
    assert(control::expr_from(st, x, fuel, &u.argument));
    let at = x.chunk.code.len() as int;
    reveal(execution::performed);
    execution::lemma_instruction(e.chunk, at, op);
    assert forall|r: Run| #[trigger] applies_one(e.chunk, at, u.operator, r) by {}
}

/// The operation inside of a compound assignment is the one of its operator.
pub proof fn law_compound_operation(
    operator: AssignmentOperator,
    a: Datum,
    b: Datum,
    r: Run,
)
    ensures
        match precedence::combined(operator) {
            Combined::Binary(operation) => {
                &&& shape::compound_op(operator) matches Some(op) && (evaluated(
                    operation,
                    a,
                    b,
                    r,
                ) is Some ==> execution::made_of_two(op, a, b, r) == evaluated(operation, a, b, r))
                &&& shape::compound_op(operator) == Some(shape::binary_op(operation))
                &&& !shape::logical_assignment(operator)
            },
            Combined::Logical(_) => shape::compound_op(operator) is None
                && shape::logical_assignment(operator),
            Combined::Nothing => shape::compound_op(operator) is None
                && !shape::logical_assignment(operator),
        },
{
    reveal(precedence::combined);
    if let Combined::Binary(operation) = precedence::combined(operator) {
        if evaluated(operation, a, b, r) is Some {
            lemma_binary_op(operation, a, b, r);
        }
    }
}

proof fn lemma_property<'p>(c: ChunkView, st: CState<'p>, idx: u16, name: StringId, line: u32)
    requires
        idx < c.constants.len(),
        c.constants[idx as int] == Value::Str(name),
    ensures
        ({
            let e = st.emit_get_property(idx, line);
            let n = st.chunk.code.len() as int;
            variables::covers(c, e) ==> {
                &&& variables::covers(c, st)
                &&& e.chunk.code.len() == n + 5
                &&& execution::instruction(c, n) == Some(OpCode::GetProperty)
                &&& execution::named(c, n) == Some(name)
            }
        }),
        ({
            let e = st.emit_set_property(idx, line);
            let n = st.chunk.code.len() as int;
            variables::covers(c, e) ==> {
                &&& variables::covers(c, st)
                &&& e.chunk.code.len() == n + 5
                &&& execution::instruction(c, n) == Some(OpCode::SetProperty)
                &&& execution::named(c, n) == Some(name)
            }
        }),
{
    reveal(CState::emit_get_property);
    reveal(CState::emit_set_property);
    let n = st.chunk.code.len() as int;
    let ic = st.chunk.ic_slot();
    let g = st.emit_get_property(idx, line);
    let s = st.emit_set_property(idx, line);
    chunk::law_read_emitted_u16(ic, OpCode::GetProperty, idx, line);
    chunk::law_read_emitted_u16(ic, OpCode::SetProperty, idx, line);
    if variables::covers(c, g) {
        assert(g.chunk.code[n] == ic.op_u16(OpCode::GetProperty, idx, line).code[n]);
        assert(g.chunk.code[n + 1] == ic.op_u16(OpCode::GetProperty, idx, line).code[n + 1]);
        assert(g.chunk.code[n + 2] == ic.op_u16(OpCode::GetProperty, idx, line).code[n + 2]);
        variables::lemma_covered(c, st, g);
        assert(c.code[n + 1] == g.chunk.code[n + 1] && c.code[n + 2] == g.chunk.code[n + 2]);
        execution::lemma_instruction(c, n, OpCode::GetProperty);
    }
    if variables::covers(c, s) {
        assert(s.chunk.code[n] == ic.op_u16(OpCode::SetProperty, idx, line).code[n]);
        assert(s.chunk.code[n + 1] == ic.op_u16(OpCode::SetProperty, idx, line).code[n + 1]);
        assert(s.chunk.code[n + 2] == ic.op_u16(OpCode::SetProperty, idx, line).code[n + 2]);
        variables::lemma_covered(c, st, s);
        assert(c.code[n + 1] == s.chunk.code[n + 1] && c.code[n + 2] == s.chunk.code[n + 2]);
        execution::lemma_instruction(c, n, OpCode::SetProperty);
    }
}

/// Whether the code from a position to the end updates the property with a name of the object
/// on top of the stack, which it replaces by the new number or the old.
pub open spec fn updates_property(
    c: ChunkView,
    at: int,
    name: StringId,
    operator: UpdateOperator,
    prefix: bool,
    r: Run,
) -> bool {
    let n = r.stack.len() as int;
    let key = Datum::Name(name);
    r.ip == at && n > 0 && r.stack[n - 1] is Object && execution::field(
        r,
        r.stack[n - 1]->Object_0,
        key,
    ) is Number ==> {
        let o = r.stack[n - 1]->Object_0;
        let before = execution::field(r, o, key)->Number_0;
        let after = before + variables::change(operator);
        execution::reaches(
            c,
            r,
            (Run {
                ip: c.code.len() as int,
                stack: r.stack.take(n - 1).push(
                    Datum::Number(if prefix {
                        after
                    } else {
                        before
                    }),
                ),
                fields: r.fields.insert((o, key), Datum::Number(after)),
                ..r
            }),
        )
    }
}

#[verifier::spinoff_prover]
proof fn lemma_update_property<'p>(
    st: CState<'p>,
    name: StringId,
    operator: UpdateOperator,
    prefix: bool,
    line: u32,
    r: Run,
)
    requires
        ({
            let op = if operator == UpdateOperator::Increment {
                OpCode::Inc
            } else {
                OpCode::Dec
            };
            st.update_property(name, op, prefix, line).chunk.constants.len() <= 0x10000
        }),
    ensures
        ({
            let op = if operator == UpdateOperator::Increment {
                OpCode::Inc
            } else {
                OpCode::Dec
            };
            updates_property(
                st.update_property(name, op, prefix, line).chunk,
                st.chunk.code.len() as int,
                name,
                operator,
                prefix,
                r,
            )
        }),
{
    let op = if operator == UpdateOperator::Increment {
        OpCode::Inc
    } else {
        OpCode::Dec
    };
    let e = st.update_property(name, op, prefix, line);
    let c = e.chunk;
    let n = r.stack.len() as int;
    let key = Datum::Name(name);
    let (s0, idx) = st.make_string_constant(name);
    let s1 = s0.op(OpCode::Dup, line);
    let s2 = s1.emit_get_property(idx, line);
    assert(s0.chunk.code == st.chunk.code && s0.chunk.constants == st.chunk.constants.push(
        Value::Str(name),
    ) && idx == st.chunk.constants.len() as u16) by {
        reveal(CState::make_string_constant);
    }
    lemma_constants(s0, idx, op, prefix, line);
    assert(c.constants == s0.chunk.constants);
    assert(c.constants[idx as int] == Value::Str(name));
    assert(variables::covers(c, e));
    reveal(execution::performed);
    if prefix {
        let s3 = s2.op(op, line);
        assert(e == s3.emit_set_property(idx, line));
        lemma_property(c, s3, idx, name, line);
        variables::lemma_op_covered(c, s2, op, line);
        lemma_property(c, s1, idx, name, line);
        variables::lemma_op_covered(c, s0, OpCode::Dup, line);
        if r.ip == st.chunk.code.len() && n > 0 && r.stack[n - 1] is Object && execution::field(
            r,
            r.stack[n - 1]->Object_0,
            key,
        ) is Number {
            let o = r.stack[n - 1]->Object_0;
            let obj = Datum::Object(o);
            let before = execution::field(r, o, key)->Number_0;
            let after = before + variables::change(operator);
            let below = r.stack.take(n - 1);
            let at = st.chunk.code.len() as int;
            let r1 = Run { ip: at + 1, stack: r.stack.push(obj), ..r };
            let r2 = Run { ip: at + 6, stack: r.stack.push(Datum::Number(before)), ..r };
            let r3 = Run { ip: at + 7, stack: r.stack.push(Datum::Number(after)), ..r };
            let r4 = Run {
                ip: at + 12,
                stack: below.push(Datum::Number(after)),
                fields: r.fields.insert((o, key), Datum::Number(after)),
                ..r
            };
            execution::lemma_here(c, r);
            execution::lemma_onward(c, r, r, r1);
            assert(r1.stack.take(n) =~= r.stack);
            execution::lemma_onward(c, r, r1, r2);
            assert(r2.stack.drop_last() =~= r.stack);
            execution::lemma_onward(c, r, r2, r3);
            assert(r3.stack.take(n - 1) =~= below);
            execution::lemma_onward(c, r, r3, r4);
        }
    } else {
        let s3 = s2.op(OpCode::Dup, line);
        let s4 = s3.op(OpCode::Rot3, line);
        let s5 = s4.op(op, line);
        let s6 = s5.emit_set_property(idx, line);
        assert(e == s6.op(OpCode::Pop, line));
        variables::lemma_op_covered(c, s6, OpCode::Pop, line);
        lemma_property(c, s5, idx, name, line);
        variables::lemma_op_covered(c, s4, op, line);
        variables::lemma_op_covered(c, s3, OpCode::Rot3, line);
        variables::lemma_op_covered(c, s2, OpCode::Dup, line);
        lemma_property(c, s1, idx, name, line);
        variables::lemma_op_covered(c, s0, OpCode::Dup, line);
        if r.ip == st.chunk.code.len() && n > 0 && r.stack[n - 1] is Object && execution::field(
            r,
            r.stack[n - 1]->Object_0,
            key,
        ) is Number {
            let o = r.stack[n - 1]->Object_0;
            let obj = Datum::Object(o);
            let was = execution::field(r, o, key);
            let before = was->Number_0;
            let after = before + variables::change(operator);
            let now = Datum::Number(after);
            let below = r.stack.take(n - 1);
            let at = st.chunk.code.len() as int;
            let fields = r.fields.insert((o, key), now);
            let r1 = Run { ip: at + 1, stack: r.stack.push(obj), ..r };
            let r2 = Run { ip: at + 6, stack: r.stack.push(was), ..r };
            let r3 = Run { ip: at + 7, stack: r.stack.push(was).push(was), ..r };
            let r4 = Run { ip: at + 8, stack: below.push(was).push(obj).push(was), ..r };
            let r5 = Run { ip: at + 9, stack: below.push(was).push(obj).push(now), ..r };
            let r6 = Run { ip: at + 14, stack: below.push(was).push(now), fields, ..r };
            let r7 = Run { ip: at + 15, stack: below.push(was), fields, ..r };
            execution::lemma_here(c, r);
            execution::lemma_onward(c, r, r, r1);
            assert(r1.stack.take(n) =~= r.stack);
            execution::lemma_onward(c, r, r1, r2);
            execution::lemma_onward(c, r, r2, r3);
            assert(r3.stack.take(n - 1) =~= below);
            execution::lemma_onward(c, r, r3, r4);
            assert(r4.stack.drop_last() =~= below.push(was).push(obj));
            execution::lemma_onward(c, r, r4, r5);
            assert(r5.stack.take(n) =~= below.push(was));
            execution::lemma_onward(c, r, r5, r6);
            assert(r6.stack.drop_last() =~= r7.stack);
            execution::lemma_onward(c, r, r6, r7);
        }
    }
}

/// The constants stay while a property is updated.
proof fn lemma_constants<'p>(st: CState<'p>, idx: u16, op: OpCode, prefix: bool, line: u32)
    ensures
        ({
            let a = st.op(OpCode::Dup, line).emit_get_property(idx, line);
            let b = a.op(op, line).emit_set_property(idx, line);
            let d = a.op(OpCode::Dup, line).op(OpCode::Rot3, line).op(op, line).emit_set_property(
                idx,
                line,
            ).op(OpCode::Pop, line);
            b.chunk.constants == st.chunk.constants && d.chunk.constants == st.chunk.constants
        }),
{
    reveal(CState::op);
    reveal(CState::emit_get_property);
    reveal(CState::emit_set_property);
}

/// The code of an update of a property: the object up to `at`, then what updates it.
pub open spec fn property_update_shape<'p>(
    c: ChunkView,
    fuel: nat,
    u: &'p UpdateExpression,
    m: &'p MemberExpression,
    name: StringId,
    from: int,
    at: int,
) -> bool {
    &&& control::expr_between(c, fuel, &m.object, from, at)
    &&& forall|r: Run| #[trigger] updates_property(c, at, name, u.operator, u.prefix, r)
}

/// The code of `++` on a property evaluates the object once and stores the old number plus one
/// in the property, and that of `--` the old number minus one. Written in front, it leaves the
/// new number, written behind, the old one.
pub proof fn law_update_property<'p>(
    st: CState<'p>,
    fuel: nat,
    u: &'p UpdateExpression,
    m: &'p MemberExpression,
    name: StringId,
)
    requires
        kept::fit(st),
        u.argument == Expression::Member(Box::new(*m)),
        m.property == MemberProperty::Identifier(name),
        st.compile_update(fuel, u) matches Ok(e) && e.chunk.code.len() <= usize::MAX
            && e.chunk.constants.len() <= 0x10000,
    ensures
        ({
            let e = st.compile_update(fuel, u)->Ok_0.chunk;
            exists|at: int| #[trigger]
                property_update_shape(e, fuel, u, m, name, st.chunk.code.len() as int, at)
        }),
{
    let line = u.span.start;
    let e = st.compile_update(fuel, u)->Ok_0;
    let x = st.compile_expr(fuel, &m.object)->Ok_0;
    let op = if u.operator == UpdateOperator::Increment {
        OpCode::Inc
    } else {
        OpCode::Dec
    };
    assert(e == x.update_property(name, op, u.prefix, line));
    control::lemma_expr(st, fuel, &m.object);
    kept::grow_update_property(x, name, op, u.prefix, line);
    assert(kept::kept(control::floor_of(x), x)) by {
        reveal(kept::kept);
    }
    kept::keep_update_property(control::floor_of(x), x, name, op, u.prefix, line);
    reveal(kept::kept);
    assert(control::expr_from(st, x, fuel, &m.object));
    let at = x.chunk.code.len() as int;
    assert forall|r: Run| #[trigger]
        updates_property(e.chunk, at, name, u.operator, u.prefix, r) by {
        lemma_update_property(x, name, u.operator, u.prefix, line, r);
    }
    assert(property_update_shape(e.chunk, fuel, u, m, name, st.chunk.code.len() as int, at));
}

/// Whether the code from a position to the end updates the element that object and key on top
/// of the stack denote, and replaces them by the new number or the old.
pub open spec fn updates_element(
    c: ChunkView,
    at: int,
    operator: UpdateOperator,
    prefix: bool,
    r: Run,
) -> bool {
    let n = r.stack.len() as int;
    r.ip == at && n > 1 && r.stack[n - 2] is Object && execution::field(
        r,
        r.stack[n - 2]->Object_0,
        r.stack[n - 1],
    ) is Number ==> {
        let o = r.stack[n - 2]->Object_0;
        let key = r.stack[n - 1];
        let before = execution::field(r, o, key)->Number_0;
        let after = before + variables::change(operator);
        execution::reaches(
            c,
            r,
            (Run {
                ip: c.code.len() as int,
                stack: r.stack.take(n - 2).push(
                    Datum::Number(if prefix {
                        after
                    } else {
                        before
                    }),
                ),
                fields: r.fields.insert((o, key), Datum::Number(after)),
                ..r
            }),
        )
    }
}

#[verifier::spinoff_prover]
proof fn lemma_update_element<'p>(
    st: CState<'p>,
    operator: UpdateOperator,
    prefix: bool,
    line: u32,
    r: Run,
)
    requires
        st.chunk.constants.len() <= 0x10000,
    ensures
        ({
            let op = if operator == UpdateOperator::Increment {
                OpCode::Inc
            } else {
                OpCode::Dec
            };
            updates_element(
                st.update_element(op, prefix, line).chunk,
                st.chunk.code.len() as int,
                operator,
                prefix,
                r,
            )
        }),
{
    let op = if operator == UpdateOperator::Increment {
        OpCode::Inc
    } else {
        OpCode::Dec
    };
    let e = st.update_element(op, prefix, line);
    let c = e.chunk;
    let n = r.stack.len() as int;
    let s1 = st.op(OpCode::Dup2, line);
    let s2 = s1.op(OpCode::GetElement, line);
    control::lemma_op(st, OpCode::Dup2, line);
    control::lemma_op(s1, OpCode::GetElement, line);
    let asked = r.ip == st.chunk.code.len() && n > 1 && r.stack[n - 2] is Object
        && execution::field(r, r.stack[n - 2]->Object_0, r.stack[n - 1]) is Number;
    let o = r.stack[n - 2]->Object_0;
    let obj = Datum::Object(o);
    let key = r.stack[n - 1];
    let was = execution::field(r, o, key);
    let now = Datum::Number(was->Number_0 + variables::change(operator));
    let below = r.stack.take(n - 2);
    let at = st.chunk.code.len() as int;
    let fields = r.fields.insert((o, key), now);
    let r1 = Run { ip: at + 1, stack: r.stack.push(obj).push(key), ..r };
    let r2 = Run { ip: at + 2, stack: r.stack.push(was), ..r };
    reveal(execution::performed);
    execution::lemma_here(c, r);
    if prefix {
        let s3 = s2.op(op, line);
        control::lemma_op(s2, op, line);
        control::lemma_op(s3, OpCode::SetElement, line);
        assert(e == s3.op(OpCode::SetElement, line));
        assert(variables::covers(c, e));
        variables::lemma_op_covered(c, s3, OpCode::SetElement, line);
        variables::lemma_op_covered(c, s2, op, line);
        variables::lemma_op_covered(c, s1, OpCode::GetElement, line);
        variables::lemma_op_covered(c, st, OpCode::Dup2, line);
        if asked {
            let r3 = Run { ip: at + 3, stack: r.stack.push(now), ..r };
            let r4 = Run { ip: at + 4, stack: below.push(now), fields, ..r };
            execution::lemma_onward(c, r, r, r1);
            assert(r1.stack.take(n) =~= r.stack);
            execution::lemma_onward(c, r, r1, r2);
            assert(r2.stack.drop_last() =~= r.stack);
            execution::lemma_onward(c, r, r2, r3);
            assert(r3.stack.take(n - 2) =~= below);
            execution::lemma_onward(c, r, r3, r4);
        }
    } else {
        let s3 = s2.op(OpCode::ToNumeric, line);
        let s4 = s3.op(OpCode::Rot3, line);
        let s5 = s4.op(OpCode::Dup2, line);
        let s6 = s5.op(OpCode::GetElement, line);
        let s7 = s6.op(op, line);
        let s8 = s7.op(OpCode::SetElement, line);
        control::lemma_op(s2, OpCode::ToNumeric, line);
        control::lemma_op(s3, OpCode::Rot3, line);
        control::lemma_op(s4, OpCode::Dup2, line);
        control::lemma_op(s5, OpCode::GetElement, line);
        control::lemma_op(s6, op, line);
        control::lemma_op(s7, OpCode::SetElement, line);
        control::lemma_op(s8, OpCode::Pop, line);
        assert(e == s8.op(OpCode::Pop, line));
        assert(variables::covers(c, e));
        variables::lemma_op_covered(c, s8, OpCode::Pop, line);
        variables::lemma_op_covered(c, s7, OpCode::SetElement, line);
        variables::lemma_op_covered(c, s6, op, line);
        variables::lemma_op_covered(c, s5, OpCode::GetElement, line);
        variables::lemma_op_covered(c, s4, OpCode::Dup2, line);
        variables::lemma_op_covered(c, s3, OpCode::Rot3, line);
        variables::lemma_op_covered(c, s2, OpCode::ToNumeric, line);
        variables::lemma_op_covered(c, s1, OpCode::GetElement, line);
        variables::lemma_op_covered(c, st, OpCode::Dup2, line);
        if asked {
            let kept_below = below.push(was).push(obj).push(key);
            let r3 = Run { ip: at + 3, stack: r.stack.push(was), ..r };
            let r4 = Run { ip: at + 4, stack: kept_below, ..r };
            let r5 = Run { ip: at + 5, stack: kept_below.push(obj).push(key), ..r };
            let r6 = Run { ip: at + 6, stack: kept_below.push(was), ..r };
            let r7 = Run { ip: at + 7, stack: kept_below.push(now), ..r };
            let r8 = Run { ip: at + 8, stack: below.push(was).push(now), fields, ..r };
            let r9 = Run { ip: at + 9, stack: below.push(was), fields, ..r };
            execution::lemma_onward(c, r, r, r1);
            assert(r1.stack.take(n) =~= r.stack);
            execution::lemma_onward(c, r, r1, r2);
            assert(r2.stack.drop_last() =~= r.stack);
            execution::lemma_onward(c, r, r2, r3);
            assert(r3.stack.take(n - 2) =~= below);
            execution::lemma_onward(c, r, r3, r4);
            execution::lemma_onward(c, r, r4, r5);
            assert(r5.stack.take(n + 1) =~= kept_below);
            execution::lemma_onward(c, r, r5, r6);
            assert(r6.stack.drop_last() =~= kept_below);
            execution::lemma_onward(c, r, r6, r7);
            assert(r7.stack.take(n - 1) =~= below.push(was));
            execution::lemma_onward(c, r, r7, r8);
            assert(r8.stack.drop_last() =~= r9.stack);
            execution::lemma_onward(c, r, r8, r9);
        }
    }
}

/// The code of an update of an element: the object up to `mid`, the key up to `at`, then what
/// updates it.
pub open spec fn element_update_shape<'p>(
    c: ChunkView,
    fuel: nat,
    u: &'p UpdateExpression,
    m: &'p MemberExpression,
    key: &'p Expression,
    from: int,
    mid: int,
    at: int,
) -> bool {
    &&& control::expr_between(c, fuel, &m.object, from, mid)
    &&& control::expr_between(c, fuel, key, mid, at)
    &&& forall|r: Run| #[trigger] updates_element(c, at, u.operator, u.prefix, r)
}

/// The code of `++` on an element evaluates object and key once and stores the old number plus
/// one in the element, and that of `--` the old number minus one. Written in front, it leaves
/// the new number, written behind, the old one.
pub proof fn law_update_element<'p>(
    st: CState<'p>,
    fuel: nat,
    u: &'p UpdateExpression,
    m: &'p MemberExpression,
    key: &'p Expression,
)
    requires
        kept::fit(st),
        u.argument == Expression::Member(Box::new(*m)),
        m.property == MemberProperty::Expression(*key),
        st.compile_update(fuel, u) matches Ok(e) && e.chunk.code.len() <= usize::MAX
            && e.chunk.constants.len() <= 0x10000,
    ensures
        ({
            let e = st.compile_update(fuel, u)->Ok_0.chunk;
            exists|mid: int, at: int| #[trigger]
                element_update_shape(e, fuel, u, m, key, st.chunk.code.len() as int, mid, at)
        }),
{
    let line = u.span.start;
    let e = st.compile_update(fuel, u)->Ok_0;
    let x = st.compile_expr(fuel, &m.object)->Ok_0;
    let y = x.compile_expr(fuel, key)->Ok_0;
    let op = if u.operator == UpdateOperator::Increment {
        OpCode::Inc
    } else {
        OpCode::Dec
    };
    assert(e == y.update_element(op, u.prefix, line));
    control::lemma_expr(st, fuel, &m.object);
    control::lemma_expr(x, fuel, key);
    kept::grow_update_element(y, op, u.prefix, line);
    assert(kept::kept(control::floor_of(y), y)) by {
        reveal(kept::kept);
    }
    kept::keep_update_element(control::floor_of(y), y, op, u.prefix, line);
    assert(y.chunk.constants == e.chunk.constants) by {
        reveal(CState::op);
    }
    reveal(kept::kept);
    assert(control::expr_from(st, x, fuel, &m.object));
    assert(control::expr_from(x, y, fuel, key));
    let at = y.chunk.code.len() as int;
    assert forall|r: Run| #[trigger] updates_element(e.chunk, at, u.operator, u.prefix, r) by {
        lemma_update_element(y, u.operator, u.prefix, line, r);
    }
    assert(element_update_shape(
        e.chunk,
        fuel,
        u,
        m,
        key,
        st.chunk.code.len() as int,
        x.chunk.code.len() as int,
        at,
    ));
}

/// Whether the code from a position to the end replaces the object on top of the stack by the
/// property with a name.
pub open spec fn gets_property(c: ChunkView, at: int, name: StringId, r: Run) -> bool {
    let n = r.stack.len() as int;
    r.ip == at && n > 0 && r.stack[n - 1] is Object ==> execution::step(c, r) == Some(
        (Run {
            ip: c.code.len() as int,
            stack: r.stack.take(n - 1).push(
                execution::field(r, r.stack[n - 1]->Object_0, Datum::Name(name)),
            ),
            ..r
        }),
    )
}

/// Whether the code from a position to the end replaces object and key on top of the stack by
/// the element that they denote.
pub open spec fn gets_element(c: ChunkView, at: int, r: Run) -> bool {
    let n = r.stack.len() as int;
    r.ip == at && n > 1 && r.stack[n - 2] is Object ==> execution::step(c, r) == Some(
        (Run {
            ip: c.code.len() as int,
            stack: r.stack.take(n - 2).push(
                execution::field(r, r.stack[n - 2]->Object_0, r.stack[n - 1]),
            ),
            ..r
        }),
    )
}

/// The code of a member access: the object, the key if it is computed, and the access.
pub open spec fn member_shape<'p>(
    c: ChunkView,
    fuel: nat,
    m: &'p MemberExpression,
    from: int,
    mid: int,
    at: int,
) -> bool {
    &&& control::expr_between(c, fuel, &m.object, from, mid)
    &&& match &m.property {
        MemberProperty::Identifier(name) => mid == at && forall|r: Run| #[trigger]
            gets_property(c, at, *name, r),
        MemberProperty::Expression(key) => control::expr_between(c, fuel, key, mid, at)
            && forall|r: Run| #[trigger] gets_element(c, at, r),
        MemberProperty::PrivateIdentifier(_) => true,
    }
}

/// A member access evaluates the object, the key if it is computed, and gives the field.
#[verifier::spinoff_prover]
pub proof fn law_member<'p>(st: CState<'p>, fuel: nat, m: &'p MemberExpression)
    requires
        kept::fit(st),
        !shape::super_expr(m.object),
        !(m.property is PrivateIdentifier),
        st.compile_member(fuel, m) matches Ok(e) && e.chunk.code.len() <= usize::MAX
            && e.chunk.constants.len() <= 0x10000,
    ensures
        ({
            let e = st.compile_member(fuel, m)->Ok_0.chunk;
            exists|mid: int, at: int| #[trigger]
                member_shape(e, fuel, m, st.chunk.code.len() as int, mid, at)
        }),
{
    let line = m.span.start;
    let e = st.compile_member(fuel, m)->Ok_0;
    let c = e.chunk;
    let x = st.compile_expr(fuel, &m.object)->Ok_0;
    control::lemma_expr(st, fuel, &m.object);
    assert(control::expr_from(st, x, fuel, &m.object));
    let mid = x.chunk.code.len() as int;
    let from = st.chunk.code.len() as int;
    reveal(execution::performed);
    match &m.property {
        MemberProperty::Identifier(name) => {
            let (y, idx) = x.make_string_constant(*name);
            assert(e == y.emit_get_property(idx, line));
            assert(y.chunk.code == x.chunk.code && y.chunk.constants == x.chunk.constants.push(
                Value::Str(*name),
            ) && idx == x.chunk.constants.len() as u16) by {
                reveal(CState::make_string_constant);
            }
            assert(e.chunk.constants == y.chunk.constants) by {
                reveal(CState::emit_get_property);
            }
            assert(variables::covers(c, e));
            lemma_property(c, y, idx, *name, line);
            assert forall|r: Run| #[trigger] gets_property(c, mid, *name, r) by {}
            assert(member_shape(c, fuel, m, from, mid, mid));
        },
        MemberProperty::Expression(key) => {
            let y = x.compile_expr(fuel, key)->Ok_0;
            control::lemma_expr(x, fuel, key);
            assert(control::expr_from(x, y, fuel, key));
            assert(e == y.op(OpCode::GetElement, line));
            control::lemma_op(y, OpCode::GetElement, line);
            let at = y.chunk.code.len() as int;
            execution::lemma_instruction(c, at, OpCode::GetElement);
            assert forall|r: Run| #[trigger] gets_element(c, at, r) by {}
            assert(member_shape(c, fuel, m, from, mid, at));
        },
        _ => {},
    }
}

} // verus!
