//! How the members of object literals and classes are defined.

use vstd::prelude::*;
use crate::ast::node::{ClassProperty, MethodKind, Property, PropertyKey, PropertyKindVal};
use crate::compiler::compiler::state::CState;
use crate::compiler::control;
use crate::compiler::opcode::OpCode;
use crate::compiler::shape;
use crate::util::interner::StringId;

verus! {

/// What a member is defined as.
pub enum Role {
    Data,
    Getter,
    Setter,
}

/// What an instruction defines on the object below key and value.
pub open spec fn defines(op: OpCode) -> Option<Role> {
    match op {
        OpCode::DefineDataProp => Some(Role::Data),
        OpCode::DefineGetter => Some(Role::Getter),
        OpCode::DefineSetter => Some(Role::Setter),
        _ => None,
    }
}

/// Whether an instruction defines a member on the class itself, and not for its instances.
pub open spec fn on_class(op: OpCode) -> Option<bool> {
    match op {
        OpCode::ClassStaticMethod
        | OpCode::ClassStaticField
        | OpCode::ClassStaticFieldComputed => Some(true),
        OpCode::ClassMethod
        | OpCode::ClassPrivateMethod
        | OpCode::ClassField
        | OpCode::ClassFieldComputed => Some(false),
        _ => None,
    }
}

/// What a property of an object literal is.
pub open spec fn property_role(kind: PropertyKindVal) -> Role {
    match kind {
        PropertyKindVal::Init => Role::Data,
        PropertyKindVal::Getter => Role::Getter,
        PropertyKindVal::Setter => Role::Setter,
    }
}

/// What a method is.
pub open spec fn method_role(kind: MethodKind) -> Role {
    match kind {
        MethodKind::Getter => Role::Getter,
        MethodKind::Setter => Role::Setter,
        MethodKind::Method | MethodKind::Constructor => Role::Data,
    }
}

/// A method of a class is defined as what it is, and a static one on the class itself.
pub proof fn law_method(kind: MethodKind, key: PropertyKey, is_static: bool)
    ensures
        defines(shape::method_op(kind)) == Some(method_role(kind)),
        on_class(shape::class_method_op(key, is_static)) == Some(is_static),
        !is_static ==> (shape::class_method_op(
            key,
            is_static,
        ) == OpCode::ClassPrivateMethod <==> key
            is Private),
{
}

/// A property of an object literal ends with the instruction that defines it as what it is.
pub proof fn law_object_property<'p>(st: CState<'p>, fuel: nat, p: &'p Property, line: u32)
    requires
        st.compile_object_property(fuel, p, line) is Ok,
        !st.sets_prototype(p).1,
    ensures
        exists|op: OpCode| #[trigger]
            defines(op) == Some(property_role(p.kind)) && {
                let code = st.compile_object_property(fuel, p, line)->Ok_0.chunk.code;
                code.len() > 0 && code.last() == op.byte()
            },
{
    let e = st.compile_object_property(fuel, p, line)->Ok_0;
    let a = st.sets_prototype(p).0.compile_property_key(fuel, &p.key, line)->Ok_0;
    match p.kind {
        PropertyKindVal::Init => {
            let b = if shape::anonymous_fn(p.value) {
                let (k, key_name) = a.property_key_name(&p.key);
                if key_name != StringId(0) {
                    k.set_pending_name(key_name)
                } else {
                    k
                }
            } else {
                a
            };
            let d = b.compile_expr(fuel, &p.value)->Ok_0;
            let f = if p.method {
                d.mark_last_child_as_method()
            } else {
                d
            };
            assert(e == f.op(OpCode::DefineDataProp, line));
            control::lemma_op(f, OpCode::DefineDataProp, line);
            assert(defines(OpCode::DefineDataProp) == Some(property_role(p.kind)));
        },
        PropertyKindVal::Getter => {
            let d = a.compile_expr(fuel, &p.value)->Ok_0.mark_last_child_as_method();
            assert(e == d.op(OpCode::DefineGetter, line));
            control::lemma_op(d, OpCode::DefineGetter, line);
            assert(defines(OpCode::DefineGetter) == Some(property_role(p.kind)));
        },
        PropertyKindVal::Setter => {
            let d = a.compile_expr(fuel, &p.value)->Ok_0.mark_last_child_as_method();
            assert(e == d.op(OpCode::DefineSetter, line));
            control::lemma_op(d, OpCode::DefineSetter, line);
            assert(defines(OpCode::DefineSetter) == Some(property_role(p.kind)));
        },
    }
}

/// A field of a class ends with the instruction that defines it, a static one on the class
/// itself. Where the key is known, it follows the opcode as an operand.
pub proof fn law_class_field<'p>(st: CState<'p>, fuel: nat, p: &'p ClassProperty, line: u32)
    requires
        st.compile_class_property(fuel, p, line) is Ok,
    ensures
        exists|op: OpCode| #[trigger]
            on_class(op) == Some(p.is_static) && {
                let code = st.compile_class_property(fuel, p, line)->Ok_0.chunk.code;
                if shape::runtime_key(p.key) {
                    code.len() > 0 && code.last() == op.byte()
                } else {
                    code.len() > 2 && code[code.len() - 3] == op.byte()
                }
            },
{
    let e = st.compile_class_property(fuel, p, line)->Ok_0;
    if shape::runtime_key(p.key) {
        let a = st.compile_property_key(fuel, &p.key, line)->Ok_0;
        let b = a.compile_init(fuel, &p.value, line)->Ok_0;
        let op = if p.is_static {
            OpCode::ClassStaticFieldComputed
        } else {
            OpCode::ClassFieldComputed
        };
        assert(e == b.op(op, line));
        control::lemma_op(b, op, line);
        assert(on_class(op) == Some(p.is_static));
    } else {
        let a = st.compile_init(fuel, &p.value, line)->Ok_0;
        let (b, key) = a.property_key_name(&p.key);
        let op = if p.is_static {
            OpCode::ClassStaticField
        } else {
            OpCode::ClassField
        };
        assert(e == b.op_name(op, key, line));
        reveal(CState::make_string_constant);
        reveal(CState::op_u16);
        assert(on_class(op) == Some(p.is_static));
    }
}

} // verus!
