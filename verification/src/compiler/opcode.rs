//! The bytecode instruction set: opcodes, their encoding and their sizes.
//!
//! The core set stands in groups from 0x00, 0x10 and so on. These bytes are added to it, for
//! what the compiler emits beyond the core:
//!
//! - 0x0A to 0x0C: `LoadBigInt`, `PushEmpty` for bindings in their dead zone, and
//!   `GetUpvalueWide`;
//! - 0x2A: `ToNumeric`, for increments that keep a BigInt;
//! - 0x7D and 0x7E: `SetUpvalueWide` and `DefineGlobalLex`;
//! - 0x89, 0x8A and 0x97: `HasPrivate`, `GetSuperClass` and `LoadCallee`;
//! - 0xAA to 0xAE: rest elements and parameters, spread and literal prototypes;
//! - 0xB2 and 0xB3: class fields with computed keys;
//! - 0xD6 and 0xED: `GetForInIterator` and `ExportAllFrom`;
//! - 0xEE, 0xEF and 0xFC to 0xFE: names inside of `with` bodies;
//! - 0xF6 and 0xF8: the brackets around parameter defaults;
//! - 0xFB: `SetCompletion`, for the value of a script.
//!
//! Decoding (`from_byte`, `is_valid`) knows the core set alone: every other byte, those added
//! and 0x09 and 0x77 among them, decodes to no opcode.

use vstd::prelude::*;

verus! {

/// Bytecode opcodes of the virtual machine.
///
/// Variable-length encoding: 1-byte opcode + 0-4 byte operands.
/// Operand notation in comments:
///   u8  = 1-byte unsigned
///   u16 = 2-byte unsigned big-endian
///   u32 = 4-byte unsigned big-endian
///   i16 = 2-byte signed (for jump offsets)
///   i32 = 4-byte signed (for long jump offsets)
#[derive(Clone, Copy, PartialEq, Eq, Structural, Debug)]
pub enum OpCode {
    /// No operation
    Nop,
    /// Push constants[u16 index]
    Const,
    /// Push constants[u32 index] (wide)
    ConstLong,
    /// Push undefined
    Undefined,
    /// Push null
    Null,
    /// Push true
    True,
    /// Push false
    False,
    /// Push 0 (as SMI)
    Zero,
    /// Push 1 (as SMI)
    One,
    /// Push the uninitialized-binding marker
    PushEmpty,
    /// Push the BigInt whose decimal text is constants[u16 index]
    LoadBigInt,
    /// Discard top of stack
    Pop,
    /// Discard top N values (u8 count)
    PopN,
    /// Duplicate top of stack
    Dup,
    /// Duplicate top two values
    Dup2,
    /// Swap top two values
    Swap,
    /// Rotate top 3: [a,b,c] -> [c,a,b]
    Rot3,
    /// a + b (numeric add or string concat)
    Add,
    /// a - b
    Sub,
    /// a * b
    Mul,
    /// a / b
    Div,
    /// a % b
    Rem,
    /// a ** b
    Exp,
    /// -a (unary negation)
    Neg,
    /// +a (unary plus / ToNumber)
    Pos,
    /// Increment (for ++)
    Inc,
    /// Decrement (for --)
    Dec,
    /// Coerce TOS to a number, keeping a BigInt as it is
    ToNumeric,
    /// a & b
    BitAnd,
    /// a | b
    BitOr,
    /// a ^ b
    BitXor,
    /// ~a
    BitNot,
    /// a << b
    Shl,
    /// a >> b (sign-extending)
    Shr,
    /// a >>> b (zero-fill)
    UShr,
    /// a == b (abstract equality)
    Eq,
    /// a != b
    Ne,
    /// a === b (strict equality)
    StrictEq,
    /// a !== b
    StrictNe,
    /// a < b
    Lt,
    /// a <= b
    Le,
    /// a > b
    Gt,
    /// a >= b
    Ge,
    /// a instanceof b
    InstanceOf,
    /// a in b
    In,
    /// !a
    Not,
    /// typeof a
    TypeOf,
    /// typeof globalVar (u16 name) -- no ReferenceError for undeclared
    TypeOfGlobal,
    /// void a -> evaluate, replace with undefined
    Void,
    /// delete obj[key]
    DeleteProp,
    /// delete globalName (u16 name)
    DeleteGlobal,
    /// Unconditional relative jump (i16 offset)
    Jump,
    /// Long unconditional jump (i32 offset)
    JumpLong,
    /// Pop, jump if falsy (i16 offset)
    JumpIfFalse,
    /// Pop, jump if truthy (i16 offset)
    JumpIfTrue,
    /// Jump if falsy, don't pop -- for && (i16 offset)
    JumpIfFalsePeek,
    /// Jump if truthy, don't pop -- for || (i16 offset)
    JumpIfTruePeek,
    /// Jump if null/undefined, don't pop -- for ?? (i16 offset)
    JumpIfNullishPeek,
    /// Backward jump for loops (u16 offset)
    Loop,
    /// Push local variable (u8 slot)
    GetLocal,
    /// Set local variable (u8 slot), TOS stays
    SetLocal,
    /// Push local variable (u16 slot) -- wide
    GetLocalWide,
    /// Set local variable (u16 slot) -- wide
    SetLocalWide,
    /// Push captured upvalue (u8 index)
    GetUpvalue,
    /// Set captured upvalue (u8 index)
    SetUpvalue,
    /// Close over local on stack top
    CloseUpvalue,
    /// Push captured upvalue (u16 index) -- wide
    GetUpvalueWide,
    /// Push global by name (u16 constant index)
    GetGlobal,
    /// Set global by name (u16 constant index)
    SetGlobal,
    /// Define global variable (u16 constant index)
    DefineGlobal,
    /// Mark let/const slot as initialized (u8 slot)
    InitLet,
    /// Throw ReferenceError if slot uninitialized (u8 slot)
    CheckTdz,
    /// Set captured upvalue (u16 index) -- wide
    SetUpvalueWide,
    /// Define global lexical binding (u16 constant index)
    DefineGlobalLex,
    /// obj.name -- replace obj with value (u16 name constant, u16 cache slot)
    GetProperty,
    /// obj.name = val (u16 name constant, u16 cache slot)
    SetProperty,
    /// obj[key] -- pop key & obj, push value
    GetElement,
    /// obj[key] = val
    SetElement,
    /// super.name (u16 name)
    GetSuper,
    /// super[key]
    GetSuperElem,
    /// Optional chain: if TOS null/undefined, jump & push undefined (i16 offset)
    OptionalChain,
    /// Get private field #name (u16 name)
    GetPrivate,
    /// Set private field #name (u16 name)
    SetPrivate,
    /// #name in obj (u16 name)
    HasPrivate,
    /// Push the superclass of the running method
    GetSuperClass,
    /// Call function (u8 argc): stack=[fn, arg0..argN]
    Call,
    /// Method call (u8 argc, u16 name): stack=[obj, arg0..argN]
    CallMethod,
    /// new Constructor(args) (u8 argc)
    Construct,
    /// Call with spread arguments (u8 argc)
    SpreadCall,
    /// new with spread (u8 argc)
    SpreadConstruct,
    /// Return TOS from current function
    Return,
    /// Return undefined (implicit return)
    ReturnUndefined,
    /// Push the running function
    LoadCallee,
    /// Push new empty object {}
    CreateObject,
    /// Push new array (u16 hint_length)
    CreateArray,
    /// arr[u32 index] = TOS
    SetArrayItem,
    /// Spread iterable into array being built
    ArraySpread,
    /// Define data property: stack=[obj, key, val]
    DefineDataProp,
    /// Define getter: stack=[obj, key, fn]
    DefineGetter,
    /// Define setter: stack=[obj, key, fn]
    DefineSetter,
    /// Define method with name (u16 name)
    DefineMethod,
    /// Object spread: {...source}
    ObjectSpread,
    /// Create RegExp (u16 pattern, u16 flags)
    CreateRegExp,
    /// Collect the remaining properties (u8 count, then count u16 excluded names)
    ObjectRest,
    /// Collect the remaining arguments (u16 first index)
    CollectRest,
    /// Append TOS to the array below it
    ArrayAppend,
    /// Exclude the computed key TOS from the next object rest
    PushComputedExclude,
    /// Set the prototype of the object below TOS
    SetObjectProto,
    /// Create closure from child chunk (u16 chunk_index + upvalue descriptors)
    Closure,
    /// Wide variant (u32 chunk_index)
    ClosureLong,
    /// Define instance field whose key is on the stack
    ClassFieldComputed,
    /// Define static field whose key is on the stack
    ClassStaticFieldComputed,
    /// Create class (u16 name)
    Class,
    /// Set up prototype chain: [subclass, superclass]
    Inherit,
    /// Define static method (u16 name)
    ClassStaticMethod,
    /// Define prototype method (u16 name)
    ClassMethod,
    /// Define instance field initializer (u16 name)
    ClassField,
    /// Define static field (u16 name)
    ClassStaticField,
    /// Define private method (u16 name)
    ClassPrivateMethod,
    /// Push super constructor for super() calls
    GetSuperConstructor,
    /// Throw TOS as exception
    Throw,
    /// Register exception handler (u16 catch_offset, u16 finally_offset)
    PushExcHandler,
    /// Unregister innermost handler
    PopExcHandler,
    /// Push completion type for finally
    EnterFinally,
    /// Rethrow/continue based on completion type
    LeaveFinally,
    /// Replace TOS with its [Symbol.iterator]()
    GetIterator,
    /// [Symbol.asyncIterator]()
    GetAsyncIterator,
    /// Call .next(), push result
    IteratorNext,
    /// Push .done field of iterator result
    IteratorDone,
    /// Push .value field of iterator result
    IteratorValue,
    /// Call .return() on iterator
    IteratorClose,
    /// Replace TOS with an iterator over its enumerable keys
    GetForInIterator,
    /// Yield TOS (suspend generator)
    Yield,
    /// yield* expression (delegate)
    YieldStar,
    /// Await TOS (suspend async function)
    Await,
    /// Wrap current frame as generator object
    CreateGenerator,
    /// Return from async function (resolve promise)
    AsyncReturn,
    /// Reject the async function's promise
    AsyncThrow,
    /// Pop iterable, push N values (u8 count)
    DestructureArray,
    /// Collect remaining into array (u8 already_consumed)
    DestructureRest,
    /// Pop object, push named values (u8 count)
    DestructureObject,
    /// If TOS is undefined, jump to default (i16 offset)
    DestructureDefault,
    /// Static import (u16 specifier)
    ImportModule,
    /// Dynamic import() -- returns promise
    ImportDynamic,
    /// Export binding (u16 name, u8 slot)
    Export,
    /// Export default value
    ExportDefault,
    /// Read imported binding (u16 module, u16 binding)
    GetModuleVar,
    /// Re-export every binding of a module (u16 name)
    ExportAllFrom,
    /// Assign through a resolved `with` reference (u16 name, i16 offset)
    WithRefSet,
    /// Push the `with` object that holds a name, or undefined (u16 name)
    WithRefResolve,
    /// debugger statement
    Debugger,
    /// Push new.target
    NewTarget,
    /// Push import.meta
    ImportMeta,
    /// Tagged template call (u8 count)
    TemplateTag,
    /// Collect remaining args into array (u8 from_arg)
    CreateRestParam,
    /// Convert TOS to property key
    ToPropertyKey,
    /// Enter a parameter default expression
    BeginParamExpr,
    /// Set inferred name on TOS function (u16 name)
    SetFunctionName,
    /// Leave a parameter default expression
    EndParamExpr,
    /// Enter with scope (non-strict)
    WithEnter,
    /// Exit with scope
    WithExit,
    /// Pop TOS into the completion register
    SetCompletion,
    /// Read a name off the `with` scope and jump, else fall through (u16 name, i16 offset)
    WithGetCheck,
    /// Assign a name in the `with` scope and jump, else fall through (u16 name, i16 offset)
    WithSetCheck,
    /// Read through a resolved `with` reference (u16 name, i16 offset)
    WithRefGet,
    /// Stop execution
    Halt,
}

impl OpCode {
    /// The byte that encodes an opcode.
    pub open spec fn byte(self) -> u8 {
        match self {
            OpCode::Nop => 0x00,
            OpCode::Const => 0x01,
            OpCode::ConstLong => 0x02,
            OpCode::Undefined => 0x03,
            OpCode::Null => 0x04,
            OpCode::True => 0x05,
            OpCode::False => 0x06,
            OpCode::Zero => 0x07,
            OpCode::One => 0x08,
            OpCode::LoadBigInt => 0x0A,
            OpCode::PushEmpty => 0x0B,
            OpCode::GetUpvalueWide => 0x0C,
            OpCode::Pop => 0x10,
            OpCode::PopN => 0x11,
            OpCode::Dup => 0x12,
            OpCode::Dup2 => 0x13,
            OpCode::Swap => 0x14,
            OpCode::Rot3 => 0x15,
            OpCode::Add => 0x20,
            OpCode::Sub => 0x21,
            OpCode::Mul => 0x22,
            OpCode::Div => 0x23,
            OpCode::Rem => 0x24,
            OpCode::Exp => 0x25,
            OpCode::Neg => 0x26,
            OpCode::Pos => 0x27,
            OpCode::Inc => 0x28,
            OpCode::Dec => 0x29,
            OpCode::ToNumeric => 0x2A,
            OpCode::BitAnd => 0x30,
            OpCode::BitOr => 0x31,
            OpCode::BitXor => 0x32,
            OpCode::BitNot => 0x33,
            OpCode::Shl => 0x34,
            OpCode::Shr => 0x35,
            OpCode::UShr => 0x36,
            OpCode::Eq => 0x40,
            OpCode::Ne => 0x41,
            OpCode::StrictEq => 0x42,
            OpCode::StrictNe => 0x43,
            OpCode::Lt => 0x44,
            OpCode::Le => 0x45,
            OpCode::Gt => 0x46,
            OpCode::Ge => 0x47,
            OpCode::InstanceOf => 0x48,
            OpCode::In => 0x49,
            OpCode::Not => 0x50,
            OpCode::TypeOf => 0x51,
            OpCode::TypeOfGlobal => 0x52,
            OpCode::Void => 0x53,
            OpCode::DeleteProp => 0x54,
            OpCode::DeleteGlobal => 0x55,
            OpCode::Jump => 0x60,
            OpCode::JumpLong => 0x61,
            OpCode::JumpIfFalse => 0x62,
            OpCode::JumpIfTrue => 0x63,
            OpCode::JumpIfFalsePeek => 0x64,
            OpCode::JumpIfTruePeek => 0x65,
            OpCode::JumpIfNullishPeek => 0x66,
            OpCode::Loop => 0x67,
            OpCode::GetLocal => 0x70,
            OpCode::SetLocal => 0x71,
            OpCode::GetLocalWide => 0x72,
            OpCode::SetLocalWide => 0x73,
            OpCode::GetUpvalue => 0x74,
            OpCode::SetUpvalue => 0x75,
            OpCode::CloseUpvalue => 0x76,
            OpCode::GetGlobal => 0x78,
            OpCode::SetGlobal => 0x79,
            OpCode::DefineGlobal => 0x7A,
            OpCode::InitLet => 0x7B,
            OpCode::CheckTdz => 0x7C,
            OpCode::SetUpvalueWide => 0x7D,
            OpCode::DefineGlobalLex => 0x7E,
            OpCode::GetProperty => 0x80,
            OpCode::SetProperty => 0x81,
            OpCode::GetElement => 0x82,
            OpCode::SetElement => 0x83,
            OpCode::GetSuper => 0x84,
            OpCode::GetSuperElem => 0x85,
            OpCode::OptionalChain => 0x86,
            OpCode::GetPrivate => 0x87,
            OpCode::SetPrivate => 0x88,
            OpCode::HasPrivate => 0x89,
            OpCode::GetSuperClass => 0x8A,
            OpCode::Call => 0x90,
            OpCode::CallMethod => 0x91,
            OpCode::Construct => 0x92,
            OpCode::SpreadCall => 0x93,
            OpCode::SpreadConstruct => 0x94,
            OpCode::Return => 0x95,
            OpCode::ReturnUndefined => 0x96,
            OpCode::LoadCallee => 0x97,
            OpCode::CreateObject => 0xA0,
            OpCode::CreateArray => 0xA1,
            OpCode::SetArrayItem => 0xA2,
            OpCode::ArraySpread => 0xA3,
            OpCode::DefineDataProp => 0xA4,
            OpCode::DefineGetter => 0xA5,
            OpCode::DefineSetter => 0xA6,
            OpCode::DefineMethod => 0xA7,
            OpCode::ObjectSpread => 0xA8,
            OpCode::CreateRegExp => 0xA9,
            OpCode::ObjectRest => 0xAA,
            OpCode::CollectRest => 0xAB,
            OpCode::ArrayAppend => 0xAC,
            OpCode::PushComputedExclude => 0xAD,
            OpCode::SetObjectProto => 0xAE,
            OpCode::Closure => 0xB0,
            OpCode::ClosureLong => 0xB1,
            OpCode::ClassFieldComputed => 0xB2,
            OpCode::ClassStaticFieldComputed => 0xB3,
            OpCode::Class => 0xB8,
            OpCode::Inherit => 0xB9,
            OpCode::ClassStaticMethod => 0xBA,
            OpCode::ClassMethod => 0xBB,
            OpCode::ClassField => 0xBC,
            OpCode::ClassStaticField => 0xBD,
            OpCode::ClassPrivateMethod => 0xBE,
            OpCode::GetSuperConstructor => 0xBF,
            OpCode::Throw => 0xC0,
            OpCode::PushExcHandler => 0xC1,
            OpCode::PopExcHandler => 0xC2,
            OpCode::EnterFinally => 0xC3,
            OpCode::LeaveFinally => 0xC4,
            OpCode::GetIterator => 0xD0,
            OpCode::GetAsyncIterator => 0xD1,
            OpCode::IteratorNext => 0xD2,
            OpCode::IteratorDone => 0xD3,
            OpCode::IteratorValue => 0xD4,
            OpCode::IteratorClose => 0xD5,
            OpCode::GetForInIterator => 0xD6,
            OpCode::Yield => 0xD8,
            OpCode::YieldStar => 0xD9,
            OpCode::Await => 0xDA,
            OpCode::CreateGenerator => 0xDB,
            OpCode::AsyncReturn => 0xDC,
            OpCode::AsyncThrow => 0xDD,
            OpCode::DestructureArray => 0xE0,
            OpCode::DestructureRest => 0xE1,
            OpCode::DestructureObject => 0xE2,
            OpCode::DestructureDefault => 0xE3,
            OpCode::ImportModule => 0xE8,
            OpCode::ImportDynamic => 0xE9,
            OpCode::Export => 0xEA,
            OpCode::ExportDefault => 0xEB,
            OpCode::GetModuleVar => 0xEC,
            OpCode::ExportAllFrom => 0xED,
            OpCode::WithRefSet => 0xEE,
            OpCode::WithRefResolve => 0xEF,
            OpCode::Debugger => 0xF0,
            OpCode::NewTarget => 0xF1,
            OpCode::ImportMeta => 0xF2,
            OpCode::TemplateTag => 0xF3,
            OpCode::CreateRestParam => 0xF4,
            OpCode::ToPropertyKey => 0xF5,
            OpCode::BeginParamExpr => 0xF6,
            OpCode::SetFunctionName => 0xF7,
            OpCode::EndParamExpr => 0xF8,
            OpCode::WithEnter => 0xF9,
            OpCode::WithExit => 0xFA,
            OpCode::SetCompletion => 0xFB,
            OpCode::WithGetCheck => 0xFC,
            OpCode::WithSetCheck => 0xFD,
            OpCode::WithRefGet => 0xFE,
            OpCode::Halt => 0xFF,
        }
    }

    /// The opcode of the core set that a byte encodes, if it encodes one.
    pub open spec fn of_byte(byte: u8) -> Option<OpCode> {
        if byte == 0x00 {
            Some(OpCode::Nop)
        } else if byte == 0x01 {
            Some(OpCode::Const)
        } else if byte == 0x02 {
            Some(OpCode::ConstLong)
        } else if byte == 0x03 {
            Some(OpCode::Undefined)
        } else if byte == 0x04 {
            Some(OpCode::Null)
        } else if byte == 0x05 {
            Some(OpCode::True)
        } else if byte == 0x06 {
            Some(OpCode::False)
        } else if byte == 0x07 {
            Some(OpCode::Zero)
        } else if byte == 0x08 {
            Some(OpCode::One)
        } else if byte == 0x10 {
            Some(OpCode::Pop)
        } else if byte == 0x11 {
            Some(OpCode::PopN)
        } else if byte == 0x12 {
            Some(OpCode::Dup)
        } else if byte == 0x13 {
            Some(OpCode::Dup2)
        } else if byte == 0x14 {
            Some(OpCode::Swap)
        } else if byte == 0x15 {
            Some(OpCode::Rot3)
        } else if byte == 0x20 {
            Some(OpCode::Add)
        } else if byte == 0x21 {
            Some(OpCode::Sub)
        } else if byte == 0x22 {
            Some(OpCode::Mul)
        } else if byte == 0x23 {
            Some(OpCode::Div)
        } else if byte == 0x24 {
            Some(OpCode::Rem)
        } else if byte == 0x25 {
            Some(OpCode::Exp)
        } else if byte == 0x26 {
            Some(OpCode::Neg)
        } else if byte == 0x27 {
            Some(OpCode::Pos)
        } else if byte == 0x28 {
            Some(OpCode::Inc)
        } else if byte == 0x29 {
            Some(OpCode::Dec)
        } else if byte == 0x30 {
            Some(OpCode::BitAnd)
        } else if byte == 0x31 {
            Some(OpCode::BitOr)
        } else if byte == 0x32 {
            Some(OpCode::BitXor)
        } else if byte == 0x33 {
            Some(OpCode::BitNot)
        } else if byte == 0x34 {
            Some(OpCode::Shl)
        } else if byte == 0x35 {
            Some(OpCode::Shr)
        } else if byte == 0x36 {
            Some(OpCode::UShr)
        } else if byte == 0x40 {
            Some(OpCode::Eq)
        } else if byte == 0x41 {
            Some(OpCode::Ne)
        } else if byte == 0x42 {
            Some(OpCode::StrictEq)
        } else if byte == 0x43 {
            Some(OpCode::StrictNe)
        } else if byte == 0x44 {
            Some(OpCode::Lt)
        } else if byte == 0x45 {
            Some(OpCode::Le)
        } else if byte == 0x46 {
            Some(OpCode::Gt)
        } else if byte == 0x47 {
            Some(OpCode::Ge)
        } else if byte == 0x48 {
            Some(OpCode::InstanceOf)
        } else if byte == 0x49 {
            Some(OpCode::In)
        } else if byte == 0x50 {
            Some(OpCode::Not)
        } else if byte == 0x51 {
            Some(OpCode::TypeOf)
        } else if byte == 0x52 {
            Some(OpCode::TypeOfGlobal)
        } else if byte == 0x53 {
            Some(OpCode::Void)
        } else if byte == 0x54 {
            Some(OpCode::DeleteProp)
        } else if byte == 0x55 {
            Some(OpCode::DeleteGlobal)
        } else if byte == 0x60 {
            Some(OpCode::Jump)
        } else if byte == 0x61 {
            Some(OpCode::JumpLong)
        } else if byte == 0x62 {
            Some(OpCode::JumpIfFalse)
        } else if byte == 0x63 {
            Some(OpCode::JumpIfTrue)
        } else if byte == 0x64 {
            Some(OpCode::JumpIfFalsePeek)
        } else if byte == 0x65 {
            Some(OpCode::JumpIfTruePeek)
        } else if byte == 0x66 {
            Some(OpCode::JumpIfNullishPeek)
        } else if byte == 0x67 {
            Some(OpCode::Loop)
        } else if byte == 0x70 {
            Some(OpCode::GetLocal)
        } else if byte == 0x71 {
            Some(OpCode::SetLocal)
        } else if byte == 0x72 {
            Some(OpCode::GetLocalWide)
        } else if byte == 0x73 {
            Some(OpCode::SetLocalWide)
        } else if byte == 0x74 {
            Some(OpCode::GetUpvalue)
        } else if byte == 0x75 {
            Some(OpCode::SetUpvalue)
        } else if byte == 0x76 {
            Some(OpCode::CloseUpvalue)
        } else if byte == 0x78 {
            Some(OpCode::GetGlobal)
        } else if byte == 0x79 {
            Some(OpCode::SetGlobal)
        } else if byte == 0x7A {
            Some(OpCode::DefineGlobal)
        } else if byte == 0x7B {
            Some(OpCode::InitLet)
        } else if byte == 0x7C {
            Some(OpCode::CheckTdz)
        } else if byte == 0x80 {
            Some(OpCode::GetProperty)
        } else if byte == 0x81 {
            Some(OpCode::SetProperty)
        } else if byte == 0x82 {
            Some(OpCode::GetElement)
        } else if byte == 0x83 {
            Some(OpCode::SetElement)
        } else if byte == 0x84 {
            Some(OpCode::GetSuper)
        } else if byte == 0x85 {
            Some(OpCode::GetSuperElem)
        } else if byte == 0x86 {
            Some(OpCode::OptionalChain)
        } else if byte == 0x87 {
            Some(OpCode::GetPrivate)
        } else if byte == 0x88 {
            Some(OpCode::SetPrivate)
        } else if byte == 0x90 {
            Some(OpCode::Call)
        } else if byte == 0x91 {
            Some(OpCode::CallMethod)
        } else if byte == 0x92 {
            Some(OpCode::Construct)
        } else if byte == 0x93 {
            Some(OpCode::SpreadCall)
        } else if byte == 0x94 {
            Some(OpCode::SpreadConstruct)
        } else if byte == 0x95 {
            Some(OpCode::Return)
        } else if byte == 0x96 {
            Some(OpCode::ReturnUndefined)
        } else if byte == 0xA0 {
            Some(OpCode::CreateObject)
        } else if byte == 0xA1 {
            Some(OpCode::CreateArray)
        } else if byte == 0xA2 {
            Some(OpCode::SetArrayItem)
        } else if byte == 0xA3 {
            Some(OpCode::ArraySpread)
        } else if byte == 0xA4 {
            Some(OpCode::DefineDataProp)
        } else if byte == 0xA5 {
            Some(OpCode::DefineGetter)
        } else if byte == 0xA6 {
            Some(OpCode::DefineSetter)
        } else if byte == 0xA7 {
            Some(OpCode::DefineMethod)
        } else if byte == 0xA8 {
            Some(OpCode::ObjectSpread)
        } else if byte == 0xA9 {
            Some(OpCode::CreateRegExp)
        } else if byte == 0xB0 {
            Some(OpCode::Closure)
        } else if byte == 0xB1 {
            Some(OpCode::ClosureLong)
        } else if byte == 0xB8 {
            Some(OpCode::Class)
        } else if byte == 0xB9 {
            Some(OpCode::Inherit)
        } else if byte == 0xBA {
            Some(OpCode::ClassStaticMethod)
        } else if byte == 0xBB {
            Some(OpCode::ClassMethod)
        } else if byte == 0xBC {
            Some(OpCode::ClassField)
        } else if byte == 0xBD {
            Some(OpCode::ClassStaticField)
        } else if byte == 0xBE {
            Some(OpCode::ClassPrivateMethod)
        } else if byte == 0xBF {
            Some(OpCode::GetSuperConstructor)
        } else if byte == 0xC0 {
            Some(OpCode::Throw)
        } else if byte == 0xC1 {
            Some(OpCode::PushExcHandler)
        } else if byte == 0xC2 {
            Some(OpCode::PopExcHandler)
        } else if byte == 0xC3 {
            Some(OpCode::EnterFinally)
        } else if byte == 0xC4 {
            Some(OpCode::LeaveFinally)
        } else if byte == 0xD0 {
            Some(OpCode::GetIterator)
        } else if byte == 0xD1 {
            Some(OpCode::GetAsyncIterator)
        } else if byte == 0xD2 {
            Some(OpCode::IteratorNext)
        } else if byte == 0xD3 {
            Some(OpCode::IteratorDone)
        } else if byte == 0xD4 {
            Some(OpCode::IteratorValue)
        } else if byte == 0xD5 {
            Some(OpCode::IteratorClose)
        } else if byte == 0xD8 {
            Some(OpCode::Yield)
        } else if byte == 0xD9 {
            Some(OpCode::YieldStar)
        } else if byte == 0xDA {
            Some(OpCode::Await)
        } else if byte == 0xDB {
            Some(OpCode::CreateGenerator)
        } else if byte == 0xDC {
            Some(OpCode::AsyncReturn)
        } else if byte == 0xDD {
            Some(OpCode::AsyncThrow)
        } else if byte == 0xE0 {
            Some(OpCode::DestructureArray)
        } else if byte == 0xE1 {
            Some(OpCode::DestructureRest)
        } else if byte == 0xE2 {
            Some(OpCode::DestructureObject)
        } else if byte == 0xE3 {
            Some(OpCode::DestructureDefault)
        } else if byte == 0xE8 {
            Some(OpCode::ImportModule)
        } else if byte == 0xE9 {
            Some(OpCode::ImportDynamic)
        } else if byte == 0xEA {
            Some(OpCode::Export)
        } else if byte == 0xEB {
            Some(OpCode::ExportDefault)
        } else if byte == 0xEC {
            Some(OpCode::GetModuleVar)
        } else if byte == 0xF0 {
            Some(OpCode::Debugger)
        } else if byte == 0xF1 {
            Some(OpCode::NewTarget)
        } else if byte == 0xF2 {
            Some(OpCode::ImportMeta)
        } else if byte == 0xF3 {
            Some(OpCode::TemplateTag)
        } else if byte == 0xF4 {
            Some(OpCode::CreateRestParam)
        } else if byte == 0xF5 {
            Some(OpCode::ToPropertyKey)
        } else if byte == 0xF7 {
            Some(OpCode::SetFunctionName)
        } else if byte == 0xF9 {
            Some(OpCode::WithEnter)
        } else if byte == 0xFA {
            Some(OpCode::WithExit)
        } else if byte == 0xFF {
            Some(OpCode::Halt)
        } else {
            None
        }
    }

    /// The opcode that a byte encodes, of the core set or added, if it encodes one.
    pub open spec fn encoded_by(byte: u8) -> Option<OpCode> {
        if byte == 0x00 {
            Some(OpCode::Nop)
        } else if byte == 0x01 {
            Some(OpCode::Const)
        } else if byte == 0x02 {
            Some(OpCode::ConstLong)
        } else if byte == 0x03 {
            Some(OpCode::Undefined)
        } else if byte == 0x04 {
            Some(OpCode::Null)
        } else if byte == 0x05 {
            Some(OpCode::True)
        } else if byte == 0x06 {
            Some(OpCode::False)
        } else if byte == 0x07 {
            Some(OpCode::Zero)
        } else if byte == 0x08 {
            Some(OpCode::One)
        } else if byte == 0x0A {
            Some(OpCode::LoadBigInt)
        } else if byte == 0x0B {
            Some(OpCode::PushEmpty)
        } else if byte == 0x0C {
            Some(OpCode::GetUpvalueWide)
        } else if byte == 0x10 {
            Some(OpCode::Pop)
        } else if byte == 0x11 {
            Some(OpCode::PopN)
        } else if byte == 0x12 {
            Some(OpCode::Dup)
        } else if byte == 0x13 {
            Some(OpCode::Dup2)
        } else if byte == 0x14 {
            Some(OpCode::Swap)
        } else if byte == 0x15 {
            Some(OpCode::Rot3)
        } else if byte == 0x20 {
            Some(OpCode::Add)
        } else if byte == 0x21 {
            Some(OpCode::Sub)
        } else if byte == 0x22 {
            Some(OpCode::Mul)
        } else if byte == 0x23 {
            Some(OpCode::Div)
        } else if byte == 0x24 {
            Some(OpCode::Rem)
        } else if byte == 0x25 {
            Some(OpCode::Exp)
        } else if byte == 0x26 {
            Some(OpCode::Neg)
        } else if byte == 0x27 {
            Some(OpCode::Pos)
        } else if byte == 0x28 {
            Some(OpCode::Inc)
        } else if byte == 0x29 {
            Some(OpCode::Dec)
        } else if byte == 0x2A {
            Some(OpCode::ToNumeric)
        } else if byte == 0x30 {
            Some(OpCode::BitAnd)
        } else if byte == 0x31 {
            Some(OpCode::BitOr)
        } else if byte == 0x32 {
            Some(OpCode::BitXor)
        } else if byte == 0x33 {
            Some(OpCode::BitNot)
        } else if byte == 0x34 {
            Some(OpCode::Shl)
        } else if byte == 0x35 {
            Some(OpCode::Shr)
        } else if byte == 0x36 {
            Some(OpCode::UShr)
        } else if byte == 0x40 {
            Some(OpCode::Eq)
        } else if byte == 0x41 {
            Some(OpCode::Ne)
        } else if byte == 0x42 {
            Some(OpCode::StrictEq)
        } else if byte == 0x43 {
            Some(OpCode::StrictNe)
        } else if byte == 0x44 {
            Some(OpCode::Lt)
        } else if byte == 0x45 {
            Some(OpCode::Le)
        } else if byte == 0x46 {
            Some(OpCode::Gt)
        } else if byte == 0x47 {
            Some(OpCode::Ge)
        } else if byte == 0x48 {
            Some(OpCode::InstanceOf)
        } else if byte == 0x49 {
            Some(OpCode::In)
        } else if byte == 0x50 {
            Some(OpCode::Not)
        } else if byte == 0x51 {
            Some(OpCode::TypeOf)
        } else if byte == 0x52 {
            Some(OpCode::TypeOfGlobal)
        } else if byte == 0x53 {
            Some(OpCode::Void)
        } else if byte == 0x54 {
            Some(OpCode::DeleteProp)
        } else if byte == 0x55 {
            Some(OpCode::DeleteGlobal)
        } else if byte == 0x60 {
            Some(OpCode::Jump)
        } else if byte == 0x61 {
            Some(OpCode::JumpLong)
        } else if byte == 0x62 {
            Some(OpCode::JumpIfFalse)
        } else if byte == 0x63 {
            Some(OpCode::JumpIfTrue)
        } else if byte == 0x64 {
            Some(OpCode::JumpIfFalsePeek)
        } else if byte == 0x65 {
            Some(OpCode::JumpIfTruePeek)
        } else if byte == 0x66 {
            Some(OpCode::JumpIfNullishPeek)
        } else if byte == 0x67 {
            Some(OpCode::Loop)
        } else if byte == 0x70 {
            Some(OpCode::GetLocal)
        } else if byte == 0x71 {
            Some(OpCode::SetLocal)
        } else if byte == 0x72 {
            Some(OpCode::GetLocalWide)
        } else if byte == 0x73 {
            Some(OpCode::SetLocalWide)
        } else if byte == 0x74 {
            Some(OpCode::GetUpvalue)
        } else if byte == 0x75 {
            Some(OpCode::SetUpvalue)
        } else if byte == 0x76 {
            Some(OpCode::CloseUpvalue)
        } else if byte == 0x78 {
            Some(OpCode::GetGlobal)
        } else if byte == 0x79 {
            Some(OpCode::SetGlobal)
        } else if byte == 0x7A {
            Some(OpCode::DefineGlobal)
        } else if byte == 0x7B {
            Some(OpCode::InitLet)
        } else if byte == 0x7C {
            Some(OpCode::CheckTdz)
        } else if byte == 0x7D {
            Some(OpCode::SetUpvalueWide)
        } else if byte == 0x7E {
            Some(OpCode::DefineGlobalLex)
        } else if byte == 0x80 {
            Some(OpCode::GetProperty)
        } else if byte == 0x81 {
            Some(OpCode::SetProperty)
        } else if byte == 0x82 {
            Some(OpCode::GetElement)
        } else if byte == 0x83 {
            Some(OpCode::SetElement)
        } else if byte == 0x84 {
            Some(OpCode::GetSuper)
        } else if byte == 0x85 {
            Some(OpCode::GetSuperElem)
        } else if byte == 0x86 {
            Some(OpCode::OptionalChain)
        } else if byte == 0x87 {
            Some(OpCode::GetPrivate)
        } else if byte == 0x88 {
            Some(OpCode::SetPrivate)
        } else if byte == 0x89 {
            Some(OpCode::HasPrivate)
        } else if byte == 0x8A {
            Some(OpCode::GetSuperClass)
        } else if byte == 0x90 {
            Some(OpCode::Call)
        } else if byte == 0x91 {
            Some(OpCode::CallMethod)
        } else if byte == 0x92 {
            Some(OpCode::Construct)
        } else if byte == 0x93 {
            Some(OpCode::SpreadCall)
        } else if byte == 0x94 {
            Some(OpCode::SpreadConstruct)
        } else if byte == 0x95 {
            Some(OpCode::Return)
        } else if byte == 0x96 {
            Some(OpCode::ReturnUndefined)
        } else if byte == 0x97 {
            Some(OpCode::LoadCallee)
        } else if byte == 0xA0 {
            Some(OpCode::CreateObject)
        } else if byte == 0xA1 {
            Some(OpCode::CreateArray)
        } else if byte == 0xA2 {
            Some(OpCode::SetArrayItem)
        } else if byte == 0xA3 {
            Some(OpCode::ArraySpread)
        } else if byte == 0xA4 {
            Some(OpCode::DefineDataProp)
        } else if byte == 0xA5 {
            Some(OpCode::DefineGetter)
        } else if byte == 0xA6 {
            Some(OpCode::DefineSetter)
        } else if byte == 0xA7 {
            Some(OpCode::DefineMethod)
        } else if byte == 0xA8 {
            Some(OpCode::ObjectSpread)
        } else if byte == 0xA9 {
            Some(OpCode::CreateRegExp)
        } else if byte == 0xAA {
            Some(OpCode::ObjectRest)
        } else if byte == 0xAB {
            Some(OpCode::CollectRest)
        } else if byte == 0xAC {
            Some(OpCode::ArrayAppend)
        } else if byte == 0xAD {
            Some(OpCode::PushComputedExclude)
        } else if byte == 0xAE {
            Some(OpCode::SetObjectProto)
        } else if byte == 0xB0 {
            Some(OpCode::Closure)
        } else if byte == 0xB1 {
            Some(OpCode::ClosureLong)
        } else if byte == 0xB2 {
            Some(OpCode::ClassFieldComputed)
        } else if byte == 0xB3 {
            Some(OpCode::ClassStaticFieldComputed)
        } else if byte == 0xB8 {
            Some(OpCode::Class)
        } else if byte == 0xB9 {
            Some(OpCode::Inherit)
        } else if byte == 0xBA {
            Some(OpCode::ClassStaticMethod)
        } else if byte == 0xBB {
            Some(OpCode::ClassMethod)
        } else if byte == 0xBC {
            Some(OpCode::ClassField)
        } else if byte == 0xBD {
            Some(OpCode::ClassStaticField)
        } else if byte == 0xBE {
            Some(OpCode::ClassPrivateMethod)
        } else if byte == 0xBF {
            Some(OpCode::GetSuperConstructor)
        } else if byte == 0xC0 {
            Some(OpCode::Throw)
        } else if byte == 0xC1 {
            Some(OpCode::PushExcHandler)
        } else if byte == 0xC2 {
            Some(OpCode::PopExcHandler)
        } else if byte == 0xC3 {
            Some(OpCode::EnterFinally)
        } else if byte == 0xC4 {
            Some(OpCode::LeaveFinally)
        } else if byte == 0xD0 {
            Some(OpCode::GetIterator)
        } else if byte == 0xD1 {
            Some(OpCode::GetAsyncIterator)
        } else if byte == 0xD2 {
            Some(OpCode::IteratorNext)
        } else if byte == 0xD3 {
            Some(OpCode::IteratorDone)
        } else if byte == 0xD4 {
            Some(OpCode::IteratorValue)
        } else if byte == 0xD5 {
            Some(OpCode::IteratorClose)
        } else if byte == 0xD6 {
            Some(OpCode::GetForInIterator)
        } else if byte == 0xD8 {
            Some(OpCode::Yield)
        } else if byte == 0xD9 {
            Some(OpCode::YieldStar)
        } else if byte == 0xDA {
            Some(OpCode::Await)
        } else if byte == 0xDB {
            Some(OpCode::CreateGenerator)
        } else if byte == 0xDC {
            Some(OpCode::AsyncReturn)
        } else if byte == 0xDD {
            Some(OpCode::AsyncThrow)
        } else if byte == 0xE0 {
            Some(OpCode::DestructureArray)
        } else if byte == 0xE1 {
            Some(OpCode::DestructureRest)
        } else if byte == 0xE2 {
            Some(OpCode::DestructureObject)
        } else if byte == 0xE3 {
            Some(OpCode::DestructureDefault)
        } else if byte == 0xE8 {
            Some(OpCode::ImportModule)
        } else if byte == 0xE9 {
            Some(OpCode::ImportDynamic)
        } else if byte == 0xEA {
            Some(OpCode::Export)
        } else if byte == 0xEB {
            Some(OpCode::ExportDefault)
        } else if byte == 0xEC {
            Some(OpCode::GetModuleVar)
        } else if byte == 0xED {
            Some(OpCode::ExportAllFrom)
        } else if byte == 0xEE {
            Some(OpCode::WithRefSet)
        } else if byte == 0xEF {
            Some(OpCode::WithRefResolve)
        } else if byte == 0xF0 {
            Some(OpCode::Debugger)
        } else if byte == 0xF1 {
            Some(OpCode::NewTarget)
        } else if byte == 0xF2 {
            Some(OpCode::ImportMeta)
        } else if byte == 0xF3 {
            Some(OpCode::TemplateTag)
        } else if byte == 0xF4 {
            Some(OpCode::CreateRestParam)
        } else if byte == 0xF5 {
            Some(OpCode::ToPropertyKey)
        } else if byte == 0xF6 {
            Some(OpCode::BeginParamExpr)
        } else if byte == 0xF7 {
            Some(OpCode::SetFunctionName)
        } else if byte == 0xF8 {
            Some(OpCode::EndParamExpr)
        } else if byte == 0xF9 {
            Some(OpCode::WithEnter)
        } else if byte == 0xFA {
            Some(OpCode::WithExit)
        } else if byte == 0xFB {
            Some(OpCode::SetCompletion)
        } else if byte == 0xFC {
            Some(OpCode::WithGetCheck)
        } else if byte == 0xFD {
            Some(OpCode::WithSetCheck)
        } else if byte == 0xFE {
            Some(OpCode::WithRefGet)
        } else if byte == 0xFF {
            Some(OpCode::Halt)
        } else {
            None
        }
    }

    /// Whether an opcode is added to the core set.
    pub open spec fn added(self) -> bool {
        match self {
            OpCode::LoadBigInt | OpCode::PushEmpty | OpCode::ToNumeric | OpCode::GetUpvalueWide
            | OpCode::SetUpvalueWide | OpCode::DefineGlobalLex | OpCode::HasPrivate
            | OpCode::GetSuperClass | OpCode::LoadCallee | OpCode::ObjectRest
            | OpCode::CollectRest | OpCode::ArrayAppend | OpCode::PushComputedExclude
            | OpCode::SetObjectProto | OpCode::ClassFieldComputed
            | OpCode::ClassStaticFieldComputed | OpCode::GetForInIterator
            | OpCode::ExportAllFrom | OpCode::WithRefSet | OpCode::WithRefResolve
            | OpCode::BeginParamExpr | OpCode::EndParamExpr | OpCode::SetCompletion
            | OpCode::WithGetCheck | OpCode::WithSetCheck | OpCode::WithRefGet => true,
            _ => false,
        }
    }

    /// The mnemonic of an opcode.
    pub open spec fn mnemonic(self) -> Seq<char> {
        match self {
            OpCode::Nop => "Nop"@,
            OpCode::Const => "Const"@,
            OpCode::ConstLong => "ConstLong"@,
            OpCode::Undefined => "Undefined"@,
            OpCode::Null => "Null"@,
            OpCode::True => "True"@,
            OpCode::False => "False"@,
            OpCode::Zero => "Zero"@,
            OpCode::One => "One"@,
            OpCode::PushEmpty => "PushEmpty"@,
            OpCode::LoadBigInt => "LoadBigInt"@,
            OpCode::Pop => "Pop"@,
            OpCode::PopN => "PopN"@,
            OpCode::Dup => "Dup"@,
            OpCode::Dup2 => "Dup2"@,
            OpCode::Swap => "Swap"@,
            OpCode::Rot3 => "Rot3"@,
            OpCode::Add => "Add"@,
            OpCode::Sub => "Sub"@,
            OpCode::Mul => "Mul"@,
            OpCode::Div => "Div"@,
            OpCode::Rem => "Rem"@,
            OpCode::Exp => "Exp"@,
            OpCode::Neg => "Neg"@,
            OpCode::Pos => "Pos"@,
            OpCode::Inc => "Inc"@,
            OpCode::Dec => "Dec"@,
            OpCode::ToNumeric => "ToNumeric"@,
            OpCode::BitAnd => "BitAnd"@,
            OpCode::BitOr => "BitOr"@,
            OpCode::BitXor => "BitXor"@,
            OpCode::BitNot => "BitNot"@,
            OpCode::Shl => "Shl"@,
            OpCode::Shr => "Shr"@,
            OpCode::UShr => "UShr"@,
            OpCode::Eq => "Eq"@,
            OpCode::Ne => "Ne"@,
            OpCode::StrictEq => "StrictEq"@,
            OpCode::StrictNe => "StrictNe"@,
            OpCode::Lt => "Lt"@,
            OpCode::Le => "Le"@,
            OpCode::Gt => "Gt"@,
            OpCode::Ge => "Ge"@,
            OpCode::InstanceOf => "InstanceOf"@,
            OpCode::In => "In"@,
            OpCode::Not => "Not"@,
            OpCode::TypeOf => "TypeOf"@,
            OpCode::TypeOfGlobal => "TypeOfGlobal"@,
            OpCode::Void => "Void"@,
            OpCode::DeleteProp => "DeleteProp"@,
            OpCode::DeleteGlobal => "DeleteGlobal"@,
            OpCode::Jump => "Jump"@,
            OpCode::JumpLong => "JumpLong"@,
            OpCode::JumpIfFalse => "JumpIfFalse"@,
            OpCode::JumpIfTrue => "JumpIfTrue"@,
            OpCode::JumpIfFalsePeek => "JumpIfFalsePeek"@,
            OpCode::JumpIfTruePeek => "JumpIfTruePeek"@,
            OpCode::JumpIfNullishPeek => "JumpIfNullishPeek"@,
            OpCode::Loop => "Loop"@,
            OpCode::GetLocal => "GetLocal"@,
            OpCode::SetLocal => "SetLocal"@,
            OpCode::GetLocalWide => "GetLocalWide"@,
            OpCode::SetLocalWide => "SetLocalWide"@,
            OpCode::GetUpvalue => "GetUpvalue"@,
            OpCode::SetUpvalue => "SetUpvalue"@,
            OpCode::CloseUpvalue => "CloseUpvalue"@,
            OpCode::GetUpvalueWide => "GetUpvalueWide"@,
            OpCode::GetGlobal => "GetGlobal"@,
            OpCode::SetGlobal => "SetGlobal"@,
            OpCode::DefineGlobal => "DefineGlobal"@,
            OpCode::InitLet => "InitLet"@,
            OpCode::CheckTdz => "CheckTdz"@,
            OpCode::SetUpvalueWide => "SetUpvalueWide"@,
            OpCode::DefineGlobalLex => "DefineGlobalLex"@,
            OpCode::GetProperty => "GetProperty"@,
            OpCode::SetProperty => "SetProperty"@,
            OpCode::GetElement => "GetElement"@,
            OpCode::SetElement => "SetElement"@,
            OpCode::GetSuper => "GetSuper"@,
            OpCode::GetSuperElem => "GetSuperElem"@,
            OpCode::OptionalChain => "OptionalChain"@,
            OpCode::GetPrivate => "GetPrivate"@,
            OpCode::SetPrivate => "SetPrivate"@,
            OpCode::HasPrivate => "HasPrivate"@,
            OpCode::GetSuperClass => "GetSuperClass"@,
            OpCode::Call => "Call"@,
            OpCode::CallMethod => "CallMethod"@,
            OpCode::Construct => "Construct"@,
            OpCode::SpreadCall => "SpreadCall"@,
            OpCode::SpreadConstruct => "SpreadConstruct"@,
            OpCode::Return => "Return"@,
            OpCode::ReturnUndefined => "ReturnUndefined"@,
            OpCode::LoadCallee => "LoadCallee"@,
            OpCode::CreateObject => "CreateObject"@,
            OpCode::CreateArray => "CreateArray"@,
            OpCode::SetArrayItem => "SetArrayItem"@,
            OpCode::ArraySpread => "ArraySpread"@,
            OpCode::DefineDataProp => "DefineDataProp"@,
            OpCode::DefineGetter => "DefineGetter"@,
            OpCode::DefineSetter => "DefineSetter"@,
            OpCode::DefineMethod => "DefineMethod"@,
            OpCode::ObjectSpread => "ObjectSpread"@,
            OpCode::CreateRegExp => "CreateRegExp"@,
            OpCode::ObjectRest => "ObjectRest"@,
            OpCode::CollectRest => "CollectRest"@,
            OpCode::ArrayAppend => "ArrayAppend"@,
            OpCode::PushComputedExclude => "PushComputedExclude"@,
            OpCode::SetObjectProto => "SetObjectProto"@,
            OpCode::Closure => "Closure"@,
            OpCode::ClosureLong => "ClosureLong"@,
            OpCode::ClassFieldComputed => "ClassFieldComputed"@,
            OpCode::ClassStaticFieldComputed => "ClassStaticFieldComputed"@,
            OpCode::Class => "Class"@,
            OpCode::Inherit => "Inherit"@,
            OpCode::ClassStaticMethod => "ClassStaticMethod"@,
            OpCode::ClassMethod => "ClassMethod"@,
            OpCode::ClassField => "ClassField"@,
            OpCode::ClassStaticField => "ClassStaticField"@,
            OpCode::ClassPrivateMethod => "ClassPrivateMethod"@,
            OpCode::GetSuperConstructor => "GetSuperConstructor"@,
            OpCode::Throw => "Throw"@,
            OpCode::PushExcHandler => "PushExcHandler"@,
            OpCode::PopExcHandler => "PopExcHandler"@,
            OpCode::EnterFinally => "EnterFinally"@,
            OpCode::LeaveFinally => "LeaveFinally"@,
            OpCode::GetIterator => "GetIterator"@,
            OpCode::GetAsyncIterator => "GetAsyncIterator"@,
            OpCode::IteratorNext => "IteratorNext"@,
            OpCode::IteratorDone => "IteratorDone"@,
            OpCode::IteratorValue => "IteratorValue"@,
            OpCode::IteratorClose => "IteratorClose"@,
            OpCode::GetForInIterator => "GetForInIterator"@,
            OpCode::Yield => "Yield"@,
            OpCode::YieldStar => "YieldStar"@,
            OpCode::Await => "Await"@,
            OpCode::CreateGenerator => "CreateGenerator"@,
            OpCode::AsyncReturn => "AsyncReturn"@,
            OpCode::AsyncThrow => "AsyncThrow"@,
            OpCode::DestructureArray => "DestructureArray"@,
            OpCode::DestructureRest => "DestructureRest"@,
            OpCode::DestructureObject => "DestructureObject"@,
            OpCode::DestructureDefault => "DestructureDefault"@,
            OpCode::ImportModule => "ImportModule"@,
            OpCode::ImportDynamic => "ImportDynamic"@,
            OpCode::Export => "Export"@,
            OpCode::ExportDefault => "ExportDefault"@,
            OpCode::GetModuleVar => "GetModuleVar"@,
            OpCode::ExportAllFrom => "ExportAllFrom"@,
            OpCode::WithRefSet => "WithRefSet"@,
            OpCode::WithRefResolve => "WithRefResolve"@,
            OpCode::Debugger => "Debugger"@,
            OpCode::NewTarget => "NewTarget"@,
            OpCode::ImportMeta => "ImportMeta"@,
            OpCode::TemplateTag => "TemplateTag"@,
            OpCode::CreateRestParam => "CreateRestParam"@,
            OpCode::ToPropertyKey => "ToPropertyKey"@,
            OpCode::BeginParamExpr => "BeginParamExpr"@,
            OpCode::SetFunctionName => "SetFunctionName"@,
            OpCode::EndParamExpr => "EndParamExpr"@,
            OpCode::WithEnter => "WithEnter"@,
            OpCode::WithExit => "WithExit"@,
            OpCode::SetCompletion => "SetCompletion"@,
            OpCode::WithGetCheck => "WithGetCheck"@,
            OpCode::WithSetCheck => "WithSetCheck"@,
            OpCode::WithRefGet => "WithRefGet"@,
            OpCode::Halt => "Halt"@,
        }
    }

    /// The size of an instruction in bytes, operands included. The excluded names of
    /// `ObjectRest` and the capture list of `Closure` come on top.
    pub open spec fn size(self) -> nat {
        match self {
            OpCode::Nop | OpCode::Undefined | OpCode::Null | OpCode::True | OpCode::False
            | OpCode::Zero | OpCode::One | OpCode::PushEmpty | OpCode::Pop | OpCode::Dup
            | OpCode::Dup2 | OpCode::Swap | OpCode::Rot3 | OpCode::Add | OpCode::Sub
            | OpCode::Mul | OpCode::Div | OpCode::Rem | OpCode::Exp | OpCode::Neg | OpCode::Pos
            | OpCode::Inc | OpCode::Dec | OpCode::ToNumeric | OpCode::BitAnd | OpCode::BitOr
            | OpCode::BitXor | OpCode::BitNot | OpCode::Shl | OpCode::Shr | OpCode::UShr
            | OpCode::Eq | OpCode::Ne | OpCode::StrictEq | OpCode::StrictNe | OpCode::Lt
            | OpCode::Le | OpCode::Gt | OpCode::Ge | OpCode::InstanceOf | OpCode::In
            | OpCode::Not | OpCode::TypeOf | OpCode::Void | OpCode::DeleteProp
            | OpCode::CloseUpvalue | OpCode::GetElement | OpCode::SetElement
            | OpCode::GetSuperElem | OpCode::GetSuperClass | OpCode::Return
            | OpCode::ReturnUndefined | OpCode::LoadCallee | OpCode::CreateObject
            | OpCode::ArraySpread | OpCode::DefineDataProp | OpCode::DefineGetter
            | OpCode::DefineSetter | OpCode::ObjectSpread | OpCode::ArrayAppend
            | OpCode::PushComputedExclude | OpCode::SetObjectProto | OpCode::ClassFieldComputed
            | OpCode::ClassStaticFieldComputed | OpCode::Inherit | OpCode::GetSuperConstructor
            | OpCode::Throw | OpCode::PopExcHandler | OpCode::EnterFinally
            | OpCode::LeaveFinally | OpCode::GetIterator | OpCode::GetAsyncIterator
            | OpCode::IteratorNext | OpCode::IteratorDone | OpCode::IteratorValue
            | OpCode::IteratorClose | OpCode::GetForInIterator | OpCode::Yield
            | OpCode::YieldStar | OpCode::Await | OpCode::CreateGenerator | OpCode::AsyncReturn
            | OpCode::AsyncThrow | OpCode::ImportDynamic | OpCode::ExportDefault
            | OpCode::Debugger | OpCode::NewTarget | OpCode::ImportMeta | OpCode::ToPropertyKey
            | OpCode::BeginParamExpr | OpCode::EndParamExpr | OpCode::WithEnter
            | OpCode::WithExit | OpCode::SetCompletion | OpCode::Halt => 1,
            OpCode::PopN | OpCode::GetLocal | OpCode::SetLocal | OpCode::GetUpvalue
            | OpCode::SetUpvalue | OpCode::InitLet | OpCode::CheckTdz | OpCode::Call
            | OpCode::Construct | OpCode::SpreadCall | OpCode::SpreadConstruct
            | OpCode::ObjectRest | OpCode::DestructureArray | OpCode::DestructureRest
            | OpCode::DestructureObject | OpCode::TemplateTag | OpCode::CreateRestParam => 2,
            OpCode::Const | OpCode::LoadBigInt | OpCode::TypeOfGlobal | OpCode::DeleteGlobal
            | OpCode::Jump | OpCode::JumpIfFalse | OpCode::JumpIfTrue | OpCode::JumpIfFalsePeek
            | OpCode::JumpIfTruePeek | OpCode::JumpIfNullishPeek | OpCode::Loop
            | OpCode::GetLocalWide | OpCode::SetLocalWide | OpCode::GetUpvalueWide
            | OpCode::GetGlobal | OpCode::SetGlobal | OpCode::DefineGlobal
            | OpCode::SetUpvalueWide | OpCode::DefineGlobalLex | OpCode::GetSuper
            | OpCode::OptionalChain | OpCode::GetPrivate | OpCode::SetPrivate
            | OpCode::HasPrivate | OpCode::CreateArray | OpCode::DefineMethod
            | OpCode::CollectRest | OpCode::Closure | OpCode::Class | OpCode::ClassStaticMethod
            | OpCode::ClassMethod | OpCode::ClassField | OpCode::ClassStaticField
            | OpCode::ClassPrivateMethod | OpCode::DestructureDefault | OpCode::ImportModule
            | OpCode::ExportAllFrom | OpCode::WithRefResolve | OpCode::SetFunctionName => 3,
            OpCode::CallMethod | OpCode::Export => 4,
            OpCode::ConstLong | OpCode::JumpLong | OpCode::GetProperty | OpCode::SetProperty
            | OpCode::SetArrayItem | OpCode::CreateRegExp | OpCode::ClosureLong
            | OpCode::PushExcHandler | OpCode::GetModuleVar | OpCode::WithRefSet
            | OpCode::WithGetCheck | OpCode::WithSetCheck | OpCode::WithRefGet => 5,
        }
    }

    /// The byte that encodes the opcode.
    pub fn to_byte(self) -> (byte: u8)
        ensures
            byte == self.byte(),
    {
        match self {
            OpCode::Nop => 0x00,
            OpCode::Const => 0x01,
            OpCode::ConstLong => 0x02,
            OpCode::Undefined => 0x03,
            OpCode::Null => 0x04,
            OpCode::True => 0x05,
            OpCode::False => 0x06,
            OpCode::Zero => 0x07,
            OpCode::One => 0x08,
            OpCode::LoadBigInt => 0x0A,
            OpCode::PushEmpty => 0x0B,
            OpCode::GetUpvalueWide => 0x0C,
            OpCode::Pop => 0x10,
            OpCode::PopN => 0x11,
            OpCode::Dup => 0x12,
            OpCode::Dup2 => 0x13,
            OpCode::Swap => 0x14,
            OpCode::Rot3 => 0x15,
            OpCode::Add => 0x20,
            OpCode::Sub => 0x21,
            OpCode::Mul => 0x22,
            OpCode::Div => 0x23,
            OpCode::Rem => 0x24,
            OpCode::Exp => 0x25,
            OpCode::Neg => 0x26,
            OpCode::Pos => 0x27,
            OpCode::Inc => 0x28,
            OpCode::Dec => 0x29,
            OpCode::ToNumeric => 0x2A,
            OpCode::BitAnd => 0x30,
            OpCode::BitOr => 0x31,
            OpCode::BitXor => 0x32,
            OpCode::BitNot => 0x33,
            OpCode::Shl => 0x34,
            OpCode::Shr => 0x35,
            OpCode::UShr => 0x36,
            OpCode::Eq => 0x40,
            OpCode::Ne => 0x41,
            OpCode::StrictEq => 0x42,
            OpCode::StrictNe => 0x43,
            OpCode::Lt => 0x44,
            OpCode::Le => 0x45,
            OpCode::Gt => 0x46,
            OpCode::Ge => 0x47,
            OpCode::InstanceOf => 0x48,
            OpCode::In => 0x49,
            OpCode::Not => 0x50,
            OpCode::TypeOf => 0x51,
            OpCode::TypeOfGlobal => 0x52,
            OpCode::Void => 0x53,
            OpCode::DeleteProp => 0x54,
            OpCode::DeleteGlobal => 0x55,
            OpCode::Jump => 0x60,
            OpCode::JumpLong => 0x61,
            OpCode::JumpIfFalse => 0x62,
            OpCode::JumpIfTrue => 0x63,
            OpCode::JumpIfFalsePeek => 0x64,
            OpCode::JumpIfTruePeek => 0x65,
            OpCode::JumpIfNullishPeek => 0x66,
            OpCode::Loop => 0x67,
            OpCode::GetLocal => 0x70,
            OpCode::SetLocal => 0x71,
            OpCode::GetLocalWide => 0x72,
            OpCode::SetLocalWide => 0x73,
            OpCode::GetUpvalue => 0x74,
            OpCode::SetUpvalue => 0x75,
            OpCode::CloseUpvalue => 0x76,
            OpCode::GetGlobal => 0x78,
            OpCode::SetGlobal => 0x79,
            OpCode::DefineGlobal => 0x7A,
            OpCode::InitLet => 0x7B,
            OpCode::CheckTdz => 0x7C,
            OpCode::SetUpvalueWide => 0x7D,
            OpCode::DefineGlobalLex => 0x7E,
            OpCode::GetProperty => 0x80,
            OpCode::SetProperty => 0x81,
            OpCode::GetElement => 0x82,
            OpCode::SetElement => 0x83,
            OpCode::GetSuper => 0x84,
            OpCode::GetSuperElem => 0x85,
            OpCode::OptionalChain => 0x86,
            OpCode::GetPrivate => 0x87,
            OpCode::SetPrivate => 0x88,
            OpCode::HasPrivate => 0x89,
            OpCode::GetSuperClass => 0x8A,
            OpCode::Call => 0x90,
            OpCode::CallMethod => 0x91,
            OpCode::Construct => 0x92,
            OpCode::SpreadCall => 0x93,
            OpCode::SpreadConstruct => 0x94,
            OpCode::Return => 0x95,
            OpCode::ReturnUndefined => 0x96,
            OpCode::LoadCallee => 0x97,
            OpCode::CreateObject => 0xA0,
            OpCode::CreateArray => 0xA1,
            OpCode::SetArrayItem => 0xA2,
            OpCode::ArraySpread => 0xA3,
            OpCode::DefineDataProp => 0xA4,
            OpCode::DefineGetter => 0xA5,
            OpCode::DefineSetter => 0xA6,
            OpCode::DefineMethod => 0xA7,
            OpCode::ObjectSpread => 0xA8,
            OpCode::CreateRegExp => 0xA9,
            OpCode::ObjectRest => 0xAA,
            OpCode::CollectRest => 0xAB,
            OpCode::ArrayAppend => 0xAC,
            OpCode::PushComputedExclude => 0xAD,
            OpCode::SetObjectProto => 0xAE,
            OpCode::Closure => 0xB0,
            OpCode::ClosureLong => 0xB1,
            OpCode::ClassFieldComputed => 0xB2,
            OpCode::ClassStaticFieldComputed => 0xB3,
            OpCode::Class => 0xB8,
            OpCode::Inherit => 0xB9,
            OpCode::ClassStaticMethod => 0xBA,
            OpCode::ClassMethod => 0xBB,
            OpCode::ClassField => 0xBC,
            OpCode::ClassStaticField => 0xBD,
            OpCode::ClassPrivateMethod => 0xBE,
            OpCode::GetSuperConstructor => 0xBF,
            OpCode::Throw => 0xC0,
            OpCode::PushExcHandler => 0xC1,
            OpCode::PopExcHandler => 0xC2,
            OpCode::EnterFinally => 0xC3,
            OpCode::LeaveFinally => 0xC4,
            OpCode::GetIterator => 0xD0,
            OpCode::GetAsyncIterator => 0xD1,
            OpCode::IteratorNext => 0xD2,
            OpCode::IteratorDone => 0xD3,
            OpCode::IteratorValue => 0xD4,
            OpCode::IteratorClose => 0xD5,
            OpCode::GetForInIterator => 0xD6,
            OpCode::Yield => 0xD8,
            OpCode::YieldStar => 0xD9,
            OpCode::Await => 0xDA,
            OpCode::CreateGenerator => 0xDB,
            OpCode::AsyncReturn => 0xDC,
            OpCode::AsyncThrow => 0xDD,
            OpCode::DestructureArray => 0xE0,
            OpCode::DestructureRest => 0xE1,
            OpCode::DestructureObject => 0xE2,
            OpCode::DestructureDefault => 0xE3,
            OpCode::ImportModule => 0xE8,
            OpCode::ImportDynamic => 0xE9,
            OpCode::Export => 0xEA,
            OpCode::ExportDefault => 0xEB,
            OpCode::GetModuleVar => 0xEC,
            OpCode::ExportAllFrom => 0xED,
            OpCode::WithRefSet => 0xEE,
            OpCode::WithRefResolve => 0xEF,
            OpCode::Debugger => 0xF0,
            OpCode::NewTarget => 0xF1,
            OpCode::ImportMeta => 0xF2,
            OpCode::TemplateTag => 0xF3,
            OpCode::CreateRestParam => 0xF4,
            OpCode::ToPropertyKey => 0xF5,
            OpCode::BeginParamExpr => 0xF6,
            OpCode::SetFunctionName => 0xF7,
            OpCode::EndParamExpr => 0xF8,
            OpCode::WithEnter => 0xF9,
            OpCode::WithExit => 0xFA,
            OpCode::SetCompletion => 0xFB,
            OpCode::WithGetCheck => 0xFC,
            OpCode::WithSetCheck => 0xFD,
            OpCode::WithRefGet => 0xFE,
            OpCode::Halt => 0xFF,
        }
    }

    /// Try to convert a byte to an opcode of the core set.
    pub fn from_byte(byte: u8) -> (op: Option<Self>)
        ensures
            op == Self::of_byte(byte),
    {
        match byte {
            0x00 => Some(OpCode::Nop),
            0x01 => Some(OpCode::Const),
            0x02 => Some(OpCode::ConstLong),
            0x03 => Some(OpCode::Undefined),
            0x04 => Some(OpCode::Null),
            0x05 => Some(OpCode::True),
            0x06 => Some(OpCode::False),
            0x07 => Some(OpCode::Zero),
            0x08 => Some(OpCode::One),
            0x10 => Some(OpCode::Pop),
            0x11 => Some(OpCode::PopN),
            0x12 => Some(OpCode::Dup),
            0x13 => Some(OpCode::Dup2),
            0x14 => Some(OpCode::Swap),
            0x15 => Some(OpCode::Rot3),
            0x20 => Some(OpCode::Add),
            0x21 => Some(OpCode::Sub),
            0x22 => Some(OpCode::Mul),
            0x23 => Some(OpCode::Div),
            0x24 => Some(OpCode::Rem),
            0x25 => Some(OpCode::Exp),
            0x26 => Some(OpCode::Neg),
            0x27 => Some(OpCode::Pos),
            0x28 => Some(OpCode::Inc),
            0x29 => Some(OpCode::Dec),
            0x30 => Some(OpCode::BitAnd),
            0x31 => Some(OpCode::BitOr),
            0x32 => Some(OpCode::BitXor),
            0x33 => Some(OpCode::BitNot),
            0x34 => Some(OpCode::Shl),
            0x35 => Some(OpCode::Shr),
            0x36 => Some(OpCode::UShr),
            0x40 => Some(OpCode::Eq),
            0x41 => Some(OpCode::Ne),
            0x42 => Some(OpCode::StrictEq),
            0x43 => Some(OpCode::StrictNe),
            0x44 => Some(OpCode::Lt),
            0x45 => Some(OpCode::Le),
            0x46 => Some(OpCode::Gt),
            0x47 => Some(OpCode::Ge),
            0x48 => Some(OpCode::InstanceOf),
            0x49 => Some(OpCode::In),
            0x50 => Some(OpCode::Not),
            0x51 => Some(OpCode::TypeOf),
            0x52 => Some(OpCode::TypeOfGlobal),
            0x53 => Some(OpCode::Void),
            0x54 => Some(OpCode::DeleteProp),
            0x55 => Some(OpCode::DeleteGlobal),
            0x60 => Some(OpCode::Jump),
            0x61 => Some(OpCode::JumpLong),
            0x62 => Some(OpCode::JumpIfFalse),
            0x63 => Some(OpCode::JumpIfTrue),
            0x64 => Some(OpCode::JumpIfFalsePeek),
            0x65 => Some(OpCode::JumpIfTruePeek),
            0x66 => Some(OpCode::JumpIfNullishPeek),
            0x67 => Some(OpCode::Loop),
            0x70 => Some(OpCode::GetLocal),
            0x71 => Some(OpCode::SetLocal),
            0x72 => Some(OpCode::GetLocalWide),
            0x73 => Some(OpCode::SetLocalWide),
            0x74 => Some(OpCode::GetUpvalue),
            0x75 => Some(OpCode::SetUpvalue),
            0x76 => Some(OpCode::CloseUpvalue),
            0x78 => Some(OpCode::GetGlobal),
            0x79 => Some(OpCode::SetGlobal),
            0x7A => Some(OpCode::DefineGlobal),
            0x7B => Some(OpCode::InitLet),
            0x7C => Some(OpCode::CheckTdz),
            0x80 => Some(OpCode::GetProperty),
            0x81 => Some(OpCode::SetProperty),
            0x82 => Some(OpCode::GetElement),
            0x83 => Some(OpCode::SetElement),
            0x84 => Some(OpCode::GetSuper),
            0x85 => Some(OpCode::GetSuperElem),
            0x86 => Some(OpCode::OptionalChain),
            0x87 => Some(OpCode::GetPrivate),
            0x88 => Some(OpCode::SetPrivate),
            0x90 => Some(OpCode::Call),
            0x91 => Some(OpCode::CallMethod),
            0x92 => Some(OpCode::Construct),
            0x93 => Some(OpCode::SpreadCall),
            0x94 => Some(OpCode::SpreadConstruct),
            0x95 => Some(OpCode::Return),
            0x96 => Some(OpCode::ReturnUndefined),
            0xA0 => Some(OpCode::CreateObject),
            0xA1 => Some(OpCode::CreateArray),
            0xA2 => Some(OpCode::SetArrayItem),
            0xA3 => Some(OpCode::ArraySpread),
            0xA4 => Some(OpCode::DefineDataProp),
            0xA5 => Some(OpCode::DefineGetter),
            0xA6 => Some(OpCode::DefineSetter),
            0xA7 => Some(OpCode::DefineMethod),
            0xA8 => Some(OpCode::ObjectSpread),
            0xA9 => Some(OpCode::CreateRegExp),
            0xB0 => Some(OpCode::Closure),
            0xB1 => Some(OpCode::ClosureLong),
            0xB8 => Some(OpCode::Class),
            0xB9 => Some(OpCode::Inherit),
            0xBA => Some(OpCode::ClassStaticMethod),
            0xBB => Some(OpCode::ClassMethod),
            0xBC => Some(OpCode::ClassField),
            0xBD => Some(OpCode::ClassStaticField),
            0xBE => Some(OpCode::ClassPrivateMethod),
            0xBF => Some(OpCode::GetSuperConstructor),
            0xC0 => Some(OpCode::Throw),
            0xC1 => Some(OpCode::PushExcHandler),
            0xC2 => Some(OpCode::PopExcHandler),
            0xC3 => Some(OpCode::EnterFinally),
            0xC4 => Some(OpCode::LeaveFinally),
            0xD0 => Some(OpCode::GetIterator),
            0xD1 => Some(OpCode::GetAsyncIterator),
            0xD2 => Some(OpCode::IteratorNext),
            0xD3 => Some(OpCode::IteratorDone),
            0xD4 => Some(OpCode::IteratorValue),
            0xD5 => Some(OpCode::IteratorClose),
            0xD8 => Some(OpCode::Yield),
            0xD9 => Some(OpCode::YieldStar),
            0xDA => Some(OpCode::Await),
            0xDB => Some(OpCode::CreateGenerator),
            0xDC => Some(OpCode::AsyncReturn),
            0xDD => Some(OpCode::AsyncThrow),
            0xE0 => Some(OpCode::DestructureArray),
            0xE1 => Some(OpCode::DestructureRest),
            0xE2 => Some(OpCode::DestructureObject),
            0xE3 => Some(OpCode::DestructureDefault),
            0xE8 => Some(OpCode::ImportModule),
            0xE9 => Some(OpCode::ImportDynamic),
            0xEA => Some(OpCode::Export),
            0xEB => Some(OpCode::ExportDefault),
            0xEC => Some(OpCode::GetModuleVar),
            0xF0 => Some(OpCode::Debugger),
            0xF1 => Some(OpCode::NewTarget),
            0xF2 => Some(OpCode::ImportMeta),
            0xF3 => Some(OpCode::TemplateTag),
            0xF4 => Some(OpCode::CreateRestParam),
            0xF5 => Some(OpCode::ToPropertyKey),
            0xF7 => Some(OpCode::SetFunctionName),
            0xF9 => Some(OpCode::WithEnter),
            0xFA => Some(OpCode::WithExit),
            0xFF => Some(OpCode::Halt),
            _ => None,
        }
    }

    /// Whether a byte encodes an opcode of the core set.
    pub fn is_valid(byte: u8) -> (valid: bool)
        ensures
            valid == (Self::of_byte(byte) is Some),
    {
        Self::from_byte(byte).is_some()
    }

    /// Size of the instruction in bytes (opcode + operands).
    pub fn instruction_size(&self) -> (size: usize)
        ensures
            size == self.size(),
    {
        match self {
            OpCode::Nop | OpCode::Undefined | OpCode::Null | OpCode::True | OpCode::False
            | OpCode::Zero | OpCode::One | OpCode::PushEmpty | OpCode::Pop | OpCode::Dup
            | OpCode::Dup2 | OpCode::Swap | OpCode::Rot3 | OpCode::Add | OpCode::Sub
            | OpCode::Mul | OpCode::Div | OpCode::Rem | OpCode::Exp | OpCode::Neg | OpCode::Pos
            | OpCode::Inc | OpCode::Dec | OpCode::ToNumeric | OpCode::BitAnd | OpCode::BitOr
            | OpCode::BitXor | OpCode::BitNot | OpCode::Shl | OpCode::Shr | OpCode::UShr
            | OpCode::Eq | OpCode::Ne | OpCode::StrictEq | OpCode::StrictNe | OpCode::Lt
            | OpCode::Le | OpCode::Gt | OpCode::Ge | OpCode::InstanceOf | OpCode::In
            | OpCode::Not | OpCode::TypeOf | OpCode::Void | OpCode::DeleteProp
            | OpCode::CloseUpvalue | OpCode::GetElement | OpCode::SetElement
            | OpCode::GetSuperElem | OpCode::GetSuperClass | OpCode::Return
            | OpCode::ReturnUndefined | OpCode::LoadCallee | OpCode::CreateObject
            | OpCode::ArraySpread | OpCode::DefineDataProp | OpCode::DefineGetter
            | OpCode::DefineSetter | OpCode::ObjectSpread | OpCode::ArrayAppend
            | OpCode::PushComputedExclude | OpCode::SetObjectProto | OpCode::ClassFieldComputed
            | OpCode::ClassStaticFieldComputed | OpCode::Inherit | OpCode::GetSuperConstructor
            | OpCode::Throw | OpCode::PopExcHandler | OpCode::EnterFinally
            | OpCode::LeaveFinally | OpCode::GetIterator | OpCode::GetAsyncIterator
            | OpCode::IteratorNext | OpCode::IteratorDone | OpCode::IteratorValue
            | OpCode::IteratorClose | OpCode::GetForInIterator | OpCode::Yield
            | OpCode::YieldStar | OpCode::Await | OpCode::CreateGenerator | OpCode::AsyncReturn
            | OpCode::AsyncThrow | OpCode::ImportDynamic | OpCode::ExportDefault
            | OpCode::Debugger | OpCode::NewTarget | OpCode::ImportMeta | OpCode::ToPropertyKey
            | OpCode::BeginParamExpr | OpCode::EndParamExpr | OpCode::WithEnter
            | OpCode::WithExit | OpCode::SetCompletion | OpCode::Halt => 1,
            OpCode::PopN | OpCode::GetLocal | OpCode::SetLocal | OpCode::GetUpvalue
            | OpCode::SetUpvalue | OpCode::InitLet | OpCode::CheckTdz | OpCode::Call
            | OpCode::Construct | OpCode::SpreadCall | OpCode::SpreadConstruct
            | OpCode::ObjectRest | OpCode::DestructureArray | OpCode::DestructureRest
            | OpCode::DestructureObject | OpCode::TemplateTag | OpCode::CreateRestParam => 2,
            OpCode::Const | OpCode::LoadBigInt | OpCode::TypeOfGlobal | OpCode::DeleteGlobal
            | OpCode::Jump | OpCode::JumpIfFalse | OpCode::JumpIfTrue | OpCode::JumpIfFalsePeek
            | OpCode::JumpIfTruePeek | OpCode::JumpIfNullishPeek | OpCode::Loop
            | OpCode::GetLocalWide | OpCode::SetLocalWide | OpCode::GetUpvalueWide
            | OpCode::GetGlobal | OpCode::SetGlobal | OpCode::DefineGlobal
            | OpCode::SetUpvalueWide | OpCode::DefineGlobalLex | OpCode::GetSuper
            | OpCode::OptionalChain | OpCode::GetPrivate | OpCode::SetPrivate
            | OpCode::HasPrivate | OpCode::CreateArray | OpCode::DefineMethod
            | OpCode::CollectRest | OpCode::Closure | OpCode::Class | OpCode::ClassStaticMethod
            | OpCode::ClassMethod | OpCode::ClassField | OpCode::ClassStaticField
            | OpCode::ClassPrivateMethod | OpCode::DestructureDefault | OpCode::ImportModule
            | OpCode::ExportAllFrom | OpCode::WithRefResolve | OpCode::SetFunctionName => 3,
            OpCode::CallMethod | OpCode::Export => 4,
            OpCode::ConstLong | OpCode::JumpLong | OpCode::GetProperty | OpCode::SetProperty
            | OpCode::SetArrayItem | OpCode::CreateRegExp | OpCode::ClosureLong
            | OpCode::PushExcHandler | OpCode::GetModuleVar | OpCode::WithRefSet
            | OpCode::WithGetCheck | OpCode::WithSetCheck | OpCode::WithRefGet => 5,
        }
    }

    /// The opcode's mnemonic.
    pub fn name(self) -> (name: &'static str)
        ensures
            name@ == self.mnemonic(),
    {
        match self {
            OpCode::Nop => "Nop",
            OpCode::Const => "Const",
            OpCode::ConstLong => "ConstLong",
            OpCode::Undefined => "Undefined",
            OpCode::Null => "Null",
            OpCode::True => "True",
            OpCode::False => "False",
            OpCode::Zero => "Zero",
            OpCode::One => "One",
            OpCode::PushEmpty => "PushEmpty",
            OpCode::LoadBigInt => "LoadBigInt",
            OpCode::Pop => "Pop",
            OpCode::PopN => "PopN",
            OpCode::Dup => "Dup",
            OpCode::Dup2 => "Dup2",
            OpCode::Swap => "Swap",
            OpCode::Rot3 => "Rot3",
            OpCode::Add => "Add",
            OpCode::Sub => "Sub",
            OpCode::Mul => "Mul",
            OpCode::Div => "Div",
            OpCode::Rem => "Rem",
            OpCode::Exp => "Exp",
            OpCode::Neg => "Neg",
            OpCode::Pos => "Pos",
            OpCode::Inc => "Inc",
            OpCode::Dec => "Dec",
            OpCode::ToNumeric => "ToNumeric",
            OpCode::BitAnd => "BitAnd",
            OpCode::BitOr => "BitOr",
            OpCode::BitXor => "BitXor",
            OpCode::BitNot => "BitNot",
            OpCode::Shl => "Shl",
            OpCode::Shr => "Shr",
            OpCode::UShr => "UShr",
            OpCode::Eq => "Eq",
            OpCode::Ne => "Ne",
            OpCode::StrictEq => "StrictEq",
            OpCode::StrictNe => "StrictNe",
            OpCode::Lt => "Lt",
            OpCode::Le => "Le",
            OpCode::Gt => "Gt",
            OpCode::Ge => "Ge",
            OpCode::InstanceOf => "InstanceOf",
            OpCode::In => "In",
            OpCode::Not => "Not",
            OpCode::TypeOf => "TypeOf",
            OpCode::TypeOfGlobal => "TypeOfGlobal",
            OpCode::Void => "Void",
            OpCode::DeleteProp => "DeleteProp",
            OpCode::DeleteGlobal => "DeleteGlobal",
            OpCode::Jump => "Jump",
            OpCode::JumpLong => "JumpLong",
            OpCode::JumpIfFalse => "JumpIfFalse",
            OpCode::JumpIfTrue => "JumpIfTrue",
            OpCode::JumpIfFalsePeek => "JumpIfFalsePeek",
            OpCode::JumpIfTruePeek => "JumpIfTruePeek",
            OpCode::JumpIfNullishPeek => "JumpIfNullishPeek",
            OpCode::Loop => "Loop",
            OpCode::GetLocal => "GetLocal",
            OpCode::SetLocal => "SetLocal",
            OpCode::GetLocalWide => "GetLocalWide",
            OpCode::SetLocalWide => "SetLocalWide",
            OpCode::GetUpvalue => "GetUpvalue",
            OpCode::SetUpvalue => "SetUpvalue",
            OpCode::CloseUpvalue => "CloseUpvalue",
            OpCode::GetUpvalueWide => "GetUpvalueWide",
            OpCode::GetGlobal => "GetGlobal",
            OpCode::SetGlobal => "SetGlobal",
            OpCode::DefineGlobal => "DefineGlobal",
            OpCode::InitLet => "InitLet",
            OpCode::CheckTdz => "CheckTdz",
            OpCode::SetUpvalueWide => "SetUpvalueWide",
            OpCode::DefineGlobalLex => "DefineGlobalLex",
            OpCode::GetProperty => "GetProperty",
            OpCode::SetProperty => "SetProperty",
            OpCode::GetElement => "GetElement",
            OpCode::SetElement => "SetElement",
            OpCode::GetSuper => "GetSuper",
            OpCode::GetSuperElem => "GetSuperElem",
            OpCode::OptionalChain => "OptionalChain",
            OpCode::GetPrivate => "GetPrivate",
            OpCode::SetPrivate => "SetPrivate",
            OpCode::HasPrivate => "HasPrivate",
            OpCode::GetSuperClass => "GetSuperClass",
            OpCode::Call => "Call",
            OpCode::CallMethod => "CallMethod",
            OpCode::Construct => "Construct",
            OpCode::SpreadCall => "SpreadCall",
            OpCode::SpreadConstruct => "SpreadConstruct",
            OpCode::Return => "Return",
            OpCode::ReturnUndefined => "ReturnUndefined",
            OpCode::LoadCallee => "LoadCallee",
            OpCode::CreateObject => "CreateObject",
            OpCode::CreateArray => "CreateArray",
            OpCode::SetArrayItem => "SetArrayItem",
            OpCode::ArraySpread => "ArraySpread",
            OpCode::DefineDataProp => "DefineDataProp",
            OpCode::DefineGetter => "DefineGetter",
            OpCode::DefineSetter => "DefineSetter",
            OpCode::DefineMethod => "DefineMethod",
            OpCode::ObjectSpread => "ObjectSpread",
            OpCode::CreateRegExp => "CreateRegExp",
            OpCode::ObjectRest => "ObjectRest",
            OpCode::CollectRest => "CollectRest",
            OpCode::ArrayAppend => "ArrayAppend",
            OpCode::PushComputedExclude => "PushComputedExclude",
            OpCode::SetObjectProto => "SetObjectProto",
            OpCode::Closure => "Closure",
            OpCode::ClosureLong => "ClosureLong",
            OpCode::ClassFieldComputed => "ClassFieldComputed",
            OpCode::ClassStaticFieldComputed => "ClassStaticFieldComputed",
            OpCode::Class => "Class",
            OpCode::Inherit => "Inherit",
            OpCode::ClassStaticMethod => "ClassStaticMethod",
            OpCode::ClassMethod => "ClassMethod",
            OpCode::ClassField => "ClassField",
            OpCode::ClassStaticField => "ClassStaticField",
            OpCode::ClassPrivateMethod => "ClassPrivateMethod",
            OpCode::GetSuperConstructor => "GetSuperConstructor",
            OpCode::Throw => "Throw",
            OpCode::PushExcHandler => "PushExcHandler",
            OpCode::PopExcHandler => "PopExcHandler",
            OpCode::EnterFinally => "EnterFinally",
            OpCode::LeaveFinally => "LeaveFinally",
            OpCode::GetIterator => "GetIterator",
            OpCode::GetAsyncIterator => "GetAsyncIterator",
            OpCode::IteratorNext => "IteratorNext",
            OpCode::IteratorDone => "IteratorDone",
            OpCode::IteratorValue => "IteratorValue",
            OpCode::IteratorClose => "IteratorClose",
            OpCode::GetForInIterator => "GetForInIterator",
            OpCode::Yield => "Yield",
            OpCode::YieldStar => "YieldStar",
            OpCode::Await => "Await",
            OpCode::CreateGenerator => "CreateGenerator",
            OpCode::AsyncReturn => "AsyncReturn",
            OpCode::AsyncThrow => "AsyncThrow",
            OpCode::DestructureArray => "DestructureArray",
            OpCode::DestructureRest => "DestructureRest",
            OpCode::DestructureObject => "DestructureObject",
            OpCode::DestructureDefault => "DestructureDefault",
            OpCode::ImportModule => "ImportModule",
            OpCode::ImportDynamic => "ImportDynamic",
            OpCode::Export => "Export",
            OpCode::ExportDefault => "ExportDefault",
            OpCode::GetModuleVar => "GetModuleVar",
            OpCode::ExportAllFrom => "ExportAllFrom",
            OpCode::WithRefSet => "WithRefSet",
            OpCode::WithRefResolve => "WithRefResolve",
            OpCode::Debugger => "Debugger",
            OpCode::NewTarget => "NewTarget",
            OpCode::ImportMeta => "ImportMeta",
            OpCode::TemplateTag => "TemplateTag",
            OpCode::CreateRestParam => "CreateRestParam",
            OpCode::ToPropertyKey => "ToPropertyKey",
            OpCode::BeginParamExpr => "BeginParamExpr",
            OpCode::SetFunctionName => "SetFunctionName",
            OpCode::EndParamExpr => "EndParamExpr",
            OpCode::WithEnter => "WithEnter",
            OpCode::WithExit => "WithExit",
            OpCode::SetCompletion => "SetCompletion",
            OpCode::WithGetCheck => "WithGetCheck",
            OpCode::WithSetCheck => "WithSetCheck",
            OpCode::WithRefGet => "WithRefGet",
            OpCode::Halt => "Halt",
        }
    }
}

/// Encoding loses nothing: an opcode's byte encodes that opcode, and decoding it gives the
/// opcode back unless it is one of those added to the core set.
pub proof fn law_decode_encode(op: OpCode)
    ensures
        OpCode::encoded_by(op.byte()) == Some(op),
        OpCode::of_byte(op.byte()) == if op.added() {
            None
        } else {
            Some(op)
        },
{
}

/// A byte that decodes is the encoding of what it decodes to.
pub proof fn law_encode_decode(byte: u8)
    ensures
        OpCode::of_byte(byte) matches Some(op) ==> op.byte() == byte,
{
}

/// Two opcodes never share a byte.
pub proof fn law_bytes_distinct(a: OpCode, b: OpCode)
    ensures
        a.byte() == b.byte() ==> a == b,
{
    law_decode_encode(a);
    law_decode_encode(b);
}

/// Every instruction takes one to five bytes.
pub proof fn law_size_bounds(op: OpCode)
    ensures
        1 <= op.size() <= 5,
{
}

} // verus!
