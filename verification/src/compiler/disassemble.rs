//! Bytecode listings, for debugging.

use vstd::prelude::*;
use crate::compiler::chunk;
use crate::compiler::chunk::{Chunk, ChunkView};
use crate::compiler::opcode::OpCode;
use crate::runtime::value::Value;
use crate::util::interner::{Interner, StringId};
use crate::util::text;
use crate::util::text::{
    push_decimal, push_decimal_spaces, push_decimal_zeros, push_hex_byte, push_signed,
};

verus! {

/// How the operands behind an opcode are laid out, and what they are.
#[derive(Clone, Copy, PartialEq, Eq, Structural, Debug)]
pub enum Layout {
    /// No operand.
    Plain,
    /// A count of one byte.
    Count,
    /// A local slot of one byte.
    Slot,
    /// An upvalue index of one byte.
    Upvalue,
    /// An argument count of one byte and a name of two.
    Method,
    /// A constant index of two bytes.
    Constant,
    /// The name of a global by a constant index of two bytes.
    Global,
    /// A name and an inline-cache slot of two bytes each.
    Property,
    /// A constant index of two bytes that is shown bare.
    Index,
    /// A local slot of two bytes.
    WideSlot,
    /// An upvalue index of two bytes.
    WideUpvalue,
    /// An expected length of two bytes.
    Length,
    /// A signed distance of two bytes.
    Jump,
    /// A distance back of two bytes.
    Back,
    /// An operand of four bytes.
    Long,
    /// A key count of one byte, and two bytes for each key.
    Excluded,
    /// A child chunk of two bytes, and for each upvalue that it captures a byte that
    /// tells whether it is a local, and an index of two bytes.
    Captures,
    /// Two code positions of two bytes each.
    Handler,
    /// A module and a binding of two bytes each.
    ModuleVar,
    /// A name of two bytes and a slot of one.
    Exported,
    /// A pattern and flags by constant indices of two bytes each.
    RegExp,
    /// A name of two bytes and a signed distance of two.
    NameJump,
}

/// The operands of an opcode.
#[verifier::opaque]
pub open spec fn layout(op: OpCode) -> Layout {
    match op {
        OpCode::Nop | OpCode::Undefined | OpCode::Null | OpCode::True | OpCode::False
        | OpCode::Zero | OpCode::One | OpCode::Pop | OpCode::Dup | OpCode::Dup2
        | OpCode::Swap | OpCode::Rot3 | OpCode::Add | OpCode::Sub | OpCode::Mul
        | OpCode::Div | OpCode::Rem | OpCode::Exp | OpCode::Neg | OpCode::Pos | OpCode::Inc
        | OpCode::Dec | OpCode::BitAnd | OpCode::BitOr | OpCode::BitXor | OpCode::BitNot
        | OpCode::Shl | OpCode::Shr | OpCode::UShr | OpCode::Eq | OpCode::Ne
        | OpCode::StrictEq | OpCode::StrictNe | OpCode::Lt | OpCode::Le | OpCode::Gt
        | OpCode::Ge | OpCode::InstanceOf | OpCode::In | OpCode::Not | OpCode::TypeOf
        | OpCode::Void | OpCode::DeleteProp | OpCode::CloseUpvalue | OpCode::Return
        | OpCode::ReturnUndefined | OpCode::CreateObject | OpCode::ArraySpread
        | OpCode::DefineDataProp | OpCode::DefineGetter | OpCode::DefineSetter
        | OpCode::ObjectSpread | OpCode::Inherit | OpCode::GetSuperConstructor
        | OpCode::Throw | OpCode::PopExcHandler | OpCode::EnterFinally
        | OpCode::LeaveFinally | OpCode::GetIterator | OpCode::GetForInIterator
        | OpCode::GetAsyncIterator | OpCode::GetSuperClass | OpCode::IteratorNext
        | OpCode::IteratorDone | OpCode::IteratorValue | OpCode::IteratorClose
        | OpCode::Yield | OpCode::YieldStar | OpCode::Await | OpCode::CreateGenerator
        | OpCode::AsyncReturn | OpCode::AsyncThrow | OpCode::ImportDynamic
        | OpCode::ExportDefault | OpCode::Debugger | OpCode::NewTarget | OpCode::ImportMeta
        | OpCode::ToPropertyKey | OpCode::WithEnter | OpCode::WithExit
        | OpCode::GetSuperElem | OpCode::Halt | OpCode::GetElement | OpCode::SetElement
        | OpCode::PushEmpty | OpCode::ToNumeric | OpCode::LoadCallee | OpCode::ArrayAppend
        | OpCode::PushComputedExclude | OpCode::SetObjectProto | OpCode::ClassFieldComputed
        | OpCode::ClassStaticFieldComputed | OpCode::BeginParamExpr | OpCode::EndParamExpr
        | OpCode::SetCompletion => Layout::Plain,
        OpCode::PopN | OpCode::Call | OpCode::Construct | OpCode::SpreadCall
        | OpCode::SpreadConstruct | OpCode::DestructureArray | OpCode::DestructureRest
        | OpCode::DestructureObject | OpCode::TemplateTag | OpCode::CreateRestParam => Layout::Count,
        OpCode::GetLocal | OpCode::SetLocal | OpCode::InitLet | OpCode::CheckTdz => Layout::Slot,
        OpCode::GetUpvalue | OpCode::SetUpvalue => Layout::Upvalue,
        OpCode::CallMethod => Layout::Method,
        OpCode::Const => Layout::Constant,
        OpCode::GetGlobal | OpCode::SetGlobal | OpCode::DefineGlobal
        | OpCode::DefineGlobalLex => Layout::Global,
        OpCode::GetProperty | OpCode::SetProperty => Layout::Property,
        OpCode::GetSuper | OpCode::GetPrivate | OpCode::SetPrivate | OpCode::DefineMethod
        | OpCode::Class | OpCode::ClassStaticMethod | OpCode::ClassMethod
        | OpCode::ClassField | OpCode::ClassStaticField | OpCode::ClassPrivateMethod
        | OpCode::SetFunctionName | OpCode::ImportModule | OpCode::ExportAllFrom
        | OpCode::CollectRest | OpCode::TypeOfGlobal | OpCode::DeleteGlobal
        | OpCode::LoadBigInt | OpCode::HasPrivate | OpCode::WithRefResolve => Layout::Index,
        OpCode::GetLocalWide | OpCode::SetLocalWide => Layout::WideSlot,
        OpCode::GetUpvalueWide | OpCode::SetUpvalueWide => Layout::WideUpvalue,
        OpCode::CreateArray => Layout::Length,
        OpCode::Jump | OpCode::JumpIfFalse | OpCode::JumpIfTrue | OpCode::JumpIfFalsePeek
        | OpCode::JumpIfTruePeek | OpCode::JumpIfNullishPeek | OpCode::OptionalChain
        | OpCode::DestructureDefault => Layout::Jump,
        OpCode::Loop => Layout::Back,
        OpCode::ConstLong | OpCode::JumpLong | OpCode::SetArrayItem | OpCode::ClosureLong => Layout::Long,
        OpCode::ObjectRest => Layout::Excluded,
        OpCode::Closure => Layout::Captures,
        OpCode::PushExcHandler => Layout::Handler,
        OpCode::GetModuleVar => Layout::ModuleVar,
        OpCode::Export => Layout::Exported,
        OpCode::CreateRegExp => Layout::RegExp,
        OpCode::WithRefSet | OpCode::WithGetCheck | OpCode::WithSetCheck
        | OpCode::WithRefGet => Layout::NameJump,
    }
}

/// The operands of an opcode.
pub fn operand_layout(op: OpCode) -> (result: Layout)
    ensures
        result == layout(op),
{
    reveal(layout);
    match op {
        OpCode::Nop | OpCode::Undefined | OpCode::Null | OpCode::True | OpCode::False
        | OpCode::Zero | OpCode::One | OpCode::Pop | OpCode::Dup | OpCode::Dup2
        | OpCode::Swap | OpCode::Rot3 | OpCode::Add | OpCode::Sub | OpCode::Mul
        | OpCode::Div | OpCode::Rem | OpCode::Exp | OpCode::Neg | OpCode::Pos | OpCode::Inc
        | OpCode::Dec | OpCode::BitAnd | OpCode::BitOr | OpCode::BitXor | OpCode::BitNot
        | OpCode::Shl | OpCode::Shr | OpCode::UShr | OpCode::Eq | OpCode::Ne
        | OpCode::StrictEq | OpCode::StrictNe | OpCode::Lt | OpCode::Le | OpCode::Gt
        | OpCode::Ge | OpCode::InstanceOf | OpCode::In | OpCode::Not | OpCode::TypeOf
        | OpCode::Void | OpCode::DeleteProp | OpCode::CloseUpvalue | OpCode::Return
        | OpCode::ReturnUndefined | OpCode::CreateObject | OpCode::ArraySpread
        | OpCode::DefineDataProp | OpCode::DefineGetter | OpCode::DefineSetter
        | OpCode::ObjectSpread | OpCode::Inherit | OpCode::GetSuperConstructor
        | OpCode::Throw | OpCode::PopExcHandler | OpCode::EnterFinally
        | OpCode::LeaveFinally | OpCode::GetIterator | OpCode::GetForInIterator
        | OpCode::GetAsyncIterator | OpCode::GetSuperClass | OpCode::IteratorNext
        | OpCode::IteratorDone | OpCode::IteratorValue | OpCode::IteratorClose
        | OpCode::Yield | OpCode::YieldStar | OpCode::Await | OpCode::CreateGenerator
        | OpCode::AsyncReturn | OpCode::AsyncThrow | OpCode::ImportDynamic
        | OpCode::ExportDefault | OpCode::Debugger | OpCode::NewTarget | OpCode::ImportMeta
        | OpCode::ToPropertyKey | OpCode::WithEnter | OpCode::WithExit
        | OpCode::GetSuperElem | OpCode::Halt | OpCode::GetElement | OpCode::SetElement
        | OpCode::PushEmpty | OpCode::ToNumeric | OpCode::LoadCallee | OpCode::ArrayAppend
        | OpCode::PushComputedExclude | OpCode::SetObjectProto | OpCode::ClassFieldComputed
        | OpCode::ClassStaticFieldComputed | OpCode::BeginParamExpr | OpCode::EndParamExpr
        | OpCode::SetCompletion => Layout::Plain,
        OpCode::PopN | OpCode::Call | OpCode::Construct | OpCode::SpreadCall
        | OpCode::SpreadConstruct | OpCode::DestructureArray | OpCode::DestructureRest
        | OpCode::DestructureObject | OpCode::TemplateTag | OpCode::CreateRestParam => Layout::Count,
        OpCode::GetLocal | OpCode::SetLocal | OpCode::InitLet | OpCode::CheckTdz => Layout::Slot,
        OpCode::GetUpvalue | OpCode::SetUpvalue => Layout::Upvalue,
        OpCode::CallMethod => Layout::Method,
        OpCode::Const => Layout::Constant,
        OpCode::GetGlobal | OpCode::SetGlobal | OpCode::DefineGlobal
        | OpCode::DefineGlobalLex => Layout::Global,
        OpCode::GetProperty | OpCode::SetProperty => Layout::Property,
        OpCode::GetSuper | OpCode::GetPrivate | OpCode::SetPrivate | OpCode::DefineMethod
        | OpCode::Class | OpCode::ClassStaticMethod | OpCode::ClassMethod
        | OpCode::ClassField | OpCode::ClassStaticField | OpCode::ClassPrivateMethod
        | OpCode::SetFunctionName | OpCode::ImportModule | OpCode::ExportAllFrom
        | OpCode::CollectRest | OpCode::TypeOfGlobal | OpCode::DeleteGlobal
        | OpCode::LoadBigInt | OpCode::HasPrivate | OpCode::WithRefResolve => Layout::Index,
        OpCode::GetLocalWide | OpCode::SetLocalWide => Layout::WideSlot,
        OpCode::GetUpvalueWide | OpCode::SetUpvalueWide => Layout::WideUpvalue,
        OpCode::CreateArray => Layout::Length,
        OpCode::Jump | OpCode::JumpIfFalse | OpCode::JumpIfTrue | OpCode::JumpIfFalsePeek
        | OpCode::JumpIfTruePeek | OpCode::JumpIfNullishPeek | OpCode::OptionalChain
        | OpCode::DestructureDefault => Layout::Jump,
        OpCode::Loop => Layout::Back,
        OpCode::ConstLong | OpCode::JumpLong | OpCode::SetArrayItem | OpCode::ClosureLong => Layout::Long,
        OpCode::ObjectRest => Layout::Excluded,
        OpCode::Closure => Layout::Captures,
        OpCode::PushExcHandler => Layout::Handler,
        OpCode::GetModuleVar => Layout::ModuleVar,
        OpCode::Export => Layout::Exported,
        OpCode::CreateRegExp => Layout::RegExp,
        OpCode::WithRefSet | OpCode::WithGetCheck | OpCode::WithSetCheck
        | OpCode::WithRefGet => Layout::NameJump,
    }
}

/// The bytes of an opcode with its fixed operands.
pub open spec fn width(layout: Layout) -> int {
    match layout {
        Layout::Plain => 1,
        Layout::Count => 2,
        Layout::Slot => 2,
        Layout::Upvalue => 2,
        Layout::Method => 4,
        Layout::Constant => 3,
        Layout::Global => 3,
        Layout::Property => 5,
        Layout::Index => 3,
        Layout::WideSlot => 3,
        Layout::WideUpvalue => 3,
        Layout::Length => 3,
        Layout::Jump => 3,
        Layout::Back => 3,
        Layout::Long => 5,
        Layout::Excluded => 2,
        Layout::Captures => 3,
        Layout::Handler => 5,
        Layout::ModuleVar => 5,
        Layout::Exported => 4,
        Layout::RegExp => 5,
        Layout::NameJump => 5,
    }
}

fn operand_width(layout: Layout) -> (result: usize)
    ensures
        result as int == width(layout),
        1 <= result <= 5,
{
    match layout {
        Layout::Plain => 1,
        Layout::Count => 2,
        Layout::Slot => 2,
        Layout::Upvalue => 2,
        Layout::Method => 4,
        Layout::Constant => 3,
        Layout::Global => 3,
        Layout::Property => 5,
        Layout::Index => 3,
        Layout::WideSlot => 3,
        Layout::WideUpvalue => 3,
        Layout::Length => 3,
        Layout::Jump => 3,
        Layout::Back => 3,
        Layout::Long => 5,
        Layout::Excluded => 2,
        Layout::Captures => 3,
        Layout::Handler => 5,
        Layout::ModuleVar => 5,
        Layout::Exported => 4,
        Layout::RegExp => 5,
        Layout::NameJump => 5,
    }
}

/// The operands that a listing shows take up the bytes that the instruction has.
pub proof fn law_layout_size(op: OpCode)
    ensures
        width(layout(op)) == op.size(),
{
    reveal(layout);
}

/// A constant in a listing.
#[verifier::opaque]
pub open spec fn value_text(value: Value) -> Seq<char> {
    match value {
        Value::Undefined => "Undefined"@,
        Value::Null => "Null"@,
        Value::Bool(b) => if b {
            "Bool(true)"@
        } else {
            "Bool(false)"@
        },
        Value::Object(id) => "Object("@ + text::decimal(id as nat) + ")"@,
        Value::Int(i) => "Int("@ + text::signed_decimal(i as int) + ")"@,
        Value::Number(bits) => "Number("@ + text::decimal(bits as nat) + ")"@,
        Value::Str(id) => "Str(StringId("@ + text::decimal(id.0 as nat) + "))"@,
    }
}

/// The name of a global in a listing.
#[verifier::opaque]
pub open spec fn global_name(value: Value, table: Seq<Seq<char>>) -> Option<Seq<char>> {
    match value {
        Value::Str(id) => if id.0 < table.len() {
            Some(table[id.0 as int])
        } else {
            None
        },
        _ => Some(value_text(value)),
    }
}

/// A jump in a listing: its distance and its target, for an instruction of three bytes.
#[verifier::opaque]
pub open spec fn jump_text(at: int, distance: i16) -> Option<Seq<char>> {
    let target = at + 3 + distance;
    if at + 3 > i32::MAX || target > i32::MAX {
        None
    } else {
        let shown = if target >= 0 {
            target
        } else {
            usize::MAX + 1 + target
        };
        Some(
            (if distance >= 0 {
                "+"@
            } else {
                Seq::empty()
            }) + text::signed_decimal(distance as int) + " -> "@ + text::pad_left(
                text::decimal(shown as nat),
                4,
                '0',
            ),
        )
    }
}

/// The captured upvalues in a listing.
#[verifier::opaque]
pub open spec fn captures(code: Seq<u8>, at: int, count: nat) -> Seq<char>
    decreases count,
{
    if count == 0 {
        Seq::empty()
    } else {
        let last = at + 3 * (count - 1);
        captures(code, at, (count - 1) as nat) + "              | "@ + (if code[last] != 0 {
            "local"@
        } else {
            "upvalue"@
        }) + " "@ + text::decimal(
            chunk::spell16(code[last + 1], code[last + 2]) as nat,
        ) + "\n"@
    }
}

/// The two bytes at a position.
pub open spec fn half(c: ChunkView, at: int) -> u16 {
    chunk::spell16(c.code[at], c.code[at + 1])
}

/// The operands in a listing, and the position of the next instruction. There is none for
/// operands that refer to what the chunk lacks.
#[verifier::opaque]
pub open spec fn operands(
    c: ChunkView,
    at: int,
    layout: Layout,
    table: Seq<Seq<char>>,
) -> Option<(Seq<char>, int)> {
    let end = at + width(layout);
    let a = c.code[at + 1];
    let v = half(c, at + 1);
    match layout {
        Layout::Plain => Some(("\n"@, end)),
        Layout::Count => Some((" "@ + text::decimal(a as nat) + "\n"@, end)),
        Layout::Slot => Some((" slot:"@ + text::decimal(a as nat) + "\n"@, end)),
        Layout::Upvalue => Some((" upvalue:"@ + text::decimal(a as nat) + "\n"@, end)),
        Layout::Method => Some(
            (
                " argc:"@ + text::decimal(a as nat) + " name:["@ + text::decimal(
                    half(c, at + 2) as nat,
                ) + "]\n"@,
                end,
            ),
        ),
        Layout::Constant => if v < c.constants.len() {
            Some(
                (
                    " ["@ + text::decimal(v as nat) + "] = "@ + value_text(c.constants[v as int])
                        + "\n"@,
                    end,
                ),
            )
        } else {
            None
        },
        Layout::Global => if v < c.constants.len() {
            match global_name(c.constants[v as int], table) {
                Some(name) => Some(
                    (" ["@ + text::decimal(v as nat) + "] '"@ + name + "'\n"@, end),
                ),
                None => None,
            }
        } else {
            None
        },
        Layout::Property => Some(
            (
                " ["@ + text::decimal(v as nat) + "] ic:"@ + text::decimal(
                    half(c, at + 3) as nat,
                ) + "\n"@,
                end,
            ),
        ),
        Layout::Index => Some((" ["@ + text::decimal(v as nat) + "]\n"@, end)),
        Layout::WideSlot => Some((" slot:"@ + text::decimal(v as nat) + "\n"@, end)),
        Layout::WideUpvalue => Some((" upvalue:"@ + text::decimal(v as nat) + "\n"@, end)),
        Layout::Length => Some((" hint_len:"@ + text::decimal(v as nat) + "\n"@, end)),
        Layout::Jump => match jump_text(at, v as i16) {
            Some(shown) => Some((" "@ + shown + "\n"@, end)),
            None => None,
        },
        Layout::Back => if v <= at + 3 {
            Some(
                (
                    " -"@ + text::decimal(v as nat) + " -> "@ + text::pad_left(
                        text::decimal((at + 3 - v) as nat),
                        4,
                        '0',
                    ) + "\n"@,
                    end,
                ),
            )
        } else {
            None
        },
        Layout::Long => Some(
            (
                " "@ + text::decimal(
                    chunk::spell32(
                        c.code[at + 1],
                        c.code[at + 2],
                        c.code[at + 3],
                        c.code[at + 4],
                    ) as nat,
                ) + "\n"@,
                end,
            ),
        ),
        Layout::Excluded => Some(
            (
                " excl:"@ + text::decimal(a as nat) + "\n"@,
                if end + 2 * a < c.code.len() {
                    end + 2 * a
                } else {
                    c.code.len() as int
                },
            ),
        ),
        Layout::Captures => if v < c.child_chunks.len() && end + 3
            * c.child_chunks[v as int].upvalue_count <= c.code.len() {
            let count = c.child_chunks[v as int].upvalue_count as nat;
            Some(
                (
                    " chunk:"@ + text::decimal(v as nat) + "\n"@ + captures(c.code, end, count),
                    end + 3 * count,
                ),
            )
        } else {
            None
        },
        Layout::Handler => Some(
            (
                " catch:"@ + text::decimal(v as nat) + " finally:"@ + text::decimal(
                    half(c, at + 3) as nat,
                ) + "\n"@,
                end,
            ),
        ),
        Layout::ModuleVar => Some(
            (
                " module:"@ + text::decimal(v as nat) + " binding:"@ + text::decimal(
                    half(c, at + 3) as nat,
                ) + "\n"@,
                end,
            ),
        ),
        Layout::Exported => Some(
            (
                " name:["@ + text::decimal(v as nat) + "] slot:"@ + text::decimal(
                    c.code[at + 3] as nat,
                ) + "\n"@,
                end,
            ),
        ),
        Layout::RegExp => Some(
            (
                " pattern:["@ + text::decimal(v as nat) + "] flags:["@ + text::decimal(
                    half(c, at + 3) as nat,
                ) + "]\n"@,
                end,
            ),
        ),
        Layout::NameJump => match jump_text(at + 2, half(c, at + 3) as i16) {
            Some(shown) => Some((" ["@ + text::decimal(v as nat) + "] "@ + shown + "\n"@, end)),
            None => None,
        },
    }
}

/// The start of a line in a listing.
#[verifier::opaque]
pub open spec fn line_head(c: ChunkView, at: int) -> Seq<char> {
    text::pad_left(text::decimal(at as nat), 4, '0') + "  L"@ + text::pad_right(
        text::decimal(chunk::line_at(c.lines, c.lines.len(), at as u32) as nat),
        4,
        ' ',
    ) + "  "@
}

/// An instruction in a listing, and the position of the next one. There is none for an
/// instruction that is cut off or refers to what the chunk lacks.
#[verifier::opaque]
pub open spec fn instruction(c: ChunkView, at: int, table: Seq<Seq<char>>) -> Option<
    (Seq<char>, int),
> {
    let byte = c.code[at];
    match OpCode::of_byte(byte) {
        None => Some(
            (
                line_head(c, at) + "UNKNOWN(0x"@ + seq![
                    text::digit_char(byte as nat / 16),
                    text::digit_char(byte as nat % 16),
                ] + ")\n"@,
                at + 1,
            ),
        ),
        Some(op) => if at + width(layout(op)) > c.code.len() {
            None
        } else {
            match operands(c, at, layout(op), table) {
                Some((shown, next)) => Some((line_head(c, at) + op.mnemonic() + shown, next)),
                None => None,
            }
        },
    }
}

/// An instruction takes up at least one byte, and ends inside of the code.
pub proof fn lemma_instruction_ends(c: ChunkView, at: int, table: Seq<Seq<char>>)
    ensures
        at < c.code.len() && instruction(c, at, table) is Some ==> at < (instruction(
            c,
            at,
            table,
        )->0).1 <= c.code.len(),
{
    reveal(instruction);
    reveal(operands);
}

/// The listing of a chunk's code from a position on.
pub open spec fn code_listing(c: ChunkView, at: int, table: Seq<Seq<char>>) -> Option<Seq<char>>
    decreases c.code.len() - at,
{
    if at >= c.code.len() {
        Some(Seq::empty())
    } else {
        proof {
            lemma_instruction_ends(c, at, table);
        }
        match instruction(c, at, table) {
            None => None,
            Some((shown, next)) => match code_listing(c, next, table) {
                None => None,
                Some(rest) => Some(shown + rest),
            },
        }
    }
}

/// The heading of a listing.
#[verifier::opaque]
pub open spec fn heading(c: ChunkView, name: Seq<char>) -> Seq<char> {
    "=== "@ + (if name.len() == 0 {
        "<script>"@
    } else {
        name
    }) + " ===\nlocals: "@ + text::decimal(c.local_count as nat) + " params: "@ + text::decimal(
        c.param_count as nat,
    ) + " upvalues: "@ + text::decimal(c.upvalue_count as nat) + "\n"@
}

/// The listing of a chunk and of the chunks of its inner functions. There is none for a
/// chunk with an instruction that cannot be listed, or whose name is not in the table.
pub open spec fn listing(c: ChunkView, table: Seq<Seq<char>>) -> Option<Seq<char>>
    decreases c, 0int,
{
    if c.name.0 >= table.len() {
        None
    } else {
        match code_listing(c, 0, table) {
            None => None,
            Some(code) => match child_listings(c.child_chunks, 0, table) {
                None => None,
                Some(children) => Some(heading(c, table[c.name.0 as int]) + code + children),
            },
        }
    }
}

/// The listings of child chunks from a position on.
pub open spec fn child_listings(
    children: Seq<ChunkView>,
    i: int,
    table: Seq<Seq<char>>,
) -> Option<Seq<char>>
    decreases children, children.len() - i,
{
    if i < 0 || i >= children.len() {
        Some(Seq::empty())
    } else {
        match listing(children[i], table) {
            None => None,
            Some(shown) => match child_listings(children, i + 1, table) {
                None => None,
                Some(rest) => Some(
                    "\n--- child chunk "@ + text::decimal(i as nat) + " ---\n"@ + shown + rest,
                ),
            },
        }
    }
}

proof fn lemma_chunk_views(chunks: Seq<Chunk>, n: int)
    requires
        0 <= n <= chunks.len(),
    ensures
        chunk::chunk_views(chunks, n).len() == n,
        forall|i: int|
            0 <= i < n ==> #[trigger] chunk::chunk_views(chunks, n)[i] == chunk::chunk_view(chunks[i]),
    decreases n,
{
    if n > 0 {
        lemma_chunk_views(chunks, n - 1);
    }
}

fn push_value(out: &mut String, value: Value)
    ensures
        final(out)@ == old(out)@ + value_text(value),
{
    reveal(value_text);
    match value {
        Value::Undefined => {
            out.append("Undefined");
        },
        Value::Null => {
            out.append("Null");
        },
        Value::Bool(b) => {
            out.append(
                if b {
                    "Bool(true)"
                } else {
                    "Bool(false)"
                },
            );
        },
        Value::Object(id) => {
            out.append("Object(");
            push_decimal(out, id as u64);
            out.append(")");
        },
        Value::Int(i) => {
            out.append("Int(");
            push_signed(out, i as i64);
            out.append(")");
        },
        Value::Number(bits) => {
            out.append("Number(");
            push_decimal(out, bits);
            out.append(")");
        },
        Value::Str(id) => {
            out.append("Str(StringId(");
            push_decimal(out, id.0 as u64);
            out.append("))");
        },
    }
    assert(out@ =~= old(out)@ + value_text(value));
}

fn push_jump(out: &mut String, at: usize, distance: i16) -> (done: bool)
    ensures
        done == (jump_text(at as int, distance) is Some),
        done ==> final(out)@ == old(out)@ + jump_text(at as int, distance)->0,
{
    reveal(jump_text);
    if at > 0x7FFF_FFFC {
        return false;
    }
    let target: i64 = at as i64 + 3 + distance as i64;
    if target > 0x7FFF_FFFF {
        return false;
    }
    if distance >= 0 {
        out.append("+");
    }
    push_signed(out, distance as i64);
    out.append(" -> ");
    if target >= 0 {
        push_decimal_zeros(out, target as u64, 4);
    } else {
        let below: usize = (-target - 1) as usize;
        push_decimal_zeros(out, (usize::MAX - below) as u64, 4);
    }
    assert(out@ =~= old(out)@ + jump_text(at as int, distance)->0);
    true
}

proof fn lemma_captures(code: Seq<u8>, at: int, count: nat)
    ensures
        captures(code, at, 0) == Seq::<char>::empty(),
        captures(code, at, count + 1) == captures(code, at, count) + "              | "@ + (
        if code[at + 3 * count] != 0 {
            "local"@
        } else {
            "upvalue"@
        }) + " "@ + text::decimal(
            chunk::spell16(code[at + 3 * count + 1], code[at + 3 * count + 2]) as nat,
        ) + "\n"@,
{
    reveal_with_fuel(captures, 2);
}

fn push_captures(out: &mut String, chunk: &Chunk, at: usize, count: usize)
    requires
        at + 3 * count <= chunk.code@.len(),
    ensures
        final(out)@ == old(out)@ + captures(chunk.code@, at as int, count as nat),
{
    let mut i: usize = 0;
    proof {
        lemma_captures(chunk.code@, at as int, 0);
    }
    assert(out@ =~= old(out)@ + captures(chunk.code@, at as int, 0));
    while i < count
        invariant
            i <= count,
            at + 3 * count <= chunk.code@.len(),
            out@ == old(out)@ + captures(chunk.code@, at as int, i as nat),
        decreases count - i,
    {
        assert(chunk.code@.len() == chunk.code.len());
        let off: usize = at + 3 * i;
        out.append("              | ");
        if chunk.code[off] != 0 {
            out.append("local");
        } else {
            out.append("upvalue");
        }
        out.append(" ");
        push_decimal(out, chunk.read_u16(off + 1) as u64);
        out.append("\n");
        proof {
            lemma_captures(chunk.code@, at as int, i as nat);
        }
        i = i + 1;
        assert(out@ =~= old(out)@ + captures(chunk.code@, at as int, i as nat));
    }
}

/// Append a label, a number and what follows.
fn push_field(out: &mut String, label: &str, n: u64, behind: &str)
    ensures
        final(out)@ == old(out)@ + (label@ + text::decimal(n as nat) + behind@),
{
    out.append(label);
    push_decimal(out, n);
    out.append(behind);
    assert(out@ =~= old(out)@ + (label@ + text::decimal(n as nat) + behind@));
}

/// Append two labelled numbers and what follows.
fn push_fields(out: &mut String, first: &str, n: u64, second: &str, m: u64, behind: &str)
    ensures
        final(out)@ == old(out)@ + (first@ + text::decimal(n as nat) + second@ + text::decimal(
            m as nat,
        ) + behind@),
{
    push_field(out, first, n, second);
    push_decimal(out, m);
    out.append(behind);
    assert(out@ =~= old(out)@ + (first@ + text::decimal(n as nat) + second@ + text::decimal(
        m as nat,
    ) + behind@));
}

fn push_global(out: &mut String, chunk: &Chunk, v: u16, interner: &Interner) -> (done: bool)
    requires
        v < chunk.constants@.len(),
    ensures
        done == (global_name(chunk.constants@[v as int], interner@) is Some),
        done ==> final(out)@ == old(out)@ + (" ["@ + text::decimal(v as nat) + "] '"@
            + global_name(chunk.constants@[v as int], interner@)->0 + "'\n"@),
{
    reveal(global_name);
    reveal(value_text);
    let value: Value = chunk.constants[v as usize];
    match value.as_string_id() {
        Some(id) => {
            if !interner.has(id) {
                return false;
            }
            push_field(out, " [", v as u64, "] '");
            out.append(interner.resolve(id));
        },
        None => {
            push_field(out, " [", v as u64, "] '");
            push_value(out, value);
        },
    }
    out.append("'\n");
    assert(out@ =~= old(out)@ + (" ["@ + text::decimal(v as nat) + "] '"@ + global_name(
        chunk.constants@[v as int],
        interner@,
    )->0 + "'\n"@));
    true
}

/// Append the operands of an instruction, and give the position of the next instruction.
fn push_operands(
    out: &mut String,
    chunk: &Chunk,
    at: usize,
    layout: Layout,
    interner: &Interner,
) -> (next: Option<usize>)
    requires
        at + width(layout) <= chunk.code@.len(),
    ensures
        match operands(chunk@, at as int, layout, interner@) {
            Some((shown, then_at)) => next is Some && final(out)@ == old(out)@ + shown && next->0
                == then_at,
            None => next is None,
        },
{
    reveal(operands);
    assert(chunk.code@.len() == chunk.code.len());
    let ghost before = out@;
    let ghost c = chunk@;
    proof {
        lemma_chunk_views(chunk.child_chunks@, chunk.child_chunks@.len() as int);
    }
    let end: usize = at + operand_width(layout);
    let mut next: usize = end;
    match layout {
        Layout::Plain => {
            out.append("\n");
        },
        Layout::Count => {
            push_field(out, " ", chunk.code[at + 1] as u64, "\n");
        },
        Layout::Slot => {
            push_field(out, " slot:", chunk.code[at + 1] as u64, "\n");
        },
        Layout::Upvalue => {
            push_field(out, " upvalue:", chunk.code[at + 1] as u64, "\n");
        },
        Layout::Method => {
            let name: u16 = chunk.read_u16(at + 2);
            push_fields(out, " argc:", chunk.code[at + 1] as u64, " name:[", name as u64, "]\n");
        },
        Layout::Constant => {
            let v: u16 = chunk.read_u16(at + 1);
            if (v as usize) >= chunk.constants.len() {
                return None;
            }
            push_field(out, " [", v as u64, "] = ");
            push_value(out, chunk.constants[v as usize]);
            out.append("\n");
            assert(out@ =~= before + (operands(c, at as int, layout, interner@)->0).0);
        },
        Layout::Global => {
            let v: u16 = chunk.read_u16(at + 1);
            if (v as usize) >= chunk.constants.len() || !push_global(out, chunk, v, interner) {
                return None;
            }
        },
        Layout::Property => {
            let v: u16 = chunk.read_u16(at + 1);
            let cache: u16 = chunk.read_u16(at + 3);
            push_fields(out, " [", v as u64, "] ic:", cache as u64, "\n");
        },
        Layout::Index => {
            push_field(out, " [", chunk.read_u16(at + 1) as u64, "]\n");
        },
        Layout::WideSlot => {
            push_field(out, " slot:", chunk.read_u16(at + 1) as u64, "\n");
        },
        Layout::WideUpvalue => {
            push_field(out, " upvalue:", chunk.read_u16(at + 1) as u64, "\n");
        },
        Layout::Length => {
            push_field(out, " hint_len:", chunk.read_u16(at + 1) as u64, "\n");
        },
        Layout::Jump => {
            let distance: i16 = chunk.read_i16(at + 1);
            out.append(" ");
            if !push_jump(out, at, distance) {
                return None;
            }
            out.append("\n");
            assert(out@ =~= before + (operands(c, at as int, layout, interner@)->0).0);
        },
        Layout::Back => {
            let v: u16 = chunk.read_u16(at + 1);
            if (v as usize) > at + 3 {
                return None;
            }
            push_field(out, " -", v as u64, " -> ");
            push_decimal_zeros(out, (at + 3 - v as usize) as u64, 4);
            out.append("\n");
            assert(out@ =~= before + (operands(c, at as int, layout, interner@)->0).0);
        },
        Layout::Long => {
            push_field(out, " ", chunk.read_u32(at + 1) as u64, "\n");
        },
        Layout::Excluded => {
            let a: u8 = chunk.code[at + 1];
            push_field(out, " excl:", a as u64, "\n");
            next = if chunk.code.len() - end > 2 * (a as usize) {
                end + 2 * (a as usize)
            } else {
                chunk.code.len()
            };
        },
        Layout::Captures => {
            let v: u16 = chunk.read_u16(at + 1);
            if (v as usize) >= chunk.child_chunks.len() {
                return None;
            }
            let count: usize = chunk.child_chunks[v as usize].upvalue_count as usize;
            if chunk.code.len() - end < 3 * count {
                return None;
            }
            push_field(out, " chunk:", v as u64, "\n");
            push_captures(out, chunk, end, count);
            next = end + 3 * count;
            assert(out@ =~= before + (operands(c, at as int, layout, interner@)->0).0);
        },
        Layout::Handler => {
            let v: u16 = chunk.read_u16(at + 1);
            let w: u16 = chunk.read_u16(at + 3);
            push_fields(out, " catch:", v as u64, " finally:", w as u64, "\n");
        },
        Layout::ModuleVar => {
            let v: u16 = chunk.read_u16(at + 1);
            let w: u16 = chunk.read_u16(at + 3);
            push_fields(out, " module:", v as u64, " binding:", w as u64, "\n");
        },
        Layout::Exported => {
            let v: u16 = chunk.read_u16(at + 1);
            push_fields(out, " name:[", v as u64, "] slot:", chunk.code[at + 3] as u64, "\n");
        },
        Layout::RegExp => {
            let v: u16 = chunk.read_u16(at + 1);
            let w: u16 = chunk.read_u16(at + 3);
            push_fields(out, " pattern:[", v as u64, "] flags:[", w as u64, "]\n");
        },
        Layout::NameJump => {
            let v: u16 = chunk.read_u16(at + 1);
            let distance: i16 = chunk.read_i16(at + 3);
            push_field(out, " [", v as u64, "] ");
            if !push_jump(out, at + 2, distance) {
                return None;
            }
            out.append("\n");
            assert(out@ =~= before + (operands(c, at as int, layout, interner@)->0).0);
        },
    }
    Some(next)
}

/// Append an instruction, and give the position of the next one.
fn disassemble_instruction(
    chunk: &Chunk,
    at: usize,
    interner: &Interner,
    out: &mut String,
) -> (next: Option<usize>)
    requires
        at < chunk.code@.len(),
    ensures
        match instruction(chunk@, at as int, interner@) {
            Some((shown, then_at)) => next is Some && final(out)@ == old(out)@ + shown && next->0
                == then_at && at < next->0 <= chunk.code@.len(),
            None => next is None,
        },
{
    reveal(instruction);
    reveal(line_head);
    let byte: u8 = chunk.code[at];
    let line: u32 = chunk.get_line(at as u32);
    push_decimal_zeros(out, at as u64, 4);
    out.append("  L");
    push_decimal_spaces(out, line as u64, 4);
    out.append("  ");
    assert(out@ =~= old(out)@ + line_head(chunk@, at as int));
    match OpCode::from_byte(byte) {
        None => {
            out.append("UNKNOWN(0x");
            push_hex_byte(out, byte);
            out.append(")\n");
            assert(out@ =~= old(out)@ + (instruction(chunk@, at as int, interner@)->0).0);
            assert(chunk.code@.len() == chunk.code.len());
            Some(at + 1)
        },
        Some(op) => {
            let layout: Layout = operand_layout(op);
            if chunk.code.len() - at < operand_width(layout) {
                return None;
            }
            out.append(op.name());
            let next = push_operands(out, chunk, at, layout, interner);
            proof {
                lemma_instruction_ends(chunk@, at as int, interner@);
            }
            assert(
                next is Some ==> out@ =~= old(out)@ + (
                    instruction(chunk@, at as int, interner@)->0
                ).0
            );
            next
        },
    }
}

/// List a chunk's bytecode, if it can be listed.
pub fn try_disassemble(chunk: &Chunk, interner: &Interner) -> (out: Option<String>)
    ensures
        match listing(chunk@, interner@) {
            Some(shown) => out is Some && out->0@ == shown,
            None => out is None,
        },
    decreases *chunk,
{
    if !interner.has(chunk.name) {
        return None;
    }
    let mut out: String = String::new();
    let name = interner.resolve(chunk.name);
    out.append("=== ");
    if name.is_empty() {
        out.append("<script>");
    } else {
        out.append(name);
    }
    out.append(" ===\nlocals: ");
    push_decimal(&mut out, chunk.local_count as u64);
    push_field(&mut out, " params: ", chunk.param_count as u64, " upvalues: ");
    push_decimal(&mut out, chunk.upvalue_count as u64);
    out.append("\n");
    let ghost head = heading(chunk@, interner@[chunk.name.0 as int]);
    assert(out@ =~= head) by {
        reveal(heading);
    }
    let mut at: usize = 0;
    proof {
        lemma_chunk_views(chunk.child_chunks@, chunk.child_chunks@.len() as int);
    }
    while at < chunk.code.len()
        invariant
            chunk@.code == chunk.code@,
            match code_listing(chunk@, at as int, interner@) {
                Some(rest) => code_listing(chunk@, 0, interner@) == Some(
                    out@.skip(head.len() as int) + rest,
                ),
                None => code_listing(chunk@, 0, interner@) is None,
            },
            head.is_prefix_of(out@),
            chunk.name.0 < interner@.len(),
        decreases chunk.code@.len() - at,
    {
        let ghost before = out@;
        match disassemble_instruction(chunk, at, interner, &mut out) {
            Some(next) => {
                proof {
                    let shown = (instruction(chunk@, at as int, interner@)->0).0;
                    assert(out@ == before + shown);
                    assert(out@.skip(head.len() as int) =~= before.skip(head.len() as int) + shown);
                    match code_listing(chunk@, next as int, interner@) {
                        Some(rest) => {
                            assert(before.skip(head.len() as int) + (shown + rest) =~= out@.skip(
                                head.len() as int,
                            ) + rest);
                        },
                        None => {},
                    }
                }
                at = next;
            },
            None => {
                return None;
            },
        }
    }
    let ghost listed = code_listing(chunk@, 0, interner@)->0;
    assert(out@ =~= head + listed);
    let mut i: usize = 0;
    let ghost children = chunk@.child_chunks;
    assert(out@ + child_listings(children, 0, interner@)->0 =~= head + listed + child_listings(
        children,
        0,
        interner@,
    )->0);
    while i < chunk.child_chunks.len()
        invariant
            i <= chunk.child_chunks@.len(),
            children == chunk@.child_chunks,
            children.len() == chunk.child_chunks@.len(),
            forall|j: int|
                0 <= j < children.len() ==> #[trigger] children[j] == chunk::chunk_view(
                    chunk.child_chunks@[j],
                ),
            listing(chunk@, interner@) == match child_listings(children, i as int, interner@) {
                Some(rest) => Some(out@ + rest),
                None => None,
            },
        decreases chunk.child_chunks@.len() - i,
    {
        let child = &chunk.child_chunks[i];
        assert(decreases_to!(*chunk => chunk.child_chunks));
        assert(children[i as int] == child@);
        let ghost before = out@;
        match try_disassemble(child, interner) {
            Some(shown) => {
                out.append("\n--- child chunk ");
                push_decimal(&mut out, i as u64);
                out.append(" ---\n");
                out.append(shown.as_str());
                proof {
                    match child_listings(children, i + 1, interner@) {
                        Some(rest) => {
                            assert(out@ + rest =~= before + child_listings(
                                children,
                                i as int,
                                interner@,
                            )->0);
                        },
                        None => {},
                    }
                }
                i = i + 1;
            },
            None => {
                return None;
            },
        }
    }
    assert(out@ + Seq::<char>::empty() =~= out@);
    Some(out)
}

/// Pretty-print a chunk's bytecode for debugging.
pub fn disassemble(chunk: &Chunk, interner: &Interner) -> (out: String)
    requires
        listing(chunk@, interner@) is Some,
    ensures
        Some(out@) == listing(chunk@, interner@),
{
    match try_disassemble(chunk, interner) {
        Some(out) => out,
        None => String::new(),
    }
}

} // verus!
