//! What the compiler has done so far, and the single steps that it takes.
//!
//! `CState` is the mathematical state; its methods say what each step makes of it. The
//! methods of `Compiler` of the same names take the steps.

use vstd::prelude::*;
use crate::compiler::chunk;
use crate::compiler::compiler;
use crate::runtime::number_text;
use crate::util::interner;
use crate::util::text;
use crate::ast::node::Statement;
use crate::compiler::chunk::{Chunk, ChunkView, UpvalueDescriptor, FLAG_METHOD};
use crate::compiler::compiler::{
    Compiler, EnclosingFrame, FinallyEntry, FrameView, Local, LoopCtx, LoopView, SavedFrame,
    SavedView,
};
use crate::compiler::opcode::OpCode;
use crate::runtime::number_text::js_canonical_number_string;
use crate::runtime::value::Value;
use crate::util::interner::{same_text, StringId};
use crate::util::text::push_decimal;

verus! {

/// The mathematical state of a compilation.
#[verifier::ext_equal]
pub struct CState<'p> {
    /// The chunk being emitted.
    pub chunk: ChunkView,
    /// The locals in scope, outermost first.
    pub locals: Seq<Local>,
    /// The upvalues of the function being compiled.
    pub upvalues: Seq<UpvalueDescriptor>,
    /// The scope depth; 0 is the global scope.
    pub scope_depth: u32,
    /// The interned strings.
    pub table: Seq<Seq<char>>,
    /// The strings that were interned when the compiler was made.
    pub base: Seq<Seq<char>>,
    /// The open loops, switches and labelled statements, outermost first.
    pub loops: Seq<LoopView>,
    /// The enclosing functions, outermost first.
    pub chain: Seq<FrameView>,
    /// The constant globals.
    pub const_globals: Seq<StringId>,
    /// The label that the next loop adopts.
    pub pending_label: Option<StringId>,
    /// The name that the next anonymous function takes.
    pub pending_function_name: Option<StringId>,
    /// The open try statements, outermost first.
    pub finally_stack: Seq<FinallyEntry<'p>>,
    /// The number of enclosing `with` bodies.
    pub with_depth: usize,
    /// The number of enclosing class bodies.
    pub class_depth: u32,
    /// The lexicals whose slots were reserved at function entry.
    pub predeclared: Seq<StringId>,
    /// The number of locals at each enclosing `with` entry.
    pub floors: Seq<usize>,
    /// The parameter whose default is being compiled, and the number of parameters.
    pub param_init_active: Option<(usize, usize)>,
    /// Remembered code positions.
    pub marks: Seq<usize>,
}

/// Why a compilation stopped, and the strings that were interned by then.
#[verifier::ext_equal]
pub struct Failure {
    pub message: Seq<char>,
    pub table: Seq<Seq<char>>,
}

impl Failure {
    /// Whether a message, with the strings interned, is that of the failure.
    pub open spec fn explains(self, message: Seq<char>, table: Seq<Seq<char>>) -> bool {
        message == self.message && table == self.table
    }
}

/// How deep a compilation stands: the numbers of enclosing functions and classes, and of
/// the scopes, loops, try statements and `with` bodies that are open in the innermost
/// function.
pub struct Depths {
    pub functions: nat,
    pub scopes: u32,
    pub loops: nat,
    pub tries: nat,
    pub withs: usize,
    pub classes: u32,
}

impl Depths {
    /// The depths with one more scope open, where one was opened.
    pub open spec fn entered(self, opened: bool) -> Depths {
        if opened {
            Depths { scopes: self.scopes.wrapping_add(1), ..self }
        } else {
            self
        }
    }

    /// The depths once the innermost loop is left.
    pub open spec fn loop_left(self) -> Depths {
        if self.loops > 0 {
            Depths { loops: (self.loops - 1) as nat, ..self }
        } else {
            self
        }
    }

    /// The depths once the innermost try statement is left.
    pub open spec fn try_left(self) -> Depths {
        if self.tries > 0 {
            Depths { tries: (self.tries - 1) as nat, ..self }
        } else {
            self
        }
    }

    /// The depths once the innermost function is left, but for those inside of a function.
    pub open spec fn function_left(self) -> Depths {
        if self.functions > 0 {
            Depths { functions: (self.functions - 1) as nat, ..self }
        } else {
            self
        }
    }
}

impl<'p> SavedView<'p> {
    /// The depths of the enclosing function, with the numbers of functions and classes given.
    pub open spec fn depths(self, outer: Depths) -> Depths {
        Depths {
            scopes: self.scope_depth,
            loops: self.loops.len(),
            tries: self.finally_stack.len(),
            withs: self.with_depth,
            ..outer
        }
    }
}

/// A local as it is when it is declared.
pub open spec fn fresh_local(name: StringId, depth: u32) -> Local {
    Local {
        name,
        depth,
        initialized: false,
        captured: false,
        is_const: false,
        is_fn_self_name: false,
    }
}

/// The last of the first `n` locals that has a name.
pub open spec fn find_local(locals: Seq<Local>, name: StringId, n: nat) -> Option<usize>
    decreases n,
{
    if n == 0 {
        None
    } else if locals[n - 1].name == name {
        Some((n - 1) as usize)
    } else {
        find_local(locals, name, (n - 1) as nat)
    }
}

/// How many of the first `n` locals sit on top above a scope depth.
pub open spec fn above_depth(locals: Seq<Local>, depth: u32, n: nat) -> nat
    decreases n,
{
    if n == 0 || locals[n - 1].depth <= depth {
        0
    } else {
        1 + above_depth(locals, depth, (n - 1) as nat)
    }
}

/// Chunk and locals once the locals above a scope depth are dropped, innermost first.
pub open spec fn scope_closed(
    chunk: ChunkView,
    locals: Seq<Local>,
    depth: u32,
    line: u32,
) -> (ChunkView, Seq<Local>)
    decreases locals.len(),
{
    if locals.len() == 0 || locals.last().depth <= depth {
        (chunk, locals)
    } else {
        let op = if locals.last().captured {
            OpCode::CloseUpvalue
        } else {
            OpCode::Pop
        };
        scope_closed(chunk.op(op, line), locals.drop_last(), depth, line)
    }
}

/// The first position at or after `from` that holds a name, or the length.
pub open spec fn first_name(names: Seq<StringId>, name: StringId, from: nat) -> nat
    decreases names.len() - from,
{
    if from >= names.len() {
        names.len()
    } else if names[from as int] == name {
        from
    } else {
        first_name(names, name, from + 1)
    }
}

/// The names with one removed, the last one moved into its place.
pub open spec fn swap_removed(names: Seq<StringId>, at: int) -> Seq<StringId> {
    names.update(at, names.last()).drop_last()
}

/// The first position at or after `from` of an upvalue, or the length.
pub open spec fn first_upvalue(
    upvalues: Seq<UpvalueDescriptor>,
    upvalue: UpvalueDescriptor,
    from: nat,
) -> nat
    decreases upvalues.len() - from,
{
    if from >= upvalues.len() {
        upvalues.len()
    } else if upvalues[from as int] == upvalue {
        from
    } else {
        first_upvalue(upvalues, upvalue, from + 1)
    }
}

/// Upvalues with one added, unless it is there.
pub open spec fn upvalue_added(
    upvalues: Seq<UpvalueDescriptor>,
    upvalue: UpvalueDescriptor,
) -> Seq<UpvalueDescriptor> {
    if first_upvalue(upvalues, upvalue, 0) < upvalues.len() {
        upvalues
    } else {
        upvalues.push(upvalue)
    }
}

/// Resolve a name against the first `level` enclosing functions, for the function that
/// stands right inside them (`upvalues` are its own): the innermost of them that has such
/// a local gets it marked as captured, and the function gets an upvalue for it.
pub open spec fn captured(
    chain: Seq<FrameView>,
    upvalues: Seq<UpvalueDescriptor>,
    name: StringId,
    level: nat,
) -> (Seq<FrameView>, Seq<UpvalueDescriptor>, Option<u16>)
    decreases level,
{
    if level == 0 || level > chain.len() {
        (chain, upvalues, None)
    } else {
        let frame = chain[level - 1];
        match find_local(frame.locals, name, frame.locals.len()) {
            Some(i) => {
                let local = frame.locals[i as int];
                let marked = FrameView {
                    locals: frame.locals.update(i as int, Local { captured: true, ..local }),
                    ..frame
                };
                let upvalue = UpvalueDescriptor { index: i as u16, is_local: true };
                (
                    chain.update(level - 1, marked),
                    upvalue_added(upvalues, upvalue),
                    Some(first_upvalue(upvalues, upvalue, 0) as u16),
                )
            },
            None => {
                let (outer, own, found) = captured(
                    chain,
                    frame.upvalues,
                    name,
                    (level - 1) as nat,
                );
                match found {
                    Some(index) => {
                        let upvalue = UpvalueDescriptor { index, is_local: false };
                        (
                            outer.update(
                                level - 1,
                                FrameView { upvalues: own, ..outer[level - 1] },
                            ),
                            upvalue_added(upvalues, upvalue),
                            Some(first_upvalue(upvalues, upvalue, 0) as u16),
                        )
                    },
                    None => (chain, upvalues, None),
                }
            },
        }
    }
}

/// Whether the innermost local with a name, among the first `n` enclosing functions, is a
/// self-binding.
pub open spec fn chain_self_name(chain: Seq<FrameView>, name: StringId, n: nat) -> bool
    decreases n,
{
    if n == 0 || n > chain.len() {
        false
    } else {
        match find_local(chain[n - 1].locals, name, chain[n - 1].locals.len()) {
            Some(i) => chain[n - 1].locals[i as int].is_fn_self_name,
            None => chain_self_name(chain, name, (n - 1) as nat),
        }
    }
}

/// The last of the first `n` open statements that a break with a label leaves.
pub open spec fn find_break_target(
    loops: Seq<LoopView>,
    label: Option<StringId>,
    n: nat,
) -> Option<usize>
    decreases n,
{
    if n == 0 {
        None
    } else if label is None || loops[n - 1].label == label {
        Some((n - 1) as usize)
    } else {
        find_break_target(loops, label, (n - 1) as nat)
    }
}

/// The last of the first `n` open loops that a continue with a label goes to.
pub open spec fn find_continue_target(
    loops: Seq<LoopView>,
    label: Option<StringId>,
    n: nat,
) -> Option<usize>
    decreases n,
{
    if n == 0 {
        None
    } else if !loops[n - 1].is_switch && (label is None || loops[n - 1].label == label) {
        Some((n - 1) as usize)
    } else {
        find_continue_target(loops, label, (n - 1) as nat)
    }
}

/// The chunk once the jumps from position `from` of a list on land at its end.
pub open spec fn patched_all(chunk: ChunkView, patches: Seq<usize>, from: nat) -> ChunkView
    decreases patches.len() - from,
{
    if from >= patches.len() {
        chunk
    } else {
        let pos = patches[from as int];
        let next = if pos + 2 <= chunk.code.len() {
            chunk.patch(pos as nat)
        } else {
            chunk
        };
        patched_all(next, patches, from + 1)
    }
}

/// The chunk once the capture list of a closure is emitted.
pub open spec fn captures_emitted(
    chunk: ChunkView,
    descriptors: Seq<UpvalueDescriptor>,
    from: nat,
    line: u32,
) -> ChunkView
    decreases descriptors.len() - from,
{
    if from >= descriptors.len() {
        chunk
    } else {
        let d = descriptors[from as int];
        let flag = if d.is_local {
            1u8
        } else {
            0u8
        };
        captures_emitted(
            chunk.byte(flag, line).byte((d.index >> 8) as u8, line).byte(
                (d.index & 0xFF) as u8,
                line,
            ),
            descriptors,
            from + 1,
            line,
        )
    }
}

impl<'p> CState<'p> {
    /// How deep the compilation stands.
    #[verifier::opaque]
    pub open spec fn depths(self) -> Depths {
        Depths {
            functions: self.chain.len(),
            scopes: self.scope_depth,
            loops: self.loops.len(),
            tries: self.finally_stack.len(),
            withs: self.with_depth,
            classes: self.class_depth,
        }
    }

    /// The failure with a message here.
    pub open spec fn failing(self, message: Seq<char>) -> Failure {
        Failure { message, table: self.table }
    }

    /// What every step keeps: no string that was interned when the compiler was made is
    /// forgotten, and the functions compiled so far are sound.
    #[verifier::opaque]
    pub open spec fn good(self) -> bool {
        &&& self.base.is_prefix_of(self.table)
        &&& self.chunk.children_sound()
    }

    /// Emit an opcode.
    #[verifier::opaque]
    pub open spec fn op(self, op: OpCode, line: u32) -> CState<'p> {
        CState { chunk: self.chunk.op(op, line), ..self }
    }

    /// Emit an opcode with an 8-bit operand.
    #[verifier::opaque]
    pub open spec fn op_u8(self, op: OpCode, operand: u8, line: u32) -> CState<'p> {
        CState { chunk: self.chunk.op_u8(op, operand, line), ..self }
    }

    /// Emit an opcode with a 16-bit operand.
    #[verifier::opaque]
    pub open spec fn op_u16(self, op: OpCode, operand: u16, line: u32) -> CState<'p> {
        CState { chunk: self.chunk.op_u16(op, operand, line), ..self }
    }

    /// Emit an opcode with a 32-bit operand.
    #[verifier::opaque]
    pub open spec fn op_u32(self, op: OpCode, operand: u32, line: u32) -> CState<'p> {
        CState { chunk: self.chunk.op_u32(op, operand, line), ..self }
    }

    /// Emit a byte.
    #[verifier::opaque]
    pub open spec fn byte(self, byte: u8, line: u32) -> CState<'p> {
        CState { chunk: self.chunk.byte(byte, line), ..self }
    }

    /// Append a byte without line information.
    #[verifier::opaque]
    pub open spec fn raw(self, byte: u8) -> CState<'p> {
        CState { chunk: self.chunk.raw(seq![byte]), ..self }
    }

    /// Append a 16-bit operand without line information.
    #[verifier::opaque]
    pub open spec fn raw16(self, operand: u16) -> CState<'p> {
        CState { chunk: self.chunk.raw(chunk::be16(operand)), ..self }
    }

    /// Emit a jump with a placeholder offset; the position of the offset.
    #[verifier::opaque]
    pub open spec fn jump(self, op: OpCode, line: u32) -> (CState<'p>, usize) {
        (CState { chunk: self.chunk.jump(op, line), ..self }, (self.chunk.code.len() + 1) as usize)
    }

    /// Emit a placeholder offset behind another operand; its position.
    #[verifier::opaque]
    pub open spec fn placeholder(self, line: u32) -> (CState<'p>, usize) {
        (CState { chunk: self.chunk.placeholder(line), ..self }, self.chunk.code.len() as usize)
    }

    /// Make the jump whose offset stands at `pos` land here.
    #[verifier::opaque]
    pub open spec fn patch(self, pos: usize) -> CState<'p> {
        if pos + 2 <= self.chunk.code.len() {
            CState { chunk: self.chunk.patch(pos as nat), ..self }
        } else {
            self
        }
    }

    /// Make the three-byte jump at `at` land here.
    #[verifier::opaque]
    pub open spec fn patch_short(self, at: usize) -> CState<'p> {
        if at + 3 <= self.chunk.code.len() {
            CState { chunk: self.chunk.patch((at + 1) as nat), ..self }
        } else {
            self
        }
    }

    /// Make the jump whose offset stands at `pos` land at `target`.
    #[verifier::opaque]
    pub open spec fn aim(self, pos: usize, target: usize) -> CState<'p> {
        if pos + 2 <= self.chunk.code.len() {
            CState { chunk: self.chunk.aimed(pos as nat, target as nat), ..self }
        } else {
            self
        }
    }

    /// Overwrite the 16-bit number at `at` with the current position.
    #[verifier::opaque]
    pub open spec fn put_here(self, at: usize) -> CState<'p> {
        if at + 2 <= self.chunk.code.len() {
            CState { chunk: self.chunk.put16(at as nat, self.chunk.code.len() as u16), ..self }
        } else {
            self
        }
    }

    /// Overwrite the instruction at `at` with a no-op.
    #[verifier::opaque]
    pub open spec fn nop_at(self, at: usize) -> CState<'p> {
        if at < self.chunk.code.len() {
            CState {
                chunk: ChunkView {
                    code: self.chunk.code.update(at as int, OpCode::Nop.byte()),
                    ..self.chunk
                },
                ..self
            }
        } else {
            self
        }
    }

    /// Mark the chunk if the current position does not fit a 16-bit absolute target.
    #[verifier::opaque]
    pub open spec fn mark_wide_target(self) -> CState<'p> {
        CState {
            chunk: ChunkView {
                jump_overflow: self.chunk.jump_overflow || self.chunk.code.len() > u16::MAX,
                ..self.chunk
            },
            ..self
        }
    }

    /// Emit a backward jump to `start`.
    #[verifier::opaque]
    pub open spec fn back(self, start: usize, line: u32) -> CState<'p> {
        if start <= self.chunk.code.len() {
            CState { chunk: self.chunk.looped(start as nat, line), ..self }
        } else {
            self
        }
    }

    /// The current position.
    #[verifier::opaque]
    pub open spec fn here(self) -> usize {
        self.chunk.code.len() as usize
    }

    /// Add a constant; its index.
    #[verifier::opaque]
    pub open spec fn constant(self, value: Value) -> (CState<'p>, u16) {
        (CState { chunk: self.chunk.constant(value), ..self }, self.chunk.constants.len() as u16)
    }

    /// Add a string constant; its index.
    #[verifier::opaque]
    pub open spec fn make_string_constant(self, name: StringId) -> (CState<'p>, u16) {
        (
            CState { chunk: self.chunk.constant(Value::Str(name)), ..self },
            self.chunk.constants.len() as u16,
        )
    }

    /// Add a constant and push it.
    #[verifier::opaque]
    pub open spec fn emit_constant(self, value: Value, line: u32) -> CState<'p> {
        CState {
            chunk: self.chunk.constant(value).op_u16(
                OpCode::Const,
                self.chunk.constants.len() as u16,
                line,
            ),
            ..self
        }
    }

    /// Emit GetProperty with an embedded inline-cache slot (5 bytes total).
    #[verifier::opaque]
    pub open spec fn emit_get_property(self, name_idx: u16, line: u32) -> CState<'p> {
        CState {
            chunk: self.chunk.ic_slot().byte(OpCode::GetProperty.byte(), line).raw(
                chunk::be16(name_idx),
            ).raw(
                chunk::be16(self.chunk.ic_slot_count),
            ),
            ..self
        }
    }

    /// Emit SetProperty with an embedded inline-cache slot (5 bytes total).
    #[verifier::opaque]
    pub open spec fn emit_set_property(self, name_idx: u16, line: u32) -> CState<'p> {
        CState {
            chunk: self.chunk.ic_slot().byte(OpCode::SetProperty.byte(), line).raw(
                chunk::be16(name_idx),
            ).raw(
                chunk::be16(self.chunk.ic_slot_count),
            ),
            ..self
        }
    }

    /// Intern a text.
    #[verifier::opaque]
    pub open spec fn intern(self, text: Seq<char>) -> (CState<'p>, StringId) {
        (
            CState { table: interner::interned(self.table, text), ..self },
            interner::id_of(self.table, text),
        )
    }

    /// Intern the text of `id` put between two others.
    #[verifier::opaque]
    pub open spec fn intern_around(
        self,
        prefix: Seq<char>,
        id: StringId,
        suffix: Seq<char>,
    ) -> (CState<'p>, StringId) {
        let text = prefix + interner::text_of(self.table, id) + suffix;
        (
            CState { table: interner::interned(self.table, text), ..self },
            interner::id_of(self.table, text),
        )
    }

    /// Intern the placeholder name of the parameter with a number.
    #[verifier::opaque]
    pub open spec fn intern_param(self, index: usize) -> (CState<'p>, StringId) {
        let text = "__param"@ + text::decimal(index as nat) + "__"@;
        (
            CState { table: interner::interned(self.table, text), ..self },
            interner::id_of(self.table, text),
        )
    }

    /// Intern the canonical text of a number.
    #[verifier::opaque]
    pub open spec fn intern_number(self, bits: u64) -> (CState<'p>, StringId) {
        let text = number_text::canonical_text(bits);
        (
            CState { table: interner::interned(self.table, text), ..self },
            interner::id_of(self.table, text),
        )
    }

    /// Whether a name is the given text.
    #[verifier::opaque]
    pub open spec fn name_is(self, id: StringId, text: Seq<char>) -> bool {
        interner::text_of(self.table, id) == text
    }

    /// Whether a name starts with a hash sign.
    #[verifier::opaque]
    pub open spec fn name_is_private(self, id: StringId) -> bool {
        interner::text_of(self.table, id).len() > 0 && interner::text_of(self.table, id)[0] == '#'
    }

    /// Whether a name is the empty text.
    #[verifier::opaque]
    pub open spec fn name_is_empty(self, id: StringId) -> bool {
        interner::text_of(self.table, id).len() == 0
    }

    /// The line of the code emitted last.
    #[verifier::opaque]
    pub open spec fn current_line(self) -> u32 {
        if self.chunk.lines.len() > 0 {
            self.chunk.lines.last().1
        } else {
            1
        }
    }

    /// Whether the chunk has a flag.
    #[verifier::opaque]
    pub open spec fn has_flag(self, mask: u16) -> bool {
        self.chunk.flags.has(mask)
    }

    /// Give the chunk a flag.
    #[verifier::opaque]
    pub open spec fn add_flag(self, mask: u16) -> CState<'p> {
        CState { chunk: ChunkView { flags: self.chunk.flags.with(mask), ..self.chunk }, ..self }
    }

    /// Note that the body references the `arguments` object.
    #[verifier::opaque]
    pub open spec fn note_arguments(self) -> CState<'p> {
        CState { chunk: ChunkView { uses_arguments: true, ..self.chunk }, ..self }
    }

    /// Whether a jump in the chunk did not fit its encoding.
    #[verifier::opaque]
    pub open spec fn overflowed(self) -> bool {
        self.chunk.jump_overflow
    }

    /// Open a scope.
    #[verifier::opaque]
    pub open spec fn begin_scope(self) -> CState<'p> {
        CState { scope_depth: self.scope_depth.wrapping_add(1), ..self }
    }

    /// Close a scope: drop its locals, closing over those that were captured.
    #[verifier::opaque]
    pub open spec fn end_scope(self) -> CState<'p> {
        let depth = self.scope_depth.wrapping_sub(1);
        let (chunk, locals) = scope_closed(self.chunk, self.locals, depth, self.current_line());
        CState { scope_depth: depth, chunk, locals, ..self }
    }

    /// Add a local of the current scope.
    #[verifier::opaque]
    pub open spec fn add_local(self, name: StringId) -> CState<'p> {
        CState { locals: self.locals.push(fresh_local(name, self.scope_depth)), ..self }
    }

    /// Mark the local added last as initialized.
    #[verifier::opaque]
    pub open spec fn mark_initialized(self) -> CState<'p> {
        if self.locals.len() > 0 {
            CState {
                locals: self.locals.update(
                    self.locals.len() - 1,
                    Local { initialized: true, ..self.locals.last() },
                ),
                ..self
            }
        } else {
            self
        }
    }

    /// Forget the local added last without emitting code.
    #[verifier::opaque]
    pub open spec fn pop_local(self) -> CState<'p> {
        if self.locals.len() > 0 {
            CState { locals: self.locals.drop_last(), ..self }
        } else {
            self
        }
    }

    /// Make a local constant.
    #[verifier::opaque]
    pub open spec fn set_const(self, slot: usize) -> CState<'p> {
        if slot < self.locals.len() {
            CState {
                locals: self.locals.update(
                    slot as int,
                    Local { is_const: true, ..self.locals[slot as int] },
                ),
                ..self
            }
        } else {
            self
        }
    }

    /// The scope depth.
    #[verifier::opaque]
    pub open spec fn depth(self) -> u32 {
        self.scope_depth
    }

    /// The number of locals.
    #[verifier::opaque]
    pub open spec fn local_len(self) -> usize {
        self.locals.len() as usize
    }

    /// The slot of the local added last.
    #[verifier::opaque]
    pub open spec fn last_index(self) -> usize {
        (self.locals.len() as usize).wrapping_sub(1)
    }

    /// The innermost local with a name.
    #[verifier::opaque]
    pub open spec fn resolve_local(self, name: StringId) -> Option<usize> {
        find_local(self.locals, name, self.locals.len())
    }

    /// Whether a local is constant.
    #[verifier::opaque]
    pub open spec fn local_is_const(self, slot: usize) -> bool {
        slot < self.locals.len() && self.locals[slot as int].is_const
    }

    /// Whether a local is the self-binding of a named function expression.
    #[verifier::opaque]
    pub open spec fn local_is_self_name(self, slot: usize) -> bool {
        slot < self.locals.len() && self.locals[slot as int].is_fn_self_name
    }

    /// How many locals sit above the given scope depth.
    #[verifier::opaque]
    pub open spec fn locals_above_depth(self, depth: u32) -> usize {
        above_depth(self.locals, depth, self.locals.len()) as usize
    }

    /// Take back the slot that was reserved for a top-level lexical at function entry, if one
    /// was. Only at the depth of the function body itself.
    #[verifier::opaque]
    pub open spec fn take_predeclared_lex(self, name: StringId) -> (CState<'p>, Option<usize>) {
        let at = first_name(self.predeclared, name, 0);
        if self.scope_depth == 1 && at < self.predeclared.len() {
            let rest = CState { predeclared: swap_removed(self.predeclared, at as int), ..self };
            (rest, find_local(self.locals, name, self.locals.len()))
        } else {
            (self, None)
        }
    }

    /// Reserve a name for a later lexical declaration.
    #[verifier::opaque]
    pub open spec fn predeclare(self, name: StringId) -> CState<'p> {
        CState { predeclared: self.predeclared.push(name), ..self }
    }

    /// Resolve a name as an upvalue captured from an enclosing function. The capture is
    /// threaded through every function in between.
    #[verifier::opaque]
    pub open spec fn resolve_upvalue(self, name: StringId) -> (CState<'p>, Option<u16>) {
        let (chain, upvalues, found) = captured(self.chain, self.upvalues, name, self.chain.len());
        (CState { chain, upvalues, ..self }, found)
    }

    /// Whether the innermost enclosing local with a name is the self-binding of a named
    /// function expression.
    #[verifier::opaque]
    pub open spec fn captured_self_name(self, name: StringId) -> bool {
        chain_self_name(self.chain, name, self.chain.len())
    }

    /// Whether a local needs a `with` guard: it was declared outside the innermost `with` body.
    #[verifier::opaque]
    pub open spec fn local_needs_with_guard(self, slot: usize) -> bool {
        self.with_depth > 0 && (self.floors.len() == 0 || slot < self.floors.last())
    }

    /// Note a constant global.
    #[verifier::opaque]
    pub open spec fn add_const_global(self, name: StringId) -> CState<'p> {
        CState { const_globals: self.const_globals.push(name), ..self }
    }

    /// Whether a global is constant.
    #[verifier::opaque]
    pub open spec fn is_const_global(self, name: StringId) -> bool {
        first_name(self.const_globals, name, 0) < self.const_globals.len()
    }

    /// Enter a loop, switch or labelled statement.
    #[verifier::opaque]
    pub open spec fn push_loop(
        self,
        continue_target: usize,
        scope_depth: u32,
        label: Option<StringId>,
        has_deferred_continue: bool,
        is_switch: bool,
        for_of_iter_slot: Option<u16>,
    ) -> CState<'p> {
        CState {
            loops: self.loops.push(
                LoopView {
                    continue_target,
                    break_patches: Seq::empty(),
                    continue_patches: Seq::empty(),
                    scope_depth,
                    label,
                    has_deferred_continue,
                    try_depth: self.finally_stack.len() as usize,
                    with_depth: self.with_depth,
                    is_switch,
                    for_of_iter_slot,
                },
            ),
            ..self
        }
    }

    /// Leave the innermost loop: its breaks land here.
    #[verifier::opaque]
    pub open spec fn patch_loop_breaks(self) -> CState<'p> {
        if self.loops.len() > 0 {
            CState {
                loops: self.loops.drop_last(),
                chunk: patched_all(self.chunk, self.loops.last().break_patches, 0),
                ..self
            }
        } else {
            self
        }
    }

    /// The deferred continues of the innermost loop land here.
    #[verifier::opaque]
    pub open spec fn patch_continues(self) -> CState<'p> {
        if self.loops.len() > 0 {
            CState {
                loops: self.loops.update(
                    self.loops.len() - 1,
                    LoopView { continue_patches: Seq::empty(), ..self.loops.last() },
                ),
                chunk: patched_all(self.chunk, self.loops.last().continue_patches, 0),
                ..self
            }
        } else {
            self
        }
    }

    /// Continues of the innermost loop go to the current position from here on.
    #[verifier::opaque]
    pub open spec fn set_continue_here(self) -> CState<'p> {
        if self.loops.len() > 0 {
            CState {
                loops: self.loops.update(
                    self.loops.len() - 1,
                    LoopView {
                        continue_target: self.chunk.code.len() as usize,
                        ..self.loops.last()
                    },
                ),
                ..self
            }
        } else {
            self
        }
    }

    /// Take the label that the next loop adopts.
    #[verifier::opaque]
    pub open spec fn take_label(self) -> (CState<'p>, Option<StringId>) {
        (CState { pending_label: None, ..self }, self.pending_label)
    }

    /// Set the label that the next loop adopts.
    #[verifier::opaque]
    pub open spec fn set_label(self, label: Option<StringId>) -> CState<'p> {
        CState { pending_label: label, ..self }
    }

    /// Whether no loop, switch or labelled statement is open.
    #[verifier::opaque]
    pub open spec fn no_loops(self) -> bool {
        self.loops.len() == 0
    }

    /// The statement that a break leaves: the innermost, or the innermost with the label.
    #[verifier::opaque]
    pub open spec fn find_break(self, label: Option<StringId>) -> Option<usize> {
        find_break_target(self.loops, label, self.loops.len())
    }

    /// The loop that a continue goes to: never a switch.
    #[verifier::opaque]
    pub open spec fn find_continue(self, label: Option<StringId>) -> Option<usize> {
        find_continue_target(self.loops, label, self.loops.len())
    }

    /// The field `scope_depth` of an open loop.
    #[verifier::opaque]
    pub open spec fn loop_scope_depth(self, at: usize) -> u32 {
        if at < self.loops.len() {
            self.loops[at as int].scope_depth
        } else {
            0
        }
    }

    /// The field `try_depth` of an open loop.
    #[verifier::opaque]
    pub open spec fn loop_try_depth(self, at: usize) -> usize {
        if at < self.loops.len() {
            self.loops[at as int].try_depth
        } else {
            0
        }
    }

    /// The field `with_depth` of an open loop.
    #[verifier::opaque]
    pub open spec fn loop_with_depth(self, at: usize) -> usize {
        if at < self.loops.len() {
            self.loops[at as int].with_depth
        } else {
            0
        }
    }

    /// The field `continue_target` of an open loop.
    #[verifier::opaque]
    pub open spec fn loop_continue_target(self, at: usize) -> usize {
        if at < self.loops.len() {
            self.loops[at as int].continue_target
        } else {
            0
        }
    }

    /// The field `has_deferred_continue` of an open loop.
    #[verifier::opaque]
    pub open spec fn loop_defers_continue(self, at: usize) -> bool {
        if at < self.loops.len() {
            self.loops[at as int].has_deferred_continue
        } else {
            false
        }
    }

    /// The field `for_of_iter_slot` of an open loop.
    #[verifier::opaque]
    pub open spec fn loop_iter_slot(self, at: usize) -> Option<u16> {
        if at < self.loops.len() {
            self.loops[at as int].for_of_iter_slot
        } else {
            None
        }
    }

    /// The number of open loops.
    #[verifier::opaque]
    pub open spec fn loop_len(self) -> usize {
        self.loops.len() as usize
    }

    /// Note a jump to be patched at the end of a loop (`break_patches`).
    #[verifier::opaque]
    pub open spec fn add_break(self, at: usize, pos: usize) -> CState<'p> {
        if at < self.loops.len() {
            CState {
                loops: self.loops.update(
                    at as int,
                    LoopView {
                        break_patches: self.loops[at as int].break_patches.push(pos),
                        ..self.loops[at as int]
                    },
                ),
                ..self
            }
        } else {
            self
        }
    }

    /// Note a jump to be patched at the end of a loop (`continue_patches`).
    #[verifier::opaque]
    pub open spec fn add_continue(self, at: usize, pos: usize) -> CState<'p> {
        if at < self.loops.len() {
            CState {
                loops: self.loops.update(
                    at as int,
                    LoopView {
                        continue_patches: self.loops[at as int].continue_patches.push(pos),
                        ..self.loops[at as int]
                    },
                ),
                ..self
            }
        } else {
            self
        }
    }

    /// Enter a try statement: the finally body to inline on early exits, with the runtime
    /// handler active.
    #[verifier::opaque]
    pub open spec fn push_finally(self, body: Option<&'p Vec<Statement>>) -> CState<'p> {
        CState {
            finally_stack: self.finally_stack.push(FinallyEntry { body, active: true }),
            ..self
        }
    }

    /// From here on the runtime handler of the innermost try is gone.
    #[verifier::opaque]
    pub open spec fn deactivate_finally(self) -> CState<'p> {
        if self.finally_stack.len() > 0 {
            CState {
                finally_stack: self.finally_stack.update(
                    self.finally_stack.len() - 1,
                    FinallyEntry { active: false, ..self.finally_stack.last() },
                ),
                ..self
            }
        } else {
            self
        }
    }

    /// Leave the innermost try statement.
    #[verifier::opaque]
    pub open spec fn pop_finally(self) -> CState<'p> {
        if self.finally_stack.len() > 0 {
            CState { finally_stack: self.finally_stack.drop_last(), ..self }
        } else {
            self
        }
    }

    /// Detach the try levels from `depth` on.
    #[verifier::opaque]
    pub open spec fn detach_finally(self, depth: usize) -> (CState<'p>, Seq<FinallyEntry<'p>>) {
        if depth <= self.finally_stack.len() {
            (
                CState { finally_stack: self.finally_stack.take(depth as int), ..self },
                self.finally_stack.skip(depth as int),
            )
        } else {
            (self, Seq::empty())
        }
    }

    /// Attach detached try levels again.
    #[verifier::opaque]
    pub open spec fn attach_finally(self, levels: Seq<FinallyEntry<'p>>) -> CState<'p> {
        CState { finally_stack: self.finally_stack + levels, ..self }
    }

    /// The number of enclosing `with` bodies.
    #[verifier::opaque]
    pub open spec fn with_level(self) -> usize {
        self.with_depth
    }

    /// Enter a `with` body.
    #[verifier::opaque]
    pub open spec fn enter_with(self) -> CState<'p> {
        CState {
            with_depth: self.with_depth.wrapping_add(1),
            floors: self.floors.push(self.locals.len() as usize),
            ..self
        }
    }

    /// Leave a `with` body.
    #[verifier::opaque]
    pub open spec fn leave_with(self) -> CState<'p> {
        CState {
            with_depth: self.with_depth.wrapping_sub(1),
            floors: if self.floors.len() > 0 {
                self.floors.drop_last()
            } else {
                self.floors
            },
            ..self
        }
    }

    /// Whether a class body is being compiled.
    #[verifier::opaque]
    pub open spec fn in_class(self) -> bool {
        self.class_depth > 0
    }

    /// Enter a class body.
    #[verifier::opaque]
    pub open spec fn enter_class(self) -> CState<'p> {
        CState { class_depth: self.class_depth.wrapping_add(1), ..self }
    }

    /// Leave a class body.
    #[verifier::opaque]
    pub open spec fn leave_class(self) -> CState<'p> {
        CState { class_depth: self.class_depth.wrapping_sub(1), ..self }
    }

    /// Set the name that the next anonymous function takes.
    #[verifier::opaque]
    pub open spec fn set_pending_name(self, name: StringId) -> CState<'p> {
        CState { pending_function_name: Some(name), ..self }
    }

    /// Take the name for an anonymous function.
    #[verifier::opaque]
    pub open spec fn take_pending_name(self) -> (CState<'p>, Option<StringId>) {
        (CState { pending_function_name: None, ..self }, self.pending_function_name)
    }

    /// Start the default of the parameter in slot `k`, one of `count`.
    #[verifier::opaque]
    pub open spec fn begin_default(self, k: usize, count: usize) -> CState<'p> {
        CState { param_init_active: Some((k, count)), ..self }
    }

    /// Finish the default of a parameter.
    #[verifier::opaque]
    pub open spec fn end_default(self) -> CState<'p> {
        CState { param_init_active: None, ..self }
    }

    /// Whether a direct reference reads a parameter that has no value yet: parameters get
    /// theirs from left to right, so the default of one sees neither itself nor those behind
    /// it.
    #[verifier::opaque]
    pub open spec fn param_tdz_violation(self, name: StringId) -> bool {
        match (self.param_init_active, find_local(self.locals, name, self.locals.len())) {
            (Some((k, count)), Some(slot)) => k <= slot < count,
            _ => false,
        }
    }

    /// Remember a position.
    #[verifier::opaque]
    pub open spec fn push_mark(self, pos: usize) -> CState<'p> {
        if self.marks.len() < usize::MAX {
            CState { marks: self.marks.push(pos), ..self }
        } else {
            self
        }
    }

    /// The number of remembered positions.
    #[verifier::opaque]
    pub open spec fn mark_len(self) -> usize {
        self.marks.len() as usize
    }

    /// A remembered position, or one behind all code.
    #[verifier::opaque]
    pub open spec fn mark_at(self, at: usize) -> usize {
        if at < self.marks.len() {
            self.marks[at as int]
        } else {
            usize::MAX
        }
    }

    /// Forget the positions from `base` on.
    #[verifier::opaque]
    pub open spec fn drop_marks(self, base: usize) -> CState<'p> {
        if base <= self.marks.len() {
            CState { marks: self.marks.take(base as int), ..self }
        } else {
            self
        }
    }

    /// The jumps remembered from `base` on land here.
    #[verifier::opaque]
    pub open spec fn patch_marks(self, base: usize) -> CState<'p> {
        if base <= self.marks.len() {
            CState {
                chunk: patched_all(self.chunk, self.marks, base as nat),
                marks: self.marks.take(base as int),
                ..self
            }
        } else {
            self
        }
    }

    /// The slot that the next local gets, as an operand.
    #[verifier::opaque]
    pub open spec fn next_slot(self) -> u8 {
        self.locals.len() as u8
    }

    /// The slot of the last local, as an operand.
    #[verifier::opaque]
    pub open spec fn last_slot(self) -> u8 {
        (self.locals.len() as usize).wrapping_sub(1) as u8
    }

    /// Make the last local the self-binding of a named function expression.
    #[verifier::opaque]
    pub open spec fn mark_self_name(self) -> CState<'p> {
        if self.locals.len() > 0 {
            let last = self.locals.len() - 1;
            CState {
                locals: self.locals.update(
                    last,
                    Local { is_fn_self_name: true, ..self.locals[last] },
                ),
                ..self
            }
        } else {
            self
        }
    }

    /// The text of `id` put between two others.
    #[verifier::opaque]
    pub open spec fn message_around(
        self,
        prefix: Seq<char>,
        id: StringId,
        suffix: Seq<char>,
    ) -> Seq<char> {
        prefix + interner::text_of(self.table, id) + suffix
    }

    /// The source name of the chunk.
    #[verifier::opaque]
    pub open spec fn source_name(self) -> StringId {
        self.chunk.source_name
    }

    /// Start a function: its chunk and a fresh scope replace those of the enclosing function,
    /// which are set aside.
    #[verifier::opaque]
    pub open spec fn enter_function(self, child: ChunkView) -> (CState<'p>, SavedView<'p>) {
        (
            CState {
                chunk: child,
                locals: Seq::empty(),
                upvalues: Seq::empty(),
                scope_depth: 1,
                loops: Seq::empty(),
                predeclared: Seq::empty(),
                finally_stack: Seq::empty(),
                with_depth: 0,
                floors: Seq::empty(),
                marks: Seq::empty(),
                param_init_active: None,
                chain: self.chain.push(FrameView { locals: self.locals, upvalues: self.upvalues }),
                ..self
            },
            SavedView {
                chunk: self.chunk,
                scope_depth: self.scope_depth,
                loops: self.loops,
                predeclared: self.predeclared,
                finally_stack: self.finally_stack,
                with_depth: self.with_depth,
                floors: self.floors,
                marks: self.marks,
                param_init_active: self.param_init_active,
            },
        )
    }

    /// Finish a function: its chunk, with the enclosing function back in place.
    #[verifier::opaque]
    pub open spec fn leave_function(self, saved: SavedView<'p>) -> (CState<'p>, ChunkView) {
        let frame = if self.chain.len() > 0 {
            self.chain.last()
        } else {
            FrameView { locals: Seq::empty(), upvalues: Seq::empty() }
        };
        (
            CState {
                chunk: saved.chunk,
                locals: frame.locals,
                upvalues: frame.upvalues,
                scope_depth: saved.scope_depth,
                loops: saved.loops,
                predeclared: saved.predeclared,
                finally_stack: saved.finally_stack,
                with_depth: saved.with_depth,
                floors: saved.floors,
                marks: saved.marks,
                param_init_active: saved.param_init_active,
                chain: if self.chain.len() > 0 {
                    self.chain.drop_last()
                } else {
                    self.chain
                },
                ..self
            },
            self.chunk,
        )
    }

    /// Note the numbers of locals and upvalues, and how each upvalue is captured.
    #[verifier::opaque]
    pub open spec fn finish_chunk(self) -> CState<'p> {
        CState {
            chunk: ChunkView {
                local_count: self.locals.len() as u16,
                upvalue_count: self.upvalues.len() as u16,
                upvalue_descriptors: self.upvalues,
                ..self.chunk
            },
            ..self
        }
    }

    /// Note the number of locals.
    #[verifier::opaque]
    pub open spec fn finish_script(self) -> CState<'p> {
        CState { chunk: ChunkView { local_count: self.locals.len() as u16, ..self.chunk }, ..self }
    }

    /// Add a function chunk and emit the closure over it, with its capture list.
    #[verifier::opaque]
    pub open spec fn emit_closure(self, child: ChunkView, line: u32) -> CState<'p> {
        let with_child = ChunkView {
            child_chunks: self.chunk.child_chunks.push(child),
            ..self.chunk
        };
        CState {
            chunk: captures_emitted(
                with_child.op_u16(OpCode::Closure, self.chunk.child_chunks.len() as u16, line),
                child.upvalue_descriptors,
                0,
                line,
            ),
            ..self
        }
    }

    /// Mark the function chunk added last as a concise method: it has no [[Construct]] slot.
    #[verifier::opaque]
    pub open spec fn mark_last_child_as_method(self) -> CState<'p> {
        if self.chunk.child_chunks.len() > 0 {
            let last = self.chunk.child_chunks.last();
            CState {
                chunk: ChunkView {
                    child_chunks: self.chunk.child_chunks.drop_last().push(
                        ChunkView { flags: last.flags.with(FLAG_METHOD), ..last },
                    ),
                    ..self.chunk
                },
                ..self
            }
        } else {
            self
        }
    }
}

/// Closing a scope leaves the function chunks alone.
proof fn lemma_scope_children(chunk: ChunkView, locals: Seq<Local>, depth: u32, line: u32)
    ensures
        scope_closed(chunk, locals, depth, line).0.child_chunks == chunk.child_chunks,
    decreases locals.len(),
{
    if locals.len() > 0 && locals.last().depth > depth {
        let op = if locals.last().captured {
            OpCode::CloseUpvalue
        } else {
            OpCode::Pop
        };
        lemma_scope_children(chunk.op(op, line), locals.drop_last(), depth, line);
    }
}

/// Patching jumps leaves the function chunks alone.
proof fn lemma_patched_children(chunk: ChunkView, patches: Seq<usize>, from: nat)
    ensures
        patched_all(chunk, patches, from).child_chunks == chunk.child_chunks,
    decreases patches.len() - from,
{
    if from < patches.len() {
        let pos = patches[from as int];
        let next = if pos + 2 <= chunk.code.len() {
            chunk.patch(pos as nat)
        } else {
            chunk
        };
        lemma_patched_children(next, patches, from + 1);
    }
}

/// Emitting a capture list leaves the function chunks alone.
proof fn lemma_captures_children(
    chunk: ChunkView,
    descriptors: Seq<UpvalueDescriptor>,
    from: nat,
    line: u32,
)
    ensures
        captures_emitted(chunk, descriptors, from, line).child_chunks == chunk.child_chunks,
    decreases descriptors.len() - from,
{
    if from < descriptors.len() {
        let d = descriptors[from as int];
        let flag = if d.is_local {
            1u8
        } else {
            0u8
        };
        lemma_captures_children(
            chunk.byte(flag, line).byte((d.index >> 8) as u8, line).byte(
                (d.index & 0xFF) as u8,
                line,
            ),
            descriptors,
            from + 1,
            line,
        );
    }
}

/// Whether a list of names holds a name.
pub fn has_name(names: &Vec<StringId>, name: StringId) -> (has: bool)
    ensures
        has == (first_name(names@, name, 0) < names@.len()),
{
    let mut i: usize = 0;
    while i < names.len()
        invariant
            i <= names@.len(),
            first_name(names@, name, 0) == first_name(names@, name, i as nat),
        decreases names@.len() - i,
    {
        if names[i] == name {
            return true;
        }
        i = i + 1;
    }
    false
}

/// Whether two labels are the same.
fn same_label(a: Option<StringId>, b: Option<StringId>) -> (same: bool)
    ensures
        same == (a == b),
{
    match (a, b) {
        (Some(x), Some(y)) => x == y,
        (None, None) => true,
        _ => false,
    }
}

fn copy_descriptors(from: &Vec<UpvalueDescriptor>) -> (copy: Vec<UpvalueDescriptor>)
    ensures
        copy@ == from@,
{
    let mut copy: Vec<UpvalueDescriptor> = Vec::new();
    let mut i: usize = 0;
    while i < from.len()
        invariant
            i <= from@.len(),
            copy@ == from@.take(i as int),
        decreases from@.len() - i,
    {
        copy.push(from[i]);
        i = i + 1;
        assert(copy@ =~= from@.take(i as int));
    }
    assert(copy@ =~= from@);
    copy
}

proof fn lemma_find_local(locals: Seq<Local>, name: StringId, n: nat)
    requires
        n <= locals.len(),
        locals.len() <= usize::MAX,
    ensures
        find_local(locals, name, n) matches Some(i) ==> i < n && locals[i as int].name == name,
    decreases n,
{
    if n > 0 && locals[n - 1].name != name {
        lemma_find_local(locals, name, (n - 1) as nat);
    }
}

proof fn lemma_chunk_views_len(chunks: Seq<Chunk>, n: int)
    requires
        0 <= n <= chunks.len(),
    ensures
        chunk::chunk_views(chunks, n).len() == n,
    decreases n,
{
    if n > 0 {
        lemma_chunk_views_len(chunks, n - 1);
    }
}

proof fn lemma_chunk_views_prefix(chunks: Seq<Chunk>, chunk: Chunk, n: int)
    requires
        0 <= n <= chunks.len(),
    ensures
        chunk::chunk_views(chunks.push(chunk), n) == chunk::chunk_views(chunks, n),
    decreases n,
{
    if n > 0 {
        lemma_chunk_views_prefix(chunks, chunk, n - 1);
    }
}

proof fn lemma_chunk_views_push(chunks: Seq<Chunk>, chunk: Chunk)
    ensures
        chunk::chunk_views(chunks.push(chunk), chunks.len() as int + 1) == chunk::chunk_views(
            chunks,
            chunks.len() as int,
        ).push(chunk@),
{
    lemma_chunk_views_prefix(chunks, chunk, chunks.len() as int);
}

impl EnclosingFrame {
    /// The innermost local of the frame with a name.
    pub(crate) fn find(&self, name: StringId) -> (found: Option<usize>)
        ensures
            found == find_local(self.locals@, name, self.locals@.len()),
            found matches Some(i) ==> i < self.locals@.len(),
    {
        let mut n: usize = self.locals.len();
        while n > 0
            invariant
                n <= self.locals@.len(),
                find_local(self.locals@, name, n as nat) == find_local(
                    self.locals@,
                    name,
                    self.locals@.len(),
                ),
            decreases n,
        {
            if self.locals[n - 1].name == name {
                return Some(n - 1);
            }
            n = n - 1;
        }
        None
    }
}

/// Add an upvalue to a list unless it is there; its index.
fn add_upvalue(upvalues: &mut Vec<UpvalueDescriptor>, upvalue: UpvalueDescriptor) -> (index: u16)
    ensures
        final(upvalues)@ == upvalue_added(old(upvalues)@, upvalue),
        index == first_upvalue(old(upvalues)@, upvalue, 0) as u16,
{
    let mut i: usize = 0;
    while i < upvalues.len()
        invariant
            i <= upvalues@.len(),
            upvalues@ == old(upvalues)@,
            first_upvalue(upvalues@, upvalue, 0) == first_upvalue(upvalues@, upvalue, i as nat),
        decreases upvalues@.len() - i,
    {
        if upvalues[i] == upvalue {
            return i as u16;
        }
        i = i + 1;
    }
    let index: u16 = upvalues.len() as u16;
    upvalues.push(upvalue);
    index
}

/// Resolve a name against the first `level` frames of a chain, for the function inside
/// them, whose upvalues are given.
fn capture(
    chain: &mut Vec<EnclosingFrame>,
    upvalues: &mut Vec<UpvalueDescriptor>,
    name: StringId,
    level: usize,
) -> (found: Option<u16>)
    ensures
        (compiler::frames_view(final(chain)@), final(upvalues)@, found) == captured(
            compiler::frames_view(old(chain)@),
            old(upvalues)@,
            name,
            level as nat,
        ),
        final(chain)@.len() == old(chain)@.len(),
    decreases level,
{
    assert(compiler::frames_view(chain@).len() == chain@.len());
    if level == 0 || level > chain.len() {
        return None;
    }
    assert(compiler::frames_view(chain@)[level - 1] == compiler::frame_view(chain@[level - 1]));
    let found = chain[level - 1].find(name);
    match found {
        Some(i) => {
            let mut frame = chain.remove(level - 1);
            let mut local: Local = frame.locals[i];
            local.captured = true;
            frame.locals.set(i, local);
            chain.insert(level - 1, frame);
            assert(compiler::frames_view(chain@) =~= compiler::frames_view(old(chain)@).update(
                level - 1,
                compiler::frame_view(frame),
            ));
            let index: u16 = add_upvalue(
                upvalues,
                UpvalueDescriptor { index: i as u16, is_local: true },
            );
            Some(index)
        },
        None => {
            let mut frame = chain.remove(level - 1);
            let mut own: Vec<UpvalueDescriptor> = Vec::new();
            std::mem::swap(&mut frame.upvalues, &mut own);
            let ghost hollow = compiler::frame_view(frame);
            chain.insert(level - 1, frame);
            let ghost before = chain@;
            assert(
                compiler::frames_view(before) =~= compiler::frames_view(old(chain)@).update(
                    level - 1,
                    hollow,
                )
            );
            proof {
                lemma_captured_ignores(
                    compiler::frames_view(old(chain)@),
                    compiler::frames_view(chain@),
                    old(chain)@[level - 1].upvalues@,
                    name,
                    (level - 1) as nat,
                );
            }
            let inner = capture(chain, &mut own, name, level - 1);
            let ghost after = chain@;
            assert(
                compiler::frames_view(after)[level - 1] == compiler::frame_view(after[level - 1])
            );
            let mut frame = chain.remove(level - 1);
            frame.upvalues = own;
            chain.insert(level - 1, frame);
            assert(
                compiler::frames_view(chain@) =~= compiler::frames_view(after).update(
                    level - 1,
                    compiler::frame_view(frame),
                )
            );
            proof {
                lemma_captured_frame(
                    compiler::frames_view(before),
                    old(chain)@[level - 1].upvalues@,
                    name,
                    (level - 1) as nat,
                );
            }
            match inner {
                Some(index) => {
                    proof {
                        let start = compiler::frames_view(old(chain)@);
                        let f = start[level - 1];
                        let outer = captured(start, f.upvalues, name, (level - 1) as nat);
                        assert(outer.2 == Some(index));
                        assert(outer.0[level - 1] == f);
                        let hollow_outer = captured(
                            compiler::frames_view(before),
                            f.upvalues,
                            name,
                            (level - 1) as nat,
                        );
                        assert(compiler::frames_view(after) == hollow_outer.0);
                        assert(compiler::frames_view(before)[level - 1] == hollow);
                        assert(
                            hollow_outer.0[level - 1] == compiler::frames_view(before)[level - 1]
                        );
                        assert(hollow.locals == f.locals);
                        assert(frame.locals@ == f.locals);
                        assert(frame.upvalues@ == hollow_outer.1);
                        assert(
                            compiler::frame_view(frame) == (FrameView { upvalues: outer.1, ..f })
                        );
                        let expected = outer.0.update(
                            level - 1,
                            FrameView { upvalues: outer.1, ..outer.0[level - 1] },
                        );
                        assert forall|k: int| 0 <= k < start.len() implies #[trigger] compiler::frames_view(
                            chain@,
                        )[k] == expected[k] by {
                            if k < level - 1 {
                                assert(outer.0[k] == hollow_outer.0[k]);
                            } else if k > level - 1 {
                                assert(outer.0[k] == start[k]);
                                assert(hollow_outer.0[k] == compiler::frames_view(before)[k]);
                            }
                        }
                        assert(compiler::frames_view(chain@) =~= expected);
                    }
                    let at: u16 = add_upvalue(
                        upvalues,
                        UpvalueDescriptor { index, is_local: false },
                    );
                    Some(at)
                },
                None => {
                    assert(compiler::frames_view(chain@) =~= compiler::frames_view(old(chain)@));
                    None
                },
            }
        },
    }
}

proof fn lemma_captured_len(
    chain: Seq<FrameView>,
    upvalues: Seq<UpvalueDescriptor>,
    name: StringId,
    level: nat,
)
    ensures
        captured(chain, upvalues, name, level).0.len() == chain.len(),
    decreases level,
{
    if level > 0 && level <= chain.len() {
        lemma_captured_len(chain, chain[level - 1].upvalues, name, (level - 1) as nat);
    }
}

proof fn lemma_captured_ignores(
    a: Seq<FrameView>,
    b: Seq<FrameView>,
    upvalues: Seq<UpvalueDescriptor>,
    name: StringId,
    level: nat,
)
    requires
        a.len() == b.len(),
        level <= a.len(),
        forall|i: int| 0 <= i < level ==> a[i] == b[i],
    ensures
        captured(a, upvalues, name, level).1 == captured(b, upvalues, name, level).1,
        captured(a, upvalues, name, level).2 == captured(b, upvalues, name, level).2,
        captured(a, upvalues, name, level).0.len() == a.len(),
        captured(b, upvalues, name, level).0.len() == a.len(),
        forall|i: int|
            0 <= i < level ==> #[trigger] captured(a, upvalues, name, level).0[i] == captured(
                b,
                upvalues,
                name,
                level,
            ).0[i],
        forall|i: int|
            level <= i < a.len() ==> #[trigger] captured(a, upvalues, name, level).0[i] == a[i],
        forall|i: int|
            level <= i < a.len() ==> #[trigger] captured(b, upvalues, name, level).0[i] == b[i],
    decreases level,
{
    if level > 0 {
        let frame = a[level - 1];
        lemma_captured_ignores(a, b, frame.upvalues, name, (level - 1) as nat);
    }
}

proof fn lemma_captured_frame(
    chain: Seq<FrameView>,
    upvalues: Seq<UpvalueDescriptor>,
    name: StringId,
    level: nat,
)
    requires
        level <= chain.len(),
    ensures
        captured(chain, upvalues, name, level).2 is None ==> captured(chain, upvalues, name, level)
            == (chain, upvalues, None::<u16>),
    decreases level,
{
    if level > 0 {
        lemma_captured_frame(chain, chain[level - 1].upvalues, name, (level - 1) as nat);
    }
}

impl<'p> Compiler<'p> {
    /// Emit an opcode.
    pub(crate) fn op(&mut self, op: OpCode, line: u32)
        requires
            old(self).st().good(),
        ensures
            final(self).st() == old(self).st().op(op, line),
            final(self).st().depths() == old(self).st().depths(),
            final(self).st().good(),
            final(self).st().base == old(self).st().base,
    {
        proof {
            reveal(CState::op);
            reveal(Compiler::st);
            reveal(CState::good);
            reveal(CState::depths);
        }
        self.chunk.emit_op(op, line);
    }

    /// Emit an opcode with an 8-bit operand.
    pub(crate) fn op_u8(&mut self, op: OpCode, operand: u8, line: u32)
        requires
            old(self).st().good(),
        ensures
            final(self).st() == old(self).st().op_u8(op, operand, line),
            final(self).st().depths() == old(self).st().depths(),
            final(self).st().good(),
            final(self).st().base == old(self).st().base,
    {
        proof {
            reveal(CState::op_u8);
            reveal(Compiler::st);
            reveal(CState::good);
            reveal(CState::depths);
        }
        self.chunk.emit_op_u8(op, operand, line);
    }

    /// Emit an opcode with a 16-bit operand.
    pub(crate) fn op_u16(&mut self, op: OpCode, operand: u16, line: u32)
        requires
            old(self).st().good(),
        ensures
            final(self).st() == old(self).st().op_u16(op, operand, line),
            final(self).st().depths() == old(self).st().depths(),
            final(self).st().good(),
            final(self).st().base == old(self).st().base,
    {
        proof {
            reveal(CState::op_u16);
            reveal(Compiler::st);
            reveal(CState::good);
            reveal(CState::depths);
        }
        self.chunk.emit_op_u16(op, operand, line);
    }

    /// Emit an opcode with a 32-bit operand.
    pub(crate) fn op_u32(&mut self, op: OpCode, operand: u32, line: u32)
        requires
            old(self).st().good(),
        ensures
            final(self).st() == old(self).st().op_u32(op, operand, line),
            final(self).st().depths() == old(self).st().depths(),
            final(self).st().good(),
            final(self).st().base == old(self).st().base,
    {
        proof {
            reveal(CState::op_u32);
            reveal(Compiler::st);
            reveal(CState::good);
            reveal(CState::depths);
        }
        self.chunk.emit_op_u32(op, operand, line);
    }

    /// Emit a byte.
    pub(crate) fn byte(&mut self, byte: u8, line: u32)
        requires
            old(self).st().good(),
        ensures
            final(self).st() == old(self).st().byte(byte, line),
            final(self).st().depths() == old(self).st().depths(),
            final(self).st().good(),
            final(self).st().base == old(self).st().base,
    {
        proof {
            reveal(CState::byte);
            reveal(Compiler::st);
            reveal(CState::good);
            reveal(CState::depths);
        }
        self.chunk.emit_byte(byte, line);
    }

    /// Append a byte without line information.
    pub(crate) fn raw(&mut self, byte: u8)
        requires
            old(self).st().good(),
        ensures
            final(self).st() == old(self).st().raw(byte),
            final(self).st().depths() == old(self).st().depths(),
            final(self).st().good(),
            final(self).st().base == old(self).st().base,
    {
        proof {
            reveal(CState::raw);
            reveal(Compiler::st);
            reveal(CState::good);
            reveal(CState::depths);
        }
        self.chunk.push_byte(byte);
    }

    /// Append a 16-bit operand without line information.
    pub(crate) fn raw16(&mut self, operand: u16)
        requires
            old(self).st().good(),
        ensures
            final(self).st() == old(self).st().raw16(operand),
            final(self).st().depths() == old(self).st().depths(),
            final(self).st().good(),
            final(self).st().base == old(self).st().base,
    {
        proof {
            reveal(CState::raw16);
            reveal(Compiler::st);
            reveal(CState::good);
            reveal(CState::depths);
        }
        self.chunk.push_u16(operand);
    }

    /// Emit a jump with a placeholder offset; the position of the offset.
    pub(crate) fn jump(&mut self, op: OpCode, line: u32) -> (ret: usize)
        requires
            old(self).st().good(),
        ensures
            (final(self).st(), ret) == old(self).st().jump(op, line),
            final(self).st().depths() == old(self).st().depths(),
            final(self).st().good(),
            final(self).st().base == old(self).st().base,
    {
        proof {
            reveal(CState::jump);
            reveal(Compiler::st);
            reveal(CState::good);
            reveal(CState::depths);
        }
        self.chunk.emit_jump(op, line)
    }

    /// Emit a placeholder offset behind another operand; its position.
    pub(crate) fn placeholder(&mut self, line: u32) -> (ret: usize)
        requires
            old(self).st().good(),
        ensures
            (final(self).st(), ret) == old(self).st().placeholder(line),
            final(self).st().depths() == old(self).st().depths(),
            final(self).st().good(),
            final(self).st().base == old(self).st().base,
    {
        proof {
            reveal(CState::placeholder);
            reveal(Compiler::st);
            reveal(CState::good);
            reveal(CState::depths);
        }
        self.chunk.emit_offset_placeholder(line)
    }

    /// Make the jump whose offset stands at `pos` land here.
    pub(crate) fn patch(&mut self, pos: usize)
        requires
            old(self).st().good(),
        ensures
            final(self).st() == old(self).st().patch(pos),
            final(self).st().depths() == old(self).st().depths(),
            final(self).st().good(),
            final(self).st().base == old(self).st().base,
    {
        proof {
            reveal(CState::patch);
            reveal(Compiler::st);
            reveal(CState::good);
            reveal(CState::depths);
        }
        let len: usize = self.chunk.code.len();
        if pos <= len && len - pos >= 2 {
            self.chunk.patch_jump(pos);
        }
    }

    /// Make the three-byte jump at `at` land here.
    pub(crate) fn patch_short(&mut self, at: usize)
        requires
            old(self).st().good(),
        ensures
            final(self).st() == old(self).st().patch_short(at),
            final(self).st().depths() == old(self).st().depths(),
            final(self).st().good(),
            final(self).st().base == old(self).st().base,
    {
        proof {
            reveal(CState::patch_short);
            reveal(Compiler::st);
            reveal(CState::good);
            reveal(CState::depths);
        }
        let len: usize = self.chunk.code.len();
        if at <= len && len - at >= 3 {
            self.chunk.patch_jump(at + 1);
        }
    }

    /// Make the jump whose offset stands at `pos` land at `target`.
    pub(crate) fn aim(&mut self, pos: usize, target: usize)
        requires
            old(self).st().good(),
        ensures
            final(self).st() == old(self).st().aim(pos, target),
            final(self).st().depths() == old(self).st().depths(),
            final(self).st().good(),
            final(self).st().base == old(self).st().base,
    {
        proof {
            reveal(CState::aim);
            reveal(Compiler::st);
            reveal(CState::good);
            reveal(CState::depths);
        }
        let len: usize = self.chunk.code.len();
        if pos <= len && len - pos >= 2 {
            self.chunk.aim_jump(pos, target);
        }
    }

    /// Overwrite the 16-bit number at `at` with the current position.
    pub(crate) fn put_here(&mut self, at: usize)
        requires
            old(self).st().good(),
        ensures
            final(self).st() == old(self).st().put_here(at),
            final(self).st().depths() == old(self).st().depths(),
            final(self).st().good(),
            final(self).st().base == old(self).st().base,
    {
        proof {
            reveal(CState::put_here);
            reveal(Compiler::st);
            reveal(CState::good);
            reveal(CState::depths);
        }
        let len: usize = self.chunk.code.len();
        if at <= len && len - at >= 2 {
            self.chunk.put_u16(at, len as u16);
        }
    }

    /// Overwrite the instruction at `at` with a no-op.
    pub(crate) fn nop_at(&mut self, at: usize)
        requires
            old(self).st().good(),
        ensures
            final(self).st() == old(self).st().nop_at(at),
            final(self).st().depths() == old(self).st().depths(),
            final(self).st().good(),
            final(self).st().base == old(self).st().base,
    {
        proof {
            reveal(CState::nop_at);
            reveal(Compiler::st);
            reveal(CState::good);
            reveal(CState::depths);
        }
        if at < self.chunk.code.len() {
            self.chunk.code.set(at, OpCode::Nop.to_byte());
        }
    }

    /// Mark the chunk if the current position does not fit a 16-bit absolute target.
    pub(crate) fn mark_wide_target(&mut self)
        requires
            old(self).st().good(),
        ensures
            final(self).st() == old(self).st().mark_wide_target(),
            final(self).st().depths() == old(self).st().depths(),
            final(self).st().good(),
            final(self).st().base == old(self).st().base,
    {
        proof {
            reveal(CState::mark_wide_target);
            reveal(Compiler::st);
            reveal(CState::good);
            reveal(CState::depths);
        }
        if self.chunk.code.len() > u16::MAX as usize {
            self.chunk.jump_overflow = true;
        }
    }

    /// Emit a backward jump to `start`.
    pub(crate) fn back(&mut self, start: usize, line: u32)
        requires
            old(self).st().good(),
        ensures
            final(self).st() == old(self).st().back(start, line),
            final(self).st().depths() == old(self).st().depths(),
            final(self).st().good(),
            final(self).st().base == old(self).st().base,
    {
        proof {
            reveal(CState::back);
            reveal(Compiler::st);
            reveal(CState::good);
            reveal(CState::depths);
        }
        if start <= self.chunk.code.len() {
            self.chunk.emit_loop(start, line);
        }
    }

    /// The current position.
    pub(crate) fn here(&self) -> (ret: usize)
        ensures
            ret == self.st().here(),
    {
        proof {
            reveal(CState::here);
            reveal(Compiler::st);
        }
        self.chunk.code.len()
    }

    /// Add a constant; its index.
    pub(crate) fn constant(&mut self, value: Value) -> (ret: u16)
        requires
            old(self).st().good(),
        ensures
            (final(self).st(), ret) == old(self).st().constant(value),
            final(self).st().depths() == old(self).st().depths(),
            final(self).st().good(),
            final(self).st().base == old(self).st().base,
    {
        proof {
            reveal(CState::constant);
            reveal(Compiler::st);
            reveal(CState::good);
            reveal(CState::depths);
        }
        self.chunk.add_constant(value)
    }

    /// Add a string constant; its index.
    pub(crate) fn make_string_constant(&mut self, name: StringId) -> (ret: u16)
        requires
            old(self).st().good(),
        ensures
            (final(self).st(), ret) == old(self).st().make_string_constant(name),
            final(self).st().depths() == old(self).st().depths(),
            final(self).st().good(),
            final(self).st().base == old(self).st().base,
    {
        proof {
            reveal(CState::make_string_constant);
            reveal(Compiler::st);
            reveal(CState::good);
            reveal(CState::depths);
        }
        self.chunk.add_constant(Value::string(name))
    }

    /// Add a constant and push it.
    pub(crate) fn emit_constant(&mut self, value: Value, line: u32)
        requires
            old(self).st().good(),
        ensures
            final(self).st() == old(self).st().emit_constant(value, line),
            final(self).st().depths() == old(self).st().depths(),
            final(self).st().good(),
            final(self).st().base == old(self).st().base,
    {
        proof {
            reveal(CState::emit_constant);
            reveal(Compiler::st);
            reveal(CState::good);
            reveal(CState::depths);
        }
        let idx: u16 = self.chunk.add_constant(value);
        self.chunk.emit_op_u16(OpCode::Const, idx, line);
    }

    /// Emit GetProperty with an embedded inline-cache slot (5 bytes total).
    pub(crate) fn emit_get_property(&mut self, name_idx: u16, line: u32)
        requires
            old(self).st().good(),
        ensures
            final(self).st() == old(self).st().emit_get_property(name_idx, line),
            final(self).st().depths() == old(self).st().depths(),
            final(self).st().good(),
            final(self).st().base == old(self).st().base,
    {
        proof {
            reveal(CState::emit_get_property);
            reveal(Compiler::st);
            reveal(CState::good);
            reveal(CState::depths);
        }
        let ic_slot: u16 = self.chunk.alloc_ic_slot();
        self.chunk.emit_byte(OpCode::GetProperty.to_byte(), line);
        self.chunk.push_u16(name_idx);
        self.chunk.push_u16(ic_slot);
    }

    /// Emit SetProperty with an embedded inline-cache slot (5 bytes total).
    pub(crate) fn emit_set_property(&mut self, name_idx: u16, line: u32)
        requires
            old(self).st().good(),
        ensures
            final(self).st() == old(self).st().emit_set_property(name_idx, line),
            final(self).st().depths() == old(self).st().depths(),
            final(self).st().good(),
            final(self).st().base == old(self).st().base,
    {
        proof {
            reveal(CState::emit_set_property);
            reveal(Compiler::st);
            reveal(CState::good);
            reveal(CState::depths);
        }
        let ic_slot: u16 = self.chunk.alloc_ic_slot();
        self.chunk.emit_byte(OpCode::SetProperty.to_byte(), line);
        self.chunk.push_u16(name_idx);
        self.chunk.push_u16(ic_slot);
    }

    /// Intern a text.
    pub(crate) fn intern(&mut self, text: &str) -> (ret: StringId)
        requires
            old(self).st().good(),
        ensures
            (final(self).st(), ret) == old(self).st().intern(text@),
            final(self).st().depths() == old(self).st().depths(),
            final(self).st().good(),
            final(self).st().base == old(self).st().base,
    {
        proof {
            reveal(CState::intern);
            reveal(Compiler::st);
            reveal(CState::good);
            reveal(CState::depths);
        }
        self.interner.intern(text)
    }

    /// Intern the text of `id` put between two others.
    pub(crate) fn intern_around(
        &mut self,
        prefix: &str,
        id: StringId,
        suffix: &str,
    ) -> (ret: StringId)
        requires
            old(self).st().good(),
        ensures
            (final(self).st(), ret) == old(self).st().intern_around(prefix@, id, suffix@),
            final(self).st().depths() == old(self).st().depths(),
            final(self).st().good(),
            final(self).st().base == old(self).st().base,
    {
        proof {
            reveal(CState::intern_around);
            reveal(Compiler::st);
            reveal(CState::good);
            reveal(CState::depths);
        }
        let mut text: String = prefix.to_owned();
        text.append(self.interner.text(id));
        text.append(suffix);
        self.interner.intern(text.as_str())
    }

    /// Intern the placeholder name of the parameter with a number.
    pub(crate) fn intern_param(&mut self, index: usize) -> (ret: StringId)
        requires
            old(self).st().good(),
        ensures
            (final(self).st(), ret) == old(self).st().intern_param(index),
            final(self).st().depths() == old(self).st().depths(),
            final(self).st().good(),
            final(self).st().base == old(self).st().base,
    {
        proof {
            reveal(CState::intern_param);
            reveal(Compiler::st);
            reveal(CState::good);
            reveal(CState::depths);
        }
        let mut text: String = "__param".to_owned();
        push_decimal(&mut text, index as u64);
        text.append("__");
        self.interner.intern(text.as_str())
    }

    /// Intern the canonical text of a number.
    pub(crate) fn intern_number(&mut self, bits: u64) -> (ret: StringId)
        requires
            old(self).st().good(),
        ensures
            (final(self).st(), ret) == old(self).st().intern_number(bits),
            final(self).st().depths() == old(self).st().depths(),
            final(self).st().good(),
            final(self).st().base == old(self).st().base,
    {
        proof {
            reveal(CState::intern_number);
            reveal(Compiler::st);
            reveal(CState::good);
            reveal(CState::depths);
        }
        let text: String = js_canonical_number_string(bits);
        self.interner.intern(text.as_str())
    }

    /// Whether a name is the given text.
    pub(crate) fn name_is(&self, id: StringId, text: &str) -> (ret: bool)
        ensures
            ret == self.st().name_is(id, text@),
    {
        proof {
            reveal(CState::name_is);
            reveal(Compiler::st);
        }
        same_text(self.interner.text(id), text)
    }

    /// Whether a name starts with a hash sign.
    pub(crate) fn name_is_private(&self, id: StringId) -> (ret: bool)
        ensures
            ret == self.st().name_is_private(id),
    {
        proof {
            reveal(CState::name_is_private);
            reveal(Compiler::st);
        }
        let text = self.interner.text(id);
        text.unicode_len() > 0 && text.get_char(0) == '#'
    }

    /// Whether a name is the empty text.
    pub(crate) fn name_is_empty(&self, id: StringId) -> (ret: bool)
        ensures
            ret == self.st().name_is_empty(id),
    {
        proof {
            reveal(CState::name_is_empty);
            reveal(Compiler::st);
        }
        self.interner.text(id).unicode_len() == 0
    }

    /// The line of the code emitted last.
    pub(crate) fn current_line(&self) -> (ret: u32)
        ensures
            ret == self.st().current_line(),
    {
        proof {
            reveal(CState::current_line);
            reveal(Compiler::st);
        }
        let n: usize = self.chunk.lines.len();
        if n > 0 {
            self.chunk.lines[n - 1].1
        } else {
            1
        }
    }

    /// Whether the chunk has a flag.
    pub(crate) fn has_flag(&self, mask: u16) -> (ret: bool)
        ensures
            ret == self.st().has_flag(mask),
    {
        proof {
            reveal(CState::has_flag);
            reveal(Compiler::st);
        }
        self.chunk.flags.contains(mask)
    }

    /// Give the chunk a flag.
    pub(crate) fn add_flag(&mut self, mask: u16)
        requires
            old(self).st().good(),
        ensures
            final(self).st() == old(self).st().add_flag(mask),
            final(self).st().depths() == old(self).st().depths(),
            final(self).st().good(),
            final(self).st().base == old(self).st().base,
    {
        proof {
            reveal(CState::add_flag);
            reveal(Compiler::st);
            reveal(CState::good);
            reveal(CState::depths);
        }
        self.chunk.flags.insert(mask);
    }

    /// Note that the body references the `arguments` object.
    pub(crate) fn note_arguments(&mut self)
        requires
            old(self).st().good(),
        ensures
            final(self).st() == old(self).st().note_arguments(),
            final(self).st().depths() == old(self).st().depths(),
            final(self).st().good(),
            final(self).st().base == old(self).st().base,
    {
        proof {
            reveal(CState::note_arguments);
            reveal(Compiler::st);
            reveal(CState::good);
            reveal(CState::depths);
        }
        self.chunk.uses_arguments = true;
    }

    /// Whether a jump in the chunk did not fit its encoding.
    pub(crate) fn overflowed(&self) -> (ret: bool)
        ensures
            ret == self.st().overflowed(),
    {
        proof {
            reveal(CState::overflowed);
            reveal(Compiler::st);
        }
        self.chunk.jump_overflow
    }

    /// Open a scope.
    pub(crate) fn begin_scope(&mut self)
        requires
            old(self).st().good(),
        ensures
            final(self).st() == old(self).st().begin_scope(),
            final(self).st().depths() == (
                Depths {
                    scopes: old(self).st().depths().scopes.wrapping_add(1),
                    ..old(self).st().depths()
                }
            ),
            final(self).st().good(),
            final(self).st().base == old(self).st().base,
    {
        proof {
            reveal(CState::begin_scope);
            reveal(Compiler::st);
            reveal(CState::good);
            reveal(CState::depths);
        }
        self.scope_depth = self.scope_depth.wrapping_add(1);
    }

    /// Close a scope: drop its locals, closing over those that were captured.
    pub(crate) fn end_scope(&mut self)
        requires
            old(self).st().good(),
        ensures
            final(self).st() == old(self).st().end_scope(),
            final(self).st().depths() == (
                Depths {
                    scopes: old(self).st().depths().scopes.wrapping_sub(1),
                    ..old(self).st().depths()
                }
            ),
            final(self).st().good(),
            final(self).st().base == old(self).st().base,
    {
        proof {
            reveal(CState::end_scope);
            reveal(Compiler::st);
            reveal(CState::good);
            reveal(CState::depths);
            lemma_scope_children(
                self.st().chunk,
                self.st().locals,
                self.st().scope_depth.wrapping_sub(1),
                self.st().current_line(),
            );
        }
        let line: u32 = self.current_line();
        self.scope_depth = self.scope_depth.wrapping_sub(1);
        while self.locals.len() > 0
            invariant
                self.scope_depth == old(self).scope_depth.wrapping_sub(1),
                line == old(self).st().current_line(),
                scope_closed(self.chunk@, self.locals@, self.scope_depth, line) == scope_closed(
                    old(self).chunk@,
                    old(self).locals@,
                    self.scope_depth,
                    line,
                ),
                self.st() == (CState {
                    scope_depth: self.scope_depth,
                    chunk: self.chunk@,
                    locals: self.locals@,
                    ..old(self).st()
                }),
            ensures
                (self.chunk@, self.locals@) == scope_closed(
                    old(self).chunk@,
                    old(self).locals@,
                    self.scope_depth,
                    line,
                ),
            decreases self.locals.len(),
        {
            proof {
                reveal(Compiler::st);
            }
            let n: usize = self.locals.len();
            let top: Local = self.locals[n - 1];
            if top.depth <= self.scope_depth {
                break;
            }
            if top.captured {
                self.chunk.emit_op(OpCode::CloseUpvalue, line);
            } else {
                self.chunk.emit_op(OpCode::Pop, line);
            }
            self.locals.pop();
        }
    }

    /// Add a local of the current scope.
    pub(crate) fn add_local(&mut self, name: StringId)
        requires
            old(self).st().good(),
        ensures
            final(self).st() == old(self).st().add_local(name),
            final(self).st().depths() == old(self).st().depths(),
            final(self).st().good(),
            final(self).st().base == old(self).st().base,
    {
        proof {
            reveal(CState::add_local);
            reveal(Compiler::st);
            reveal(CState::good);
            reveal(CState::depths);
        }
        self.locals.push(
            Local {
                name,
                depth: self.scope_depth,
                initialized: false,
                captured: false,
                is_const: false,
                is_fn_self_name: false,
            },
        );
    }

    /// Mark the local added last as initialized.
    pub(crate) fn mark_initialized(&mut self)
        requires
            old(self).st().good(),
        ensures
            final(self).st() == old(self).st().mark_initialized(),
            final(self).st().depths() == old(self).st().depths(),
            final(self).st().good(),
            final(self).st().base == old(self).st().base,
    {
        proof {
            reveal(CState::mark_initialized);
            reveal(Compiler::st);
            reveal(CState::good);
            reveal(CState::depths);
        }
        let n: usize = self.locals.len();
        if n > 0 {
            let mut local: Local = self.locals[n - 1];
            local.initialized = true;
            self.locals.set(n - 1, local);
        }
    }

    /// Forget the local added last without emitting code.
    pub(crate) fn pop_local(&mut self)
        requires
            old(self).st().good(),
        ensures
            final(self).st() == old(self).st().pop_local(),
            final(self).st().depths() == old(self).st().depths(),
            final(self).st().good(),
            final(self).st().base == old(self).st().base,
    {
        proof {
            reveal(CState::pop_local);
            reveal(Compiler::st);
            reveal(CState::good);
            reveal(CState::depths);
        }
        let _ = self.locals.pop();
        assert(old(self).locals@.len() > 0 ==> self.locals@ =~= old(self).locals@.drop_last());
    }

    /// Make a local constant.
    pub(crate) fn set_const(&mut self, slot: usize)
        requires
            old(self).st().good(),
        ensures
            final(self).st() == old(self).st().set_const(slot),
            final(self).st().depths() == old(self).st().depths(),
            final(self).st().good(),
            final(self).st().base == old(self).st().base,
    {
        proof {
            reveal(CState::set_const);
            reveal(Compiler::st);
            reveal(CState::good);
            reveal(CState::depths);
        }
        if slot < self.locals.len() {
            let mut local: Local = self.locals[slot];
            local.is_const = true;
            self.locals.set(slot, local);
        }
    }

    /// The scope depth.
    pub(crate) fn depth(&self) -> (ret: u32)
        ensures
            ret == self.st().depth(),
    {
        proof {
            reveal(CState::depth);
            reveal(Compiler::st);
        }
        self.scope_depth
    }

    /// The number of locals.
    pub(crate) fn local_len(&self) -> (ret: usize)
        ensures
            ret == self.st().local_len(),
    {
        proof {
            reveal(CState::local_len);
            reveal(Compiler::st);
        }
        self.locals.len()
    }

    /// The slot of the local added last.
    pub(crate) fn last_index(&self) -> (ret: usize)
        ensures
            ret == self.st().last_index(),
    {
        proof {
            reveal(CState::last_index);
            reveal(Compiler::st);
        }
        self.locals.len().wrapping_sub(1)
    }

    /// The innermost local with a name.
    #[verifier::loop_isolation(false)]
    pub(crate) fn resolve_local(&self, name: StringId) -> (ret: Option<usize>)
        ensures
            ret == self.st().resolve_local(name),
    {
        proof {
            reveal(CState::resolve_local);
            reveal(Compiler::st);
        }
        let mut n: usize = self.locals.len();
        while n > 0
            invariant
                n <= self.locals@.len(),
                find_local(self.locals@, name, n as nat) == find_local(
                    self.locals@,
                    name,
                    self.locals@.len(),
                ),
            decreases n,
        {
            if self.locals[n - 1].name == name {
                return Some(n - 1);
            }
            n = n - 1;
        }
        None
    }

    /// Whether a local is constant.
    pub(crate) fn local_is_const(&self, slot: usize) -> (ret: bool)
        ensures
            ret == self.st().local_is_const(slot),
    {
        proof {
            reveal(CState::local_is_const);
            reveal(Compiler::st);
        }
        slot < self.locals.len() && self.locals[slot].is_const
    }

    /// Whether a local is the self-binding of a named function expression.
    pub(crate) fn local_is_self_name(&self, slot: usize) -> (ret: bool)
        ensures
            ret == self.st().local_is_self_name(slot),
    {
        proof {
            reveal(CState::local_is_self_name);
            reveal(Compiler::st);
        }
        slot < self.locals.len() && self.locals[slot].is_fn_self_name
    }

    /// How many locals sit above the given scope depth.
    #[verifier::loop_isolation(false)]
    pub(crate) fn locals_above_depth(&self, depth: u32) -> (ret: usize)
        ensures
            ret == self.st().locals_above_depth(depth),
    {
        proof {
            reveal(CState::locals_above_depth);
            reveal(Compiler::st);
        }
        let mut n: usize = self.locals.len();
        let mut count: usize = 0;
        while n > 0 && self.locals[n - 1].depth > depth
            invariant
                n + count == self.locals.len(),
                above_depth(self.locals@, depth, n as nat) + count == above_depth(
                    self.locals@,
                    depth,
                    self.locals@.len(),
                ),
            decreases n,
        {
            n = n - 1;
            count = count + 1;
        }
        count
    }

    /// Take back the slot that was reserved for a top-level lexical at function entry, if one
    /// was. Only at the depth of the function body itself.
    pub(crate) fn take_predeclared_lex(&mut self, name: StringId) -> (ret: Option<usize>)
        requires
            old(self).st().good(),
        ensures
            (final(self).st(), ret) == old(self).st().take_predeclared_lex(name),
            final(self).st().depths() == old(self).st().depths(),
            final(self).st().good(),
            final(self).st().base == old(self).st().base,
    {
        proof {
            reveal(CState::take_predeclared_lex);
            reveal(Compiler::st);
            reveal(CState::good);
            reveal(CState::depths);
        }
        if self.scope_depth != 1 {
            return None;
        }
        let mut i: usize = 0;
        while i < self.predeclared_lex.len()
            invariant
                i <= self.predeclared_lex@.len(),
                self.st() == old(self).st(),
                old(self).scope_depth == 1,
                old(self).st().good(),
                *self == *old(self),
                first_name(self.predeclared_lex@, name, 0) == first_name(
                    self.predeclared_lex@,
                    name,
                    i as nat,
                ),
            decreases self.predeclared_lex@.len() - i,
        {
            if self.predeclared_lex[i] == name {
                proof {
                    reveal(CState::take_predeclared_lex);
                    reveal(CState::resolve_local);
                    reveal(CState::good);
                    reveal(CState::depths);
                    reveal(Compiler::st);
                }
                let _ = self.predeclared_lex.swap_remove(i);
                return self.resolve_local(name);
            }
            i = i + 1;
        }
        None
    }

    /// Reserve a name for a later lexical declaration.
    pub(crate) fn predeclare(&mut self, name: StringId)
        requires
            old(self).st().good(),
        ensures
            final(self).st() == old(self).st().predeclare(name),
            final(self).st().depths() == old(self).st().depths(),
            final(self).st().good(),
            final(self).st().base == old(self).st().base,
    {
        proof {
            reveal(CState::predeclare);
            reveal(Compiler::st);
            reveal(CState::good);
            reveal(CState::depths);
        }
        self.predeclared_lex.push(name);
    }

    /// Resolve a name as an upvalue captured from an enclosing function. The capture is
    /// threaded through every function in between.
    pub(crate) fn resolve_upvalue(&mut self, name: StringId) -> (ret: Option<u16>)
        requires
            old(self).st().good(),
        ensures
            (final(self).st(), ret) == old(self).st().resolve_upvalue(name),
            final(self).st().depths() == old(self).st().depths(),
            final(self).st().good(),
            final(self).st().base == old(self).st().base,
    {
        proof {
            reveal(CState::resolve_upvalue);
            reveal(Compiler::st);
            reveal(CState::good);
            reveal(CState::depths);
            lemma_captured_len(self.st().chain, self.st().upvalues, name, self.st().chain.len());
        }
        let n: usize = self.enclosing_chain.len();
        self.resolve_upvalue_at(name, n)
    }

    /// Whether the innermost enclosing local with a name is the self-binding of a named
    /// function expression.
    #[verifier::loop_isolation(false)]
    pub(crate) fn captured_self_name(&self, name: StringId) -> (ret: bool)
        ensures
            ret == self.st().captured_self_name(name),
    {
        proof {
            reveal(CState::captured_self_name);
            reveal(Compiler::st);
        }
        let mut n: usize = self.enclosing_chain.len();
        assert(compiler::frames_view(self.enclosing_chain@).len() == self.enclosing_chain@.len());
        while n > 0
            invariant
                n <= self.enclosing_chain@.len(),
                chain_self_name(
                    compiler::frames_view(self.enclosing_chain@),
                    name,
                    n as nat,
                ) == chain_self_name(
                    compiler::frames_view(self.enclosing_chain@),
                    name,
                    self.enclosing_chain@.len(),
                ),
            decreases n,
        {
            let frame = &self.enclosing_chain[n - 1];
            assert(
                compiler::frames_view(self.enclosing_chain@)[n - 1] == compiler::frame_view(*frame)
            );
            match frame.find(name) {
                Some(i) => {
                    proof {
                        assert(frame.locals@.len() == frame.locals.len());
                        lemma_find_local(frame.locals@, name, frame.locals@.len());
                    }
                    return frame.locals[i].is_fn_self_name;
                },
                None => {},
            }
            n = n - 1;
        }
        false
    }

    /// Whether a local needs a `with` guard: it was declared outside the innermost `with` body.
    pub(crate) fn local_needs_with_guard(&self, slot: usize) -> (ret: bool)
        ensures
            ret == self.st().local_needs_with_guard(slot),
    {
        proof {
            reveal(CState::local_needs_with_guard);
            reveal(Compiler::st);
        }
        let n: usize = self.with_local_floor.len();
        self.with_depth > 0 && (n == 0 || slot < self.with_local_floor[n - 1])
    }

    /// Note a constant global.
    pub(crate) fn add_const_global(&mut self, name: StringId)
        requires
            old(self).st().good(),
        ensures
            final(self).st() == old(self).st().add_const_global(name),
            final(self).st().depths() == old(self).st().depths(),
            final(self).st().good(),
            final(self).st().base == old(self).st().base,
    {
        proof {
            reveal(CState::add_const_global);
            reveal(Compiler::st);
            reveal(CState::good);
            reveal(CState::depths);
        }
        self.const_globals.push(name);
    }

    /// Whether a global is constant.
    pub(crate) fn is_const_global(&self, name: StringId) -> (ret: bool)
        ensures
            ret == self.st().is_const_global(name),
    {
        proof {
            reveal(CState::is_const_global);
            reveal(Compiler::st);
        }
        has_name(&self.const_globals, name)
    }

    /// Enter a loop, switch or labelled statement.
    pub(crate) fn push_loop(
        &mut self,
        continue_target: usize,
        scope_depth: u32,
        label: Option<StringId>,
        has_deferred_continue: bool,
        is_switch: bool,
        for_of_iter_slot: Option<u16>,
    )
        requires
            old(self).st().good(),
        ensures
            final(self).st() == old(self).st().push_loop(
                continue_target,
                scope_depth,
                label,
                has_deferred_continue,
                is_switch,
                for_of_iter_slot,
            ),
            final(self).st().depths() == (
                Depths { loops: old(self).st().depths().loops + 1, ..old(self).st().depths() }
            ),
            final(self).st().good(),
            final(self).st().base == old(self).st().base,
    {
        proof {
            reveal(CState::push_loop);
            reveal(Compiler::st);
            reveal(CState::good);
            reveal(CState::depths);
        }
        let ctx = LoopCtx {
            continue_target,
            break_patches: Vec::new(),
            continue_patches: Vec::new(),
            scope_depth,
            label,
            has_deferred_continue,
            try_depth: self.finally_stack.len(),
            with_depth: self.with_depth,
            is_switch,
            for_of_iter_slot,
        };
        self.loops.push(ctx);
        assert(
            compiler::loops_view(self.loops@) =~= compiler::loops_view(old(self).loops@).push(
                compiler::loop_view(ctx),
            )
        );
    }

    /// Leave the innermost loop: its breaks land here.
    pub(crate) fn patch_loop_breaks(&mut self)
        requires
            old(self).st().good(),
        ensures
            final(self).st() == old(self).st().patch_loop_breaks(),
            final(self).st().depths() == old(self).st().depths().loop_left(),
            final(self).st().good(),
            final(self).st().base == old(self).st().base,
    {
        proof {
            reveal(CState::patch_loop_breaks);
            reveal(Compiler::st);
            reveal(CState::good);
            reveal(CState::depths);
            lemma_patched_children(self.st().chunk, self.st().loops.last().break_patches, 0);
        }
        assert(compiler::loops_view(self.loops@).len() == self.loops@.len());
        match self.loops.pop() {
            Some(ctx) => {
                assert(
                    compiler::loops_view(self.loops@) =~= compiler::loops_view(
                        old(self).loops@,
                    ).drop_last()
                );
                assert(compiler::loops_view(old(self).loops@).last() == compiler::loop_view(ctx));
                self.patch_all(&ctx.break_patches);
            },
            None => {},
        }
    }

    /// The deferred continues of the innermost loop land here.
    pub(crate) fn patch_continues(&mut self)
        requires
            old(self).st().good(),
        ensures
            final(self).st() == old(self).st().patch_continues(),
            final(self).st().depths() == old(self).st().depths(),
            final(self).st().good(),
            final(self).st().base == old(self).st().base,
    {
        proof {
            reveal(CState::patch_continues);
            reveal(Compiler::st);
            reveal(CState::good);
            reveal(CState::depths);
            lemma_patched_children(self.st().chunk, self.st().loops.last().continue_patches, 0);
        }
        assert(compiler::loops_view(self.loops@).len() == self.loops@.len());
        match self.loops.pop() {
            Some(mut ctx) => {
                let ghost before = compiler::loop_view(ctx);
                assert(compiler::loops_view(old(self).loops@).last() == before);
                let ghost rest = compiler::loops_view(self.loops@);
                assert(rest =~= compiler::loops_view(old(self).loops@).drop_last());
                self.patch_all(&ctx.continue_patches);
                assert(compiler::loops_view(self.loops@) == rest);
                let ghost others = self.loops@;
                ctx.continue_patches = Vec::new();
                self.loops.push(ctx);
                assert(
                    compiler::loops_view(self.loops@) =~= compiler::loops_view(others).push(
                        compiler::loop_view(ctx),
                    )
                );
                assert(compiler::loops_view(self.loops@) =~= compiler::loops_view(old(self).loops@).update(
                    old(self).loops@.len() - 1,
                    LoopView { continue_patches: Seq::empty(), ..before },
                ));
            },
            None => {},
        }
    }

    /// Continues of the innermost loop go to the current position from here on.
    pub(crate) fn set_continue_here(&mut self)
        requires
            old(self).st().good(),
        ensures
            final(self).st() == old(self).st().set_continue_here(),
            final(self).st().depths() == old(self).st().depths(),
            final(self).st().good(),
            final(self).st().base == old(self).st().base,
    {
        proof {
            reveal(CState::set_continue_here);
            reveal(Compiler::st);
            reveal(CState::good);
            reveal(CState::depths);
        }
        assert(compiler::loops_view(self.loops@).len() == self.loops@.len());
        let here: usize = self.chunk.code.len();
        match self.loops.pop() {
            Some(mut ctx) => {
                let ghost before = compiler::loop_view(ctx);
                assert(compiler::loops_view(old(self).loops@).last() == before);
                ctx.continue_target = here;
                self.loops.push(ctx);
                assert(compiler::loops_view(self.loops@) =~= compiler::loops_view(old(self).loops@).update(
                    old(self).loops@.len() - 1,
                    LoopView { continue_target: here, ..before },
                ));
            },
            None => {},
        }
    }

    /// Take the label that the next loop adopts.
    pub(crate) fn take_label(&mut self) -> (ret: Option<StringId>)
        requires
            old(self).st().good(),
        ensures
            (final(self).st(), ret) == old(self).st().take_label(),
            final(self).st().depths() == old(self).st().depths(),
            final(self).st().good(),
            final(self).st().base == old(self).st().base,
    {
        proof {
            reveal(CState::take_label);
            reveal(Compiler::st);
            reveal(CState::good);
            reveal(CState::depths);
        }
        self.pending_label.take()
    }

    /// Set the label that the next loop adopts.
    pub(crate) fn set_label(&mut self, label: Option<StringId>)
        requires
            old(self).st().good(),
        ensures
            final(self).st() == old(self).st().set_label(label),
            final(self).st().depths() == old(self).st().depths(),
            final(self).st().good(),
            final(self).st().base == old(self).st().base,
    {
        proof {
            reveal(CState::set_label);
            reveal(Compiler::st);
            reveal(CState::good);
            reveal(CState::depths);
        }
        self.pending_label = label;
    }

    /// Whether no loop, switch or labelled statement is open.
    pub(crate) fn no_loops(&self) -> (ret: bool)
        ensures
            ret == self.st().no_loops(),
    {
        proof {
            reveal(CState::no_loops);
            reveal(Compiler::st);
        }
        assert(compiler::loops_view(self.loops@).len() == self.loops@.len());
        self.loops.len() == 0
    }

    /// The statement that a break leaves: the innermost, or the innermost with the label.
    #[verifier::loop_isolation(false)]
    pub(crate) fn find_break(&self, label: Option<StringId>) -> (ret: Option<usize>)
        ensures
            ret == self.st().find_break(label),
    {
        proof {
            reveal(CState::find_break);
            reveal(Compiler::st);
        }
        assert(compiler::loops_view(self.loops@).len() == self.loops@.len());
        let mut n: usize = self.loops.len();
        while n > 0
            invariant
                n <= self.loops@.len(),
                find_break_target(
                    compiler::loops_view(self.loops@),
                    label,
                    n as nat,
                ) == find_break_target(
                    compiler::loops_view(self.loops@),
                    label,
                    self.loops@.len(),
                ),
            decreases n,
        {
            assert(
                compiler::loops_view(self.loops@)[n - 1] == compiler::loop_view(self.loops@[n - 1])
            );
            if label.is_none() || same_label(self.loops[n - 1].label, label) {
                return Some(n - 1);
            }
            n = n - 1;
        }
        None
    }

    /// The loop that a continue goes to: never a switch.
    #[verifier::loop_isolation(false)]
    pub(crate) fn find_continue(&self, label: Option<StringId>) -> (ret: Option<usize>)
        ensures
            ret == self.st().find_continue(label),
    {
        proof {
            reveal(CState::find_continue);
            reveal(Compiler::st);
        }
        assert(compiler::loops_view(self.loops@).len() == self.loops@.len());
        let mut n: usize = self.loops.len();
        while n > 0
            invariant
                n <= self.loops@.len(),
                find_continue_target(
                    compiler::loops_view(self.loops@),
                    label,
                    n as nat,
                ) == find_continue_target(
                    compiler::loops_view(self.loops@),
                    label,
                    self.loops@.len(),
                ),
            decreases n,
        {
            assert(
                compiler::loops_view(self.loops@)[n - 1] == compiler::loop_view(self.loops@[n - 1])
            );
            if !self.loops[n - 1].is_switch && (label.is_none() || same_label(
                self.loops[n - 1].label,
                label,
            )) {
                return Some(n - 1);
            }
            n = n - 1;
        }
        None
    }

    /// The field `scope_depth` of an open loop.
    pub(crate) fn loop_scope_depth(&self, at: usize) -> (ret: u32)
        ensures
            ret == self.st().loop_scope_depth(at),
    {
        proof {
            reveal(CState::loop_scope_depth);
            reveal(Compiler::st);
        }
        assert(compiler::loops_view(self.loops@).len() == self.loops@.len());
        if at < self.loops.len() {
            assert(
                compiler::loops_view(self.loops@)[at as int] == compiler::loop_view(
                    self.loops@[at as int],
                )
            );
            self.loops[at].scope_depth
        } else {
            0
        }
    }

    /// The field `try_depth` of an open loop.
    pub(crate) fn loop_try_depth(&self, at: usize) -> (ret: usize)
        ensures
            ret == self.st().loop_try_depth(at),
    {
        proof {
            reveal(CState::loop_try_depth);
            reveal(Compiler::st);
        }
        assert(compiler::loops_view(self.loops@).len() == self.loops@.len());
        if at < self.loops.len() {
            assert(
                compiler::loops_view(self.loops@)[at as int] == compiler::loop_view(
                    self.loops@[at as int],
                )
            );
            self.loops[at].try_depth
        } else {
            0
        }
    }

    /// The field `with_depth` of an open loop.
    pub(crate) fn loop_with_depth(&self, at: usize) -> (ret: usize)
        ensures
            ret == self.st().loop_with_depth(at),
    {
        proof {
            reveal(CState::loop_with_depth);
            reveal(Compiler::st);
        }
        assert(compiler::loops_view(self.loops@).len() == self.loops@.len());
        if at < self.loops.len() {
            assert(
                compiler::loops_view(self.loops@)[at as int] == compiler::loop_view(
                    self.loops@[at as int],
                )
            );
            self.loops[at].with_depth
        } else {
            0
        }
    }

    /// The field `continue_target` of an open loop.
    pub(crate) fn loop_continue_target(&self, at: usize) -> (ret: usize)
        ensures
            ret == self.st().loop_continue_target(at),
    {
        proof {
            reveal(CState::loop_continue_target);
            reveal(Compiler::st);
        }
        assert(compiler::loops_view(self.loops@).len() == self.loops@.len());
        if at < self.loops.len() {
            assert(
                compiler::loops_view(self.loops@)[at as int] == compiler::loop_view(
                    self.loops@[at as int],
                )
            );
            self.loops[at].continue_target
        } else {
            0
        }
    }

    /// The field `has_deferred_continue` of an open loop.
    pub(crate) fn loop_defers_continue(&self, at: usize) -> (ret: bool)
        ensures
            ret == self.st().loop_defers_continue(at),
    {
        proof {
            reveal(CState::loop_defers_continue);
            reveal(Compiler::st);
        }
        assert(compiler::loops_view(self.loops@).len() == self.loops@.len());
        if at < self.loops.len() {
            assert(
                compiler::loops_view(self.loops@)[at as int] == compiler::loop_view(
                    self.loops@[at as int],
                )
            );
            self.loops[at].has_deferred_continue
        } else {
            false
        }
    }

    /// The field `for_of_iter_slot` of an open loop.
    pub(crate) fn loop_iter_slot(&self, at: usize) -> (ret: Option<u16>)
        ensures
            ret == self.st().loop_iter_slot(at),
    {
        proof {
            reveal(CState::loop_iter_slot);
            reveal(Compiler::st);
        }
        assert(compiler::loops_view(self.loops@).len() == self.loops@.len());
        if at < self.loops.len() {
            assert(
                compiler::loops_view(self.loops@)[at as int] == compiler::loop_view(
                    self.loops@[at as int],
                )
            );
            self.loops[at].for_of_iter_slot
        } else {
            None
        }
    }

    /// The number of open loops.
    pub(crate) fn loop_len(&self) -> (ret: usize)
        ensures
            ret == self.st().loop_len(),
    {
        proof {
            reveal(CState::loop_len);
            reveal(Compiler::st);
        }
        assert(compiler::loops_view(self.loops@).len() == self.loops@.len());
        self.loops.len()
    }

    /// Note a jump to be patched at the end of a loop (`break_patches`).
    pub(crate) fn add_break(&mut self, at: usize, pos: usize)
        requires
            old(self).st().good(),
        ensures
            final(self).st() == old(self).st().add_break(at, pos),
            final(self).st().depths() == old(self).st().depths(),
            final(self).st().good(),
            final(self).st().base == old(self).st().base,
    {
        proof {
            reveal(CState::add_break);
            reveal(Compiler::st);
            reveal(CState::good);
            reveal(CState::depths);
        }
        assert(compiler::loops_view(self.loops@).len() == self.loops@.len());
        if at < self.loops.len() {
            let ghost before = compiler::loop_view(self.loops@[at as int]);
            assert(compiler::loops_view(self.loops@)[at as int] == before);
            let mut ctx = self.loops.remove(at);
            ctx.break_patches.push(pos);
            self.loops.insert(at, ctx);
            assert(compiler::loops_view(self.loops@) =~= compiler::loops_view(old(self).loops@).update(
                at as int,
                LoopView { break_patches: before.break_patches.push(pos), ..before },
            ));
        }
    }

    /// Note a jump to be patched at the end of a loop (`continue_patches`).
    pub(crate) fn add_continue(&mut self, at: usize, pos: usize)
        requires
            old(self).st().good(),
        ensures
            final(self).st() == old(self).st().add_continue(at, pos),
            final(self).st().depths() == old(self).st().depths(),
            final(self).st().good(),
            final(self).st().base == old(self).st().base,
    {
        proof {
            reveal(CState::add_continue);
            reveal(Compiler::st);
            reveal(CState::good);
            reveal(CState::depths);
        }
        assert(compiler::loops_view(self.loops@).len() == self.loops@.len());
        if at < self.loops.len() {
            let ghost before = compiler::loop_view(self.loops@[at as int]);
            assert(compiler::loops_view(self.loops@)[at as int] == before);
            let mut ctx = self.loops.remove(at);
            ctx.continue_patches.push(pos);
            self.loops.insert(at, ctx);
            assert(compiler::loops_view(self.loops@) =~= compiler::loops_view(old(self).loops@).update(
                at as int,
                LoopView { continue_patches: before.continue_patches.push(pos), ..before },
            ));
        }
    }

    /// Enter a try statement: the finally body to inline on early exits, with the runtime
    /// handler active.
    pub(crate) fn push_finally(&mut self, body: Option<&'p Vec<Statement>>)
        requires
            old(self).st().good(),
        ensures
            final(self).st() == old(self).st().push_finally(body),
            final(self).st().depths() == (
                Depths { tries: old(self).st().depths().tries + 1, ..old(self).st().depths() }
            ),
            final(self).st().good(),
            final(self).st().base == old(self).st().base,
    {
        proof {
            reveal(CState::push_finally);
            reveal(Compiler::st);
            reveal(CState::good);
            reveal(CState::depths);
        }
        self.finally_stack.push(FinallyEntry { body, active: true });
    }

    /// From here on the runtime handler of the innermost try is gone.
    pub(crate) fn deactivate_finally(&mut self)
        requires
            old(self).st().good(),
        ensures
            final(self).st() == old(self).st().deactivate_finally(),
            final(self).st().depths() == old(self).st().depths(),
            final(self).st().good(),
            final(self).st().base == old(self).st().base,
    {
        proof {
            reveal(CState::deactivate_finally);
            reveal(Compiler::st);
            reveal(CState::good);
            reveal(CState::depths);
        }
        let n: usize = self.finally_stack.len();
        if n > 0 {
            let mut entry: FinallyEntry<'p> = self.finally_stack[n - 1];
            entry.active = false;
            self.finally_stack.set(n - 1, entry);
        }
    }

    /// Leave the innermost try statement.
    pub(crate) fn pop_finally(&mut self)
        requires
            old(self).st().good(),
        ensures
            final(self).st() == old(self).st().pop_finally(),
            final(self).st().depths() == old(self).st().depths().try_left(),
            final(self).st().good(),
            final(self).st().base == old(self).st().base,
    {
        proof {
            reveal(CState::pop_finally);
            reveal(Compiler::st);
            reveal(CState::good);
            reveal(CState::depths);
        }
        let _ = self.finally_stack.pop();
        assert(old(self).finally_stack@.len() > 0 ==> self.finally_stack@
            =~= old(self).finally_stack@.drop_last());
    }

    /// Detach the try levels from `depth` on.
    pub(crate) fn detach_finally(&mut self, depth: usize) -> (ret: Vec<FinallyEntry<'p>>)
        requires
            old(self).st().good(),
        ensures
            (final(self).st(), ret@) == old(self).st().detach_finally(depth),
            final(self).st().depths() == (
                Depths {
                    tries: (old(self).st().depths().tries - ret@.len()) as nat,
                    ..old(self).st().depths()
                }
            ),
            ret@.len() <= old(self).st().depths().tries,
            final(self).st().good(),
            final(self).st().base == old(self).st().base,
    {
        proof {
            reveal(CState::detach_finally);
            reveal(Compiler::st);
            reveal(CState::good);
            reveal(CState::depths);
        }
        if depth <= self.finally_stack.len() {
            let detached = self.finally_stack.split_off(depth);
            assert(self.finally_stack@ =~= old(self).finally_stack@.take(depth as int));
            assert(detached@ =~= old(self).finally_stack@.skip(depth as int));
            detached
        } else {
            Vec::new()
        }
    }

    /// Attach detached try levels again.
    pub(crate) fn attach_finally(&mut self, levels: Vec<FinallyEntry<'p>>)
        requires
            old(self).st().good(),
        ensures
            final(self).st() == old(self).st().attach_finally(levels@),
            final(self).st().depths() == (
                Depths {
                    tries: old(self).st().depths().tries + levels@.len(),
                    ..old(self).st().depths()
                }
            ),
            final(self).st().good(),
            final(self).st().base == old(self).st().base,
    {
        proof {
            reveal(CState::attach_finally);
            reveal(Compiler::st);
            reveal(CState::good);
            reveal(CState::depths);
        }
        let mut levels: Vec<FinallyEntry<'p>> = levels;
        self.finally_stack.append(&mut levels);
    }

    /// The number of enclosing `with` bodies.
    pub(crate) fn with_level(&self) -> (ret: usize)
        ensures
            ret == self.st().with_level(),
    {
        proof {
            reveal(CState::with_level);
            reveal(Compiler::st);
        }
        self.with_depth
    }

    /// Enter a `with` body.
    pub(crate) fn enter_with(&mut self)
        requires
            old(self).st().good(),
        ensures
            final(self).st() == old(self).st().enter_with(),
            final(self).st().depths() == (
                Depths {
                    withs: old(self).st().depths().withs.wrapping_add(1),
                    ..old(self).st().depths()
                }
            ),
            final(self).st().good(),
            final(self).st().base == old(self).st().base,
    {
        proof {
            reveal(CState::enter_with);
            reveal(Compiler::st);
            reveal(CState::good);
            reveal(CState::depths);
        }
        self.with_depth = self.with_depth.wrapping_add(1);
        self.with_local_floor.push(self.locals.len());
    }

    /// Leave a `with` body.
    pub(crate) fn leave_with(&mut self)
        requires
            old(self).st().good(),
        ensures
            final(self).st() == old(self).st().leave_with(),
            final(self).st().depths() == (
                Depths {
                    withs: old(self).st().depths().withs.wrapping_sub(1),
                    ..old(self).st().depths()
                }
            ),
            final(self).st().good(),
            final(self).st().base == old(self).st().base,
    {
        proof {
            reveal(CState::leave_with);
            reveal(Compiler::st);
            reveal(CState::good);
            reveal(CState::depths);
        }
        let _ = self.with_local_floor.pop();
        assert(old(self).with_local_floor@.len() > 0 ==> self.with_local_floor@
            =~= old(self).with_local_floor@.drop_last());
        self.with_depth = self.with_depth.wrapping_sub(1);
    }

    /// Whether a class body is being compiled.
    pub(crate) fn in_class(&self) -> (ret: bool)
        ensures
            ret == self.st().in_class(),
    {
        proof {
            reveal(CState::in_class);
            reveal(Compiler::st);
        }
        self.class_depth > 0
    }

    /// Enter a class body.
    pub(crate) fn enter_class(&mut self)
        requires
            old(self).st().good(),
        ensures
            final(self).st() == old(self).st().enter_class(),
            final(self).st().depths() == (
                Depths {
                    classes: old(self).st().depths().classes.wrapping_add(1),
                    ..old(self).st().depths()
                }
            ),
            final(self).st().good(),
            final(self).st().base == old(self).st().base,
    {
        proof {
            reveal(CState::enter_class);
            reveal(Compiler::st);
            reveal(CState::good);
            reveal(CState::depths);
        }
        self.class_depth = self.class_depth.wrapping_add(1);
    }

    /// Leave a class body.
    pub(crate) fn leave_class(&mut self)
        requires
            old(self).st().good(),
        ensures
            final(self).st() == old(self).st().leave_class(),
            final(self).st().depths() == (
                Depths {
                    classes: old(self).st().depths().classes.wrapping_sub(1),
                    ..old(self).st().depths()
                }
            ),
            final(self).st().good(),
            final(self).st().base == old(self).st().base,
    {
        proof {
            reveal(CState::leave_class);
            reveal(Compiler::st);
            reveal(CState::good);
            reveal(CState::depths);
        }
        self.class_depth = self.class_depth.wrapping_sub(1);
    }

    /// Set the name that the next anonymous function takes.
    pub(crate) fn set_pending_name(&mut self, name: StringId)
        requires
            old(self).st().good(),
        ensures
            final(self).st() == old(self).st().set_pending_name(name),
            final(self).st().depths() == old(self).st().depths(),
            final(self).st().good(),
            final(self).st().base == old(self).st().base,
    {
        proof {
            reveal(CState::set_pending_name);
            reveal(Compiler::st);
            reveal(CState::good);
            reveal(CState::depths);
        }
        self.pending_function_name = Some(name);
    }

    /// Take the name for an anonymous function.
    pub(crate) fn take_pending_name(&mut self) -> (ret: Option<StringId>)
        requires
            old(self).st().good(),
        ensures
            (final(self).st(), ret) == old(self).st().take_pending_name(),
            final(self).st().depths() == old(self).st().depths(),
            final(self).st().good(),
            final(self).st().base == old(self).st().base,
    {
        proof {
            reveal(CState::take_pending_name);
            reveal(Compiler::st);
            reveal(CState::good);
            reveal(CState::depths);
        }
        self.pending_function_name.take()
    }

    /// Start the default of the parameter in slot `k`, one of `count`.
    pub(crate) fn begin_default(&mut self, k: usize, count: usize)
        requires
            old(self).st().good(),
        ensures
            final(self).st() == old(self).st().begin_default(k, count),
            final(self).st().depths() == old(self).st().depths(),
            final(self).st().good(),
            final(self).st().base == old(self).st().base,
    {
        proof {
            reveal(CState::begin_default);
            reveal(Compiler::st);
            reveal(CState::good);
            reveal(CState::depths);
        }
        self.param_init_active = Some((k, count));
    }

    /// Finish the default of a parameter.
    pub(crate) fn end_default(&mut self)
        requires
            old(self).st().good(),
        ensures
            final(self).st() == old(self).st().end_default(),
            final(self).st().depths() == old(self).st().depths(),
            final(self).st().good(),
            final(self).st().base == old(self).st().base,
    {
        proof {
            reveal(CState::end_default);
            reveal(Compiler::st);
            reveal(CState::good);
            reveal(CState::depths);
        }
        self.param_init_active = None;
    }

    /// Whether a direct reference reads a parameter that has no value yet: parameters get
    /// theirs from left to right, so the default of one sees neither itself nor those behind
    /// it.
    pub(crate) fn param_tdz_violation(&self, name: StringId) -> (ret: bool)
        ensures
            ret == self.st().param_tdz_violation(name),
    {
        proof {
            reveal(CState::param_tdz_violation);
            reveal(Compiler::st);
        }
        match self.param_init_active {
            Some((k, count)) => {
                proof {
                    reveal(CState::resolve_local);
                }
                match self.resolve_local(name) {
                    Some(slot) => k <= slot && slot < count,
                    None => false,
                }
            },
            None => false,
        }
    }

    /// Remember a position.
    pub(crate) fn push_mark(&mut self, pos: usize)
        requires
            old(self).st().good(),
        ensures
            final(self).st() == old(self).st().push_mark(pos),
            final(self).st().depths() == old(self).st().depths(),
            final(self).st().good(),
            final(self).st().base == old(self).st().base,
    {
        proof {
            reveal(CState::push_mark);
            reveal(Compiler::st);
            reveal(CState::good);
            reveal(CState::depths);
        }
        if self.marks.len() < usize::MAX {
            self.marks.push(pos);
        }
    }

    /// The number of remembered positions.
    pub(crate) fn mark_len(&self) -> (ret: usize)
        ensures
            ret == self.st().mark_len(),
    {
        proof {
            reveal(CState::mark_len);
            reveal(Compiler::st);
        }
        self.marks.len()
    }

    /// A remembered position, or one behind all code.
    pub(crate) fn mark_at(&self, at: usize) -> (ret: usize)
        ensures
            ret == self.st().mark_at(at),
    {
        proof {
            reveal(CState::mark_at);
            reveal(Compiler::st);
        }
        if at < self.marks.len() {
            self.marks[at]
        } else {
            usize::MAX
        }
    }

    /// Forget the positions from `base` on.
    pub(crate) fn drop_marks(&mut self, base: usize)
        requires
            old(self).st().good(),
        ensures
            final(self).st() == old(self).st().drop_marks(base),
            final(self).st().depths() == old(self).st().depths(),
            final(self).st().good(),
            final(self).st().base == old(self).st().base,
    {
        proof {
            reveal(CState::drop_marks);
            reveal(Compiler::st);
            reveal(CState::good);
            reveal(CState::depths);
        }
        if base <= self.marks.len() {
            self.marks.truncate(base);
            assert(self.marks@ =~= old(self).marks@.take(base as int));
        }
    }

    /// The jumps remembered from `base` on land here.
    pub(crate) fn patch_marks(&mut self, base: usize)
        requires
            old(self).st().good(),
        ensures
            final(self).st() == old(self).st().patch_marks(base),
            final(self).st().depths() == old(self).st().depths(),
            final(self).st().good(),
            final(self).st().base == old(self).st().base,
    {
        proof {
            reveal(CState::patch_marks);
            reveal(Compiler::st);
            reveal(CState::good);
            reveal(CState::depths);
            lemma_patched_children(self.st().chunk, self.st().marks, base as nat);
        }
        if base <= self.marks.len() {
            let mut i: usize = base;
            while i < self.marks.len()
                invariant
                    i <= self.marks@.len(),
                    base <= i,
                    self.marks@ == old(self).marks@,
                    base <= self.marks@.len(),
                    self.st() == (CState { chunk: self.chunk@, ..old(self).st() }),
                    patched_all(self.chunk@, self.marks@, i as nat) == patched_all(
                        old(self).chunk@,
                        self.marks@,
                        base as nat,
                    ),
                decreases self.marks@.len() - i,
            {
                proof {
                    reveal(Compiler::st);
                }
                let pos: usize = self.marks[i];
                let len: usize = self.chunk.code.len();
                if pos <= len && len - pos >= 2 {
                    self.chunk.patch_jump(pos);
                }
                i = i + 1;
            }
            self.marks.truncate(base);
            assert(self.marks@ =~= old(self).marks@.take(base as int));
        }
    }

    /// The slot that the next local gets, as an operand.
    pub(crate) fn next_slot(&self) -> (ret: u8)
        ensures
            ret == self.st().next_slot(),
    {
        proof {
            reveal(CState::next_slot);
            reveal(Compiler::st);
        }
        self.locals.len() as u8
    }

    /// The slot of the last local, as an operand.
    pub(crate) fn last_slot(&self) -> (ret: u8)
        ensures
            ret == self.st().last_slot(),
    {
        proof {
            reveal(CState::last_slot);
            reveal(Compiler::st);
        }
        self.locals.len().wrapping_sub(1) as u8
    }

    /// Make the last local the self-binding of a named function expression.
    pub(crate) fn mark_self_name(&mut self)
        requires
            old(self).st().good(),
        ensures
            final(self).st() == old(self).st().mark_self_name(),
            final(self).st().depths() == old(self).st().depths(),
            final(self).st().good(),
            final(self).st().base == old(self).st().base,
    {
        proof {
            reveal(CState::mark_self_name);
            reveal(Compiler::st);
            reveal(CState::good);
            reveal(CState::depths);
        }
        if self.locals.len() > 0 {
            let last: usize = self.locals.len() - 1;
            let mut local = self.locals[last];
            local.is_fn_self_name = true;
            self.locals.set(last, local);
        }
    }

    /// The text of `id` put between two others.
    pub(crate) fn message_around(&self, prefix: &str, id: StringId, suffix: &str) -> (ret: String)
        ensures
            ret@ == self.st().message_around(prefix@, id, suffix@),
    {
        proof {
            reveal(CState::message_around);
            reveal(Compiler::st);
        }
        let mut text: String = prefix.to_owned();
        text.append(self.interner.text(id));
        text.append(suffix);
        text
    }

    /// The source name of the chunk.
    pub(crate) fn source_name(&self) -> (ret: StringId)
        ensures
            ret == self.st().source_name(),
    {
        proof {
            reveal(CState::source_name);
            reveal(Compiler::st);
        }
        self.chunk.source_name
    }

    /// Start a function: its chunk and a fresh scope replace those of the enclosing function,
    /// which are set aside.
    pub(crate) fn enter_function(&mut self, child: Chunk) -> (ret: SavedFrame<'p>)
        requires
            old(self).st().good(),
            child@.children_sound(),
        ensures
            (final(self).st(), ret.saved()) == old(self).st().enter_function(child@),
            final(self).st().depths() == (
                Depths {
                    functions: old(self).st().depths().functions + 1,
                    scopes: 1,
                    loops: 0,
                    tries: 0,
                    withs: 0,
                    ..old(self).st().depths()
                }
            ),
            ret.saved().depths(old(self).st().depths()) == old(self).st().depths(),
            final(self).st().good(),
            final(self).st().base == old(self).st().base,
            ret.saved().chunk.children_sound(),
    {
        proof {
            reveal(CState::enter_function);
            reveal(Compiler::st);
            reveal(SavedFrame::saved);
            reveal(CState::good);
            reveal(CState::depths);
        }
        let mut chunk: Chunk = child;
        std::mem::swap(&mut self.chunk, &mut chunk);
        let mut locals: Vec<Local> = Vec::new();
        std::mem::swap(&mut self.locals, &mut locals);
        let mut upvalues: Vec<UpvalueDescriptor> = Vec::new();
        std::mem::swap(&mut self.upvalues, &mut upvalues);
        let mut loops: Vec<LoopCtx> = Vec::new();
        std::mem::swap(&mut self.loops, &mut loops);
        let mut predeclared: Vec<StringId> = Vec::new();
        std::mem::swap(&mut self.predeclared_lex, &mut predeclared);
        let mut finally_stack: Vec<FinallyEntry<'p>> = Vec::new();
        std::mem::swap(&mut self.finally_stack, &mut finally_stack);
        let mut floors: Vec<usize> = Vec::new();
        std::mem::swap(&mut self.with_local_floor, &mut floors);
        let mut marks: Vec<usize> = Vec::new();
        std::mem::swap(&mut self.marks, &mut marks);
        let frame = EnclosingFrame { locals, upvalues };
        self.enclosing_chain.push(frame);
        assert(compiler::frames_view(self.enclosing_chain@) =~= compiler::frames_view(old(self).enclosing_chain@).push(
            compiler::frame_view(frame),
        ));
        let saved = SavedFrame {
            chunk,
            scope_depth: self.scope_depth,
            loops,
            predeclared,
            finally_stack,
            with_depth: self.with_depth,
            floors,
            marks,
            param_init_active: self.param_init_active.take(),
        };
        self.scope_depth = 1;
        self.with_depth = 0;
        assert(compiler::loops_view(self.loops@) =~= Seq::<LoopView>::empty());
        saved
    }

    /// Finish a function: its chunk, with the enclosing function back in place.
    pub(crate) fn leave_function(&mut self, saved: SavedFrame<'p>) -> (ret: Chunk)
        requires
            old(self).st().good(),
            saved.saved().chunk.children_sound(),
        ensures
            (final(self).st(), ret@) == old(self).st().leave_function(saved.saved()),
            final(self).st().depths() == saved.saved().depths(
                old(self).st().depths().function_left(),
            ),
            final(self).st().good(),
            final(self).st().base == old(self).st().base,
            ret@.children_sound(),
    {
        proof {
            reveal(CState::leave_function);
            reveal(Compiler::st);
            reveal(SavedFrame::saved);
            reveal(CState::good);
            reveal(CState::depths);
        }
        let mut compiled: Chunk = saved.chunk;
        std::mem::swap(&mut self.chunk, &mut compiled);
        assert(compiler::frames_view(self.enclosing_chain@).len() == self.enclosing_chain@.len());
        match self.enclosing_chain.pop() {
            Some(frame) => {
                assert(compiler::frames_view(self.enclosing_chain@) =~= compiler::frames_view(
                    old(self).enclosing_chain@,
                ).drop_last());
                assert(
                    compiler::frames_view(
                        old(self).enclosing_chain@,
                    ).last() == compiler::frame_view(frame)
                );
                self.locals = frame.locals;
                self.upvalues = frame.upvalues;
            },
            None => {
                self.locals = Vec::new();
                self.upvalues = Vec::new();
            },
        }
        self.scope_depth = saved.scope_depth;
        self.loops = saved.loops;
        self.predeclared_lex = saved.predeclared;
        self.finally_stack = saved.finally_stack;
        self.with_depth = saved.with_depth;
        self.with_local_floor = saved.floors;
        self.marks = saved.marks;
        self.param_init_active = saved.param_init_active;
        compiled
    }

    /// Note the numbers of locals and upvalues, and how each upvalue is captured.
    pub(crate) fn finish_chunk(&mut self)
        requires
            old(self).st().good(),
        ensures
            final(self).st() == old(self).st().finish_chunk(),
            final(self).st().depths() == old(self).st().depths(),
            final(self).st().good(),
            final(self).st().base == old(self).st().base,
    {
        proof {
            reveal(CState::finish_chunk);
            reveal(Compiler::st);
            reveal(CState::good);
            reveal(CState::depths);
        }
        self.chunk.local_count = self.locals.len() as u16;
        self.chunk.upvalue_count = self.upvalues.len() as u16;
        let mut descriptors: Vec<UpvalueDescriptor> = Vec::new();
        let mut i: usize = 0;
        while i < self.upvalues.len()
            invariant
                i <= self.upvalues@.len(),
                descriptors@ == self.upvalues@.take(i as int),
            decreases self.upvalues@.len() - i,
        {
            descriptors.push(self.upvalues[i]);
            i = i + 1;
            assert(descriptors@ =~= self.upvalues@.take(i as int));
        }
        assert(descriptors@ =~= self.upvalues@);
        self.chunk.upvalue_descriptors = descriptors;
    }

    /// Note the number of locals.
    pub(crate) fn finish_script(&mut self)
        requires
            old(self).st().good(),
        ensures
            final(self).st() == old(self).st().finish_script(),
            final(self).st().depths() == old(self).st().depths(),
            final(self).st().good(),
            final(self).st().base == old(self).st().base,
    {
        proof {
            reveal(CState::finish_script);
            reveal(Compiler::st);
            reveal(CState::good);
            reveal(CState::depths);
        }
        self.chunk.local_count = self.locals.len() as u16;
    }

    /// Add a function chunk and emit the closure over it, with its capture list.
    pub(crate) fn emit_closure(&mut self, child: Chunk, line: u32)
        requires
            old(self).st().good(),
            child@.sound(),
        ensures
            final(self).st() == old(self).st().emit_closure(child@, line),
            final(self).st().depths() == old(self).st().depths(),
            final(self).st().good(),
            final(self).st().base == old(self).st().base,
    {
        proof {
            reveal(CState::emit_closure);
            reveal(Compiler::st);
            reveal(CState::good);
            reveal(CState::depths);
            let pushed = ChunkView {
                child_chunks: self.st().chunk.child_chunks.push(child@),
                ..self.st().chunk
            };
            lemma_captures_children(
                pushed.op_u16(OpCode::Closure, self.st().chunk.child_chunks.len() as u16, line),
                child@.upvalue_descriptors,
                0,
                line,
            );
        }
        let descriptors = copy_descriptors(&child.upvalue_descriptors);
        proof {
            lemma_chunk_views_len(self.chunk.child_chunks@, self.chunk.child_chunks@.len() as int);
            lemma_chunk_views_push(self.chunk.child_chunks@, child);
        }
        let idx: u16 = self.chunk.child_chunks.len() as u16;
        self.chunk.child_chunks.push(child);
        self.chunk.emit_op_u16(OpCode::Closure, idx, line);
        let ghost start = self.chunk@;
        let mut i: usize = 0;
        while i < descriptors.len()
            invariant
                i <= descriptors@.len(),
                self.st() == (CState { chunk: self.chunk@, ..old(self).st() }),
                captures_emitted(self.chunk@, descriptors@, i as nat, line) == captures_emitted(
                    start,
                    descriptors@,
                    0,
                    line,
                ),
            decreases descriptors@.len() - i,
        {
            proof {
                reveal(Compiler::st);
            }
            let d: UpvalueDescriptor = descriptors[i];
            self.chunk.emit_byte(if d.is_local { 1 } else { 0 }, line);
            self.chunk.emit_byte((d.index >> 8) as u8, line);
            self.chunk.emit_byte((d.index & 0xFF) as u8, line);
            i = i + 1;
        }
    }

    /// Mark the function chunk added last as a concise method: it has no [[Construct]] slot.
    pub(crate) fn mark_last_child_as_method(&mut self)
        requires
            old(self).st().good(),
        ensures
            final(self).st() == old(self).st().mark_last_child_as_method(),
            final(self).st().depths() == old(self).st().depths(),
            final(self).st().good(),
            final(self).st().base == old(self).st().base,
    {
        proof {
            reveal(CState::mark_last_child_as_method);
            reveal(Compiler::st);
            reveal(CState::good);
            reveal(CState::depths);
            let chunk = self.st().chunk;
            if chunk.child_chunks.len() > 0 {
                let last = chunk.child_chunks.last();
                assert(chunk.child_chunks[chunk.child_chunks.len() - 1].sound());
                assert(ChunkView { flags: last.flags.with(FLAG_METHOD), ..last }.sound());
            }
        }
        proof {
            lemma_chunk_views_len(self.chunk.child_chunks@, self.chunk.child_chunks@.len() as int);
        }
        match self.chunk.child_chunks.pop() {
            Some(mut child) => {
                proof {
                    assert(old(self).chunk.child_chunks@ =~= self.chunk.child_chunks@.push(child));
                    lemma_chunk_views_push(self.chunk.child_chunks@, child);
                }
                let ghost before = chunk::chunk_views(
                    old(self).chunk.child_chunks@,
                    old(self).chunk.child_chunks@.len() as int,
                );
                assert(
                    before.drop_last() =~= chunk::chunk_views(
                        self.chunk.child_chunks@,
                        self.chunk.child_chunks@.len() as int,
                    )
                );
                child.flags.insert(FLAG_METHOD);
                proof {
                    lemma_chunk_views_push(self.chunk.child_chunks@, child);
                }
                self.chunk.child_chunks.push(child);
            },
            None => {},
        }
    }

    /// Resolve a name as an upvalue of the first `level` enclosing functions.
    fn resolve_upvalue_at(&mut self, name: StringId, level: usize) -> (found: Option<u16>)
        ensures
            ({
                let (chain, upvalues, r) = captured(
                    old(self).st().chain,
                    old(self).st().upvalues,
                    name,
                    level as nat,
                );
                final(self).st() == (CState { chain, upvalues, ..old(self).st() }) && found == r
            }),
    {
        proof {
            reveal(Compiler::st);
        }
        capture(&mut self.enclosing_chain, &mut self.upvalues, name, level)
    }

    /// Make all the jumps of a list land here.
    fn patch_all(&mut self, patches: &Vec<usize>)
        ensures
            final(self).st() == (CState {
                chunk: patched_all(old(self).st().chunk, patches@, 0),
                ..old(self).st()
            }),
    {
        let mut i: usize = 0;
        proof {
            reveal(Compiler::st);
        }
        while i < patches.len()
            invariant
                i <= patches@.len(),
                self.st() == (CState { chunk: self.st().chunk, ..old(self).st() }),
                patched_all(self.st().chunk, patches@, i as nat) == patched_all(
                    old(self).st().chunk,
                    patches@,
                    0,
                ),
            decreases patches@.len() - i,
        {
            proof {
                reveal(Compiler::st);
            }
            let pos: usize = patches[i];
            let len: usize = self.chunk.code.len();
            if pos <= len && len - pos >= 2 {
                self.chunk.patch_jump(pos);
            }
            i = i + 1;
        }
    }
}

} // verus!
