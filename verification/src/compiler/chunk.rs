//! Bytecode chunks: code, constant pool, line table and the emit helpers.

use vstd::prelude::*;
use crate::compiler::opcode::OpCode;
use crate::runtime::value::Value;
use crate::util::interner::StringId;

verus! {

/// Strict-mode code.
pub const FLAG_STRICT: u16 = 0b0000_0001;
/// Generator function.
pub const FLAG_GENERATOR: u16 = 0b0000_0010;
/// Async function.
pub const FLAG_ASYNC: u16 = 0b0000_0100;
/// Module code.
pub const FLAG_MODULE: u16 = 0b0000_1000;
/// Arrow function.
pub const FLAG_ARROW: u16 = 0b0001_0000;
/// Concise method (object/class shorthand). Has no [[Construct]] slot.
pub const FLAG_METHOD: u16 = 0b0010_0000;
/// Top-level script or eval code. Value-producing statements update the completion
/// register so that evaluating the script yields its completion value.
pub const FLAG_SCRIPT: u16 = 0b0100_0000;
/// Class field initializer thunk. A direct eval from here may not reference `arguments`.
pub const FLAG_FIELD_INIT: u16 = 0b1000_0000;
/// Class constructor: calling without `new` is a TypeError.
pub const FLAG_CLASS_CTOR: u16 = 0b1_0000_0000;

/// Flags describing a compiled chunk's characteristics.
#[derive(Clone, Copy, PartialEq, Eq, Structural, Debug)]
pub struct ChunkFlags {
    pub bits: u16,
}

impl ChunkFlags {
    /// The set without a flag.
    pub open spec fn none() -> ChunkFlags {
        ChunkFlags { bits: 0 }
    }

    /// Whether all the flags of a mask are set.
    pub open spec fn has(self, mask: u16) -> bool {
        self.bits & mask == mask
    }

    /// The set with the flags of a mask added.
    pub open spec fn with(self, mask: u16) -> ChunkFlags {
        ChunkFlags { bits: self.bits | mask }
    }

    /// No flags.
    pub fn empty() -> (flags: Self)
        ensures
            flags == Self::none(),
    {
        ChunkFlags { bits: 0 }
    }

    /// Whether all the flags of `mask` are set.
    pub fn contains(self, mask: u16) -> (has: bool)
        ensures
            has == self.has(mask),
    {
        self.bits & mask == mask
    }

    /// Add the flags of `mask`.
    pub fn insert(&mut self, mask: u16)
        ensures
            *final(self) == old(self).with(mask),
    {
        self.bits = self.bits | mask;
    }
}

/// A flag that was added is set, and adding it again changes nothing.
pub proof fn law_flags_insert(flags: ChunkFlags, mask: u16)
    ensures
        flags.with(mask).has(mask),
        flags.with(mask).with(mask) == flags.with(mask),
{
    let bits = flags.bits;
    assert((bits | mask) & mask == mask && ((bits | mask) | mask) == (bits | mask)) by (bit_vector);
}

/// Describes how a closure captures one upvalue.
#[derive(Clone, Copy, PartialEq, Eq, Structural, Debug)]
pub struct UpvalueDescriptor {
    /// Index: if `is_local` is true, this is a local slot in the *enclosing* function.
    /// If false, this is an upvalue index in the enclosing function's upvalue list.
    pub index: u16,
    /// True if capturing directly from the enclosing function's locals.
    /// False if capturing from the enclosing function's upvalues (transitive capture).
    pub is_local: bool,
}

/// Exception handler entry in the handler table.
#[derive(Clone, Copy, PartialEq, Eq, Structural, Debug)]
pub struct ExceptionHandler {
    /// Start of the try block (bytecode offset).
    pub try_start: u32,
    /// End of the try block (bytecode offset).
    pub try_end: u32,
    /// Start of catch handler (0 if no catch).
    pub catch_target: u32,
    /// Start of finally handler (0 if no finally).
    pub finally_target: u32,
    /// Operand stack depth at try entry (for unwinding).
    pub stack_depth: u16,
    /// Local slot for catch parameter (0xFFFF if none).
    pub catch_binding: u16,
}

/// A compiled bytecode unit (one per function/script/module).
pub struct Chunk {
    /// Bytecode instructions.
    pub code: Vec<u8>,
    /// Constant pool (numbers and strings).
    pub constants: Vec<Value>,
    /// Run-length encoded line info: (bytecode_offset, source_line).
    pub lines: Vec<(u32, u32)>,
    /// Source file name.
    pub source_name: StringId,
    /// Number of local variable slots needed.
    pub local_count: u16,
    /// Number of upvalues captured.
    pub upvalue_count: u16,
    /// Number of declared parameters.
    pub param_count: u16,
    /// Function.length: params before first default/rest.
    pub formal_length: u16,
    /// Function name (for stack traces).
    pub name: StringId,
    /// Parameter binding names (simple identifiers). Used by direct eval running
    /// in a parameter default to detect var/function-declaration collisions.
    pub param_names: Vec<StringId>,
    /// Body-level lexical (let/const/class) binding names, same purpose.
    pub lexical_names: Vec<StringId>,
    /// Chunk flags (strict, generator, async, etc.)
    pub flags: ChunkFlags,
    /// Upvalue descriptors for this closure.
    pub upvalue_descriptors: Vec<UpvalueDescriptor>,
    /// Exception handler table.
    pub exception_handlers: Vec<ExceptionHandler>,
    /// Nested function chunks (referenced by Closure opcode).
    pub child_chunks: Vec<Chunk>,
    /// Absolute chunk indices of direct children (filled when chunks are flattened).
    pub children: Vec<usize>,
    /// Monomorphic property inline cache: one byte per GetProperty/SetProperty callsite.
    /// Index via the cache slot embedded in the instruction. 0xFF = cold (not yet cached).
    pub property_ic: Vec<u8>,
    /// Number of IC slots allocated so far for this chunk.
    pub ic_slot_count: u16,
    /// The body references the `arguments` object (set for arrow chunks so
    /// closure creation knows to capture the defining scope's arguments).
    pub uses_arguments: bool,
    /// Every formal parameter is a plain identifier (no defaults, rest or
    /// destructuring). Mapped-arguments aliasing only applies to these.
    pub simple_params: bool,
    /// Set when a patched jump's offset exceeded the i16 encoding: the bytecode is
    /// corrupt (the offset wrapped) and must not run. The compiler turns this into a
    /// compile error.
    pub jump_overflow: bool,
}

/// What a chunk holds, as mathematical values.
#[verifier::ext_equal]
pub struct ChunkView {
    pub code: Seq<u8>,
    pub constants: Seq<Value>,
    pub lines: Seq<(u32, u32)>,
    pub source_name: StringId,
    pub local_count: u16,
    pub upvalue_count: u16,
    pub param_count: u16,
    pub formal_length: u16,
    pub name: StringId,
    pub param_names: Seq<StringId>,
    pub lexical_names: Seq<StringId>,
    pub flags: ChunkFlags,
    pub upvalue_descriptors: Seq<UpvalueDescriptor>,
    pub exception_handlers: Seq<ExceptionHandler>,
    pub child_chunks: Seq<ChunkView>,
    pub children: Seq<usize>,
    pub property_ic: Seq<u8>,
    pub ic_slot_count: u16,
    pub uses_arguments: bool,
    pub simple_params: bool,
    pub jump_overflow: bool,
}

/// The big-endian bytes of a 16-bit operand.
pub open spec fn be16(v: u16) -> Seq<u8> {
    seq![(v >> 8) as u8, (v & 0xFF) as u8]
}

/// The big-endian bytes of a 32-bit operand.
pub open spec fn be32(v: u32) -> Seq<u8> {
    seq![(v >> 24) as u8, (v >> 16) as u8, (v >> 8) as u8, (v & 0xFF) as u8]
}

/// The 16-bit number that two bytes spell, big-endian.
pub open spec fn spell16(hi: u8, lo: u8) -> u16 {
    ((hi as u16) << 8) | (lo as u16)
}

/// The 32-bit number that four bytes spell, big-endian.
pub open spec fn spell32(a: u8, b: u8, c: u8, d: u8) -> u32 {
    ((a as u32) << 24) | ((b as u32) << 16) | ((c as u32) << 8) | (d as u32)
}

/// The line table once the byte at `at` was emitted for `line`: a new run starts only
/// where the line changes.
pub open spec fn line_noted(lines: Seq<(u32, u32)>, at: nat, line: u32) -> Seq<(u32, u32)> {
    if lines.len() > 0 && lines.last().1 == line {
        lines
    } else {
        lines.push((at as u32, line))
    }
}

/// The line of the last of the first `n` runs that starts at or before `offset`, or 0.
pub open spec fn line_at(lines: Seq<(u32, u32)>, n: nat, offset: u32) -> u32
    decreases n,
{
    if n == 0 {
        0
    } else if lines[n - 1].0 <= offset {
        lines[n - 1].1
    } else {
        line_at(lines, (n - 1) as nat, offset)
    }
}

impl ChunkView {
    /// Whether no jump of the chunk, nor of a function inside of it, got an offset that its
    /// encoding cannot hold.
    pub open spec fn sound(self) -> bool
        decreases self,
    {
        &&& !self.jump_overflow
        &&& forall|i: int|
            0 <= i < self.child_chunks.len() ==> (#[trigger] self.child_chunks[i]).sound()
    }

    /// Whether the runs of lines stand in order and start inside of the code.
    pub open spec fn lines_sorted(self) -> bool {
        &&& forall|i: int|
            0 <= i < self.lines.len() ==> (#[trigger] self.lines[i]).0 < self.code.len()
        &&& forall|i: int, j: int|
            0 <= i < j < self.lines.len() ==> (#[trigger] self.lines[i]).0 < (
            #[trigger] self.lines[j]).0
    }

    /// Whether the functions inside of the chunk are sound.
    pub open spec fn children_sound(self) -> bool {
        forall|i: int|
            0 <= i < self.child_chunks.len() ==> (#[trigger] self.child_chunks[i]).sound()
    }

    /// An empty chunk.
    pub open spec fn empty(name: StringId, source_name: StringId) -> ChunkView {
        ChunkView {
            code: Seq::empty(),
            constants: Seq::empty(),
            lines: Seq::empty(),
            source_name,
            local_count: 0,
            upvalue_count: 0,
            param_count: 0,
            formal_length: 0,
            name,
            param_names: Seq::empty(),
            lexical_names: Seq::empty(),
            flags: ChunkFlags::none(),
            upvalue_descriptors: Seq::empty(),
            exception_handlers: Seq::empty(),
            child_chunks: Seq::empty(),
            children: Seq::empty(),
            property_ic: Seq::empty(),
            ic_slot_count: 0,
            uses_arguments: false,
            simple_params: true,
            jump_overflow: false,
        }
    }

    /// One byte emitted for a line.
    pub open spec fn byte(self, byte: u8, line: u32) -> ChunkView {
        ChunkView {
            code: self.code.push(byte),
            lines: line_noted(self.lines, self.code.len(), line),
            ..self
        }
    }

    /// Bytes appended without line information.
    pub open spec fn raw(self, bytes: Seq<u8>) -> ChunkView {
        ChunkView { code: self.code + bytes, ..self }
    }

    /// An opcode emitted.
    pub open spec fn op(self, op: OpCode, line: u32) -> ChunkView {
        self.byte(op.byte(), line)
    }

    /// An opcode with an 8-bit operand emitted.
    pub open spec fn op_u8(self, op: OpCode, operand: u8, line: u32) -> ChunkView {
        self.byte(op.byte(), line).byte(operand, line)
    }

    /// An opcode with a 16-bit operand emitted.
    pub open spec fn op_u16(self, op: OpCode, operand: u16, line: u32) -> ChunkView {
        self.byte(op.byte(), line).raw(be16(operand))
    }

    /// An opcode with a 32-bit operand emitted.
    pub open spec fn op_u32(self, op: OpCode, operand: u32, line: u32) -> ChunkView {
        self.byte(op.byte(), line).raw(be32(operand))
    }

    /// A jump with a placeholder offset emitted.
    pub open spec fn jump(self, op: OpCode, line: u32) -> ChunkView {
        self.byte(op.byte(), line).raw(seq![0xFFu8, 0xFFu8])
    }

    /// A placeholder offset emitted behind another operand.
    pub open spec fn placeholder(self, line: u32) -> ChunkView {
        ChunkView {
            code: self.code + seq![0xFFu8, 0xFFu8],
            lines: line_noted(self.lines, self.code.len() + 1, line),
            ..self
        }
    }

    /// Two bytes overwritten with a 16-bit number.
    pub open spec fn put16(self, at: nat, v: u16) -> ChunkView {
        ChunkView {
            code: self.code.update(at as int, (v >> 8) as u8).update(
                at as int + 1,
                (v & 0xFF) as u8,
            ),
            ..self
        }
    }

    /// The jump whose offset stands at `at` made to land at the end of the code.
    pub open spec fn patch(self, at: nat) -> ChunkView {
        let distance = self.code.len() - at - 2;
        ChunkView {
            jump_overflow: self.jump_overflow || distance > i16::MAX,
            ..self.put16(at, distance as u16)
        }
    }

    /// The jump whose offset stands at `at` made to land at `target`.
    pub open spec fn aimed(self, at: nat, target: nat) -> ChunkView {
        let distance = target - at - 2;
        ChunkView {
            jump_overflow: self.jump_overflow || distance < i16::MIN || distance > i16::MAX,
            ..self.put16(at, distance as u16)
        }
    }

    /// A backward jump to `start` emitted.
    pub open spec fn looped(self, start: nat, line: u32) -> ChunkView {
        let back = self.code.len() + 1 - start + 2;
        ChunkView {
            jump_overflow: self.jump_overflow || back > u16::MAX,
            ..self.byte(OpCode::Loop.byte(), line).raw(be16(back as u16))
        }
    }

    /// A constant added to the pool.
    pub open spec fn constant(self, value: Value) -> ChunkView {
        ChunkView { constants: self.constants.push(value), ..self }
    }

    /// A cold inline-cache slot added.
    pub open spec fn ic_slot(self) -> ChunkView {
        ChunkView {
            ic_slot_count: self.ic_slot_count.wrapping_add(1),
            property_ic: self.property_ic.push(0xFF),
            ..self
        }
    }
}

/// The views of the first `n` chunks of a sequence.
pub open spec fn chunk_views(chunks: Seq<Chunk>, n: int) -> Seq<ChunkView>
    decreases chunks, n,
{
    if n <= 0 || n > chunks.len() {
        Seq::empty()
    } else {
        chunk_views(chunks, n - 1).push(chunk_view(chunks[n - 1]))
    }
}

/// What a chunk holds.
pub open spec fn chunk_view(chunk: Chunk) -> ChunkView
    decreases chunk, 0int,
{
    ChunkView {
        code: chunk.code@,
        constants: chunk.constants@,
        lines: chunk.lines@,
        source_name: chunk.source_name,
        local_count: chunk.local_count,
        upvalue_count: chunk.upvalue_count,
        param_count: chunk.param_count,
        formal_length: chunk.formal_length,
        name: chunk.name,
        param_names: chunk.param_names@,
        lexical_names: chunk.lexical_names@,
        flags: chunk.flags,
        upvalue_descriptors: chunk.upvalue_descriptors@,
        exception_handlers: chunk.exception_handlers@,
        child_chunks: chunk_views(chunk.child_chunks@, chunk.child_chunks@.len() as int),
        children: chunk.children@,
        property_ic: chunk.property_ic@,
        ic_slot_count: chunk.ic_slot_count,
        uses_arguments: chunk.uses_arguments,
        simple_params: chunk.simple_params,
        jump_overflow: chunk.jump_overflow,
    }
}

impl View for Chunk {
    type V = ChunkView;

    open spec fn view(&self) -> ChunkView {
        chunk_view(*self)
    }
}

impl Chunk {
    /// An empty chunk.
    pub fn new(name: StringId, source_name: StringId) -> (chunk: Self)
        ensures
            chunk@ == ChunkView::empty(name, source_name),
            chunk.child_chunks@.len() == 0,
    {
        Chunk {
            code: Vec::new(),
            constants: Vec::new(),
            lines: Vec::new(),
            source_name,
            local_count: 0,
            upvalue_count: 0,
            param_count: 0,
            formal_length: 0,
            name,
            param_names: Vec::new(),
            lexical_names: Vec::new(),
            flags: ChunkFlags::empty(),
            upvalue_descriptors: Vec::new(),
            exception_handlers: Vec::new(),
            child_chunks: Vec::new(),
            children: Vec::new(),
            property_ic: Vec::new(),
            ic_slot_count: 0,
            jump_overflow: false,
            uses_arguments: false,
            simple_params: true,
        }
    }

    /// Allocate an IC slot for a GetProperty/SetProperty instruction.
    /// Returns the slot index (to be embedded in bytecode).
    pub fn alloc_ic_slot(&mut self) -> (slot: u16)
        ensures
            final(self)@ == old(self)@.ic_slot(),
            slot == old(self).ic_slot_count,
    {
        let slot: u16 = self.ic_slot_count;
        self.ic_slot_count = self.ic_slot_count.wrapping_add(1);
        self.property_ic.push(0xFF);
        slot
    }

    /// Write a single byte.
    pub fn emit_byte(&mut self, byte: u8, line: u32)
        ensures
            final(self)@ == old(self)@.byte(byte, line),
    {
        self.code.push(byte);
        self.add_line(line);
    }

    /// Emit an opcode.
    pub fn emit_op(&mut self, op: OpCode, line: u32)
        ensures
            final(self)@ == old(self)@.op(op, line),
    {
        self.emit_byte(op.to_byte(), line);
    }

    /// Emit an opcode followed by a u8 operand.
    pub fn emit_op_u8(&mut self, op: OpCode, operand: u8, line: u32)
        ensures
            final(self)@ == old(self)@.op_u8(op, operand, line),
    {
        self.emit_byte(op.to_byte(), line);
        self.emit_byte(operand, line);
    }

    /// Emit an opcode followed by a u16 operand (big-endian).
    pub fn emit_op_u16(&mut self, op: OpCode, operand: u16, line: u32)
        ensures
            final(self)@ == old(self)@.op_u16(op, operand, line),
    {
        self.emit_byte(op.to_byte(), line);
        self.push_u16(operand);
        self.add_line(line);
        self.add_line(line);
    }

    /// Append a u16 operand without line information.
    pub fn push_u16(&mut self, operand: u16)
        ensures
            final(self)@ == old(self)@.raw(be16(operand)),
    {
        self.code.push((operand >> 8) as u8);
        self.code.push((operand & 0xFF) as u8);
        assert(self@.code =~= old(self)@.code + be16(operand));
    }

    /// Append a byte without line information.
    pub fn push_byte(&mut self, byte: u8)
        ensures
            final(self)@ == old(self)@.raw(seq![byte]),
    {
        self.code.push(byte);
        assert(self@.code =~= old(self)@.code + seq![byte]);
    }

    /// Emit an opcode followed by a u32 operand (big-endian).
    pub fn emit_op_u32(&mut self, op: OpCode, operand: u32, line: u32)
        ensures
            final(self)@ == old(self)@.op_u32(op, operand, line),
    {
        self.emit_byte(op.to_byte(), line);
        let ghost before = self.code@;
        self.code.push((operand >> 24) as u8);
        self.code.push((operand >> 16) as u8);
        self.code.push((operand >> 8) as u8);
        self.code.push((operand & 0xFF) as u8);
        assert(self.code@ =~= before + be32(operand));
        self.add_line(line);
        self.add_line(line);
        self.add_line(line);
        self.add_line(line);
    }

    /// Emit a jump instruction with a placeholder offset.
    /// Returns the position of the offset bytes for later patching.
    pub fn emit_jump(&mut self, op: OpCode, line: u32) -> (pos: usize)
        ensures
            final(self)@ == old(self)@.jump(op, line),
            pos == old(self).code@.len() + 1,
    {
        self.emit_byte(op.to_byte(), line);
        let pos: usize = self.code.len();
        let ghost before = self.code@;
        self.code.push(0xFF);
        self.code.push(0xFF);
        assert(self.code@ =~= before + seq![0xFFu8, 0xFFu8]);
        self.add_line(line);
        self.add_line(line);
        pos
    }

    /// Emit a placeholder i16 jump offset that follows another operand (e.g.
    /// the name index of WithGetCheck/WithSetCheck). Returns the position of
    /// the offset bytes for later patching with `patch_jump`.
    pub fn emit_offset_placeholder(&mut self, line: u32) -> (pos: usize)
        ensures
            final(self)@ == old(self)@.placeholder(line),
            pos == old(self).code@.len(),
    {
        let pos: usize = self.code.len();
        let ghost before = self.code@;
        self.code.push(0xFF);
        self.code.push(0xFF);
        assert(self.code@ =~= before + seq![0xFFu8, 0xFFu8]);
        self.add_line(line);
        self.add_line(line);
        pos
    }

    /// Overwrite two bytes with a 16-bit number.
    pub fn put_u16(&mut self, at: usize, v: u16)
        requires
            at + 2 <= old(self).code@.len(),
        ensures
            final(self)@ == old(self)@.put16(at as nat, v),
    {
        assert(self.code@.len() == self.code.len());
        self.code.set(at, (v >> 8) as u8);
        self.code.set(at + 1, (v & 0xFF) as u8);
    }

    /// Patch a previously emitted jump to target the current position. An offset that
    /// does not fit the i16 encoding would corrupt control flow, so it marks the chunk.
    pub fn patch_jump(&mut self, offset_pos: usize)
        requires
            offset_pos + 2 <= old(self).code@.len(),
        ensures
            final(self)@ == old(self)@.patch(offset_pos as nat),
    {
        let distance: usize = self.code.len() - offset_pos - 2;
        if distance > i16::MAX as usize {
            self.jump_overflow = true;
        }
        self.put_u16(offset_pos, distance as u16);
    }

    /// Make the jump whose offset stands at `offset_pos` land at `target`. One that is too
    /// far away for the offset is noted.
    pub fn aim_jump(&mut self, offset_pos: usize, target: usize)
        requires
            offset_pos + 2 <= old(self).code@.len(),
        ensures
            final(self)@ == old(self)@.aimed(offset_pos as nat, target as nat),
    {
        if target >= offset_pos {
            if target - offset_pos > 0x8001 {
                self.jump_overflow = true;
            }
        } else if offset_pos - target > 0x7FFE {
            self.jump_overflow = true;
        }
        let distance: u16 = (target as u16).wrapping_sub(offset_pos as u16).wrapping_sub(2);
        proof {
            lemma_wrapping_distance(target, offset_pos);
        }
        self.put_u16(offset_pos, distance);
    }

    /// Emit a backward loop jump to `loop_start`.
    pub fn emit_loop(&mut self, loop_start: usize, line: u32)
        requires
            loop_start <= old(self).code@.len(),
        ensures
            final(self)@ == old(self)@.looped(loop_start as nat, line),
    {
        self.emit_byte(OpCode::Loop.to_byte(), line);
        let distance: usize = self.code.len() - loop_start;
        if distance > u16::MAX as usize - 2 {
            self.jump_overflow = true;
        }
        let offset: u16 = (distance as u16).wrapping_add(2);
        assert(offset == (distance + 2) as u16) by {
            lemma_wrapping_offset(distance);
        }
        self.push_u16(offset);
        self.add_line(line);
        self.add_line(line);
    }

    /// Add a constant to the pool and return its index.
    pub fn add_constant(&mut self, value: Value) -> (index: u16)
        ensures
            final(self)@ == old(self)@.constant(value),
            index == old(self).constants@.len() as u16,
    {
        let index: usize = self.constants.len();
        self.constants.push(value);
        index as u16
    }

    /// Note the line of the last byte emitted.
    fn add_line(&mut self, line: u32)
        requires
            old(self).code@.len() > 0,
        ensures
            final(self)@ == (ChunkView {
                lines: line_noted(old(self)@.lines, (old(self).code@.len() - 1) as nat, line),
                ..old(self)@
            }),
    {
        let n: usize = self.lines.len();
        if n > 0 && self.lines[n - 1].1 == line {
            return;
        }
        let at: usize = self.code.len() - 1;
        self.lines.push((at as u32, line));
    }

    /// Get the source line for a bytecode offset: that of the last entry of the line
    /// table at or before the offset.
    pub fn get_line(&self, offset: u32) -> (line: u32)
        ensures
            line == line_at(self.lines@, self.lines@.len(), offset),
    {
        let mut n: usize = self.lines.len();
        while n > 0
            invariant
                n <= self.lines@.len(),
                line_at(self.lines@, n as nat, offset) == line_at(
                    self.lines@,
                    self.lines@.len(),
                    offset,
                ),
            decreases n,
        {
            if self.lines[n - 1].0 <= offset {
                return self.lines[n - 1].1;
            }
            n = n - 1;
        }
        0
    }

    /// Read a u16 from the bytecode at the given offset (big-endian).
    pub fn read_u16(&self, offset: usize) -> (v: u16)
        requires
            offset + 2 <= self.code@.len(),
        ensures
            v == spell16(self.code@[offset as int], self.code@[offset + 1]),
    {
        assert(self.code@.len() == self.code.len());
        ((self.code[offset] as u16) << 8) | (self.code[offset + 1] as u16)
    }

    /// Read an i16 from the bytecode at the given offset (big-endian).
    pub fn read_i16(&self, offset: usize) -> (v: i16)
        requires
            offset + 2 <= self.code@.len(),
        ensures
            v == spell16(self.code@[offset as int], self.code@[offset + 1]) as i16,
    {
        self.read_u16(offset) as i16
    }

    /// Read a u32 from the bytecode at the given offset (big-endian).
    pub fn read_u32(&self, offset: usize) -> (v: u32)
        requires
            offset + 4 <= self.code@.len(),
        ensures
            v == spell32(
                self.code@[offset as int],
                self.code@[offset + 1],
                self.code@[offset + 2],
                self.code@[offset + 3],
            ),
    {
        assert(self.code@.len() == self.code.len());
        ((self.code[offset] as u32) << 24) | ((self.code[offset + 1] as u32) << 16)
            | ((self.code[offset + 2] as u32) << 8) | (self.code[offset + 3] as u32)
    }

    /// Current bytecode length.
    pub fn len(&self) -> (len: usize)
        ensures
            len == self.code@.len(),
    {
        self.code.len()
    }

    /// Whether no bytecode was emitted yet.
    pub fn is_empty(&self) -> (empty: bool)
        ensures
            empty == (self.code@.len() == 0),
    {
        self.code.len() == 0
    }
}

proof fn lemma_wrapping_offset(distance: usize)
    ensures
        (distance as u16).wrapping_add(2) == (distance + 2) as u16,
{
    let low = distance as u16;
    let sum: u16 = (distance + 2) as u16;
    assert(sum == (if low > 0xFFFD { (low + 2 - 0x10000) as u16 } else { (low + 2) as u16 }))
        by (bit_vector)
        requires
            low == distance as u16,
            sum == (distance + 2) as u16;
}

proof fn lemma_wrapping_distance(target: usize, pos: usize)
    ensures
        (target as u16).wrapping_sub(pos as u16).wrapping_sub(2) == (target - pos - 2) as u16,
{
    let to = target as u16;
    let from = pos as u16;
    let back: u16 = to.wrapping_sub(from);
    let low: u16 = (target - pos - 2) as u16;
    assert(low == (if back < 2 {
        (back + 0x10000 - 2) as u16
    } else {
        (back - 2) as u16
    })) by (bit_vector)
        requires
            to == target as u16,
            from == pos as u16,
            back == (if to < from {
                (to + 0x10000 - from) as u16
            } else {
                (to - from) as u16
            }),
            low == (target - pos - 2) as u16,
    ;
}

/// Reading a 16-bit operand gives back what was emitted.
pub proof fn law_read_emitted_u16(chunk: ChunkView, op: OpCode, operand: u16, line: u32)
    ensures
        ({
            let after = chunk.op_u16(op, operand, line);
            let at = chunk.code.len() as int + 1;
            &&& after.code[at - 1] == op.byte()
            &&& spell16(after.code[at], after.code[at + 1]) == operand
        }),
{
    lemma_spell16(operand);
}

/// Reading a 32-bit operand gives back what was emitted.
pub proof fn law_read_emitted_u32(chunk: ChunkView, op: OpCode, operand: u32, line: u32)
    ensures
        ({
            let after = chunk.op_u32(op, operand, line);
            let at = chunk.code.len() as int + 1;
            &&& after.code[at - 1] == op.byte()
            &&& spell32(
                after.code[at],
                after.code[at + 1],
                after.code[at + 2],
                after.code[at + 3],
            ) == operand
        }),
{
    assert(spell32(
        (operand >> 24) as u8,
        (operand >> 16) as u8,
        (operand >> 8) as u8,
        (operand & 0xFF) as u8,
    ) == operand) by (bit_vector);
}

proof fn lemma_spell16(v: u16)
    ensures
        spell16((v >> 8) as u8, (v & 0xFF) as u8) == v,
{
    assert(spell16((v >> 8) as u8, (v & 0xFF) as u8) == v) by (bit_vector);
}

/// A patched jump whose distance fits lands exactly at the end of the code, and
/// patching touches nothing but the two offset bytes.
pub proof fn law_patched_jump_lands(chunk: ChunkView, at: nat)
    requires
        at + 2 <= chunk.code.len(),
        chunk.code.len() - at - 2 <= i16::MAX,
    ensures
        ({
            let after = chunk.patch(at);
            &&& at + 2 + (spell16(after.code[at as int], after.code[at as int + 1]) as i16)
                == chunk.code.len()
            &&& after.jump_overflow == chunk.jump_overflow
            &&& after.code.len() == chunk.code.len()
            &&& forall|i: int|
                0 <= i < chunk.code.len() && i != at && i != at + 1 ==> after.code[i]
                    == chunk.code[i]
        }),
{
    let distance = chunk.code.len() - at - 2;
    lemma_spell16(distance as u16);
    let d = distance as u16;
    assert(d <= 0x7FFF ==> (d as i16) as int == d) by (bit_vector);
}

/// A backward jump whose distance fits leads back to the loop start.
pub proof fn law_loop_returns(chunk: ChunkView, start: nat, line: u32)
    requires
        start <= chunk.code.len(),
        chunk.code.len() + 3 - start <= u16::MAX,
    ensures
        ({
            let after = chunk.looped(start, line);
            let at = chunk.code.len() as int;
            &&& after.code[at] == OpCode::Loop.byte()
            &&& at + 3 - spell16(after.code[at + 1], after.code[at + 2]) == start
        }),
{
    let back = chunk.code.len() + 1 - start + 2;
    lemma_spell16(back as u16);
}

/// An offset that does not fit marks the chunk, so that it is never run.
pub proof fn law_overflow_marked(chunk: ChunkView, at: nat)
    requires
        at + 2 <= chunk.code.len(),
        chunk.code.len() - at - 2 > i16::MAX,
    ensures
        chunk.patch(at).jump_overflow,
{
}

proof fn lemma_line_before(lines: Seq<(u32, u32)>, run: (u32, u32), n: nat, offset: u32)
    requires
        n <= lines.len(),
    ensures
        line_at(lines.push(run), n, offset) == line_at(lines, n, offset),
    decreases n,
{
    if n > 0 {
        lemma_line_before(lines, run, (n - 1) as nat, offset);
    }
}

/// Emitting an instruction notes its line: looking the line of any of its bytes up gives it
/// back, and the bytes before keep theirs, as long as offsets fit in 32 bits and the table's
/// runs start inside the code.
pub proof fn law_line_of_emitted(
    chunk: ChunkView,
    byte: u8,
    operand: Seq<u8>,
    line: u32,
    offset: u32,
)
    requires
        chunk.code.len() < u32::MAX,
        forall|i: int|
            0 <= i < chunk.lines.len() ==> (#[trigger] chunk.lines[i]).0 < chunk.code.len(),
        offset < chunk.byte(byte, line).raw(operand).code.len(),
    ensures
        ({
            let after = chunk.byte(byte, line).raw(operand);
            line_at(after.lines, after.lines.len(), offset) == if offset >= chunk.code.len() {
                line
            } else {
                line_at(chunk.lines, chunk.lines.len(), offset)
            }
        }),
{
    let run = (chunk.code.len() as u32, line);
    lemma_line_before(chunk.lines, run, chunk.lines.len(), offset);
}

/// Emitting keeps the runs of lines in order, as long as offsets fit in 32 bits.
pub proof fn law_lines_stay_sorted(chunk: ChunkView, byte: u8, bytes: Seq<u8>, line: u32)
    requires
        chunk.lines_sorted(),
        chunk.code.len() + 1 < u32::MAX,
    ensures
        chunk.byte(byte, line).lines_sorted(),
        chunk.raw(bytes).lines_sorted(),
        chunk.placeholder(line).lines_sorted(),
{
}

/// Patching a jump leaves the lines alone.
pub proof fn law_patch_keeps_lines(chunk: ChunkView, at: nat)
    requires
        chunk.lines_sorted(),
        at + 2 <= chunk.code.len(),
    ensures
        chunk.patch(at).lines_sorted(),
        chunk.patch(at).lines == chunk.lines,
{
}

} // verus!
