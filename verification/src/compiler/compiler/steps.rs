//! Steps made of several primitive ones, child chunks, and the messages of compile errors.

use vstd::prelude::*;
use crate::util::interner;
use crate::util::text;
use crate::ast::node::{Expression, Statement};
use crate::compiler::chunk::{
    Chunk, ChunkFlags, ChunkView, FLAG_ARROW, FLAG_ASYNC, FLAG_GENERATOR, FLAG_STRICT,
};
use crate::compiler::compiler::state::{CState, Failure};
use crate::compiler::compiler::{Compiler, FinallyEntry};
use crate::compiler::opcode::OpCode;
use crate::util::interner::StringId;
use crate::util::text::push_decimal;

verus! {

/// A fallible step ended as described: in the state described, or with the failure
/// described.
pub open spec fn outcome<'p>(
    r: Result<(), String>,
    end: CState<'p>,
    described: Result<CState<'p>, Failure>,
) -> bool {
    match described {
        Ok(st) => r is Ok && end == st,
        Err(e) => r is Err && e.explains(r->Err_0@, end.table),
    }
}

/// A message that ends with a source offset.
pub open spec fn offset_message_text(prefix: Seq<char>, line: u32) -> Seq<char> {
    prefix + text::decimal(line as nat)
}

/// A message that ends with a source offset.
pub fn offset_message(prefix: &str, line: u32) -> (message: String)
    ensures
        message@ == offset_message_text(prefix@, line),
{
    let mut message: String = prefix.to_owned();
    push_decimal(&mut message, line as u64);
    message
}

/// A message as it stands.
pub open spec fn plain_message_text(text: Seq<char>) -> Seq<char> {
    text
}

/// A message as it stands.
pub fn plain_message(text: &str) -> (message: String)
    ensures
        message@ == plain_message_text(text@),
{
    text.to_owned()
}

/// The message on `eval` or `arguments` used as a name in strict code.
pub open spec fn restricted_name_text(what: Seq<char>) -> Seq<char> {
    "Unexpected eval or arguments in strict mode: "@ + what
}

/// The message on `eval` or `arguments` used as a name in strict code.
pub fn restricted_name(what: &str) -> (message: String)
    ensures
        message@ == restricted_name_text(what@),
{
    let mut message: String = "Unexpected eval or arguments in strict mode: ".to_owned();
    message.append(what);
    message
}

/// The message on a program that is nested too deeply.
pub open spec fn too_deep_text() -> Seq<char> {
    "program nested too deeply"@
}

/// The message on a program that is nested too deeply.
pub fn too_deep() -> (message: String)
    ensures
        message@ == too_deep_text(),
{
    "program nested too deeply".to_owned()
}

/// Whether the directives from statement `i` on hold "use strict". Directives are the
/// string statements that a body starts with.
pub open spec fn use_strict(table: Seq<Seq<char>>, body: Seq<Statement>, i: nat) -> bool
    decreases body.len() - i,
{
    if i >= body.len() {
        false
    } else {
        match body[i as int] {
            Statement::Expression(e) => match e.expression {
                Expression::StringLiteral(s) => interner::text_of(table, s.value) == "use strict"@
                    || use_strict(table, body, i + 1),
                _ => false,
            },
            _ => false,
        }
    }
}

/// The flags of a function.
pub open spec fn flags_of_function(is_async: bool, is_generator: bool, strict: bool) -> ChunkFlags {
    let f0 = ChunkFlags::none();
    let f1 = if is_async {
        f0.with(FLAG_ASYNC)
    } else {
        f0
    };
    let f2 = if is_generator {
        f1.with(FLAG_GENERATOR)
    } else {
        f1
    };
    if strict {
        f2.with(FLAG_STRICT)
    } else {
        f2
    }
}

/// The flags of a function.
pub fn function_flags(is_async: bool, is_generator: bool, strict: bool) -> (flags: ChunkFlags)
    ensures
        flags == flags_of_function(is_async, is_generator, strict),
{
    let mut flags = ChunkFlags::empty();
    if is_async {
        flags.insert(FLAG_ASYNC);
    }
    if is_generator {
        flags.insert(FLAG_GENERATOR);
    }
    if strict {
        flags.insert(FLAG_STRICT);
    }
    flags
}

/// The flags of an arrow function.
pub open spec fn flags_of_arrow(is_async: bool, strict: bool) -> ChunkFlags {
    let f0 = ChunkFlags::none().with(FLAG_ARROW);
    let f1 = if is_async {
        f0.with(FLAG_ASYNC)
    } else {
        f0
    };
    if strict {
        f1.with(FLAG_STRICT)
    } else {
        f1
    }
}

/// The flags of an arrow function.
pub fn arrow_flags(is_async: bool, strict: bool) -> (flags: ChunkFlags)
    ensures
        flags == flags_of_arrow(is_async, strict),
{
    let mut flags = ChunkFlags::empty();
    flags.insert(FLAG_ARROW);
    if is_async {
        flags.insert(FLAG_ASYNC);
    }
    if strict {
        flags.insert(FLAG_STRICT);
    }
    flags
}

/// The chunk of a function before any of its code is emitted.
pub open spec fn fresh_chunk(
    name: StringId,
    source_name: StringId,
    param_count: u16,
    formal_length: u16,
    flags: ChunkFlags,
    param_names: Seq<StringId>,
    lexical_names: Seq<StringId>,
    simple_params: bool,
) -> ChunkView {
    ChunkView {
        param_count,
        formal_length,
        flags,
        param_names,
        lexical_names,
        simple_params,
        ..ChunkView::empty(name, source_name)
    }
}

/// The chunk of a function before any of its code is emitted.
pub fn child_chunk(
    name: StringId,
    source_name: StringId,
    param_count: u16,
    formal_length: u16,
    flags: ChunkFlags,
    param_names: Vec<StringId>,
    lexical_names: Vec<StringId>,
    simple_params: bool,
) -> (chunk: Chunk)
    ensures
        chunk@ == fresh_chunk(
            name,
            source_name,
            param_count,
            formal_length,
            flags,
            param_names@,
            lexical_names@,
            simple_params,
        ),
{
    let mut chunk = Chunk::new(name, source_name);
    chunk.param_count = param_count;
    chunk.formal_length = formal_length;
    chunk.flags = flags;
    chunk.param_names = param_names;
    chunk.lexical_names = lexical_names;
    chunk.simple_params = simple_params;
    chunk
}

/// A chunk under the name that its surroundings suggest.
pub open spec fn renamed(chunk: ChunkView, hint: Option<StringId>) -> ChunkView {
    match hint {
        Some(name) => ChunkView { name, ..chunk },
        None => chunk,
    }
}

/// A chunk under the name that its surroundings suggest.
pub fn renamed_chunk(chunk: Chunk, hint: Option<StringId>) -> (named: Chunk)
    ensures
        named@ == renamed(chunk@, hint),
{
    let mut named = chunk;
    match hint {
        Some(name) => {
            named.name = name;
        },
        None => {},
    }
    named
}

/// The try level at absolute depth `at` among levels detached from depth `base` on.
pub open spec fn level_at<'p>(
    levels: Seq<FinallyEntry<'p>>,
    base: usize,
    at: usize,
) -> FinallyEntry<
    'p,
> {
    if base <= at && at - base < levels.len() {
        levels[at - base]
    } else {
        FinallyEntry { body: None, active: false }
    }
}

/// The try level at absolute depth `at` among levels detached from depth `base` on.
pub fn level_of<'p>(levels: &Vec<FinallyEntry<'p>>, base: usize, at: usize) -> (level: FinallyEntry<
    'p,
>)
    ensures
        level == level_at(levels@, base, at),
{
    if base <= at && at - base < levels.len() {
        levels[at - base]
    } else {
        FinallyEntry { body: None, active: false }
    }
}

/// The absolute depth behind the last of the levels detached from depth `base` on.
pub open spec fn depth_behind<'p>(levels: Seq<FinallyEntry<'p>>, base: usize) -> usize {
    base.wrapping_add(levels.len() as usize)
}

/// The absolute depth behind the last of the levels detached from depth `base` on.
pub fn level_end<'p>(levels: &Vec<FinallyEntry<'p>>, base: usize) -> (end: usize)
    ensures
        end == depth_behind(levels@, base),
{
    base.wrapping_add(levels.len())
}

impl<'p> CState<'p> {
    /// Emit an opcode `n` times.
    pub open spec fn emit_repeated(self, op: OpCode, n: usize, line: u32) -> CState<'p>
        decreases n,
    {
        if n == 0 {
            self
        } else {
            self.op(op, line).emit_repeated(op, (n - 1) as usize, line)
        }
    }

    /// Skip `n` values of the iterator on the stack.
    pub open spec fn skip_iterated(self, n: usize, line: u32) -> CState<'p>
        decreases n,
    {
        if n == 0 {
            self
        } else {
            self.op(OpCode::Dup, line).op(OpCode::IteratorNext, line).op(
                OpCode::Pop,
                line,
            ).skip_iterated((n - 1) as usize, line)
        }
    }

    /// Whether a body starts with a "use strict" directive.
    pub open spec fn has_use_strict_directive(self, body: &Vec<Statement>) -> bool {
        use_strict(self.table, body@, 0)
    }
}

impl<'p> Compiler<'p> {
    /// Emit an opcode `n` times.
    pub(crate) fn emit_repeated(&mut self, op: OpCode, n: usize, line: u32)
        requires
            old(self).st().good(),
        ensures
            final(self).st() == old(self).st().emit_repeated(op, n, line),
            final(self).st().depths() == old(self).st().depths(),
            final(self).st().good(),
            final(self).st().base == old(self).st().base,
    {
        let mut left: usize = n;
        while left > 0
            invariant
                self.st().good(),
                self.st().depths() == old(self).st().depths(),
                self.st().base == old(self).st().base,
                self.st().emit_repeated(
                    op,
                    left,
                    line,
                ) == old(self).st().emit_repeated(op, n, line),
            decreases left,
        {
            self.op(op, line);
            left = left - 1;
        }
    }

    /// Skip `n` values of the iterator on the stack.
    pub(crate) fn skip_iterated(&mut self, n: usize, line: u32)
        requires
            old(self).st().good(),
        ensures
            final(self).st() == old(self).st().skip_iterated(n, line),
            final(self).st().depths() == old(self).st().depths(),
            final(self).st().good(),
            final(self).st().base == old(self).st().base,
    {
        let mut left: usize = n;
        while left > 0
            invariant
                self.st().good(),
                self.st().depths() == old(self).st().depths(),
                self.st().base == old(self).st().base,
                self.st().skip_iterated(left, line) == old(self).st().skip_iterated(n, line),
            decreases left,
        {
            self.op(OpCode::Dup, line);
            self.op(OpCode::IteratorNext, line);
            self.op(OpCode::Pop, line);
            left = left - 1;
        }
    }

    /// Whether a body starts with a "use strict" directive.
    pub(crate) fn has_use_strict_directive(&self, body: &Vec<Statement>) -> (strict: bool)
        ensures
            strict == self.st().has_use_strict_directive(body),
    {
        proof {
            reveal(CState::name_is);
        }
        let mut i: usize = 0;
        while i < body.len()
            invariant
                i <= body@.len(),
                use_strict(self.st().table, body@, 0) == use_strict(
                    self.st().table,
                    body@,
                    i as nat,
                ),
            decreases body@.len() - i,
        {
            proof {
                reveal(CState::name_is);
            }
            match &body[i] {
                Statement::Expression(e) => match &e.expression {
                    Expression::StringLiteral(s) => {
                        if self.name_is(s.value, "use strict") {
                            return true;
                        }
                    },
                    _ => {
                        return false;
                    },
                },
                _ => {
                    return false;
                },
            }
            i = i + 1;
        }
        false
    }
}

} // verus!
