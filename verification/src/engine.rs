//! The engine: lexer, parser and compiler in a row, and what a host sees of them.

use vstd::prelude::*;
use vstd::string::*;
use crate::ast::node::Program;
use crate::ast::tree::ProgramView;
use crate::compiler::chunk::{Chunk, ChunkView};
use crate::compiler::compiler;
use crate::compiler::compiler::Compiler;
use crate::lexer::laws;
use crate::lexer::lexer;
use crate::lexer::lexer::Lexer;
use crate::parser::error::{ErrorView, ParseError};
use crate::parser::parser;
use crate::parser::parser::{Parser, ParserState};
use crate::runtime::number_text;
use crate::runtime::number_text::number_display_string;
use crate::runtime::value::Value;
use crate::util::interner;
use crate::util::interner::{Interner, StringId};
use crate::util::json;
use crate::util::json::push_json;
use crate::util::text;
use crate::util::text::push_signed;

verus! {

/// Tag identifying a host class registered via `Engine::register_host_class`. Tags are unique
/// per `Engine`. The embedder uses the tag together with the payload of a host object to
/// recover the backing data (typically an index into a side table the embedder owns).
#[derive(Clone, Copy, PartialEq, Eq, Structural, Debug)]
pub struct HostTag(pub u32);

/// An object that the host made: one of a host class with its payload, or a function of the
/// host with its name.
#[derive(Clone, Copy, PartialEq, Eq, Structural, Debug)]
pub enum HostObject {
    Host { tag: u32, payload: u64 },
    Function { name: StringId },
}

/// Why a script has no result.
pub enum EngineError {
    ParseError(String),
    CompileError(String),
    RuntimeError(String),
}

/// Why a script has no result, as a value.
pub enum FailureView {
    ParseError(Seq<char>),
    CompileError(Seq<char>),
    RuntimeError(Seq<char>),
}

impl EngineError {
    /// The error as a value.
    pub open spec fn view(self) -> FailureView {
        match self {
            EngineError::ParseError(m) => FailureView::ParseError(m@),
            EngineError::CompileError(m) => FailureView::CompileError(m@),
            EngineError::RuntimeError(m) => FailureView::RuntimeError(m@),
        }
    }

    /// The text of the error.
    pub open spec fn text(&self) -> Seq<char> {
        match *self {
            EngineError::ParseError(m) => "SyntaxError: "@ + m@,
            EngineError::CompileError(m) => "CompileError: "@ + m@,
            EngineError::RuntimeError(m) => "RuntimeError: "@ + m@,
        }
    }

    /// The text of the error.
    pub fn to_string(&self) -> (shown: String)
        ensures
            shown@ == self.text(),
    {
        let mut shown: String = String::new();
        match self {
            EngineError::ParseError(m) => {
                shown.append("SyntaxError: ");
                shown.append(m.as_str());
            },
            EngineError::CompileError(m) => {
                shown.append("CompileError: ");
                shown.append(m.as_str());
            },
            EngineError::RuntimeError(m) => {
                shown.append("RuntimeError: ");
                shown.append(m.as_str());
            },
        }
        assert(shown@ =~= self.text());
        shown
    }
}

/// The engine. Interned strings, globals and host objects persist across scripts, so several
/// scripts can share a single global scope and the embedder can install its host bindings
/// once at startup.
pub struct Engine {
    interner: Interner,
    max_steps: u64,
    silent_console: bool,
    next_host_tag: u32,
    objects: Vec<HostObject>,
    globals: Vec<Value>,
    global_version: u32,
    global_this: Vec<(StringId, Value)>,
}

/// What an engine holds: interned strings, limits, host objects by tag and payload, the
/// globals by the identifier of their name, and the properties of `globalThis` in the order
/// in which they came.
pub struct EngineView {
    pub table: Seq<Seq<char>>,
    pub max_steps: u64,
    pub silent_console: bool,
    pub next_host_tag: u32,
    pub objects: Seq<HostObject>,
    pub globals: Seq<Value>,
    pub global_version: u32,
    pub global_this: Seq<(StringId, Value)>,
}

/// The texts of syntax errors from the i-th on, one per line.
pub open spec fn joined(errors: Seq<ErrorView>, i: int) -> Seq<char>
    decreases errors.len() - i,
{
    if i < 0 || i >= errors.len() {
        Seq::empty()
    } else {
        let line = error_line(errors[i]);
        if i + 1 < errors.len() {
            line + "\n"@ + joined(errors, i + 1)
        } else {
            line
        }
    }
}

/// The text of a syntax error.
pub open spec fn error_line(e: ErrorView) -> Seq<char> {
    "SyntaxError at "@ + text::decimal(e.span.start as nat) + ".."@ + text::decimal(
        e.span.end as nat,
    ) + ": "@ + e.message
}

/// What parsing a source text leads to: the interned strings behind it, and the program or
/// the text of the syntax errors.
pub open spec fn parsed(bytes: Seq<u8>, table: Seq<Seq<char>>) -> (
    Seq<Seq<char>>,
    Result<ProgramView, Seq<char>>,
) {
    let (read, tokens) = lexer::lexed(lexer::start_state(bytes, table));
    let start = ParserState {
        tokens,
        bytes,
        at: 0,
        table: read.table,
        base: read.table,
        errors: Seq::empty(),
    };
    match start.program() {
        (st, Err(error)) => (st.table, Err(error_line(error))),
        (st, Ok(program)) => if st.errors.len() > 0 {
            (st.table, Err(joined(st.errors, 0)))
        } else {
            (st.table, Ok(program))
        },
    }
}

/// Whether a chunk or a message is what compiling a program leads to, and the strings
/// those that are interned at the end.
pub open spec fn compiles_to(
    program: Program,
    before: Seq<Seq<char>>,
    result: Result<ChunkView, Seq<char>>,
    after: Seq<Seq<char>>,
) -> bool {
    match compiler::initial_state(before).compile_top_level(u32::MAX as nat, &program) {
        Ok(st) => result == Ok::<ChunkView, Seq<char>>(st.chunk) && after == st.table,
        Err(e) => result == Err::<ChunkView, Seq<char>>(e.message) && after == e.table,
    }
}

fn join_errors(errors: &Vec<ParseError>) -> (shown: String)
    ensures
        shown@ == joined(parser::error_views(errors@), 0),
{
    let ghost all = parser::error_views(errors@);
    let mut shown: String = String::new();
    let mut i: usize = 0;
    assert(shown@ + joined(all, 0) =~= joined(all, 0));
    while i < errors.len()
        invariant
            i <= errors@.len(),
            all == parser::error_views(errors@),
            shown@ + joined(all, i as int) == joined(all, 0),
        decreases errors@.len() - i,
    {
        let ghost before = shown@;
        shown.append(errors[i].to_string().as_str());
        assert(errors@[i as int].text() == error_line(all[i as int]));
        assert(errors@.len() == errors.len());
        if i + 1 < errors.len() {
            shown.append("\n");
        }
        i = i + 1;
        assert(shown@ + joined(all, i as int) =~= before + joined(all, i - 1));
    }
    assert(shown@ + joined(all, i as int) =~= shown@);
    shown
}

/// A value as a result.
pub open spec fn shown_value(value: Value, table: Seq<Seq<char>>) -> Seq<char> {
    match value {
        Value::Undefined => "undefined"@,
        Value::Null => "null"@,
        Value::Bool(b) => if b {
            "true"@
        } else {
            "false"@
        },
        Value::Int(i) => text::signed_decimal(i as int),
        Value::Number(bits) => number_text::display_text(bits),
        Value::Str(id) => interner::text_of(table, id),
        Value::Object(_) => "[object Object]"@,
    }
}

/// Globals with a value put at a place, filled up with `null`.
pub open spec fn placed(globals: Seq<Value>, at: int, value: Value) -> Seq<Value> {
    if at < globals.len() {
        globals.update(at, value)
    } else {
        (globals + Seq::new((at - globals.len()) as nat, |i: int| Value::Null)).push(value)
    }
}

impl View for Engine {
    type V = EngineView;

    closed spec fn view(&self) -> EngineView {
        EngineView {
            table: self.interner@,
            max_steps: self.max_steps,
            silent_console: self.silent_console,
            next_host_tag: self.next_host_tag,
            objects: self.objects@,
            globals: self.globals@,
            global_version: self.global_version,
            global_this: self.global_this@,
        }
    }
}

impl Engine {
    /// An engine without limits and without host bindings.
    pub fn new() -> (engine: Self)
        ensures
            engine@ == (EngineView {
                table: seq![Seq::<char>::empty()],
                max_steps: 0,
                silent_console: false,
                next_host_tag: 1,
                objects: Seq::empty(),
                globals: Seq::empty(),
                global_version: 0,
                global_this: Seq::empty(),
            }),
    {
        let engine = Engine {
            interner: Interner::new(),
            max_steps: 0,
            silent_console: false,
            next_host_tag: 1,
            objects: Vec::new(),
            globals: Vec::new(),
            global_version: 0,
            global_this: Vec::new(),
        };
        assert(engine.objects@ =~= Seq::empty());
        assert(engine.globals@ =~= Seq::empty());
        assert(engine.global_this@ =~= Seq::empty());
        engine
    }

    /// Set a fuel limit (max instructions). 0 = unlimited (the default).
    pub fn set_max_steps(&mut self, n: u64)
        ensures
            final(self)@ == (EngineView { max_steps: n, ..old(self)@ }),
    {
        self.max_steps = n;
    }

    /// The fuel limit.
    pub fn max_steps(&self) -> (n: u64)
        ensures
            n == self@.max_steps,
    {
        self.max_steps
    }

    /// Suppress what `console.log/warn/error` write. The output is still captured.
    pub fn set_silent_console(&mut self, silent: bool)
        ensures
            final(self)@ == (EngineView { silent_console: silent, ..old(self)@ }),
    {
        self.silent_console = silent;
    }

    /// Whether console output is suppressed.
    pub fn silent_console(&self) -> (silent: bool)
        ensures
            silent == self@.silent_console,
    {
        self.silent_console
    }

    /// Allocate a fresh tag identifying a host class. Tags are opaque integers: store the
    /// returned tag and pass it back into `alloc_host_object`.
    pub fn register_host_class(&mut self, _name: &str) -> (tag: HostTag)
        requires
            old(self)@.next_host_tag < u32::MAX,
        ensures
            tag == HostTag(old(self)@.next_host_tag),
            final(self)@ == (EngineView {
                next_host_tag: (old(self)@.next_host_tag + 1) as u32,
                ..old(self)@
            }),
    {
        let tag = HostTag(self.next_host_tag);
        self.next_host_tag = self.next_host_tag + 1;
        tag
    }

    /// Allocate an object with a host tag and a payload. The payload is an opaque 64-bit
    /// handle interpreted by the embedder.
    pub fn alloc_host_object(&mut self, tag: HostTag, payload: u64) -> (value: Value)
        ensures
            old(self)@.objects.len() <= usize::MAX,
            value == Value::Object(old(self)@.objects.len() as usize),
            payload_of(final(self)@.objects, value) == Some((tag, payload)),
            final(self)@ == (EngineView {
                objects: old(self)@.objects.push(HostObject::Host { tag: tag.0, payload }),
                ..old(self)@
            }),
    {
        let id: usize = self.objects.len();
        self.objects.push(HostObject::Host { tag: tag.0, payload });
        Value::object_id(id)
    }

    /// Recover the tag and the payload of a host object. Returns `None` for any value that
    /// isn't one.
    pub fn host_payload(&self, value: Value) -> (found: Option<(HostTag, u64)>)
        ensures
            found == payload_of(self@.objects, value),
    {
        match value.as_object_id() {
            Some(id) => {
                if id < self.objects.len() {
                    match self.objects[id] {
                        HostObject::Host { tag, payload } => Some((HostTag(tag), payload)),
                        HostObject::Function { .. } => None,
                    }
                } else {
                    None
                }
            },
            None => None,
        }
    }

    /// Register a host function as a global, callable from scripts by its name. The property
    /// of that name of `globalThis` is the same value. The embedder finds the function again
    /// by the object that the value given back refers to.
    pub fn register_host_fn(&mut self, name: &str) -> (value: Value)
        ensures
            old(self)@.objects.len() <= usize::MAX,
            value == Value::Object(old(self)@.objects.len() as usize),
            final(self)@ == ({
                let before = old(self)@;
                let id = interner::id_of(before.table, name@);
                EngineView {
                    table: interner::interned(before.table, name@),
                    objects: before.objects.push(HostObject::Function { name: id }),
                    globals: placed(before.globals, id.0 as int, value),
                    global_version: before.global_version.wrapping_add(1),
                    global_this: with_property(before.global_this, id, value),
                    ..before
                }
            }),
            ({
                let id = interner::id_of(old(self)@.table, name@);
                &&& final(self)@.globals[id.0 as int] == value
                &&& property_of(final(self)@.global_this, id) == Some(value)
            }),
    {
        let id: StringId = self.interner.intern(name);
        let value = Value::object_id(self.objects.len());
        self.objects.push(HostObject::Function { name: id });
        self.define_global(name, value);
        set_property(&mut self.global_this, id, value);
        proof {
            interner::law_intern_idempotent(old(self)@.table, name@);
            law_property_set(old(self)@.global_this, id, value, id);
        }
        value
    }

    /// The value of a property of `globalThis`.
    pub fn global_this_property(&self, name: StringId) -> (value: Option<Value>)
        ensures
            value == property_of(self@.global_this, name),
    {
        let at: usize = find_property(&self.global_this, name);
        if at < self.global_this.len() {
            Some(self.global_this[at].1)
        } else {
            None
        }
    }

    /// The host object that a value refers to.
    pub fn host_object(&self, value: Value) -> (found: Option<HostObject>)
        ensures
            found == match value {
                Value::Object(id) => if id < self@.objects.len() {
                    Some(self@.objects[id as int])
                } else {
                    None
                },
                _ => None,
            },
    {
        match value.as_object_id() {
            Some(id) => {
                if id < self.objects.len() {
                    Some(self.objects[id])
                } else {
                    None
                }
            },
            None => None,
        }
    }

    /// Define a global by its name.
    pub fn define_global(&mut self, name: &str, value: Value)
        ensures
            final(self)@ == ({
                let before = old(self)@;
                let id = interner::id_of(before.table, name@);
                EngineView {
                    table: interner::interned(before.table, name@),
                    globals: placed(before.globals, id.0 as int, value),
                    global_version: before.global_version.wrapping_add(1),
                    ..before
                }
            }),
    {
        let ghost start = self.globals@;
        let id: StringId = self.interner.intern(name);
        let at: usize = id.0 as usize;
        if at < self.globals.len() {
            self.globals.set(at, value);
        } else {
            while self.globals.len() < at
                invariant
                    start.len() <= self.globals@.len() <= at,
                    self.globals@ == start + Seq::new(
                        (self.globals@.len() - start.len()) as nat,
                        |i: int| Value::Null,
                    ),
                    self.interner@ == interner::interned(old(self).interner@, name@),
                    self.max_steps == old(self).max_steps,
                    self.silent_console == old(self).silent_console,
                    self.next_host_tag == old(self).next_host_tag,
                    self.objects == old(self).objects,
                    self.global_version == old(self).global_version,
                    self.global_this == old(self).global_this,
                decreases at - self.globals@.len(),
            {
                let ghost before = self.globals@;
                self.globals.push(Value::null());
                assert(self.globals@ =~= start + Seq::new(
                    (before.len() + 1 - start.len()) as nat,
                    |i: int| Value::Null,
                ));
            }
            self.globals.push(value);
        }
        self.global_version = self.global_version.wrapping_add(1);
    }

    /// The value of a global by the identifier of its name.
    pub fn global(&self, name: StringId) -> (value: Option<Value>)
        ensures
            value == if name.0 < self@.globals.len() {
                Some(self@.globals[name.0 as int])
            } else {
                None
            },
    {
        if (name.0 as usize) < self.globals.len() {
            Some(self.globals[name.0 as usize])
        } else {
            None
        }
    }

    /// Parse a script: the first half of evaluating it.
    pub fn parse_source(&mut self, source: &str) -> (result: Result<Program, EngineError>)
        ensures
            ({
                let (table, outcome) = parsed(source.spec_bytes(), old(self)@.table);
                &&& final(self)@ == (EngineView { table, ..old(self)@ })
                &&& match outcome {
                    Ok(tree) => result is Ok && result->Ok_0@ == tree,
                    Err(message) => result is Err && result->Err_0@ == FailureView::ParseError(
                        message,
                    ),
                }
            }),
            old(self)@.table.is_prefix_of(final(self)@.table),
    {
        let mut lexer = Lexer::new(source, self.take_interner());
        let tokens = lexer.tokenize();
        let mut parser = Parser::new(tokens, source, lexer.finish());
        let result = parser.parse_program();
        let (interner, errors) = parser.finish();
        proof {
            reveal(ParserState::kept);
            let start = lexer::start_state(source.spec_bytes(), old(self)@.table);
            laws::law_stream_keeps_strings(start);
            let read = lexer::lexed(start).0.table;
            assert(old(self)@.table =~= interner@.subrange(0, old(self)@.table.len() as int));
        }
        self.interner = interner;
        match result {
            Ok(program) => {
                if errors.len() > 0 {
                    Err(EngineError::ParseError(join_errors(&errors)))
                } else {
                    Ok(program)
                }
            },
            Err(error) => {
                let message: String = error.to_string();
                assert(error.text() == error_line(error@));
                Err(EngineError::ParseError(message))
            },
        }
    }

    fn take_interner(&mut self) -> (taken: Interner)
        ensures
            taken@ == old(self)@.table,
            final(self)@ == (EngineView { table: seq![Seq::<char>::empty()], ..old(self)@ }),
    {
        let mut taken = Interner::new();
        std::mem::swap(&mut taken, &mut self.interner);
        taken
    }

    /// Compile a parsed script. After a compile error the strings that were interned on the
    /// way stay interned.
    pub fn compile_parsed(&mut self, program: &Program) -> (result: Result<Chunk, EngineError>)
        ensures
            result matches Err(error) ==> error@ is CompileError,
            compiles_to(
                *program,
                old(self)@.table,
                match result {
                    Ok(chunk) => Ok(chunk@),
                    Err(error) => Err(error@->CompileError_0),
                },
                final(self)@.table,
            ),
            final(self)@ == (EngineView { table: final(self)@.table, ..old(self)@ }),
            result matches Ok(chunk) ==> chunk@.sound(),
            old(self)@.table.is_prefix_of(final(self)@.table),
    {
        let compiler = Compiler::new(self.take_interner());
        let (result, interner) = compiler.compile_program(program);
        self.interner = interner;
        match result {
            Ok(chunk) => Ok(chunk),
            Err(message) => Err(EngineError::CompileError(message)),
        }
    }

    /// Turn a script into bytecode: what evaluating it does before the bytecode runs.
    pub fn compile_source(&mut self, source: &str) -> (result: Result<Chunk, EngineError>)
        ensures
            ({
                let (table, outcome) = parsed(source.spec_bytes(), old(self)@.table);
                match outcome {
                    Err(message) => result is Err && result->Err_0@ == FailureView::ParseError(
                        message,
                    ) && final(self)@ == (EngineView { table, ..old(self)@ }),
                    Ok(tree) => (result matches Err(error) ==> error@ is CompileError) && exists|
                        program: Program,
                    | #[trigger]
                        program@ == tree && compiles_to(
                            program,
                            table,
                            match result {
                                Ok(chunk) => Ok(chunk@),
                                Err(error) => Err(error@->CompileError_0),
                            },
                            final(self)@.table,
                        ),
                }
            }),
            final(self)@ == (EngineView { table: final(self)@.table, ..old(self)@ }),
            result matches Ok(chunk) ==> chunk@.sound(),
            old(self)@.table.is_prefix_of(final(self)@.table),
    {
        match self.parse_source(source) {
            Ok(program) => {
                let ghost read = self@.table;
                let result = self.compile_parsed(&program);
                assert(old(self)@.table =~= self@.table.subrange(0, old(self)@.table.len() as int));
                result
            },
            Err(error) => Err(error),
        }
    }

    /// The interned strings.
    pub fn interner(&self) -> (interner: &Interner)
        ensures
            interner@ == self@.table,
    {
        &self.interner
    }

    /// Format a value as a display string.
    pub fn display_value(&self, value: &Value) -> (shown: String)
        ensures
            shown@ == shown_value(*value, self@.table),
    {
        match *value {
            Value::Undefined => "undefined".to_owned(),
            Value::Null => "null".to_owned(),
            Value::Bool(b) => if b {
                "true".to_owned()
            } else {
                "false".to_owned()
            },
            Value::Int(i) => {
                let mut shown: String = String::new();
                push_signed(&mut shown, i as i64);
                assert(shown@ =~= text::signed_decimal(i as int));
                shown
            },
            Value::Number(bits) => number_display_string(bits),
            Value::Str(id) => self.interner.text(id).to_owned(),
            Value::Object(_) => "[object Object]".to_owned(),
        }
    }

    /// The text of how a script ended: its result, or the error that it ended with.
    pub fn display_outcome(&self, outcome: &Result<Value, String>) -> (shown: String)
        ensures
            shown@ == match *outcome {
                Ok(value) => shown_value(value, self@.table),
                Err(error) => "Error: "@ + error@,
            },
    {
        match outcome {
            Ok(value) => self.display_value(value),
            Err(error) => {
                let mut shown: String = "Error: ".to_owned();
                shown.append(error.as_str());
                shown
            },
        }
    }
}

impl Default for Engine {
    fn default() -> (engine: Self)
        ensures
            engine@ == (EngineView {
                table: seq![Seq::<char>::empty()],
                max_steps: 0,
                silent_console: false,
                next_host_tag: 1,
                objects: Seq::empty(),
                globals: Seq::empty(),
                global_version: 0,
                global_this: Seq::empty(),
            }),
    {
        Self::new()
    }
}

/// The tag and the payload of a host object.
pub open spec fn payload_of(objects: Seq<HostObject>, value: Value) -> Option<(HostTag, u64)> {
    match value {
        Value::Object(id) => if id < objects.len() {
            match objects[id as int] {
                HostObject::Host { tag, payload } => Some((HostTag(tag), payload)),
                HostObject::Function { .. } => None,
            }
        } else {
            None
        },
        _ => None,
    }
}

/// The first position at or after `from` of a property, or the number of properties.
pub open spec fn property_at(
    properties: Seq<(StringId, Value)>,
    name: StringId,
    from: nat,
) -> nat
    decreases properties.len() - from,
{
    if from >= properties.len() {
        properties.len()
    } else if properties[from as int].0 == name {
        from
    } else {
        property_at(properties, name, from + 1)
    }
}

/// The value of a property.
pub open spec fn property_of(properties: Seq<(StringId, Value)>, name: StringId) -> Option<Value> {
    let at = property_at(properties, name, 0);
    if at < properties.len() {
        Some(properties[at as int].1)
    } else {
        None
    }
}

/// Properties with one set: in its place, or behind the others.
pub open spec fn with_property(
    properties: Seq<(StringId, Value)>,
    name: StringId,
    value: Value,
) -> Seq<(StringId, Value)> {
    let at = property_at(properties, name, 0);
    if at < properties.len() {
        properties.update(at as int, (name, value))
    } else {
        properties.push((name, value))
    }
}

proof fn lemma_property_at(properties: Seq<(StringId, Value)>, name: StringId, from: nat)
    requires
        from <= properties.len(),
    ensures
        from <= property_at(properties, name, from) <= properties.len(),
        property_at(properties, name, from) < properties.len() ==> properties[property_at(
            properties,
            name,
            from,
        ) as int].0 == name,
    decreases properties.len() - from,
{
    if from < properties.len() && properties[from as int].0 != name {
        lemma_property_at(properties, name, from + 1);
    }
}

proof fn lemma_property_at_set(
    properties: Seq<(StringId, Value)>,
    name: StringId,
    value: Value,
    other: StringId,
    from: nat,
)
    requires
        from <= properties.len(),
    ensures
        ({
            let after = with_property(properties, name, value);
            let place = property_at(properties, other, from);
            property_at(after, other, from) == if place < properties.len() || other == name {
                place
            } else {
                after.len()
            }
        }),
    decreases properties.len() - from,
{
    let after = with_property(properties, name, value);
    lemma_property_at(properties, name, 0);
    if from < properties.len() {
        assert(after[from as int].0 == properties[from as int].0);
        if properties[from as int].0 != other {
            lemma_property_at_set(properties, name, value, other, from + 1);
        }
    } else {
        reveal_with_fuel(property_at, 2);
    }
}

/// A property that was set has its value, and the others keep theirs.
pub proof fn law_property_set(
    properties: Seq<(StringId, Value)>,
    name: StringId,
    value: Value,
    other: StringId,
)
    ensures
        property_of(with_property(properties, name, value), other) == if other == name {
            Some(value)
        } else {
            property_of(properties, other)
        },
{
    lemma_property_at(properties, other, 0);
    lemma_property_at(properties, name, 0);
    lemma_property_at_set(properties, name, value, other, 0);
}

fn find_property(properties: &Vec<(StringId, Value)>, name: StringId) -> (at: usize)
    ensures
        at == property_at(properties@, name, 0),
        at <= properties@.len(),
{
    let mut i: usize = 0;
    while i < properties.len()
        invariant
            i <= properties@.len(),
            property_at(properties@, name, 0) == property_at(properties@, name, i as nat),
        decreases properties@.len() - i,
    {
        if properties[i].0 == name {
            return i;
        }
        i = i + 1;
    }
    i
}

fn set_property(properties: &mut Vec<(StringId, Value)>, name: StringId, value: Value)
    ensures
        final(properties)@ == with_property(old(properties)@, name, value),
{
    let at: usize = find_property(properties, name);
    if at < properties.len() {
        properties.set(at, (name, value));
    } else {
        properties.push((name, value));
    }
}

/// What a host object gives back stays the same when further objects are allocated. A value
/// that is no object gives nothing back.
pub proof fn law_host_payload(objects: Seq<HostObject>, value: Value, later: Seq<HostObject>)
    ensures
        payload_of(objects, value) is Some ==> payload_of(objects + later, value) == payload_of(
            objects,
            value,
        ),
        !(value is Object) ==> payload_of(objects, value) is None,
{
}

/// A global that was defined has its value, and the others keep theirs.
pub proof fn law_global_placed(globals: Seq<Value>, at: int, value: Value, other: int)
    requires
        0 <= at,
    ensures
        placed(globals, at, value)[at] == value,
        0 <= other < globals.len() && other != at ==> placed(globals, at, value)[other]
            == globals[other],
{
}

/// The first lines of output in JSON.
pub open spec fn json_lines(lines: Seq<String>, n: nat) -> Seq<char>
    decreases n,
{
    if n == 0 || n > lines.len() {
        Seq::empty()
    } else {
        json_lines(lines, (n - 1) as nat) + (if n > 1 {
            ","@
        } else {
            Seq::empty()
        }) + "\""@ + json::json_text(lines[n - 1]@) + "\""@
    }
}

proof fn lemma_lines_printable(lines: Seq<String>, n: nat)
    ensures
        json::printable(json_lines(lines, n)),
    decreases n,
{
    if 0 < n <= lines.len() {
        lemma_lines_printable(lines, (n - 1) as nat);
        json::law_json_printable(lines[n - 1]@);
        reveal_strlit(",");
        reveal_strlit("\"");
    }
}

/// The result of a script and its console output as a JSON text:
/// {"result": "...", "output": ["line1", "line2", ...]}.
pub fn json_report(result: &str, output: &Vec<String>) -> (out: String)
    ensures
        out@ == "{\"result\":\""@ + json::json_text(result@) + "\",\"output\":["@ + json_lines(
            output@,
            output@.len(),
        ) + "]}"@,
        json::printable(out@),
{
    let mut out: String = "{\"result\":\"".to_owned();
    push_json(&mut out, result);
    out.append("\",\"output\":[");
    let ghost head = out@;
    let mut i: usize = 0;
    assert(out@ =~= head + json_lines(output@, 0));
    while i < output.len()
        invariant
            i <= output@.len(),
            out@ == head + json_lines(output@, i as nat),
        decreases output@.len() - i,
    {
        let ghost before = out@;
        if i > 0 {
            out.append(",");
        }
        out.append("\"");
        push_json(&mut out, output[i].as_str());
        out.append("\"");
        i = i + 1;
        assert(out@ =~= head + json_lines(output@, i as nat));
    }
    out.append("]}");
    proof {
        reveal_strlit("{\"result\":\"");
        reveal_strlit("\",\"output\":[");
        reveal_strlit("]}");
        lemma_lines_printable(output@, output@.len());
    }
    out
}

} // verus!
