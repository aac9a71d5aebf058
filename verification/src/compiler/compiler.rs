//! The bytecode compiler: from syntax trees to chunks.

use vstd::prelude::*;
use crate::ast::node::{Program, Statement};
use crate::compiler::chunk::{Chunk, ChunkView, UpvalueDescriptor};
use crate::compiler::compiler::state::CState;
use crate::util::interner;
use crate::util::interner::{Interner, StringId};
use crate::util::text;
use crate::util::text::push_decimal;

pub mod expressions;
pub mod functions;
pub mod patterns;
pub mod program;
pub mod scopes;
pub mod state;
pub mod statements;
pub mod steps;

verus! {

/// A compile error with the source offset at which it was found.
#[derive(Debug)]
pub struct CompileError {
    pub message: String,
    pub offset: u32,
}

impl CompileError {
    /// The text of the error.
    pub open spec fn text(&self) -> Seq<char> {
        "CompileError at "@ + text::decimal(self.offset as nat) + ": "@ + self.message@
    }

    /// The text of the error.
    pub fn to_string(&self) -> (shown: String)
        ensures
            shown@ == self.text(),
    {
        let mut shown: String = "CompileError at ".to_owned();
        push_decimal(&mut shown, self.offset as u64);
        shown.append(": ");
        shown.append(self.message.as_str());
        shown
    }
}

/// A local variable of the function being compiled.
#[derive(Clone, Copy, PartialEq, Eq, Structural, Debug)]
pub struct Local {
    pub name: StringId,
    pub depth: u32,
    pub initialized: bool,
    pub captured: bool,
    pub is_const: bool,
    pub is_fn_self_name: bool,
}

/// One enclosing function scope on the capture chain. Holds that function's
/// locals and upvalues so a nested function can both mark an outer local
/// captured and thread an upvalue through every intermediate function.
pub struct EnclosingFrame {
    pub locals: Vec<Local>,
    pub upvalues: Vec<UpvalueDescriptor>,
}

/// What an enclosing function scope holds.
#[verifier::ext_equal]
pub struct FrameView {
    pub locals: Seq<Local>,
    pub upvalues: Seq<UpvalueDescriptor>,
}

/// What an enclosing function scope holds.
pub open spec fn frame_view(frame: EnclosingFrame) -> FrameView {
    FrameView { locals: frame.locals@, upvalues: frame.upvalues@ }
}

/// What the enclosing function scopes hold.
pub open spec fn frames_view(frames: Seq<EnclosingFrame>) -> Seq<FrameView> {
    Seq::new(frames.len(), |i: int| frame_view(frames[i]))
}

/// An open loop, switch or labelled statement.
pub struct LoopCtx {
    /// Where `continue` jumps to.
    pub continue_target: usize,
    /// Break jumps to be patched at the end.
    pub break_patches: Vec<usize>,
    /// Continue jumps to be patched once the continue target is known.
    pub continue_patches: Vec<usize>,
    /// Scope depth when the loop was entered, so as to know how many locals to pop.
    pub scope_depth: u32,
    /// Optional label for labeled statements.
    pub label: Option<StringId>,
    /// True if the continue target comes after the body.
    pub has_deferred_continue: bool,
    /// Number of active try handlers when this loop was entered.
    pub try_depth: usize,
    /// Number of enclosing `with` blocks when this loop was entered, so a
    /// `break`/`continue` can emit WithExit for each `with` it jumps out of.
    pub with_depth: usize,
    /// True for a `switch` context, which accepts `break` but is not a valid
    /// `continue` target.
    pub is_switch: bool,
    /// The slot of the iterator of a for-of loop.
    pub for_of_iter_slot: Option<u16>,
}

/// What is known of an open loop, switch or labelled statement.
#[verifier::ext_equal]
pub struct LoopView {
    pub continue_target: usize,
    pub break_patches: Seq<usize>,
    pub continue_patches: Seq<usize>,
    pub scope_depth: u32,
    pub label: Option<StringId>,
    pub has_deferred_continue: bool,
    pub try_depth: usize,
    pub with_depth: usize,
    pub is_switch: bool,
    pub for_of_iter_slot: Option<u16>,
}

/// What is known of an open loop.
pub open spec fn loop_view(ctx: LoopCtx) -> LoopView {
    LoopView {
        continue_target: ctx.continue_target,
        break_patches: ctx.break_patches@,
        continue_patches: ctx.continue_patches@,
        scope_depth: ctx.scope_depth,
        label: ctx.label,
        has_deferred_continue: ctx.has_deferred_continue,
        try_depth: ctx.try_depth,
        with_depth: ctx.with_depth,
        is_switch: ctx.is_switch,
        for_of_iter_slot: ctx.for_of_iter_slot,
    }
}

/// What is known of the open loops.
pub open spec fn loops_view(loops: Seq<LoopCtx>) -> Seq<LoopView> {
    Seq::new(loops.len(), |i: int| loop_view(loops[i]))
}

/// A try statement being compiled: the finally body to inline on early exits (none if the
/// try has no finalizer), and whether the runtime exception handler is still active in the
/// region (true inside the try block; false inside the catch block).
#[derive(Clone, Copy)]
pub struct FinallyEntry<'p> {
    pub body: Option<&'p Vec<Statement>>,
    pub active: bool,
}

/// What is set aside of an enclosing function while a nested one is compiled.
pub struct SavedFrame<'p> {
    pub(crate) chunk: Chunk,
    pub(crate) scope_depth: u32,
    pub(crate) loops: Vec<LoopCtx>,
    pub(crate) predeclared: Vec<StringId>,
    pub(crate) finally_stack: Vec<FinallyEntry<'p>>,
    pub(crate) with_depth: usize,
    pub(crate) floors: Vec<usize>,
    pub(crate) marks: Vec<usize>,
    pub(crate) param_init_active: Option<(usize, usize)>,
}

/// What is set aside of an enclosing function, as mathematical values.
#[verifier::ext_equal]
pub struct SavedView<'p> {
    pub chunk: ChunkView,
    pub scope_depth: u32,
    pub loops: Seq<LoopView>,
    pub predeclared: Seq<StringId>,
    pub finally_stack: Seq<FinallyEntry<'p>>,
    pub with_depth: usize,
    pub floors: Seq<usize>,
    pub marks: Seq<usize>,
    pub param_init_active: Option<(usize, usize)>,
}

impl<'p> SavedFrame<'p> {
    /// What is set aside.
    #[verifier::opaque]
    pub closed spec fn saved(&self) -> SavedView<'p> {
        SavedView {
            chunk: self.chunk@,
            scope_depth: self.scope_depth,
            loops: loops_view(self.loops@),
            predeclared: self.predeclared@,
            finally_stack: self.finally_stack@,
            with_depth: self.with_depth,
            floors: self.floors@,
            marks: self.marks@,
            param_init_active: self.param_init_active,
        }
    }
}

/// The compiler.
pub struct Compiler<'p> {
    chunk: Chunk,
    locals: Vec<Local>,
    upvalues: Vec<UpvalueDescriptor>,
    scope_depth: u32,
    interner: Interner,
    /// The strings that were interned when the compiler was made.
    base: Ghost<Seq<Seq<char>>>,
    loops: Vec<LoopCtx>,
    /// Stack of enclosing function scopes, outermost first and the immediate
    /// parent last.
    enclosing_chain: Vec<EnclosingFrame>,
    /// Global-scope const variable names (to prevent reassignment).
    const_globals: Vec<StringId>,
    /// Label from an enclosing labeled statement, to be adopted by the next loop.
    pending_label: Option<StringId>,
    /// Name hint for anonymous function expressions.
    pending_function_name: Option<StringId>,
    /// One entry per try statement currently being compiled (innermost last).
    finally_stack: Vec<FinallyEntry<'p>>,
    /// Number of lexically-enclosing `with` blocks.
    with_depth: usize,
    /// Depth of nested class bodies, which are implicitly strict.
    class_depth: u32,
    /// Top-level `let` / `const` names whose slots were reserved at function
    /// entry (so hoisted function declarations can close over them).
    predeclared_lex: Vec<StringId>,
    /// `locals.len()` at each enclosing `with` entry (innermost last).
    with_local_floor: Vec<usize>,
    /// While the default of a parameter is compiled: its slot, and the number of
    /// parameters.
    param_init_active: Option<(usize, usize)>,
    /// Remembered code positions.
    marks: Vec<usize>,
}

impl<'p> Compiler<'p> {
    /// The mathematical state.
    #[verifier::opaque]
    pub closed spec fn st(&self) -> CState<'p> {
        CState {
            chunk: self.chunk@,
            locals: self.locals@,
            upvalues: self.upvalues@,
            scope_depth: self.scope_depth,
            table: self.interner@,
            base: self.base@,
            loops: loops_view(self.loops@),
            chain: frames_view(self.enclosing_chain@),
            const_globals: self.const_globals@,
            pending_label: self.pending_label,
            pending_function_name: self.pending_function_name,
            finally_stack: self.finally_stack@,
            with_depth: self.with_depth,
            class_depth: self.class_depth,
            predeclared: self.predeclared_lex@,
            floors: self.with_local_floor@,
            param_init_active: self.param_init_active,
            marks: self.marks@,
        }
    }

    /// A compiler that has emitted nothing yet. It names the script and takes over the
    /// interned strings.
    pub fn new(interner: Interner) -> (compiler: Self)
        ensures
            compiler.st() == initial_state::<'p>(interner@),
            compiler.st().good(),
    {
        let base: Ghost<Seq<Seq<char>>> = Ghost(interner@);
        let mut interner = interner;
        let script_name = interner.intern("<script>");
        let compiler = Compiler {
            chunk: Chunk::new(script_name, script_name),
            locals: Vec::new(),
            upvalues: Vec::new(),
            scope_depth: 0,
            interner,
            base,
            loops: Vec::new(),
            enclosing_chain: Vec::new(),
            const_globals: Vec::new(),
            pending_label: None,
            pending_function_name: None,
            finally_stack: Vec::new(),
            with_depth: 0,
            class_depth: 0,
            predeclared_lex: Vec::new(),
            with_local_floor: Vec::new(),
            param_init_active: None,
            marks: Vec::new(),
        };
        proof {
            reveal(Compiler::st);
            reveal(CState::good);
            assert(loops_view(compiler.loops@) =~= Seq::empty());
            assert(frames_view(compiler.enclosing_chain@) =~= Seq::empty());
        }
        compiler
    }

    /// Compile a script or module. The interned strings are handed back beside the chunk.
    pub fn compile_program(self, program: &'p Program) -> (compiled: (
        Result<Chunk, String>,
        Interner,
    ))
        requires
            self.st().good(),
        ensures
            compiled.0 matches Ok(chunk) ==> chunk@.sound(),
            self.st().base.is_prefix_of(compiled.1@),
            match self.st().compile_top_level(u32::MAX as nat, program) {
                Ok(st) => {
                    &&& compiled.0 is Ok
                    &&& compiled.0->Ok_0@ == st.chunk
                    &&& compiled.1@ == st.table
                },
                Err(e) => compiled.0 is Err && e.explains(compiled.0->Err_0@, compiled.1@),
            },
    {
        let mut compiler = self;
        let done = compiler.compile_top_level(u32::MAX, program);
        proof {
            reveal(Compiler::st);
            reveal(CState::good);
            reveal(CState::overflowed);
        }
        match done {
            Ok(_) => (Ok(compiler.chunk), compiler.interner),
            Err(message) => (Err(message), compiler.interner),
        }
    }
}

/// The state before anything is compiled, over the strings interned so far.
pub open spec fn initial_state<'p>(table: Seq<Seq<char>>) -> CState<'p> {
    let script_name = interner::id_of(table, "<script>"@);
    CState {
        chunk: ChunkView::empty(script_name, script_name),
        locals: Seq::empty(),
        upvalues: Seq::empty(),
        scope_depth: 0,
        table: interner::interned(table, "<script>"@),
        base: table,
        loops: Seq::empty(),
        chain: Seq::empty(),
        const_globals: Seq::empty(),
        pending_label: None,
        pending_function_name: None,
        finally_stack: Seq::empty(),
        with_depth: 0,
        class_depth: 0,
        predeclared: Seq::empty(),
        floors: Seq::empty(),
        param_init_active: None,
        marks: Seq::empty(),
    }
}

} // verus!
