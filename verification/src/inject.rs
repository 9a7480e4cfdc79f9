//! Loading a named buffer as a module: the exchange with the engine, one
//! operation at a time.
//!
//! The buffer is compiled through the unpatched compile entry point and run in
//! protected mode. On success its result is wrapped in an identity closure
//! and stored in `package.preload` under the module's name; on failure the
//! table is left alone. Either way the stack is cut back to the depth found
//! on entry.

use vstd::prelude::*;
use vstd::slice::slice_to_vec;
use vstd::std_specs::iter::IteratorSpec;
use crate::abi::{
    op_view, upvalue_index, upvalue_index_spec, Reply, ReplyView, StackOp, StackOpView,
    LUA_GLOBALSINDEX, LUA_OK,
};
use crate::engine::{
    field_of, host_ready, identity_result, perform, preload_table, Engine, Value,
};

verus! {

/// How far an exchange has come: the name says what was asked for last.
#[derive(Debug, Clone, Copy, PartialEq, Eq, Structural)]
pub enum LoadPhase {
    /// Nothing has been asked yet.
    Start,
    /// The depth on entry.
    EntryDepth,
    /// The global `package`.
    Package,
    /// The field `preload` of `package`.
    Preload,
    /// The stack position of `package.preload`.
    TableIndex,
    /// The compilation of the buffer.
    Compile,
    /// The protected call of the chunk.
    Invoke,
    /// The identity closure round the chunk's result.
    Wrap,
    /// The store into `package.preload`.
    Register,
    /// The cut back to the depth on entry.
    Restore,
    /// The exchange is over.
    Done,
}

/// The state of one exchange that loads a module.
pub struct LoadModule {
    phase: LoadPhase,
    name: String,
    buffer: Vec<u8>,
    stack_top: i32,
    field_index: i32,
}

/// What a [`LoadModule`] is in specifications.
pub struct LoadModuleView {
    pub phase: LoadPhase,
    /// The name under which the module is registered.
    pub name: Seq<char>,
    /// The source to compile: any bytes.
    pub buffer: Seq<u8>,
    /// The depth found on entry.
    pub stack_top: int,
    /// The stack position of `package.preload`.
    pub field_index: int,
}

impl View for LoadModule {
    type V = LoadModuleView;

    closed spec fn view(&self) -> LoadModuleView {
        LoadModuleView {
            phase: self.phase,
            name: self.name@,
            buffer: self.buffer@,
            stack_top: self.stack_top as int,
            field_index: self.field_index as int,
        }
    }
}

/// Whether a text can cross the ABI as a C string: it holds no NUL.
pub open spec fn c_text(text: Seq<char>) -> bool {
    forall|i: int| 0 <= i < text.len() ==> text[i] != '\0'
}

/// The name under which the engine reports a chunk compiled for `name`.
pub open spec fn display_name(name: Seq<char>) -> Seq<char> {
    seq!['@'] + name
}

/// The state in which an exchange for `name` and `buffer` begins.
pub open spec fn load_module_start(name: Seq<char>, buffer: Seq<u8>) -> LoadModuleView {
    LoadModuleView { phase: LoadPhase::Start, name, buffer, stack_top: 0, field_index: 0 }
}

/// The operation that ends an exchange: the cut back to the depth on entry.
pub open spec fn restore(s: LoadModuleView) -> (LoadModuleView, Option<StackOpView>) {
    (
        LoadModuleView { phase: LoadPhase::Restore, ..s },
        Some(StackOpView::SetTop { index: s.stack_top }),
    )
}

/// One step of the exchange: from the state and the reply to the operation
/// asked last, the next state and the next operation, or no operation when
/// the exchange is over. A reply that is not of the kind that the operation
/// gives is taken as its failure.
pub open spec fn load_module_spec(s: LoadModuleView, reply: ReplyView) -> (
    LoadModuleView,
    Option<StackOpView>,
) {
    match s.phase {
        LoadPhase::Start => (
            LoadModuleView { phase: LoadPhase::EntryDepth, ..s },
            Some(StackOpView::GetTop),
        ),
        LoadPhase::EntryDepth => match reply {
            ReplyView::Int(depth) => (
                LoadModuleView { phase: LoadPhase::Package, stack_top: depth, ..s },
                Some(StackOpView::GetField { index: LUA_GLOBALSINDEX as int, key: "package"@ }),
            ),
            _ => (LoadModuleView { phase: LoadPhase::Done, ..s }, None),
        },
        LoadPhase::Package => (
            LoadModuleView { phase: LoadPhase::Preload, ..s },
            Some(StackOpView::GetField { index: -1, key: "preload"@ }),
        ),
        LoadPhase::Preload => (
            LoadModuleView { phase: LoadPhase::TableIndex, ..s },
            Some(StackOpView::GetTop),
        ),
        LoadPhase::TableIndex => match reply {
            ReplyView::Int(position) => (
                LoadModuleView { phase: LoadPhase::Compile, field_index: position, ..s },
                Some(
                    StackOpView::LoadBuffer {
                        buffer: s.buffer,
                        chunk_name: display_name(s.name),
                        mode: None,
                    },
                ),
            ),
            _ => restore(s),
        },
        LoadPhase::Compile => (
            LoadModuleView { phase: LoadPhase::Invoke, ..s },
            Some(StackOpView::PCall { nargs: 0, nresults: 1, errfunc: 0 }),
        ),
        LoadPhase::Invoke => match reply {
            ReplyView::Int(status) if status == LUA_OK => (
                LoadModuleView { phase: LoadPhase::Wrap, ..s },
                Some(StackOpView::PushIdentityClosure { upvalues: 1 }),
            ),
            _ => restore(s),
        },
        LoadPhase::Wrap => (
            LoadModuleView { phase: LoadPhase::Register, ..s },
            Some(StackOpView::SetField { index: s.field_index, key: s.name }),
        ),
        LoadPhase::Register => restore(s),
        LoadPhase::Restore => (LoadModuleView { phase: LoadPhase::Done, ..s }, None),
        LoadPhase::Done => (s, None),
    }
}

/// Whether `text` can cross the ABI as a C string.
pub fn is_c_text(text: &str) -> (ok: bool)
    ensures
        ok == c_text(text@),
{
    let mut chars = text.chars();
    let ghost mut seen: int = 0;
    loop
        invariant
            0 <= seen <= text@.len(),
            chars.obeys_prophetic_iter_laws(),
            chars.remaining() == text@.skip(seen),
            forall|i: int| 0 <= i < seen ==> text@[i] != '\0',
        decreases text@.len() - seen,
    {
        match chars.next() {
            Some(c) => {
                assert(c == text@[seen]);
                if c == '\0' {
                    return false;
                }
                proof {
                    assert(text@.skip(seen).drop_first() =~= text@.skip(seen + 1));
                    seen = seen + 1;
                }
            },
            None => {
                return true;
            },
        }
    }
}

impl LoadModule {
    /// Begins an exchange that loads `buffer` as the module `name`. The
    /// buffer may hold any bytes: it goes to the compiler with its length,
    /// and a buffer that does not compile is a failed load like any other.
    /// The name is the key of a table field, which crosses the ABI as a C
    /// string.
    pub fn new(name: &str, buffer: &[u8]) -> (state: LoadModule)
        requires
            c_text(name@),
        ensures
            state@ == load_module_start(name@, buffer@),
    {
        LoadModule {
            phase: LoadPhase::Start,
            name: name.to_owned(),
            buffer: slice_to_vec(buffer),
            stack_top: 0,
            field_index: 0,
        }
    }

    /// Begins an exchange that loads `buffer` as the module `name`, if the
    /// name can cross the ABI as a C string.
    pub fn try_new(name: &str, buffer: &[u8]) -> (state: Option<LoadModule>)
        ensures
            state is Some <==> c_text(name@),
            state matches Some(begun) ==> begun@ == load_module_start(name@, buffer@),
    {
        if is_c_text(name) {
            Some(LoadModule::new(name, buffer))
        } else {
            None
        }
    }

    /// How far the exchange has come.
    pub fn phase(&self) -> (phase: LoadPhase)
        ensures
            phase == self@.phase,
    {
        self.phase
    }

    /// Whether the exchange is over.
    pub fn is_done(&self) -> (done: bool)
        ensures
            done == (self@.phase == LoadPhase::Done),
    {
        self.phase == LoadPhase::Done
    }

    fn restore(self) -> (next: (LoadModule, Option<StackOp>))
        ensures
            (next.0@, op_view(next.1)) == restore(self@),
    {
        let index = self.stack_top;
        (
            LoadModule {
                phase: LoadPhase::Restore,
                name: self.name,
                buffer: self.buffer,
                stack_top: self.stack_top,
                field_index: self.field_index,
            },
            Some(StackOp::SetTop { index }),
        )
    }

    fn advance(self, phase: LoadPhase) -> (next: LoadModule)
        ensures
            next@ == (LoadModuleView { phase, ..self@ }),
    {
        LoadModule {
            phase,
            name: self.name,
            buffer: self.buffer,
            stack_top: self.stack_top,
            field_index: self.field_index,
        }
    }
}

/// The chunk name for `name`: an `@` in front marks it as a file name in the
/// engine's messages.
pub fn chunk_display_name(name: &str) -> (display: String)
    ensures
        display@ == display_name(name@),
{
    let mut display = "@".to_owned();
    display.append(name);
    proof {
        reveal_strlit("@");
        assert("@"@ =~= seq!['@']);
    }
    display
}

/// Takes one step of the exchange that loads a module: given the reply to the
/// operation asked last, returns the next state and the next operation to
/// perform on the engine, or no operation when control goes back to the host.
/// The first step ignores its reply.
pub fn load_module(state: LoadModule, reply: Reply) -> (next: (LoadModule, Option<StackOp>))
    ensures
        (next.0@, op_view(next.1)) == load_module_spec(state@, reply@),
{
    match state.phase {
        LoadPhase::Start => (state.advance(LoadPhase::EntryDepth), Some(StackOp::GetTop)),
        LoadPhase::EntryDepth => match reply {
            Reply::Int(depth) => {
                let mut next = state.advance(LoadPhase::Package);
                next.stack_top = depth;
                (
                    next,
                    Some(StackOp::GetField { index: LUA_GLOBALSINDEX, key: "package".to_owned() }),
                )
            },
            _ => (state.advance(LoadPhase::Done), None),
        },
        LoadPhase::Package => (
            state.advance(LoadPhase::Preload),
            Some(StackOp::GetField { index: -1, key: "preload".to_owned() }),
        ),
        LoadPhase::Preload => (state.advance(LoadPhase::TableIndex), Some(StackOp::GetTop)),
        LoadPhase::TableIndex => match reply {
            Reply::Int(position) => {
                let buffer = state.buffer.clone();
                let chunk_name = chunk_display_name(state.name.as_str());
                let mut next = state.advance(LoadPhase::Compile);
                next.field_index = position;
                assert(buffer@ =~= state.buffer@);
                (next, Some(StackOp::LoadBuffer { buffer, chunk_name, mode: None }))
            },
            _ => state.restore(),
        },
        LoadPhase::Compile => (
            state.advance(LoadPhase::Invoke),
            Some(StackOp::PCall { nargs: 0, nresults: 1, errfunc: 0 }),
        ),
        LoadPhase::Invoke => match reply {
            Reply::Int(status) if status == LUA_OK => (
                state.advance(LoadPhase::Wrap),
                Some(StackOp::PushIdentityClosure { upvalues: 1 }),
            ),
            _ => state.restore(),
        },
        LoadPhase::Wrap => {
            let index = state.field_index;
            let key = state.name.clone();
            (state.advance(LoadPhase::Register), Some(StackOp::SetField { index, key }))
        },
        LoadPhase::Register => state.restore(),
        LoadPhase::Restore => (state.advance(LoadPhase::Done), None),
        LoadPhase::Done => (state, None),
    }
}

/// What the identity closure does when the engine calls it: the operation to
/// perform and the number of results to report.
pub open spec fn lua_identity_closure_spec() -> (StackOpView, int) {
    (StackOpView::PushValue { index: upvalue_index_spec(1) }, 1)
}

/// The body of the native closure that wraps a value: it pushes its first
/// upvalue and returns that one value. Returns the operation to perform on
/// the engine and the number of results to report to it.
pub fn lua_identity_closure() -> (call: (StackOp, i32))
    ensures
        (call.0@, call.1 as int) == lua_identity_closure_spec(),
{
    (StackOp::PushValue { index: upvalue_index(1) }, 1)
}

/// The engine after an exchange that goes on from state `s` with `reply` and
/// asks at most `steps` operations, each performed as the model says; nothing
/// if an operation is asked that the engine does not permit, or more than
/// `steps` of them.
pub open spec fn exchange(s: LoadModuleView, reply: ReplyView, e: Engine, steps: nat) -> Option<
    Engine,
>
    decreases steps,
{
    let (next, op) = load_module_spec(s, reply);
    match op {
        None => Some(e),
        Some(op) => if steps == 0 {
            None
        } else {
            match perform(e, op) {
                Some((after, answer)) => exchange(next, answer, after, (steps - 1) as nat),
                None => None,
            }
        },
    }
}

/// The engine after the module `name` was loaded from `buffer`: the whole
/// exchange, from its first operation to the return to the host.
pub open spec fn loaded(e: Engine, name: Seq<char>, buffer: Seq<u8>) -> Option<Engine> {
    exchange(load_module_start(name, buffer), ReplyView::Nothing, e, 9)
}

/// The status that the protected call of the compiled buffer will report.
pub open spec fn run_status(e: Engine) -> int {
    let compiled = (e.outcomes)(e.drawn);
    let run = (e.outcomes)(e.drawn + 1);
    match compiled.value {
        Value::Function(_) => run.status,
        Value::IdentityClosure(_) => LUA_OK as int,
        _ => crate::abi::LUA_ERRRUN as int,
    }
}

/// The value that the protected call of the compiled buffer will leave.
pub open spec fn run_value(e: Engine) -> Value {
    let compiled = (e.outcomes)(e.drawn);
    let run = (e.outcomes)(e.drawn + 1);
    match compiled.value {
        Value::IdentityClosure(upvalues) => identity_result(upvalues),
        _ => run.value,
    }
}

/// The fields of all tables once the protected call of the compiled buffer
/// is over: a chunk that ran may have changed them, anything else has not.
pub open spec fn run_fields(e: Engine) -> crate::engine::Fields {
    let compiled = (e.outcomes)(e.drawn);
    let run = (e.outcomes)(e.drawn + 1);
    match compiled.value {
        Value::Function(_) => run.fields,
        _ => e.fields,
    }
}

proof fn lemma_exchange_step(s: LoadModuleView, reply: ReplyView, e: Engine, steps: nat)
    requires
        steps > 0,
        load_module_spec(s, reply).1 is Some,
        perform(e, load_module_spec(s, reply).1->0) is Some,
    ensures
        ({
            let (next, op) = load_module_spec(s, reply);
            let (after, answer) = perform(e, op->0)->0;
            exchange(s, reply, e, steps) == exchange(next, answer, after, (steps - 1) as nat)
        }),
{
}

proof fn lemma_exchange(e: Engine, name: Seq<char>, buffer: Seq<u8>)
    requires
        host_ready(e),
    ensures
        loaded(e, name, buffer) matches Some(after) && {
            &&& after.stack == e.stack
            &&& after.upvalues == e.upvalues
            &&& after.globals == e.globals
            &&& after.limit == e.limit
            &&& after.outcomes == e.outcomes
            &&& after.fields == if run_status(e) == LUA_OK {
                run_fields(e).insert(
                    (preload_table(e), name),
                    Value::IdentityClosure(seq![run_value(e)]),
                )
            } else {
                run_fields(e)
            }
        },
{
    let d0 = e.depth();
    let package = e.field(e.globals, "package"@);
    let preload = e.field(package->Table_0, "preload"@);
    let none = ReplyView::Nothing;

    let s0 = load_module_start(name, buffer);
    let s1 = LoadModuleView { phase: LoadPhase::EntryDepth, ..s0 };
    lemma_exchange_step(s0, none, e, 9);

    let s2 = LoadModuleView { phase: LoadPhase::Package, stack_top: d0, ..s1 };
    let e2 = e.push(package);
    lemma_exchange_step(s1, ReplyView::Int(d0), e, 8);

    let s3 = LoadModuleView { phase: LoadPhase::Preload, ..s2 };
    let e3 = e2.push(preload);
    assert(e2.value_at(-1) == Some(package));
    lemma_exchange_step(s2, none, e2, 7);

    let s4 = LoadModuleView { phase: LoadPhase::TableIndex, ..s3 };
    lemma_exchange_step(s3, none, e3, 6);

    let s5 = LoadModuleView { phase: LoadPhase::Compile, field_index: d0 + 2, ..s4 };
    let compiled = (e.outcomes)(e.drawn);
    let e5 = e3.push(compiled.value).draw();
    lemma_exchange_step(s4, ReplyView::Int(d0 + 2), e3, 5);

    let s6 = LoadModuleView { phase: LoadPhase::Invoke, ..s5 };
    let (e6, status) = crate::engine::called(e5, d0 + 2, compiled.value);
    assert(e5.stack[d0 + 2] == compiled.value);
    assert(e5.with_depth(d0 + 2).stack =~= e3.stack);
    assert(e6.stack =~= e3.stack.push(run_value(e)));
    lemma_exchange_step(s5, ReplyView::Int(compiled.status), e5, 4);

    if status == LUA_OK {
        let closure = Value::IdentityClosure(seq![run_value(e)]);
        let s7 = LoadModuleView { phase: LoadPhase::Wrap, ..s6 };
        assert(e6.stack.subrange(d0 + 2, d0 + 3) =~= seq![run_value(e)]);
        assert(e6.with_depth(d0 + 2).stack =~= e3.stack);
        let e7 = e6.with_depth(d0 + 2).push(closure);
        lemma_exchange_step(s6, ReplyView::Int(status), e6, 3);

        let s8 = LoadModuleView { phase: LoadPhase::Register, ..s7 };
        assert(e7.value_at(d0 + 2) == Some(preload));
        assert(e7.with_depth(d0 + 2).stack =~= e3.stack);
        let e8 = Engine {
            fields: run_fields(e).insert((preload_table(e), name), closure),
            ..e7.with_depth(d0 + 2)
        };
        lemma_exchange_step(s7, none, e7, 2);

        let s9 = LoadModuleView { phase: LoadPhase::Restore, ..s8 };
        let e9 = e8.with_depth(d0);
        assert(e9.stack =~= e.stack);
        lemma_exchange_step(s8, none, e8, 1);
        assert(exchange(s9, none, e9, 0) == Some(e9));
    } else {
        let s9 = LoadModuleView { phase: LoadPhase::Restore, ..s6 };
        let e9 = e6.with_depth(d0);
        assert(e9.stack =~= e.stack);
        lemma_exchange_step(s6, ReplyView::Int(status), e6, 3);
        assert(exchange(s9, none, e9, 2) == Some(e9));
    }
}

/// Stack balance: whatever the buffer holds and whatever the interpreter
/// makes of it, loading a module leaves the operand stack as it was on
/// entry, and every operation asked on the way is one that the engine
/// permits.
pub proof fn lemma_load_module_keeps_stack(e: Engine, name: Seq<char>, buffer: Seq<u8>)
    requires
        host_ready(e),
    ensures
        loaded(e, name, buffer) matches Some(after) && after.stack == e.stack && after.depth()
            == e.depth(),
{
    lemma_exchange(e, name, buffer);
}

/// Registration: when the buffer compiles and its protected call succeeds,
/// `package.preload[name]` holds an identity closure over the value that the
/// call produced, and that store is the only change that loading made to the
/// tables as the call left them.
pub proof fn lemma_load_module_registers(e: Engine, name: Seq<char>, buffer: Seq<u8>)
    requires
        host_ready(e),
        run_status(e) == LUA_OK,
    ensures
        loaded(e, name, buffer) matches Some(after) && {
            &&& after.field(preload_table(e), name) == Value::IdentityClosure(seq![run_value(e)])
            &&& identity_result(after.field(preload_table(e), name)->IdentityClosure_0)
                == run_value(e)
            &&& after.fields == run_fields(e).insert(
                (preload_table(e), name),
                Value::IdentityClosure(seq![run_value(e)]),
            )
            &&& forall|table: nat, key: Seq<char>|
                (table, key) != (preload_table(e), name) ==> #[trigger] after.field(table, key)
                    == field_of(run_fields(e), table, key)
        },
{
    lemma_exchange(e, name, buffer);
}

/// No registration on failure: when the buffer does not compile, or its
/// protected call fails, loading stores nothing. The tables are as the call
/// left them, and as they were on entry if no chunk ran.
pub proof fn lemma_load_module_failure_registers_nothing(
    e: Engine,
    name: Seq<char>,
    buffer: Seq<u8>,
)
    requires
        host_ready(e),
        run_status(e) != LUA_OK,
    ensures
        loaded(e, name, buffer) matches Some(after) && {
            &&& after.fields == run_fields(e)
            &&& !((e.outcomes)(e.drawn).value is Function) ==> after.fields == e.fields
            &&& !((e.outcomes)(e.drawn).value is Function) ==> after.field(preload_table(e), name)
                == e.field(preload_table(e), name)
        },
{
    lemma_exchange(e, name, buffer);
}

/// The identity closure returns what it captured: run in a frame whose
/// first upvalue is `v`, its one operation pushes `v`, which is the one result
/// that it reports, and changes nothing else.
pub proof fn lemma_identity_closure_returns_upvalue(frame: Engine)
    requires
        frame.has_room(),
    ensures
        lua_identity_closure_spec().1 == 1,
        perform(frame, lua_identity_closure_spec().0) == Some(
            (frame.push(identity_result(frame.upvalues)), ReplyView::Nothing),
        ),
{
}

/// Idempotence of a registered module: calling the closure that loading
/// stored gives the captured value, runs no code of the script, and leaves
/// tables and the closure as they were, so every later call gives that value
/// again.
pub proof fn lemma_registered_closure_is_idempotent(e: Engine, captured: Value)
    requires
        e.depth() >= 1,
        e.stack.last() == Value::IdentityClosure(seq![captured]),
    ensures
        perform(e, StackOpView::PCall { nargs: 0, nresults: 1, errfunc: 0 }) matches Some(
            (after, reply),
        ) && {
            &&& reply == ReplyView::Int(LUA_OK as int)
            &&& after.stack == e.stack.drop_last().push(captured)
            &&& after.fields == e.fields
            &&& after.drawn == e.drawn
        },
{
    let base = e.depth() - 1;
    assert(e.stack[base] == e.stack.last());
    assert(e.with_depth(base).stack =~= e.stack.drop_last());
}

/// The engine after each of `requests`, a sequence of names and buffers, was
/// loaded in turn; nothing if an operation was asked that the engine does
/// not permit.
pub open spec fn loaded_all(e: Engine, requests: Seq<(Seq<char>, Seq<u8>)>) -> Option<Engine>
    decreases requests.len(),
{
    if requests.len() == 0 {
        Some(e)
    } else {
        match loaded_all(e, requests.drop_last()) {
            Some(before) => loaded(before, requests.last().0, requests.last().1),
            None => None,
        }
    }
}

/// Whether the host's module system is in place before each of `requests` is
/// loaded: no script that ran on the way has taken `package.preload` away.
pub open spec fn ready_before_each(e: Engine, requests: Seq<(Seq<char>, Seq<u8>)>) -> bool
    decreases requests.len(),
{
    requests.len() == 0 || (ready_before_each(e, requests.drop_last()) && (loaded_all(
        e,
        requests.drop_last(),
    ) matches Some(before) && host_ready(before)))
}

/// Stack balance over any sequence of loads, whichever of them succeed and
/// whichever fail: the operand stack after the last is the stack before the
/// first, and so it is after each of them.
pub proof fn lemma_loads_keep_stack(e: Engine, requests: Seq<(Seq<char>, Seq<u8>)>)
    requires
        ready_before_each(e, requests),
    ensures
        loaded_all(e, requests) matches Some(after) && after.stack == e.stack,
    decreases requests.len(),
{
    if requests.len() > 0 {
        lemma_loads_keep_stack(e, requests.drop_last());
        let before = loaded_all(e, requests.drop_last())->0;
        lemma_exchange(before, requests.last().0, requests.last().1);
    }
}

/// Whether every text that an operation carries as a C string can cross the
/// ABI as one. The bytes of a buffer go with their length and may be any.
pub open spec fn carries_c_texts(op: StackOpView) -> bool {
    match op {
        StackOpView::GetField { key, .. } => c_text(key),
        StackOpView::SetField { key, .. } => c_text(key),
        StackOpView::LoadBuffer { chunk_name, mode, .. } => c_text(chunk_name) && (mode matches Some(
            mode,
        ) ==> c_text(mode)),
        _ => true,
    }
}

/// An exchange that was begun with a name free of NUL asks only for
/// operations whose texts are free of NUL, at every step, whatever bytes the
/// buffer holds.
pub proof fn lemma_load_module_asks_c_texts(s: LoadModuleView, reply: ReplyView)
    requires
        c_text(s.name),
    ensures
        load_module_spec(s, reply).0.name == s.name,
        load_module_spec(s, reply).0.buffer == s.buffer,
        load_module_spec(s, reply).1 matches Some(op) ==> carries_c_texts(op),
{
    reveal_strlit("package");
    reveal_strlit("preload");
}

} // verus!
