//! The print function that the host's scripts call: each argument is turned
//! into text by the engine's own `tostring`, and the texts go to the log as
//! one line, joined by tabs.
//!
//! The engine is driven one operation at a time. After each conversion the
//! stack is cut back, so the arguments stay where the host put them.

use std::collections::VecDeque;
use vstd::prelude::*;
use crate::abi::{
    Reply, ReplyView, StackOp, StackOpView, LUA_GLOBALSINDEX, LUA_MINSTACK, LUA_OK,
};
use crate::engine::{field_of, perform, Engine, Fields, Outcome, Value};
use crate::text::{
    append_one_line, from_utf8_lossy, join, joined, lossy_text, one_line, single_line, texts,
};

verus! {

/// How far a call of print has come: the name says what was asked for last.
#[derive(Debug, Clone, Copy, PartialEq, Eq, Structural)]
pub enum PrintPhase {
    /// Nothing has been asked yet.
    Start,
    /// The number of arguments.
    Count,
    /// The global `tostring`.
    Lookup,
    /// A copy of the current argument.
    Copy,
    /// The call of `tostring`.
    Convert,
    /// The bytes of the text.
    Read,
    /// The removal of the text from the stack.
    Pop,
    /// The line has gone to the log.
    Emit,
    /// Control has gone back to the host.
    Done,
}

/// What a call of print asks for next.
#[derive(Debug, PartialEq, Eq)]
pub enum PrintAction {
    /// Perform this operation on the engine and come back with its reply.
    Engine(StackOp),
    /// Write this line to the log and come back.
    Log(String),
    /// Return to the host, reporting this many results.
    Return(i32),
}

/// What a [`PrintAction`] is in specifications.
pub enum PrintActionView {
    Engine(StackOpView),
    Log(Seq<char>),
    Return(int),
}

impl View for PrintAction {
    type V = PrintActionView;

    open spec fn view(&self) -> PrintActionView {
        match self {
            PrintAction::Engine(op) => PrintActionView::Engine(op@),
            PrintAction::Log(line) => PrintActionView::Log(line@),
            PrintAction::Return(results) => PrintActionView::Return(*results as int),
        }
    }
}

/// The state of one call of print.
pub struct Print {
    phase: PrintPhase,
    argc: i32,
    index: i32,
    out: VecDeque<String>,
}

/// What a [`Print`] is in specifications.
pub struct PrintView {
    pub phase: PrintPhase,
    /// The number of arguments.
    pub argc: int,
    /// The stack position of the argument that is being converted.
    pub index: int,
    /// The texts of the arguments converted so far.
    pub out: Seq<Seq<char>>,
}

impl View for Print {
    type V = PrintView;

    closed spec fn view(&self) -> PrintView {
        PrintView {
            phase: self.phase,
            argc: self.argc as int,
            index: self.index as int,
            out: texts(self.out@),
        }
    }
}

/// The separator between the texts of two arguments.
pub open spec fn separator() -> Seq<char> {
    seq!['\t']
}

/// The record under which a line printed by a script goes to the log: a tag
/// that tells it from the extension's own messages, then the line, with a
/// space in place of each line break that a text of the script brought in.
pub open spec fn log_record_spec(line: Seq<char>) -> Seq<char> {
    "[G] "@ + one_line(line)
}

/// The record under which a line printed by a script goes to the log. It is
/// a single line, whatever the script printed.
pub fn log_record(line: &str) -> (record: String)
    ensures
        record@ == log_record_spec(line@),
        single_line(record@),
{
    let mut record = "[G] ".to_owned();
    proof {
        reveal_strlit("[G] ");
    }
    append_one_line(&mut record, line);
    record
}

/// The state in which a call of print begins.
pub open spec fn print_start() -> PrintView {
    PrintView { phase: PrintPhase::Start, argc: 0, index: 1, out: Seq::empty() }
}

/// The conversion of the argument at `s.index` begins: its first operation
/// fetches the global `tostring`.
pub open spec fn convert(s: PrintView) -> (PrintView, PrintActionView) {
    (
        PrintView { phase: PrintPhase::Lookup, ..s },
        PrintActionView::Engine(
            StackOpView::GetField { index: LUA_GLOBALSINDEX as int, key: "tostring"@ },
        ),
    )
}

/// All arguments are converted: their texts, joined by tabs, go to the log.
pub open spec fn emit(s: PrintView) -> (PrintView, PrintActionView) {
    (PrintView { phase: PrintPhase::Emit, ..s }, PrintActionView::Log(joined(s.out, separator())))
}

/// What follows the decoding of an argument's text: the text is kept and
/// the engine's copy of it leaves the stack.
pub open spec fn record_spec(s: PrintView, text: Seq<char>) -> (PrintView, PrintActionView) {
    (
        PrintView { phase: PrintPhase::Pop, out: s.out.push(text), ..s },
        PrintActionView::Engine(StackOpView::SetTop { index: -2 }),
    )
}

/// One step of a call of print: from the state and the reply to what was
/// asked last, the next state and what to do next. A count that is not a
/// number is taken as zero, and a text that is not a string as empty.
pub open spec fn override_print_spec(s: PrintView, reply: ReplyView) -> (
    PrintView,
    PrintActionView,
) {
    match s.phase {
        PrintPhase::Start => (
            PrintView { phase: PrintPhase::Count, ..s },
            PrintActionView::Engine(StackOpView::GetTop),
        ),
        PrintPhase::Count => match reply {
            ReplyView::Int(argc) if argc >= 1 => convert(PrintView { argc, index: 1, ..s }),
            ReplyView::Int(argc) => emit(PrintView { argc, index: 1, ..s }),
            _ => emit(PrintView { argc: 0, index: 1, ..s }),
        },
        PrintPhase::Lookup => (
            PrintView { phase: PrintPhase::Copy, ..s },
            PrintActionView::Engine(StackOpView::PushValue { index: s.index }),
        ),
        PrintPhase::Copy => (
            PrintView { phase: PrintPhase::Convert, ..s },
            PrintActionView::Engine(StackOpView::Call { nargs: 1, nresults: 1 }),
        ),
        PrintPhase::Convert => (
            PrintView { phase: PrintPhase::Read, ..s },
            PrintActionView::Engine(StackOpView::ToLString { index: -1 }),
        ),
        PrintPhase::Read => match reply {
            ReplyView::Bytes(bytes) => record_spec(s, lossy_text(bytes)),
            _ => record_spec(s, Seq::empty()),
        },
        PrintPhase::Pop => if s.index < s.argc {
            convert(PrintView { index: s.index + 1, ..s })
        } else {
            emit(s)
        },
        PrintPhase::Emit => (
            PrintView { phase: PrintPhase::Done, ..s },
            PrintActionView::Return(0),
        ),
        PrintPhase::Done => (s, PrintActionView::Return(0)),
    }
}

impl Print {
    /// Begins a call of print.
    pub fn new() -> (state: Print)
        ensures
            state@ == print_start(),
    {
        let state = Print { phase: PrintPhase::Start, argc: 0, index: 1, out: VecDeque::new() };
        assert(texts(state.out@) =~= Seq::empty());
        state
    }

    /// How far the call has come.
    pub fn phase(&self) -> (phase: PrintPhase)
        ensures
            phase == self@.phase,
    {
        self.phase
    }

    fn convert(self, argc: i32, index: i32) -> (next: (Print, PrintAction))
        ensures
            (next.0@, next.1@) == convert(PrintView { argc: argc as int, index: index as int, ..self@ }),
    {
        (
            Print { phase: PrintPhase::Lookup, argc, index, out: self.out },
            PrintAction::Engine(
                StackOp::GetField { index: LUA_GLOBALSINDEX, key: "tostring".to_owned() },
            ),
        )
    }

    fn emit(self, argc: i32, index: i32) -> (next: (Print, PrintAction))
        ensures
            (next.0@, next.1@) == emit(PrintView { argc: argc as int, index: index as int, ..self@ }),
    {
        let line = join(&self.out, "\t");
        proof {
            reveal_strlit("\t");
            assert("\t"@ =~= separator());
        }
        (Print { phase: PrintPhase::Emit, argc, index, out: self.out }, PrintAction::Log(line))
    }

    /// Keeps the decoded text of the current argument and asks for its
    /// removal from the stack.
    pub fn record(self, text: String) -> (next: (Print, PrintAction))
        ensures
            (next.0@, next.1@) == record_spec(self@, text@),
    {
        let mut out = self.out;
        out.push_back(text);
        assert(texts(out@) =~= texts(self.out@).push(text@));
        (
            Print { phase: PrintPhase::Pop, argc: self.argc, index: self.index, out },
            PrintAction::Engine(StackOp::SetTop { index: -2 }),
        )
    }
}

/// Takes one step of a call of print: given the reply to what was asked
/// last, returns the next state and what to do next. The first step ignores
/// its reply.
pub fn override_print(state: Print, reply: Reply) -> (next: (Print, PrintAction))
    ensures
        (next.0@, next.1@) == override_print_spec(state@, reply@),
{
    match state.phase {
        PrintPhase::Start => (
            Print { phase: PrintPhase::Count, argc: state.argc, index: state.index, out: state.out },
            PrintAction::Engine(StackOp::GetTop),
        ),
        PrintPhase::Count => match reply {
            Reply::Int(argc) => if argc >= 1 {
                state.convert(argc, 1)
            } else {
                state.emit(argc, 1)
            },
            _ => state.emit(0, 1),
        },
        PrintPhase::Lookup => {
            let index = state.index;
            (
                Print { phase: PrintPhase::Copy, argc: state.argc, index, out: state.out },
                PrintAction::Engine(StackOp::PushValue { index }),
            )
        },
        PrintPhase::Copy => (
            Print {
                phase: PrintPhase::Convert,
                argc: state.argc,
                index: state.index,
                out: state.out,
            },
            PrintAction::Engine(StackOp::Call { nargs: 1, nresults: 1 }),
        ),
        PrintPhase::Convert => (
            Print { phase: PrintPhase::Read, argc: state.argc, index: state.index, out: state.out },
            PrintAction::Engine(StackOp::ToLString { index: -1 }),
        ),
        PrintPhase::Read => {
            let text = match reply {
                Reply::Bytes(bytes) => from_utf8_lossy(&bytes),
                _ => String::new(),
            };
            state.record(text)
        },
        PrintPhase::Pop => {
            let argc = state.argc;
            let index = state.index;
            if index < argc {
                state.convert(argc, index + 1)
            } else {
                state.emit(argc, index)
            }
        },
        PrintPhase::Emit => (
            Print { phase: PrintPhase::Done, argc: state.argc, index: state.index, out: state.out },
            PrintAction::Return(0),
        ),
        PrintPhase::Done => (state, PrintAction::Return(0)),
    }
}

/// What a call of print has done when it returns to the host.
pub struct Printed {
    /// The engine as the call leaves it.
    pub engine: Engine,
    /// The lines written to the log, in order.
    pub lines: Seq<Seq<char>>,
    /// The number of results reported to the host.
    pub results: int,
}

/// What a call of print has done when it returns, going on from state `s`
/// with `reply`, with `lines` logged so far and at most `steps` further
/// actions, each operation performed as the model says; nothing if an
/// operation is asked that the engine does not permit, or more than `steps`
/// actions.
pub open spec fn print_exchange(
    s: PrintView,
    reply: ReplyView,
    e: Engine,
    lines: Seq<Seq<char>>,
    steps: nat,
) -> Option<Printed>
    decreases steps,
{
    let (next, action) = override_print_spec(s, reply);
    match action {
        PrintActionView::Return(results) => Some(Printed { engine: e, lines, results }),
        PrintActionView::Log(line) => if steps == 0 {
            None
        } else {
            print_exchange(next, ReplyView::Nothing, e, lines.push(line), (steps - 1) as nat)
        },
        PrintActionView::Engine(op) => if steps == 0 {
            None
        } else {
            match perform(e, op) {
                Some((after, answer)) => print_exchange(
                    next,
                    answer,
                    after,
                    lines,
                    (steps - 1) as nat,
                ),
                None => None,
            }
        },
    }
}

/// What one call of print does with the arguments on the stack of `e`: the
/// whole exchange, from its first operation to the return to the host.
pub open spec fn printed(e: Engine) -> Option<Printed> {
    print_exchange(
        print_start(),
        ReplyView::Nothing,
        e,
        Seq::empty(),
        (5 * e.stack.len() + 2) as nat,
    )
}

/// The global `tostring` among `fields`.
pub open spec fn tostring_in(fields: Fields, globals: nat) -> Value {
    field_of(fields, globals, "tostring"@)
}

/// Whether a call of `tostring` with this outcome went as the language
/// asks: it succeeded, left a string, and left `tostring` a function.
pub open spec fn converts(o: Outcome, globals: nat) -> bool {
    &&& o.status == LUA_OK
    &&& o.value is Text
    &&& tostring_in(o.fields, globals) is Function
}

/// Whether print can run: the running function has the free slots that the
/// engine guarantees on entry, `tostring` is a global function, and its call
/// for each argument goes as the language asks.
pub open spec fn print_ready(e: Engine) -> bool {
    &&& e.stack.len() + LUA_MINSTACK <= e.limit <= i32::MAX
    &&& tostring_in(e.fields, e.globals) is Function
    &&& forall|i: int|
        0 <= i < e.stack.len() ==> converts(#[trigger] (e.outcomes)((e.drawn + i) as nat), e.globals)
}

/// The texts of the first `count` arguments of `e`, as the engine's own
/// `tostring` gives them.
pub open spec fn converted(e: Engine, count: int) -> Seq<Seq<char>> {
    Seq::new(count as nat, |i: int| lossy_text((e.outcomes)((e.drawn + i) as nat).value->Text_0))
}

/// The engine between two conversions, when `done` arguments of `e` are
/// converted: the stack is back as it was, and the tables are as the last
/// call of `tostring` left them.
pub open spec fn between(e: Engine, done: int) -> Engine {
    Engine {
        fields: if done == 0 {
            e.fields
        } else {
            (e.outcomes)((e.drawn + done - 1) as nat).fields
        },
        drawn: (e.drawn + done) as nat,
        ..e
    }
}

proof fn lemma_print_step(
    s: PrintView,
    reply: ReplyView,
    e: Engine,
    lines: Seq<Seq<char>>,
    steps: nat,
)
    requires
        steps > 0,
        override_print_spec(s, reply).1 is Engine,
        perform(e, override_print_spec(s, reply).1->Engine_0) is Some,
    ensures
        ({
            let (next, action) = override_print_spec(s, reply);
            let (after, answer) = perform(e, action->Engine_0)->0;
            print_exchange(s, reply, e, lines, steps) == print_exchange(
                next,
                answer,
                after,
                lines,
                (steps - 1) as nat,
            )
        }),
{
}

proof fn lemma_print_emit(s: PrintView, reply: ReplyView, e: Engine, steps: nat)
    requires
        steps >= 1,
        override_print_spec(s, reply).0.phase == PrintPhase::Emit,
        override_print_spec(s, reply).1 is Log,
    ensures
        print_exchange(s, reply, e, Seq::empty(), steps) == Some(
            Printed {
                engine: e,
                lines: seq![override_print_spec(s, reply).1->Log_0],
                results: 0,
            },
        ),
{
    reveal_with_fuel(print_exchange, 2);
    let (next, action) = override_print_spec(s, reply);
    assert(Seq::<Seq<char>>::empty().push(action->Log_0) =~= seq![action->Log_0]);
}

proof fn lemma_print_conversions(e: Engine, s: PrintView, reply: ReplyView, done: int)
    requires
        print_ready(e),
        0 <= done < e.stack.len(),
        override_print_spec(s, reply) == convert(
            PrintView {
                phase: s.phase,
                argc: e.depth(),
                index: done + 1,
                out: converted(e, done),
            },
        ),
    ensures
        print_exchange(
            s,
            reply,
            between(e, done),
            Seq::empty(),
            (5 * (e.stack.len() - done) + 1) as nat,
        ) == Some(
            Printed {
                engine: between(e, e.depth()),
                lines: seq![joined(converted(e, e.depth()), separator())],
                results: 0,
            },
        ),
    decreases e.stack.len() - done,
{
    let n = e.depth();
    let none = ReplyView::Nothing;
    let lines = Seq::<Seq<char>>::empty();
    let steps = (5 * (n - done) + 1) as nat;
    let b0 = between(e, done);
    let o = (e.outcomes)((e.drawn + done) as nat);
    assert(converts(o, e.globals));
    let tostring = tostring_in(b0.fields, e.globals);
    assert(tostring is Function) by {
        if done > 0 {
            assert(converts((e.outcomes)((e.drawn + (done - 1)) as nat), e.globals));
        }
    }
    let s1 = PrintView {
        phase: PrintPhase::Lookup,
        argc: n,
        index: done + 1,
        out: converted(e, done),
    };
    let b1 = b0.push(tostring);
    assert(b0.field(e.globals, "tostring"@) == tostring);
    lemma_print_step(s, reply, b0, lines, steps);

    let s2 = PrintView { phase: PrintPhase::Copy, ..s1 };
    let b2 = b1.push(e.stack[done]);
    assert(b1.value_at(done + 1) == Some(e.stack[done]));
    lemma_print_step(s1, none, b1, lines, (steps - 1) as nat);

    let s3 = PrintView { phase: PrintPhase::Convert, ..s2 };
    assert(b2.stack[n] == tostring);
    assert(b2.with_depth(n).stack =~= e.stack);
    let b3 = Engine { stack: e.stack.push(o.value), ..between(e, done + 1) };
    assert(crate::engine::called(b2, n, tostring) == (b3, o.status));
    lemma_print_step(s2, none, b2, lines, (steps - 2) as nat);

    let s4 = PrintView { phase: PrintPhase::Read, ..s3 };
    assert(b3.value_at(-1) == Some(o.value));
    lemma_print_step(s3, none, b3, lines, (steps - 3) as nat);

    let bytes = o.value->Text_0;
    let s5 = PrintView { phase: PrintPhase::Pop, out: converted(e, done + 1), ..s4 };
    assert(converted(e, done + 1) =~= converted(e, done).push(lossy_text(bytes)));
    let b5 = between(e, done + 1);
    assert(b3.with_depth(n).stack =~= e.stack);
    lemma_print_step(s4, ReplyView::Bytes(bytes), b3, lines, (steps - 4) as nat);

    if done + 1 < n {
        lemma_print_conversions(e, s5, none, done + 1);
    } else {
        lemma_print_emit(s5, none, b5, (steps - 5) as nat);
    }
}

/// Log formatting: one call of print writes exactly one line, which is the
/// engine's own text of each argument, in the order of the arguments, with a
/// single tab between each two; it reports no results, and it leaves the
/// stack as the host set it up. Every operation asked on the way is one that
/// the engine permits.
pub proof fn lemma_print_emits_one_line(e: Engine)
    requires
        print_ready(e),
    ensures
        printed(e) matches Some(p) && {
            &&& p.lines == seq![joined(converted(e, e.depth()), separator())]
            &&& p.results == 0
            &&& p.engine.stack == e.stack
        },
{
    let n = e.depth();
    let s0 = print_start();
    let s1 = PrintView { phase: PrintPhase::Count, ..s0 };
    let lines = Seq::<Seq<char>>::empty();
    lemma_print_step(s0, ReplyView::Nothing, e, lines, (5 * n + 2) as nat);
    assert(converted(e, 0) =~= Seq::empty());
    assert(between(e, 0) == e);
    if n >= 1 {
        lemma_print_conversions(e, s1, ReplyView::Int(n), 0);
    } else {
        lemma_print_emit(s1, ReplyView::Int(n), e, 1);
    }
}

} // verus!
