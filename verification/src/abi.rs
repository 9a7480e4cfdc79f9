//! The engine's stack ABI as plain values: the operations this crate asks
//! for, and what the engine answers.
//!
//! Nothing here calls the engine. A caller that holds the engine's entry
//! points performs each [`StackOp`] and hands the [`Reply`] back; the
//! functions that decide which operation comes next are verified against the
//! mathematical counterparts of these two types.

use vstd::prelude::*;

verus! {

/// Pseudo-index of the registry: every index above it names a stack slot.
pub const LUA_REGISTRYINDEX: i32 = -10000;

/// Pseudo-index of the table of globals.
pub const LUA_GLOBALSINDEX: i32 = -10002;

/// Type tag of `nil`.
pub const LUA_TNIL: i32 = 0;

/// Type tag of a boolean.
pub const LUA_TBOOLEAN: i32 = 1;

/// Status with which a protected call or a compilation reports success.
pub const LUA_OK: i32 = 0;

/// Status with which a protected call reports a runtime error.
pub const LUA_ERRRUN: i32 = 2;

/// Free stack slots that the engine guarantees to a native function on entry.
pub const LUA_MINSTACK: i32 = 20;

/// Most upvalues that a native closure can capture.
pub const LUA_MAXUPVALUES: i32 = 255;

/// One call into the engine's stack API.
#[derive(Debug, PartialEq, Eq)]
pub enum StackOp {
    /// Ask for the index of the top element, which is the stack's depth.
    GetTop,
    /// Set the top to `index`, dropping what lies above it or filling with
    /// `nil`; a negative index counts from the current top.
    SetTop { index: i32 },
    /// Push a copy of the value at `index`.
    PushValue { index: i32 },
    /// Pop `upvalues` values and push a native closure that captures them and,
    /// when called, returns the first of them.
    PushIdentityClosure { upvalues: i32 },
    /// Push the field `key` of the table at `index`.
    GetField { index: i32, key: String },
    /// Pop the top value and store it as field `key` of the table at `index`.
    SetField { index: i32, key: String },
    /// Call the value below `nargs` arguments; an error is not caught.
    Call { nargs: i32, nresults: i32 },
    /// Call the value below `nargs` arguments in protected mode.
    PCall { nargs: i32, nresults: i32, errfunc: i32 },
    /// Read the string at `index`.
    ToLString { index: i32 },
    /// Compile the bytes of `buffer`, passed with their length, through the
    /// unpatched compile entry point, under the display name `chunk_name`
    /// and in the compile mode `mode` if there is one, and push the chunk or
    /// the error message.
    LoadBuffer { buffer: Vec<u8>, chunk_name: String, mode: Option<String> },
}

/// What a [`StackOp`] is in specifications.
pub enum StackOpView {
    GetTop,
    SetTop { index: int },
    PushValue { index: int },
    PushIdentityClosure { upvalues: int },
    GetField { index: int, key: Seq<char> },
    SetField { index: int, key: Seq<char> },
    Call { nargs: int, nresults: int },
    PCall { nargs: int, nresults: int, errfunc: int },
    ToLString { index: int },
    LoadBuffer { buffer: Seq<u8>, chunk_name: Seq<char>, mode: Option<Seq<char>> },
}

impl View for StackOp {
    type V = StackOpView;

    open spec fn view(&self) -> StackOpView {
        match self {
            StackOp::GetTop => StackOpView::GetTop,
            StackOp::SetTop { index } => StackOpView::SetTop { index: *index as int },
            StackOp::PushValue { index } => StackOpView::PushValue { index: *index as int },
            StackOp::PushIdentityClosure { upvalues } => StackOpView::PushIdentityClosure {
                upvalues: *upvalues as int,
            },
            StackOp::GetField { index, key } => StackOpView::GetField {
                index: *index as int,
                key: key@,
            },
            StackOp::SetField { index, key } => StackOpView::SetField {
                index: *index as int,
                key: key@,
            },
            StackOp::Call { nargs, nresults } => StackOpView::Call {
                nargs: *nargs as int,
                nresults: *nresults as int,
            },
            StackOp::PCall { nargs, nresults, errfunc } => StackOpView::PCall {
                nargs: *nargs as int,
                nresults: *nresults as int,
                errfunc: *errfunc as int,
            },
            StackOp::ToLString { index } => StackOpView::ToLString { index: *index as int },
            StackOp::LoadBuffer { buffer, chunk_name, mode } => StackOpView::LoadBuffer {
                buffer: buffer@,
                chunk_name: chunk_name@,
                mode: match mode {
                    Some(mode) => Some(mode@),
                    None => None,
                },
            },
        }
    }
}

/// What the engine hands back for one [`StackOp`].
#[derive(Debug, PartialEq, Eq)]
pub enum Reply {
    /// The operation returns nothing, or returned a null pointer.
    Nothing,
    /// A depth or a status code.
    Int(i32),
    /// The bytes of a string.
    Bytes(Vec<u8>),
}

/// What a [`Reply`] is in specifications.
pub enum ReplyView {
    Nothing,
    Int(int),
    Bytes(Seq<u8>),
}

impl View for Reply {
    type V = ReplyView;

    open spec fn view(&self) -> ReplyView {
        match self {
            Reply::Nothing => ReplyView::Nothing,
            Reply::Int(n) => ReplyView::Int(*n as int),
            Reply::Bytes(bytes) => ReplyView::Bytes(bytes@),
        }
    }
}

/// The view of an operation that may be absent.
pub open spec fn op_view(op: Option<StackOp>) -> Option<StackOpView> {
    match op {
        Some(op) => Some(op@),
        None => None,
    }
}

/// Pseudo-index of the `n`-th upvalue of the running native closure, counted
/// from one.
pub open spec fn upvalue_index_spec(n: int) -> int {
    LUA_GLOBALSINDEX - n
}

/// Pseudo-index of the `n`-th upvalue of the running native closure.
pub fn upvalue_index(n: i32) -> (index: i32)
    requires
        1 <= n <= LUA_MAXUPVALUES,
    ensures
        index == upvalue_index_spec(n as int),
{
    LUA_GLOBALSINDEX - n
}

} // verus!
