//! A mathematical model of one interpreter instance, as far as the stack ABI
//! shows it.
//!
//! The model is deterministic. What the interpreter decides on its own
//! (whether a buffer compiles, what a called function returns and how it
//! changes tables) is drawn from an endless list of [`Outcome`]s that the
//! engine carries, so a law that holds for every [`Engine`] holds whatever the
//! interpreter decides. An operation that the ABI does not permit in a state,
//! or whose effect the model does not describe, has no result.
//!
//! Tables are plain maps from string keys to values: metatables are not part
//! of the model, so reading or writing a field runs no code of the script.

use vstd::prelude::*;
use crate::abi::{
    ReplyView, StackOpView, LUA_ERRRUN, LUA_GLOBALSINDEX, LUA_MAXUPVALUES, LUA_MINSTACK, LUA_OK,
    LUA_REGISTRYINDEX,
};

verus! {

/// A value of the scripting language.
pub enum Value {
    Nil,
    Boolean(bool),
    Number(int),
    /// A string, as its bytes.
    Text(Seq<u8>),
    /// A table, by its identity.
    Table(nat),
    /// A function of the script, such as a compiled chunk, by its identity.
    Function(nat),
    /// A native closure that returns its first upvalue.
    IdentityClosure(Seq<Value>),
}

/// The string-keyed fields of all tables: absent means `nil`.
pub type Fields = Map<(nat, Seq<char>), Value>;

/// What the interpreter decided at one point where the ABI leaves it free.
pub struct Outcome {
    /// The status code that it reports.
    pub status: int,
    /// The value that it leaves on the stack: a result, a chunk, or an error
    /// object.
    pub value: Value,
    /// The fields of all tables once it is done.
    pub fields: Fields,
}

/// One interpreter instance, seen from a native function that it has called.
pub struct Engine {
    /// The operand stack of the running native function, bottom first.
    pub stack: Seq<Value>,
    /// The upvalues of the running native closure.
    pub upvalues: Seq<Value>,
    /// The fields of all tables.
    pub fields: Fields,
    /// The identity of the table of globals.
    pub globals: nat,
    /// The number of slots that the stack may grow to.
    pub limit: nat,
    /// What the interpreter will decide, in the order in which it is asked.
    pub outcomes: spec_fn(nat) -> Outcome,
    /// How many outcomes have been drawn.
    pub drawn: nat,
}

impl Value {
    /// Whether a call of this value runs code.
    pub open spec fn callable(self) -> bool {
        self is Function || self is IdentityClosure
    }
}

/// What a call of an identity closure with these upvalues returns.
pub open spec fn identity_result(upvalues: Seq<Value>) -> Value {
    if upvalues.len() >= 1 {
        upvalues[0]
    } else {
        Value::Nil
    }
}

impl Engine {
    /// The number of values on the stack.
    pub open spec fn depth(self) -> int {
        self.stack.len() as int
    }

    /// Whether one more value can be pushed.
    pub open spec fn has_room(self) -> bool {
        self.stack.len() < self.limit
    }

    /// The value that an index refers to, where the index is acceptable:
    /// a stack slot counted from the bottom (positive) or from the top
    /// (negative), the table of globals, or an upvalue.
    pub open spec fn value_at(self, index: int) -> Option<Value> {
        if 1 <= index <= self.stack.len() {
            Some(self.stack[index - 1])
        } else if -self.stack.len() <= index <= -1 && LUA_REGISTRYINDEX < index {
            Some(self.stack[self.stack.len() + index])
        } else if index == LUA_GLOBALSINDEX {
            Some(Value::Table(self.globals))
        } else if LUA_GLOBALSINDEX - LUA_MAXUPVALUES <= index < LUA_GLOBALSINDEX {
            let n = LUA_GLOBALSINDEX - index;
            if n <= self.upvalues.len() {
                Some(self.upvalues[n - 1])
            } else {
                Some(Value::Nil)
            }
        } else {
            None
        }
    }

    /// The field `key` of table `table`.
    pub open spec fn field(self, table: nat, key: Seq<char>) -> Value {
        field_of(self.fields, table, key)
    }

    /// The next decision of the interpreter.
    pub open spec fn next_outcome(self) -> Outcome {
        (self.outcomes)(self.drawn)
    }

    /// The engine with `value` pushed.
    pub open spec fn push(self, value: Value) -> Engine {
        Engine { stack: self.stack.push(value), ..self }
    }

    /// The engine once the next decision has been drawn.
    pub open spec fn draw(self) -> Engine {
        Engine { drawn: self.drawn + 1, ..self }
    }

    /// The engine with the stack cut or filled to `depth` values.
    pub open spec fn with_depth(self, depth: int) -> Engine {
        Engine {
            stack: Seq::new(
                depth as nat,
                |i: int|
                    if i < self.stack.len() {
                        self.stack[i]
                    } else {
                        Value::Nil
                    },
            ),
            ..self
        }
    }
}

/// The field `key` of table `table` among `fields`: `nil` where there is no
/// entry.
pub open spec fn field_of(fields: Fields, table: nat, key: Seq<char>) -> Value {
    if fields.dom().contains((table, key)) {
        fields[(table, key)]
    } else {
        Value::Nil
    }
}

/// The fields after `value` was stored under `key` in `table`: storing `nil`
/// removes the entry.
pub open spec fn store(fields: Fields, table: nat, key: Seq<char>, value: Value) -> Fields {
    if value is Nil {
        fields.remove((table, key))
    } else {
        fields.insert((table, key), value)
    }
}

/// The engine after a call of `callee` with the stack cut to `base` values,
/// and the status of the call. A function of the script draws an outcome. An
/// identity closure returns its first upvalue. Any other value cannot be
/// called: the interpreter raises a runtime error and decides on the error
/// object only.
pub open spec fn called(e: Engine, base: int, callee: Value) -> (Engine, int) {
    let below = e.with_depth(base);
    let o = e.next_outcome();
    match callee {
        Value::IdentityClosure(upvalues) => (below.push(identity_result(upvalues)), LUA_OK as int),
        Value::Function(_) => (
            Engine { fields: o.fields, ..below.push(o.value).draw() },
            o.status,
        ),
        _ => (below.push(o.value).draw(), LUA_ERRRUN as int),
    }
}

/// The effect of one operation: the engine afterwards and the reply, or
/// nothing where the ABI does not permit the operation in this state or the
/// model does not describe it.
pub open spec fn perform(e: Engine, op: StackOpView) -> Option<(Engine, ReplyView)> {
    match op {
        StackOpView::GetTop => Some((e, ReplyView::Int(e.depth()))),
        StackOpView::SetTop { index } => {
            if 0 <= index <= e.limit {
                Some((e.with_depth(index), ReplyView::Nothing))
            } else if -(e.depth() + 1) <= index < 0 {
                Some((e.with_depth(e.depth() + index + 1), ReplyView::Nothing))
            } else {
                None
            }
        },
        StackOpView::PushValue { index } => {
            match e.value_at(index) {
                Some(value) if e.has_room() => Some((e.push(value), ReplyView::Nothing)),
                _ => None,
            }
        },
        StackOpView::PushIdentityClosure { upvalues } => {
            if 0 <= upvalues <= LUA_MAXUPVALUES && upvalues <= e.depth() && (upvalues >= 1
                || e.has_room()) {
                let kept = e.depth() - upvalues;
                let captured = e.stack.subrange(kept, e.depth());
                Some(
                    (e.with_depth(kept).push(Value::IdentityClosure(captured)), ReplyView::Nothing),
                )
            } else {
                None
            }
        },
        StackOpView::GetField { index, key } => {
            match e.value_at(index) {
                Some(Value::Table(table)) if e.has_room() => Some(
                    (e.push(e.field(table, key)), ReplyView::Nothing),
                ),
                _ => None,
            }
        },
        StackOpView::SetField { index, key } => {
            match e.value_at(index) {
                Some(Value::Table(table)) if e.depth() >= 1 => Some(
                    (
                        Engine {
                            fields: store(e.fields, table, key, e.stack.last()),
                            ..e.with_depth(e.depth() - 1)
                        },
                        ReplyView::Nothing,
                    ),
                ),
                _ => None,
            }
        },
        StackOpView::Call { nargs, nresults } => {
            if nargs >= 0 && nresults == 1 && e.depth() >= nargs + 1 {
                let base = e.depth() - nargs - 1;
                let (after, status) = called(e, base, e.stack[base]);
                if e.stack[base].callable() && status == LUA_OK {
                    Some((after, ReplyView::Nothing))
                } else {
                    None
                }
            } else {
                None
            }
        },
        StackOpView::PCall { nargs, nresults, errfunc } => {
            if nargs >= 0 && nresults == 1 && errfunc == 0 && e.depth() >= nargs + 1 {
                let base = e.depth() - nargs - 1;
                let (after, status) = called(e, base, e.stack[base]);
                Some((after, ReplyView::Int(status)))
            } else {
                None
            }
        },
        StackOpView::ToLString { index } => {
            match e.value_at(index) {
                Some(Value::Text(bytes)) => Some((e, ReplyView::Bytes(bytes))),
                Some(Value::Number(_)) => None,
                Some(_) => Some((e, ReplyView::Nothing)),
                None => None,
            }
        },
        StackOpView::LoadBuffer { buffer, chunk_name, mode } => {
            if e.has_room() {
                let o = e.next_outcome();
                Some((e.push(o.value).draw(), ReplyView::Int(o.status)))
            } else {
                None
            }
        },
    }
}

/// Whether the host's module system is in place and the running native
/// function has the free slots that the engine guarantees on entry:
/// `package` is a global table and `package.preload` a table.
pub open spec fn host_ready(e: Engine) -> bool {
    &&& e.stack.len() + LUA_MINSTACK <= e.limit <= i32::MAX
    &&& e.field(e.globals, "package"@) is Table
    &&& e.field(e.field(e.globals, "package"@)->Table_0, "preload"@) is Table
}

/// The identity of the table `package.preload`.
pub open spec fn preload_table(e: Engine) -> nat
    recommends
        host_ready(e),
{
    e.field(e.field(e.globals, "package"@)->Table_0, "preload"@)->Table_0
}

} // verus!
