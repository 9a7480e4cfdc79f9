//! Decision logic of a native extension that lives inside a host process
//! embedding a stack-based scripting engine.
//!
//! The extension intercepts the host's module-compile entry point, compiles
//! each named buffer through the implementation that the hook displaced, and
//! publishes the result in the engine's module-preload table. Everything that
//! touches the engine's memory happens outside this crate; what is here
//! decides which stack operation comes next, and proves that those decisions
//! keep the operand stack balanced on every path.

pub mod abi;
pub mod bootstrap;
pub mod engine;
pub mod inject;
pub mod print;
pub mod symbols;
pub mod text;
