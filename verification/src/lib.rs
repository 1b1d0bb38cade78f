//! An interactive command shell core: a line of shell syntax is parsed into a
//! structured command tree, and an execution engine walks that tree, deciding
//! which operating-system actions (process spawns, waits, redirections) to
//! perform and in which order.  The engine itself performs no I/O: it is a
//! replay-driven decision procedure, handed a log of the outcomes of the
//! actions it has requested so far, so that every decision it makes is
//! verified for every possible outcome of the outside world.

pub mod errors;
pub mod command;
pub mod state;
pub mod parser;
pub mod engine;
pub mod builtins;
pub mod sig;
pub mod sock;
pub mod shell;
