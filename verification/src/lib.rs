//! A small typed bytecode virtual machine.
//!
//! Programs are built from `Function`s (typed locals plus an instruction
//! list), packed into a `Program` keyed by function id, and run by an
//! `Interpreter` that dynamically type-checks every slot mutation.

pub mod instructions;
pub mod interpreter;
pub mod interpreter_error;
pub mod operations;
pub mod value;
