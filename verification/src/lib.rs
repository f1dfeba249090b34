//! A bytecode representation and stack-based interpreter for a small
//! dynamically typed expression language: a `Block` holds an instruction
//! byte stream with constant and string pools and a run-length source-line
//! map, a `VirtualMachine` executes it, and a disassembler decodes it with
//! the same width rules as the interpreter.

pub mod block;
pub mod disasm;
pub mod numeric;
pub mod opcode;
pub mod token;
pub mod value;
pub mod vm;
