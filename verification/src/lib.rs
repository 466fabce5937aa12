//! A minimal stack-based bytecode virtual machine.
//!
//! The machine decodes a flat byte buffer as a sequence of instructions and
//! executes them against an operand stack and a call stack. It supports
//! arithmetic on signed 32-bit values, output, unconditional and conditional
//! jumps, and function calls with frame-relative addressing of locals and
//! parameters. Every fault (unknown opcode, stack underflow, out-of-bounds
//! slot access, division by zero, program counter out of range) is reported
//! as a structured result instead of aborting.
//!
//! The semantics are given as a mathematical step function over a ghost model
//! of the machine state ([`semantics`]); the interpreter ([`vm`]) is proved
//! to implement that step function exactly, and the general properties of the
//! instruction set are proved as lemmas over the model ([`laws`]).

pub mod fault;
pub mod laws;
pub mod semantics;
pub mod vm;
