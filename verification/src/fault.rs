//! Outcome types of the machine: faults, print records, and run results.

use vstd::prelude::*;

verus! {

/// The kinds of execution fault. Every fault is unrecoverable for the
/// current run: execution stops at the point of detection.
#[derive(Clone, Copy, PartialEq, Eq, Structural, Debug)]
pub enum FaultKind {
    /// The byte decoded as an opcode is not in the recognized set.
    UnknownOpcode,
    /// A pop was attempted on an empty operand stack, or a return on a
    /// call stack with fewer than two entries.
    StackUnderflow,
    /// A local or parameter index resolved outside the operand stack.
    OutOfBoundsAccess,
    /// The divisor of a DIV instruction was zero.
    DivisionByZero,
    /// The program counter left the interval `[0, program length]`, or an
    /// immediate operand was required past the end of the program.
    ProgramCounterOutOfRange,
}

/// A fault report: the kind of fault and the program counter at the moment
/// of detection.
#[derive(Clone, Copy, PartialEq, Eq, Structural, Debug)]
pub struct VmFault {
    pub kind: FaultKind,
    pub pc: usize,
}

/// One record of PRINT output: the program counter at emission time and the
/// value that was popped and printed.
#[derive(Clone, Copy, PartialEq, Eq, Structural, Debug)]
pub struct PrintEvent {
    pub pc: usize,
    pub value: i32,
}

/// What a single decoded instruction did to the machine.
#[derive(Clone, Copy, PartialEq, Eq, Structural, Debug)]
pub enum StepStatus {
    /// The instruction completed and the machine can decode the next one.
    Running,
    /// The machine reached a terminal success state (HALT, or the program
    /// counter reached the end of the program).
    Halted,
    /// The instruction faulted; the machine state is left untouched.
    Faulted(VmFault),
}

/// The terminal report of a bounded run.
#[derive(Clone, Copy, PartialEq, Eq, Structural, Debug)]
pub enum RunOutcome {
    /// Normal completion: HALT was decoded or the program ran off its end.
    Halted,
    /// Abnormal completion, with the fault and where it was detected.
    Faulted(VmFault),
    /// The step budget ran out before a terminal state was observed.
    OutOfSteps,
}

} // verus!
