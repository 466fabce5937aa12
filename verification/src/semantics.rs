//! The mathematical semantics of the machine: a ghost model of the execution
//! state and a step function that gives the exact meaning of every
//! instruction. The interpreter in [`crate::vm`] is proved to implement
//! [`step`] instruction by instruction, and [`run_spec`] iterates [`step`]
//! under a fuel bound, which is what [`crate::vm::VM::run`] is proved to
//! compute.

use vstd::prelude::*;

use crate::fault::{FaultKind, PrintEvent, RunOutcome, VmFault};

verus! {

pub const OP_PUSH: u8 = 0x01;

pub const OP_ADD: u8 = 0x02;

pub const OP_SUB: u8 = 0x03;

pub const OP_MUL: u8 = 0x04;

pub const OP_DIV: u8 = 0x05;

pub const OP_PRINT: u8 = 0x06;

pub const OP_CALL: u8 = 0x10;

pub const OP_RETURN: u8 = 0x11;

pub const OP_JUMP: u8 = 0x12;

pub const OP_JUMP_IF: u8 = 0x13;

pub const OP_STORE_LOCAL: u8 = 0x20;

pub const OP_LOAD_LOCAL: u8 = 0x21;

pub const OP_STORE_PARAM: u8 = 0x22;

pub const OP_LOAD_PARAM: u8 = 0x23;

pub const OP_HALT: u8 = 0xFF;

/// The model of the whole execution state.
///
/// `memory` is the immutable program; `stack` the operand stack (top = last
/// element); `call_stack` the saved return addresses and frame pointers,
/// pushed in pairs (return address first, then the caller's frame pointer);
/// `frame_pointer` the base of the current frame in the operand stack;
/// `program_counter` the index of the next byte to decode; `output` the log
/// of everything PRINT has emitted so far, oldest first.
#[verifier::ext_equal]
pub ghost struct VmState {
    pub memory: Seq<u8>,
    pub stack: Seq<i32>,
    pub call_stack: Seq<nat>,
    pub frame_pointer: nat,
    pub program_counter: nat,
    pub output: Seq<PrintEvent>,
}

/// What one application of [`step`] yields: the successor state, a normal
/// halt, or a fault (its kind, and the program counter at detection time).
pub ghost enum StepResult {
    Next(VmState),
    Halt,
    Fault(FaultKind, nat),
}

/// The state a machine is constructed in: the given program, empty stacks,
/// both pointers at zero, and no output yet.
pub open spec fn init_state(program: Seq<u8>) -> VmState {
    VmState {
        memory: program,
        stack: Seq::empty(),
        call_stack: Seq::empty(),
        frame_pointer: 0,
        program_counter: 0,
        output: Seq::empty(),
    }
}

/// A PUSH immediate is one byte, sign-extended to a signed 32-bit value.
pub open spec fn sign_extend(b: u8) -> i32 {
    if b < 0x80 {
        b as i32
    } else {
        ((b as int) - 0x100) as i32
    }
}

/// Truncating integer division (round toward zero), total in the divisor
/// only for the sake of the definition; [`step`] never divides by zero.
pub open spec fn trunc_quot(x: int, d: int) -> int {
    let mag = abs(x) / abs(d);
    if (x >= 0) == (d >= 0) {
        mag
    } else {
        -mag
    }
}

/// The absolute value of an integer.
pub open spec fn abs(x: int) -> int {
    if x >= 0 {
        x
    } else {
        -x
    }
}

/// What DIV pushes: the truncating quotient, wrapped into `i32`. The only
/// quotient that does not fit is `i32::MIN / -1`, which wraps to `i32::MIN`.
pub open spec fn div_wrap(top: i32, second: i32) -> i32 {
    if top == i32::MIN && second == -1 {
        i32::MIN
    } else {
        trunc_quot(top as int, second as int) as i32
    }
}

/// The value an arithmetic opcode pushes, from the first popped value
/// (`top`) and the second (`second`): `top OP second`, wrapping.
pub open spec fn arith_result(op: u8, top: i32, second: i32) -> i32 {
    if op == OP_ADD {
        top.wrapping_add(second)
    } else if op == OP_SUB {
        top.wrapping_sub(second)
    } else if op == OP_MUL {
        top.wrapping_mul(second)
    } else {
        div_wrap(top, second)
    }
}

/// PUSH imm8: read one immediate byte and push it, sign-extended.
pub open spec fn step_push(s: VmState) -> StepResult {
    if s.program_counter + 1 >= s.memory.len() {
        StepResult::Fault(FaultKind::ProgramCounterOutOfRange, s.program_counter + 1)
    } else {
        let b = s.memory[(s.program_counter + 1) as int];
        StepResult::Next(
            VmState {
                stack: s.stack.push(sign_extend(b)),
                program_counter: s.program_counter + 2,
                ..s
            },
        )
    }
}

/// ADD, SUB, MUL or DIV: pop `top`, pop `second`, push `top OP second`.
/// Fewer than two operands is a stack underflow; DIV with `second == 0` is
/// a division by zero.
pub open spec fn step_arith(s: VmState, op: u8) -> StepResult {
    if s.stack.len() < 2 {
        StepResult::Fault(FaultKind::StackUnderflow, s.program_counter + 1)
    } else {
        let top = s.stack[s.stack.len() - 1];
        let second = s.stack[s.stack.len() - 2];
        if op == OP_DIV && second == 0 {
            StepResult::Fault(FaultKind::DivisionByZero, s.program_counter + 1)
        } else {
            StepResult::Next(
                VmState {
                    stack: s.stack.take(s.stack.len() - 2).push(arith_result(op, top, second)),
                    program_counter: s.program_counter + 1,
                    ..s
                },
            )
        }
    }
}

/// PRINT: pop one value and append it, together with the program counter
/// after the opcode, to the output log. Nothing below the popped value is
/// touched.
pub open spec fn step_print(s: VmState) -> StepResult {
    if s.stack.len() == 0 {
        StepResult::Fault(FaultKind::StackUnderflow, s.program_counter + 1)
    } else {
        StepResult::Next(
            VmState {
                stack: s.stack.drop_last(),
                program_counter: s.program_counter + 1,
                output: s.output.push(
                    PrintEvent { pc: (s.program_counter + 1) as usize, value: s.stack.last() },
                ),
                ..s
            },
        )
    }
}

/// CALL addr8: read the target as an immediate byte, push the return
/// address (the program counter past the operand) and the current frame
/// pointer onto the call stack, point the frame pointer at the current top
/// of the operand stack, and jump to the target.
pub open spec fn step_call(s: VmState) -> StepResult {
    if s.program_counter + 1 >= s.memory.len() {
        StepResult::Fault(FaultKind::ProgramCounterOutOfRange, s.program_counter + 1)
    } else {
        let target = s.memory[(s.program_counter + 1) as int] as nat;
        StepResult::Next(
            VmState {
                call_stack: s.call_stack.push(s.program_counter + 2).push(s.frame_pointer),
                frame_pointer: s.stack.len(),
                program_counter: target,
                ..s
            },
        )
    }
}

/// RETURN: pop the saved frame pointer, then the saved return address, and
/// restore both. A call stack with fewer than two entries is a stack
/// underflow.
pub open spec fn step_return(s: VmState) -> StepResult {
    if s.call_stack.len() < 2 {
        StepResult::Fault(FaultKind::StackUnderflow, s.program_counter + 1)
    } else {
        StepResult::Next(
            VmState {
                call_stack: s.call_stack.take(s.call_stack.len() - 2),
                frame_pointer: s.call_stack[s.call_stack.len() - 1],
                program_counter: s.call_stack[s.call_stack.len() - 2],
                ..s
            },
        )
    }
}

/// JUMP addr8: read one immediate byte and set the program counter to it.
pub open spec fn step_jump(s: VmState) -> StepResult {
    if s.program_counter + 1 >= s.memory.len() {
        StepResult::Fault(FaultKind::ProgramCounterOutOfRange, s.program_counter + 1)
    } else {
        StepResult::Next(
            VmState { program_counter: s.memory[(s.program_counter + 1) as int] as nat, ..s },
        )
    }
}

/// JUMP_IF addr8: pop a condition, read the target byte, and jump exactly
/// when the condition is nonzero; otherwise fall through past the operand.
pub open spec fn step_jump_if(s: VmState) -> StepResult {
    if s.stack.len() == 0 {
        StepResult::Fault(FaultKind::StackUnderflow, s.program_counter + 1)
    } else if s.program_counter + 1 >= s.memory.len() {
        StepResult::Fault(FaultKind::ProgramCounterOutOfRange, s.program_counter + 1)
    } else {
        let target = s.memory[(s.program_counter + 1) as int] as nat;
        StepResult::Next(
            VmState {
                stack: s.stack.drop_last(),
                program_counter: if s.stack.last() != 0 {
                    target
                } else {
                    s.program_counter + 2
                },
                ..s
            },
        )
    }
}

/// STORE_LOCAL idx8: pop the top of the operand stack and overwrite the
/// slot at `frame_pointer + idx`. The slot must already exist below the
/// popped value, or the access is out of bounds.
pub open spec fn step_store_local(s: VmState) -> StepResult {
    if s.program_counter + 1 >= s.memory.len() {
        StepResult::Fault(FaultKind::ProgramCounterOutOfRange, s.program_counter + 1)
    } else {
        let idx = s.memory[(s.program_counter + 1) as int] as nat;
        if s.stack.len() == 0 {
            StepResult::Fault(FaultKind::StackUnderflow, s.program_counter + 2)
        } else if s.frame_pointer + idx >= s.stack.len() - 1 {
            StepResult::Fault(FaultKind::OutOfBoundsAccess, s.program_counter + 2)
        } else {
            StepResult::Next(
                VmState {
                    stack: s.stack.drop_last().update(
                        (s.frame_pointer + idx) as int,
                        s.stack.last(),
                    ),
                    program_counter: s.program_counter + 2,
                    ..s
                },
            )
        }
    }
}

/// LOAD_LOCAL idx8: push a copy of the slot at `frame_pointer + idx`,
/// which must exist in the operand stack.
pub open spec fn step_load_local(s: VmState) -> StepResult {
    if s.program_counter + 1 >= s.memory.len() {
        StepResult::Fault(FaultKind::ProgramCounterOutOfRange, s.program_counter + 1)
    } else {
        let idx = s.memory[(s.program_counter + 1) as int] as nat;
        if s.frame_pointer + idx >= s.stack.len() {
            StepResult::Fault(FaultKind::OutOfBoundsAccess, s.program_counter + 2)
        } else {
            StepResult::Next(
                VmState {
                    stack: s.stack.push(s.stack[(s.frame_pointer + idx) as int]),
                    program_counter: s.program_counter + 2,
                    ..s
                },
            )
        }
    }
}

/// STORE_PARAM idx8: pop the top of the operand stack and overwrite the
/// slot at `frame_pointer - (idx + 1)`. A subtraction that would go
/// negative, or a slot at or above the popped value, is out of bounds.
pub open spec fn step_store_param(s: VmState) -> StepResult {
    if s.program_counter + 1 >= s.memory.len() {
        StepResult::Fault(FaultKind::ProgramCounterOutOfRange, s.program_counter + 1)
    } else {
        let idx = s.memory[(s.program_counter + 1) as int] as nat;
        if s.stack.len() == 0 {
            StepResult::Fault(FaultKind::StackUnderflow, s.program_counter + 2)
        } else if idx + 1 > s.frame_pointer || s.frame_pointer - (idx + 1) >= s.stack.len() - 1 {
            StepResult::Fault(FaultKind::OutOfBoundsAccess, s.program_counter + 2)
        } else {
            StepResult::Next(
                VmState {
                    stack: s.stack.drop_last().update(
                        (s.frame_pointer - (idx + 1)) as int,
                        s.stack.last(),
                    ),
                    program_counter: s.program_counter + 2,
                    ..s
                },
            )
        }
    }
}

/// LOAD_PARAM idx8: push a copy of the slot at `frame_pointer - (idx + 1)`,
/// which must exist in the operand stack.
pub open spec fn step_load_param(s: VmState) -> StepResult {
    if s.program_counter + 1 >= s.memory.len() {
        StepResult::Fault(FaultKind::ProgramCounterOutOfRange, s.program_counter + 1)
    } else {
        let idx = s.memory[(s.program_counter + 1) as int] as nat;
        if idx + 1 > s.frame_pointer || s.frame_pointer - (idx + 1) >= s.stack.len() {
            StepResult::Fault(FaultKind::OutOfBoundsAccess, s.program_counter + 2)
        } else {
            StepResult::Next(
                VmState {
                    stack: s.stack.push(s.stack[(s.frame_pointer - (idx + 1)) as int]),
                    program_counter: s.program_counter + 2,
                    ..s
                },
            )
        }
    }
}

/// Whether a byte is in the recognized opcode set.
pub open spec fn recognized_opcode(op: u8) -> bool {
    op == OP_PUSH || op == OP_ADD || op == OP_SUB || op == OP_MUL || op == OP_DIV || op
        == OP_PRINT || op == OP_CALL || op == OP_RETURN || op == OP_JUMP || op == OP_JUMP_IF || op
        == OP_STORE_LOCAL || op == OP_LOAD_LOCAL || op == OP_STORE_PARAM || op == OP_LOAD_PARAM
        || op == OP_HALT
}

/// Decode and execute one instruction.
///
/// A program counter at the end of the program halts normally; past the end
/// (only reachable through a jump, call or return target) it is a fault. An
/// unknown opcode faults at the program counter of that opcode; every other
/// fault reports the program counter after the bytes the instruction had
/// consumed at detection time.
pub open spec fn step(s: VmState) -> StepResult {
    if s.program_counter == s.memory.len() {
        StepResult::Halt
    } else if s.program_counter > s.memory.len() {
        StepResult::Fault(FaultKind::ProgramCounterOutOfRange, s.program_counter)
    } else {
        let op = s.memory[s.program_counter as int];
        if op == OP_PUSH {
            step_push(s)
        } else if op == OP_ADD || op == OP_SUB || op == OP_MUL || op == OP_DIV {
            step_arith(s, op)
        } else if op == OP_PRINT {
            step_print(s)
        } else if op == OP_CALL {
            step_call(s)
        } else if op == OP_RETURN {
            step_return(s)
        } else if op == OP_JUMP {
            step_jump(s)
        } else if op == OP_JUMP_IF {
            step_jump_if(s)
        } else if op == OP_STORE_LOCAL {
            step_store_local(s)
        } else if op == OP_LOAD_LOCAL {
            step_load_local(s)
        } else if op == OP_STORE_PARAM {
            step_store_param(s)
        } else if op == OP_LOAD_PARAM {
            step_load_param(s)
        } else if op == OP_HALT {
            StepResult::Halt
        } else {
            StepResult::Fault(FaultKind::UnknownOpcode, s.program_counter)
        }
    }
}

/// Iterate [`step`] at most `fuel` times: the state after the run and its
/// outcome. Fuel is spent once per executed instruction; a machine whose
/// budget runs out before it takes a terminal step is reported as still
/// running, with its state unchanged by the step it did not take.
pub open spec fn run_spec(s: VmState, fuel: nat) -> (VmState, RunOutcome)
    decreases fuel,
{
    if fuel == 0 {
        (s, RunOutcome::OutOfSteps)
    } else {
        match step(s) {
            StepResult::Halt => (s, RunOutcome::Halted),
            StepResult::Fault(kind, pc) => (
                s,
                RunOutcome::Faulted(VmFault { kind, pc: pc as usize }),
            ),
            StepResult::Next(s2) => run_spec(s2, (fuel - 1) as nat),
        }
    }
}

/// The relation every instruction handler of the interpreter satisfies:
/// against the step result `sr` computed on its pre-state, a handler that
/// returns `r` either took the step exactly (`post` is the successor state
/// and no fault is reported) or reported the fault and left the machine
/// untouched. Handlers are never dispatched on a halting step.
pub open spec fn implements_step(
    pre: VmState,
    post: VmState,
    sr: StepResult,
    r: Option<VmFault>,
) -> bool {
    match sr {
        StepResult::Next(s2) => r is None && post == s2,
        StepResult::Fault(kind, pc) => r == Some(VmFault { kind, pc: pc as usize }) && post == pre,
        StepResult::Halt => false,
    }
}

} // verus!
