//! The interpreter: an executable machine proved to implement the step
//! semantics of [`crate::semantics`] exactly.

use vstd::arithmetic::div_mod::{
    lemma_div_basics, lemma_div_is_ordered, lemma_div_is_ordered_by_denominator,
    lemma_div_nonincreasing, lemma_div_pos_is_pos,
};
use vstd::prelude::*;

use crate::fault::{FaultKind, PrintEvent, RunOutcome, StepStatus, VmFault};
use crate::semantics::{
    abs, div_wrap, implements_step, init_state, run_spec, step, step_arith, step_call,
    step_jump, step_jump_if, step_load_local, step_load_param, step_print, step_push,
    step_return, step_store_local, step_store_param, trunc_quot, StepResult, VmState, OP_ADD,
    OP_CALL, OP_DIV, OP_HALT, OP_JUMP, OP_JUMP_IF, OP_LOAD_LOCAL, OP_LOAD_PARAM, OP_MUL,
    OP_PRINT, OP_PUSH, OP_RETURN, OP_STORE_LOCAL, OP_STORE_PARAM, OP_SUB,
};

verus! {

/// How [`trunc_quot`] unfolds on each sign case, and its range: the
/// quotient lies in `[i32::MIN, i32::MIN * -1]`, and the one value out of
/// `i32` range, `i32::MIN * -1`, arises only from `i32::MIN / -1`.
proof fn lemma_trunc_quot_range(x: int, d: int)
    requires
        -0x8000_0000 <= x <= 0x7fff_ffff,
        -0x8000_0000 <= d <= 0x7fff_ffff,
        d != 0,
    ensures
        x == 0 ==> trunc_quot(x, d) == 0,
        x > 0 && d > 0 ==> trunc_quot(x, d) == x / d,
        x < 0 && d < 0 ==> trunc_quot(x, d) == (x * -1) / (d * -1),
        x < 0 && d > 0 ==> trunc_quot(x, d) == ((x * -1) / d) * -1,
        x > 0 && d < 0 ==> trunc_quot(x, d) == (x / (d * -1)) * -1,
        -0x8000_0000 <= trunc_quot(x, d) <= 0x8000_0000,
        trunc_quot(x, d) == 0x8000_0000 ==> x == -0x8000_0000 && d == -1,
{
    lemma_div_pos_is_pos(abs(x), abs(d));
    lemma_div_nonincreasing(abs(x), abs(d));
    lemma_div_basics(abs(x));
    lemma_div_basics(abs(d));
    if abs(d) >= 2 {
        lemma_div_is_ordered_by_denominator(abs(x), 2, abs(d));
        lemma_div_is_ordered(abs(x), 0x8000_0000, 2);
    }
}

/// Truncating division wrapped into `i32`, as DIV computes it.
fn div_exec(top: i32, second: i32) -> (q: i32)
    requires
        second != 0,
    ensures
        q == div_wrap(top, second),
{
    let r = top.checked_div(second);
    proof {
        lemma_trunc_quot_range(top as int, second as int);
    }
    match r {
        Some(v) => {
            proof {
                assert(v == trunc_quot(top as int, second as int));
                assert(!(top == i32::MIN && second == -1));
            }
            v
        },
        None => {
            proof {
                assert(top == i32::MIN && second == -1);
            }
            i32::MIN
        },
    }
}

/// The virtual machine. All four pieces of execution state are created at
/// construction and mutated in place for the whole run; the output log
/// records what PRINT has emitted.
pub struct VM {
    /// The program: read-only instruction memory.
    memory: Vec<u8>,
    /// The operand stack of signed 32-bit values; top = last element.
    stack: Vec<i32>,
    /// Saved (return address, frame pointer) pairs, flattened: each CALL
    /// pushes the return address and then the caller's frame pointer.
    call_stack: Vec<usize>,
    /// The base of the current frame in the operand stack.
    frame_pointer: usize,
    /// The index in `memory` of the next byte to decode.
    program_counter: usize,
    /// Everything PRINT has emitted, oldest first.
    output: Vec<PrintEvent>,
}

impl View for VM {
    type V = VmState;

    closed spec fn view(&self) -> VmState {
        VmState {
            memory: self.memory@,
            stack: self.stack@,
            call_stack: self.call_stack@.map_values(|x: usize| x as nat),
            frame_pointer: self.frame_pointer as nat,
            program_counter: self.program_counter as nat,
            output: self.output@,
        }
    }
}

impl VM {
    /// Construct a machine over a program. No validation happens here:
    /// malformed programs surface as faults during execution.
    pub fn new(program: Vec<u8>) -> (vm: VM)
        ensures
            vm@ == init_state(program@),
    {
        let vm = VM {
            memory: program,
            stack: Vec::new(),
            call_stack: Vec::new(),
            frame_pointer: 0,
            program_counter: 0,
            output: Vec::new(),
        };
        proof {
            assert(vm@ =~= init_state(vm.memory@));
        }
        vm
    }

    /// The log of PRINT output so far, oldest first.
    pub fn output(&self) -> (r: &Vec<PrintEvent>)
        ensures
            r@ == self@.output,
    {
        &self.output
    }

    /// The operand stack, bottom first (the top is the last element).
    pub fn stack(&self) -> (r: &Vec<i32>)
        ensures
            r@ == self@.stack,
    {
        &self.stack
    }

    /// Push one immediate byte, sign-extended to 32 bits.
    fn op_push(&mut self) -> (r: Option<VmFault>)
        requires
            old(self)@.program_counter < old(self)@.memory.len(),
        ensures
            implements_step(old(self)@, final(self)@, step_push(old(self)@), r),
    {
        let mlen = self.memory.len();
        if self.program_counter + 1 >= mlen {
            return Some(
                VmFault {
                    kind: FaultKind::ProgramCounterOutOfRange,
                    pc: self.program_counter + 1,
                },
            );
        }
        let b = self.memory[self.program_counter + 1];
        let value: i32 = if b < 0x80 {
            b as i32
        } else {
            (b as i32) - 0x100
        };
        self.stack.push(value);
        self.program_counter = self.program_counter + 2;
        proof {
            assert(self@ =~= step_push(old(self)@)->Next_0);
        }
        None
    }

    /// Pop two operands, apply an arithmetic opcode, push the result.
    fn op_binary(&mut self, op: u8) -> (r: Option<VmFault>)
        requires
            old(self)@.program_counter < old(self)@.memory.len(),
            op == OP_ADD || op == OP_SUB || op == OP_MUL || op == OP_DIV,
        ensures
            implements_step(old(self)@, final(self)@, step_arith(old(self)@, op), r),
    {
        let mlen = self.memory.len();
        let len = self.stack.len();
        if len < 2 {
            return Some(
                VmFault { kind: FaultKind::StackUnderflow, pc: self.program_counter + 1 },
            );
        }
        let top = self.stack[len - 1];
        let second = self.stack[len - 2];
        if op == OP_DIV && second == 0 {
            return Some(
                VmFault { kind: FaultKind::DivisionByZero, pc: self.program_counter + 1 },
            );
        }
        let result: i32 = if op == OP_ADD {
            top.wrapping_add(second)
        } else if op == OP_SUB {
            top.wrapping_sub(second)
        } else if op == OP_MUL {
            top.wrapping_mul(second)
        } else {
            div_exec(top, second)
        };
        self.stack.truncate(len - 2);
        self.stack.push(result);
        self.program_counter = self.program_counter + 1;
        proof {
            assert(self@ =~= step_arith(old(self)@, op)->Next_0);
        }
        None
    }

    /// ADD: pop `top`, pop `second`, push `top + second` (wrapping).
    fn op_add(&mut self) -> (r: Option<VmFault>)
        requires
            old(self)@.program_counter < old(self)@.memory.len(),
        ensures
            implements_step(old(self)@, final(self)@, step_arith(old(self)@, OP_ADD), r),
    {
        self.op_binary(OP_ADD)
    }

    /// SUB: pop `top`, pop `second`, push `top - second` (wrapping).
    fn op_sub(&mut self) -> (r: Option<VmFault>)
        requires
            old(self)@.program_counter < old(self)@.memory.len(),
        ensures
            implements_step(old(self)@, final(self)@, step_arith(old(self)@, OP_SUB), r),
    {
        self.op_binary(OP_SUB)
    }

    /// MUL: pop `top`, pop `second`, push `top * second` (wrapping).
    fn op_mul(&mut self) -> (r: Option<VmFault>)
        requires
            old(self)@.program_counter < old(self)@.memory.len(),
        ensures
            implements_step(old(self)@, final(self)@, step_arith(old(self)@, OP_MUL), r),
    {
        self.op_binary(OP_MUL)
    }

    /// DIV: pop `top`, pop `second`, push `top / second` truncated toward
    /// zero; a zero divisor is a fault.
    fn op_div(&mut self) -> (r: Option<VmFault>)
        requires
            old(self)@.program_counter < old(self)@.memory.len(),
        ensures
            implements_step(old(self)@, final(self)@, step_arith(old(self)@, OP_DIV), r),
    {
        self.op_binary(OP_DIV)
    }

    /// PRINT: pop one value and record it with the current program counter.
    fn op_print(&mut self) -> (r: Option<VmFault>)
        requires
            old(self)@.program_counter < old(self)@.memory.len(),
        ensures
            implements_step(old(self)@, final(self)@, step_print(old(self)@), r),
    {
        let mlen = self.memory.len();
        match self.stack.pop() {
            None => Some(
                VmFault { kind: FaultKind::StackUnderflow, pc: self.program_counter + 1 },
            ),
            Some(value) => {
                self.program_counter = self.program_counter + 1;
                self.output.push(PrintEvent { pc: self.program_counter, value });
                proof {
                    assert(self@ =~= step_print(old(self)@)->Next_0);
                }
                None
            },
        }
    }

    /// CALL: save the return address and frame pointer, open a new frame at
    /// the current top of the operand stack, and jump to the target byte.
    fn op_call(&mut self) -> (r: Option<VmFault>)
        requires
            old(self)@.program_counter < old(self)@.memory.len(),
        ensures
            implements_step(old(self)@, final(self)@, step_call(old(self)@), r),
    {
        let mlen = self.memory.len();
        if self.program_counter + 1 >= mlen {
            return Some(
                VmFault {
                    kind: FaultKind::ProgramCounterOutOfRange,
                    pc: self.program_counter + 1,
                },
            );
        }
        let target = self.memory[self.program_counter + 1];
        self.program_counter = self.program_counter + 2;
        self.call_stack.push(self.program_counter);
        self.call_stack.push(self.frame_pointer);
        self.frame_pointer = self.stack.len();
        self.program_counter = target as usize;
        proof {
            assert(self@.call_stack =~= old(self)@.call_stack.push(
                old(self)@.program_counter + 2,
            ).push(old(self)@.frame_pointer));
            assert(self@ =~= step_call(old(self)@)->Next_0);
        }
        None
    }

    /// RETURN: pop the saved frame pointer, then the saved return address,
    /// and restore both.
    fn op_return(&mut self) -> (r: Option<VmFault>)
        requires
            old(self)@.program_counter < old(self)@.memory.len(),
        ensures
            implements_step(old(self)@, final(self)@, step_return(old(self)@), r),
    {
        let mlen = self.memory.len();
        if self.call_stack.len() < 2 {
            return Some(
                VmFault { kind: FaultKind::StackUnderflow, pc: self.program_counter + 1 },
            );
        }
        let fp = self.call_stack.pop().unwrap();
        let rpc = self.call_stack.pop().unwrap();
        self.frame_pointer = fp;
        self.program_counter = rpc;
        proof {
            assert(self@.call_stack =~= old(self)@.call_stack.take(
                old(self)@.call_stack.len() - 2,
            ));
            assert(self@ =~= step_return(old(self)@)->Next_0);
        }
        None
    }

    /// JUMP: read the target byte and set the program counter to it.
    fn op_jump(&mut self) -> (r: Option<VmFault>)
        requires
            old(self)@.program_counter < old(self)@.memory.len(),
        ensures
            implements_step(old(self)@, final(self)@, step_jump(old(self)@), r),
    {
        let mlen = self.memory.len();
        if self.program_counter + 1 >= mlen {
            return Some(
                VmFault {
                    kind: FaultKind::ProgramCounterOutOfRange,
                    pc: self.program_counter + 1,
                },
            );
        }
        let target = self.memory[self.program_counter + 1];
        self.program_counter = target as usize;
        proof {
            assert(self@ =~= step_jump(old(self)@)->Next_0);
        }
        None
    }

    /// JUMP_IF: pop a condition and jump to the target byte exactly when it
    /// is nonzero.
    fn op_jump_if(&mut self) -> (r: Option<VmFault>)
        requires
            old(self)@.program_counter < old(self)@.memory.len(),
        ensures
            implements_step(old(self)@, final(self)@, step_jump_if(old(self)@), r),
    {
        let mlen = self.memory.len();
        if self.stack.len() == 0 {
            return Some(
                VmFault { kind: FaultKind::StackUnderflow, pc: self.program_counter + 1 },
            );
        }
        let mlen = self.memory.len();
        if self.program_counter + 1 >= mlen {
            return Some(
                VmFault {
                    kind: FaultKind::ProgramCounterOutOfRange,
                    pc: self.program_counter + 1,
                },
            );
        }
        let target = self.memory[self.program_counter + 1];
        let condition = self.stack.pop().unwrap();
        if condition != 0 {
            self.program_counter = target as usize;
        } else {
            self.program_counter = self.program_counter + 2;
        }
        proof {
            assert(self@ =~= step_jump_if(old(self)@)->Next_0);
        }
        None
    }

    /// STORE_LOCAL: pop the top of the stack into the slot at
    /// `frame_pointer + idx`, which must already exist below it.
    fn op_store_local(&mut self) -> (r: Option<VmFault>)
        requires
            old(self)@.program_counter < old(self)@.memory.len(),
        ensures
            implements_step(old(self)@, final(self)@, step_store_local(old(self)@), r),
    {
        let mlen = self.memory.len();
        if self.program_counter + 1 >= mlen {
            return Some(
                VmFault {
                    kind: FaultKind::ProgramCounterOutOfRange,
                    pc: self.program_counter + 1,
                },
            );
        }
        let idx = self.memory[self.program_counter + 1] as usize;
        let len = self.stack.len();
        if len == 0 {
            return Some(
                VmFault { kind: FaultKind::StackUnderflow, pc: self.program_counter + 2 },
            );
        }
        if self.frame_pointer >= len - 1 || idx >= len - 1 - self.frame_pointer {
            return Some(
                VmFault { kind: FaultKind::OutOfBoundsAccess, pc: self.program_counter + 2 },
            );
        }
        let value = self.stack.pop().unwrap();
        self.stack[self.frame_pointer + idx] = value;
        self.program_counter = self.program_counter + 2;
        proof {
            assert(self@ =~= step_store_local(old(self)@)->Next_0);
        }
        None
    }

    /// LOAD_LOCAL: push a copy of the slot at `frame_pointer + idx`.
    fn op_load_local(&mut self) -> (r: Option<VmFault>)
        requires
            old(self)@.program_counter < old(self)@.memory.len(),
        ensures
            implements_step(old(self)@, final(self)@, step_load_local(old(self)@), r),
    {
        let mlen = self.memory.len();
        if self.program_counter + 1 >= mlen {
            return Some(
                VmFault {
                    kind: FaultKind::ProgramCounterOutOfRange,
                    pc: self.program_counter + 1,
                },
            );
        }
        let idx = self.memory[self.program_counter + 1] as usize;
        let len = self.stack.len();
        if self.frame_pointer >= len || idx >= len - self.frame_pointer {
            return Some(
                VmFault { kind: FaultKind::OutOfBoundsAccess, pc: self.program_counter + 2 },
            );
        }
        let value = self.stack[self.frame_pointer + idx];
        self.stack.push(value);
        self.program_counter = self.program_counter + 2;
        proof {
            assert(self@ =~= step_load_local(old(self)@)->Next_0);
        }
        None
    }

    /// STORE_PARAM: pop the top of the stack into the slot at
    /// `frame_pointer - (idx + 1)`; a subtraction that would go negative is
    /// out of bounds.
    fn op_store_param(&mut self) -> (r: Option<VmFault>)
        requires
            old(self)@.program_counter < old(self)@.memory.len(),
        ensures
            implements_step(old(self)@, final(self)@, step_store_param(old(self)@), r),
    {
        let mlen = self.memory.len();
        if self.program_counter + 1 >= mlen {
            return Some(
                VmFault {
                    kind: FaultKind::ProgramCounterOutOfRange,
                    pc: self.program_counter + 1,
                },
            );
        }
        let idx = self.memory[self.program_counter + 1] as usize;
        let len = self.stack.len();
        if len == 0 {
            return Some(
                VmFault { kind: FaultKind::StackUnderflow, pc: self.program_counter + 2 },
            );
        }
        if idx + 1 > self.frame_pointer || self.frame_pointer - (idx + 1) >= len - 1 {
            return Some(
                VmFault { kind: FaultKind::OutOfBoundsAccess, pc: self.program_counter + 2 },
            );
        }
        let value = self.stack.pop().unwrap();
        self.stack[self.frame_pointer - (idx + 1)] = value;
        self.program_counter = self.program_counter + 2;
        proof {
            assert(self@ =~= step_store_param(old(self)@)->Next_0);
        }
        None
    }

    /// LOAD_PARAM: push a copy of the slot at `frame_pointer - (idx + 1)`.
    fn op_load_param(&mut self) -> (r: Option<VmFault>)
        requires
            old(self)@.program_counter < old(self)@.memory.len(),
        ensures
            implements_step(old(self)@, final(self)@, step_load_param(old(self)@), r),
    {
        let mlen = self.memory.len();
        if self.program_counter + 1 >= mlen {
            return Some(
                VmFault {
                    kind: FaultKind::ProgramCounterOutOfRange,
                    pc: self.program_counter + 1,
                },
            );
        }
        let idx = self.memory[self.program_counter + 1] as usize;
        let len = self.stack.len();
        if idx + 1 > self.frame_pointer || self.frame_pointer - (idx + 1) >= len {
            return Some(
                VmFault { kind: FaultKind::OutOfBoundsAccess, pc: self.program_counter + 2 },
            );
        }
        let value = self.stack[self.frame_pointer - (idx + 1)];
        self.stack.push(value);
        self.program_counter = self.program_counter + 2;
        proof {
            assert(self@ =~= step_load_param(old(self)@)->Next_0);
        }
        None
    }

    /// Decode and execute one instruction: exactly one application of the
    /// step semantics. A halting or faulting step leaves the machine
    /// untouched.
    pub fn step(&mut self) -> (r: StepStatus)
        ensures
            match step(old(self)@) {
                StepResult::Next(s2) => r == StepStatus::Running && final(self)@ == s2,
                StepResult::Halt => r == StepStatus::Halted && final(self)@ == old(self)@,
                StepResult::Fault(kind, pc) => r == StepStatus::Faulted(
                    VmFault { kind, pc: pc as usize },
                ) && final(self)@ == old(self)@,
            },
    {
        let pc = self.program_counter;
        let len = self.memory.len();
        if pc >= len {
            if pc == len {
                return StepStatus::Halted;
            }
            return StepStatus::Faulted(
                VmFault { kind: FaultKind::ProgramCounterOutOfRange, pc },
            );
        }
        let opcode = self.memory[pc];
        let outcome = match opcode {
            OP_PUSH => self.op_push(),
            OP_ADD => self.op_add(),
            OP_SUB => self.op_sub(),
            OP_MUL => self.op_mul(),
            OP_DIV => self.op_div(),
            OP_PRINT => self.op_print(),
            OP_CALL => self.op_call(),
            OP_RETURN => self.op_return(),
            OP_JUMP => self.op_jump(),
            OP_JUMP_IF => self.op_jump_if(),
            OP_STORE_LOCAL => self.op_store_local(),
            OP_LOAD_LOCAL => self.op_load_local(),
            OP_STORE_PARAM => self.op_store_param(),
            OP_LOAD_PARAM => self.op_load_param(),
            OP_HALT => {
                return StepStatus::Halted;
            },
            _ => {
                return StepStatus::Faulted(VmFault { kind: FaultKind::UnknownOpcode, pc });
            },
        };
        match outcome {
            None => StepStatus::Running,
            Some(fault) => StepStatus::Faulted(fault),
        }
    }

    /// Execute instructions until the machine halts, faults, or `max_steps`
    /// instructions have been executed, and report which of the three
    /// happened. The machine state after the call is exactly the state the
    /// step semantics reaches.
    pub fn run(&mut self, max_steps: usize) -> (r: RunOutcome)
        ensures
            final(self)@ == run_spec(old(self)@, max_steps as nat).0,
            r == run_spec(old(self)@, max_steps as nat).1,
    {
        let mut steps: usize = 0;
        while steps < max_steps
            invariant
                steps <= max_steps,
                run_spec(old(self)@, max_steps as nat) == run_spec(
                    self@,
                    (max_steps - steps) as nat,
                ),
            decreases max_steps - steps,
        {
            let ghost pre = self@;
            let ghost fuel = (max_steps - steps) as nat;
            match self.step() {
                StepStatus::Halted => {
                    proof {
                        assert(run_spec(pre, fuel) == (pre, RunOutcome::Halted));
                    }
                    return RunOutcome::Halted;
                },
                StepStatus::Faulted(fault) => {
                    proof {
                        assert(run_spec(pre, fuel) == (pre, RunOutcome::Faulted(fault)));
                    }
                    return RunOutcome::Faulted(fault);
                },
                StepStatus::Running => {
                    proof {
                        assert(run_spec(pre, fuel) == run_spec(self@, (fuel - 1) as nat));
                    }
                    steps = steps + 1;
                },
            }
        }
        RunOutcome::OutOfSteps
    }
}

} // verus!
