//! General properties of the instruction set, proved over the step
//! semantics of [`crate::semantics`].

use vstd::prelude::*;

use crate::fault::{FaultKind, PrintEvent};
use crate::semantics::{
    div_wrap, recognized_opcode, step, step_arith, step_print, StepResult, VmState, OP_ADD,
    OP_CALL, OP_DIV, OP_LOAD_LOCAL, OP_LOAD_PARAM, OP_MUL, OP_RETURN, OP_STORE_LOCAL,
    OP_STORE_PARAM, OP_SUB,
};

verus! {

/// Instruction memory is read-only: no step changes the program.
pub proof fn lemma_step_preserves_memory(s: VmState)
    ensures
        step(s) matches StepResult::Next(t) ==> t.memory == s.memory,
{
}

/// The arithmetic of the operand stack: with `a` pushed first and `b` on
/// top, ADD pushes `b + a` (order-independent), SUB pushes `b - a`, MUL
/// pushes `b * a` (order-independent), and DIV pushes `b / a` truncated
/// toward zero when `a` is nonzero and faults with a division by zero when
/// `a` is zero. All results wrap at 32 bits, and everything below the two
/// popped operands stays as it was.
pub proof fn lemma_arithmetic_results(s: VmState, a: i32, b: i32)
    requires
        s.stack.len() >= 2,
        a == s.stack[s.stack.len() - 2],
        b == s.stack[s.stack.len() - 1],
    ensures
        step_arith(s, OP_ADD) matches StepResult::Next(t) && t.stack == s.stack.take(
            s.stack.len() - 2,
        ).push(a.wrapping_add(b)),
        step_arith(s, OP_SUB) matches StepResult::Next(t) && t.stack == s.stack.take(
            s.stack.len() - 2,
        ).push(b.wrapping_sub(a)),
        step_arith(s, OP_MUL) matches StepResult::Next(t) && t.stack == s.stack.take(
            s.stack.len() - 2,
        ).push(a.wrapping_mul(b)),
        a != 0 ==> (step_arith(s, OP_DIV) matches StepResult::Next(t) && t.stack == s.stack.take(
            s.stack.len() - 2,
        ).push(div_wrap(b, a))),
        a == 0 ==> step_arith(s, OP_DIV) == StepResult::Fault(
            FaultKind::DivisionByZero,
            s.program_counter + 1,
        ),
{
    assert(b.wrapping_add(a) == a.wrapping_add(b));
    assert(b.wrapping_mul(a) == a.wrapping_mul(b));
}

/// PRINT pops exactly one value and never mutates the entries below it: the
/// rest of the operand stack, the call stack, the frame pointer and the
/// program are untouched, and one record is appended to the output.
pub proof fn lemma_print_preserves_stack_below(s: VmState)
    ensures
        s.stack.len() == 0 ==> step_print(s) == StepResult::Fault(
            FaultKind::StackUnderflow,
            s.program_counter + 1,
        ),
        s.stack.len() >= 1 ==> (step_print(s) matches StepResult::Next(t) && {
            &&& t.stack == s.stack.drop_last()
            &&& forall|i: int| 0 <= i < s.stack.len() - 1 ==> t.stack[i] == s.stack[i]
            &&& t.output == s.output.push(
                PrintEvent { pc: (s.program_counter + 1) as usize, value: s.stack.last() },
            )
            &&& t.call_stack == s.call_stack
            &&& t.frame_pointer == s.frame_pointer
            &&& t.memory == s.memory
        }),
{
}

/// STORE_LOCAL followed immediately by LOAD_LOCAL at the same index and in
/// the same frame is a round trip: the loaded value is exactly the value
/// that was stored, for any index within the frame's allocated slots, and
/// the operand stack is as deep as before the pair.
pub proof fn lemma_store_load_local_round_trip(s: VmState, idx: u8)
    requires
        s.program_counter + 3 < s.memory.len(),
        s.memory[s.program_counter as int] == OP_STORE_LOCAL,
        s.memory[s.program_counter + 1 as int] == idx,
        s.memory[s.program_counter + 2 as int] == OP_LOAD_LOCAL,
        s.memory[s.program_counter + 3 as int] == idx,
        s.stack.len() >= 1,
        s.frame_pointer + idx < s.stack.len() - 1,
    ensures
        step(s) matches StepResult::Next(t) && step(t) matches StepResult::Next(t2) && {
            &&& t2.stack.len() == s.stack.len()
            &&& t2.stack.last() == s.stack.last()
            &&& t2.stack[s.frame_pointer + idx] == s.stack.last()
        },
{
}

/// CALL saves exactly the caller's continuation, and RETURN restores it:
/// after a CALL at `s`, any state `t` that runs the same program and has
/// the call stack the CALL produced (as every balanced, uncorrupted callee
/// leaves it) returns to the program counter just past the CALL and to the
/// caller's frame pointer, with the call stack exactly as it was before the
/// CALL. Applied at each nesting level, arbitrarily nested call sequences
/// preserve the caller's context.
pub proof fn lemma_call_return_pairing(s: VmState, t: VmState)
    requires
        s.program_counter + 1 < s.memory.len(),
        s.memory[s.program_counter as int] == OP_CALL,
        t.memory == s.memory,
        step(s) matches StepResult::Next(s1) && t.call_stack == s1.call_stack,
        t.program_counter < t.memory.len(),
        t.memory[t.program_counter as int] == OP_RETURN,
    ensures
        step(t) matches StepResult::Next(t1) && {
            &&& t1.program_counter == s.program_counter + 2
            &&& t1.frame_pointer == s.frame_pointer
            &&& t1.call_stack == s.call_stack
        },
{
    let s1 = step(s)->Next_0;
    assert(s1.call_stack.take(s.call_stack.len() as int) =~= s.call_stack);
}

/// The call stack is touched only in pairs, only at the top: every step
/// either leaves it unchanged, pushes one (return address, frame pointer)
/// pair (CALL), or pops the top pair (RETURN). Entries below the top pair
/// are never rewritten, which is what makes the pairing law compose over
/// nested calls.
pub proof fn lemma_call_stack_discipline(s: VmState)
    ensures
        step(s) matches StepResult::Next(t) ==> {
            ||| t.call_stack == s.call_stack
            ||| (t.call_stack.len() == s.call_stack.len() + 2 && t.call_stack.take(
                s.call_stack.len() as int,
            ) == s.call_stack)
            ||| (s.call_stack.len() == t.call_stack.len() + 2 && s.call_stack.take(
                t.call_stack.len() as int,
            ) == t.call_stack)
        },
{
    if step(s) is Next {
        let t = step(s)->Next_0;
        if s.program_counter < s.memory.len() {
            if s.memory[s.program_counter as int] == OP_CALL {
                assert(t.call_stack.take(s.call_stack.len() as int) =~= s.call_stack);
            }
            if s.memory[s.program_counter as int] == OP_RETURN {
                assert(s.call_stack.take(t.call_stack.len() as int) =~= t.call_stack);
            }
        }
    }
}

/// The call stack's length is always even: entries are pushed and popped
/// only in (return address, frame pointer) pairs, so a step from a state
/// with an even number of entries yields one with an even number of
/// entries. A machine starts with an empty call stack, so the invariant
/// holds of every state a run can reach.
pub proof fn lemma_call_stack_stays_even(s: VmState)
    requires
        s.call_stack.len() % 2 == 0,
    ensures
        step(s) matches StepResult::Next(t) ==> t.call_stack.len() % 2 == 0,
{
}

/// A local or parameter index that resolves outside the operand stack
/// always faults with an out-of-bounds access: the step yields no successor
/// state, so nothing adjacent is read or written. `idx` stands for the
/// operand byte of the instruction.
pub proof fn lemma_slot_access_out_of_bounds(s: VmState, idx: u8)
    requires
        s.program_counter + 1 < s.memory.len(),
        s.memory[s.program_counter + 1 as int] == idx,
    ensures
        s.memory[s.program_counter as int] == OP_LOAD_LOCAL && s.frame_pointer + idx
            >= s.stack.len() ==> step(s) == StepResult::Fault(
            FaultKind::OutOfBoundsAccess,
            s.program_counter + 2,
        ),
        s.memory[s.program_counter as int] == OP_STORE_LOCAL && s.stack.len() >= 1
            && s.frame_pointer + idx >= s.stack.len() - 1 ==> step(s) == StepResult::Fault(
            FaultKind::OutOfBoundsAccess,
            s.program_counter + 2,
        ),
        s.memory[s.program_counter as int] == OP_LOAD_PARAM && (idx + 1 > s.frame_pointer
            || s.frame_pointer - (idx + 1) >= s.stack.len()) ==> step(s) == StepResult::Fault(
            FaultKind::OutOfBoundsAccess,
            s.program_counter + 2,
        ),
        s.memory[s.program_counter as int] == OP_STORE_PARAM && s.stack.len() >= 1 && (idx + 1
            > s.frame_pointer || s.frame_pointer - (idx + 1) >= s.stack.len() - 1) ==> step(s)
            == StepResult::Fault(FaultKind::OutOfBoundsAccess, s.program_counter + 2),
{
}

/// Decoding a byte outside the recognized opcode set always faults with an
/// unknown opcode, at the program counter of that byte.
pub proof fn lemma_unknown_opcode_faults(s: VmState)
    requires
        s.program_counter < s.memory.len(),
        !recognized_opcode(s.memory[s.program_counter as int]),
    ensures
        step(s) == StepResult::Fault(FaultKind::UnknownOpcode, s.program_counter),
{
}

} // verus!

