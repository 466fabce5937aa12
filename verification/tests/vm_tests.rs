use stack_vm::fault::{FaultKind, PrintEvent, RunOutcome, VmFault};
use stack_vm::vm::VM;

const FUEL: usize = 10_000;

fn run(program: Vec<u8>) -> (RunOutcome, Vec<PrintEvent>, Vec<i32>) {
    let mut vm = VM::new(program);
    let outcome = vm.run(FUEL);
    (outcome, vm.output().clone(), vm.stack().clone())
}

#[test]
fn push_add_print_halts() {
    // PUSH 2, PUSH 2, ADD, PRINT, HALT: exactly one line reporting 4.
    let (outcome, output, stack) = run(vec![0x01, 0x02, 0x01, 0x02, 0x02, 0x06, 0xFF]);
    assert_eq!(outcome, RunOutcome::Halted);
    assert_eq!(output, vec![PrintEvent { pc: 6, value: 4 }]);
    assert_eq!(stack, Vec::<i32>::new());
}

#[test]
fn add_is_order_independent() {
    let (_, out_a, _) = run(vec![0x01, 0x02, 0x01, 0x07, 0x02, 0x06, 0xFF]);
    let (_, out_b, _) = run(vec![0x01, 0x07, 0x01, 0x02, 0x02, 0x06, 0xFF]);
    assert_eq!(out_a[0].value, 9);
    assert_eq!(out_b[0].value, 9);
}

#[test]
fn sub_takes_top_minus_second() {
    // PUSH 5, PUSH 2, SUB, PRINT: top = 2, second = 5, pushes 2 - 5 = -3.
    let (outcome, output, _) = run(vec![0x01, 0x05, 0x01, 0x02, 0x03, 0x06, 0xFF]);
    assert_eq!(outcome, RunOutcome::Halted);
    assert_eq!(output, vec![PrintEvent { pc: 6, value: -3 }]);
}

#[test]
fn mul_multiplies() {
    // PUSH 3, PUSH 4, MUL, PRINT.
    let (_, output, _) = run(vec![0x01, 0x03, 0x01, 0x04, 0x04, 0x06, 0xFF]);
    assert_eq!(output, vec![PrintEvent { pc: 6, value: 12 }]);
}

#[test]
fn div_by_zero_faults_before_print() {
    // PUSH 0, PUSH 4, DIV, PRINT: divisor (second) is 0: fault, no output.
    let (outcome, output, _) = run(vec![0x01, 0x00, 0x01, 0x04, 0x05, 0x06]);
    assert_eq!(
        outcome,
        RunOutcome::Faulted(VmFault { kind: FaultKind::DivisionByZero, pc: 5 })
    );
    assert_eq!(output, Vec::new());
}

#[test]
fn div_truncates_toward_zero() {
    // PUSH 3, PUSH -7 (0xF9), DIV, PRINT: -7 / 3 == -2 (not floor's -3).
    let (_, output, _) = run(vec![0x01, 0x03, 0x01, 0xF9, 0x05, 0x06, 0xFF]);
    assert_eq!(output, vec![PrintEvent { pc: 6, value: -2 }]);
}

#[test]
fn div_of_zero_dividend_is_zero() {
    // PUSH 4, PUSH 0, DIV, PRINT: top = 0, second = 4, pushes 0 / 4 == 0.
    let (outcome, output, _) = run(vec![0x01, 0x04, 0x01, 0x00, 0x05, 0x06]);
    assert_eq!(outcome, RunOutcome::Halted);
    assert_eq!(output, vec![PrintEvent { pc: 6, value: 0 }]);
}

#[test]
fn push_sign_extends() {
    // PUSH 0xFF is -1.
    let (_, output, _) = run(vec![0x01, 0xFF, 0x06, 0xFF]);
    assert_eq!(output, vec![PrintEvent { pc: 3, value: -1 }]);
}

#[test]
fn unknown_opcode_faults_at_its_pc() {
    let (outcome, output, stack) = run(vec![0x99]);
    assert_eq!(
        outcome,
        RunOutcome::Faulted(VmFault { kind: FaultKind::UnknownOpcode, pc: 0 })
    );
    assert_eq!(output, Vec::new());
    assert_eq!(stack, Vec::<i32>::new());
}

#[test]
fn add_underflows_on_empty_stack() {
    let (outcome, _, stack) = run(vec![0x02]);
    assert_eq!(
        outcome,
        RunOutcome::Faulted(VmFault { kind: FaultKind::StackUnderflow, pc: 1 })
    );
    assert_eq!(stack, Vec::<i32>::new());
}

#[test]
fn empty_program_halts_immediately() {
    let (outcome, output, stack) = run(vec![]);
    assert_eq!(outcome, RunOutcome::Halted);
    assert_eq!(output, Vec::new());
    assert_eq!(stack, Vec::<i32>::new());
}

#[test]
fn print_pops_exactly_one_value() {
    // PUSH 1, PUSH 2, PRINT: prints 2, leaves 1 untouched below.
    let (outcome, output, stack) = run(vec![0x01, 0x01, 0x01, 0x02, 0x06, 0xFF]);
    assert_eq!(outcome, RunOutcome::Halted);
    assert_eq!(output, vec![PrintEvent { pc: 5, value: 2 }]);
    assert_eq!(stack, vec![1]);
}

#[test]
fn call_and_return_restore_caller() {
    // 0: PUSH 10; 2: CALL 6; 4: PRINT; 5: HALT
    // callee at 6: PUSH 5; 8: LOAD_PARAM 0; 10: ADD; 11: RETURN
    // The callee reads the caller-pushed argument 10, adds 5, and leaves 15
    // on top; RETURN brings execution back to the PRINT after the CALL.
    let program = vec![
        0x01, 0x0A, 0x10, 0x06, 0x06, 0xFF, 0x01, 0x05, 0x23, 0x00, 0x02, 0x11,
    ];
    let (outcome, output, stack) = run(program);
    assert_eq!(outcome, RunOutcome::Halted);
    assert_eq!(output, vec![PrintEvent { pc: 5, value: 15 }]);
    assert_eq!(stack, vec![10]);
}

#[test]
fn store_then_load_local_round_trips() {
    // PUSH 1 (slot), PUSH 99, STORE_LOCAL 0, LOAD_LOCAL 0, PRINT, HALT.
    let program = vec![0x01, 0x01, 0x01, 0x63, 0x20, 0x00, 0x21, 0x00, 0x06, 0xFF];
    let (outcome, output, stack) = run(program);
    assert_eq!(outcome, RunOutcome::Halted);
    assert_eq!(output, vec![PrintEvent { pc: 9, value: 99 }]);
    assert_eq!(stack, vec![99]);
}

#[test]
fn load_local_out_of_bounds_faults() {
    let (outcome, _, stack) = run(vec![0x21, 0x05]);
    assert_eq!(
        outcome,
        RunOutcome::Faulted(VmFault { kind: FaultKind::OutOfBoundsAccess, pc: 2 })
    );
    assert_eq!(stack, Vec::<i32>::new());
}

#[test]
fn store_param_below_stack_base_faults() {
    // PUSH 1, STORE_PARAM 0 at frame pointer 0: the address would go
    // negative.
    let (outcome, _, stack) = run(vec![0x01, 0x01, 0x22, 0x00]);
    assert_eq!(
        outcome,
        RunOutcome::Faulted(VmFault { kind: FaultKind::OutOfBoundsAccess, pc: 4 })
    );
    assert_eq!(stack, vec![1]);
}

#[test]
fn return_with_empty_call_stack_underflows() {
    let (outcome, _, _) = run(vec![0x11]);
    assert_eq!(
        outcome,
        RunOutcome::Faulted(VmFault { kind: FaultKind::StackUnderflow, pc: 1 })
    );
}

#[test]
fn jump_is_unconditional() {
    // JUMP 3 skips the HALT at 2 and runs PUSH 7, PRINT.
    let (outcome, output, _) = run(vec![0x12, 0x03, 0xFF, 0x01, 0x07, 0x06, 0xFF]);
    assert_eq!(outcome, RunOutcome::Halted);
    assert_eq!(output, vec![PrintEvent { pc: 6, value: 7 }]);
}

#[test]
fn jump_if_taken_on_nonzero() {
    // PUSH 1, JUMP_IF 7: jumps straight to HALT, printing nothing.
    let (outcome, output, _) = run(vec![0x01, 0x01, 0x13, 0x07, 0x01, 0x05, 0x06, 0xFF]);
    assert_eq!(outcome, RunOutcome::Halted);
    assert_eq!(output, Vec::new());
}

#[test]
fn jump_if_falls_through_on_zero() {
    let (outcome, output, _) = run(vec![0x01, 0x00, 0x13, 0x07, 0x01, 0x05, 0x06, 0xFF]);
    assert_eq!(outcome, RunOutcome::Halted);
    assert_eq!(output, vec![PrintEvent { pc: 7, value: 5 }]);
}

#[test]
fn jump_past_end_faults_on_next_decode() {
    let (outcome, _, _) = run(vec![0x12, 0x09]);
    assert_eq!(
        outcome,
        RunOutcome::Faulted(VmFault { kind: FaultKind::ProgramCounterOutOfRange, pc: 9 })
    );
}

#[test]
fn missing_operand_faults() {
    // PUSH at the last byte has no immediate to read.
    let (outcome, _, stack) = run(vec![0x01]);
    assert_eq!(
        outcome,
        RunOutcome::Faulted(VmFault { kind: FaultKind::ProgramCounterOutOfRange, pc: 1 })
    );
    assert_eq!(stack, Vec::<i32>::new());
}

#[test]
fn budget_exhaustion_reports_out_of_steps() {
    // JUMP 0 loops forever; a bounded run gives the budget verdict.
    let mut vm = VM::new(vec![0x12, 0x00]);
    assert_eq!(vm.run(10), RunOutcome::OutOfSteps);
    // Leftover budget resumes exactly where the machine stopped.
    assert_eq!(vm.run(10), RunOutcome::OutOfSteps);
}

#[test]
fn nested_calls_restore_each_frame() {
    // 0: CALL 4; 2: PUSH 1 (skipped until return); ...
    // 0: 0x10 0x05  CALL 5
    // 2: 0x06       PRINT
    // 3: 0xFF       HALT   (byte 4 pads the callee start)
    // 5: 0x10 0x09  CALL 9  (nested)
    // 7: 0x11       RETURN  (outer callee returns after inner one)
    // 9: 0x01 0x2A  PUSH 42
    // 11: 0x11      RETURN  (inner callee)
    let program = vec![
        0x10, 0x05, 0x06, 0xFF, 0x00, 0x10, 0x09, 0x11, 0x00, 0x01, 0x2A, 0x11,
    ];
    let (outcome, output, stack) = run(program);
    assert_eq!(outcome, RunOutcome::Halted);
    assert_eq!(output, vec![PrintEvent { pc: 3, value: 42 }]);
    assert_eq!(stack, Vec::<i32>::new());
}
