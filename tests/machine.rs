use synacor_vm::error::VmError;
use synacor_vm::image::words_from_le_bytes;
use synacor_vm::register::RegisterIndex;
use synacor_vm::vm::{Action, Fault, Vm};

fn reg(vm: &Vm, i: u16) -> u16 {
    vm.registers().get(RegisterIndex::new(i).unwrap()).as_u16()
}

fn stack_words(vm: &Vm) -> Vec<u16> {
    vm.stack().iter().map(|v| v.as_u16()).collect()
}

/// Runs until the machine halts, collecting output; panics on a fault.
fn run_to_halt(vm: &mut Vm) -> String {
    let mut out = String::new();
    for _ in 0..10_000 {
        if vm.is_halted() {
            return out;
        }
        match vm.run_once(None) {
            Ok(Action::Output(c)) => out.push(c),
            Ok(Action::Continue) => {}
            other => panic!("unexpected step result {:?}", other),
        }
    }
    panic!("did not halt");
}

#[test]
fn set_noop_halt_leaves_the_value_in_r0() {
    let mut vm = Vm::new(vec![1, 32768, 5, 21, 0]);
    run_to_halt(&mut vm);
    assert!(vm.is_halted());
    assert_eq!(reg(&vm, 0), 5);
    assert_eq!(vm.ptr(), 5);
}

#[test]
fn eq_then_out_emits_one() {
    let mut vm = Vm::new(vec![4, 32768, 0, 0, 19, 32768, 0]);
    assert_eq!(vm.run_once(None), Ok(Action::Continue));
    assert_eq!(reg(&vm, 0), 1);
    assert_eq!(vm.run_once(None), Ok(Action::Output('\u{1}')));
    assert_eq!(vm.run_once(None), Ok(Action::Continue));
    assert!(vm.is_halted());
}

#[test]
fn ret_on_empty_stack_halts() {
    let mut vm = Vm::new(vec![18]);
    assert_eq!(vm.run_once(None), Ok(Action::Continue));
    assert!(vm.is_halted());
}

#[test]
fn pop_on_empty_stack_underflows() {
    let mut vm = Vm::new(vec![3, 32768, 0]);
    assert_eq!(vm.run_once(None), Err(Fault { cause: VmError::StackUnderflow, ptr: 0 }));
    assert!(!vm.is_halted());
    assert_eq!(vm.ptr(), 0);
}

#[test]
fn wmem_then_rmem_round_trips() {
    let mut vm = Vm::new(vec![16, 100, 42, 15, 32768, 100, 0]);
    run_to_halt(&mut vm);
    assert_eq!(vm.memory()[100], 42);
    assert_eq!(reg(&vm, 0), 42);
}

#[test]
fn call_pushes_return_address_and_ret_restores_it() {
    let mut vm = Vm::new(vec![17, 5, 0, 0, 0, 18]);
    assert_eq!(vm.run_once(None), Ok(Action::Continue));
    assert_eq!(vm.ptr(), 5);
    assert_eq!(stack_words(&vm), vec![2]);
    assert_eq!(vm.run_once(None), Ok(Action::Continue));
    assert_eq!(vm.ptr(), 2);
    assert!(stack_words(&vm).is_empty());
    assert!(!vm.is_halted());
}

#[test]
fn new_zero_fills_memory() {
    let vm = Vm::new(vec![7, 8, 9]);
    assert_eq!(vm.memory().len(), 32768);
    assert_eq!(&vm.memory()[..4], &[7, 8, 9, 0]);
    assert_eq!(vm.ptr(), 0);
    assert!(vm.stack().is_empty());
}

#[test]
fn push_and_pop_move_values_through_the_stack() {
    let mut vm = Vm::new(vec![2, 11, 2, 22, 3, 32769, 3, 32770, 0]);
    run_to_halt(&mut vm);
    assert_eq!(reg(&vm, 1), 22);
    assert_eq!(reg(&vm, 2), 11);
}

#[test]
fn arithmetic_and_logic_opcodes() {
    let mut vm = Vm::new(vec![
        9, 32768, 32767, 3, // add r0 = 2
        10, 32769, 200, 200, // mult r1 = 7232
        11, 32770, 17, 5, // mod r2 = 2
        12, 32771, 12, 10, // and r3 = 8
        13, 32772, 12, 10, // or r4 = 14
        14, 32773, 0, // not r5 = 32767
        5, 32774, 3, 2, // gt r6 = 1
        4, 32775, 3, 2, // eq r7 = 0
        0,
    ]);
    run_to_halt(&mut vm);
    assert_eq!(vm.registers().to_words(), vec![2, 7232, 2, 8, 14, 32767, 1, 0]);
}

#[test]
fn jumps() {
    // jmp 3; halt; jt 1 7; halt; jf 0 11; halt; jt 0 0; jf 1 0; set r0 9; halt
    let mut vm = Vm::new(vec![6, 3, 0, 7, 1, 7, 0, 8, 0, 11, 0, 7, 0, 0, 8, 1, 0, 1, 32768, 9, 0]);
    run_to_halt(&mut vm);
    assert_eq!(reg(&vm, 0), 9);
}

#[test]
fn in_waits_for_a_byte_then_stores_it() {
    let mut vm = Vm::new(vec![20, 32769, 0]);
    assert_eq!(vm.run_once(None), Ok(Action::NeedInput));
    assert_eq!(vm.ptr(), 0);
    assert_eq!(vm.run_once(Some(b'x')), Ok(Action::Continue));
    assert_eq!(reg(&vm, 1), 120);
    assert_eq!(vm.ptr(), 2);
}

#[test]
fn unknown_opcode_faults() {
    let mut vm = Vm::new(vec![22]);
    assert_eq!(vm.run_once(None), Err(Fault { cause: VmError::UnknownOpcode(22), ptr: 0 }));
}

#[test]
fn register_reference_as_opcode_faults() {
    let mut vm = Vm::new(vec![32768]);
    assert_eq!(vm.run_once(None), Err(Fault { cause: VmError::ExpectedLiteral, ptr: 0 }));
}

#[test]
fn undecodable_operand_faults() {
    let mut vm = Vm::new(vec![21, 1, 40000, 0]);
    assert_eq!(vm.run_once(None), Ok(Action::Continue));
    assert_eq!(vm.run_once(None), Err(Fault { cause: VmError::DecodeError(40000), ptr: 1 }));
}

#[test]
fn literal_destination_faults() {
    let mut vm = Vm::new(vec![1, 5, 5]);
    assert_eq!(vm.run_once(None), Err(Fault { cause: VmError::ExpectedRegister, ptr: 0 }));
}

#[test]
fn mod_by_zero_faults() {
    let mut vm = Vm::new(vec![11, 32768, 5, 0]);
    assert_eq!(vm.run_once(None), Err(Fault { cause: VmError::DivisionByZero, ptr: 0 }));
}

#[test]
fn rmem_of_a_raw_word_above_the_range_faults() {
    let mut vm = Vm::new(vec![15, 32768, 3, 40000]);
    assert_eq!(vm.run_once(None), Err(Fault { cause: VmError::InvalidValue(40000), ptr: 0 }));
}

#[test]
fn running_off_the_end_of_memory_faults() {
    let mut vm = Vm::new(vec![21; 32768]);
    for _ in 0..32768 {
        assert_eq!(vm.run_once(None), Ok(Action::Continue));
    }
    assert_eq!(vm.run_once(None), Err(Fault { cause: VmError::UnmappedAddress(32768), ptr: 32768 }));
}

#[test]
fn call_from_the_top_of_memory_faults() {
    let mut rom = vec![0u16; 32768];
    rom[0] = 6;
    rom[1] = 32766;
    rom[32766] = 17;
    rom[32767] = 0;
    let mut vm = Vm::new(rom);
    assert_eq!(vm.run_once(None), Ok(Action::Continue));
    assert_eq!(vm.run_once(None), Err(Fault { cause: VmError::InvalidValue(32768), ptr: 32766 }));
}

#[test]
fn image_words_are_little_endian() {
    assert_eq!(words_from_le_bytes(&vec![0x01, 0x00, 0x00, 0x80, 0x34, 0x12, 0xff]), vec![1, 32768, 0x1234]);
    assert!(words_from_le_bytes(&vec![]).is_empty());
}
