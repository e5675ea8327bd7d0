use synacor_vm::error::VmError;
use synacor_vm::num::u15;
use synacor_vm::register::{RegisterIndex, Registers};
use synacor_vm::value::Value;

#[test]
fn register_index_accepts_zero_to_seven() {
    assert!(RegisterIndex::new(0).is_ok());
    assert!(RegisterIndex::new(7).is_ok());
    assert_eq!(RegisterIndex::new(8), Err(VmError::InvalidRegister(8)));
}

#[test]
fn register_index_from_exact_takes_the_low_15_bits() {
    assert_eq!(RegisterIndex::from_exact(32775), RegisterIndex::new(7));
    assert_eq!(RegisterIndex::from_exact(3), RegisterIndex::new(3));
    assert_eq!(RegisterIndex::from_exact(32776), Err(VmError::InvalidRegister(8)));
}

#[test]
fn registers_start_at_zero_and_keep_what_is_set() {
    let mut regs = Registers::new();
    for i in 0..8u16 {
        assert_eq!(regs.get(RegisterIndex::new(i).unwrap()).as_u16(), 0);
    }
    regs.set(RegisterIndex::new(3).unwrap(), u15::new(99).unwrap());
    assert_eq!(regs.get(RegisterIndex::new(3).unwrap()).as_u16(), 99);
    assert_eq!(regs.get(RegisterIndex::new(2).unwrap()).as_u16(), 0);
    assert_eq!(regs.to_words(), vec![0, 0, 0, 99, 0, 0, 0, 0]);
    let d = Registers::default();
    assert_eq!(d.to_words(), vec![0; 8]);
}

#[test]
fn decode_immediates() {
    assert_eq!(Value::new(0), Ok(Value::Literal(u15::new(0).unwrap())));
    assert_eq!(Value::new(32767), Ok(Value::Literal(u15::new(32767).unwrap())));
}

#[test]
fn decode_register_references() {
    assert_eq!(Value::new(32768), Ok(Value::RegisterIndex(RegisterIndex::new(0).unwrap())));
    assert_eq!(Value::new(32775), Ok(Value::RegisterIndex(RegisterIndex::new(7).unwrap())));
}

#[test]
fn decode_rejects_words_above_the_registers() {
    assert_eq!(Value::new(32776), Err(VmError::DecodeError(32776)));
    assert_eq!(Value::new(65535), Err(VmError::DecodeError(65535)));
}

#[test]
fn operand_kind_requirements() {
    let lit = Value::new(5).unwrap();
    let reg = Value::new(32769).unwrap();
    assert_eq!(lit.as_literal(), Ok(u15::new(5).unwrap()));
    assert_eq!(reg.as_literal(), Err(VmError::ExpectedLiteral));
    assert_eq!(reg.as_register_index(), Ok(RegisterIndex::new(1).unwrap()));
    assert_eq!(lit.as_register_index(), Err(VmError::ExpectedRegister));
}

#[test]
fn resolve_reads_registers() {
    let mut regs = Registers::new();
    regs.set(RegisterIndex::new(1).unwrap(), u15::new(777).unwrap());
    assert_eq!(Value::new(32769).unwrap().as_resolved(&regs).as_u16(), 777);
    assert_eq!(Value::new(42).unwrap().as_resolved(&regs).as_u16(), 42);
}
