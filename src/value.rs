use crate::error::VmError;
use crate::num::u15;
use crate::register::{RegisterIndex, Registers};
use vstd::prelude::*;

verus! {

/// An operand as decoded from a raw machine word.
#[derive(Debug, Clone, Copy, PartialEq, Eq, Structural)]
pub enum Value {
    /// An immediate ring value (raw words 0..=32767).
    Literal(u15),
    /// A reference to a register (raw words 32768..=32775).
    RegisterIndex(RegisterIndex),
}

/// Whether a raw word decodes as an immediate.
pub open spec fn is_literal_word(raw: u16) -> bool {
    raw <= 32767
}

/// Whether a raw word decodes as a register reference.
pub open spec fn is_register_word(raw: u16) -> bool {
    32768 <= raw <= 32775
}

/// The value of an operand, reading registers from `regs`.
pub open spec fn resolved(v: Value, regs: Seq<u15>) -> u15 {
    match v {
        Value::Literal(x) => x,
        Value::RegisterIndex(r) => regs[r@ as int],
    }
}

impl Value {
    /// Decodes a raw word: an immediate, a register reference, or an error.
    pub fn new(v: u16) -> (r: Result<Value, VmError>)
        ensures
            is_literal_word(v) ==> (r matches Ok(Value::Literal(x)) && x@ == v as nat),
            is_register_word(v) ==> (r matches Ok(Value::RegisterIndex(i)) && i@ == v - 32768),
            v > 32775 ==> r == Err::<Value, VmError>(VmError::DecodeError(v)),
    {
        if let Ok(literal) = u15::new(v) {
            Ok(Value::Literal(literal))
        } else if let Ok(register) = RegisterIndex::from_exact(v) {
            Ok(Value::RegisterIndex(register))
        } else {
            Err(VmError::DecodeError(v))
        }
    }

    /// The immediate, or an error for a register reference.
    pub fn as_literal(self) -> (r: Result<u15, VmError>)
        ensures
            self matches Value::Literal(x) ==> r == Ok::<u15, VmError>(x),
            self is RegisterIndex ==> r == Err::<u15, VmError>(VmError::ExpectedLiteral),
    {
        match self {
            Value::Literal(v) => Ok(v),
            Value::RegisterIndex(_) => Err(VmError::ExpectedLiteral),
        }
    }

    /// The register reference, or an error for an immediate.
    pub fn as_register_index(self) -> (r: Result<RegisterIndex, VmError>)
        ensures
            self matches Value::RegisterIndex(i) ==> r == Ok::<RegisterIndex, VmError>(i),
            self is Literal ==> r == Err::<RegisterIndex, VmError>(VmError::ExpectedRegister),
    {
        match self {
            Value::Literal(_) => Err(VmError::ExpectedRegister),
            Value::RegisterIndex(r) => Ok(r),
        }
    }

    /// The immediate itself, or the current contents of the register.
    pub fn as_resolved(self, registers: &Registers) -> (r: u15)
        ensures
            r == resolved(self, registers@),
    {
        match self {
            Value::Literal(v) => v,
            Value::RegisterIndex(r) => registers.get(r),
        }
    }
}

} // verus!
