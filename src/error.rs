use vstd::prelude::*;

verus! {

/// Why a machine operation failed.
#[derive(Debug, Clone, Copy, PartialEq, Eq, Structural)]
pub enum VmError {
    /// A raw word above 32767 was read where a ring value was expected.
    InvalidValue(u16),
    /// A raw number does not name one of the eight registers.
    InvalidRegister(u16),
    /// A raw word is neither an immediate (0..=32767) nor a register reference (32768..=32775).
    DecodeError(u16),
    /// An immediate was found where a register was required.
    ExpectedRegister,
    /// A register reference was found where an immediate was required.
    ExpectedLiteral,
    /// The opcode selector is outside 0..=21.
    UnknownOpcode(u16),
    /// `pop` on an empty stack.
    StackUnderflow,
    /// The instruction pointer left the memory.
    UnmappedAddress(usize),
    /// `mod` with a zero divisor.
    DivisionByZero,
    /// `out` on a value that is no Unicode scalar value.
    InvalidScalarValue(u16),
}

} // verus!
