use crate::error::VmError;
use crate::num::u15;
use vstd::prelude::*;

verus! {

/// The number of general registers.
pub const REGISTER_COUNT: usize = 8;

/// The name of one of the eight general registers.
#[derive(Debug, Clone, Copy, PartialEq, Eq, Structural)]
pub struct RegisterIndex(u8);

impl View for RegisterIndex {
    type V = nat;

    closed spec fn view(&self) -> nat {
        self.0 as nat
    }
}

impl RegisterIndex {
    #[verifier::type_invariant]
    spec fn in_range(self) -> bool {
        self.0 < 8
    }

    /// Names register `v`, which must be below eight.
    pub fn new(v: u16) -> (r: Result<RegisterIndex, VmError>)
        ensures
            v < 8 ==> (r matches Ok(x) && x@ == v as nat),
            v >= 8 ==> r == Err::<RegisterIndex, VmError>(VmError::InvalidRegister(v)),
    {
        if v as usize >= REGISTER_COUNT {
            return Err(VmError::InvalidRegister(v));
        }
        Ok(RegisterIndex(v as u8))
    }

    /// Names the register that the raw word `v` refers to: its low 15 bits
    /// must be below eight.
    pub fn from_exact(v: u16) -> (r: Result<RegisterIndex, VmError>)
        ensures
            v % 32768 < 8 ==> (r matches Ok(x) && x@ == (v % 32768) as nat),
            v % 32768 >= 8 ==> r == Err::<RegisterIndex, VmError>(
                VmError::InvalidRegister(v % 32768),
            ),
    {
        RegisterIndex::new(v % 32768)
    }

    pub fn as_usize(self) -> (r: usize)
        ensures
            r as nat == self@,
            r < 8,
    {
        proof { use_type_invariant(self); }
        self.0 as usize
    }
}

/// The bank of eight general registers.
#[derive(Debug, Clone, Copy)]
pub struct Registers([u15; 8]);

impl View for Registers {
    type V = Seq<u15>;

    closed spec fn view(&self) -> Seq<u15> {
        self.0@
    }
}

impl Registers {
    /// Eight registers, all zero.
    pub fn new() -> (r: Registers)
        ensures
            r@.len() == 8,
            forall|i: int| 0 <= i < 8 ==> (#[trigger] r@[i])@ == 0,
    {
        let z = u15::zero();
        Registers([z, z, z, z, z, z, z, z])
    }

    /// The value held in `register`.
    pub fn get(&self, register: RegisterIndex) -> (r: u15)
        ensures
            r == self@[register@ as int],
    {
        let i = register.as_usize();
        self.0[i]
    }

    /// Stores `value` in `register`, leaving the others as they were.
    pub fn set(&mut self, register: RegisterIndex, value: u15)
        ensures
            final(self)@ == old(self)@.update(register@ as int, value),
            register@ < 8,
    {
        let i = register.as_usize();
        self.0[i] = value;
    }

    /// The values of the registers, in order, as machine words.
    pub fn to_words(&self) -> (r: Vec<u16>)
        ensures
            r@.len() == 8,
            forall|i: int| 0 <= i < 8 ==> (#[trigger] r@[i]) as nat == self@[i]@,
    {
        let mut out: Vec<u16> = Vec::new();
        let mut i: usize = 0;
        while i < REGISTER_COUNT
            invariant
                i <= 8,
                self@.len() == 8,
                out@.len() == i,
                forall|j: int| 0 <= j < i ==> (#[trigger] out@[j]) as nat == self@[j]@,
            decreases 8 - i,
        {
            out.push(self.0[i].as_u16());
            i = i + 1;
        }
        out
    }

    /// Every register bank has eight registers.
    pub proof fn lemma_len(&self)
        ensures
            self@.len() == 8,
    {
    }
}

impl Default for Registers {
    fn default() -> (r: Registers)
        ensures
            r@.len() == 8,
            forall|i: int| 0 <= i < 8 ==> (#[trigger] r@[i])@ == 0,
    {
        Registers::new()
    }
}

} // verus!
