use crate::error::VmError;
use vstd::arithmetic::div_mod::{lemma_mul_mod_noop_left, lemma_mul_mod_noop_right};
use vstd::arithmetic::mul::{lemma_mul_is_associative, lemma_mul_is_commutative};
use vstd::prelude::*;

verus! {

/// The number of distinct ring values.
pub const MODULUS: u32 = 32768;

/// The largest ring value.
pub const MAX_VALUE: u16 = 32767;

/// Addition in the ring of integers modulo 32768.
pub open spec fn ring_add(a: nat, b: nat) -> nat {
    (a + b) % 32768
}

/// Multiplication in the ring of integers modulo 32768.
pub open spec fn ring_mult(a: nat, b: nat) -> nat {
    (a * b) % 32768
}

/// Ring addition is commutative and associative on ring values.
pub proof fn lemma_ring_add_laws(a: nat, b: nat, c: nat)
    requires
        a <= 32767,
        b <= 32767,
        c <= 32767,
    ensures
        ring_add(a, b) == ring_add(b, a),
        ring_add(ring_add(a, b), c) == ring_add(a, ring_add(b, c)),
{
}

/// Ring multiplication is commutative and associative on ring values.
pub proof fn lemma_ring_mult_laws(a: nat, b: nat, c: nat)
    requires
        a <= 32767,
        b <= 32767,
        c <= 32767,
    ensures
        ring_mult(a, b) == ring_mult(b, a),
        ring_mult(ring_mult(a, b), c) == ring_mult(a, ring_mult(b, c)),
{
    lemma_mul_is_commutative(a as int, b as int);
    lemma_mul_mod_noop_left((a * b) as int, c as int, 32768);
    lemma_mul_mod_noop_right(a as int, (b * c) as int, 32768);
    lemma_mul_is_associative(a as int, b as int, c as int);
}

/// A 15-bit unsigned integer, the machine's only data type.
#[allow(non_camel_case_types)]
#[derive(Debug, Clone, Copy, PartialEq, Eq, Structural)]
pub struct u15(u16);

impl View for u15 {
    type V = nat;

    closed spec fn view(&self) -> nat {
        (self.0 % 32768) as nat
    }
}

/// No ring value exceeds 32767.
pub broadcast proof fn lemma_view_bound(x: u15)
    ensures
        #[trigger] x@ <= 32767,
{
}

impl u15 {
    #[verifier::type_invariant]
    spec fn in_range(self) -> bool {
        self.0 <= 32767
    }

    /// The ring value zero.
    pub fn zero() -> (r: u15)
        ensures
            r@ == 0,
    {
        u15(0)
    }

    /// The ring value one.
    pub fn one() -> (r: u15)
        ensures
            r@ == 1,
    {
        u15(1)
    }

    /// Builds a ring value, rejecting raw numbers above 32767.
    pub fn new(v: u16) -> (r: Result<u15, VmError>)
        ensures
            v <= 32767 ==> (r matches Ok(x) && x@ == v as nat),
            v > 32767 ==> r == Err::<u15, VmError>(VmError::InvalidValue(v)),
    {
        if v > MAX_VALUE {
            return Err(VmError::InvalidValue(v));
        }
        Ok(u15(v))
    }

    pub fn as_u16(self) -> (r: u16)
        ensures
            r as nat == self@,
            r <= 32767,
    {
        proof { use_type_invariant(self); }
        self.0
    }

    pub fn as_usize(self) -> (r: usize)
        ensures
            r as nat == self@,
            r <= 32767,
    {
        proof { use_type_invariant(self); }
        self.0 as usize
    }

    /// The Unicode scalar value with this number; every ring value is one,
    /// since the surrogate range starts above 32767.
    pub fn as_char(self) -> (r: Result<char, VmError>)
        ensures
            r matches Ok(c) && (c as u32) as nat == self@,
    {
        proof { use_type_invariant(self); }
        match char_from_u32(self.0 as u32) {
            Some(c) => Ok(c),
            None => Err(VmError::InvalidScalarValue(self.0)),
        }
    }

    /// Wrapping addition.
    pub fn add(self, rhs: u15) -> (r: u15)
        ensures
            r@ == ring_add(self@, rhs@),
    {
        proof {
            use_type_invariant(self);
            use_type_invariant(rhs);
        }
        u15(((self.0 as u32 + rhs.0 as u32) % MODULUS) as u16)
    }

    /// Wrapping multiplication.
    pub fn mul(self, rhs: u15) -> (r: u15)
        ensures
            r@ == ring_mult(self@, rhs@),
    {
        proof {
            use_type_invariant(self);
            use_type_invariant(rhs);
            assert(self.0 as u64 * rhs.0 as u64 <= 32767 * 32767) by (nonlinear_arith)
                requires
                    self.0 <= 32767,
                    rhs.0 <= 32767,
            ;
        }
        u15(((self.0 as u64 * rhs.0 as u64) % (MODULUS as u64)) as u16)
    }

    /// Remainder of division by a nonzero ring value.
    pub fn rem(self, rhs: u15) -> (r: u15)
        requires
            rhs@ != 0,
        ensures
            r@ == self@ % rhs@,
    {
        proof {
            use_type_invariant(self);
            use_type_invariant(rhs);
        }
        u15(self.0 % rhs.0)
    }

    /// Bitwise and.
    pub fn bitand(self, rhs: u15) -> (r: u15)
        ensures
            r@ == (self.as_u16_spec() & rhs.as_u16_spec()) as nat,
    {
        proof {
            use_type_invariant(self);
            use_type_invariant(rhs);
            let (a, b) = (self.0, rhs.0);
            assert((a & b) <= a) by (bit_vector);
        }
        u15(self.0 & rhs.0)
    }

    /// Bitwise or.
    pub fn bitor(self, rhs: u15) -> (r: u15)
        ensures
            r@ == (self.as_u16_spec() | rhs.as_u16_spec()) as nat,
    {
        proof {
            use_type_invariant(self);
            use_type_invariant(rhs);
            let (a, b) = (self.0, rhs.0);
            assert(a <= 32767 && b <= 32767 ==> (a | b) <= 32767) by (bit_vector);
        }
        u15(self.0 | rhs.0)
    }

    /// Bitwise complement over 15 bits.
    pub fn not(self) -> (r: u15)
        ensures
            r@ == 32767 - self@,
    {
        proof {
            use_type_invariant(self);
            let a = self.0;
            assert(a <= 32767 ==> (!a) % 32768 == 32767 - a) by (bit_vector);
        }
        u15((!self.0) % (MODULUS as u16))
    }

    /// The value as a machine word.
    pub open spec fn as_u16_spec(self) -> u16 {
        self@ as u16
    }
}

/// Relies on char::from_u32: `Some` exactly for Unicode scalar values,
/// holding the character with that number.
#[verifier::external_body]
fn char_from_u32(v: u32) -> (r: Option<char>)
    ensures
        r.is_some() == (v < 0xD800 || (0xDFFF < v && v <= 0x10FFFF)),
        r matches Some(c) ==> c as u32 == v,
{
    char::from_u32(v)
}

} // verus!
