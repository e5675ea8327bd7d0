use crate::error::VmError;
use crate::num::{ring_add, ring_mult};
use crate::value::{is_literal_word, is_register_word};
use vstd::prelude::*;

verus! {

/// The number of words of memory.
pub const MEMORY_SIZE: usize = 32768;

/// The abstract state of the machine: memory, registers and stack hold
/// numbers, and the instruction pointer is an index into memory.
pub struct VmState {
    pub ptr: nat,
    pub ram: Seq<u16>,
    pub regs: Seq<nat>,
    pub stack: Seq<nat>,
    pub halted: bool,
}

/// What a step asks of the world around the machine.
pub enum Effect {
    /// Nothing: the step is done.
    Continue,
    /// Emit the Unicode scalar value with this number.
    Output(nat),
    /// `in` needs one byte of input before it can run; the state is unchanged.
    NeedInput,
}

/// Memory has its full size, there are eight registers, and the pointer
/// stays within memory or just past its end.
pub open spec fn state_wf(s: VmState) -> bool {
    &&& s.ram.len() == 32768
    &&& s.regs.len() == 8
    &&& s.ptr <= 32768
    &&& forall|i: int| 0 <= i < s.regs.len() ==> #[trigger] s.regs[i] <= 32767
    &&& forall|i: int| 0 <= i < s.stack.len() ==> #[trigger] s.stack[i] <= 32767
}

/// The raw word at address `i`.
pub open spec fn word_at(s: VmState, i: int) -> Result<u16, VmError> {
    if 0 <= i < s.ram.len() {
        Ok(s.ram[i])
    } else {
        Err(VmError::UnmappedAddress(i as usize))
    }
}

/// The word at `i` decoded and resolved to a value.
pub open spec fn val_arg(s: VmState, i: int) -> Result<nat, VmError> {
    match word_at(s, i) {
        Err(e) => Err(e),
        Ok(w) => if is_literal_word(w) {
            Ok(w as nat)
        } else if is_register_word(w) {
            Ok(s.regs[w - 32768])
        } else {
            Err(VmError::DecodeError(w))
        },
    }
}

/// The word at `i` decoded as a destination register.
pub open spec fn reg_arg(s: VmState, i: int) -> Result<nat, VmError> {
    match word_at(s, i) {
        Err(e) => Err(e),
        Ok(w) => if is_literal_word(w) {
            Err(VmError::ExpectedRegister)
        } else if is_register_word(w) {
            Ok((w - 32768) as nat)
        } else {
            Err(VmError::DecodeError(w))
        },
    }
}

/// The word at `i` decoded as an immediate.
pub open spec fn lit_arg(s: VmState, i: int) -> Result<nat, VmError> {
    match word_at(s, i) {
        Err(e) => Err(e),
        Ok(w) => if is_literal_word(w) {
            Ok(w as nat)
        } else if is_register_word(w) {
            Err(VmError::ExpectedLiteral)
        } else {
            Err(VmError::DecodeError(w))
        },
    }
}

/// The opcode selector of the instruction at the pointer.
pub open spec fn opcode_at(s: VmState) -> Result<nat, VmError> {
    match lit_arg(s, s.ptr as int) {
        Err(e) => Err(e),
        Ok(op) => if op <= 21 {
            Ok(op)
        } else {
            Err(VmError::UnknownOpcode(op as u16))
        },
    }
}

/// Operands `reg, val` of the instruction at `p`.
pub open spec fn args_rv(s: VmState, p: int) -> Result<(nat, nat), VmError> {
    match reg_arg(s, p + 1) {
        Err(e) => Err(e),
        Ok(a) => match val_arg(s, p + 2) {
            Err(e) => Err(e),
            Ok(b) => Ok((a, b)),
        },
    }
}

/// Operands `val, val` of the instruction at `p`.
pub open spec fn args_vv(s: VmState, p: int) -> Result<(nat, nat), VmError> {
    match val_arg(s, p + 1) {
        Err(e) => Err(e),
        Ok(a) => match val_arg(s, p + 2) {
            Err(e) => Err(e),
            Ok(b) => Ok((a, b)),
        },
    }
}

/// Operands `reg, val, val` of the instruction at `p`.
pub open spec fn args_rvv(s: VmState, p: int) -> Result<(nat, nat, nat), VmError> {
    match args_rv(s, p) {
        Err(e) => Err(e),
        Ok((a, b)) => match val_arg(s, p + 3) {
            Err(e) => Err(e),
            Ok(c) => Ok((a, b, c)),
        },
    }
}

/// Whether `op` is one of the three-operand computations.
pub open spec fn is_alu(op: nat) -> bool {
    op == 4 || op == 5 || (9 <= op <= 13)
}

/// The result of a three-operand computation.
pub open spec fn alu(op: nat, b: nat, c: nat) -> nat {
    if op == 4 {
        if b == c { 1 } else { 0 }
    } else if op == 5 {
        if b > c { 1 } else { 0 }
    } else if op == 9 {
        ring_add(b, c)
    } else if op == 10 {
        ring_mult(b, c)
    } else if op == 11 {
        b % c
    } else if op == 12 {
        (b as u16 & c as u16) as nat
    } else {
        (b as u16 | c as u16) as nat
    }
}

/// `s` with the pointer at `ptr`.
pub open spec fn jump(s: VmState, ptr: int) -> VmState {
    VmState { ptr: ptr as nat, ..s }
}

/// `s` with register `r` set to `v` and the pointer at `ptr`.
pub open spec fn write_reg(s: VmState, r: nat, v: nat, ptr: int) -> VmState {
    VmState { ptr: ptr as nat, regs: s.regs.update(r as int, v), ..s }
}

/// One step of the machine from a running state `s`, given the byte of
/// input on offer, if any: the next state and what it asks of the world,
/// or the fault that stops the machine.
pub open spec fn step(s: VmState, input: Option<u8>) -> Result<(VmState, Effect), VmError> {
    let p = s.ptr as int;
    match opcode_at(s) {
        Err(e) => Err(e),
        Ok(op) => if op == 0 {
            Ok((VmState { ptr: (p + 1) as nat, halted: true, ..s }, Effect::Continue))
        } else if op == 1 {
            match args_rv(s, p) {
                Err(e) => Err(e),
                Ok((a, b)) => Ok((write_reg(s, a, b, p + 3), Effect::Continue)),
            }
        } else if op == 2 {
            match val_arg(s, p + 1) {
                Err(e) => Err(e),
                Ok(a) => Ok((VmState { ptr: (p + 2) as nat, stack: s.stack.push(a), ..s }, Effect::Continue)),
            }
        } else if op == 3 {
            match reg_arg(s, p + 1) {
                Err(e) => Err(e),
                Ok(a) => if s.stack.len() == 0 {
                    Err(VmError::StackUnderflow)
                } else {
                    Ok((
                        VmState { stack: s.stack.drop_last(), ..write_reg(s, a, s.stack.last(), p + 2) },
                        Effect::Continue,
                    ))
                },
            }
        } else if is_alu(op) {
            match args_rvv(s, p) {
                Err(e) => Err(e),
                Ok((a, b, c)) => if op == 11 && c == 0 {
                    Err(VmError::DivisionByZero)
                } else {
                    Ok((write_reg(s, a, alu(op, b, c), p + 4), Effect::Continue))
                },
            }
        } else if op == 6 {
            match val_arg(s, p + 1) {
                Err(e) => Err(e),
                Ok(a) => Ok((jump(s, a as int), Effect::Continue)),
            }
        } else if op == 7 || op == 8 {
            match args_vv(s, p) {
                Err(e) => Err(e),
                Ok((a, b)) => if (op == 7) == (a != 0) {
                    Ok((jump(s, b as int), Effect::Continue))
                } else {
                    Ok((jump(s, p + 3), Effect::Continue))
                },
            }
        } else if op == 14 {
            match args_rv(s, p) {
                Err(e) => Err(e),
                Ok((a, b)) => Ok((write_reg(s, a, (32767 - b) as nat, p + 3), Effect::Continue)),
            }
        } else if op == 15 {
            match args_rv(s, p) {
                Err(e) => Err(e),
                Ok((a, b)) => match word_at(s, b as int) {
                    Err(e) => Err(e),
                    Ok(w) => if w > 32767 {
                        Err(VmError::InvalidValue(w))
                    } else {
                        Ok((write_reg(s, a, w as nat, p + 3), Effect::Continue))
                    },
                },
            }
        } else if op == 16 {
            match args_vv(s, p) {
                Err(e) => Err(e),
                Ok((a, b)) => if a >= s.ram.len() {
                    Err(VmError::UnmappedAddress(a as usize))
                } else {
                    Ok((
                        VmState { ptr: (p + 3) as nat, ram: s.ram.update(a as int, b as u16), ..s },
                        Effect::Continue,
                    ))
                },
            }
        } else if op == 17 {
            match val_arg(s, p + 1) {
                Err(e) => Err(e),
                Ok(a) => if p + 2 > 32767 {
                    Err(VmError::InvalidValue((p + 2) as u16))
                } else {
                    Ok((VmState { ptr: a, stack: s.stack.push((p + 2) as nat), ..s }, Effect::Continue))
                },
            }
        } else if op == 18 {
            if s.stack.len() == 0 {
                Ok((VmState { ptr: (p + 1) as nat, halted: true, ..s }, Effect::Continue))
            } else {
                Ok((VmState { ptr: s.stack.last(), stack: s.stack.drop_last(), ..s }, Effect::Continue))
            }
        } else if op == 19 {
            match val_arg(s, p + 1) {
                Err(e) => Err(e),
                Ok(a) => Ok((jump(s, p + 2), Effect::Output(a))),
            }
        } else if op == 20 {
            match input {
                None => Ok((s, Effect::NeedInput)),
                Some(byte) => match reg_arg(s, p + 1) {
                    Err(e) => Err(e),
                    Ok(a) => Ok((write_reg(s, a, byte as nat, p + 2), Effect::Continue)),
                },
            }
        } else {
            Ok((jump(s, p + 1), Effect::Continue))
        },
    }
}

/// A `call` to `x` pushes the address just past its operand and jumps to
/// `x`; a `ret` found there returns to the pushed address and leaves the
/// stack as it was before the call.
pub proof fn lemma_call_then_ret(s: VmState, x: nat, first: Option<u8>, second: Option<u8>)
    requires
        state_wf(s),
        opcode_at(s) == Ok::<nat, VmError>(17),
        val_arg(s, s.ptr + 1 as int) == Ok::<nat, VmError>(x),
        s.ptr + 2 <= 32767,
        opcode_at((VmState { ptr: x, stack: s.stack.push((s.ptr + 2) as nat), ..s })) == Ok::<
            nat,
            VmError,
        >(18),
    ensures
        step(s, first) == Ok::<(VmState, Effect), VmError>(
            ((VmState { ptr: x, stack: s.stack.push((s.ptr + 2) as nat), ..s }), Effect::Continue),
        ),
        step((VmState { ptr: x, stack: s.stack.push((s.ptr + 2) as nat), ..s }), second) == Ok::<
            (VmState, Effect),
            VmError,
        >((jump(s, s.ptr + 2 as int), Effect::Continue)),
{
    assert(s.stack.push((s.ptr + 2) as nat).drop_last() =~= s.stack);
}

/// A `wmem` of `v` to address `a`, followed by an `rmem` from
/// `a` into register `r`, leaves `v` in register `r`.
pub proof fn lemma_wmem_then_rmem(
    s: VmState,
    a: nat,
    v: nat,
    r: nat,
    first: Option<u8>,
    second: Option<u8>,
)
    requires
        state_wf(s),
        opcode_at(s) == Ok::<nat, VmError>(16),
        args_vv(s, s.ptr as int) == Ok::<(nat, nat), VmError>((a, v)),
        opcode_at((VmState { ptr: (s.ptr + 3) as nat, ram: s.ram.update(a as int, v as u16), ..s })) == Ok::<
            nat,
            VmError,
        >(15),
        args_rv((VmState { ptr: (s.ptr + 3) as nat, ram: s.ram.update(a as int, v as u16), ..s }), s.ptr + 3 as int)
            == Ok::<(nat, nat), VmError>((r, a)),
    ensures
        step(s, first) == Ok::<(VmState, Effect), VmError>(
            ((VmState { ptr: (s.ptr + 3) as nat, ram: s.ram.update(a as int, v as u16), ..s }), Effect::Continue),
        ),
        step((VmState { ptr: (s.ptr + 3) as nat, ram: s.ram.update(a as int, v as u16), ..s }), second) matches Ok(
            (t, Effect::Continue),
        ) && t.regs[r as int] == v,
{
    lemma_val_arg_bound(s, s.ptr + 1 as int);
    lemma_val_arg_bound(s, s.ptr + 2 as int);
}

/// In a well-formed state every operand resolves to a ring value.
pub proof fn lemma_val_arg_bound(s: VmState, i: int)
    requires
        state_wf(s),
    ensures
        val_arg(s, i) matches Ok(v) ==> v <= 32767,
{
}

/// A `ret` with an empty stack halts the machine; it is no fault.
pub proof fn lemma_ret_on_empty_stack_halts(s: VmState, input: Option<u8>)
    requires
        state_wf(s),
        opcode_at(s) == Ok::<nat, VmError>(18),
        s.stack.len() == 0,
    ensures
        step(s, input) matches Ok((t, Effect::Continue)) && t.halted,
{
}

/// Every step from a well-formed state leads to a well-formed state: in
/// particular no register or stack entry ever exceeds 32767.
pub proof fn lemma_step_preserves_wf(s: VmState, input: Option<u8>)
    requires
        state_wf(s),
    ensures
        step(s, input) matches Ok((t, _)) ==> state_wf(t),
{
    let p = s.ptr as int;
    lemma_val_arg_bound(s, p + 1);
    lemma_val_arg_bound(s, p + 2);
    lemma_val_arg_bound(s, p + 3);
    assert(forall|b: u16, c: u16| b <= 32767 && c <= 32767 ==> (b & c) <= 32767 && (b | c) <= 32767)
        by (bit_vector);
}

} // verus!
