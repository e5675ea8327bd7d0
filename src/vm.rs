use crate::error::VmError;
use crate::machine::{
    is_alu, lit_arg, opcode_at, reg_arg, state_wf, step, val_arg, word_at, write_reg, Effect,
    VmState, MEMORY_SIZE,
};
use crate::num::{lemma_view_bound, u15};
use crate::register::{RegisterIndex, Registers};
use crate::value::{is_literal_word, is_register_word, Value};
use vstd::prelude::*;

verus! {

broadcast use lemma_view_bound;

/// What the world around the machine must do after a step.
#[derive(Debug, Clone, Copy, PartialEq, Eq, Structural)]
pub enum Action {
    /// Nothing: run the next step.
    Continue,
    /// Emit this character.
    Output(char),
    /// Supply one byte of input and run the same step again.
    NeedInput,
}

/// A fault that stopped the machine, with the address of the instruction
/// that raised it.
#[derive(Debug, Clone, Copy, PartialEq, Eq, Structural)]
pub struct Fault {
    pub cause: VmError,
    pub ptr: usize,
}

/// The abstract meaning of an action.
pub open spec fn effect_of(a: Action) -> Effect {
    match a {
        Action::Continue => Effect::Continue,
        Action::Output(c) => Effect::Output((c as u32) as nat),
        Action::NeedInput => Effect::NeedInput,
    }
}

/// A step from `s` to `t` that returned `r` did what `step` prescribes: on
/// success `t` is the next state, on a fault `s` is left as it was.
pub open spec fn step_done(s: VmState, t: VmState, input: Option<u8>, r: Result<Action, Fault>) -> bool {
    match step(s, input) {
        Ok((next, e)) => (r matches Ok(a) && t == next && effect_of(a) == e),
        Err(e) => r == Err::<Action, Fault>(Fault { cause: e, ptr: s.ptr as usize }) && t == s,
    }
}

/// A ring-value result read back as a number.
pub open spec fn lift(r: Result<u15, VmError>) -> Result<nat, VmError> {
    match r {
        Ok(v) => Ok(v@),
        Err(e) => Err(e),
    }
}

/// A register-index result read back as a number.
pub open spec fn lift_reg(r: Result<RegisterIndex, VmError>) -> Result<nat, VmError> {
    match r {
        Ok(v) => Ok(v@),
        Err(e) => Err(e),
    }
}

/// The machine: memory, registers, stack, instruction pointer and whether
/// it has halted.
pub struct Vm {
    ptr: usize,
    ram: Vec<u16>,
    regs: Registers,
    stack: Vec<u15>,
    halted: bool,
}

impl View for Vm {
    type V = VmState;

    closed spec fn view(&self) -> VmState {
        VmState {
            ptr: self.ptr as nat,
            ram: self.ram@,
            regs: self.regs@.map_values(|v: u15| v@),
            stack: self.stack@.map_values(|v: u15| v@),
            halted: self.halted,
        }
    }
}

impl Vm {
    /// The machine is well formed.
    pub open spec fn wf(&self) -> bool {
        state_wf(self@)
    }

    /// A running machine whose memory holds `rom` at its low addresses and
    /// zeros above; registers are zero and the stack is empty.
    pub fn new(rom: Vec<u16>) -> (r: Vm)
        requires
            rom@.len() <= 32768,
        ensures
            r.wf(),
            r@.ptr == 0,
            !r@.halted,
            r@.stack.len() == 0,
            forall|i: int| 0 <= i < 8 ==> #[trigger] r@.regs[i] == 0,
            forall|i: int| 0 <= i < rom@.len() ==> #[trigger] r@.ram[i] == rom@[i],
            forall|i: int| rom@.len() <= i < 32768 ==> #[trigger] r@.ram[i] == 0,
    {
        let mut ram = rom;
        let ghost image = ram@;
        while ram.len() < MEMORY_SIZE
            invariant
                image.len() <= ram@.len() <= 32768,
                forall|i: int| 0 <= i < image.len() ==> #[trigger] ram@[i] == image[i],
                forall|i: int| image.len() <= i < ram@.len() ==> #[trigger] ram@[i] == 0,
            decreases 32768 - ram@.len(),
        {
            ram.push(0);
        }
        let regs = Registers::new();
        proof { regs.lemma_len(); }
        Vm { ptr: 0, ram, regs, stack: Vec::new(), halted: false }
    }

    /// The instruction pointer.
    pub fn ptr(&self) -> (r: usize)
        ensures
            r as nat == self@.ptr,
    {
        self.ptr
    }

    /// Whether the machine has halted.
    pub fn is_halted(&self) -> (r: bool)
        ensures
            r == self@.halted,
    {
        self.halted
    }

    /// The register bank.
    pub fn registers(&self) -> (r: &Registers)
        ensures
            r@.map_values(|v: u15| v@) == self@.regs,
    {
        &self.regs
    }

    /// The stack, bottom first.
    pub fn stack(&self) -> (r: &Vec<u15>)
        ensures
            r@.map_values(|v: u15| v@) == self@.stack,
    {
        &self.stack
    }

    /// The memory.
    pub fn memory(&self) -> (r: &Vec<u16>)
        ensures
            r@ == self@.ram,
    {
        &self.ram
    }

    fn read_value(&self, at: usize) -> (r: Result<Value, VmError>)
        requires
            self.wf(),
        ensures
            match word_at(self@, at as int) {
                Err(e) => r == Err::<Value, VmError>(e),
                Ok(w) => {
                    &&& is_literal_word(w) ==> (r matches Ok(Value::Literal(x)) && x@ == w as nat)
                    &&& is_register_word(w) ==> (r matches Ok(Value::RegisterIndex(i)) && i@ == w - 32768)
                    &&& w > 32775 ==> r == Err::<Value, VmError>(VmError::DecodeError(w))
                },
            },
    {
        if at >= self.ram.len() {
            return Err(VmError::UnmappedAddress(at));
        }
        Value::new(self.ram[at])
    }

    fn read_resolved_value(&self, at: usize) -> (r: Result<u15, VmError>)
        requires
            self.wf(),
        ensures
            lift(r) == val_arg(self@, at as int),
    {
        match self.read_value(at) {
            Ok(v) => Ok(v.as_resolved(&self.regs)),
            Err(e) => Err(e),
        }
    }

    fn read_literal_value(&self, at: usize) -> (r: Result<u15, VmError>)
        requires
            self.wf(),
        ensures
            lift(r) == lit_arg(self@, at as int),
    {
        match self.read_value(at) {
            Ok(v) => v.as_literal(),
            Err(e) => Err(e),
        }
    }

    fn read_register_index_value(&self, at: usize) -> (r: Result<RegisterIndex, VmError>)
        requires
            self.wf(),
        ensures
            lift_reg(r) == reg_arg(self@, at as int),
    {
        match self.read_value(at) {
            Ok(v) => v.as_register_index(),
            Err(e) => Err(e),
        }
    }

    /// Writes `v` to register `r` and moves the pointer to `next`.
    fn write_register(&mut self, r: RegisterIndex, v: u15, next: usize)
        requires
            old(self).wf(),
            next <= 32768,
        ensures
            final(self).wf(),
            final(self)@ == write_reg(old(self)@, r@, v@, next as int),
    {
        self.regs.set(r, v);
        self.ptr = next;
        proof {
            assert(self@.regs =~= old(self)@.regs.update(r@ as int, v@));
        }
    }
    /// Runs one instruction. `input` is the byte on offer for `in`; when
    /// `in` finds none, it asks for one and changes nothing.
    pub fn run_once(&mut self, input: Option<u8>) -> (r: Result<Action, Fault>)
        requires
            old(self).wf(),
            !old(self)@.halted,
        ensures
            final(self).wf(),
            step_done(old(self)@, final(self)@, input, r),
    {
        let p = self.ptr;
        let cmd = match self.read_literal_value(p) {
            Ok(v) => v.as_u16(),
            Err(e) => return Err(Fault { cause: e, ptr: p }),
        };
        if cmd > 21 {
            return Err(Fault { cause: VmError::UnknownOpcode(cmd), ptr: p });
        }
        if cmd == 4 || cmd == 5 || (9 <= cmd && cmd <= 13) {
            return self.run_computation(cmd);
        }
        match cmd {
            // halt
            0 => {
                self.ptr = p + 1;
                self.halted = true;
                Ok(Action::Continue)
            },
            // set a b
            1 => {
                let a = match self.read_register_index_value(p + 1) {
                    Ok(a) => a,
                    Err(e) => return Err(Fault { cause: e, ptr: p }),
                };
                let b = match self.read_resolved_value(p + 2) {
                    Ok(b) => b,
                    Err(e) => return Err(Fault { cause: e, ptr: p }),
                };
                self.write_register(a, b, p + 3);
                Ok(Action::Continue)
            },
            // push a
            2 => {
                let a = match self.read_resolved_value(p + 1) {
                    Ok(a) => a,
                    Err(e) => return Err(Fault { cause: e, ptr: p }),
                };
                self.stack.push(a);
                self.ptr = p + 2;
                proof {
                    assert(self@.stack =~= old(self)@.stack.push(a@));
                }
                Ok(Action::Continue)
            },
            // pop a
            3 => {
                let a = match self.read_register_index_value(p + 1) {
                    Ok(a) => a,
                    Err(e) => return Err(Fault { cause: e, ptr: p }),
                };
                let top = match self.stack.pop() {
                    Some(top) => top,
                    None => return Err(Fault { cause: VmError::StackUnderflow, ptr: p }),
                };
                proof {
                    assert(self@.stack =~= old(self)@.stack.drop_last());
                }
                self.write_register(a, top, p + 2);
                Ok(Action::Continue)
            },
            // jmp a
            6 => {
                let a = match self.read_resolved_value(p + 1) {
                    Ok(a) => a,
                    Err(e) => return Err(Fault { cause: e, ptr: p }),
                };
                self.ptr = a.as_usize();
                Ok(Action::Continue)
            },
            // jt a b, jf a b
            7 | 8 => {
                let a = match self.read_resolved_value(p + 1) {
                    Ok(a) => a,
                    Err(e) => return Err(Fault { cause: e, ptr: p }),
                };
                let b = match self.read_resolved_value(p + 2) {
                    Ok(b) => b,
                    Err(e) => return Err(Fault { cause: e, ptr: p }),
                };
                if (cmd == 7) == (a.as_u16() != 0) {
                    self.ptr = b.as_usize();
                } else {
                    self.ptr = p + 3;
                }
                Ok(Action::Continue)
            },
            // not a b
            14 => {
                let a = match self.read_register_index_value(p + 1) {
                    Ok(a) => a,
                    Err(e) => return Err(Fault { cause: e, ptr: p }),
                };
                let b = match self.read_resolved_value(p + 2) {
                    Ok(b) => b,
                    Err(e) => return Err(Fault { cause: e, ptr: p }),
                };
                self.write_register(a, b.not(), p + 3);
                Ok(Action::Continue)
            },
            // rmem a b
            15 => {
                let a = match self.read_register_index_value(p + 1) {
                    Ok(a) => a,
                    Err(e) => return Err(Fault { cause: e, ptr: p }),
                };
                let b = match self.read_resolved_value(p + 2) {
                    Ok(b) => b,
                    Err(e) => return Err(Fault { cause: e, ptr: p }),
                };
                let v = match u15::new(self.ram[b.as_usize()]) {
                    Ok(v) => v,
                    Err(e) => return Err(Fault { cause: e, ptr: p }),
                };
                self.write_register(a, v, p + 3);
                Ok(Action::Continue)
            },
            // wmem a b
            16 => {
                let a = match self.read_resolved_value(p + 1) {
                    Ok(a) => a,
                    Err(e) => return Err(Fault { cause: e, ptr: p }),
                };
                let b = match self.read_resolved_value(p + 2) {
                    Ok(b) => b,
                    Err(e) => return Err(Fault { cause: e, ptr: p }),
                };
                self.ram.set(a.as_usize(), b.as_u16());
                self.ptr = p + 3;
                Ok(Action::Continue)
            },
            // call a
            17 => {
                let a = match self.read_resolved_value(p + 1) {
                    Ok(a) => a,
                    Err(e) => return Err(Fault { cause: e, ptr: p }),
                };
                let back = match u15::new((p + 2) as u16) {
                    Ok(back) => back,
                    Err(e) => return Err(Fault { cause: e, ptr: p }),
                };
                self.stack.push(back);
                self.ptr = a.as_usize();
                proof {
                    assert(self@.stack =~= old(self)@.stack.push((p + 2) as nat));
                }
                Ok(Action::Continue)
            },
            // ret
            18 => {
                match self.stack.pop() {
                    Some(top) => {
                        self.ptr = top.as_usize();
                        proof {
                            assert(self@.stack =~= old(self)@.stack.drop_last());
                        }
                    },
                    None => {
                        self.ptr = p + 1;
                        self.halted = true;
                    },
                }
                Ok(Action::Continue)
            },
            // out a
            19 => {
                let a = match self.read_resolved_value(p + 1) {
                    Ok(a) => a,
                    Err(e) => return Err(Fault { cause: e, ptr: p }),
                };
                let c = match a.as_char() {
                    Ok(c) => c,
                    Err(e) => return Err(Fault { cause: e, ptr: p }),
                };
                self.ptr = p + 2;
                Ok(Action::Output(c))
            },
            // in a
            20 => {
                let byte = match input {
                    Some(byte) => byte,
                    None => return Ok(Action::NeedInput),
                };
                let a = match self.read_register_index_value(p + 1) {
                    Ok(a) => a,
                    Err(e) => return Err(Fault { cause: e, ptr: p }),
                };
                let v = match u15::new(byte as u16) {
                    Ok(v) => v,
                    Err(e) => return Err(Fault { cause: e, ptr: p }),
                };
                self.write_register(a, v, p + 2);
                Ok(Action::Continue)
            },
            // noop
            _ => {
                self.ptr = p + 1;
                Ok(Action::Continue)
            },
        }
    }

    /// Runs `eq`, `gt`, `add`, `mult`, `mod`, `and` or `or`: three operands,
    /// a destination register and two values.
    fn run_computation(&mut self, cmd: u16) -> (r: Result<Action, Fault>)
        requires
            old(self).wf(),
            !old(self)@.halted,
            opcode_at(old(self)@) == Ok::<nat, VmError>(cmd as nat),
            is_alu(cmd as nat),
        ensures
            final(self).wf(),
            forall|input: Option<u8>| step_done(old(self)@, final(self)@, input, r),
    {
        let p = self.ptr;
        let a = match self.read_register_index_value(p + 1) {
            Ok(a) => a,
            Err(e) => return Err(Fault { cause: e, ptr: p }),
        };
        let b = match self.read_resolved_value(p + 2) {
            Ok(b) => b,
            Err(e) => return Err(Fault { cause: e, ptr: p }),
        };
        let c = match self.read_resolved_value(p + 3) {
            Ok(c) => c,
            Err(e) => return Err(Fault { cause: e, ptr: p }),
        };
        let v = if cmd == 4 {
            if b.as_u16() == c.as_u16() { u15::one() } else { u15::zero() }
        } else if cmd == 5 {
            if b.as_u16() > c.as_u16() { u15::one() } else { u15::zero() }
        } else if cmd == 9 {
            b.add(c)
        } else if cmd == 10 {
            b.mul(c)
        } else if cmd == 11 {
            if c.as_u16() == 0 {
                return Err(Fault { cause: VmError::DivisionByZero, ptr: p });
            }
            b.rem(c)
        } else if cmd == 12 {
            b.bitand(c)
        } else {
            b.bitor(c)
        };
        self.write_register(a, v, p + 4);
        Ok(Action::Continue)
    }
}

} // verus!
