use crate::error::ChipError;
use vstd::prelude::*;

verus! {

/// The register file: sixteen general-purpose 8-bit registers `V0..=VF`, the 16-bit
/// index register `I`, the program counter, the stack pointer and the two timers.
/// `VF` doubles as the carry, borrow and shift flag.
#[derive(Debug, Clone, Copy, PartialEq, Eq, Structural)]
pub struct Registers {
    pub program_counter: u16,
    pub stack_pointer: u8,
    pub i: u16,
    pub delay_timer: u8,
    pub sound_timer: u8,
    pub v0: u8,
    pub v1: u8,
    pub v2: u8,
    pub v3: u8,
    pub v4: u8,
    pub v5: u8,
    pub v6: u8,
    pub v7: u8,
    pub v8: u8,
    pub v9: u8,
    pub va: u8,
    pub vb: u8,
    pub vc: u8,
    pub vd: u8,
    pub ve: u8,
    pub vf: u8,
}

impl Registers {
    /// The value of general-purpose register `n`; meaningful for `n < 16`.
    pub open spec fn vx(self, n: int) -> u8 {
        if n == 0 {
            self.v0
        } else if n == 1 {
            self.v1
        } else if n == 2 {
            self.v2
        } else if n == 3 {
            self.v3
        } else if n == 4 {
            self.v4
        } else if n == 5 {
            self.v5
        } else if n == 6 {
            self.v6
        } else if n == 7 {
            self.v7
        } else if n == 8 {
            self.v8
        } else if n == 9 {
            self.v9
        } else if n == 10 {
            self.va
        } else if n == 11 {
            self.vb
        } else if n == 12 {
            self.vc
        } else if n == 13 {
            self.vd
        } else if n == 14 {
            self.ve
        } else {
            self.vf
        }
    }

    /// This register file with general-purpose register `n` set to `v`; meaningful
    /// for `n < 16`.
    pub open spec fn with_vx(self, n: int, v: u8) -> Registers {
        if n == 0 {
            Registers { v0: v, ..self }
        } else if n == 1 {
            Registers { v1: v, ..self }
        } else if n == 2 {
            Registers { v2: v, ..self }
        } else if n == 3 {
            Registers { v3: v, ..self }
        } else if n == 4 {
            Registers { v4: v, ..self }
        } else if n == 5 {
            Registers { v5: v, ..self }
        } else if n == 6 {
            Registers { v6: v, ..self }
        } else if n == 7 {
            Registers { v7: v, ..self }
        } else if n == 8 {
            Registers { v8: v, ..self }
        } else if n == 9 {
            Registers { v9: v, ..self }
        } else if n == 10 {
            Registers { va: v, ..self }
        } else if n == 11 {
            Registers { vb: v, ..self }
        } else if n == 12 {
            Registers { vc: v, ..self }
        } else if n == 13 {
            Registers { vd: v, ..self }
        } else if n == 14 {
            Registers { ve: v, ..self }
        } else {
            Registers { vf: v, ..self }
        }
    }

    /// A register file with every register at zero.
    pub open spec fn zeroed() -> Registers {
        Registers {
            program_counter: 0,
            stack_pointer: 0,
            i: 0,
            delay_timer: 0,
            sound_timer: 0,
            v0: 0,
            v1: 0,
            v2: 0,
            v3: 0,
            v4: 0,
            v5: 0,
            v6: 0,
            v7: 0,
            v8: 0,
            v9: 0,
            va: 0,
            vb: 0,
            vc: 0,
            vd: 0,
            ve: 0,
            vf: 0,
        }
    }

    pub fn new() -> (r: Registers)
        ensures
            r == Registers::zeroed(),
    {
        Registers {
            program_counter: 0,
            stack_pointer: 0,
            i: 0,
            delay_timer: 0,
            sound_timer: 0,
            v0: 0,
            v1: 0,
            v2: 0,
            v3: 0,
            v4: 0,
            v5: 0,
            v6: 0,
            v7: 0,
            v8: 0,
            v9: 0,
            va: 0,
            vb: 0,
            vc: 0,
            vd: 0,
            ve: 0,
            vf: 0,
        }
    }

    /// Writes `value` into register `reg_number`, the only checked way into the
    /// general-purpose registers.
    pub fn set_vx(&mut self, reg_number: u8, value: u8) -> (r: Result<(), ChipError>)
        ensures
            reg_number < 16 ==> r is Ok && *final(self) == old(self).with_vx(reg_number as int, value),
            reg_number >= 16 ==> r == Err::<(), ChipError>(ChipError::InvalidRegister) && *final(self) == *old(self),
    {
        match reg_number {
            0x0 => self.v0 = value,
            0x1 => self.v1 = value,
            0x2 => self.v2 = value,
            0x3 => self.v3 = value,
            0x4 => self.v4 = value,
            0x5 => self.v5 = value,
            0x6 => self.v6 = value,
            0x7 => self.v7 = value,
            0x8 => self.v8 = value,
            0x9 => self.v9 = value,
            0xA => self.va = value,
            0xB => self.vb = value,
            0xC => self.vc = value,
            0xD => self.vd = value,
            0xE => self.ve = value,
            0xF => self.vf = value,
            _ => return Err(ChipError::InvalidRegister),
        }
        Ok(())
    }

    /// Reads register `reg_number`, the only checked way out of the general-purpose
    /// registers.
    pub fn get_vx(&self, reg_number: u8) -> (r: Result<u8, ChipError>)
        ensures
            reg_number < 16 ==> r == Ok::<u8, ChipError>(self.vx(reg_number as int)),
            reg_number >= 16 ==> r == Err::<u8, ChipError>(ChipError::InvalidRegister),
    {
        match reg_number {
            0x0 => Ok(self.v0),
            0x1 => Ok(self.v1),
            0x2 => Ok(self.v2),
            0x3 => Ok(self.v3),
            0x4 => Ok(self.v4),
            0x5 => Ok(self.v5),
            0x6 => Ok(self.v6),
            0x7 => Ok(self.v7),
            0x8 => Ok(self.v8),
            0x9 => Ok(self.v9),
            0xA => Ok(self.va),
            0xB => Ok(self.vb),
            0xC => Ok(self.vc),
            0xD => Ok(self.vd),
            0xE => Ok(self.ve),
            0xF => Ok(self.vf),
            _ => Err(ChipError::InvalidRegister),
        }
    }
}

/// Reading a register just written gives the value written; the others keep theirs.
pub proof fn lemma_with_vx(r: Registers, n: int, v: u8, m: int)
    requires
        0 <= n < 16,
        0 <= m < 16,
    ensures
        r.with_vx(n, v).vx(m) == if m == n { v } else { r.vx(m) },
        r.with_vx(n, v).program_counter == r.program_counter,
        r.with_vx(n, v).stack_pointer == r.stack_pointer,
        r.with_vx(n, v).i == r.i,
        r.with_vx(n, v).delay_timer == r.delay_timer,
        r.with_vx(n, v).sound_timer == r.sound_timer,
{
}

} // verus!
