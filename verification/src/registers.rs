//! The register file.

use crate::flags::StatusRegister;
use vstd::prelude::*;

verus! {

/// The registers of a 6502. They are the same on every model of the
/// processor, and none of them constrains another.
pub struct Registers {
    /// The accumulator.
    pub a: u8,
    /// The X index.
    pub x: u8,
    /// The Y index.
    pub y: u8,
    /// The status register with all flags.
    pub flags: StatusRegister,
    /// The program counter.
    pub pc: u16,
}

impl Registers {
    /// The register file in which every register is 0 and every flag clear.
    pub open spec fn zeroed() -> Registers {
        Registers { a: 0, x: 0, y: 0, flags: StatusRegister::empty(), pc: 0 }
    }

    /// Returns an empty set of registers: every register is 0.
    pub fn new() -> (registers: Registers)
        ensures
            registers == Registers::zeroed(),
    {
        Registers { a: 0, x: 0, y: 0, flags: StatusRegister::empty(), pc: 0 }
    }

    /// Sets every register to 0.
    pub fn reset(&mut self)
        ensures
            *final(self) == Registers::zeroed(),
    {
        self.a = 0;
        self.x = 0;
        self.y = 0;
        self.flags = StatusRegister::empty();
        self.pc = 0;
    }
}

} // verus!
