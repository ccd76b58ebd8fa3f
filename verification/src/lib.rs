//! The instruction-execution core of a 6502 emulator.
//!
//! * [`flags`] and [`registers`]: the status register and the register file.
//! * [`bus`]: the memory bus that a model of the processor supplies, and the
//!   addressing modes that turn the operand bytes of an instruction into an
//!   effective address.
//! * [`instructions`]: the instruction set on top of a bus and a register
//!   file, with the add-with-carry instruction in each of its addressing
//!   modes.
//!
//! The arithmetic is that of the hardware: sums wrap, and where the
//! processor does not carry into the high byte of an address, neither does
//! this crate. Every function is total. Each states what it returns or
//! changes over the bytes that the bus holds and the registers before the
//! call.

pub mod bus;
pub mod flags;
pub mod instructions;
pub mod registers;

pub use bus::MemoryBus;
pub use flags::StatusRegister;
pub use instructions::InstructionExecution;
pub use registers::Registers;
