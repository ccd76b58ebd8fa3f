//! The memory bus and the arithmetic of the addressing modes.

use vstd::prelude::*;

verus! {

/// The 16-bit word with low byte `lo` and high byte `hi`.
pub open spec fn word(lo: u8, hi: u8) -> u16 {
    (lo + 0x100 * hi) as u16
}

/// Absolute indexed: `address` plus `idx`, past `0xffff` back to `0x0000`.
pub open spec fn abs_idx_address(address: u16, idx: u8) -> u16 {
    ((address + idx) % 0x1_0000) as u16
}

/// Zero-page indexed: `address` plus `idx` within the zero page. The sum
/// never carries into the high byte.
pub open spec fn zero_idx_address(address: u8, idx: u8) -> u16 {
    ((address + idx) % 0x100) as u16
}

/// Where an indirect jump through `address` finds the high byte of its
/// target: one past `address`, but the start of the same page if `address` is
/// the last byte of its page. The processor cannot carry into the high byte
/// of the address while it fetches the target.
pub open spec fn abs_indirect_high(address: u16) -> u16 {
    if address & 0xff == 0xff {
        address & 0xff00
    } else {
        (address + 1) as u16
    }
}

/// Absolute indirect: the word stored at `address`, its high byte found at
/// `abs_indirect_high(address)`.
pub open spec fn abs_indirect_target(memory: spec_fn(u16) -> u8, address: u16) -> u16 {
    word(memory(address), memory(abs_indirect_high(address)))
}

/// X-indexed, zero-page indirect: the word stored in the zero page at
/// `address` plus `x`. The second byte of the word is taken from `0x00` when
/// the first lies at `0xff`.
pub open spec fn indirect_x_target(memory: spec_fn(u16) -> u8, address: u8, x: u8) -> u16 {
    let pointer = zero_idx_address(address, x);
    word(memory(pointer), memory(zero_idx_address(pointer as u8, 1)))
}

/// Zero-page indirect, Y-indexed: the word stored in the zero page at
/// `address`, plus `y`, past `0xffff` back to `0x0000`. The index is added to
/// the word that was read, not to the place it was read from.
pub open spec fn indirect_y_target(memory: spec_fn(u16) -> u8, address: u8, y: u8) -> u16 {
    let pointer = word(memory(address as u16), memory(zero_idx_address(address, 1)));
    abs_idx_address(pointer, y)
}

/// The bytes of `word(lo, hi)` are `lo` and `hi`.
pub proof fn lemma_word_bytes(lo: u8, hi: u8)
    ensures
        word(lo, hi) % 0x100 == lo,
        word(lo, hi) / 0x100 == hi,
{
}

/// The high byte of an indirect jump's target is read from the page of the
/// low byte, at the offset that follows, where the one after `0xff` is `0x00`.
pub proof fn lemma_abs_indirect_high_stays_in_page(address: u16)
    ensures
        abs_indirect_high(address) / 0x100 == address / 0x100,
        abs_indirect_high(address) % 0x100 == (address % 0x100 + 1) % 0x100,
{
    assert(address & 0xff == address % 0x100) by (bit_vector);
    assert(address & 0xff00 == address - address % 0x100) by (bit_vector);
}

/// The Y-indexed target, byte by byte: Y is added to the low byte of the
/// pointer, and a carry out of that sum adds 1 to the high byte, which wraps
/// from `0xff` to `0x00`.
pub proof fn lemma_indirect_y_by_bytes(lo: u8, hi: u8, y: u8)
    ensures
        abs_idx_address(word(lo, hi), y) == word(
            ((lo + y) % 0x100) as u8,
            if lo + y > 0xff {
                ((hi + 1) % 0x100) as u8
            } else {
                hi
            },
        ),
{
}

/// Joins two bytes into a word, low byte first.
fn word_of(lo: u8, hi: u8) -> (joined: u16)
    ensures
        joined == word(lo, hi),
{
    hi as u16 * 0x100 + lo as u16
}

/// The 16-bit memory bus used by the 6502 instruction set.
///
/// Each model of the processor has its own memory map, so the bus is a trait.
/// A model supplies `read` and `write` over the whole address space, and says
/// with `byte_at` which byte it holds at each address. No model is verified
/// here: what is proved of the addressing modes holds on every bus whose
/// `read` and `write` keep to the contracts below.
///
/// The addressing modes are computed from `read` alone and change nothing. A
/// model that replaces one of them owes the contract that stands here.
pub trait MemoryBus {
    /// The byte that the bus holds at `address`. Every address holds one.
    spec fn byte_at(&self, address: u16) -> u8;

    /// Absolute indexed mode.
    ///
    /// Either register X or Y can be used for `idx`.
    fn abs_idx(&self, address: u16, idx: u8) -> (effective: u16)
        ensures
            effective == abs_idx_address(address, idx),
    {
        address.wrapping_add(idx as u16)
    }

    /// Absolute indirect mode.
    ///
    /// Only used for the JMP instruction.
    fn abs_indirect(&self, address: u16) -> (target: u16)
        ensures
            target == abs_indirect_target(|at: u16| self.byte_at(at), address),
    {
        let hi_addr = if address & 0xff == 0xff {
            address & 0xff00
        } else {
            assert(address & 0xff != 0xff ==> address < 0xffff) by (bit_vector);
            address + 1
        };

        let lo = self.read(address);
        let hi = self.read(hi_addr);

        word_of(lo, hi)
    }

    /// X-Indexed, Zero-Page Indirect mode.
    fn indirect_x(&self, address: u8, x: u8) -> (target: u16)
        ensures
            target == indirect_x_target(|at: u16| self.byte_at(at), address, x),
    {
        let address = address.wrapping_add(x);
        let lo = self.read(address as u16);
        let hi = self.read(address.wrapping_add(1) as u16);
        word_of(lo, hi)
    }

    /// Zero-Page Indirect, Y-Indexed mode.
    fn indirect_y(&self, address: u8, y: u8) -> (target: u16)
        ensures
            target == indirect_y_target(|at: u16| self.byte_at(at), address, y),
    {
        let low = self.read(address as u16);
        let lo = low.wrapping_add(y);
        let carry = low > u8::MAX - y;
        let hi = {
            let value = self.read(address.wrapping_add(1) as u16);
            if carry {
                value.wrapping_add(1)
            } else {
                value
            }
        };

        word_of(lo, hi)
    }

    /// Read a byte from the 16-bit address bus: the byte that it holds at
    /// `address`. Every address can be read.
    fn read(&self, address: u16) -> (value: u8)
        ensures
            value == self.byte_at(address),
    ;

    /// Write a byte to the 16-bit address bus: afterwards it holds `value`
    /// at `address`. Every address can be written.
    fn write(&mut self, address: u16, value: u8)
        ensures
            final(self).byte_at(address) == value,
    ;

    /// Zero Page mode.
    fn zero_idx(&self, address: u8, idx: u8) -> (effective: u16)
        ensures
            effective == zero_idx_address(address, idx),
            effective <= 0xff,
    {
        address.wrapping_add(idx) as u16
    }
}

} // verus!
