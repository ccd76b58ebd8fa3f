//! The processor status register: one byte, each bit of it a named flag.

use core::ops::{BitAnd, BitOr, BitXor, Not};
use vstd::prelude::*;
use vstd::std_specs::ops::{BitAndSpecImpl, BitOrSpecImpl, BitXorSpecImpl, NotSpecImpl};

verus! {

/// The sign bit of a byte read as a two's-complement number.
pub const NEGATIVE_SIGN_U8: u8 = 0b1000_0000;

/// The 8-bit register that holds all the 6502 flags.
///
/// The named flags cover the whole byte, so each of the 256 values is a set of
/// flags and the type needs no invariant.
#[derive(Clone, Copy, Debug, PartialEq, Eq, Structural, Hash)]
pub struct StatusRegister {
    /// The raw byte; bit 0 is the carry, bit 7 the sign.
    pub bits: u8,
}

impl StatusRegister {
    /// Bit 0: the last operation carried out of bit 7.
    #[verifier::allow_in_spec]
    pub fn carry() -> StatusRegister
        returns
            (StatusRegister { bits: 0b0000_0001 }),
    {
        StatusRegister { bits: 0b0000_0001 }
    }

    /// Bit 1: the last result was zero.
    #[verifier::allow_in_spec]
    pub fn zero() -> StatusRegister
        returns
            (StatusRegister { bits: 0b0000_0010 }),
    {
        StatusRegister { bits: 0b0000_0010 }
    }

    /// Bit 2: interrupt requests are held off.
    #[verifier::allow_in_spec]
    pub fn interrupt() -> StatusRegister
        returns
            (StatusRegister { bits: 0b0000_0100 }),
    {
        StatusRegister { bits: 0b0000_0100 }
    }

    /// Bit 3: decimal mode.
    #[verifier::allow_in_spec]
    pub fn decimal() -> StatusRegister
        returns
            (StatusRegister { bits: 0b0000_1000 }),
    {
        StatusRegister { bits: 0b0000_1000 }
    }

    /// Bits 4 and 5: the break field. No instruction of this crate reads or
    /// writes it; it is kept as it is set.
    #[verifier::allow_in_spec]
    pub fn b_flag() -> StatusRegister
        returns
            (StatusRegister { bits: 0b0011_0000 }),
    {
        StatusRegister { bits: 0b0011_0000 }
    }

    /// Bit 6: the last addition overflowed as a signed operation.
    #[verifier::allow_in_spec]
    pub fn overflow() -> StatusRegister
        returns
            (StatusRegister { bits: 0b0100_0000 }),
    {
        StatusRegister { bits: 0b0100_0000 }
    }

    /// Bit 7: the last result was negative as a two's-complement byte.
    #[verifier::allow_in_spec]
    pub fn negative() -> StatusRegister
        returns
            (StatusRegister { bits: NEGATIVE_SIGN_U8 }),
    {
        StatusRegister { bits: NEGATIVE_SIGN_U8 }
    }

    /// The register with every flag clear.
    #[verifier::allow_in_spec]
    pub fn empty() -> StatusRegister
        returns
            (StatusRegister { bits: 0 }),
    {
        StatusRegister { bits: 0 }
    }

    /// The register with every flag set.
    #[verifier::allow_in_spec]
    pub fn all() -> StatusRegister
        returns
            (StatusRegister { bits: 0xff }),
    {
        StatusRegister { bits: 0xff }
    }

    /// The raw byte.
    #[verifier::allow_in_spec]
    pub fn bits(&self) -> u8
        returns
            self.bits,
    {
        self.bits
    }

    /// Whether every flag of `other` is set in `self`.
    #[verifier::allow_in_spec]
    pub fn contains(&self, other: StatusRegister) -> bool
        returns
            self.bits & other.bits == other.bits,
    {
        (self.bits & other.bits) == other.bits
    }

    /// `self` after the flags of `other` are set, if `value` holds, or
    /// cleared, if it does not.
    pub open spec fn after_set(self, other: StatusRegister, value: bool) -> StatusRegister {
        if value {
            StatusRegister { bits: self.bits | other.bits }
        } else {
            StatusRegister { bits: self.bits & !other.bits }
        }
    }

    /// Sets the flags of `other`.
    pub fn insert(&mut self, other: StatusRegister)
        ensures
            *final(self) == old(self).after_set(other, true),
    {
        self.bits = self.bits | other.bits;
    }

    /// Clears the flags of `other`.
    pub fn remove(&mut self, other: StatusRegister)
        ensures
            *final(self) == old(self).after_set(other, false),
    {
        self.bits = self.bits & !other.bits;
    }

    /// Sets the flags of `other` if `value` holds, and clears them if not.
    pub fn set(&mut self, other: StatusRegister, value: bool)
        ensures
            *final(self) == old(self).after_set(other, value),
    {
        if value {
            self.insert(other);
        } else {
            self.remove(other);
        }
    }

    /// The seven named flags make up the whole byte: no register holds a bit
    /// that is not a flag.
    pub proof fn lemma_flags_cover_the_byte(flags: StatusRegister)
        ensures
            StatusRegister::all().contains(flags),
            StatusRegister::all().bits == (StatusRegister::carry().bits
                | StatusRegister::zero().bits | StatusRegister::interrupt().bits
                | StatusRegister::decimal().bits | StatusRegister::b_flag().bits
                | StatusRegister::overflow().bits | StatusRegister::negative().bits),
    {
        let b = flags.bits;
        assert(0xffu8 & b == b) by (bit_vector);
        assert(0xffu8 == (0b0000_0001u8 | 0b0000_0010u8 | 0b0000_0100u8 | 0b0000_1000u8
            | 0b0011_0000u8 | 0b0100_0000u8 | 0b1000_0000u8)) by (bit_vector);
    }

    /// After `flag` is set or cleared by `value`, it is held exactly if
    /// `value` holds. The empty set is held by every register, so it is left
    /// out.
    pub proof fn lemma_set_decides(flags: StatusRegister, flag: StatusRegister, value: bool)
        requires
            flag.bits != 0,
        ensures
            flags.after_set(flag, value).contains(flag) == value,
    {
        let b = flags.bits;
        let f = flag.bits;
        assert((b | f) & f == f) by (bit_vector);
        assert(f != 0 ==> (b & !f) & f != f) by (bit_vector);
    }

    /// Setting or clearing `flag` leaves every flag that shares no bit with it
    /// as it was.
    pub proof fn lemma_set_keeps_the_rest(
        flags: StatusRegister,
        flag: StatusRegister,
        value: bool,
        other: StatusRegister,
    )
        requires
            flag.bits & other.bits == 0,
        ensures
            flags.after_set(flag, value).contains(other) == flags.contains(other),
            flags.after_set(flag, value).bits & other.bits == flags.bits & other.bits,
    {
        let b = flags.bits;
        let f = flag.bits;
        let o = other.bits;
        assert(f & o == 0 ==> (b | f) & o == b & o) by (bit_vector);
        assert(f & o == 0 ==> (b & !f) & o == b & o) by (bit_vector);
    }
}

impl BitAndSpecImpl for StatusRegister {
    open spec fn obeys_bitand_spec() -> bool {
        true
    }

    open spec fn bitand_req(self, rhs: StatusRegister) -> bool {
        true
    }

    open spec fn bitand_spec(self, rhs: StatusRegister) -> StatusRegister {
        StatusRegister { bits: self.bits & rhs.bits }
    }
}

impl BitAnd for StatusRegister {
    type Output = StatusRegister;

    /// The flags set in both registers.
    fn bitand(self, rhs: StatusRegister) -> (both: StatusRegister)
        ensures
            both.bits == self.bits & rhs.bits,
    {
        StatusRegister { bits: self.bits & rhs.bits }
    }
}

impl BitOrSpecImpl for StatusRegister {
    open spec fn obeys_bitor_spec() -> bool {
        true
    }

    open spec fn bitor_req(self, rhs: StatusRegister) -> bool {
        true
    }

    open spec fn bitor_spec(self, rhs: StatusRegister) -> StatusRegister {
        StatusRegister { bits: self.bits | rhs.bits }
    }
}

impl BitOr for StatusRegister {
    type Output = StatusRegister;

    /// The flags set in either register.
    fn bitor(self, rhs: StatusRegister) -> (either: StatusRegister)
        ensures
            either.bits == self.bits | rhs.bits,
    {
        StatusRegister { bits: self.bits | rhs.bits }
    }
}

impl BitXorSpecImpl for StatusRegister {
    open spec fn obeys_bitxor_spec() -> bool {
        true
    }

    open spec fn bitxor_req(self, rhs: StatusRegister) -> bool {
        true
    }

    open spec fn bitxor_spec(self, rhs: StatusRegister) -> StatusRegister {
        StatusRegister { bits: self.bits ^ rhs.bits }
    }
}

impl BitXor for StatusRegister {
    type Output = StatusRegister;

    /// The flags set in exactly one of the two registers.
    fn bitxor(self, rhs: StatusRegister) -> (one: StatusRegister)
        ensures
            one.bits == self.bits ^ rhs.bits,
    {
        StatusRegister { bits: self.bits ^ rhs.bits }
    }
}

impl NotSpecImpl for StatusRegister {
    open spec fn obeys_not_spec() -> bool {
        true
    }

    open spec fn not_req(self) -> bool {
        true
    }

    open spec fn not_spec(self) -> StatusRegister {
        StatusRegister { bits: !self.bits }
    }
}

impl Not for StatusRegister {
    type Output = StatusRegister;

    /// The flags that are clear in `self`.
    fn not(self) -> (rest: StatusRegister)
        ensures
            rest.bits == !self.bits,
    {
        StatusRegister { bits: !self.bits }
    }
}

} // verus!
