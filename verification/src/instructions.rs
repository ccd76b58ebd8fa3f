//! The instruction set, and the add-with-carry instruction in each of its
//! addressing modes.

use crate::bus::MemoryBus;
use crate::flags::{StatusRegister, NEGATIVE_SIGN_U8};
use crate::registers::Registers;
use vstd::prelude::*;

verus! {

/// Whether `byte` is negative when read as a two's-complement number.
pub open spec fn is_negative(byte: u8) -> bool {
    byte >= 0x80
}

/// `byte` read as a two's-complement number, from -128 to 127.
pub open spec fn signed(byte: u8) -> int {
    if is_negative(byte) {
        byte - 0x100
    } else {
        byte as int
    }
}

/// What the carry flag adds to a sum: 1 if it is set, else 0.
pub open spec fn carry_in(flags: StatusRegister) -> int {
    if flags.contains(StatusRegister::carry()) {
        1
    } else {
        0
    }
}

/// The sum that add-with-carry forms before it is cut down to a byte: the
/// accumulator, the operand and the carry.
pub open spec fn adc_sum(registers: Registers, value: u8) -> int {
    registers.a + value + carry_in(registers.flags)
}

/// The register file after add-with-carry of `value`.
///
/// The accumulator takes the sum modulo 256. CARRY is set if the sum does not
/// fit in a byte. OVERFLOW is set if accumulator and operand have the same
/// sign and the result has the other. NEGATIVE is set if the result is
/// negative as a signed byte, ZERO if it is 0. Each of these four is cleared
/// where it is not set; the other flags and registers stay as they are. The
/// addition is binary whether or not the decimal flag is set.
pub open spec fn adc(registers: Registers, value: u8) -> Registers {
    let sum = adc_sum(registers, value);
    let result = (sum % 0x100) as u8;
    let overflow = is_negative(registers.a) == is_negative(value) && is_negative(result)
        != is_negative(registers.a);
    Registers {
        a: result,
        flags: registers.flags.after_set(StatusRegister::carry(), sum > 0xff).after_set(
            StatusRegister::overflow(),
            overflow,
        ).after_set(StatusRegister::negative(), is_negative(result)).after_set(
            StatusRegister::zero(),
            result == 0,
        ),
        ..registers
    }
}

/// What add-with-carry leaves in each register and flag.
///
/// The accumulator holds the sum modulo 256, and X, Y and the program counter
/// are as before. CARRY says that the sum is over 255, ZERO that the
/// accumulator is 0, NEGATIVE that it is 128 or more. OVERFLOW says that the
/// sum of accumulator and operand as signed bytes, with the carry, is not a
/// signed byte. The interrupt, decimal and break bits are as before.
pub proof fn lemma_adc_registers(registers: Registers, value: u8)
    ensures
        ({
            let after = adc(registers, value);
            let signed_sum = signed(registers.a) + signed(value) + carry_in(registers.flags);
            &&& after.a == adc_sum(registers, value) % 0x100
            &&& after.x == registers.x
            &&& after.y == registers.y
            &&& after.pc == registers.pc
            &&& after.flags.contains(StatusRegister::carry()) <==> adc_sum(registers, value) > 0xff
            &&& after.flags.contains(StatusRegister::zero()) <==> after.a == 0
            &&& after.flags.contains(StatusRegister::negative()) <==> after.a >= 0x80
            &&& after.flags.contains(StatusRegister::overflow()) <==> !(-128 <= signed_sum <= 127)
            &&& after.flags.contains(StatusRegister::interrupt()) == registers.flags.contains(
                StatusRegister::interrupt(),
            )
            &&& after.flags.contains(StatusRegister::decimal()) == registers.flags.contains(
                StatusRegister::decimal(),
            )
            &&& after.flags.bits & StatusRegister::b_flag().bits == registers.flags.bits
                & StatusRegister::b_flag().bits
        }),
{
    let sum = adc_sum(registers, value);
    let result = (sum % 0x100) as u8;
    let c = sum > 0xff;
    let v = is_negative(registers.a) == is_negative(value) && is_negative(result) != is_negative(
        registers.a,
    );
    let n = is_negative(result);
    let z = result == 0;
    let carry_set = registers.flags.after_set(StatusRegister::carry(), c);
    let overflow_set = carry_set.after_set(StatusRegister::overflow(), v);
    let negative_set = overflow_set.after_set(StatusRegister::negative(), n);
    let b0 = registers.flags.bits;
    let b1 = carry_set.bits;
    let b2 = overflow_set.bits;
    let b3 = negative_set.bits;
    let b4 = adc(registers, value).flags.bits;
    assert({
        &&& (b4 & 0x01 == 0x01) == c
        &&& (b4 & 0x40 == 0x40) == v
        &&& (b4 & 0x80 == 0x80) == n
        &&& (b4 & 0x02 == 0x02) == z
        &&& (b4 & 0x04 == 0x04) == (b0 & 0x04 == 0x04)
        &&& (b4 & 0x08 == 0x08) == (b0 & 0x08 == 0x08)
        &&& b4 & 0x30 == b0 & 0x30
    }) by (bit_vector)
        requires
            b1 == if c { b0 | 0x01 } else { b0 & !0x01u8 },
            b2 == if v { b1 | 0x40 } else { b1 & !0x40u8 },
            b3 == if n { b2 | 0x80 } else { b2 & !0x80u8 },
            b4 == if z { b3 | 0x02 } else { b3 & !0x02u8 },
    ;
}

/// Adding 0 to an accumulator of 0 with the carry clear leaves 0 there: ZERO
/// is set, CARRY, OVERFLOW and NEGATIVE are clear, and adding 0 once more
/// changes nothing.
pub proof fn lemma_adc_zero_to_zero(registers: Registers)
    requires
        registers.a == 0,
        !registers.flags.contains(StatusRegister::carry()),
    ensures
        adc(registers, 0).a == 0,
        adc(registers, 0).flags.contains(StatusRegister::zero()),
        !adc(registers, 0).flags.contains(StatusRegister::carry()),
        !adc(registers, 0).flags.contains(StatusRegister::overflow()),
        !adc(registers, 0).flags.contains(StatusRegister::negative()),
        adc(adc(registers, 0), 0) == adc(registers, 0),
{
    lemma_adc_registers(registers, 0);
    let b0 = registers.flags.bits;
    let b4 = adc(registers, 0).flags.bits;
    let b8 = adc(adc(registers, 0), 0).flags.bits;
    assert(b4 == (((b0 & !0x01u8) & !0x40u8) & !0x80u8) | 0x02);
    assert(b8 == (((b4 & !0x01u8) & !0x40u8) & !0x80u8) | 0x02);
    assert(b8 == b4) by (bit_vector)
        requires
            b4 == (((b0 & !0x01u8) & !0x40u8) & !0x80u8) | 0x02,
            b8 == (((b4 & !0x01u8) & !0x40u8) & !0x80u8) | 0x02,
    ;
}

/// 127 is the largest signed byte: adding 1 to it with the carry clear gives
/// 0x80 and sets OVERFLOW and NEGATIVE, and CARRY stays clear.
pub proof fn lemma_adc_past_largest_signed(registers: Registers)
    requires
        registers.a == 0x7f,
        !registers.flags.contains(StatusRegister::carry()),
    ensures
        adc(registers, 1).a == 0x80,
        adc(registers, 1).flags.contains(StatusRegister::overflow()),
        adc(registers, 1).flags.contains(StatusRegister::negative()),
        !adc(registers, 1).flags.contains(StatusRegister::carry()),
{
    lemma_adc_registers(registers, 1);
}

/// Two negative bytes whose sum is not one: 0x81 plus 0x80 with the carry
/// clear gives 0x01 and sets both CARRY and OVERFLOW.
pub proof fn lemma_adc_carry_with_overflow(registers: Registers)
    requires
        registers.a == 0x81,
        !registers.flags.contains(StatusRegister::carry()),
    ensures
        adc(registers, 0x80).a == 0x01,
        adc(registers, 0x80).flags.contains(StatusRegister::carry()),
        adc(registers, 0x80).flags.contains(StatusRegister::overflow()),
{
    lemma_adc_registers(registers, 0x80);
}

/// The tests on single bits that the instruction makes, as comparisons: the
/// carry bit of `flags` is its value as a number, the sign bits of `a` and
/// `b` differ exactly if bit 7 of `a ^ b` is set, and bit 7 of `b` is its
/// sign.
proof fn lemma_bit_tests(flags: u8, a: u8, b: u8)
    by (bit_vector)
    ensures
        flags & 0x01 == if flags & 0x01 == 0x01 { 1u8 } else { 0u8 },
        ((a ^ b) & 0x80 == 0) == ((a >= 0x80) == (b >= 0x80)),
        ((a ^ b) & 0x80 == 0x80) == ((a >= 0x80) != (b >= 0x80)),
        (b & 0x80 == 0x80) == (b >= 0x80),
{
}

/// The low eight bits of a number are its remainder modulo 256.
proof fn lemma_low_byte(sum: u32)
    by (bit_vector)
    ensures
        sum & 0xff == sum % 0x100,
{
}

/// This trait defines the default 6502 instruction set.
///
/// An execution engine owns one memory bus and one register file. A model of
/// the processor says which: `bus` and `registers` give access to them, and
/// `spec_bus` and `spec_registers` are the same two as contracts see them.
/// The instructions are built on those and are the same for every model. No
/// model is verified here: what is proved of the instructions holds on every
/// engine whose `bus` and `registers` keep to the contracts below.
///
/// # Instruction Modes
///
/// Each function is named by the instruction and the addressing mode, as in
/// these of the ADC instruction:
///
/// * `adc_imm` - ADC immediate
/// * `adc_zero` - ADC zero page
/// * `adc_zero_x` - ADC zero page,X
/// * `adc_abs` - ADC absolute
/// * `adc_abs_x` - ADC absolute,X
/// * `adc_abs_y` - ADC absolute,Y
/// * `adc_ind_x` - ADC indirect,X
/// * `adc_ind_y` - ADC indirect,Y
///
/// A function that ends in common (`adc_common`) uses no addressing mode: it
/// takes the operand itself, and the others find the operand and hand it on.
/// An instruction of this family changes the registers and leaves the bus
/// as it is.
pub trait InstructionExecution {
    /// The memory bus of this model.
    type Bus: MemoryBus;

    /// The memory bus connected to this execution engine, as it stands.
    spec fn spec_bus(&self) -> &Self::Bus;

    /// The registers connected to this execution engine, as they stand.
    spec fn spec_registers(&self) -> &Registers;

    /// Returns the memory bus connected to this execution engine. What is
    /// done through the reference is done to that bus, and the registers stay
    /// as they are.
    fn bus(&mut self) -> (bus: &mut Self::Bus)
        ensures
            *bus == *old(self).spec_bus(),
            *final(self).spec_bus() == *final(bus),
            *final(self).spec_registers() == *old(self).spec_registers(),
    ;

    /// Returns the registers connected to this execution engine. What is
    /// done through the reference is done to those registers, and the bus
    /// stays as it is.
    fn registers(&mut self) -> (registers: &mut Registers)
        ensures
            *registers == *old(self).spec_registers(),
            *final(self).spec_registers() == *final(registers),
            *final(self).spec_bus() == *old(self).spec_bus(),
    ;

    /// Common implementation for the ADC instruction.
    fn adc_common(&mut self, value: u8)
        ensures
            *final(self).spec_registers() == adc(*old(self).spec_registers(), value),
            *final(self).spec_bus() == *old(self).spec_bus(),
    {
        let registers = self.registers();

        // Perform addition as unsigned 32-bit integers
        let carry = registers.flags.bits() & StatusRegister::carry().bits();
        proof {
            lemma_bit_tests(registers.flags.bits, registers.a, value);
        }
        let sum = registers.a as u32 + value as u32 + carry as u32;

        // Carry flag if the sum does not fit in an unsigned 8-bit integer
        registers.flags.set(StatusRegister::carry(), sum > u8::MAX as u32);

        // Truncate the sum to an unsigned 8-bit integer
        let result = (sum & u8::MAX as u32) as u8;
        proof {
            lemma_low_byte(sum);
            lemma_bit_tests(registers.flags.bits, registers.a, result);
        }

        // Overflow flag if both operands have the same sign, but the result has the other:
        // (positive + positive = negative) or (negative + negative = positive).
        let overflow = ((registers.a ^ value) & NEGATIVE_SIGN_U8 == 0) && ((registers.a ^ result)
            & NEGATIVE_SIGN_U8 == NEGATIVE_SIGN_U8);
        registers.flags.set(StatusRegister::overflow(), overflow);

        // Negative flag if the result is negative (interpreted as 2's complement)
        registers.flags.set(
            StatusRegister::negative(),
            result & NEGATIVE_SIGN_U8 == NEGATIVE_SIGN_U8,
        );

        // Zero flag if the result is 0
        registers.flags.set(StatusRegister::zero(), result == 0);

        // Set accumulator to result
        registers.a = result;
    }

    /// ADC immediate: the operand is `value`.
    fn adc_imm(&mut self, value: u8)
        ensures
            *final(self).spec_registers() == adc(*old(self).spec_registers(), value),
            *final(self).spec_bus() == *old(self).spec_bus(),
    {
        self.adc_common(value);
    }

    /// ADC zero page: the operand is the byte at `address` in the zero page.
    fn adc_zero(&mut self, address: u8)
        ensures
            *final(self).spec_registers() == adc(
                *old(self).spec_registers(),
                old(self).spec_bus().byte_at(address as u16),
            ),
            *final(self).spec_bus() == *old(self).spec_bus(),
    {
        let value = self.bus().read(address as u16);
        self.adc_common(value);
    }

    /// ADC zero page,X: the operand is the byte in the zero page at `address`
    /// plus X.
    fn adc_zero_x(&mut self, address: u8)
        ensures
            *final(self).spec_registers() == adc(
                *old(self).spec_registers(),
                old(self).spec_bus().byte_at(
                    crate::bus::zero_idx_address(address, old(self).spec_registers().x),
                ),
            ),
            *final(self).spec_bus() == *old(self).spec_bus(),
    {
        let x = self.registers().x;
        let zero_addr = self.bus().zero_idx(address, x);
        let value = self.bus().read(zero_addr);
        self.adc_common(value);
    }

    /// ADC absolute: the operand is the byte at `address`.
    fn adc_abs(&mut self, address: u16)
        ensures
            *final(self).spec_registers() == adc(
                *old(self).spec_registers(),
                old(self).spec_bus().byte_at(address),
            ),
            *final(self).spec_bus() == *old(self).spec_bus(),
    {
        let value = self.bus().read(address);
        self.adc_common(value);
    }

    /// ADC absolute,X: the operand is the byte at `address` plus X.
    fn adc_abs_x(&mut self, address: u16)
        ensures
            *final(self).spec_registers() == adc(
                *old(self).spec_registers(),
                old(self).spec_bus().byte_at(
                    crate::bus::abs_idx_address(address, old(self).spec_registers().x),
                ),
            ),
            *final(self).spec_bus() == *old(self).spec_bus(),
    {
        let x = self.registers().x;
        let abs_addr = self.bus().abs_idx(address, x);
        let value = self.bus().read(abs_addr);
        self.adc_common(value);
    }

    /// ADC absolute,Y: the operand is the byte at `address` plus Y.
    fn adc_abs_y(&mut self, address: u16)
        ensures
            *final(self).spec_registers() == adc(
                *old(self).spec_registers(),
                old(self).spec_bus().byte_at(
                    crate::bus::abs_idx_address(address, old(self).spec_registers().y),
                ),
            ),
            *final(self).spec_bus() == *old(self).spec_bus(),
    {
        let y = self.registers().y;
        let abs_addr = self.bus().abs_idx(address, y);
        let value = self.bus().read(abs_addr);
        self.adc_common(value);
    }

    /// ADC indirect,X: the operand is the byte at the address stored in the
    /// zero page at `address` plus X.
    fn adc_ind_x(&mut self, address: u8)
        ensures
            *final(self).spec_registers() == adc(
                *old(self).spec_registers(),
                old(self).spec_bus().byte_at(
                    crate::bus::indirect_x_target(
                        |at: u16| old(self).spec_bus().byte_at(at),
                        address,
                        old(self).spec_registers().x,
                    ),
                ),
            ),
            *final(self).spec_bus() == *old(self).spec_bus(),
    {
        let x = self.registers().x;
        let indirect_addr = self.bus().indirect_x(address, x);
        let value = self.bus().read(indirect_addr);
        self.adc_common(value);
    }

    /// ADC indirect,Y: the operand is the byte at the address stored in the
    /// zero page at `address`, plus Y.
    fn adc_ind_y(&mut self, address: u8)
        ensures
            *final(self).spec_registers() == adc(
                *old(self).spec_registers(),
                old(self).spec_bus().byte_at(
                    crate::bus::indirect_y_target(
                        |at: u16| old(self).spec_bus().byte_at(at),
                        address,
                        old(self).spec_registers().y,
                    ),
                ),
            ),
            *final(self).spec_bus() == *old(self).spec_bus(),
    {
        let y = self.registers().y;
        let indirect_addr = self.bus().indirect_y(address, y);
        let value = self.bus().read(indirect_addr);
        self.adc_common(value);
    }
}

} // verus!
