use some6502::{Registers, StatusRegister};

fn named_flags() -> [StatusRegister; 7] {
    [
        StatusRegister::carry(),
        StatusRegister::zero(),
        StatusRegister::interrupt(),
        StatusRegister::decimal(),
        StatusRegister::b_flag(),
        StatusRegister::overflow(),
        StatusRegister::negative(),
    ]
}

#[test]
fn flags_have_their_bits() {
    assert_eq!(StatusRegister::carry().bits(), 0b0000_0001);
    assert_eq!(StatusRegister::zero().bits(), 0b0000_0010);
    assert_eq!(StatusRegister::interrupt().bits(), 0b0000_0100);
    assert_eq!(StatusRegister::decimal().bits(), 0b0000_1000);
    assert_eq!(StatusRegister::b_flag().bits(), 0b0011_0000);
    assert_eq!(StatusRegister::overflow().bits(), 0b0100_0000);
    assert_eq!(StatusRegister::negative().bits(), 0b1000_0000);
}

#[test]
fn empty_and_all() {
    assert_eq!(StatusRegister::empty().bits(), 0);
    assert_eq!(StatusRegister::all().bits(), 0xff);
    assert_eq!(StatusRegister::empty(), StatusRegister { bits: 0 });
    assert_ne!(StatusRegister::empty(), StatusRegister::all());
}

#[test]
fn flags_do_not_overlap_and_cover_the_byte() {
    let flags = named_flags();
    let mut union = StatusRegister::empty();
    for (i, flag) in flags.iter().enumerate() {
        for other in flags.iter().skip(i + 1) {
            assert_eq!(*flag & *other, StatusRegister::empty());
        }
        union = union | *flag;
    }
    assert_eq!(union, StatusRegister::all());
    for bits in 0..=0xffu8 {
        assert!(StatusRegister::all().contains(StatusRegister { bits }));
    }
}

#[test]
fn contains_asks_for_every_bit() {
    let flags = StatusRegister::carry() | StatusRegister::negative();
    assert!(flags.contains(StatusRegister::carry()));
    assert!(flags.contains(StatusRegister::negative()));
    assert!(flags.contains(StatusRegister::carry() | StatusRegister::negative()));
    assert!(!flags.contains(StatusRegister::zero()));
    assert!(!flags.contains(StatusRegister::carry() | StatusRegister::zero()));
    assert!(flags.contains(StatusRegister::empty()));
    assert!(StatusRegister::empty().contains(StatusRegister::empty()));

    let half_break = StatusRegister { bits: 0b0001_0000 };
    assert!(!half_break.contains(StatusRegister::b_flag()));
    assert!(StatusRegister::b_flag().contains(half_break));
}

#[test]
fn insert_and_remove() {
    let mut flags = StatusRegister::empty();
    flags.insert(StatusRegister::zero());
    assert_eq!(flags.bits(), 0b0000_0010);
    flags.insert(StatusRegister::b_flag());
    assert_eq!(flags.bits(), 0b0011_0010);
    flags.insert(StatusRegister::zero());
    assert_eq!(flags.bits(), 0b0011_0010);
    flags.remove(StatusRegister::zero());
    assert_eq!(flags.bits(), 0b0011_0000);
    flags.remove(StatusRegister::carry());
    assert_eq!(flags.bits(), 0b0011_0000);
    flags.remove(StatusRegister::all());
    assert_eq!(flags, StatusRegister::empty());
}

#[test]
fn set_follows_the_condition() {
    for bits in 0..=0xffu8 {
        for flag in named_flags() {
            for value in [true, false] {
                let before = StatusRegister { bits };
                let mut flags = before;
                flags.set(flag, value);
                assert_eq!(flags.contains(flag), value);
                assert_eq!(flags.bits() & !flag.bits(), bits & !flag.bits());
                for other in named_flags() {
                    if other != flag {
                        assert_eq!(flags.contains(other), before.contains(other));
                    }
                }
            }
        }
    }
}

#[test]
fn set_is_insert_or_remove() {
    let mut by_set = StatusRegister { bits: 0b1010_0101 };
    let mut by_hand = by_set;
    by_set.set(StatusRegister::overflow(), true);
    by_hand.insert(StatusRegister::overflow());
    assert_eq!(by_set, by_hand);
    assert_eq!(by_set.bits(), 0b1110_0101);
    by_set.set(StatusRegister::negative(), false);
    by_hand.remove(StatusRegister::negative());
    assert_eq!(by_set, by_hand);
    assert_eq!(by_set.bits(), 0b0110_0101);
}

#[test]
fn break_field_is_kept_as_set() {
    let mut flags = StatusRegister::empty();
    flags.set(StatusRegister::b_flag(), true);
    assert!(flags.contains(StatusRegister::b_flag()));
    assert_eq!(flags.bits(), 0b0011_0000);
    flags.set(StatusRegister::carry(), true);
    flags.set(StatusRegister::negative(), false);
    assert!(flags.contains(StatusRegister::b_flag()));
    flags.set(StatusRegister::b_flag(), false);
    assert!(!flags.contains(StatusRegister::b_flag()));
    assert_eq!(flags, StatusRegister::carry());
}

#[test]
fn operators_work_bit_by_bit() {
    let left = StatusRegister { bits: 0b1100_1010 };
    let right = StatusRegister { bits: 0b1010_0110 };
    assert_eq!((left & right).bits(), 0b1000_0010);
    assert_eq!((left | right).bits(), 0b1110_1110);
    assert_eq!((left ^ right).bits(), 0b0110_1100);
    assert_eq!((!left).bits(), 0b0011_0101);
    assert_eq!(!StatusRegister::empty(), StatusRegister::all());
    assert_eq!(!StatusRegister::all(), StatusRegister::empty());
    for bits in 0..=0xffu8 {
        let flags = StatusRegister { bits };
        assert_eq!(!!flags, flags);
        assert_eq!(flags & !flags, StatusRegister::empty());
        assert_eq!(flags | !flags, StatusRegister::all());
        assert_eq!(flags ^ flags, StatusRegister::empty());
    }
}

#[test]
fn new_registers_are_zero() {
    let registers = Registers::new();
    assert_eq!(registers.a, 0);
    assert_eq!(registers.x, 0);
    assert_eq!(registers.y, 0);
    assert_eq!(registers.flags, StatusRegister::empty());
    assert_eq!(registers.pc, 0);
}

#[test]
fn reset_zeroes_every_register() {
    let mut registers = Registers {
        a: 0x12,
        x: 0x34,
        y: 0x56,
        flags: StatusRegister::all(),
        pc: 0xfffc,
    };
    registers.reset();
    assert_eq!(registers.a, 0);
    assert_eq!(registers.x, 0);
    assert_eq!(registers.y, 0);
    assert_eq!(registers.flags, StatusRegister::empty());
    assert_eq!(registers.pc, 0);

    registers.reset();
    assert_eq!(registers.a, 0);
    assert_eq!(registers.flags.bits(), 0);
    assert_eq!(registers.pc, 0);
}
