use dmg_core::{Flag, FlagsRegister, Pair, Reg, Registers};

#[test]
fn pairs_round_trip() {
    let mut r = Registers::new();
    for v in [0x0000u16, 0x0001, 0x00FF, 0x0100, 0x1234, 0xABCD, 0xFF00, 0xFFFF] {
        r.set_bc(v);
        assert_eq!(r.bc(), v);
        r.set_de(v);
        assert_eq!(r.de(), v);
        r.set_hl(v);
        assert_eq!(r.hl(), v);
    }
}

#[test]
fn pair_halves_are_big_endian() {
    let mut r = Registers::new();
    r.set_bc(0x1234);
    assert_eq!(r.b, 0x12);
    assert_eq!(r.c, 0x34);
    r.d = 0xAB;
    r.e = 0xCD;
    assert_eq!(r.de(), 0xABCD);
    r.set_hl(0xBEEF);
    assert_eq!((r.h, r.l), (0xBE, 0xEF));
    assert_eq!(r.bc(), 0x1234);
}

#[test]
fn new_registers_are_zero() {
    let r = Registers::new();
    assert_eq!((r.a, r.b, r.c, r.d, r.e, r.h, r.l), (0, 0, 0, 0, 0, 0, 0));
    assert_eq!((r.pc, r.sp), (0, 0));
    assert_eq!(r.f.to_byte(), 0);
}

#[test]
fn register_accessors_by_name() {
    let mut r = Registers::new();
    r.set_reg(Reg::H, 0x42);
    assert_eq!(r.get_reg(Reg::H), 0x42);
    assert_eq!(r.h, 0x42);
    r.set_pair(Pair::SP, 0xFFFE);
    assert_eq!(r.get_pair(Pair::SP), 0xFFFE);
    r.set_pair(Pair::DE, 0x0102);
    assert_eq!(r.get_pair(Pair::DE), 0x0102);
    assert_eq!(r.get_pair(Pair::HL), 0x4200);
}

#[test]
fn flag_bits_are_fixed() {
    let mut f = FlagsRegister::new();
    f.set_flag(Flag::Zero, true);
    assert_eq!(f.to_byte(), 0x80);
    let mut f = FlagsRegister::new();
    f.set_flag(Flag::Subtract, true);
    assert_eq!(f.to_byte(), 0x40);
    let mut f = FlagsRegister::new();
    f.set_flag(Flag::HalfCarry, true);
    assert_eq!(f.to_byte(), 0x20);
    let mut f = FlagsRegister::new();
    f.set_flag(Flag::Carry, true);
    assert_eq!(f.to_byte(), 0x10);
}

#[test]
fn setting_one_flag_leaves_the_others() {
    let all = [Flag::Zero, Flag::Subtract, Flag::HalfCarry, Flag::Carry];
    for start in [0x00u8, 0xF0, 0xA0, 0x50] {
        for kind in all {
            for value in [false, true] {
                let mut f = FlagsRegister::from_byte(start);
                f.set_flag(kind, value);
                assert_eq!(f.get_flag(kind), value);
                for other in all {
                    if other != kind {
                        assert_eq!(f.get_flag(other), FlagsRegister::from_byte(start).get_flag(other));
                    }
                }
                assert_eq!(f.to_byte() & 0x0F, 0);
            }
        }
    }
}

#[test]
fn flags_byte_drops_reserved_nibble() {
    let f = FlagsRegister::from_byte(0xFF);
    assert_eq!(f.to_byte(), 0xF0);
    assert!(f.zero() && f.subtract() && f.half_carry() && f.carry());
    let f = FlagsRegister::from_flags(true, false, true, false);
    assert_eq!(f.to_byte(), 0xA0);
    assert!(f.zero() && !f.subtract() && f.half_carry() && !f.carry());
}

#[test]
fn flags_survive_a_byte_round_trip() {
    for b in 0u8..=0xFF {
        let f = FlagsRegister::from_byte(b);
        let again = FlagsRegister::from_byte(f.to_byte());
        assert_eq!(again.to_byte(), f.to_byte());
        assert_eq!(f.to_byte(), b & 0xF0);
    }
}
