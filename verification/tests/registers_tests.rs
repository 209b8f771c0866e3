use gb_core::registers::{Registers, FLAG_CARRY, FLAG_HALF_CARRY, FLAG_NEGATIVE, FLAG_ZERO};

fn boot_checked(r: &Registers) {
    assert_eq!(r.a, 0x01);
    assert_eq!(r.f, 0xB0);
    assert_eq!(r.b, 0x00);
    assert_eq!(r.c, 0x13);
    assert_eq!(r.d, 0x00);
    assert_eq!(r.e, 0xD8);
    assert_eq!(r.h, 0x01);
    assert_eq!(r.l, 0x4D);
    assert_eq!(r.sp, 0xFFFE);
    assert_eq!(r.pc, 0x0100);
}

#[test]
fn boot_values_after_construction() {
    let r = Registers::new();
    boot_checked(&r);
}

#[test]
fn reset_restores_boot_values() {
    let mut r = Registers::new();
    r.a = 0x55;
    r.f = 0x10;
    r.sp = 0x1234;
    r.pc = 0x4321;
    r.reset();
    boot_checked(&r);
}

#[test]
fn pair_round_trips() {
    let mut r = Registers::new();
    for &v in &[0x0000u16, 0x0001, 0x1234, 0xABCD, 0xFF00, 0x00FF, 0xFFFF] {
        r.set_bc(v);
        assert_eq!(r.get_bc(), v);
        r.set_de(v);
        assert_eq!(r.get_de(), v);
        r.set_hl(v);
        assert_eq!(r.get_hl(), v);
        r.set_af(v);
        assert_eq!(r.get_af(), v);
    }
}

#[test]
fn pairs_are_big_endian() {
    let mut r = Registers::new();
    r.set_bc(0x1234);
    assert_eq!(r.b, 0x12);
    assert_eq!(r.c, 0x34);
    r.b = 0xAB;
    r.c = 0xCD;
    assert_eq!(r.get_bc(), 0xABCD);
}

#[test]
fn flag_writes_keep_low_nibble_zero() {
    let mut r = Registers::new();
    r.f = 0x00;
    for mask in 0u16..=255 {
        let m = mask as u8;
        r.set_flag(m);
        assert_eq!(r.f & 0x0F, 0);
        r.clear_flag(m);
        assert_eq!(r.f & 0x0F, 0);
        r.set_flags(m, true);
        assert_eq!(r.f & 0x0F, 0);
        r.set_flags(m, false);
        assert_eq!(r.f & 0x0F, 0);
    }
}

#[test]
fn set_and_clear_flags() {
    let mut r = Registers::new();
    r.f = 0;
    r.set_flag(FLAG_ZERO);
    assert!(r.is_flag_set(FLAG_ZERO));
    assert!(!r.is_flag_set(FLAG_CARRY));
    r.set_flags(FLAG_CARRY | FLAG_HALF_CARRY, true);
    assert!(r.is_flag_set(FLAG_CARRY));
    assert!(r.is_flag_set(FLAG_HALF_CARRY));
    assert!(r.get_flags(FLAG_CARRY));
    r.clear_flag(FLAG_ZERO);
    assert!(!r.is_flag_set(FLAG_ZERO));
    r.set_flags(FLAG_NEGATIVE, false);
    assert!(!r.is_flag_set(FLAG_NEGATIVE));
}

#[test]
fn hl_post_increment_and_decrement() {
    let mut r = Registers::new();
    r.set_hl(0xFFFF);
    let old = r.increment_hl();
    assert_eq!(old, 0xFFFF);
    assert_eq!(r.get_hl(), 0x0000);
    let old = r.decrement_hl();
    assert_eq!(old, 0x0000);
    assert_eq!(r.get_hl(), 0xFFFF);
}
