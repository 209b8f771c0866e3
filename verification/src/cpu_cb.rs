//! The CB-prefixed extended opcode table: rotates, shifts, nibble
//! swap, and single-bit test, clear and set, on each 8-bit register
//! and on the byte addressed by HL.

use vstd::prelude::*;
use crate::cpu::{
    flags_byte, spec_flags, spec_carry, spec_rlc8, spec_rrc8, spec_rl8, spec_rr8, spec_sla8,
    spec_sra8, spec_srl8, spec_swap8, with_regs,
};
use crate::emulator::{Emulator, EmulatorV};
use crate::memory::{bus_read, bus_write_ok, det_read};
use crate::registers::{Registers, FLAG_CARRY};

verus! {

/// The flag byte after a rotate or shift: Zero from the result,
/// Subtract and Half-Carry cleared, Carry from the bit shifted out.
pub open spec fn spec_rot_flags(res: u8, carry: bool) -> u8 {
    spec_flags(res == 0, false, false, carry)
}

/// Rotate left, the top bit entering both the carry and bit 0.
pub fn rlc(r: &mut Registers, value: u8) -> (res: u8)
    ensures
        res == spec_rlc8(value),
        *final(r) == (Registers { f: spec_rot_flags(spec_rlc8(value), value & 0x80 != 0), ..*old(r) }),
{
    let res = (value << 1) | (value >> 7);
    r.f = flags_byte(res == 0, false, false, value & 0x80 != 0);
    res
}

/// Rotate right, bit 0 entering both the carry and the top bit.
pub fn rrc(r: &mut Registers, value: u8) -> (res: u8)
    ensures
        res == spec_rrc8(value),
        *final(r) == (Registers { f: spec_rot_flags(spec_rrc8(value), value & 0x01 != 0), ..*old(r) }),
{
    let res = (value >> 1) | (value << 7);
    r.f = flags_byte(res == 0, false, false, value & 0x01 != 0);
    res
}

/// Rotate left through the carry flag.
pub fn rl(r: &mut Registers, value: u8) -> (res: u8)
    ensures
        res == spec_rl8(value, spec_carry(old(r).f)),
        *final(r) == (Registers {
            f: spec_rot_flags(spec_rl8(value, spec_carry(old(r).f)), value & 0x80 != 0),
            ..*old(r)
        }),
{
    let cin = r.is_flag_set(FLAG_CARRY);
    let res = (value << 1) | (if cin {
        1
    } else {
        0
    });
    r.f = flags_byte(res == 0, false, false, value & 0x80 != 0);
    res
}

/// Rotate right through the carry flag.
pub fn rr(r: &mut Registers, value: u8) -> (res: u8)
    ensures
        res == spec_rr8(value, spec_carry(old(r).f)),
        *final(r) == (Registers {
            f: spec_rot_flags(spec_rr8(value, spec_carry(old(r).f)), value & 0x01 != 0),
            ..*old(r)
        }),
{
    let cin = r.is_flag_set(FLAG_CARRY);
    let res = (value >> 1) | (if cin {
        0x80
    } else {
        0
    });
    r.f = flags_byte(res == 0, false, false, value & 0x01 != 0);
    res
}

/// Arithmetic shift left: bit 0 becomes 0.
pub fn sla(r: &mut Registers, value: u8) -> (res: u8)
    ensures
        res == spec_sla8(value),
        *final(r) == (Registers { f: spec_rot_flags(spec_sla8(value), value & 0x80 != 0), ..*old(r) }),
{
    let res = value << 1;
    r.f = flags_byte(res == 0, false, false, value & 0x80 != 0);
    res
}

/// Arithmetic shift right: the top bit is kept.
pub fn sra(r: &mut Registers, value: u8) -> (res: u8)
    ensures
        res == spec_sra8(value),
        *final(r) == (Registers { f: spec_rot_flags(spec_sra8(value), value & 0x01 != 0), ..*old(r) }),
{
    let res = (value >> 1) | (value & 0x80);
    r.f = flags_byte(res == 0, false, false, value & 0x01 != 0);
    res
}

/// Logical shift right: the top bit becomes 0.
pub fn srl(r: &mut Registers, value: u8) -> (res: u8)
    ensures
        res == spec_srl8(value),
        *final(r) == (Registers { f: spec_rot_flags(spec_srl8(value), value & 0x01 != 0), ..*old(r) }),
{
    let res = value >> 1;
    r.f = flags_byte(res == 0, false, false, value & 0x01 != 0);
    res
}

/// Exchanges the two nibbles; all flags but Zero cleared.
pub fn swap(r: &mut Registers, value: u8) -> (res: u8)
    ensures
        res == spec_swap8(value),
        *final(r) == (Registers { f: spec_flags(value == 0, false, false, false), ..*old(r) }),
{
    let res = (value >> 4) | (value << 4);
    r.f = flags_byte(value == 0, false, false, false);
    res
}

/// `RLC B`.
pub fn rlc_b(e: &mut Emulator)
    requires
        old(e).wf(),
    ensures
        final(e).wf(),
        final(e)@ == with_regs(old(e)@, (Registers { b: spec_rlc8(old(e)@.registers.b), f: spec_rot_flags(spec_rlc8(old(e)@.registers.b), old(e)@.registers.b & 0x80 != 0), ..old(e)@.registers })),
{
    let v = e.registers.b;
    let t = rlc(&mut e.registers, v);
    e.registers.b = t;
}

/// `RLC C`.
pub fn rlc_c(e: &mut Emulator)
    requires
        old(e).wf(),
    ensures
        final(e).wf(),
        final(e)@ == with_regs(old(e)@, (Registers { c: spec_rlc8(old(e)@.registers.c), f: spec_rot_flags(spec_rlc8(old(e)@.registers.c), old(e)@.registers.c & 0x80 != 0), ..old(e)@.registers })),
{
    let v = e.registers.c;
    let t = rlc(&mut e.registers, v);
    e.registers.c = t;
}

/// `RLC D`.
pub fn rlc_d(e: &mut Emulator)
    requires
        old(e).wf(),
    ensures
        final(e).wf(),
        final(e)@ == with_regs(old(e)@, (Registers { d: spec_rlc8(old(e)@.registers.d), f: spec_rot_flags(spec_rlc8(old(e)@.registers.d), old(e)@.registers.d & 0x80 != 0), ..old(e)@.registers })),
{
    let v = e.registers.d;
    let t = rlc(&mut e.registers, v);
    e.registers.d = t;
}

/// `RLC E`.
pub fn rlc_e(e: &mut Emulator)
    requires
        old(e).wf(),
    ensures
        final(e).wf(),
        final(e)@ == with_regs(old(e)@, (Registers { e: spec_rlc8(old(e)@.registers.e), f: spec_rot_flags(spec_rlc8(old(e)@.registers.e), old(e)@.registers.e & 0x80 != 0), ..old(e)@.registers })),
{
    let v = e.registers.e;
    let t = rlc(&mut e.registers, v);
    e.registers.e = t;
}

/// `RLC H`.
pub fn rlc_h(e: &mut Emulator)
    requires
        old(e).wf(),
    ensures
        final(e).wf(),
        final(e)@ == with_regs(old(e)@, (Registers { h: spec_rlc8(old(e)@.registers.h), f: spec_rot_flags(spec_rlc8(old(e)@.registers.h), old(e)@.registers.h & 0x80 != 0), ..old(e)@.registers })),
{
    let v = e.registers.h;
    let t = rlc(&mut e.registers, v);
    e.registers.h = t;
}

/// `RLC L`.
pub fn rlc_l(e: &mut Emulator)
    requires
        old(e).wf(),
    ensures
        final(e).wf(),
        final(e)@ == with_regs(old(e)@, (Registers { l: spec_rlc8(old(e)@.registers.l), f: spec_rot_flags(spec_rlc8(old(e)@.registers.l), old(e)@.registers.l & 0x80 != 0), ..old(e)@.registers })),
{
    let v = e.registers.l;
    let t = rlc(&mut e.registers, v);
    e.registers.l = t;
}

/// `RLC (HL)`: rewrites the byte at HL in place.
pub fn rlc_hlp(e: &mut Emulator)
    requires
        old(e).wf(),
    ensures
        final(e).wf(),
        final(e)@.cpu == old(e)@.cpu,
        final(e)@.registers == (Registers { f: final(e)@.registers.f, ..old(e)@.registers }),
        det_read(old(e)@.registers.spec_get_hl()) ==> bus_write_ok(with_regs(old(e)@, (Registers { f: spec_rot_flags(spec_rlc8(bus_read(old(e)@, old(e)@.registers.spec_get_hl())), bus_read(old(e)@, old(e)@.registers.spec_get_hl()) & 0x80 != 0), ..old(e)@.registers })), old(e)@.registers.spec_get_hl(), spec_rlc8(bus_read(old(e)@, old(e)@.registers.spec_get_hl())), final(e)@),
{
    let hl = e.registers.get_hl();
    let v = e.read_byte(hl);
    let t = rlc(&mut e.registers, v);
    e.write_byte(hl, t);
}

/// `RLC A`.
pub fn rlc_a(e: &mut Emulator)
    requires
        old(e).wf(),
    ensures
        final(e).wf(),
        final(e)@ == with_regs(old(e)@, (Registers { a: spec_rlc8(old(e)@.registers.a), f: spec_rot_flags(spec_rlc8(old(e)@.registers.a), old(e)@.registers.a & 0x80 != 0), ..old(e)@.registers })),
{
    let v = e.registers.a;
    let t = rlc(&mut e.registers, v);
    e.registers.a = t;
}

/// `RRC B`.
pub fn rrc_b(e: &mut Emulator)
    requires
        old(e).wf(),
    ensures
        final(e).wf(),
        final(e)@ == with_regs(old(e)@, (Registers { b: spec_rrc8(old(e)@.registers.b), f: spec_rot_flags(spec_rrc8(old(e)@.registers.b), old(e)@.registers.b & 0x01 != 0), ..old(e)@.registers })),
{
    let v = e.registers.b;
    let t = rrc(&mut e.registers, v);
    e.registers.b = t;
}

/// `RRC C`.
pub fn rrc_c(e: &mut Emulator)
    requires
        old(e).wf(),
    ensures
        final(e).wf(),
        final(e)@ == with_regs(old(e)@, (Registers { c: spec_rrc8(old(e)@.registers.c), f: spec_rot_flags(spec_rrc8(old(e)@.registers.c), old(e)@.registers.c & 0x01 != 0), ..old(e)@.registers })),
{
    let v = e.registers.c;
    let t = rrc(&mut e.registers, v);
    e.registers.c = t;
}

/// `RRC D`.
pub fn rrc_d(e: &mut Emulator)
    requires
        old(e).wf(),
    ensures
        final(e).wf(),
        final(e)@ == with_regs(old(e)@, (Registers { d: spec_rrc8(old(e)@.registers.d), f: spec_rot_flags(spec_rrc8(old(e)@.registers.d), old(e)@.registers.d & 0x01 != 0), ..old(e)@.registers })),
{
    let v = e.registers.d;
    let t = rrc(&mut e.registers, v);
    e.registers.d = t;
}

/// `RRC E`.
pub fn rrc_e(e: &mut Emulator)
    requires
        old(e).wf(),
    ensures
        final(e).wf(),
        final(e)@ == with_regs(old(e)@, (Registers { e: spec_rrc8(old(e)@.registers.e), f: spec_rot_flags(spec_rrc8(old(e)@.registers.e), old(e)@.registers.e & 0x01 != 0), ..old(e)@.registers })),
{
    let v = e.registers.e;
    let t = rrc(&mut e.registers, v);
    e.registers.e = t;
}

/// `RRC H`.
pub fn rrc_h(e: &mut Emulator)
    requires
        old(e).wf(),
    ensures
        final(e).wf(),
        final(e)@ == with_regs(old(e)@, (Registers { h: spec_rrc8(old(e)@.registers.h), f: spec_rot_flags(spec_rrc8(old(e)@.registers.h), old(e)@.registers.h & 0x01 != 0), ..old(e)@.registers })),
{
    let v = e.registers.h;
    let t = rrc(&mut e.registers, v);
    e.registers.h = t;
}

/// `RRC L`.
pub fn rrc_l(e: &mut Emulator)
    requires
        old(e).wf(),
    ensures
        final(e).wf(),
        final(e)@ == with_regs(old(e)@, (Registers { l: spec_rrc8(old(e)@.registers.l), f: spec_rot_flags(spec_rrc8(old(e)@.registers.l), old(e)@.registers.l & 0x01 != 0), ..old(e)@.registers })),
{
    let v = e.registers.l;
    let t = rrc(&mut e.registers, v);
    e.registers.l = t;
}

/// `RRC (HL)`: rewrites the byte at HL in place.
pub fn rrc_hlp(e: &mut Emulator)
    requires
        old(e).wf(),
    ensures
        final(e).wf(),
        final(e)@.cpu == old(e)@.cpu,
        final(e)@.registers == (Registers { f: final(e)@.registers.f, ..old(e)@.registers }),
        det_read(old(e)@.registers.spec_get_hl()) ==> bus_write_ok(with_regs(old(e)@, (Registers { f: spec_rot_flags(spec_rrc8(bus_read(old(e)@, old(e)@.registers.spec_get_hl())), bus_read(old(e)@, old(e)@.registers.spec_get_hl()) & 0x01 != 0), ..old(e)@.registers })), old(e)@.registers.spec_get_hl(), spec_rrc8(bus_read(old(e)@, old(e)@.registers.spec_get_hl())), final(e)@),
{
    let hl = e.registers.get_hl();
    let v = e.read_byte(hl);
    let t = rrc(&mut e.registers, v);
    e.write_byte(hl, t);
}

/// `RRC A`.
pub fn rrc_a(e: &mut Emulator)
    requires
        old(e).wf(),
    ensures
        final(e).wf(),
        final(e)@ == with_regs(old(e)@, (Registers { a: spec_rrc8(old(e)@.registers.a), f: spec_rot_flags(spec_rrc8(old(e)@.registers.a), old(e)@.registers.a & 0x01 != 0), ..old(e)@.registers })),
{
    let v = e.registers.a;
    let t = rrc(&mut e.registers, v);
    e.registers.a = t;
}

/// `RL B`.
pub fn rl_b(e: &mut Emulator)
    requires
        old(e).wf(),
    ensures
        final(e).wf(),
        final(e)@ == with_regs(old(e)@, (Registers { b: spec_rl8(old(e)@.registers.b, spec_carry(old(e)@.registers.f)), f: spec_rot_flags(spec_rl8(old(e)@.registers.b, spec_carry(old(e)@.registers.f)), old(e)@.registers.b & 0x80 != 0), ..old(e)@.registers })),
{
    let v = e.registers.b;
    let t = rl(&mut e.registers, v);
    e.registers.b = t;
}

/// `RL C`.
pub fn rl_c(e: &mut Emulator)
    requires
        old(e).wf(),
    ensures
        final(e).wf(),
        final(e)@ == with_regs(old(e)@, (Registers { c: spec_rl8(old(e)@.registers.c, spec_carry(old(e)@.registers.f)), f: spec_rot_flags(spec_rl8(old(e)@.registers.c, spec_carry(old(e)@.registers.f)), old(e)@.registers.c & 0x80 != 0), ..old(e)@.registers })),
{
    let v = e.registers.c;
    let t = rl(&mut e.registers, v);
    e.registers.c = t;
}

/// `RL D`.
pub fn rl_d(e: &mut Emulator)
    requires
        old(e).wf(),
    ensures
        final(e).wf(),
        final(e)@ == with_regs(old(e)@, (Registers { d: spec_rl8(old(e)@.registers.d, spec_carry(old(e)@.registers.f)), f: spec_rot_flags(spec_rl8(old(e)@.registers.d, spec_carry(old(e)@.registers.f)), old(e)@.registers.d & 0x80 != 0), ..old(e)@.registers })),
{
    let v = e.registers.d;
    let t = rl(&mut e.registers, v);
    e.registers.d = t;
}

/// `RL E`.
pub fn rl_e(e: &mut Emulator)
    requires
        old(e).wf(),
    ensures
        final(e).wf(),
        final(e)@ == with_regs(old(e)@, (Registers { e: spec_rl8(old(e)@.registers.e, spec_carry(old(e)@.registers.f)), f: spec_rot_flags(spec_rl8(old(e)@.registers.e, spec_carry(old(e)@.registers.f)), old(e)@.registers.e & 0x80 != 0), ..old(e)@.registers })),
{
    let v = e.registers.e;
    let t = rl(&mut e.registers, v);
    e.registers.e = t;
}

/// `RL H`.
pub fn rl_h(e: &mut Emulator)
    requires
        old(e).wf(),
    ensures
        final(e).wf(),
        final(e)@ == with_regs(old(e)@, (Registers { h: spec_rl8(old(e)@.registers.h, spec_carry(old(e)@.registers.f)), f: spec_rot_flags(spec_rl8(old(e)@.registers.h, spec_carry(old(e)@.registers.f)), old(e)@.registers.h & 0x80 != 0), ..old(e)@.registers })),
{
    let v = e.registers.h;
    let t = rl(&mut e.registers, v);
    e.registers.h = t;
}

/// `RL L`.
pub fn rl_l(e: &mut Emulator)
    requires
        old(e).wf(),
    ensures
        final(e).wf(),
        final(e)@ == with_regs(old(e)@, (Registers { l: spec_rl8(old(e)@.registers.l, spec_carry(old(e)@.registers.f)), f: spec_rot_flags(spec_rl8(old(e)@.registers.l, spec_carry(old(e)@.registers.f)), old(e)@.registers.l & 0x80 != 0), ..old(e)@.registers })),
{
    let v = e.registers.l;
    let t = rl(&mut e.registers, v);
    e.registers.l = t;
}

/// `RL (HL)`: rewrites the byte at HL in place.
pub fn rl_hlp(e: &mut Emulator)
    requires
        old(e).wf(),
    ensures
        final(e).wf(),
        final(e)@.cpu == old(e)@.cpu,
        final(e)@.registers == (Registers { f: final(e)@.registers.f, ..old(e)@.registers }),
        det_read(old(e)@.registers.spec_get_hl()) ==> bus_write_ok(with_regs(old(e)@, (Registers { f: spec_rot_flags(spec_rl8(bus_read(old(e)@, old(e)@.registers.spec_get_hl()), spec_carry(old(e)@.registers.f)), bus_read(old(e)@, old(e)@.registers.spec_get_hl()) & 0x80 != 0), ..old(e)@.registers })), old(e)@.registers.spec_get_hl(), spec_rl8(bus_read(old(e)@, old(e)@.registers.spec_get_hl()), spec_carry(old(e)@.registers.f)), final(e)@),
{
    let hl = e.registers.get_hl();
    let v = e.read_byte(hl);
    let t = rl(&mut e.registers, v);
    e.write_byte(hl, t);
}

/// `RL A`.
pub fn rl_a(e: &mut Emulator)
    requires
        old(e).wf(),
    ensures
        final(e).wf(),
        final(e)@ == with_regs(old(e)@, (Registers { a: spec_rl8(old(e)@.registers.a, spec_carry(old(e)@.registers.f)), f: spec_rot_flags(spec_rl8(old(e)@.registers.a, spec_carry(old(e)@.registers.f)), old(e)@.registers.a & 0x80 != 0), ..old(e)@.registers })),
{
    let v = e.registers.a;
    let t = rl(&mut e.registers, v);
    e.registers.a = t;
}

/// `RR B`.
pub fn rr_b(e: &mut Emulator)
    requires
        old(e).wf(),
    ensures
        final(e).wf(),
        final(e)@ == with_regs(old(e)@, (Registers { b: spec_rr8(old(e)@.registers.b, spec_carry(old(e)@.registers.f)), f: spec_rot_flags(spec_rr8(old(e)@.registers.b, spec_carry(old(e)@.registers.f)), old(e)@.registers.b & 0x01 != 0), ..old(e)@.registers })),
{
    let v = e.registers.b;
    let t = rr(&mut e.registers, v);
    e.registers.b = t;
}

/// `RR C`.
pub fn rr_c(e: &mut Emulator)
    requires
        old(e).wf(),
    ensures
        final(e).wf(),
        final(e)@ == with_regs(old(e)@, (Registers { c: spec_rr8(old(e)@.registers.c, spec_carry(old(e)@.registers.f)), f: spec_rot_flags(spec_rr8(old(e)@.registers.c, spec_carry(old(e)@.registers.f)), old(e)@.registers.c & 0x01 != 0), ..old(e)@.registers })),
{
    let v = e.registers.c;
    let t = rr(&mut e.registers, v);
    e.registers.c = t;
}

/// `RR D`.
pub fn rr_d(e: &mut Emulator)
    requires
        old(e).wf(),
    ensures
        final(e).wf(),
        final(e)@ == with_regs(old(e)@, (Registers { d: spec_rr8(old(e)@.registers.d, spec_carry(old(e)@.registers.f)), f: spec_rot_flags(spec_rr8(old(e)@.registers.d, spec_carry(old(e)@.registers.f)), old(e)@.registers.d & 0x01 != 0), ..old(e)@.registers })),
{
    let v = e.registers.d;
    let t = rr(&mut e.registers, v);
    e.registers.d = t;
}

/// `RR E`.
pub fn rr_e(e: &mut Emulator)
    requires
        old(e).wf(),
    ensures
        final(e).wf(),
        final(e)@ == with_regs(old(e)@, (Registers { e: spec_rr8(old(e)@.registers.e, spec_carry(old(e)@.registers.f)), f: spec_rot_flags(spec_rr8(old(e)@.registers.e, spec_carry(old(e)@.registers.f)), old(e)@.registers.e & 0x01 != 0), ..old(e)@.registers })),
{
    let v = e.registers.e;
    let t = rr(&mut e.registers, v);
    e.registers.e = t;
}

/// `RR H`.
pub fn rr_h(e: &mut Emulator)
    requires
        old(e).wf(),
    ensures
        final(e).wf(),
        final(e)@ == with_regs(old(e)@, (Registers { h: spec_rr8(old(e)@.registers.h, spec_carry(old(e)@.registers.f)), f: spec_rot_flags(spec_rr8(old(e)@.registers.h, spec_carry(old(e)@.registers.f)), old(e)@.registers.h & 0x01 != 0), ..old(e)@.registers })),
{
    let v = e.registers.h;
    let t = rr(&mut e.registers, v);
    e.registers.h = t;
}

/// `RR L`.
pub fn rr_l(e: &mut Emulator)
    requires
        old(e).wf(),
    ensures
        final(e).wf(),
        final(e)@ == with_regs(old(e)@, (Registers { l: spec_rr8(old(e)@.registers.l, spec_carry(old(e)@.registers.f)), f: spec_rot_flags(spec_rr8(old(e)@.registers.l, spec_carry(old(e)@.registers.f)), old(e)@.registers.l & 0x01 != 0), ..old(e)@.registers })),
{
    let v = e.registers.l;
    let t = rr(&mut e.registers, v);
    e.registers.l = t;
}

/// `RR (HL)`: rewrites the byte at HL in place.
pub fn rr_hlp(e: &mut Emulator)
    requires
        old(e).wf(),
    ensures
        final(e).wf(),
        final(e)@.cpu == old(e)@.cpu,
        final(e)@.registers == (Registers { f: final(e)@.registers.f, ..old(e)@.registers }),
        det_read(old(e)@.registers.spec_get_hl()) ==> bus_write_ok(with_regs(old(e)@, (Registers { f: spec_rot_flags(spec_rr8(bus_read(old(e)@, old(e)@.registers.spec_get_hl()), spec_carry(old(e)@.registers.f)), bus_read(old(e)@, old(e)@.registers.spec_get_hl()) & 0x01 != 0), ..old(e)@.registers })), old(e)@.registers.spec_get_hl(), spec_rr8(bus_read(old(e)@, old(e)@.registers.spec_get_hl()), spec_carry(old(e)@.registers.f)), final(e)@),
{
    let hl = e.registers.get_hl();
    let v = e.read_byte(hl);
    let t = rr(&mut e.registers, v);
    e.write_byte(hl, t);
}

/// `RR A`.
pub fn rr_a(e: &mut Emulator)
    requires
        old(e).wf(),
    ensures
        final(e).wf(),
        final(e)@ == with_regs(old(e)@, (Registers { a: spec_rr8(old(e)@.registers.a, spec_carry(old(e)@.registers.f)), f: spec_rot_flags(spec_rr8(old(e)@.registers.a, spec_carry(old(e)@.registers.f)), old(e)@.registers.a & 0x01 != 0), ..old(e)@.registers })),
{
    let v = e.registers.a;
    let t = rr(&mut e.registers, v);
    e.registers.a = t;
}

/// `SLA B`.
pub fn sla_b(e: &mut Emulator)
    requires
        old(e).wf(),
    ensures
        final(e).wf(),
        final(e)@ == with_regs(old(e)@, (Registers { b: spec_sla8(old(e)@.registers.b), f: spec_rot_flags(spec_sla8(old(e)@.registers.b), old(e)@.registers.b & 0x80 != 0), ..old(e)@.registers })),
{
    let v = e.registers.b;
    let t = sla(&mut e.registers, v);
    e.registers.b = t;
}

/// `SLA C`.
pub fn sla_c(e: &mut Emulator)
    requires
        old(e).wf(),
    ensures
        final(e).wf(),
        final(e)@ == with_regs(old(e)@, (Registers { c: spec_sla8(old(e)@.registers.c), f: spec_rot_flags(spec_sla8(old(e)@.registers.c), old(e)@.registers.c & 0x80 != 0), ..old(e)@.registers })),
{
    let v = e.registers.c;
    let t = sla(&mut e.registers, v);
    e.registers.c = t;
}

/// `SLA D`.
pub fn sla_d(e: &mut Emulator)
    requires
        old(e).wf(),
    ensures
        final(e).wf(),
        final(e)@ == with_regs(old(e)@, (Registers { d: spec_sla8(old(e)@.registers.d), f: spec_rot_flags(spec_sla8(old(e)@.registers.d), old(e)@.registers.d & 0x80 != 0), ..old(e)@.registers })),
{
    let v = e.registers.d;
    let t = sla(&mut e.registers, v);
    e.registers.d = t;
}

/// `SLA E`.
pub fn sla_e(e: &mut Emulator)
    requires
        old(e).wf(),
    ensures
        final(e).wf(),
        final(e)@ == with_regs(old(e)@, (Registers { e: spec_sla8(old(e)@.registers.e), f: spec_rot_flags(spec_sla8(old(e)@.registers.e), old(e)@.registers.e & 0x80 != 0), ..old(e)@.registers })),
{
    let v = e.registers.e;
    let t = sla(&mut e.registers, v);
    e.registers.e = t;
}

/// `SLA H`.
pub fn sla_h(e: &mut Emulator)
    requires
        old(e).wf(),
    ensures
        final(e).wf(),
        final(e)@ == with_regs(old(e)@, (Registers { h: spec_sla8(old(e)@.registers.h), f: spec_rot_flags(spec_sla8(old(e)@.registers.h), old(e)@.registers.h & 0x80 != 0), ..old(e)@.registers })),
{
    let v = e.registers.h;
    let t = sla(&mut e.registers, v);
    e.registers.h = t;
}

/// `SLA L`.
pub fn sla_l(e: &mut Emulator)
    requires
        old(e).wf(),
    ensures
        final(e).wf(),
        final(e)@ == with_regs(old(e)@, (Registers { l: spec_sla8(old(e)@.registers.l), f: spec_rot_flags(spec_sla8(old(e)@.registers.l), old(e)@.registers.l & 0x80 != 0), ..old(e)@.registers })),
{
    let v = e.registers.l;
    let t = sla(&mut e.registers, v);
    e.registers.l = t;
}

/// `SLA (HL)`: rewrites the byte at HL in place.
pub fn sla_hlp(e: &mut Emulator)
    requires
        old(e).wf(),
    ensures
        final(e).wf(),
        final(e)@.cpu == old(e)@.cpu,
        final(e)@.registers == (Registers { f: final(e)@.registers.f, ..old(e)@.registers }),
        det_read(old(e)@.registers.spec_get_hl()) ==> bus_write_ok(with_regs(old(e)@, (Registers { f: spec_rot_flags(spec_sla8(bus_read(old(e)@, old(e)@.registers.spec_get_hl())), bus_read(old(e)@, old(e)@.registers.spec_get_hl()) & 0x80 != 0), ..old(e)@.registers })), old(e)@.registers.spec_get_hl(), spec_sla8(bus_read(old(e)@, old(e)@.registers.spec_get_hl())), final(e)@),
{
    let hl = e.registers.get_hl();
    let v = e.read_byte(hl);
    let t = sla(&mut e.registers, v);
    e.write_byte(hl, t);
}

/// `SLA A`.
pub fn sla_a(e: &mut Emulator)
    requires
        old(e).wf(),
    ensures
        final(e).wf(),
        final(e)@ == with_regs(old(e)@, (Registers { a: spec_sla8(old(e)@.registers.a), f: spec_rot_flags(spec_sla8(old(e)@.registers.a), old(e)@.registers.a & 0x80 != 0), ..old(e)@.registers })),
{
    let v = e.registers.a;
    let t = sla(&mut e.registers, v);
    e.registers.a = t;
}

/// `SRA B`.
pub fn sra_b(e: &mut Emulator)
    requires
        old(e).wf(),
    ensures
        final(e).wf(),
        final(e)@ == with_regs(old(e)@, (Registers { b: spec_sra8(old(e)@.registers.b), f: spec_rot_flags(spec_sra8(old(e)@.registers.b), old(e)@.registers.b & 0x01 != 0), ..old(e)@.registers })),
{
    let v = e.registers.b;
    let t = sra(&mut e.registers, v);
    e.registers.b = t;
}

/// `SRA C`.
pub fn sra_c(e: &mut Emulator)
    requires
        old(e).wf(),
    ensures
        final(e).wf(),
        final(e)@ == with_regs(old(e)@, (Registers { c: spec_sra8(old(e)@.registers.c), f: spec_rot_flags(spec_sra8(old(e)@.registers.c), old(e)@.registers.c & 0x01 != 0), ..old(e)@.registers })),
{
    let v = e.registers.c;
    let t = sra(&mut e.registers, v);
    e.registers.c = t;
}

/// `SRA D`.
pub fn sra_d(e: &mut Emulator)
    requires
        old(e).wf(),
    ensures
        final(e).wf(),
        final(e)@ == with_regs(old(e)@, (Registers { d: spec_sra8(old(e)@.registers.d), f: spec_rot_flags(spec_sra8(old(e)@.registers.d), old(e)@.registers.d & 0x01 != 0), ..old(e)@.registers })),
{
    let v = e.registers.d;
    let t = sra(&mut e.registers, v);
    e.registers.d = t;
}

/// `SRA E`.
pub fn sra_e(e: &mut Emulator)
    requires
        old(e).wf(),
    ensures
        final(e).wf(),
        final(e)@ == with_regs(old(e)@, (Registers { e: spec_sra8(old(e)@.registers.e), f: spec_rot_flags(spec_sra8(old(e)@.registers.e), old(e)@.registers.e & 0x01 != 0), ..old(e)@.registers })),
{
    let v = e.registers.e;
    let t = sra(&mut e.registers, v);
    e.registers.e = t;
}

/// `SRA H`.
pub fn sra_h(e: &mut Emulator)
    requires
        old(e).wf(),
    ensures
        final(e).wf(),
        final(e)@ == with_regs(old(e)@, (Registers { h: spec_sra8(old(e)@.registers.h), f: spec_rot_flags(spec_sra8(old(e)@.registers.h), old(e)@.registers.h & 0x01 != 0), ..old(e)@.registers })),
{
    let v = e.registers.h;
    let t = sra(&mut e.registers, v);
    e.registers.h = t;
}

/// `SRA L`.
pub fn sra_l(e: &mut Emulator)
    requires
        old(e).wf(),
    ensures
        final(e).wf(),
        final(e)@ == with_regs(old(e)@, (Registers { l: spec_sra8(old(e)@.registers.l), f: spec_rot_flags(spec_sra8(old(e)@.registers.l), old(e)@.registers.l & 0x01 != 0), ..old(e)@.registers })),
{
    let v = e.registers.l;
    let t = sra(&mut e.registers, v);
    e.registers.l = t;
}

/// `SRA (HL)`: rewrites the byte at HL in place.
pub fn sra_hlp(e: &mut Emulator)
    requires
        old(e).wf(),
    ensures
        final(e).wf(),
        final(e)@.cpu == old(e)@.cpu,
        final(e)@.registers == (Registers { f: final(e)@.registers.f, ..old(e)@.registers }),
        det_read(old(e)@.registers.spec_get_hl()) ==> bus_write_ok(with_regs(old(e)@, (Registers { f: spec_rot_flags(spec_sra8(bus_read(old(e)@, old(e)@.registers.spec_get_hl())), bus_read(old(e)@, old(e)@.registers.spec_get_hl()) & 0x01 != 0), ..old(e)@.registers })), old(e)@.registers.spec_get_hl(), spec_sra8(bus_read(old(e)@, old(e)@.registers.spec_get_hl())), final(e)@),
{
    let hl = e.registers.get_hl();
    let v = e.read_byte(hl);
    let t = sra(&mut e.registers, v);
    e.write_byte(hl, t);
}

/// `SRA A`.
pub fn sra_a(e: &mut Emulator)
    requires
        old(e).wf(),
    ensures
        final(e).wf(),
        final(e)@ == with_regs(old(e)@, (Registers { a: spec_sra8(old(e)@.registers.a), f: spec_rot_flags(spec_sra8(old(e)@.registers.a), old(e)@.registers.a & 0x01 != 0), ..old(e)@.registers })),
{
    let v = e.registers.a;
    let t = sra(&mut e.registers, v);
    e.registers.a = t;
}

/// `SWAP B`.
pub fn swap_b(e: &mut Emulator)
    requires
        old(e).wf(),
    ensures
        final(e).wf(),
        final(e)@ == with_regs(old(e)@, (Registers { b: spec_swap8(old(e)@.registers.b), f: spec_flags(old(e)@.registers.b == 0, false, false, false), ..old(e)@.registers })),
{
    let v = e.registers.b;
    let t = swap(&mut e.registers, v);
    e.registers.b = t;
}

/// `SWAP C`.
pub fn swap_c(e: &mut Emulator)
    requires
        old(e).wf(),
    ensures
        final(e).wf(),
        final(e)@ == with_regs(old(e)@, (Registers { c: spec_swap8(old(e)@.registers.c), f: spec_flags(old(e)@.registers.c == 0, false, false, false), ..old(e)@.registers })),
{
    let v = e.registers.c;
    let t = swap(&mut e.registers, v);
    e.registers.c = t;
}

/// `SWAP D`.
pub fn swap_d(e: &mut Emulator)
    requires
        old(e).wf(),
    ensures
        final(e).wf(),
        final(e)@ == with_regs(old(e)@, (Registers { d: spec_swap8(old(e)@.registers.d), f: spec_flags(old(e)@.registers.d == 0, false, false, false), ..old(e)@.registers })),
{
    let v = e.registers.d;
    let t = swap(&mut e.registers, v);
    e.registers.d = t;
}

/// `SWAP E`.
pub fn swap_e(e: &mut Emulator)
    requires
        old(e).wf(),
    ensures
        final(e).wf(),
        final(e)@ == with_regs(old(e)@, (Registers { e: spec_swap8(old(e)@.registers.e), f: spec_flags(old(e)@.registers.e == 0, false, false, false), ..old(e)@.registers })),
{
    let v = e.registers.e;
    let t = swap(&mut e.registers, v);
    e.registers.e = t;
}

/// `SWAP H`.
pub fn swap_h(e: &mut Emulator)
    requires
        old(e).wf(),
    ensures
        final(e).wf(),
        final(e)@ == with_regs(old(e)@, (Registers { h: spec_swap8(old(e)@.registers.h), f: spec_flags(old(e)@.registers.h == 0, false, false, false), ..old(e)@.registers })),
{
    let v = e.registers.h;
    let t = swap(&mut e.registers, v);
    e.registers.h = t;
}

/// `SWAP L`.
pub fn swap_l(e: &mut Emulator)
    requires
        old(e).wf(),
    ensures
        final(e).wf(),
        final(e)@ == with_regs(old(e)@, (Registers { l: spec_swap8(old(e)@.registers.l), f: spec_flags(old(e)@.registers.l == 0, false, false, false), ..old(e)@.registers })),
{
    let v = e.registers.l;
    let t = swap(&mut e.registers, v);
    e.registers.l = t;
}

/// `SWAP (HL)`: rewrites the byte at HL in place.
pub fn swap_hlp(e: &mut Emulator)
    requires
        old(e).wf(),
    ensures
        final(e).wf(),
        final(e)@.cpu == old(e)@.cpu,
        final(e)@.registers == (Registers { f: final(e)@.registers.f, ..old(e)@.registers }),
        det_read(old(e)@.registers.spec_get_hl()) ==> bus_write_ok(with_regs(old(e)@, (Registers { f: spec_flags(bus_read(old(e)@, old(e)@.registers.spec_get_hl()) == 0, false, false, false), ..old(e)@.registers })), old(e)@.registers.spec_get_hl(), spec_swap8(bus_read(old(e)@, old(e)@.registers.spec_get_hl())), final(e)@),
{
    let hl = e.registers.get_hl();
    let v = e.read_byte(hl);
    let t = swap(&mut e.registers, v);
    e.write_byte(hl, t);
}

/// `SWAP A`.
pub fn swap_a(e: &mut Emulator)
    requires
        old(e).wf(),
    ensures
        final(e).wf(),
        final(e)@ == with_regs(old(e)@, (Registers { a: spec_swap8(old(e)@.registers.a), f: spec_flags(old(e)@.registers.a == 0, false, false, false), ..old(e)@.registers })),
{
    let v = e.registers.a;
    let t = swap(&mut e.registers, v);
    e.registers.a = t;
}

/// `SRL B`.
pub fn srl_b(e: &mut Emulator)
    requires
        old(e).wf(),
    ensures
        final(e).wf(),
        final(e)@ == with_regs(old(e)@, (Registers { b: spec_srl8(old(e)@.registers.b), f: spec_rot_flags(spec_srl8(old(e)@.registers.b), old(e)@.registers.b & 0x01 != 0), ..old(e)@.registers })),
{
    let v = e.registers.b;
    let t = srl(&mut e.registers, v);
    e.registers.b = t;
}

/// `SRL C`.
pub fn srl_c(e: &mut Emulator)
    requires
        old(e).wf(),
    ensures
        final(e).wf(),
        final(e)@ == with_regs(old(e)@, (Registers { c: spec_srl8(old(e)@.registers.c), f: spec_rot_flags(spec_srl8(old(e)@.registers.c), old(e)@.registers.c & 0x01 != 0), ..old(e)@.registers })),
{
    let v = e.registers.c;
    let t = srl(&mut e.registers, v);
    e.registers.c = t;
}

/// `SRL D`.
pub fn srl_d(e: &mut Emulator)
    requires
        old(e).wf(),
    ensures
        final(e).wf(),
        final(e)@ == with_regs(old(e)@, (Registers { d: spec_srl8(old(e)@.registers.d), f: spec_rot_flags(spec_srl8(old(e)@.registers.d), old(e)@.registers.d & 0x01 != 0), ..old(e)@.registers })),
{
    let v = e.registers.d;
    let t = srl(&mut e.registers, v);
    e.registers.d = t;
}

/// `SRL E`.
pub fn srl_e(e: &mut Emulator)
    requires
        old(e).wf(),
    ensures
        final(e).wf(),
        final(e)@ == with_regs(old(e)@, (Registers { e: spec_srl8(old(e)@.registers.e), f: spec_rot_flags(spec_srl8(old(e)@.registers.e), old(e)@.registers.e & 0x01 != 0), ..old(e)@.registers })),
{
    let v = e.registers.e;
    let t = srl(&mut e.registers, v);
    e.registers.e = t;
}

/// `SRL H`.
pub fn srl_h(e: &mut Emulator)
    requires
        old(e).wf(),
    ensures
        final(e).wf(),
        final(e)@ == with_regs(old(e)@, (Registers { h: spec_srl8(old(e)@.registers.h), f: spec_rot_flags(spec_srl8(old(e)@.registers.h), old(e)@.registers.h & 0x01 != 0), ..old(e)@.registers })),
{
    let v = e.registers.h;
    let t = srl(&mut e.registers, v);
    e.registers.h = t;
}

/// `SRL L`.
pub fn srl_l(e: &mut Emulator)
    requires
        old(e).wf(),
    ensures
        final(e).wf(),
        final(e)@ == with_regs(old(e)@, (Registers { l: spec_srl8(old(e)@.registers.l), f: spec_rot_flags(spec_srl8(old(e)@.registers.l), old(e)@.registers.l & 0x01 != 0), ..old(e)@.registers })),
{
    let v = e.registers.l;
    let t = srl(&mut e.registers, v);
    e.registers.l = t;
}

/// `SRL (HL)`: rewrites the byte at HL in place.
pub fn srl_hlp(e: &mut Emulator)
    requires
        old(e).wf(),
    ensures
        final(e).wf(),
        final(e)@.cpu == old(e)@.cpu,
        final(e)@.registers == (Registers { f: final(e)@.registers.f, ..old(e)@.registers }),
        det_read(old(e)@.registers.spec_get_hl()) ==> bus_write_ok(with_regs(old(e)@, (Registers { f: spec_rot_flags(spec_srl8(bus_read(old(e)@, old(e)@.registers.spec_get_hl())), bus_read(old(e)@, old(e)@.registers.spec_get_hl()) & 0x01 != 0), ..old(e)@.registers })), old(e)@.registers.spec_get_hl(), spec_srl8(bus_read(old(e)@, old(e)@.registers.spec_get_hl())), final(e)@),
{
    let hl = e.registers.get_hl();
    let v = e.read_byte(hl);
    let t = srl(&mut e.registers, v);
    e.write_byte(hl, t);
}

/// `SRL A`.
pub fn srl_a(e: &mut Emulator)
    requires
        old(e).wf(),
    ensures
        final(e).wf(),
        final(e)@ == with_regs(old(e)@, (Registers { a: spec_srl8(old(e)@.registers.a), f: spec_rot_flags(spec_srl8(old(e)@.registers.a), old(e)@.registers.a & 0x01 != 0), ..old(e)@.registers })),
{
    let v = e.registers.a;
    let t = srl(&mut e.registers, v);
    e.registers.a = t;
}

/// `BIT 0, B`: Zero reports the tested bit clear; Half-Carry set, Subtract cleared, Carry preserved.
pub fn bit_0_b(e: &mut Emulator)
    requires
        old(e).wf(),
    ensures
        final(e).wf(),
        final(e)@ == with_regs(old(e)@, (Registers { f: spec_flags(old(e)@.registers.b & 0x01 == 0, false, true, spec_carry(old(e)@.registers.f)), ..old(e)@.registers })),
{
    let v = e.registers.b;
    let c = e.registers.is_flag_set(FLAG_CARRY);
    e.registers.f = flags_byte(v & 0x01 == 0, false, true, c);
}

/// `BIT 0, C`: Zero reports the tested bit clear; Half-Carry set, Subtract cleared, Carry preserved.
pub fn bit_0_c(e: &mut Emulator)
    requires
        old(e).wf(),
    ensures
        final(e).wf(),
        final(e)@ == with_regs(old(e)@, (Registers { f: spec_flags(old(e)@.registers.c & 0x01 == 0, false, true, spec_carry(old(e)@.registers.f)), ..old(e)@.registers })),
{
    let v = e.registers.c;
    let c = e.registers.is_flag_set(FLAG_CARRY);
    e.registers.f = flags_byte(v & 0x01 == 0, false, true, c);
}

/// `BIT 0, D`: Zero reports the tested bit clear; Half-Carry set, Subtract cleared, Carry preserved.
pub fn bit_0_d(e: &mut Emulator)
    requires
        old(e).wf(),
    ensures
        final(e).wf(),
        final(e)@ == with_regs(old(e)@, (Registers { f: spec_flags(old(e)@.registers.d & 0x01 == 0, false, true, spec_carry(old(e)@.registers.f)), ..old(e)@.registers })),
{
    let v = e.registers.d;
    let c = e.registers.is_flag_set(FLAG_CARRY);
    e.registers.f = flags_byte(v & 0x01 == 0, false, true, c);
}

/// `BIT 0, E`: Zero reports the tested bit clear; Half-Carry set, Subtract cleared, Carry preserved.
pub fn bit_0_e(e: &mut Emulator)
    requires
        old(e).wf(),
    ensures
        final(e).wf(),
        final(e)@ == with_regs(old(e)@, (Registers { f: spec_flags(old(e)@.registers.e & 0x01 == 0, false, true, spec_carry(old(e)@.registers.f)), ..old(e)@.registers })),
{
    let v = e.registers.e;
    let c = e.registers.is_flag_set(FLAG_CARRY);
    e.registers.f = flags_byte(v & 0x01 == 0, false, true, c);
}

/// `BIT 0, H`: Zero reports the tested bit clear; Half-Carry set, Subtract cleared, Carry preserved.
pub fn bit_0_h(e: &mut Emulator)
    requires
        old(e).wf(),
    ensures
        final(e).wf(),
        final(e)@ == with_regs(old(e)@, (Registers { f: spec_flags(old(e)@.registers.h & 0x01 == 0, false, true, spec_carry(old(e)@.registers.f)), ..old(e)@.registers })),
{
    let v = e.registers.h;
    let c = e.registers.is_flag_set(FLAG_CARRY);
    e.registers.f = flags_byte(v & 0x01 == 0, false, true, c);
}

/// `BIT 0, L`: Zero reports the tested bit clear; Half-Carry set, Subtract cleared, Carry preserved.
pub fn bit_0_l(e: &mut Emulator)
    requires
        old(e).wf(),
    ensures
        final(e).wf(),
        final(e)@ == with_regs(old(e)@, (Registers { f: spec_flags(old(e)@.registers.l & 0x01 == 0, false, true, spec_carry(old(e)@.registers.f)), ..old(e)@.registers })),
{
    let v = e.registers.l;
    let c = e.registers.is_flag_set(FLAG_CARRY);
    e.registers.f = flags_byte(v & 0x01 == 0, false, true, c);
}

/// `BIT 0, (HL)`.
pub fn bit_0_hlp(e: &mut Emulator)
    requires
        old(e).wf(),
    ensures
        final(e).wf(),
        final(e)@ == with_regs(old(e)@, (Registers { f: final(e)@.registers.f, ..old(e)@.registers })),
        det_read(old(e)@.registers.spec_get_hl()) ==> final(e)@.registers.f == spec_flags(bus_read(old(e)@, old(e)@.registers.spec_get_hl()) & 0x01 == 0, false, true, spec_carry(old(e)@.registers.f)),
{
    let hl = e.registers.get_hl();
    let v = e.read_byte(hl);
    let c = e.registers.is_flag_set(FLAG_CARRY);
    e.registers.f = flags_byte(v & 0x01 == 0, false, true, c);
}

/// `BIT 0, A`: Zero reports the tested bit clear; Half-Carry set, Subtract cleared, Carry preserved.
pub fn bit_0_a(e: &mut Emulator)
    requires
        old(e).wf(),
    ensures
        final(e).wf(),
        final(e)@ == with_regs(old(e)@, (Registers { f: spec_flags(old(e)@.registers.a & 0x01 == 0, false, true, spec_carry(old(e)@.registers.f)), ..old(e)@.registers })),
{
    let v = e.registers.a;
    let c = e.registers.is_flag_set(FLAG_CARRY);
    e.registers.f = flags_byte(v & 0x01 == 0, false, true, c);
}

/// `BIT 1, B`: Zero reports the tested bit clear; Half-Carry set, Subtract cleared, Carry preserved.
pub fn bit_1_b(e: &mut Emulator)
    requires
        old(e).wf(),
    ensures
        final(e).wf(),
        final(e)@ == with_regs(old(e)@, (Registers { f: spec_flags(old(e)@.registers.b & 0x02 == 0, false, true, spec_carry(old(e)@.registers.f)), ..old(e)@.registers })),
{
    let v = e.registers.b;
    let c = e.registers.is_flag_set(FLAG_CARRY);
    e.registers.f = flags_byte(v & 0x02 == 0, false, true, c);
}

/// `BIT 1, C`: Zero reports the tested bit clear; Half-Carry set, Subtract cleared, Carry preserved.
pub fn bit_1_c(e: &mut Emulator)
    requires
        old(e).wf(),
    ensures
        final(e).wf(),
        final(e)@ == with_regs(old(e)@, (Registers { f: spec_flags(old(e)@.registers.c & 0x02 == 0, false, true, spec_carry(old(e)@.registers.f)), ..old(e)@.registers })),
{
    let v = e.registers.c;
    let c = e.registers.is_flag_set(FLAG_CARRY);
    e.registers.f = flags_byte(v & 0x02 == 0, false, true, c);
}

/// `BIT 1, D`: Zero reports the tested bit clear; Half-Carry set, Subtract cleared, Carry preserved.
pub fn bit_1_d(e: &mut Emulator)
    requires
        old(e).wf(),
    ensures
        final(e).wf(),
        final(e)@ == with_regs(old(e)@, (Registers { f: spec_flags(old(e)@.registers.d & 0x02 == 0, false, true, spec_carry(old(e)@.registers.f)), ..old(e)@.registers })),
{
    let v = e.registers.d;
    let c = e.registers.is_flag_set(FLAG_CARRY);
    e.registers.f = flags_byte(v & 0x02 == 0, false, true, c);
}

/// `BIT 1, E`: Zero reports the tested bit clear; Half-Carry set, Subtract cleared, Carry preserved.
pub fn bit_1_e(e: &mut Emulator)
    requires
        old(e).wf(),
    ensures
        final(e).wf(),
        final(e)@ == with_regs(old(e)@, (Registers { f: spec_flags(old(e)@.registers.e & 0x02 == 0, false, true, spec_carry(old(e)@.registers.f)), ..old(e)@.registers })),
{
    let v = e.registers.e;
    let c = e.registers.is_flag_set(FLAG_CARRY);
    e.registers.f = flags_byte(v & 0x02 == 0, false, true, c);
}

/// `BIT 1, H`: Zero reports the tested bit clear; Half-Carry set, Subtract cleared, Carry preserved.
pub fn bit_1_h(e: &mut Emulator)
    requires
        old(e).wf(),
    ensures
        final(e).wf(),
        final(e)@ == with_regs(old(e)@, (Registers { f: spec_flags(old(e)@.registers.h & 0x02 == 0, false, true, spec_carry(old(e)@.registers.f)), ..old(e)@.registers })),
{
    let v = e.registers.h;
    let c = e.registers.is_flag_set(FLAG_CARRY);
    e.registers.f = flags_byte(v & 0x02 == 0, false, true, c);
}

/// `BIT 1, L`: Zero reports the tested bit clear; Half-Carry set, Subtract cleared, Carry preserved.
pub fn bit_1_l(e: &mut Emulator)
    requires
        old(e).wf(),
    ensures
        final(e).wf(),
        final(e)@ == with_regs(old(e)@, (Registers { f: spec_flags(old(e)@.registers.l & 0x02 == 0, false, true, spec_carry(old(e)@.registers.f)), ..old(e)@.registers })),
{
    let v = e.registers.l;
    let c = e.registers.is_flag_set(FLAG_CARRY);
    e.registers.f = flags_byte(v & 0x02 == 0, false, true, c);
}

/// `BIT 1, (HL)`.
pub fn bit_1_hlp(e: &mut Emulator)
    requires
        old(e).wf(),
    ensures
        final(e).wf(),
        final(e)@ == with_regs(old(e)@, (Registers { f: final(e)@.registers.f, ..old(e)@.registers })),
        det_read(old(e)@.registers.spec_get_hl()) ==> final(e)@.registers.f == spec_flags(bus_read(old(e)@, old(e)@.registers.spec_get_hl()) & 0x02 == 0, false, true, spec_carry(old(e)@.registers.f)),
{
    let hl = e.registers.get_hl();
    let v = e.read_byte(hl);
    let c = e.registers.is_flag_set(FLAG_CARRY);
    e.registers.f = flags_byte(v & 0x02 == 0, false, true, c);
}

/// `BIT 1, A`: Zero reports the tested bit clear; Half-Carry set, Subtract cleared, Carry preserved.
pub fn bit_1_a(e: &mut Emulator)
    requires
        old(e).wf(),
    ensures
        final(e).wf(),
        final(e)@ == with_regs(old(e)@, (Registers { f: spec_flags(old(e)@.registers.a & 0x02 == 0, false, true, spec_carry(old(e)@.registers.f)), ..old(e)@.registers })),
{
    let v = e.registers.a;
    let c = e.registers.is_flag_set(FLAG_CARRY);
    e.registers.f = flags_byte(v & 0x02 == 0, false, true, c);
}

/// `BIT 2, B`: Zero reports the tested bit clear; Half-Carry set, Subtract cleared, Carry preserved.
pub fn bit_2_b(e: &mut Emulator)
    requires
        old(e).wf(),
    ensures
        final(e).wf(),
        final(e)@ == with_regs(old(e)@, (Registers { f: spec_flags(old(e)@.registers.b & 0x04 == 0, false, true, spec_carry(old(e)@.registers.f)), ..old(e)@.registers })),
{
    let v = e.registers.b;
    let c = e.registers.is_flag_set(FLAG_CARRY);
    e.registers.f = flags_byte(v & 0x04 == 0, false, true, c);
}

/// `BIT 2, C`: Zero reports the tested bit clear; Half-Carry set, Subtract cleared, Carry preserved.
pub fn bit_2_c(e: &mut Emulator)
    requires
        old(e).wf(),
    ensures
        final(e).wf(),
        final(e)@ == with_regs(old(e)@, (Registers { f: spec_flags(old(e)@.registers.c & 0x04 == 0, false, true, spec_carry(old(e)@.registers.f)), ..old(e)@.registers })),
{
    let v = e.registers.c;
    let c = e.registers.is_flag_set(FLAG_CARRY);
    e.registers.f = flags_byte(v & 0x04 == 0, false, true, c);
}

/// `BIT 2, D`: Zero reports the tested bit clear; Half-Carry set, Subtract cleared, Carry preserved.
pub fn bit_2_d(e: &mut Emulator)
    requires
        old(e).wf(),
    ensures
        final(e).wf(),
        final(e)@ == with_regs(old(e)@, (Registers { f: spec_flags(old(e)@.registers.d & 0x04 == 0, false, true, spec_carry(old(e)@.registers.f)), ..old(e)@.registers })),
{
    let v = e.registers.d;
    let c = e.registers.is_flag_set(FLAG_CARRY);
    e.registers.f = flags_byte(v & 0x04 == 0, false, true, c);
}

/// `BIT 2, E`: Zero reports the tested bit clear; Half-Carry set, Subtract cleared, Carry preserved.
pub fn bit_2_e(e: &mut Emulator)
    requires
        old(e).wf(),
    ensures
        final(e).wf(),
        final(e)@ == with_regs(old(e)@, (Registers { f: spec_flags(old(e)@.registers.e & 0x04 == 0, false, true, spec_carry(old(e)@.registers.f)), ..old(e)@.registers })),
{
    let v = e.registers.e;
    let c = e.registers.is_flag_set(FLAG_CARRY);
    e.registers.f = flags_byte(v & 0x04 == 0, false, true, c);
}

/// `BIT 2, H`: Zero reports the tested bit clear; Half-Carry set, Subtract cleared, Carry preserved.
pub fn bit_2_h(e: &mut Emulator)
    requires
        old(e).wf(),
    ensures
        final(e).wf(),
        final(e)@ == with_regs(old(e)@, (Registers { f: spec_flags(old(e)@.registers.h & 0x04 == 0, false, true, spec_carry(old(e)@.registers.f)), ..old(e)@.registers })),
{
    let v = e.registers.h;
    let c = e.registers.is_flag_set(FLAG_CARRY);
    e.registers.f = flags_byte(v & 0x04 == 0, false, true, c);
}

/// `BIT 2, L`: Zero reports the tested bit clear; Half-Carry set, Subtract cleared, Carry preserved.
pub fn bit_2_l(e: &mut Emulator)
    requires
        old(e).wf(),
    ensures
        final(e).wf(),
        final(e)@ == with_regs(old(e)@, (Registers { f: spec_flags(old(e)@.registers.l & 0x04 == 0, false, true, spec_carry(old(e)@.registers.f)), ..old(e)@.registers })),
{
    let v = e.registers.l;
    let c = e.registers.is_flag_set(FLAG_CARRY);
    e.registers.f = flags_byte(v & 0x04 == 0, false, true, c);
}

/// `BIT 2, (HL)`.
pub fn bit_2_hlp(e: &mut Emulator)
    requires
        old(e).wf(),
    ensures
        final(e).wf(),
        final(e)@ == with_regs(old(e)@, (Registers { f: final(e)@.registers.f, ..old(e)@.registers })),
        det_read(old(e)@.registers.spec_get_hl()) ==> final(e)@.registers.f == spec_flags(bus_read(old(e)@, old(e)@.registers.spec_get_hl()) & 0x04 == 0, false, true, spec_carry(old(e)@.registers.f)),
{
    let hl = e.registers.get_hl();
    let v = e.read_byte(hl);
    let c = e.registers.is_flag_set(FLAG_CARRY);
    e.registers.f = flags_byte(v & 0x04 == 0, false, true, c);
}

/// `BIT 2, A`: Zero reports the tested bit clear; Half-Carry set, Subtract cleared, Carry preserved.
pub fn bit_2_a(e: &mut Emulator)
    requires
        old(e).wf(),
    ensures
        final(e).wf(),
        final(e)@ == with_regs(old(e)@, (Registers { f: spec_flags(old(e)@.registers.a & 0x04 == 0, false, true, spec_carry(old(e)@.registers.f)), ..old(e)@.registers })),
{
    let v = e.registers.a;
    let c = e.registers.is_flag_set(FLAG_CARRY);
    e.registers.f = flags_byte(v & 0x04 == 0, false, true, c);
}

/// `BIT 3, B`: Zero reports the tested bit clear; Half-Carry set, Subtract cleared, Carry preserved.
pub fn bit_3_b(e: &mut Emulator)
    requires
        old(e).wf(),
    ensures
        final(e).wf(),
        final(e)@ == with_regs(old(e)@, (Registers { f: spec_flags(old(e)@.registers.b & 0x08 == 0, false, true, spec_carry(old(e)@.registers.f)), ..old(e)@.registers })),
{
    let v = e.registers.b;
    let c = e.registers.is_flag_set(FLAG_CARRY);
    e.registers.f = flags_byte(v & 0x08 == 0, false, true, c);
}

/// `BIT 3, C`: Zero reports the tested bit clear; Half-Carry set, Subtract cleared, Carry preserved.
pub fn bit_3_c(e: &mut Emulator)
    requires
        old(e).wf(),
    ensures
        final(e).wf(),
        final(e)@ == with_regs(old(e)@, (Registers { f: spec_flags(old(e)@.registers.c & 0x08 == 0, false, true, spec_carry(old(e)@.registers.f)), ..old(e)@.registers })),
{
    let v = e.registers.c;
    let c = e.registers.is_flag_set(FLAG_CARRY);
    e.registers.f = flags_byte(v & 0x08 == 0, false, true, c);
}

/// `BIT 3, D`: Zero reports the tested bit clear; Half-Carry set, Subtract cleared, Carry preserved.
pub fn bit_3_d(e: &mut Emulator)
    requires
        old(e).wf(),
    ensures
        final(e).wf(),
        final(e)@ == with_regs(old(e)@, (Registers { f: spec_flags(old(e)@.registers.d & 0x08 == 0, false, true, spec_carry(old(e)@.registers.f)), ..old(e)@.registers })),
{
    let v = e.registers.d;
    let c = e.registers.is_flag_set(FLAG_CARRY);
    e.registers.f = flags_byte(v & 0x08 == 0, false, true, c);
}

/// `BIT 3, E`: Zero reports the tested bit clear; Half-Carry set, Subtract cleared, Carry preserved.
pub fn bit_3_e(e: &mut Emulator)
    requires
        old(e).wf(),
    ensures
        final(e).wf(),
        final(e)@ == with_regs(old(e)@, (Registers { f: spec_flags(old(e)@.registers.e & 0x08 == 0, false, true, spec_carry(old(e)@.registers.f)), ..old(e)@.registers })),
{
    let v = e.registers.e;
    let c = e.registers.is_flag_set(FLAG_CARRY);
    e.registers.f = flags_byte(v & 0x08 == 0, false, true, c);
}

/// `BIT 3, H`: Zero reports the tested bit clear; Half-Carry set, Subtract cleared, Carry preserved.
pub fn bit_3_h(e: &mut Emulator)
    requires
        old(e).wf(),
    ensures
        final(e).wf(),
        final(e)@ == with_regs(old(e)@, (Registers { f: spec_flags(old(e)@.registers.h & 0x08 == 0, false, true, spec_carry(old(e)@.registers.f)), ..old(e)@.registers })),
{
    let v = e.registers.h;
    let c = e.registers.is_flag_set(FLAG_CARRY);
    e.registers.f = flags_byte(v & 0x08 == 0, false, true, c);
}

/// `BIT 3, L`: Zero reports the tested bit clear; Half-Carry set, Subtract cleared, Carry preserved.
pub fn bit_3_l(e: &mut Emulator)
    requires
        old(e).wf(),
    ensures
        final(e).wf(),
        final(e)@ == with_regs(old(e)@, (Registers { f: spec_flags(old(e)@.registers.l & 0x08 == 0, false, true, spec_carry(old(e)@.registers.f)), ..old(e)@.registers })),
{
    let v = e.registers.l;
    let c = e.registers.is_flag_set(FLAG_CARRY);
    e.registers.f = flags_byte(v & 0x08 == 0, false, true, c);
}

/// `BIT 3, (HL)`.
pub fn bit_3_hlp(e: &mut Emulator)
    requires
        old(e).wf(),
    ensures
        final(e).wf(),
        final(e)@ == with_regs(old(e)@, (Registers { f: final(e)@.registers.f, ..old(e)@.registers })),
        det_read(old(e)@.registers.spec_get_hl()) ==> final(e)@.registers.f == spec_flags(bus_read(old(e)@, old(e)@.registers.spec_get_hl()) & 0x08 == 0, false, true, spec_carry(old(e)@.registers.f)),
{
    let hl = e.registers.get_hl();
    let v = e.read_byte(hl);
    let c = e.registers.is_flag_set(FLAG_CARRY);
    e.registers.f = flags_byte(v & 0x08 == 0, false, true, c);
}

/// `BIT 3, A`: Zero reports the tested bit clear; Half-Carry set, Subtract cleared, Carry preserved.
pub fn bit_3_a(e: &mut Emulator)
    requires
        old(e).wf(),
    ensures
        final(e).wf(),
        final(e)@ == with_regs(old(e)@, (Registers { f: spec_flags(old(e)@.registers.a & 0x08 == 0, false, true, spec_carry(old(e)@.registers.f)), ..old(e)@.registers })),
{
    let v = e.registers.a;
    let c = e.registers.is_flag_set(FLAG_CARRY);
    e.registers.f = flags_byte(v & 0x08 == 0, false, true, c);
}

/// `BIT 4, B`: Zero reports the tested bit clear; Half-Carry set, Subtract cleared, Carry preserved.
pub fn bit_4_b(e: &mut Emulator)
    requires
        old(e).wf(),
    ensures
        final(e).wf(),
        final(e)@ == with_regs(old(e)@, (Registers { f: spec_flags(old(e)@.registers.b & 0x10 == 0, false, true, spec_carry(old(e)@.registers.f)), ..old(e)@.registers })),
{
    let v = e.registers.b;
    let c = e.registers.is_flag_set(FLAG_CARRY);
    e.registers.f = flags_byte(v & 0x10 == 0, false, true, c);
}

/// `BIT 4, C`: Zero reports the tested bit clear; Half-Carry set, Subtract cleared, Carry preserved.
pub fn bit_4_c(e: &mut Emulator)
    requires
        old(e).wf(),
    ensures
        final(e).wf(),
        final(e)@ == with_regs(old(e)@, (Registers { f: spec_flags(old(e)@.registers.c & 0x10 == 0, false, true, spec_carry(old(e)@.registers.f)), ..old(e)@.registers })),
{
    let v = e.registers.c;
    let c = e.registers.is_flag_set(FLAG_CARRY);
    e.registers.f = flags_byte(v & 0x10 == 0, false, true, c);
}

/// `BIT 4, D`: Zero reports the tested bit clear; Half-Carry set, Subtract cleared, Carry preserved.
pub fn bit_4_d(e: &mut Emulator)
    requires
        old(e).wf(),
    ensures
        final(e).wf(),
        final(e)@ == with_regs(old(e)@, (Registers { f: spec_flags(old(e)@.registers.d & 0x10 == 0, false, true, spec_carry(old(e)@.registers.f)), ..old(e)@.registers })),
{
    let v = e.registers.d;
    let c = e.registers.is_flag_set(FLAG_CARRY);
    e.registers.f = flags_byte(v & 0x10 == 0, false, true, c);
}

/// `BIT 4, E`: Zero reports the tested bit clear; Half-Carry set, Subtract cleared, Carry preserved.
pub fn bit_4_e(e: &mut Emulator)
    requires
        old(e).wf(),
    ensures
        final(e).wf(),
        final(e)@ == with_regs(old(e)@, (Registers { f: spec_flags(old(e)@.registers.e & 0x10 == 0, false, true, spec_carry(old(e)@.registers.f)), ..old(e)@.registers })),
{
    let v = e.registers.e;
    let c = e.registers.is_flag_set(FLAG_CARRY);
    e.registers.f = flags_byte(v & 0x10 == 0, false, true, c);
}

/// `BIT 4, H`: Zero reports the tested bit clear; Half-Carry set, Subtract cleared, Carry preserved.
pub fn bit_4_h(e: &mut Emulator)
    requires
        old(e).wf(),
    ensures
        final(e).wf(),
        final(e)@ == with_regs(old(e)@, (Registers { f: spec_flags(old(e)@.registers.h & 0x10 == 0, false, true, spec_carry(old(e)@.registers.f)), ..old(e)@.registers })),
{
    let v = e.registers.h;
    let c = e.registers.is_flag_set(FLAG_CARRY);
    e.registers.f = flags_byte(v & 0x10 == 0, false, true, c);
}

/// `BIT 4, L`: Zero reports the tested bit clear; Half-Carry set, Subtract cleared, Carry preserved.
pub fn bit_4_l(e: &mut Emulator)
    requires
        old(e).wf(),
    ensures
        final(e).wf(),
        final(e)@ == with_regs(old(e)@, (Registers { f: spec_flags(old(e)@.registers.l & 0x10 == 0, false, true, spec_carry(old(e)@.registers.f)), ..old(e)@.registers })),
{
    let v = e.registers.l;
    let c = e.registers.is_flag_set(FLAG_CARRY);
    e.registers.f = flags_byte(v & 0x10 == 0, false, true, c);
}

/// `BIT 4, (HL)`.
pub fn bit_4_hlp(e: &mut Emulator)
    requires
        old(e).wf(),
    ensures
        final(e).wf(),
        final(e)@ == with_regs(old(e)@, (Registers { f: final(e)@.registers.f, ..old(e)@.registers })),
        det_read(old(e)@.registers.spec_get_hl()) ==> final(e)@.registers.f == spec_flags(bus_read(old(e)@, old(e)@.registers.spec_get_hl()) & 0x10 == 0, false, true, spec_carry(old(e)@.registers.f)),
{
    let hl = e.registers.get_hl();
    let v = e.read_byte(hl);
    let c = e.registers.is_flag_set(FLAG_CARRY);
    e.registers.f = flags_byte(v & 0x10 == 0, false, true, c);
}

/// `BIT 4, A`: Zero reports the tested bit clear; Half-Carry set, Subtract cleared, Carry preserved.
pub fn bit_4_a(e: &mut Emulator)
    requires
        old(e).wf(),
    ensures
        final(e).wf(),
        final(e)@ == with_regs(old(e)@, (Registers { f: spec_flags(old(e)@.registers.a & 0x10 == 0, false, true, spec_carry(old(e)@.registers.f)), ..old(e)@.registers })),
{
    let v = e.registers.a;
    let c = e.registers.is_flag_set(FLAG_CARRY);
    e.registers.f = flags_byte(v & 0x10 == 0, false, true, c);
}

/// `BIT 5, B`: Zero reports the tested bit clear; Half-Carry set, Subtract cleared, Carry preserved.
pub fn bit_5_b(e: &mut Emulator)
    requires
        old(e).wf(),
    ensures
        final(e).wf(),
        final(e)@ == with_regs(old(e)@, (Registers { f: spec_flags(old(e)@.registers.b & 0x20 == 0, false, true, spec_carry(old(e)@.registers.f)), ..old(e)@.registers })),
{
    let v = e.registers.b;
    let c = e.registers.is_flag_set(FLAG_CARRY);
    e.registers.f = flags_byte(v & 0x20 == 0, false, true, c);
}

/// `BIT 5, C`: Zero reports the tested bit clear; Half-Carry set, Subtract cleared, Carry preserved.
pub fn bit_5_c(e: &mut Emulator)
    requires
        old(e).wf(),
    ensures
        final(e).wf(),
        final(e)@ == with_regs(old(e)@, (Registers { f: spec_flags(old(e)@.registers.c & 0x20 == 0, false, true, spec_carry(old(e)@.registers.f)), ..old(e)@.registers })),
{
    let v = e.registers.c;
    let c = e.registers.is_flag_set(FLAG_CARRY);
    e.registers.f = flags_byte(v & 0x20 == 0, false, true, c);
}

/// `BIT 5, D`: Zero reports the tested bit clear; Half-Carry set, Subtract cleared, Carry preserved.
pub fn bit_5_d(e: &mut Emulator)
    requires
        old(e).wf(),
    ensures
        final(e).wf(),
        final(e)@ == with_regs(old(e)@, (Registers { f: spec_flags(old(e)@.registers.d & 0x20 == 0, false, true, spec_carry(old(e)@.registers.f)), ..old(e)@.registers })),
{
    let v = e.registers.d;
    let c = e.registers.is_flag_set(FLAG_CARRY);
    e.registers.f = flags_byte(v & 0x20 == 0, false, true, c);
}

/// `BIT 5, E`: Zero reports the tested bit clear; Half-Carry set, Subtract cleared, Carry preserved.
pub fn bit_5_e(e: &mut Emulator)
    requires
        old(e).wf(),
    ensures
        final(e).wf(),
        final(e)@ == with_regs(old(e)@, (Registers { f: spec_flags(old(e)@.registers.e & 0x20 == 0, false, true, spec_carry(old(e)@.registers.f)), ..old(e)@.registers })),
{
    let v = e.registers.e;
    let c = e.registers.is_flag_set(FLAG_CARRY);
    e.registers.f = flags_byte(v & 0x20 == 0, false, true, c);
}

/// `BIT 5, H`: Zero reports the tested bit clear; Half-Carry set, Subtract cleared, Carry preserved.
pub fn bit_5_h(e: &mut Emulator)
    requires
        old(e).wf(),
    ensures
        final(e).wf(),
        final(e)@ == with_regs(old(e)@, (Registers { f: spec_flags(old(e)@.registers.h & 0x20 == 0, false, true, spec_carry(old(e)@.registers.f)), ..old(e)@.registers })),
{
    let v = e.registers.h;
    let c = e.registers.is_flag_set(FLAG_CARRY);
    e.registers.f = flags_byte(v & 0x20 == 0, false, true, c);
}

/// `BIT 5, L`: Zero reports the tested bit clear; Half-Carry set, Subtract cleared, Carry preserved.
pub fn bit_5_l(e: &mut Emulator)
    requires
        old(e).wf(),
    ensures
        final(e).wf(),
        final(e)@ == with_regs(old(e)@, (Registers { f: spec_flags(old(e)@.registers.l & 0x20 == 0, false, true, spec_carry(old(e)@.registers.f)), ..old(e)@.registers })),
{
    let v = e.registers.l;
    let c = e.registers.is_flag_set(FLAG_CARRY);
    e.registers.f = flags_byte(v & 0x20 == 0, false, true, c);
}

/// `BIT 5, (HL)`.
pub fn bit_5_hlp(e: &mut Emulator)
    requires
        old(e).wf(),
    ensures
        final(e).wf(),
        final(e)@ == with_regs(old(e)@, (Registers { f: final(e)@.registers.f, ..old(e)@.registers })),
        det_read(old(e)@.registers.spec_get_hl()) ==> final(e)@.registers.f == spec_flags(bus_read(old(e)@, old(e)@.registers.spec_get_hl()) & 0x20 == 0, false, true, spec_carry(old(e)@.registers.f)),
{
    let hl = e.registers.get_hl();
    let v = e.read_byte(hl);
    let c = e.registers.is_flag_set(FLAG_CARRY);
    e.registers.f = flags_byte(v & 0x20 == 0, false, true, c);
}

/// `BIT 5, A`: Zero reports the tested bit clear; Half-Carry set, Subtract cleared, Carry preserved.
pub fn bit_5_a(e: &mut Emulator)
    requires
        old(e).wf(),
    ensures
        final(e).wf(),
        final(e)@ == with_regs(old(e)@, (Registers { f: spec_flags(old(e)@.registers.a & 0x20 == 0, false, true, spec_carry(old(e)@.registers.f)), ..old(e)@.registers })),
{
    let v = e.registers.a;
    let c = e.registers.is_flag_set(FLAG_CARRY);
    e.registers.f = flags_byte(v & 0x20 == 0, false, true, c);
}

/// `BIT 6, B`: Zero reports the tested bit clear; Half-Carry set, Subtract cleared, Carry preserved.
pub fn bit_6_b(e: &mut Emulator)
    requires
        old(e).wf(),
    ensures
        final(e).wf(),
        final(e)@ == with_regs(old(e)@, (Registers { f: spec_flags(old(e)@.registers.b & 0x40 == 0, false, true, spec_carry(old(e)@.registers.f)), ..old(e)@.registers })),
{
    let v = e.registers.b;
    let c = e.registers.is_flag_set(FLAG_CARRY);
    e.registers.f = flags_byte(v & 0x40 == 0, false, true, c);
}

/// `BIT 6, C`: Zero reports the tested bit clear; Half-Carry set, Subtract cleared, Carry preserved.
pub fn bit_6_c(e: &mut Emulator)
    requires
        old(e).wf(),
    ensures
        final(e).wf(),
        final(e)@ == with_regs(old(e)@, (Registers { f: spec_flags(old(e)@.registers.c & 0x40 == 0, false, true, spec_carry(old(e)@.registers.f)), ..old(e)@.registers })),
{
    let v = e.registers.c;
    let c = e.registers.is_flag_set(FLAG_CARRY);
    e.registers.f = flags_byte(v & 0x40 == 0, false, true, c);
}

/// `BIT 6, D`: Zero reports the tested bit clear; Half-Carry set, Subtract cleared, Carry preserved.
pub fn bit_6_d(e: &mut Emulator)
    requires
        old(e).wf(),
    ensures
        final(e).wf(),
        final(e)@ == with_regs(old(e)@, (Registers { f: spec_flags(old(e)@.registers.d & 0x40 == 0, false, true, spec_carry(old(e)@.registers.f)), ..old(e)@.registers })),
{
    let v = e.registers.d;
    let c = e.registers.is_flag_set(FLAG_CARRY);
    e.registers.f = flags_byte(v & 0x40 == 0, false, true, c);
}

/// `BIT 6, E`: Zero reports the tested bit clear; Half-Carry set, Subtract cleared, Carry preserved.
pub fn bit_6_e(e: &mut Emulator)
    requires
        old(e).wf(),
    ensures
        final(e).wf(),
        final(e)@ == with_regs(old(e)@, (Registers { f: spec_flags(old(e)@.registers.e & 0x40 == 0, false, true, spec_carry(old(e)@.registers.f)), ..old(e)@.registers })),
{
    let v = e.registers.e;
    let c = e.registers.is_flag_set(FLAG_CARRY);
    e.registers.f = flags_byte(v & 0x40 == 0, false, true, c);
}

/// `BIT 6, H`: Zero reports the tested bit clear; Half-Carry set, Subtract cleared, Carry preserved.
pub fn bit_6_h(e: &mut Emulator)
    requires
        old(e).wf(),
    ensures
        final(e).wf(),
        final(e)@ == with_regs(old(e)@, (Registers { f: spec_flags(old(e)@.registers.h & 0x40 == 0, false, true, spec_carry(old(e)@.registers.f)), ..old(e)@.registers })),
{
    let v = e.registers.h;
    let c = e.registers.is_flag_set(FLAG_CARRY);
    e.registers.f = flags_byte(v & 0x40 == 0, false, true, c);
}

/// `BIT 6, L`: Zero reports the tested bit clear; Half-Carry set, Subtract cleared, Carry preserved.
pub fn bit_6_l(e: &mut Emulator)
    requires
        old(e).wf(),
    ensures
        final(e).wf(),
        final(e)@ == with_regs(old(e)@, (Registers { f: spec_flags(old(e)@.registers.l & 0x40 == 0, false, true, spec_carry(old(e)@.registers.f)), ..old(e)@.registers })),
{
    let v = e.registers.l;
    let c = e.registers.is_flag_set(FLAG_CARRY);
    e.registers.f = flags_byte(v & 0x40 == 0, false, true, c);
}

/// `BIT 6, (HL)`.
pub fn bit_6_hlp(e: &mut Emulator)
    requires
        old(e).wf(),
    ensures
        final(e).wf(),
        final(e)@ == with_regs(old(e)@, (Registers { f: final(e)@.registers.f, ..old(e)@.registers })),
        det_read(old(e)@.registers.spec_get_hl()) ==> final(e)@.registers.f == spec_flags(bus_read(old(e)@, old(e)@.registers.spec_get_hl()) & 0x40 == 0, false, true, spec_carry(old(e)@.registers.f)),
{
    let hl = e.registers.get_hl();
    let v = e.read_byte(hl);
    let c = e.registers.is_flag_set(FLAG_CARRY);
    e.registers.f = flags_byte(v & 0x40 == 0, false, true, c);
}

/// `BIT 6, A`: Zero reports the tested bit clear; Half-Carry set, Subtract cleared, Carry preserved.
pub fn bit_6_a(e: &mut Emulator)
    requires
        old(e).wf(),
    ensures
        final(e).wf(),
        final(e)@ == with_regs(old(e)@, (Registers { f: spec_flags(old(e)@.registers.a & 0x40 == 0, false, true, spec_carry(old(e)@.registers.f)), ..old(e)@.registers })),
{
    let v = e.registers.a;
    let c = e.registers.is_flag_set(FLAG_CARRY);
    e.registers.f = flags_byte(v & 0x40 == 0, false, true, c);
}

/// `BIT 7, B`: Zero reports the tested bit clear; Half-Carry set, Subtract cleared, Carry preserved.
pub fn bit_7_b(e: &mut Emulator)
    requires
        old(e).wf(),
    ensures
        final(e).wf(),
        final(e)@ == with_regs(old(e)@, (Registers { f: spec_flags(old(e)@.registers.b & 0x80 == 0, false, true, spec_carry(old(e)@.registers.f)), ..old(e)@.registers })),
{
    let v = e.registers.b;
    let c = e.registers.is_flag_set(FLAG_CARRY);
    e.registers.f = flags_byte(v & 0x80 == 0, false, true, c);
}

/// `BIT 7, C`: Zero reports the tested bit clear; Half-Carry set, Subtract cleared, Carry preserved.
pub fn bit_7_c(e: &mut Emulator)
    requires
        old(e).wf(),
    ensures
        final(e).wf(),
        final(e)@ == with_regs(old(e)@, (Registers { f: spec_flags(old(e)@.registers.c & 0x80 == 0, false, true, spec_carry(old(e)@.registers.f)), ..old(e)@.registers })),
{
    let v = e.registers.c;
    let c = e.registers.is_flag_set(FLAG_CARRY);
    e.registers.f = flags_byte(v & 0x80 == 0, false, true, c);
}

/// `BIT 7, D`: Zero reports the tested bit clear; Half-Carry set, Subtract cleared, Carry preserved.
pub fn bit_7_d(e: &mut Emulator)
    requires
        old(e).wf(),
    ensures
        final(e).wf(),
        final(e)@ == with_regs(old(e)@, (Registers { f: spec_flags(old(e)@.registers.d & 0x80 == 0, false, true, spec_carry(old(e)@.registers.f)), ..old(e)@.registers })),
{
    let v = e.registers.d;
    let c = e.registers.is_flag_set(FLAG_CARRY);
    e.registers.f = flags_byte(v & 0x80 == 0, false, true, c);
}

/// `BIT 7, E`: Zero reports the tested bit clear; Half-Carry set, Subtract cleared, Carry preserved.
pub fn bit_7_e(e: &mut Emulator)
    requires
        old(e).wf(),
    ensures
        final(e).wf(),
        final(e)@ == with_regs(old(e)@, (Registers { f: spec_flags(old(e)@.registers.e & 0x80 == 0, false, true, spec_carry(old(e)@.registers.f)), ..old(e)@.registers })),
{
    let v = e.registers.e;
    let c = e.registers.is_flag_set(FLAG_CARRY);
    e.registers.f = flags_byte(v & 0x80 == 0, false, true, c);
}

/// `BIT 7, H`: Zero reports the tested bit clear; Half-Carry set, Subtract cleared, Carry preserved.
pub fn bit_7_h(e: &mut Emulator)
    requires
        old(e).wf(),
    ensures
        final(e).wf(),
        final(e)@ == with_regs(old(e)@, (Registers { f: spec_flags(old(e)@.registers.h & 0x80 == 0, false, true, spec_carry(old(e)@.registers.f)), ..old(e)@.registers })),
{
    let v = e.registers.h;
    let c = e.registers.is_flag_set(FLAG_CARRY);
    e.registers.f = flags_byte(v & 0x80 == 0, false, true, c);
}

/// `BIT 7, L`: Zero reports the tested bit clear; Half-Carry set, Subtract cleared, Carry preserved.
pub fn bit_7_l(e: &mut Emulator)
    requires
        old(e).wf(),
    ensures
        final(e).wf(),
        final(e)@ == with_regs(old(e)@, (Registers { f: spec_flags(old(e)@.registers.l & 0x80 == 0, false, true, spec_carry(old(e)@.registers.f)), ..old(e)@.registers })),
{
    let v = e.registers.l;
    let c = e.registers.is_flag_set(FLAG_CARRY);
    e.registers.f = flags_byte(v & 0x80 == 0, false, true, c);
}

/// `BIT 7, (HL)`.
pub fn bit_7_hlp(e: &mut Emulator)
    requires
        old(e).wf(),
    ensures
        final(e).wf(),
        final(e)@ == with_regs(old(e)@, (Registers { f: final(e)@.registers.f, ..old(e)@.registers })),
        det_read(old(e)@.registers.spec_get_hl()) ==> final(e)@.registers.f == spec_flags(bus_read(old(e)@, old(e)@.registers.spec_get_hl()) & 0x80 == 0, false, true, spec_carry(old(e)@.registers.f)),
{
    let hl = e.registers.get_hl();
    let v = e.read_byte(hl);
    let c = e.registers.is_flag_set(FLAG_CARRY);
    e.registers.f = flags_byte(v & 0x80 == 0, false, true, c);
}

/// `BIT 7, A`: Zero reports the tested bit clear; Half-Carry set, Subtract cleared, Carry preserved.
pub fn bit_7_a(e: &mut Emulator)
    requires
        old(e).wf(),
    ensures
        final(e).wf(),
        final(e)@ == with_regs(old(e)@, (Registers { f: spec_flags(old(e)@.registers.a & 0x80 == 0, false, true, spec_carry(old(e)@.registers.f)), ..old(e)@.registers })),
{
    let v = e.registers.a;
    let c = e.registers.is_flag_set(FLAG_CARRY);
    e.registers.f = flags_byte(v & 0x80 == 0, false, true, c);
}

/// `RES 0, B`: no flags change.
pub fn res_0_b(e: &mut Emulator)
    requires
        old(e).wf(),
    ensures
        final(e).wf(),
        final(e)@ == with_regs(old(e)@, (Registers { b: old(e)@.registers.b & !0x01u8, ..old(e)@.registers })),
{
    e.registers.b = e.registers.b & !0x01u8;
}

/// `RES 0, C`: no flags change.
pub fn res_0_c(e: &mut Emulator)
    requires
        old(e).wf(),
    ensures
        final(e).wf(),
        final(e)@ == with_regs(old(e)@, (Registers { c: old(e)@.registers.c & !0x01u8, ..old(e)@.registers })),
{
    e.registers.c = e.registers.c & !0x01u8;
}

/// `RES 0, D`: no flags change.
pub fn res_0_d(e: &mut Emulator)
    requires
        old(e).wf(),
    ensures
        final(e).wf(),
        final(e)@ == with_regs(old(e)@, (Registers { d: old(e)@.registers.d & !0x01u8, ..old(e)@.registers })),
{
    e.registers.d = e.registers.d & !0x01u8;
}

/// `RES 0, E`: no flags change.
pub fn res_0_e(e: &mut Emulator)
    requires
        old(e).wf(),
    ensures
        final(e).wf(),
        final(e)@ == with_regs(old(e)@, (Registers { e: old(e)@.registers.e & !0x01u8, ..old(e)@.registers })),
{
    e.registers.e = e.registers.e & !0x01u8;
}

/// `RES 0, H`: no flags change.
pub fn res_0_h(e: &mut Emulator)
    requires
        old(e).wf(),
    ensures
        final(e).wf(),
        final(e)@ == with_regs(old(e)@, (Registers { h: old(e)@.registers.h & !0x01u8, ..old(e)@.registers })),
{
    e.registers.h = e.registers.h & !0x01u8;
}

/// `RES 0, L`: no flags change.
pub fn res_0_l(e: &mut Emulator)
    requires
        old(e).wf(),
    ensures
        final(e).wf(),
        final(e)@ == with_regs(old(e)@, (Registers { l: old(e)@.registers.l & !0x01u8, ..old(e)@.registers })),
{
    e.registers.l = e.registers.l & !0x01u8;
}

/// `RES 0, (HL)`: rewrites the byte at HL in place; no flags change.
pub fn res_0_hlp(e: &mut Emulator)
    requires
        old(e).wf(),
    ensures
        final(e).wf(),
        final(e)@.cpu == old(e)@.cpu,
        final(e)@.registers == old(e)@.registers,
        det_read(old(e)@.registers.spec_get_hl()) ==> bus_write_ok(old(e)@, old(e)@.registers.spec_get_hl(), bus_read(old(e)@, old(e)@.registers.spec_get_hl()) & !0x01u8, final(e)@),
{
    let hl = e.registers.get_hl();
    let v = e.read_byte(hl);
    let t = v & !0x01u8;
    e.write_byte(hl, t);
}

/// `RES 0, A`: no flags change.
pub fn res_0_a(e: &mut Emulator)
    requires
        old(e).wf(),
    ensures
        final(e).wf(),
        final(e)@ == with_regs(old(e)@, (Registers { a: old(e)@.registers.a & !0x01u8, ..old(e)@.registers })),
{
    e.registers.a = e.registers.a & !0x01u8;
}

/// `RES 1, B`: no flags change.
pub fn res_1_b(e: &mut Emulator)
    requires
        old(e).wf(),
    ensures
        final(e).wf(),
        final(e)@ == with_regs(old(e)@, (Registers { b: old(e)@.registers.b & !0x02u8, ..old(e)@.registers })),
{
    e.registers.b = e.registers.b & !0x02u8;
}

/// `RES 1, C`: no flags change.
pub fn res_1_c(e: &mut Emulator)
    requires
        old(e).wf(),
    ensures
        final(e).wf(),
        final(e)@ == with_regs(old(e)@, (Registers { c: old(e)@.registers.c & !0x02u8, ..old(e)@.registers })),
{
    e.registers.c = e.registers.c & !0x02u8;
}

/// `RES 1, D`: no flags change.
pub fn res_1_d(e: &mut Emulator)
    requires
        old(e).wf(),
    ensures
        final(e).wf(),
        final(e)@ == with_regs(old(e)@, (Registers { d: old(e)@.registers.d & !0x02u8, ..old(e)@.registers })),
{
    e.registers.d = e.registers.d & !0x02u8;
}

/// `RES 1, E`: no flags change.
pub fn res_1_e(e: &mut Emulator)
    requires
        old(e).wf(),
    ensures
        final(e).wf(),
        final(e)@ == with_regs(old(e)@, (Registers { e: old(e)@.registers.e & !0x02u8, ..old(e)@.registers })),
{
    e.registers.e = e.registers.e & !0x02u8;
}

/// `RES 1, H`: no flags change.
pub fn res_1_h(e: &mut Emulator)
    requires
        old(e).wf(),
    ensures
        final(e).wf(),
        final(e)@ == with_regs(old(e)@, (Registers { h: old(e)@.registers.h & !0x02u8, ..old(e)@.registers })),
{
    e.registers.h = e.registers.h & !0x02u8;
}

/// `RES 1, L`: no flags change.
pub fn res_1_l(e: &mut Emulator)
    requires
        old(e).wf(),
    ensures
        final(e).wf(),
        final(e)@ == with_regs(old(e)@, (Registers { l: old(e)@.registers.l & !0x02u8, ..old(e)@.registers })),
{
    e.registers.l = e.registers.l & !0x02u8;
}

/// `RES 1, (HL)`: rewrites the byte at HL in place; no flags change.
pub fn res_1_hlp(e: &mut Emulator)
    requires
        old(e).wf(),
    ensures
        final(e).wf(),
        final(e)@.cpu == old(e)@.cpu,
        final(e)@.registers == old(e)@.registers,
        det_read(old(e)@.registers.spec_get_hl()) ==> bus_write_ok(old(e)@, old(e)@.registers.spec_get_hl(), bus_read(old(e)@, old(e)@.registers.spec_get_hl()) & !0x02u8, final(e)@),
{
    let hl = e.registers.get_hl();
    let v = e.read_byte(hl);
    let t = v & !0x02u8;
    e.write_byte(hl, t);
}

/// `RES 1, A`: no flags change.
pub fn res_1_a(e: &mut Emulator)
    requires
        old(e).wf(),
    ensures
        final(e).wf(),
        final(e)@ == with_regs(old(e)@, (Registers { a: old(e)@.registers.a & !0x02u8, ..old(e)@.registers })),
{
    e.registers.a = e.registers.a & !0x02u8;
}

/// `RES 2, B`: no flags change.
pub fn res_2_b(e: &mut Emulator)
    requires
        old(e).wf(),
    ensures
        final(e).wf(),
        final(e)@ == with_regs(old(e)@, (Registers { b: old(e)@.registers.b & !0x04u8, ..old(e)@.registers })),
{
    e.registers.b = e.registers.b & !0x04u8;
}

/// `RES 2, C`: no flags change.
pub fn res_2_c(e: &mut Emulator)
    requires
        old(e).wf(),
    ensures
        final(e).wf(),
        final(e)@ == with_regs(old(e)@, (Registers { c: old(e)@.registers.c & !0x04u8, ..old(e)@.registers })),
{
    e.registers.c = e.registers.c & !0x04u8;
}

/// `RES 2, D`: no flags change.
pub fn res_2_d(e: &mut Emulator)
    requires
        old(e).wf(),
    ensures
        final(e).wf(),
        final(e)@ == with_regs(old(e)@, (Registers { d: old(e)@.registers.d & !0x04u8, ..old(e)@.registers })),
{
    e.registers.d = e.registers.d & !0x04u8;
}

/// `RES 2, E`: no flags change.
pub fn res_2_e(e: &mut Emulator)
    requires
        old(e).wf(),
    ensures
        final(e).wf(),
        final(e)@ == with_regs(old(e)@, (Registers { e: old(e)@.registers.e & !0x04u8, ..old(e)@.registers })),
{
    e.registers.e = e.registers.e & !0x04u8;
}

/// `RES 2, H`: no flags change.
pub fn res_2_h(e: &mut Emulator)
    requires
        old(e).wf(),
    ensures
        final(e).wf(),
        final(e)@ == with_regs(old(e)@, (Registers { h: old(e)@.registers.h & !0x04u8, ..old(e)@.registers })),
{
    e.registers.h = e.registers.h & !0x04u8;
}

/// `RES 2, L`: no flags change.
pub fn res_2_l(e: &mut Emulator)
    requires
        old(e).wf(),
    ensures
        final(e).wf(),
        final(e)@ == with_regs(old(e)@, (Registers { l: old(e)@.registers.l & !0x04u8, ..old(e)@.registers })),
{
    e.registers.l = e.registers.l & !0x04u8;
}

/// `RES 2, (HL)`: rewrites the byte at HL in place; no flags change.
pub fn res_2_hlp(e: &mut Emulator)
    requires
        old(e).wf(),
    ensures
        final(e).wf(),
        final(e)@.cpu == old(e)@.cpu,
        final(e)@.registers == old(e)@.registers,
        det_read(old(e)@.registers.spec_get_hl()) ==> bus_write_ok(old(e)@, old(e)@.registers.spec_get_hl(), bus_read(old(e)@, old(e)@.registers.spec_get_hl()) & !0x04u8, final(e)@),
{
    let hl = e.registers.get_hl();
    let v = e.read_byte(hl);
    let t = v & !0x04u8;
    e.write_byte(hl, t);
}

/// `RES 2, A`: no flags change.
pub fn res_2_a(e: &mut Emulator)
    requires
        old(e).wf(),
    ensures
        final(e).wf(),
        final(e)@ == with_regs(old(e)@, (Registers { a: old(e)@.registers.a & !0x04u8, ..old(e)@.registers })),
{
    e.registers.a = e.registers.a & !0x04u8;
}

/// `RES 3, B`: no flags change.
pub fn res_3_b(e: &mut Emulator)
    requires
        old(e).wf(),
    ensures
        final(e).wf(),
        final(e)@ == with_regs(old(e)@, (Registers { b: old(e)@.registers.b & !0x08u8, ..old(e)@.registers })),
{
    e.registers.b = e.registers.b & !0x08u8;
}

/// `RES 3, C`: no flags change.
pub fn res_3_c(e: &mut Emulator)
    requires
        old(e).wf(),
    ensures
        final(e).wf(),
        final(e)@ == with_regs(old(e)@, (Registers { c: old(e)@.registers.c & !0x08u8, ..old(e)@.registers })),
{
    e.registers.c = e.registers.c & !0x08u8;
}

/// `RES 3, D`: no flags change.
pub fn res_3_d(e: &mut Emulator)
    requires
        old(e).wf(),
    ensures
        final(e).wf(),
        final(e)@ == with_regs(old(e)@, (Registers { d: old(e)@.registers.d & !0x08u8, ..old(e)@.registers })),
{
    e.registers.d = e.registers.d & !0x08u8;
}

/// `RES 3, E`: no flags change.
pub fn res_3_e(e: &mut Emulator)
    requires
        old(e).wf(),
    ensures
        final(e).wf(),
        final(e)@ == with_regs(old(e)@, (Registers { e: old(e)@.registers.e & !0x08u8, ..old(e)@.registers })),
{
    e.registers.e = e.registers.e & !0x08u8;
}

/// `RES 3, H`: no flags change.
pub fn res_3_h(e: &mut Emulator)
    requires
        old(e).wf(),
    ensures
        final(e).wf(),
        final(e)@ == with_regs(old(e)@, (Registers { h: old(e)@.registers.h & !0x08u8, ..old(e)@.registers })),
{
    e.registers.h = e.registers.h & !0x08u8;
}

/// `RES 3, L`: no flags change.
pub fn res_3_l(e: &mut Emulator)
    requires
        old(e).wf(),
    ensures
        final(e).wf(),
        final(e)@ == with_regs(old(e)@, (Registers { l: old(e)@.registers.l & !0x08u8, ..old(e)@.registers })),
{
    e.registers.l = e.registers.l & !0x08u8;
}

/// `RES 3, (HL)`: rewrites the byte at HL in place; no flags change.
pub fn res_3_hlp(e: &mut Emulator)
    requires
        old(e).wf(),
    ensures
        final(e).wf(),
        final(e)@.cpu == old(e)@.cpu,
        final(e)@.registers == old(e)@.registers,
        det_read(old(e)@.registers.spec_get_hl()) ==> bus_write_ok(old(e)@, old(e)@.registers.spec_get_hl(), bus_read(old(e)@, old(e)@.registers.spec_get_hl()) & !0x08u8, final(e)@),
{
    let hl = e.registers.get_hl();
    let v = e.read_byte(hl);
    let t = v & !0x08u8;
    e.write_byte(hl, t);
}

/// `RES 3, A`: no flags change.
pub fn res_3_a(e: &mut Emulator)
    requires
        old(e).wf(),
    ensures
        final(e).wf(),
        final(e)@ == with_regs(old(e)@, (Registers { a: old(e)@.registers.a & !0x08u8, ..old(e)@.registers })),
{
    e.registers.a = e.registers.a & !0x08u8;
}

/// `RES 4, B`: no flags change.
pub fn res_4_b(e: &mut Emulator)
    requires
        old(e).wf(),
    ensures
        final(e).wf(),
        final(e)@ == with_regs(old(e)@, (Registers { b: old(e)@.registers.b & !0x10u8, ..old(e)@.registers })),
{
    e.registers.b = e.registers.b & !0x10u8;
}

/// `RES 4, C`: no flags change.
pub fn res_4_c(e: &mut Emulator)
    requires
        old(e).wf(),
    ensures
        final(e).wf(),
        final(e)@ == with_regs(old(e)@, (Registers { c: old(e)@.registers.c & !0x10u8, ..old(e)@.registers })),
{
    e.registers.c = e.registers.c & !0x10u8;
}

/// `RES 4, D`: no flags change.
pub fn res_4_d(e: &mut Emulator)
    requires
        old(e).wf(),
    ensures
        final(e).wf(),
        final(e)@ == with_regs(old(e)@, (Registers { d: old(e)@.registers.d & !0x10u8, ..old(e)@.registers })),
{
    e.registers.d = e.registers.d & !0x10u8;
}

/// `RES 4, E`: no flags change.
pub fn res_4_e(e: &mut Emulator)
    requires
        old(e).wf(),
    ensures
        final(e).wf(),
        final(e)@ == with_regs(old(e)@, (Registers { e: old(e)@.registers.e & !0x10u8, ..old(e)@.registers })),
{
    e.registers.e = e.registers.e & !0x10u8;
}

/// `RES 4, H`: no flags change.
pub fn res_4_h(e: &mut Emulator)
    requires
        old(e).wf(),
    ensures
        final(e).wf(),
        final(e)@ == with_regs(old(e)@, (Registers { h: old(e)@.registers.h & !0x10u8, ..old(e)@.registers })),
{
    e.registers.h = e.registers.h & !0x10u8;
}

/// `RES 4, L`: no flags change.
pub fn res_4_l(e: &mut Emulator)
    requires
        old(e).wf(),
    ensures
        final(e).wf(),
        final(e)@ == with_regs(old(e)@, (Registers { l: old(e)@.registers.l & !0x10u8, ..old(e)@.registers })),
{
    e.registers.l = e.registers.l & !0x10u8;
}

/// `RES 4, (HL)`: rewrites the byte at HL in place; no flags change.
pub fn res_4_hlp(e: &mut Emulator)
    requires
        old(e).wf(),
    ensures
        final(e).wf(),
        final(e)@.cpu == old(e)@.cpu,
        final(e)@.registers == old(e)@.registers,
        det_read(old(e)@.registers.spec_get_hl()) ==> bus_write_ok(old(e)@, old(e)@.registers.spec_get_hl(), bus_read(old(e)@, old(e)@.registers.spec_get_hl()) & !0x10u8, final(e)@),
{
    let hl = e.registers.get_hl();
    let v = e.read_byte(hl);
    let t = v & !0x10u8;
    e.write_byte(hl, t);
}

/// `RES 4, A`: no flags change.
pub fn res_4_a(e: &mut Emulator)
    requires
        old(e).wf(),
    ensures
        final(e).wf(),
        final(e)@ == with_regs(old(e)@, (Registers { a: old(e)@.registers.a & !0x10u8, ..old(e)@.registers })),
{
    e.registers.a = e.registers.a & !0x10u8;
}

/// `RES 5, B`: no flags change.
pub fn res_5_b(e: &mut Emulator)
    requires
        old(e).wf(),
    ensures
        final(e).wf(),
        final(e)@ == with_regs(old(e)@, (Registers { b: old(e)@.registers.b & !0x20u8, ..old(e)@.registers })),
{
    e.registers.b = e.registers.b & !0x20u8;
}

/// `RES 5, C`: no flags change.
pub fn res_5_c(e: &mut Emulator)
    requires
        old(e).wf(),
    ensures
        final(e).wf(),
        final(e)@ == with_regs(old(e)@, (Registers { c: old(e)@.registers.c & !0x20u8, ..old(e)@.registers })),
{
    e.registers.c = e.registers.c & !0x20u8;
}

/// `RES 5, D`: no flags change.
pub fn res_5_d(e: &mut Emulator)
    requires
        old(e).wf(),
    ensures
        final(e).wf(),
        final(e)@ == with_regs(old(e)@, (Registers { d: old(e)@.registers.d & !0x20u8, ..old(e)@.registers })),
{
    e.registers.d = e.registers.d & !0x20u8;
}

/// `RES 5, E`: no flags change.
pub fn res_5_e(e: &mut Emulator)
    requires
        old(e).wf(),
    ensures
        final(e).wf(),
        final(e)@ == with_regs(old(e)@, (Registers { e: old(e)@.registers.e & !0x20u8, ..old(e)@.registers })),
{
    e.registers.e = e.registers.e & !0x20u8;
}

/// `RES 5, H`: no flags change.
pub fn res_5_h(e: &mut Emulator)
    requires
        old(e).wf(),
    ensures
        final(e).wf(),
        final(e)@ == with_regs(old(e)@, (Registers { h: old(e)@.registers.h & !0x20u8, ..old(e)@.registers })),
{
    e.registers.h = e.registers.h & !0x20u8;
}

/// `RES 5, L`: no flags change.
pub fn res_5_l(e: &mut Emulator)
    requires
        old(e).wf(),
    ensures
        final(e).wf(),
        final(e)@ == with_regs(old(e)@, (Registers { l: old(e)@.registers.l & !0x20u8, ..old(e)@.registers })),
{
    e.registers.l = e.registers.l & !0x20u8;
}

/// `RES 5, (HL)`: rewrites the byte at HL in place; no flags change.
pub fn res_5_hlp(e: &mut Emulator)
    requires
        old(e).wf(),
    ensures
        final(e).wf(),
        final(e)@.cpu == old(e)@.cpu,
        final(e)@.registers == old(e)@.registers,
        det_read(old(e)@.registers.spec_get_hl()) ==> bus_write_ok(old(e)@, old(e)@.registers.spec_get_hl(), bus_read(old(e)@, old(e)@.registers.spec_get_hl()) & !0x20u8, final(e)@),
{
    let hl = e.registers.get_hl();
    let v = e.read_byte(hl);
    let t = v & !0x20u8;
    e.write_byte(hl, t);
}

/// `RES 5, A`: no flags change.
pub fn res_5_a(e: &mut Emulator)
    requires
        old(e).wf(),
    ensures
        final(e).wf(),
        final(e)@ == with_regs(old(e)@, (Registers { a: old(e)@.registers.a & !0x20u8, ..old(e)@.registers })),
{
    e.registers.a = e.registers.a & !0x20u8;
}

/// `RES 6, B`: no flags change.
pub fn res_6_b(e: &mut Emulator)
    requires
        old(e).wf(),
    ensures
        final(e).wf(),
        final(e)@ == with_regs(old(e)@, (Registers { b: old(e)@.registers.b & !0x40u8, ..old(e)@.registers })),
{
    e.registers.b = e.registers.b & !0x40u8;
}

/// `RES 6, C`: no flags change.
pub fn res_6_c(e: &mut Emulator)
    requires
        old(e).wf(),
    ensures
        final(e).wf(),
        final(e)@ == with_regs(old(e)@, (Registers { c: old(e)@.registers.c & !0x40u8, ..old(e)@.registers })),
{
    e.registers.c = e.registers.c & !0x40u8;
}

/// `RES 6, D`: no flags change.
pub fn res_6_d(e: &mut Emulator)
    requires
        old(e).wf(),
    ensures
        final(e).wf(),
        final(e)@ == with_regs(old(e)@, (Registers { d: old(e)@.registers.d & !0x40u8, ..old(e)@.registers })),
{
    e.registers.d = e.registers.d & !0x40u8;
}

/// `RES 6, E`: no flags change.
pub fn res_6_e(e: &mut Emulator)
    requires
        old(e).wf(),
    ensures
        final(e).wf(),
        final(e)@ == with_regs(old(e)@, (Registers { e: old(e)@.registers.e & !0x40u8, ..old(e)@.registers })),
{
    e.registers.e = e.registers.e & !0x40u8;
}

/// `RES 6, H`: no flags change.
pub fn res_6_h(e: &mut Emulator)
    requires
        old(e).wf(),
    ensures
        final(e).wf(),
        final(e)@ == with_regs(old(e)@, (Registers { h: old(e)@.registers.h & !0x40u8, ..old(e)@.registers })),
{
    e.registers.h = e.registers.h & !0x40u8;
}

/// `RES 6, L`: no flags change.
pub fn res_6_l(e: &mut Emulator)
    requires
        old(e).wf(),
    ensures
        final(e).wf(),
        final(e)@ == with_regs(old(e)@, (Registers { l: old(e)@.registers.l & !0x40u8, ..old(e)@.registers })),
{
    e.registers.l = e.registers.l & !0x40u8;
}

/// `RES 6, (HL)`: rewrites the byte at HL in place; no flags change.
pub fn res_6_hlp(e: &mut Emulator)
    requires
        old(e).wf(),
    ensures
        final(e).wf(),
        final(e)@.cpu == old(e)@.cpu,
        final(e)@.registers == old(e)@.registers,
        det_read(old(e)@.registers.spec_get_hl()) ==> bus_write_ok(old(e)@, old(e)@.registers.spec_get_hl(), bus_read(old(e)@, old(e)@.registers.spec_get_hl()) & !0x40u8, final(e)@),
{
    let hl = e.registers.get_hl();
    let v = e.read_byte(hl);
    let t = v & !0x40u8;
    e.write_byte(hl, t);
}

/// `RES 6, A`: no flags change.
pub fn res_6_a(e: &mut Emulator)
    requires
        old(e).wf(),
    ensures
        final(e).wf(),
        final(e)@ == with_regs(old(e)@, (Registers { a: old(e)@.registers.a & !0x40u8, ..old(e)@.registers })),
{
    e.registers.a = e.registers.a & !0x40u8;
}

/// `RES 7, B`: no flags change.
pub fn res_7_b(e: &mut Emulator)
    requires
        old(e).wf(),
    ensures
        final(e).wf(),
        final(e)@ == with_regs(old(e)@, (Registers { b: old(e)@.registers.b & !0x80u8, ..old(e)@.registers })),
{
    e.registers.b = e.registers.b & !0x80u8;
}

/// `RES 7, C`: no flags change.
pub fn res_7_c(e: &mut Emulator)
    requires
        old(e).wf(),
    ensures
        final(e).wf(),
        final(e)@ == with_regs(old(e)@, (Registers { c: old(e)@.registers.c & !0x80u8, ..old(e)@.registers })),
{
    e.registers.c = e.registers.c & !0x80u8;
}

/// `RES 7, D`: no flags change.
pub fn res_7_d(e: &mut Emulator)
    requires
        old(e).wf(),
    ensures
        final(e).wf(),
        final(e)@ == with_regs(old(e)@, (Registers { d: old(e)@.registers.d & !0x80u8, ..old(e)@.registers })),
{
    e.registers.d = e.registers.d & !0x80u8;
}

/// `RES 7, E`: no flags change.
pub fn res_7_e(e: &mut Emulator)
    requires
        old(e).wf(),
    ensures
        final(e).wf(),
        final(e)@ == with_regs(old(e)@, (Registers { e: old(e)@.registers.e & !0x80u8, ..old(e)@.registers })),
{
    e.registers.e = e.registers.e & !0x80u8;
}

/// `RES 7, H`: no flags change.
pub fn res_7_h(e: &mut Emulator)
    requires
        old(e).wf(),
    ensures
        final(e).wf(),
        final(e)@ == with_regs(old(e)@, (Registers { h: old(e)@.registers.h & !0x80u8, ..old(e)@.registers })),
{
    e.registers.h = e.registers.h & !0x80u8;
}

/// `RES 7, L`: no flags change.
pub fn res_7_l(e: &mut Emulator)
    requires
        old(e).wf(),
    ensures
        final(e).wf(),
        final(e)@ == with_regs(old(e)@, (Registers { l: old(e)@.registers.l & !0x80u8, ..old(e)@.registers })),
{
    e.registers.l = e.registers.l & !0x80u8;
}

/// `RES 7, (HL)`: rewrites the byte at HL in place; no flags change.
pub fn res_7_hlp(e: &mut Emulator)
    requires
        old(e).wf(),
    ensures
        final(e).wf(),
        final(e)@.cpu == old(e)@.cpu,
        final(e)@.registers == old(e)@.registers,
        det_read(old(e)@.registers.spec_get_hl()) ==> bus_write_ok(old(e)@, old(e)@.registers.spec_get_hl(), bus_read(old(e)@, old(e)@.registers.spec_get_hl()) & !0x80u8, final(e)@),
{
    let hl = e.registers.get_hl();
    let v = e.read_byte(hl);
    let t = v & !0x80u8;
    e.write_byte(hl, t);
}

/// `RES 7, A`: no flags change.
pub fn res_7_a(e: &mut Emulator)
    requires
        old(e).wf(),
    ensures
        final(e).wf(),
        final(e)@ == with_regs(old(e)@, (Registers { a: old(e)@.registers.a & !0x80u8, ..old(e)@.registers })),
{
    e.registers.a = e.registers.a & !0x80u8;
}

/// `SET 0, B`: no flags change.
pub fn set_0_b(e: &mut Emulator)
    requires
        old(e).wf(),
    ensures
        final(e).wf(),
        final(e)@ == with_regs(old(e)@, (Registers { b: old(e)@.registers.b | 0x01, ..old(e)@.registers })),
{
    e.registers.b = e.registers.b | 0x01;
}

/// `SET 0, C`: no flags change.
pub fn set_0_c(e: &mut Emulator)
    requires
        old(e).wf(),
    ensures
        final(e).wf(),
        final(e)@ == with_regs(old(e)@, (Registers { c: old(e)@.registers.c | 0x01, ..old(e)@.registers })),
{
    e.registers.c = e.registers.c | 0x01;
}

/// `SET 0, D`: no flags change.
pub fn set_0_d(e: &mut Emulator)
    requires
        old(e).wf(),
    ensures
        final(e).wf(),
        final(e)@ == with_regs(old(e)@, (Registers { d: old(e)@.registers.d | 0x01, ..old(e)@.registers })),
{
    e.registers.d = e.registers.d | 0x01;
}

/// `SET 0, E`: no flags change.
pub fn set_0_e(e: &mut Emulator)
    requires
        old(e).wf(),
    ensures
        final(e).wf(),
        final(e)@ == with_regs(old(e)@, (Registers { e: old(e)@.registers.e | 0x01, ..old(e)@.registers })),
{
    e.registers.e = e.registers.e | 0x01;
}

/// `SET 0, H`: no flags change.
pub fn set_0_h(e: &mut Emulator)
    requires
        old(e).wf(),
    ensures
        final(e).wf(),
        final(e)@ == with_regs(old(e)@, (Registers { h: old(e)@.registers.h | 0x01, ..old(e)@.registers })),
{
    e.registers.h = e.registers.h | 0x01;
}

/// `SET 0, L`: no flags change.
pub fn set_0_l(e: &mut Emulator)
    requires
        old(e).wf(),
    ensures
        final(e).wf(),
        final(e)@ == with_regs(old(e)@, (Registers { l: old(e)@.registers.l | 0x01, ..old(e)@.registers })),
{
    e.registers.l = e.registers.l | 0x01;
}

/// `SET 0, (HL)`: rewrites the byte at HL in place; no flags change.
pub fn set_0_hlp(e: &mut Emulator)
    requires
        old(e).wf(),
    ensures
        final(e).wf(),
        final(e)@.cpu == old(e)@.cpu,
        final(e)@.registers == old(e)@.registers,
        det_read(old(e)@.registers.spec_get_hl()) ==> bus_write_ok(old(e)@, old(e)@.registers.spec_get_hl(), bus_read(old(e)@, old(e)@.registers.spec_get_hl()) | 0x01, final(e)@),
{
    let hl = e.registers.get_hl();
    let v = e.read_byte(hl);
    let t = v | 0x01;
    e.write_byte(hl, t);
}

/// `SET 0, A`: no flags change.
pub fn set_0_a(e: &mut Emulator)
    requires
        old(e).wf(),
    ensures
        final(e).wf(),
        final(e)@ == with_regs(old(e)@, (Registers { a: old(e)@.registers.a | 0x01, ..old(e)@.registers })),
{
    e.registers.a = e.registers.a | 0x01;
}

/// `SET 1, B`: no flags change.
pub fn set_1_b(e: &mut Emulator)
    requires
        old(e).wf(),
    ensures
        final(e).wf(),
        final(e)@ == with_regs(old(e)@, (Registers { b: old(e)@.registers.b | 0x02, ..old(e)@.registers })),
{
    e.registers.b = e.registers.b | 0x02;
}

/// `SET 1, C`: no flags change.
pub fn set_1_c(e: &mut Emulator)
    requires
        old(e).wf(),
    ensures
        final(e).wf(),
        final(e)@ == with_regs(old(e)@, (Registers { c: old(e)@.registers.c | 0x02, ..old(e)@.registers })),
{
    e.registers.c = e.registers.c | 0x02;
}

/// `SET 1, D`: no flags change.
pub fn set_1_d(e: &mut Emulator)
    requires
        old(e).wf(),
    ensures
        final(e).wf(),
        final(e)@ == with_regs(old(e)@, (Registers { d: old(e)@.registers.d | 0x02, ..old(e)@.registers })),
{
    e.registers.d = e.registers.d | 0x02;
}

/// `SET 1, E`: no flags change.
pub fn set_1_e(e: &mut Emulator)
    requires
        old(e).wf(),
    ensures
        final(e).wf(),
        final(e)@ == with_regs(old(e)@, (Registers { e: old(e)@.registers.e | 0x02, ..old(e)@.registers })),
{
    e.registers.e = e.registers.e | 0x02;
}

/// `SET 1, H`: no flags change.
pub fn set_1_h(e: &mut Emulator)
    requires
        old(e).wf(),
    ensures
        final(e).wf(),
        final(e)@ == with_regs(old(e)@, (Registers { h: old(e)@.registers.h | 0x02, ..old(e)@.registers })),
{
    e.registers.h = e.registers.h | 0x02;
}

/// `SET 1, L`: no flags change.
pub fn set_1_l(e: &mut Emulator)
    requires
        old(e).wf(),
    ensures
        final(e).wf(),
        final(e)@ == with_regs(old(e)@, (Registers { l: old(e)@.registers.l | 0x02, ..old(e)@.registers })),
{
    e.registers.l = e.registers.l | 0x02;
}

/// `SET 1, (HL)`: rewrites the byte at HL in place; no flags change.
pub fn set_1_hlp(e: &mut Emulator)
    requires
        old(e).wf(),
    ensures
        final(e).wf(),
        final(e)@.cpu == old(e)@.cpu,
        final(e)@.registers == old(e)@.registers,
        det_read(old(e)@.registers.spec_get_hl()) ==> bus_write_ok(old(e)@, old(e)@.registers.spec_get_hl(), bus_read(old(e)@, old(e)@.registers.spec_get_hl()) | 0x02, final(e)@),
{
    let hl = e.registers.get_hl();
    let v = e.read_byte(hl);
    let t = v | 0x02;
    e.write_byte(hl, t);
}

/// `SET 1, A`: no flags change.
pub fn set_1_a(e: &mut Emulator)
    requires
        old(e).wf(),
    ensures
        final(e).wf(),
        final(e)@ == with_regs(old(e)@, (Registers { a: old(e)@.registers.a | 0x02, ..old(e)@.registers })),
{
    e.registers.a = e.registers.a | 0x02;
}

/// `SET 2, B`: no flags change.
pub fn set_2_b(e: &mut Emulator)
    requires
        old(e).wf(),
    ensures
        final(e).wf(),
        final(e)@ == with_regs(old(e)@, (Registers { b: old(e)@.registers.b | 0x04, ..old(e)@.registers })),
{
    e.registers.b = e.registers.b | 0x04;
}

/// `SET 2, C`: no flags change.
pub fn set_2_c(e: &mut Emulator)
    requires
        old(e).wf(),
    ensures
        final(e).wf(),
        final(e)@ == with_regs(old(e)@, (Registers { c: old(e)@.registers.c | 0x04, ..old(e)@.registers })),
{
    e.registers.c = e.registers.c | 0x04;
}

/// `SET 2, D`: no flags change.
pub fn set_2_d(e: &mut Emulator)
    requires
        old(e).wf(),
    ensures
        final(e).wf(),
        final(e)@ == with_regs(old(e)@, (Registers { d: old(e)@.registers.d | 0x04, ..old(e)@.registers })),
{
    e.registers.d = e.registers.d | 0x04;
}

/// `SET 2, E`: no flags change.
pub fn set_2_e(e: &mut Emulator)
    requires
        old(e).wf(),
    ensures
        final(e).wf(),
        final(e)@ == with_regs(old(e)@, (Registers { e: old(e)@.registers.e | 0x04, ..old(e)@.registers })),
{
    e.registers.e = e.registers.e | 0x04;
}

/// `SET 2, H`: no flags change.
pub fn set_2_h(e: &mut Emulator)
    requires
        old(e).wf(),
    ensures
        final(e).wf(),
        final(e)@ == with_regs(old(e)@, (Registers { h: old(e)@.registers.h | 0x04, ..old(e)@.registers })),
{
    e.registers.h = e.registers.h | 0x04;
}

/// `SET 2, L`: no flags change.
pub fn set_2_l(e: &mut Emulator)
    requires
        old(e).wf(),
    ensures
        final(e).wf(),
        final(e)@ == with_regs(old(e)@, (Registers { l: old(e)@.registers.l | 0x04, ..old(e)@.registers })),
{
    e.registers.l = e.registers.l | 0x04;
}

/// `SET 2, (HL)`: rewrites the byte at HL in place; no flags change.
pub fn set_2_hlp(e: &mut Emulator)
    requires
        old(e).wf(),
    ensures
        final(e).wf(),
        final(e)@.cpu == old(e)@.cpu,
        final(e)@.registers == old(e)@.registers,
        det_read(old(e)@.registers.spec_get_hl()) ==> bus_write_ok(old(e)@, old(e)@.registers.spec_get_hl(), bus_read(old(e)@, old(e)@.registers.spec_get_hl()) | 0x04, final(e)@),
{
    let hl = e.registers.get_hl();
    let v = e.read_byte(hl);
    let t = v | 0x04;
    e.write_byte(hl, t);
}

/// `SET 2, A`: no flags change.
pub fn set_2_a(e: &mut Emulator)
    requires
        old(e).wf(),
    ensures
        final(e).wf(),
        final(e)@ == with_regs(old(e)@, (Registers { a: old(e)@.registers.a | 0x04, ..old(e)@.registers })),
{
    e.registers.a = e.registers.a | 0x04;
}

/// `SET 3, B`: no flags change.
pub fn set_3_b(e: &mut Emulator)
    requires
        old(e).wf(),
    ensures
        final(e).wf(),
        final(e)@ == with_regs(old(e)@, (Registers { b: old(e)@.registers.b | 0x08, ..old(e)@.registers })),
{
    e.registers.b = e.registers.b | 0x08;
}

/// `SET 3, C`: no flags change.
pub fn set_3_c(e: &mut Emulator)
    requires
        old(e).wf(),
    ensures
        final(e).wf(),
        final(e)@ == with_regs(old(e)@, (Registers { c: old(e)@.registers.c | 0x08, ..old(e)@.registers })),
{
    e.registers.c = e.registers.c | 0x08;
}

/// `SET 3, D`: no flags change.
pub fn set_3_d(e: &mut Emulator)
    requires
        old(e).wf(),
    ensures
        final(e).wf(),
        final(e)@ == with_regs(old(e)@, (Registers { d: old(e)@.registers.d | 0x08, ..old(e)@.registers })),
{
    e.registers.d = e.registers.d | 0x08;
}

/// `SET 3, E`: no flags change.
pub fn set_3_e(e: &mut Emulator)
    requires
        old(e).wf(),
    ensures
        final(e).wf(),
        final(e)@ == with_regs(old(e)@, (Registers { e: old(e)@.registers.e | 0x08, ..old(e)@.registers })),
{
    e.registers.e = e.registers.e | 0x08;
}

/// `SET 3, H`: no flags change.
pub fn set_3_h(e: &mut Emulator)
    requires
        old(e).wf(),
    ensures
        final(e).wf(),
        final(e)@ == with_regs(old(e)@, (Registers { h: old(e)@.registers.h | 0x08, ..old(e)@.registers })),
{
    e.registers.h = e.registers.h | 0x08;
}

/// `SET 3, L`: no flags change.
pub fn set_3_l(e: &mut Emulator)
    requires
        old(e).wf(),
    ensures
        final(e).wf(),
        final(e)@ == with_regs(old(e)@, (Registers { l: old(e)@.registers.l | 0x08, ..old(e)@.registers })),
{
    e.registers.l = e.registers.l | 0x08;
}

/// `SET 3, (HL)`: rewrites the byte at HL in place; no flags change.
pub fn set_3_hlp(e: &mut Emulator)
    requires
        old(e).wf(),
    ensures
        final(e).wf(),
        final(e)@.cpu == old(e)@.cpu,
        final(e)@.registers == old(e)@.registers,
        det_read(old(e)@.registers.spec_get_hl()) ==> bus_write_ok(old(e)@, old(e)@.registers.spec_get_hl(), bus_read(old(e)@, old(e)@.registers.spec_get_hl()) | 0x08, final(e)@),
{
    let hl = e.registers.get_hl();
    let v = e.read_byte(hl);
    let t = v | 0x08;
    e.write_byte(hl, t);
}

/// `SET 3, A`: no flags change.
pub fn set_3_a(e: &mut Emulator)
    requires
        old(e).wf(),
    ensures
        final(e).wf(),
        final(e)@ == with_regs(old(e)@, (Registers { a: old(e)@.registers.a | 0x08, ..old(e)@.registers })),
{
    e.registers.a = e.registers.a | 0x08;
}

/// `SET 4, B`: no flags change.
pub fn set_4_b(e: &mut Emulator)
    requires
        old(e).wf(),
    ensures
        final(e).wf(),
        final(e)@ == with_regs(old(e)@, (Registers { b: old(e)@.registers.b | 0x10, ..old(e)@.registers })),
{
    e.registers.b = e.registers.b | 0x10;
}

/// `SET 4, C`: no flags change.
pub fn set_4_c(e: &mut Emulator)
    requires
        old(e).wf(),
    ensures
        final(e).wf(),
        final(e)@ == with_regs(old(e)@, (Registers { c: old(e)@.registers.c | 0x10, ..old(e)@.registers })),
{
    e.registers.c = e.registers.c | 0x10;
}

/// `SET 4, D`: no flags change.
pub fn set_4_d(e: &mut Emulator)
    requires
        old(e).wf(),
    ensures
        final(e).wf(),
        final(e)@ == with_regs(old(e)@, (Registers { d: old(e)@.registers.d | 0x10, ..old(e)@.registers })),
{
    e.registers.d = e.registers.d | 0x10;
}

/// `SET 4, E`: no flags change.
pub fn set_4_e(e: &mut Emulator)
    requires
        old(e).wf(),
    ensures
        final(e).wf(),
        final(e)@ == with_regs(old(e)@, (Registers { e: old(e)@.registers.e | 0x10, ..old(e)@.registers })),
{
    e.registers.e = e.registers.e | 0x10;
}

/// `SET 4, H`: no flags change.
pub fn set_4_h(e: &mut Emulator)
    requires
        old(e).wf(),
    ensures
        final(e).wf(),
        final(e)@ == with_regs(old(e)@, (Registers { h: old(e)@.registers.h | 0x10, ..old(e)@.registers })),
{
    e.registers.h = e.registers.h | 0x10;
}

/// `SET 4, L`: no flags change.
pub fn set_4_l(e: &mut Emulator)
    requires
        old(e).wf(),
    ensures
        final(e).wf(),
        final(e)@ == with_regs(old(e)@, (Registers { l: old(e)@.registers.l | 0x10, ..old(e)@.registers })),
{
    e.registers.l = e.registers.l | 0x10;
}

/// `SET 4, (HL)`: rewrites the byte at HL in place; no flags change.
pub fn set_4_hlp(e: &mut Emulator)
    requires
        old(e).wf(),
    ensures
        final(e).wf(),
        final(e)@.cpu == old(e)@.cpu,
        final(e)@.registers == old(e)@.registers,
        det_read(old(e)@.registers.spec_get_hl()) ==> bus_write_ok(old(e)@, old(e)@.registers.spec_get_hl(), bus_read(old(e)@, old(e)@.registers.spec_get_hl()) | 0x10, final(e)@),
{
    let hl = e.registers.get_hl();
    let v = e.read_byte(hl);
    let t = v | 0x10;
    e.write_byte(hl, t);
}

/// `SET 4, A`: no flags change.
pub fn set_4_a(e: &mut Emulator)
    requires
        old(e).wf(),
    ensures
        final(e).wf(),
        final(e)@ == with_regs(old(e)@, (Registers { a: old(e)@.registers.a | 0x10, ..old(e)@.registers })),
{
    e.registers.a = e.registers.a | 0x10;
}

/// `SET 5, B`: no flags change.
pub fn set_5_b(e: &mut Emulator)
    requires
        old(e).wf(),
    ensures
        final(e).wf(),
        final(e)@ == with_regs(old(e)@, (Registers { b: old(e)@.registers.b | 0x20, ..old(e)@.registers })),
{
    e.registers.b = e.registers.b | 0x20;
}

/// `SET 5, C`: no flags change.
pub fn set_5_c(e: &mut Emulator)
    requires
        old(e).wf(),
    ensures
        final(e).wf(),
        final(e)@ == with_regs(old(e)@, (Registers { c: old(e)@.registers.c | 0x20, ..old(e)@.registers })),
{
    e.registers.c = e.registers.c | 0x20;
}

/// `SET 5, D`: no flags change.
pub fn set_5_d(e: &mut Emulator)
    requires
        old(e).wf(),
    ensures
        final(e).wf(),
        final(e)@ == with_regs(old(e)@, (Registers { d: old(e)@.registers.d | 0x20, ..old(e)@.registers })),
{
    e.registers.d = e.registers.d | 0x20;
}

/// `SET 5, E`: no flags change.
pub fn set_5_e(e: &mut Emulator)
    requires
        old(e).wf(),
    ensures
        final(e).wf(),
        final(e)@ == with_regs(old(e)@, (Registers { e: old(e)@.registers.e | 0x20, ..old(e)@.registers })),
{
    e.registers.e = e.registers.e | 0x20;
}

/// `SET 5, H`: no flags change.
pub fn set_5_h(e: &mut Emulator)
    requires
        old(e).wf(),
    ensures
        final(e).wf(),
        final(e)@ == with_regs(old(e)@, (Registers { h: old(e)@.registers.h | 0x20, ..old(e)@.registers })),
{
    e.registers.h = e.registers.h | 0x20;
}

/// `SET 5, L`: no flags change.
pub fn set_5_l(e: &mut Emulator)
    requires
        old(e).wf(),
    ensures
        final(e).wf(),
        final(e)@ == with_regs(old(e)@, (Registers { l: old(e)@.registers.l | 0x20, ..old(e)@.registers })),
{
    e.registers.l = e.registers.l | 0x20;
}

/// `SET 5, (HL)`: rewrites the byte at HL in place; no flags change.
pub fn set_5_hlp(e: &mut Emulator)
    requires
        old(e).wf(),
    ensures
        final(e).wf(),
        final(e)@.cpu == old(e)@.cpu,
        final(e)@.registers == old(e)@.registers,
        det_read(old(e)@.registers.spec_get_hl()) ==> bus_write_ok(old(e)@, old(e)@.registers.spec_get_hl(), bus_read(old(e)@, old(e)@.registers.spec_get_hl()) | 0x20, final(e)@),
{
    let hl = e.registers.get_hl();
    let v = e.read_byte(hl);
    let t = v | 0x20;
    e.write_byte(hl, t);
}

/// `SET 5, A`: no flags change.
pub fn set_5_a(e: &mut Emulator)
    requires
        old(e).wf(),
    ensures
        final(e).wf(),
        final(e)@ == with_regs(old(e)@, (Registers { a: old(e)@.registers.a | 0x20, ..old(e)@.registers })),
{
    e.registers.a = e.registers.a | 0x20;
}

/// `SET 6, B`: no flags change.
pub fn set_6_b(e: &mut Emulator)
    requires
        old(e).wf(),
    ensures
        final(e).wf(),
        final(e)@ == with_regs(old(e)@, (Registers { b: old(e)@.registers.b | 0x40, ..old(e)@.registers })),
{
    e.registers.b = e.registers.b | 0x40;
}

/// `SET 6, C`: no flags change.
pub fn set_6_c(e: &mut Emulator)
    requires
        old(e).wf(),
    ensures
        final(e).wf(),
        final(e)@ == with_regs(old(e)@, (Registers { c: old(e)@.registers.c | 0x40, ..old(e)@.registers })),
{
    e.registers.c = e.registers.c | 0x40;
}

/// `SET 6, D`: no flags change.
pub fn set_6_d(e: &mut Emulator)
    requires
        old(e).wf(),
    ensures
        final(e).wf(),
        final(e)@ == with_regs(old(e)@, (Registers { d: old(e)@.registers.d | 0x40, ..old(e)@.registers })),
{
    e.registers.d = e.registers.d | 0x40;
}

/// `SET 6, E`: no flags change.
pub fn set_6_e(e: &mut Emulator)
    requires
        old(e).wf(),
    ensures
        final(e).wf(),
        final(e)@ == with_regs(old(e)@, (Registers { e: old(e)@.registers.e | 0x40, ..old(e)@.registers })),
{
    e.registers.e = e.registers.e | 0x40;
}

/// `SET 6, H`: no flags change.
pub fn set_6_h(e: &mut Emulator)
    requires
        old(e).wf(),
    ensures
        final(e).wf(),
        final(e)@ == with_regs(old(e)@, (Registers { h: old(e)@.registers.h | 0x40, ..old(e)@.registers })),
{
    e.registers.h = e.registers.h | 0x40;
}

/// `SET 6, L`: no flags change.
pub fn set_6_l(e: &mut Emulator)
    requires
        old(e).wf(),
    ensures
        final(e).wf(),
        final(e)@ == with_regs(old(e)@, (Registers { l: old(e)@.registers.l | 0x40, ..old(e)@.registers })),
{
    e.registers.l = e.registers.l | 0x40;
}

/// `SET 6, (HL)`: rewrites the byte at HL in place; no flags change.
pub fn set_6_hlp(e: &mut Emulator)
    requires
        old(e).wf(),
    ensures
        final(e).wf(),
        final(e)@.cpu == old(e)@.cpu,
        final(e)@.registers == old(e)@.registers,
        det_read(old(e)@.registers.spec_get_hl()) ==> bus_write_ok(old(e)@, old(e)@.registers.spec_get_hl(), bus_read(old(e)@, old(e)@.registers.spec_get_hl()) | 0x40, final(e)@),
{
    let hl = e.registers.get_hl();
    let v = e.read_byte(hl);
    let t = v | 0x40;
    e.write_byte(hl, t);
}

/// `SET 6, A`: no flags change.
pub fn set_6_a(e: &mut Emulator)
    requires
        old(e).wf(),
    ensures
        final(e).wf(),
        final(e)@ == with_regs(old(e)@, (Registers { a: old(e)@.registers.a | 0x40, ..old(e)@.registers })),
{
    e.registers.a = e.registers.a | 0x40;
}

/// `SET 7, B`: no flags change.
pub fn set_7_b(e: &mut Emulator)
    requires
        old(e).wf(),
    ensures
        final(e).wf(),
        final(e)@ == with_regs(old(e)@, (Registers { b: old(e)@.registers.b | 0x80, ..old(e)@.registers })),
{
    e.registers.b = e.registers.b | 0x80;
}

/// `SET 7, C`: no flags change.
pub fn set_7_c(e: &mut Emulator)
    requires
        old(e).wf(),
    ensures
        final(e).wf(),
        final(e)@ == with_regs(old(e)@, (Registers { c: old(e)@.registers.c | 0x80, ..old(e)@.registers })),
{
    e.registers.c = e.registers.c | 0x80;
}

/// `SET 7, D`: no flags change.
pub fn set_7_d(e: &mut Emulator)
    requires
        old(e).wf(),
    ensures
        final(e).wf(),
        final(e)@ == with_regs(old(e)@, (Registers { d: old(e)@.registers.d | 0x80, ..old(e)@.registers })),
{
    e.registers.d = e.registers.d | 0x80;
}

/// `SET 7, E`: no flags change.
pub fn set_7_e(e: &mut Emulator)
    requires
        old(e).wf(),
    ensures
        final(e).wf(),
        final(e)@ == with_regs(old(e)@, (Registers { e: old(e)@.registers.e | 0x80, ..old(e)@.registers })),
{
    e.registers.e = e.registers.e | 0x80;
}

/// `SET 7, H`: no flags change.
pub fn set_7_h(e: &mut Emulator)
    requires
        old(e).wf(),
    ensures
        final(e).wf(),
        final(e)@ == with_regs(old(e)@, (Registers { h: old(e)@.registers.h | 0x80, ..old(e)@.registers })),
{
    e.registers.h = e.registers.h | 0x80;
}

/// `SET 7, L`: no flags change.
pub fn set_7_l(e: &mut Emulator)
    requires
        old(e).wf(),
    ensures
        final(e).wf(),
        final(e)@ == with_regs(old(e)@, (Registers { l: old(e)@.registers.l | 0x80, ..old(e)@.registers })),
{
    e.registers.l = e.registers.l | 0x80;
}

/// `SET 7, (HL)`: rewrites the byte at HL in place; no flags change.
pub fn set_7_hlp(e: &mut Emulator)
    requires
        old(e).wf(),
    ensures
        final(e).wf(),
        final(e)@.cpu == old(e)@.cpu,
        final(e)@.registers == old(e)@.registers,
        det_read(old(e)@.registers.spec_get_hl()) ==> bus_write_ok(old(e)@, old(e)@.registers.spec_get_hl(), bus_read(old(e)@, old(e)@.registers.spec_get_hl()) | 0x80, final(e)@),
{
    let hl = e.registers.get_hl();
    let v = e.read_byte(hl);
    let t = v | 0x80;
    e.write_byte(hl, t);
}

/// `SET 7, A`: no flags change.
pub fn set_7_a(e: &mut Emulator)
    requires
        old(e).wf(),
    ensures
        final(e).wf(),
        final(e)@ == with_regs(old(e)@, (Registers { a: old(e)@.registers.a | 0x80, ..old(e)@.registers })),
{
    e.registers.a = e.registers.a | 0x80;
}

/// The extended table's cycle costs, as a function: 8 for register
/// operands, 16 for rotates and shifts on (HL), 12 for bit test,
/// clear and set on (HL).
pub open spec fn spec_extended_cycles(opcode: u8) -> u8 {
    if opcode % 8 == 6 {
        if opcode < 0x40 {
            16
        } else {
            12
        }
    } else {
        8
    }
}

/// The extended table's cycle costs.
pub fn extended_cycles(opcode: u8) -> (r: u8)
    ensures
        r == spec_extended_cycles(opcode),
        r <= 16,
{
    match opcode {
        0x00 => 8,
        0x01 => 8,
        0x02 => 8,
        0x03 => 8,
        0x04 => 8,
        0x05 => 8,
        0x06 => 16,
        0x07 => 8,
        0x08 => 8,
        0x09 => 8,
        0x0A => 8,
        0x0B => 8,
        0x0C => 8,
        0x0D => 8,
        0x0E => 16,
        0x0F => 8,
        0x10 => 8,
        0x11 => 8,
        0x12 => 8,
        0x13 => 8,
        0x14 => 8,
        0x15 => 8,
        0x16 => 16,
        0x17 => 8,
        0x18 => 8,
        0x19 => 8,
        0x1A => 8,
        0x1B => 8,
        0x1C => 8,
        0x1D => 8,
        0x1E => 16,
        0x1F => 8,
        0x20 => 8,
        0x21 => 8,
        0x22 => 8,
        0x23 => 8,
        0x24 => 8,
        0x25 => 8,
        0x26 => 16,
        0x27 => 8,
        0x28 => 8,
        0x29 => 8,
        0x2A => 8,
        0x2B => 8,
        0x2C => 8,
        0x2D => 8,
        0x2E => 16,
        0x2F => 8,
        0x30 => 8,
        0x31 => 8,
        0x32 => 8,
        0x33 => 8,
        0x34 => 8,
        0x35 => 8,
        0x36 => 16,
        0x37 => 8,
        0x38 => 8,
        0x39 => 8,
        0x3A => 8,
        0x3B => 8,
        0x3C => 8,
        0x3D => 8,
        0x3E => 16,
        0x3F => 8,
        0x40 => 8,
        0x41 => 8,
        0x42 => 8,
        0x43 => 8,
        0x44 => 8,
        0x45 => 8,
        0x46 => 12,
        0x47 => 8,
        0x48 => 8,
        0x49 => 8,
        0x4A => 8,
        0x4B => 8,
        0x4C => 8,
        0x4D => 8,
        0x4E => 12,
        0x4F => 8,
        0x50 => 8,
        0x51 => 8,
        0x52 => 8,
        0x53 => 8,
        0x54 => 8,
        0x55 => 8,
        0x56 => 12,
        0x57 => 8,
        0x58 => 8,
        0x59 => 8,
        0x5A => 8,
        0x5B => 8,
        0x5C => 8,
        0x5D => 8,
        0x5E => 12,
        0x5F => 8,
        0x60 => 8,
        0x61 => 8,
        0x62 => 8,
        0x63 => 8,
        0x64 => 8,
        0x65 => 8,
        0x66 => 12,
        0x67 => 8,
        0x68 => 8,
        0x69 => 8,
        0x6A => 8,
        0x6B => 8,
        0x6C => 8,
        0x6D => 8,
        0x6E => 12,
        0x6F => 8,
        0x70 => 8,
        0x71 => 8,
        0x72 => 8,
        0x73 => 8,
        0x74 => 8,
        0x75 => 8,
        0x76 => 12,
        0x77 => 8,
        0x78 => 8,
        0x79 => 8,
        0x7A => 8,
        0x7B => 8,
        0x7C => 8,
        0x7D => 8,
        0x7E => 12,
        0x7F => 8,
        0x80 => 8,
        0x81 => 8,
        0x82 => 8,
        0x83 => 8,
        0x84 => 8,
        0x85 => 8,
        0x86 => 12,
        0x87 => 8,
        0x88 => 8,
        0x89 => 8,
        0x8A => 8,
        0x8B => 8,
        0x8C => 8,
        0x8D => 8,
        0x8E => 12,
        0x8F => 8,
        0x90 => 8,
        0x91 => 8,
        0x92 => 8,
        0x93 => 8,
        0x94 => 8,
        0x95 => 8,
        0x96 => 12,
        0x97 => 8,
        0x98 => 8,
        0x99 => 8,
        0x9A => 8,
        0x9B => 8,
        0x9C => 8,
        0x9D => 8,
        0x9E => 12,
        0x9F => 8,
        0xA0 => 8,
        0xA1 => 8,
        0xA2 => 8,
        0xA3 => 8,
        0xA4 => 8,
        0xA5 => 8,
        0xA6 => 12,
        0xA7 => 8,
        0xA8 => 8,
        0xA9 => 8,
        0xAA => 8,
        0xAB => 8,
        0xAC => 8,
        0xAD => 8,
        0xAE => 12,
        0xAF => 8,
        0xB0 => 8,
        0xB1 => 8,
        0xB2 => 8,
        0xB3 => 8,
        0xB4 => 8,
        0xB5 => 8,
        0xB6 => 12,
        0xB7 => 8,
        0xB8 => 8,
        0xB9 => 8,
        0xBA => 8,
        0xBB => 8,
        0xBC => 8,
        0xBD => 8,
        0xBE => 12,
        0xBF => 8,
        0xC0 => 8,
        0xC1 => 8,
        0xC2 => 8,
        0xC3 => 8,
        0xC4 => 8,
        0xC5 => 8,
        0xC6 => 12,
        0xC7 => 8,
        0xC8 => 8,
        0xC9 => 8,
        0xCA => 8,
        0xCB => 8,
        0xCC => 8,
        0xCD => 8,
        0xCE => 12,
        0xCF => 8,
        0xD0 => 8,
        0xD1 => 8,
        0xD2 => 8,
        0xD3 => 8,
        0xD4 => 8,
        0xD5 => 8,
        0xD6 => 12,
        0xD7 => 8,
        0xD8 => 8,
        0xD9 => 8,
        0xDA => 8,
        0xDB => 8,
        0xDC => 8,
        0xDD => 8,
        0xDE => 12,
        0xDF => 8,
        0xE0 => 8,
        0xE1 => 8,
        0xE2 => 8,
        0xE3 => 8,
        0xE4 => 8,
        0xE5 => 8,
        0xE6 => 12,
        0xE7 => 8,
        0xE8 => 8,
        0xE9 => 8,
        0xEA => 8,
        0xEB => 8,
        0xEC => 8,
        0xED => 8,
        0xEE => 12,
        0xEF => 8,
        0xF0 => 8,
        0xF1 => 8,
        0xF2 => 8,
        0xF3 => 8,
        0xF4 => 8,
        0xF5 => 8,
        0xF6 => 12,
        0xF7 => 8,
        0xF8 => 8,
        0xF9 => 8,
        0xFA => 8,
        0xFB => 8,
        0xFC => 8,
        0xFD => 8,
        0xFE => 12,
        _ => 8,
    }
}

/// What one extended-table operation does, gathered per opcode
/// byte: each arm is exactly the postcondition of that opcode's
/// operation function.
pub open spec fn exec_cb_ok(opcode: u8, pre: EmulatorV, post: EmulatorV) -> bool {
    match opcode {
        0x00 => {
            &&& (post.wf())
            &&& (post == with_regs(pre, (Registers { b: spec_rlc8(pre.registers.b), f: spec_rot_flags(spec_rlc8(pre.registers.b), pre.registers.b & 0x80 != 0), ..pre.registers })))
        },
        0x01 => {
            &&& (post.wf())
            &&& (post == with_regs(pre, (Registers { c: spec_rlc8(pre.registers.c), f: spec_rot_flags(spec_rlc8(pre.registers.c), pre.registers.c & 0x80 != 0), ..pre.registers })))
        },
        0x02 => {
            &&& (post.wf())
            &&& (post == with_regs(pre, (Registers { d: spec_rlc8(pre.registers.d), f: spec_rot_flags(spec_rlc8(pre.registers.d), pre.registers.d & 0x80 != 0), ..pre.registers })))
        },
        0x03 => {
            &&& (post.wf())
            &&& (post == with_regs(pre, (Registers { e: spec_rlc8(pre.registers.e), f: spec_rot_flags(spec_rlc8(pre.registers.e), pre.registers.e & 0x80 != 0), ..pre.registers })))
        },
        0x04 => {
            &&& (post.wf())
            &&& (post == with_regs(pre, (Registers { h: spec_rlc8(pre.registers.h), f: spec_rot_flags(spec_rlc8(pre.registers.h), pre.registers.h & 0x80 != 0), ..pre.registers })))
        },
        0x05 => {
            &&& (post.wf())
            &&& (post == with_regs(pre, (Registers { l: spec_rlc8(pre.registers.l), f: spec_rot_flags(spec_rlc8(pre.registers.l), pre.registers.l & 0x80 != 0), ..pre.registers })))
        },
        0x06 => {
            &&& (post.wf())
            &&& (post.cpu == pre.cpu)
            &&& (post.registers == (Registers { f: post.registers.f, ..pre.registers }))
            &&& (det_read(pre.registers.spec_get_hl()) ==> bus_write_ok(with_regs(pre, (Registers { f: spec_rot_flags(spec_rlc8(bus_read(pre, pre.registers.spec_get_hl())), bus_read(pre, pre.registers.spec_get_hl()) & 0x80 != 0), ..pre.registers })), pre.registers.spec_get_hl(), spec_rlc8(bus_read(pre, pre.registers.spec_get_hl())), post))
        },
        0x07 => {
            &&& (post.wf())
            &&& (post == with_regs(pre, (Registers { a: spec_rlc8(pre.registers.a), f: spec_rot_flags(spec_rlc8(pre.registers.a), pre.registers.a & 0x80 != 0), ..pre.registers })))
        },
        0x08 => {
            &&& (post.wf())
            &&& (post == with_regs(pre, (Registers { b: spec_rrc8(pre.registers.b), f: spec_rot_flags(spec_rrc8(pre.registers.b), pre.registers.b & 0x01 != 0), ..pre.registers })))
        },
        0x09 => {
            &&& (post.wf())
            &&& (post == with_regs(pre, (Registers { c: spec_rrc8(pre.registers.c), f: spec_rot_flags(spec_rrc8(pre.registers.c), pre.registers.c & 0x01 != 0), ..pre.registers })))
        },
        0x0A => {
            &&& (post.wf())
            &&& (post == with_regs(pre, (Registers { d: spec_rrc8(pre.registers.d), f: spec_rot_flags(spec_rrc8(pre.registers.d), pre.registers.d & 0x01 != 0), ..pre.registers })))
        },
        0x0B => {
            &&& (post.wf())
            &&& (post == with_regs(pre, (Registers { e: spec_rrc8(pre.registers.e), f: spec_rot_flags(spec_rrc8(pre.registers.e), pre.registers.e & 0x01 != 0), ..pre.registers })))
        },
        0x0C => {
            &&& (post.wf())
            &&& (post == with_regs(pre, (Registers { h: spec_rrc8(pre.registers.h), f: spec_rot_flags(spec_rrc8(pre.registers.h), pre.registers.h & 0x01 != 0), ..pre.registers })))
        },
        0x0D => {
            &&& (post.wf())
            &&& (post == with_regs(pre, (Registers { l: spec_rrc8(pre.registers.l), f: spec_rot_flags(spec_rrc8(pre.registers.l), pre.registers.l & 0x01 != 0), ..pre.registers })))
        },
        0x0E => {
            &&& (post.wf())
            &&& (post.cpu == pre.cpu)
            &&& (post.registers == (Registers { f: post.registers.f, ..pre.registers }))
            &&& (det_read(pre.registers.spec_get_hl()) ==> bus_write_ok(with_regs(pre, (Registers { f: spec_rot_flags(spec_rrc8(bus_read(pre, pre.registers.spec_get_hl())), bus_read(pre, pre.registers.spec_get_hl()) & 0x01 != 0), ..pre.registers })), pre.registers.spec_get_hl(), spec_rrc8(bus_read(pre, pre.registers.spec_get_hl())), post))
        },
        0x0F => {
            &&& (post.wf())
            &&& (post == with_regs(pre, (Registers { a: spec_rrc8(pre.registers.a), f: spec_rot_flags(spec_rrc8(pre.registers.a), pre.registers.a & 0x01 != 0), ..pre.registers })))
        },
        0x10 => {
            &&& (post.wf())
            &&& (post == with_regs(pre, (Registers { b: spec_rl8(pre.registers.b, spec_carry(pre.registers.f)), f: spec_rot_flags(spec_rl8(pre.registers.b, spec_carry(pre.registers.f)), pre.registers.b & 0x80 != 0), ..pre.registers })))
        },
        0x11 => {
            &&& (post.wf())
            &&& (post == with_regs(pre, (Registers { c: spec_rl8(pre.registers.c, spec_carry(pre.registers.f)), f: spec_rot_flags(spec_rl8(pre.registers.c, spec_carry(pre.registers.f)), pre.registers.c & 0x80 != 0), ..pre.registers })))
        },
        0x12 => {
            &&& (post.wf())
            &&& (post == with_regs(pre, (Registers { d: spec_rl8(pre.registers.d, spec_carry(pre.registers.f)), f: spec_rot_flags(spec_rl8(pre.registers.d, spec_carry(pre.registers.f)), pre.registers.d & 0x80 != 0), ..pre.registers })))
        },
        0x13 => {
            &&& (post.wf())
            &&& (post == with_regs(pre, (Registers { e: spec_rl8(pre.registers.e, spec_carry(pre.registers.f)), f: spec_rot_flags(spec_rl8(pre.registers.e, spec_carry(pre.registers.f)), pre.registers.e & 0x80 != 0), ..pre.registers })))
        },
        0x14 => {
            &&& (post.wf())
            &&& (post == with_regs(pre, (Registers { h: spec_rl8(pre.registers.h, spec_carry(pre.registers.f)), f: spec_rot_flags(spec_rl8(pre.registers.h, spec_carry(pre.registers.f)), pre.registers.h & 0x80 != 0), ..pre.registers })))
        },
        0x15 => {
            &&& (post.wf())
            &&& (post == with_regs(pre, (Registers { l: spec_rl8(pre.registers.l, spec_carry(pre.registers.f)), f: spec_rot_flags(spec_rl8(pre.registers.l, spec_carry(pre.registers.f)), pre.registers.l & 0x80 != 0), ..pre.registers })))
        },
        0x16 => {
            &&& (post.wf())
            &&& (post.cpu == pre.cpu)
            &&& (post.registers == (Registers { f: post.registers.f, ..pre.registers }))
            &&& (det_read(pre.registers.spec_get_hl()) ==> bus_write_ok(with_regs(pre, (Registers { f: spec_rot_flags(spec_rl8(bus_read(pre, pre.registers.spec_get_hl()), spec_carry(pre.registers.f)), bus_read(pre, pre.registers.spec_get_hl()) & 0x80 != 0), ..pre.registers })), pre.registers.spec_get_hl(), spec_rl8(bus_read(pre, pre.registers.spec_get_hl()), spec_carry(pre.registers.f)), post))
        },
        0x17 => {
            &&& (post.wf())
            &&& (post == with_regs(pre, (Registers { a: spec_rl8(pre.registers.a, spec_carry(pre.registers.f)), f: spec_rot_flags(spec_rl8(pre.registers.a, spec_carry(pre.registers.f)), pre.registers.a & 0x80 != 0), ..pre.registers })))
        },
        0x18 => {
            &&& (post.wf())
            &&& (post == with_regs(pre, (Registers { b: spec_rr8(pre.registers.b, spec_carry(pre.registers.f)), f: spec_rot_flags(spec_rr8(pre.registers.b, spec_carry(pre.registers.f)), pre.registers.b & 0x01 != 0), ..pre.registers })))
        },
        0x19 => {
            &&& (post.wf())
            &&& (post == with_regs(pre, (Registers { c: spec_rr8(pre.registers.c, spec_carry(pre.registers.f)), f: spec_rot_flags(spec_rr8(pre.registers.c, spec_carry(pre.registers.f)), pre.registers.c & 0x01 != 0), ..pre.registers })))
        },
        0x1A => {
            &&& (post.wf())
            &&& (post == with_regs(pre, (Registers { d: spec_rr8(pre.registers.d, spec_carry(pre.registers.f)), f: spec_rot_flags(spec_rr8(pre.registers.d, spec_carry(pre.registers.f)), pre.registers.d & 0x01 != 0), ..pre.registers })))
        },
        0x1B => {
            &&& (post.wf())
            &&& (post == with_regs(pre, (Registers { e: spec_rr8(pre.registers.e, spec_carry(pre.registers.f)), f: spec_rot_flags(spec_rr8(pre.registers.e, spec_carry(pre.registers.f)), pre.registers.e & 0x01 != 0), ..pre.registers })))
        },
        0x1C => {
            &&& (post.wf())
            &&& (post == with_regs(pre, (Registers { h: spec_rr8(pre.registers.h, spec_carry(pre.registers.f)), f: spec_rot_flags(spec_rr8(pre.registers.h, spec_carry(pre.registers.f)), pre.registers.h & 0x01 != 0), ..pre.registers })))
        },
        0x1D => {
            &&& (post.wf())
            &&& (post == with_regs(pre, (Registers { l: spec_rr8(pre.registers.l, spec_carry(pre.registers.f)), f: spec_rot_flags(spec_rr8(pre.registers.l, spec_carry(pre.registers.f)), pre.registers.l & 0x01 != 0), ..pre.registers })))
        },
        0x1E => {
            &&& (post.wf())
            &&& (post.cpu == pre.cpu)
            &&& (post.registers == (Registers { f: post.registers.f, ..pre.registers }))
            &&& (det_read(pre.registers.spec_get_hl()) ==> bus_write_ok(with_regs(pre, (Registers { f: spec_rot_flags(spec_rr8(bus_read(pre, pre.registers.spec_get_hl()), spec_carry(pre.registers.f)), bus_read(pre, pre.registers.spec_get_hl()) & 0x01 != 0), ..pre.registers })), pre.registers.spec_get_hl(), spec_rr8(bus_read(pre, pre.registers.spec_get_hl()), spec_carry(pre.registers.f)), post))
        },
        0x1F => {
            &&& (post.wf())
            &&& (post == with_regs(pre, (Registers { a: spec_rr8(pre.registers.a, spec_carry(pre.registers.f)), f: spec_rot_flags(spec_rr8(pre.registers.a, spec_carry(pre.registers.f)), pre.registers.a & 0x01 != 0), ..pre.registers })))
        },
        0x20 => {
            &&& (post.wf())
            &&& (post == with_regs(pre, (Registers { b: spec_sla8(pre.registers.b), f: spec_rot_flags(spec_sla8(pre.registers.b), pre.registers.b & 0x80 != 0), ..pre.registers })))
        },
        0x21 => {
            &&& (post.wf())
            &&& (post == with_regs(pre, (Registers { c: spec_sla8(pre.registers.c), f: spec_rot_flags(spec_sla8(pre.registers.c), pre.registers.c & 0x80 != 0), ..pre.registers })))
        },
        0x22 => {
            &&& (post.wf())
            &&& (post == with_regs(pre, (Registers { d: spec_sla8(pre.registers.d), f: spec_rot_flags(spec_sla8(pre.registers.d), pre.registers.d & 0x80 != 0), ..pre.registers })))
        },
        0x23 => {
            &&& (post.wf())
            &&& (post == with_regs(pre, (Registers { e: spec_sla8(pre.registers.e), f: spec_rot_flags(spec_sla8(pre.registers.e), pre.registers.e & 0x80 != 0), ..pre.registers })))
        },
        0x24 => {
            &&& (post.wf())
            &&& (post == with_regs(pre, (Registers { h: spec_sla8(pre.registers.h), f: spec_rot_flags(spec_sla8(pre.registers.h), pre.registers.h & 0x80 != 0), ..pre.registers })))
        },
        0x25 => {
            &&& (post.wf())
            &&& (post == with_regs(pre, (Registers { l: spec_sla8(pre.registers.l), f: spec_rot_flags(spec_sla8(pre.registers.l), pre.registers.l & 0x80 != 0), ..pre.registers })))
        },
        0x26 => {
            &&& (post.wf())
            &&& (post.cpu == pre.cpu)
            &&& (post.registers == (Registers { f: post.registers.f, ..pre.registers }))
            &&& (det_read(pre.registers.spec_get_hl()) ==> bus_write_ok(with_regs(pre, (Registers { f: spec_rot_flags(spec_sla8(bus_read(pre, pre.registers.spec_get_hl())), bus_read(pre, pre.registers.spec_get_hl()) & 0x80 != 0), ..pre.registers })), pre.registers.spec_get_hl(), spec_sla8(bus_read(pre, pre.registers.spec_get_hl())), post))
        },
        0x27 => {
            &&& (post.wf())
            &&& (post == with_regs(pre, (Registers { a: spec_sla8(pre.registers.a), f: spec_rot_flags(spec_sla8(pre.registers.a), pre.registers.a & 0x80 != 0), ..pre.registers })))
        },
        0x28 => {
            &&& (post.wf())
            &&& (post == with_regs(pre, (Registers { b: spec_sra8(pre.registers.b), f: spec_rot_flags(spec_sra8(pre.registers.b), pre.registers.b & 0x01 != 0), ..pre.registers })))
        },
        0x29 => {
            &&& (post.wf())
            &&& (post == with_regs(pre, (Registers { c: spec_sra8(pre.registers.c), f: spec_rot_flags(spec_sra8(pre.registers.c), pre.registers.c & 0x01 != 0), ..pre.registers })))
        },
        0x2A => {
            &&& (post.wf())
            &&& (post == with_regs(pre, (Registers { d: spec_sra8(pre.registers.d), f: spec_rot_flags(spec_sra8(pre.registers.d), pre.registers.d & 0x01 != 0), ..pre.registers })))
        },
        0x2B => {
            &&& (post.wf())
            &&& (post == with_regs(pre, (Registers { e: spec_sra8(pre.registers.e), f: spec_rot_flags(spec_sra8(pre.registers.e), pre.registers.e & 0x01 != 0), ..pre.registers })))
        },
        0x2C => {
            &&& (post.wf())
            &&& (post == with_regs(pre, (Registers { h: spec_sra8(pre.registers.h), f: spec_rot_flags(spec_sra8(pre.registers.h), pre.registers.h & 0x01 != 0), ..pre.registers })))
        },
        0x2D => {
            &&& (post.wf())
            &&& (post == with_regs(pre, (Registers { l: spec_sra8(pre.registers.l), f: spec_rot_flags(spec_sra8(pre.registers.l), pre.registers.l & 0x01 != 0), ..pre.registers })))
        },
        0x2E => {
            &&& (post.wf())
            &&& (post.cpu == pre.cpu)
            &&& (post.registers == (Registers { f: post.registers.f, ..pre.registers }))
            &&& (det_read(pre.registers.spec_get_hl()) ==> bus_write_ok(with_regs(pre, (Registers { f: spec_rot_flags(spec_sra8(bus_read(pre, pre.registers.spec_get_hl())), bus_read(pre, pre.registers.spec_get_hl()) & 0x01 != 0), ..pre.registers })), pre.registers.spec_get_hl(), spec_sra8(bus_read(pre, pre.registers.spec_get_hl())), post))
        },
        0x2F => {
            &&& (post.wf())
            &&& (post == with_regs(pre, (Registers { a: spec_sra8(pre.registers.a), f: spec_rot_flags(spec_sra8(pre.registers.a), pre.registers.a & 0x01 != 0), ..pre.registers })))
        },
        0x30 => {
            &&& (post.wf())
            &&& (post == with_regs(pre, (Registers { b: spec_swap8(pre.registers.b), f: spec_flags(pre.registers.b == 0, false, false, false), ..pre.registers })))
        },
        0x31 => {
            &&& (post.wf())
            &&& (post == with_regs(pre, (Registers { c: spec_swap8(pre.registers.c), f: spec_flags(pre.registers.c == 0, false, false, false), ..pre.registers })))
        },
        0x32 => {
            &&& (post.wf())
            &&& (post == with_regs(pre, (Registers { d: spec_swap8(pre.registers.d), f: spec_flags(pre.registers.d == 0, false, false, false), ..pre.registers })))
        },
        0x33 => {
            &&& (post.wf())
            &&& (post == with_regs(pre, (Registers { e: spec_swap8(pre.registers.e), f: spec_flags(pre.registers.e == 0, false, false, false), ..pre.registers })))
        },
        0x34 => {
            &&& (post.wf())
            &&& (post == with_regs(pre, (Registers { h: spec_swap8(pre.registers.h), f: spec_flags(pre.registers.h == 0, false, false, false), ..pre.registers })))
        },
        0x35 => {
            &&& (post.wf())
            &&& (post == with_regs(pre, (Registers { l: spec_swap8(pre.registers.l), f: spec_flags(pre.registers.l == 0, false, false, false), ..pre.registers })))
        },
        0x36 => {
            &&& (post.wf())
            &&& (post.cpu == pre.cpu)
            &&& (post.registers == (Registers { f: post.registers.f, ..pre.registers }))
            &&& (det_read(pre.registers.spec_get_hl()) ==> bus_write_ok(with_regs(pre, (Registers { f: spec_flags(bus_read(pre, pre.registers.spec_get_hl()) == 0, false, false, false), ..pre.registers })), pre.registers.spec_get_hl(), spec_swap8(bus_read(pre, pre.registers.spec_get_hl())), post))
        },
        0x37 => {
            &&& (post.wf())
            &&& (post == with_regs(pre, (Registers { a: spec_swap8(pre.registers.a), f: spec_flags(pre.registers.a == 0, false, false, false), ..pre.registers })))
        },
        0x38 => {
            &&& (post.wf())
            &&& (post == with_regs(pre, (Registers { b: spec_srl8(pre.registers.b), f: spec_rot_flags(spec_srl8(pre.registers.b), pre.registers.b & 0x01 != 0), ..pre.registers })))
        },
        0x39 => {
            &&& (post.wf())
            &&& (post == with_regs(pre, (Registers { c: spec_srl8(pre.registers.c), f: spec_rot_flags(spec_srl8(pre.registers.c), pre.registers.c & 0x01 != 0), ..pre.registers })))
        },
        0x3A => {
            &&& (post.wf())
            &&& (post == with_regs(pre, (Registers { d: spec_srl8(pre.registers.d), f: spec_rot_flags(spec_srl8(pre.registers.d), pre.registers.d & 0x01 != 0), ..pre.registers })))
        },
        0x3B => {
            &&& (post.wf())
            &&& (post == with_regs(pre, (Registers { e: spec_srl8(pre.registers.e), f: spec_rot_flags(spec_srl8(pre.registers.e), pre.registers.e & 0x01 != 0), ..pre.registers })))
        },
        0x3C => {
            &&& (post.wf())
            &&& (post == with_regs(pre, (Registers { h: spec_srl8(pre.registers.h), f: spec_rot_flags(spec_srl8(pre.registers.h), pre.registers.h & 0x01 != 0), ..pre.registers })))
        },
        0x3D => {
            &&& (post.wf())
            &&& (post == with_regs(pre, (Registers { l: spec_srl8(pre.registers.l), f: spec_rot_flags(spec_srl8(pre.registers.l), pre.registers.l & 0x01 != 0), ..pre.registers })))
        },
        0x3E => {
            &&& (post.wf())
            &&& (post.cpu == pre.cpu)
            &&& (post.registers == (Registers { f: post.registers.f, ..pre.registers }))
            &&& (det_read(pre.registers.spec_get_hl()) ==> bus_write_ok(with_regs(pre, (Registers { f: spec_rot_flags(spec_srl8(bus_read(pre, pre.registers.spec_get_hl())), bus_read(pre, pre.registers.spec_get_hl()) & 0x01 != 0), ..pre.registers })), pre.registers.spec_get_hl(), spec_srl8(bus_read(pre, pre.registers.spec_get_hl())), post))
        },
        0x3F => {
            &&& (post.wf())
            &&& (post == with_regs(pre, (Registers { a: spec_srl8(pre.registers.a), f: spec_rot_flags(spec_srl8(pre.registers.a), pre.registers.a & 0x01 != 0), ..pre.registers })))
        },
        0x40 => {
            &&& (post.wf())
            &&& (post == with_regs(pre, (Registers { f: spec_flags(pre.registers.b & 0x01 == 0, false, true, spec_carry(pre.registers.f)), ..pre.registers })))
        },
        0x41 => {
            &&& (post.wf())
            &&& (post == with_regs(pre, (Registers { f: spec_flags(pre.registers.c & 0x01 == 0, false, true, spec_carry(pre.registers.f)), ..pre.registers })))
        },
        0x42 => {
            &&& (post.wf())
            &&& (post == with_regs(pre, (Registers { f: spec_flags(pre.registers.d & 0x01 == 0, false, true, spec_carry(pre.registers.f)), ..pre.registers })))
        },
        0x43 => {
            &&& (post.wf())
            &&& (post == with_regs(pre, (Registers { f: spec_flags(pre.registers.e & 0x01 == 0, false, true, spec_carry(pre.registers.f)), ..pre.registers })))
        },
        0x44 => {
            &&& (post.wf())
            &&& (post == with_regs(pre, (Registers { f: spec_flags(pre.registers.h & 0x01 == 0, false, true, spec_carry(pre.registers.f)), ..pre.registers })))
        },
        0x45 => {
            &&& (post.wf())
            &&& (post == with_regs(pre, (Registers { f: spec_flags(pre.registers.l & 0x01 == 0, false, true, spec_carry(pre.registers.f)), ..pre.registers })))
        },
        0x46 => {
            &&& (post.wf())
            &&& (post == with_regs(pre, (Registers { f: post.registers.f, ..pre.registers })))
            &&& (det_read(pre.registers.spec_get_hl()) ==> post.registers.f == spec_flags(bus_read(pre, pre.registers.spec_get_hl()) & 0x01 == 0, false, true, spec_carry(pre.registers.f)))
        },
        0x47 => {
            &&& (post.wf())
            &&& (post == with_regs(pre, (Registers { f: spec_flags(pre.registers.a & 0x01 == 0, false, true, spec_carry(pre.registers.f)), ..pre.registers })))
        },
        0x48 => {
            &&& (post.wf())
            &&& (post == with_regs(pre, (Registers { f: spec_flags(pre.registers.b & 0x02 == 0, false, true, spec_carry(pre.registers.f)), ..pre.registers })))
        },
        0x49 => {
            &&& (post.wf())
            &&& (post == with_regs(pre, (Registers { f: spec_flags(pre.registers.c & 0x02 == 0, false, true, spec_carry(pre.registers.f)), ..pre.registers })))
        },
        0x4A => {
            &&& (post.wf())
            &&& (post == with_regs(pre, (Registers { f: spec_flags(pre.registers.d & 0x02 == 0, false, true, spec_carry(pre.registers.f)), ..pre.registers })))
        },
        0x4B => {
            &&& (post.wf())
            &&& (post == with_regs(pre, (Registers { f: spec_flags(pre.registers.e & 0x02 == 0, false, true, spec_carry(pre.registers.f)), ..pre.registers })))
        },
        0x4C => {
            &&& (post.wf())
            &&& (post == with_regs(pre, (Registers { f: spec_flags(pre.registers.h & 0x02 == 0, false, true, spec_carry(pre.registers.f)), ..pre.registers })))
        },
        0x4D => {
            &&& (post.wf())
            &&& (post == with_regs(pre, (Registers { f: spec_flags(pre.registers.l & 0x02 == 0, false, true, spec_carry(pre.registers.f)), ..pre.registers })))
        },
        0x4E => {
            &&& (post.wf())
            &&& (post == with_regs(pre, (Registers { f: post.registers.f, ..pre.registers })))
            &&& (det_read(pre.registers.spec_get_hl()) ==> post.registers.f == spec_flags(bus_read(pre, pre.registers.spec_get_hl()) & 0x02 == 0, false, true, spec_carry(pre.registers.f)))
        },
        0x4F => {
            &&& (post.wf())
            &&& (post == with_regs(pre, (Registers { f: spec_flags(pre.registers.a & 0x02 == 0, false, true, spec_carry(pre.registers.f)), ..pre.registers })))
        },
        0x50 => {
            &&& (post.wf())
            &&& (post == with_regs(pre, (Registers { f: spec_flags(pre.registers.b & 0x04 == 0, false, true, spec_carry(pre.registers.f)), ..pre.registers })))
        },
        0x51 => {
            &&& (post.wf())
            &&& (post == with_regs(pre, (Registers { f: spec_flags(pre.registers.c & 0x04 == 0, false, true, spec_carry(pre.registers.f)), ..pre.registers })))
        },
        0x52 => {
            &&& (post.wf())
            &&& (post == with_regs(pre, (Registers { f: spec_flags(pre.registers.d & 0x04 == 0, false, true, spec_carry(pre.registers.f)), ..pre.registers })))
        },
        0x53 => {
            &&& (post.wf())
            &&& (post == with_regs(pre, (Registers { f: spec_flags(pre.registers.e & 0x04 == 0, false, true, spec_carry(pre.registers.f)), ..pre.registers })))
        },
        0x54 => {
            &&& (post.wf())
            &&& (post == with_regs(pre, (Registers { f: spec_flags(pre.registers.h & 0x04 == 0, false, true, spec_carry(pre.registers.f)), ..pre.registers })))
        },
        0x55 => {
            &&& (post.wf())
            &&& (post == with_regs(pre, (Registers { f: spec_flags(pre.registers.l & 0x04 == 0, false, true, spec_carry(pre.registers.f)), ..pre.registers })))
        },
        0x56 => {
            &&& (post.wf())
            &&& (post == with_regs(pre, (Registers { f: post.registers.f, ..pre.registers })))
            &&& (det_read(pre.registers.spec_get_hl()) ==> post.registers.f == spec_flags(bus_read(pre, pre.registers.spec_get_hl()) & 0x04 == 0, false, true, spec_carry(pre.registers.f)))
        },
        0x57 => {
            &&& (post.wf())
            &&& (post == with_regs(pre, (Registers { f: spec_flags(pre.registers.a & 0x04 == 0, false, true, spec_carry(pre.registers.f)), ..pre.registers })))
        },
        0x58 => {
            &&& (post.wf())
            &&& (post == with_regs(pre, (Registers { f: spec_flags(pre.registers.b & 0x08 == 0, false, true, spec_carry(pre.registers.f)), ..pre.registers })))
        },
        0x59 => {
            &&& (post.wf())
            &&& (post == with_regs(pre, (Registers { f: spec_flags(pre.registers.c & 0x08 == 0, false, true, spec_carry(pre.registers.f)), ..pre.registers })))
        },
        0x5A => {
            &&& (post.wf())
            &&& (post == with_regs(pre, (Registers { f: spec_flags(pre.registers.d & 0x08 == 0, false, true, spec_carry(pre.registers.f)), ..pre.registers })))
        },
        0x5B => {
            &&& (post.wf())
            &&& (post == with_regs(pre, (Registers { f: spec_flags(pre.registers.e & 0x08 == 0, false, true, spec_carry(pre.registers.f)), ..pre.registers })))
        },
        0x5C => {
            &&& (post.wf())
            &&& (post == with_regs(pre, (Registers { f: spec_flags(pre.registers.h & 0x08 == 0, false, true, spec_carry(pre.registers.f)), ..pre.registers })))
        },
        0x5D => {
            &&& (post.wf())
            &&& (post == with_regs(pre, (Registers { f: spec_flags(pre.registers.l & 0x08 == 0, false, true, spec_carry(pre.registers.f)), ..pre.registers })))
        },
        0x5E => {
            &&& (post.wf())
            &&& (post == with_regs(pre, (Registers { f: post.registers.f, ..pre.registers })))
            &&& (det_read(pre.registers.spec_get_hl()) ==> post.registers.f == spec_flags(bus_read(pre, pre.registers.spec_get_hl()) & 0x08 == 0, false, true, spec_carry(pre.registers.f)))
        },
        0x5F => {
            &&& (post.wf())
            &&& (post == with_regs(pre, (Registers { f: spec_flags(pre.registers.a & 0x08 == 0, false, true, spec_carry(pre.registers.f)), ..pre.registers })))
        },
        0x60 => {
            &&& (post.wf())
            &&& (post == with_regs(pre, (Registers { f: spec_flags(pre.registers.b & 0x10 == 0, false, true, spec_carry(pre.registers.f)), ..pre.registers })))
        },
        0x61 => {
            &&& (post.wf())
            &&& (post == with_regs(pre, (Registers { f: spec_flags(pre.registers.c & 0x10 == 0, false, true, spec_carry(pre.registers.f)), ..pre.registers })))
        },
        0x62 => {
            &&& (post.wf())
            &&& (post == with_regs(pre, (Registers { f: spec_flags(pre.registers.d & 0x10 == 0, false, true, spec_carry(pre.registers.f)), ..pre.registers })))
        },
        0x63 => {
            &&& (post.wf())
            &&& (post == with_regs(pre, (Registers { f: spec_flags(pre.registers.e & 0x10 == 0, false, true, spec_carry(pre.registers.f)), ..pre.registers })))
        },
        0x64 => {
            &&& (post.wf())
            &&& (post == with_regs(pre, (Registers { f: spec_flags(pre.registers.h & 0x10 == 0, false, true, spec_carry(pre.registers.f)), ..pre.registers })))
        },
        0x65 => {
            &&& (post.wf())
            &&& (post == with_regs(pre, (Registers { f: spec_flags(pre.registers.l & 0x10 == 0, false, true, spec_carry(pre.registers.f)), ..pre.registers })))
        },
        0x66 => {
            &&& (post.wf())
            &&& (post == with_regs(pre, (Registers { f: post.registers.f, ..pre.registers })))
            &&& (det_read(pre.registers.spec_get_hl()) ==> post.registers.f == spec_flags(bus_read(pre, pre.registers.spec_get_hl()) & 0x10 == 0, false, true, spec_carry(pre.registers.f)))
        },
        0x67 => {
            &&& (post.wf())
            &&& (post == with_regs(pre, (Registers { f: spec_flags(pre.registers.a & 0x10 == 0, false, true, spec_carry(pre.registers.f)), ..pre.registers })))
        },
        0x68 => {
            &&& (post.wf())
            &&& (post == with_regs(pre, (Registers { f: spec_flags(pre.registers.b & 0x20 == 0, false, true, spec_carry(pre.registers.f)), ..pre.registers })))
        },
        0x69 => {
            &&& (post.wf())
            &&& (post == with_regs(pre, (Registers { f: spec_flags(pre.registers.c & 0x20 == 0, false, true, spec_carry(pre.registers.f)), ..pre.registers })))
        },
        0x6A => {
            &&& (post.wf())
            &&& (post == with_regs(pre, (Registers { f: spec_flags(pre.registers.d & 0x20 == 0, false, true, spec_carry(pre.registers.f)), ..pre.registers })))
        },
        0x6B => {
            &&& (post.wf())
            &&& (post == with_regs(pre, (Registers { f: spec_flags(pre.registers.e & 0x20 == 0, false, true, spec_carry(pre.registers.f)), ..pre.registers })))
        },
        0x6C => {
            &&& (post.wf())
            &&& (post == with_regs(pre, (Registers { f: spec_flags(pre.registers.h & 0x20 == 0, false, true, spec_carry(pre.registers.f)), ..pre.registers })))
        },
        0x6D => {
            &&& (post.wf())
            &&& (post == with_regs(pre, (Registers { f: spec_flags(pre.registers.l & 0x20 == 0, false, true, spec_carry(pre.registers.f)), ..pre.registers })))
        },
        0x6E => {
            &&& (post.wf())
            &&& (post == with_regs(pre, (Registers { f: post.registers.f, ..pre.registers })))
            &&& (det_read(pre.registers.spec_get_hl()) ==> post.registers.f == spec_flags(bus_read(pre, pre.registers.spec_get_hl()) & 0x20 == 0, false, true, spec_carry(pre.registers.f)))
        },
        0x6F => {
            &&& (post.wf())
            &&& (post == with_regs(pre, (Registers { f: spec_flags(pre.registers.a & 0x20 == 0, false, true, spec_carry(pre.registers.f)), ..pre.registers })))
        },
        0x70 => {
            &&& (post.wf())
            &&& (post == with_regs(pre, (Registers { f: spec_flags(pre.registers.b & 0x40 == 0, false, true, spec_carry(pre.registers.f)), ..pre.registers })))
        },
        0x71 => {
            &&& (post.wf())
            &&& (post == with_regs(pre, (Registers { f: spec_flags(pre.registers.c & 0x40 == 0, false, true, spec_carry(pre.registers.f)), ..pre.registers })))
        },
        0x72 => {
            &&& (post.wf())
            &&& (post == with_regs(pre, (Registers { f: spec_flags(pre.registers.d & 0x40 == 0, false, true, spec_carry(pre.registers.f)), ..pre.registers })))
        },
        0x73 => {
            &&& (post.wf())
            &&& (post == with_regs(pre, (Registers { f: spec_flags(pre.registers.e & 0x40 == 0, false, true, spec_carry(pre.registers.f)), ..pre.registers })))
        },
        0x74 => {
            &&& (post.wf())
            &&& (post == with_regs(pre, (Registers { f: spec_flags(pre.registers.h & 0x40 == 0, false, true, spec_carry(pre.registers.f)), ..pre.registers })))
        },
        0x75 => {
            &&& (post.wf())
            &&& (post == with_regs(pre, (Registers { f: spec_flags(pre.registers.l & 0x40 == 0, false, true, spec_carry(pre.registers.f)), ..pre.registers })))
        },
        0x76 => {
            &&& (post.wf())
            &&& (post == with_regs(pre, (Registers { f: post.registers.f, ..pre.registers })))
            &&& (det_read(pre.registers.spec_get_hl()) ==> post.registers.f == spec_flags(bus_read(pre, pre.registers.spec_get_hl()) & 0x40 == 0, false, true, spec_carry(pre.registers.f)))
        },
        0x77 => {
            &&& (post.wf())
            &&& (post == with_regs(pre, (Registers { f: spec_flags(pre.registers.a & 0x40 == 0, false, true, spec_carry(pre.registers.f)), ..pre.registers })))
        },
        0x78 => {
            &&& (post.wf())
            &&& (post == with_regs(pre, (Registers { f: spec_flags(pre.registers.b & 0x80 == 0, false, true, spec_carry(pre.registers.f)), ..pre.registers })))
        },
        0x79 => {
            &&& (post.wf())
            &&& (post == with_regs(pre, (Registers { f: spec_flags(pre.registers.c & 0x80 == 0, false, true, spec_carry(pre.registers.f)), ..pre.registers })))
        },
        0x7A => {
            &&& (post.wf())
            &&& (post == with_regs(pre, (Registers { f: spec_flags(pre.registers.d & 0x80 == 0, false, true, spec_carry(pre.registers.f)), ..pre.registers })))
        },
        0x7B => {
            &&& (post.wf())
            &&& (post == with_regs(pre, (Registers { f: spec_flags(pre.registers.e & 0x80 == 0, false, true, spec_carry(pre.registers.f)), ..pre.registers })))
        },
        0x7C => {
            &&& (post.wf())
            &&& (post == with_regs(pre, (Registers { f: spec_flags(pre.registers.h & 0x80 == 0, false, true, spec_carry(pre.registers.f)), ..pre.registers })))
        },
        0x7D => {
            &&& (post.wf())
            &&& (post == with_regs(pre, (Registers { f: spec_flags(pre.registers.l & 0x80 == 0, false, true, spec_carry(pre.registers.f)), ..pre.registers })))
        },
        0x7E => {
            &&& (post.wf())
            &&& (post == with_regs(pre, (Registers { f: post.registers.f, ..pre.registers })))
            &&& (det_read(pre.registers.spec_get_hl()) ==> post.registers.f == spec_flags(bus_read(pre, pre.registers.spec_get_hl()) & 0x80 == 0, false, true, spec_carry(pre.registers.f)))
        },
        0x7F => {
            &&& (post.wf())
            &&& (post == with_regs(pre, (Registers { f: spec_flags(pre.registers.a & 0x80 == 0, false, true, spec_carry(pre.registers.f)), ..pre.registers })))
        },
        0x80 => {
            &&& (post.wf())
            &&& (post == with_regs(pre, (Registers { b: pre.registers.b & !0x01u8, ..pre.registers })))
        },
        0x81 => {
            &&& (post.wf())
            &&& (post == with_regs(pre, (Registers { c: pre.registers.c & !0x01u8, ..pre.registers })))
        },
        0x82 => {
            &&& (post.wf())
            &&& (post == with_regs(pre, (Registers { d: pre.registers.d & !0x01u8, ..pre.registers })))
        },
        0x83 => {
            &&& (post.wf())
            &&& (post == with_regs(pre, (Registers { e: pre.registers.e & !0x01u8, ..pre.registers })))
        },
        0x84 => {
            &&& (post.wf())
            &&& (post == with_regs(pre, (Registers { h: pre.registers.h & !0x01u8, ..pre.registers })))
        },
        0x85 => {
            &&& (post.wf())
            &&& (post == with_regs(pre, (Registers { l: pre.registers.l & !0x01u8, ..pre.registers })))
        },
        0x86 => {
            &&& (post.wf())
            &&& (post.cpu == pre.cpu)
            &&& (post.registers == pre.registers)
            &&& (det_read(pre.registers.spec_get_hl()) ==> bus_write_ok(pre, pre.registers.spec_get_hl(), bus_read(pre, pre.registers.spec_get_hl()) & !0x01u8, post))
        },
        0x87 => {
            &&& (post.wf())
            &&& (post == with_regs(pre, (Registers { a: pre.registers.a & !0x01u8, ..pre.registers })))
        },
        0x88 => {
            &&& (post.wf())
            &&& (post == with_regs(pre, (Registers { b: pre.registers.b & !0x02u8, ..pre.registers })))
        },
        0x89 => {
            &&& (post.wf())
            &&& (post == with_regs(pre, (Registers { c: pre.registers.c & !0x02u8, ..pre.registers })))
        },
        0x8A => {
            &&& (post.wf())
            &&& (post == with_regs(pre, (Registers { d: pre.registers.d & !0x02u8, ..pre.registers })))
        },
        0x8B => {
            &&& (post.wf())
            &&& (post == with_regs(pre, (Registers { e: pre.registers.e & !0x02u8, ..pre.registers })))
        },
        0x8C => {
            &&& (post.wf())
            &&& (post == with_regs(pre, (Registers { h: pre.registers.h & !0x02u8, ..pre.registers })))
        },
        0x8D => {
            &&& (post.wf())
            &&& (post == with_regs(pre, (Registers { l: pre.registers.l & !0x02u8, ..pre.registers })))
        },
        0x8E => {
            &&& (post.wf())
            &&& (post.cpu == pre.cpu)
            &&& (post.registers == pre.registers)
            &&& (det_read(pre.registers.spec_get_hl()) ==> bus_write_ok(pre, pre.registers.spec_get_hl(), bus_read(pre, pre.registers.spec_get_hl()) & !0x02u8, post))
        },
        0x8F => {
            &&& (post.wf())
            &&& (post == with_regs(pre, (Registers { a: pre.registers.a & !0x02u8, ..pre.registers })))
        },
        0x90 => {
            &&& (post.wf())
            &&& (post == with_regs(pre, (Registers { b: pre.registers.b & !0x04u8, ..pre.registers })))
        },
        0x91 => {
            &&& (post.wf())
            &&& (post == with_regs(pre, (Registers { c: pre.registers.c & !0x04u8, ..pre.registers })))
        },
        0x92 => {
            &&& (post.wf())
            &&& (post == with_regs(pre, (Registers { d: pre.registers.d & !0x04u8, ..pre.registers })))
        },
        0x93 => {
            &&& (post.wf())
            &&& (post == with_regs(pre, (Registers { e: pre.registers.e & !0x04u8, ..pre.registers })))
        },
        0x94 => {
            &&& (post.wf())
            &&& (post == with_regs(pre, (Registers { h: pre.registers.h & !0x04u8, ..pre.registers })))
        },
        0x95 => {
            &&& (post.wf())
            &&& (post == with_regs(pre, (Registers { l: pre.registers.l & !0x04u8, ..pre.registers })))
        },
        0x96 => {
            &&& (post.wf())
            &&& (post.cpu == pre.cpu)
            &&& (post.registers == pre.registers)
            &&& (det_read(pre.registers.spec_get_hl()) ==> bus_write_ok(pre, pre.registers.spec_get_hl(), bus_read(pre, pre.registers.spec_get_hl()) & !0x04u8, post))
        },
        0x97 => {
            &&& (post.wf())
            &&& (post == with_regs(pre, (Registers { a: pre.registers.a & !0x04u8, ..pre.registers })))
        },
        0x98 => {
            &&& (post.wf())
            &&& (post == with_regs(pre, (Registers { b: pre.registers.b & !0x08u8, ..pre.registers })))
        },
        0x99 => {
            &&& (post.wf())
            &&& (post == with_regs(pre, (Registers { c: pre.registers.c & !0x08u8, ..pre.registers })))
        },
        0x9A => {
            &&& (post.wf())
            &&& (post == with_regs(pre, (Registers { d: pre.registers.d & !0x08u8, ..pre.registers })))
        },
        0x9B => {
            &&& (post.wf())
            &&& (post == with_regs(pre, (Registers { e: pre.registers.e & !0x08u8, ..pre.registers })))
        },
        0x9C => {
            &&& (post.wf())
            &&& (post == with_regs(pre, (Registers { h: pre.registers.h & !0x08u8, ..pre.registers })))
        },
        0x9D => {
            &&& (post.wf())
            &&& (post == with_regs(pre, (Registers { l: pre.registers.l & !0x08u8, ..pre.registers })))
        },
        0x9E => {
            &&& (post.wf())
            &&& (post.cpu == pre.cpu)
            &&& (post.registers == pre.registers)
            &&& (det_read(pre.registers.spec_get_hl()) ==> bus_write_ok(pre, pre.registers.spec_get_hl(), bus_read(pre, pre.registers.spec_get_hl()) & !0x08u8, post))
        },
        0x9F => {
            &&& (post.wf())
            &&& (post == with_regs(pre, (Registers { a: pre.registers.a & !0x08u8, ..pre.registers })))
        },
        0xA0 => {
            &&& (post.wf())
            &&& (post == with_regs(pre, (Registers { b: pre.registers.b & !0x10u8, ..pre.registers })))
        },
        0xA1 => {
            &&& (post.wf())
            &&& (post == with_regs(pre, (Registers { c: pre.registers.c & !0x10u8, ..pre.registers })))
        },
        0xA2 => {
            &&& (post.wf())
            &&& (post == with_regs(pre, (Registers { d: pre.registers.d & !0x10u8, ..pre.registers })))
        },
        0xA3 => {
            &&& (post.wf())
            &&& (post == with_regs(pre, (Registers { e: pre.registers.e & !0x10u8, ..pre.registers })))
        },
        0xA4 => {
            &&& (post.wf())
            &&& (post == with_regs(pre, (Registers { h: pre.registers.h & !0x10u8, ..pre.registers })))
        },
        0xA5 => {
            &&& (post.wf())
            &&& (post == with_regs(pre, (Registers { l: pre.registers.l & !0x10u8, ..pre.registers })))
        },
        0xA6 => {
            &&& (post.wf())
            &&& (post.cpu == pre.cpu)
            &&& (post.registers == pre.registers)
            &&& (det_read(pre.registers.spec_get_hl()) ==> bus_write_ok(pre, pre.registers.spec_get_hl(), bus_read(pre, pre.registers.spec_get_hl()) & !0x10u8, post))
        },
        0xA7 => {
            &&& (post.wf())
            &&& (post == with_regs(pre, (Registers { a: pre.registers.a & !0x10u8, ..pre.registers })))
        },
        0xA8 => {
            &&& (post.wf())
            &&& (post == with_regs(pre, (Registers { b: pre.registers.b & !0x20u8, ..pre.registers })))
        },
        0xA9 => {
            &&& (post.wf())
            &&& (post == with_regs(pre, (Registers { c: pre.registers.c & !0x20u8, ..pre.registers })))
        },
        0xAA => {
            &&& (post.wf())
            &&& (post == with_regs(pre, (Registers { d: pre.registers.d & !0x20u8, ..pre.registers })))
        },
        0xAB => {
            &&& (post.wf())
            &&& (post == with_regs(pre, (Registers { e: pre.registers.e & !0x20u8, ..pre.registers })))
        },
        0xAC => {
            &&& (post.wf())
            &&& (post == with_regs(pre, (Registers { h: pre.registers.h & !0x20u8, ..pre.registers })))
        },
        0xAD => {
            &&& (post.wf())
            &&& (post == with_regs(pre, (Registers { l: pre.registers.l & !0x20u8, ..pre.registers })))
        },
        0xAE => {
            &&& (post.wf())
            &&& (post.cpu == pre.cpu)
            &&& (post.registers == pre.registers)
            &&& (det_read(pre.registers.spec_get_hl()) ==> bus_write_ok(pre, pre.registers.spec_get_hl(), bus_read(pre, pre.registers.spec_get_hl()) & !0x20u8, post))
        },
        0xAF => {
            &&& (post.wf())
            &&& (post == with_regs(pre, (Registers { a: pre.registers.a & !0x20u8, ..pre.registers })))
        },
        0xB0 => {
            &&& (post.wf())
            &&& (post == with_regs(pre, (Registers { b: pre.registers.b & !0x40u8, ..pre.registers })))
        },
        0xB1 => {
            &&& (post.wf())
            &&& (post == with_regs(pre, (Registers { c: pre.registers.c & !0x40u8, ..pre.registers })))
        },
        0xB2 => {
            &&& (post.wf())
            &&& (post == with_regs(pre, (Registers { d: pre.registers.d & !0x40u8, ..pre.registers })))
        },
        0xB3 => {
            &&& (post.wf())
            &&& (post == with_regs(pre, (Registers { e: pre.registers.e & !0x40u8, ..pre.registers })))
        },
        0xB4 => {
            &&& (post.wf())
            &&& (post == with_regs(pre, (Registers { h: pre.registers.h & !0x40u8, ..pre.registers })))
        },
        0xB5 => {
            &&& (post.wf())
            &&& (post == with_regs(pre, (Registers { l: pre.registers.l & !0x40u8, ..pre.registers })))
        },
        0xB6 => {
            &&& (post.wf())
            &&& (post.cpu == pre.cpu)
            &&& (post.registers == pre.registers)
            &&& (det_read(pre.registers.spec_get_hl()) ==> bus_write_ok(pre, pre.registers.spec_get_hl(), bus_read(pre, pre.registers.spec_get_hl()) & !0x40u8, post))
        },
        0xB7 => {
            &&& (post.wf())
            &&& (post == with_regs(pre, (Registers { a: pre.registers.a & !0x40u8, ..pre.registers })))
        },
        0xB8 => {
            &&& (post.wf())
            &&& (post == with_regs(pre, (Registers { b: pre.registers.b & !0x80u8, ..pre.registers })))
        },
        0xB9 => {
            &&& (post.wf())
            &&& (post == with_regs(pre, (Registers { c: pre.registers.c & !0x80u8, ..pre.registers })))
        },
        0xBA => {
            &&& (post.wf())
            &&& (post == with_regs(pre, (Registers { d: pre.registers.d & !0x80u8, ..pre.registers })))
        },
        0xBB => {
            &&& (post.wf())
            &&& (post == with_regs(pre, (Registers { e: pre.registers.e & !0x80u8, ..pre.registers })))
        },
        0xBC => {
            &&& (post.wf())
            &&& (post == with_regs(pre, (Registers { h: pre.registers.h & !0x80u8, ..pre.registers })))
        },
        0xBD => {
            &&& (post.wf())
            &&& (post == with_regs(pre, (Registers { l: pre.registers.l & !0x80u8, ..pre.registers })))
        },
        0xBE => {
            &&& (post.wf())
            &&& (post.cpu == pre.cpu)
            &&& (post.registers == pre.registers)
            &&& (det_read(pre.registers.spec_get_hl()) ==> bus_write_ok(pre, pre.registers.spec_get_hl(), bus_read(pre, pre.registers.spec_get_hl()) & !0x80u8, post))
        },
        0xBF => {
            &&& (post.wf())
            &&& (post == with_regs(pre, (Registers { a: pre.registers.a & !0x80u8, ..pre.registers })))
        },
        0xC0 => {
            &&& (post.wf())
            &&& (post == with_regs(pre, (Registers { b: pre.registers.b | 0x01, ..pre.registers })))
        },
        0xC1 => {
            &&& (post.wf())
            &&& (post == with_regs(pre, (Registers { c: pre.registers.c | 0x01, ..pre.registers })))
        },
        0xC2 => {
            &&& (post.wf())
            &&& (post == with_regs(pre, (Registers { d: pre.registers.d | 0x01, ..pre.registers })))
        },
        0xC3 => {
            &&& (post.wf())
            &&& (post == with_regs(pre, (Registers { e: pre.registers.e | 0x01, ..pre.registers })))
        },
        0xC4 => {
            &&& (post.wf())
            &&& (post == with_regs(pre, (Registers { h: pre.registers.h | 0x01, ..pre.registers })))
        },
        0xC5 => {
            &&& (post.wf())
            &&& (post == with_regs(pre, (Registers { l: pre.registers.l | 0x01, ..pre.registers })))
        },
        0xC6 => {
            &&& (post.wf())
            &&& (post.cpu == pre.cpu)
            &&& (post.registers == pre.registers)
            &&& (det_read(pre.registers.spec_get_hl()) ==> bus_write_ok(pre, pre.registers.spec_get_hl(), bus_read(pre, pre.registers.spec_get_hl()) | 0x01, post))
        },
        0xC7 => {
            &&& (post.wf())
            &&& (post == with_regs(pre, (Registers { a: pre.registers.a | 0x01, ..pre.registers })))
        },
        0xC8 => {
            &&& (post.wf())
            &&& (post == with_regs(pre, (Registers { b: pre.registers.b | 0x02, ..pre.registers })))
        },
        0xC9 => {
            &&& (post.wf())
            &&& (post == with_regs(pre, (Registers { c: pre.registers.c | 0x02, ..pre.registers })))
        },
        0xCA => {
            &&& (post.wf())
            &&& (post == with_regs(pre, (Registers { d: pre.registers.d | 0x02, ..pre.registers })))
        },
        0xCB => {
            &&& (post.wf())
            &&& (post == with_regs(pre, (Registers { e: pre.registers.e | 0x02, ..pre.registers })))
        },
        0xCC => {
            &&& (post.wf())
            &&& (post == with_regs(pre, (Registers { h: pre.registers.h | 0x02, ..pre.registers })))
        },
        0xCD => {
            &&& (post.wf())
            &&& (post == with_regs(pre, (Registers { l: pre.registers.l | 0x02, ..pre.registers })))
        },
        0xCE => {
            &&& (post.wf())
            &&& (post.cpu == pre.cpu)
            &&& (post.registers == pre.registers)
            &&& (det_read(pre.registers.spec_get_hl()) ==> bus_write_ok(pre, pre.registers.spec_get_hl(), bus_read(pre, pre.registers.spec_get_hl()) | 0x02, post))
        },
        0xCF => {
            &&& (post.wf())
            &&& (post == with_regs(pre, (Registers { a: pre.registers.a | 0x02, ..pre.registers })))
        },
        0xD0 => {
            &&& (post.wf())
            &&& (post == with_regs(pre, (Registers { b: pre.registers.b | 0x04, ..pre.registers })))
        },
        0xD1 => {
            &&& (post.wf())
            &&& (post == with_regs(pre, (Registers { c: pre.registers.c | 0x04, ..pre.registers })))
        },
        0xD2 => {
            &&& (post.wf())
            &&& (post == with_regs(pre, (Registers { d: pre.registers.d | 0x04, ..pre.registers })))
        },
        0xD3 => {
            &&& (post.wf())
            &&& (post == with_regs(pre, (Registers { e: pre.registers.e | 0x04, ..pre.registers })))
        },
        0xD4 => {
            &&& (post.wf())
            &&& (post == with_regs(pre, (Registers { h: pre.registers.h | 0x04, ..pre.registers })))
        },
        0xD5 => {
            &&& (post.wf())
            &&& (post == with_regs(pre, (Registers { l: pre.registers.l | 0x04, ..pre.registers })))
        },
        0xD6 => {
            &&& (post.wf())
            &&& (post.cpu == pre.cpu)
            &&& (post.registers == pre.registers)
            &&& (det_read(pre.registers.spec_get_hl()) ==> bus_write_ok(pre, pre.registers.spec_get_hl(), bus_read(pre, pre.registers.spec_get_hl()) | 0x04, post))
        },
        0xD7 => {
            &&& (post.wf())
            &&& (post == with_regs(pre, (Registers { a: pre.registers.a | 0x04, ..pre.registers })))
        },
        0xD8 => {
            &&& (post.wf())
            &&& (post == with_regs(pre, (Registers { b: pre.registers.b | 0x08, ..pre.registers })))
        },
        0xD9 => {
            &&& (post.wf())
            &&& (post == with_regs(pre, (Registers { c: pre.registers.c | 0x08, ..pre.registers })))
        },
        0xDA => {
            &&& (post.wf())
            &&& (post == with_regs(pre, (Registers { d: pre.registers.d | 0x08, ..pre.registers })))
        },
        0xDB => {
            &&& (post.wf())
            &&& (post == with_regs(pre, (Registers { e: pre.registers.e | 0x08, ..pre.registers })))
        },
        0xDC => {
            &&& (post.wf())
            &&& (post == with_regs(pre, (Registers { h: pre.registers.h | 0x08, ..pre.registers })))
        },
        0xDD => {
            &&& (post.wf())
            &&& (post == with_regs(pre, (Registers { l: pre.registers.l | 0x08, ..pre.registers })))
        },
        0xDE => {
            &&& (post.wf())
            &&& (post.cpu == pre.cpu)
            &&& (post.registers == pre.registers)
            &&& (det_read(pre.registers.spec_get_hl()) ==> bus_write_ok(pre, pre.registers.spec_get_hl(), bus_read(pre, pre.registers.spec_get_hl()) | 0x08, post))
        },
        0xDF => {
            &&& (post.wf())
            &&& (post == with_regs(pre, (Registers { a: pre.registers.a | 0x08, ..pre.registers })))
        },
        0xE0 => {
            &&& (post.wf())
            &&& (post == with_regs(pre, (Registers { b: pre.registers.b | 0x10, ..pre.registers })))
        },
        0xE1 => {
            &&& (post.wf())
            &&& (post == with_regs(pre, (Registers { c: pre.registers.c | 0x10, ..pre.registers })))
        },
        0xE2 => {
            &&& (post.wf())
            &&& (post == with_regs(pre, (Registers { d: pre.registers.d | 0x10, ..pre.registers })))
        },
        0xE3 => {
            &&& (post.wf())
            &&& (post == with_regs(pre, (Registers { e: pre.registers.e | 0x10, ..pre.registers })))
        },
        0xE4 => {
            &&& (post.wf())
            &&& (post == with_regs(pre, (Registers { h: pre.registers.h | 0x10, ..pre.registers })))
        },
        0xE5 => {
            &&& (post.wf())
            &&& (post == with_regs(pre, (Registers { l: pre.registers.l | 0x10, ..pre.registers })))
        },
        0xE6 => {
            &&& (post.wf())
            &&& (post.cpu == pre.cpu)
            &&& (post.registers == pre.registers)
            &&& (det_read(pre.registers.spec_get_hl()) ==> bus_write_ok(pre, pre.registers.spec_get_hl(), bus_read(pre, pre.registers.spec_get_hl()) | 0x10, post))
        },
        0xE7 => {
            &&& (post.wf())
            &&& (post == with_regs(pre, (Registers { a: pre.registers.a | 0x10, ..pre.registers })))
        },
        0xE8 => {
            &&& (post.wf())
            &&& (post == with_regs(pre, (Registers { b: pre.registers.b | 0x20, ..pre.registers })))
        },
        0xE9 => {
            &&& (post.wf())
            &&& (post == with_regs(pre, (Registers { c: pre.registers.c | 0x20, ..pre.registers })))
        },
        0xEA => {
            &&& (post.wf())
            &&& (post == with_regs(pre, (Registers { d: pre.registers.d | 0x20, ..pre.registers })))
        },
        0xEB => {
            &&& (post.wf())
            &&& (post == with_regs(pre, (Registers { e: pre.registers.e | 0x20, ..pre.registers })))
        },
        0xEC => {
            &&& (post.wf())
            &&& (post == with_regs(pre, (Registers { h: pre.registers.h | 0x20, ..pre.registers })))
        },
        0xED => {
            &&& (post.wf())
            &&& (post == with_regs(pre, (Registers { l: pre.registers.l | 0x20, ..pre.registers })))
        },
        0xEE => {
            &&& (post.wf())
            &&& (post.cpu == pre.cpu)
            &&& (post.registers == pre.registers)
            &&& (det_read(pre.registers.spec_get_hl()) ==> bus_write_ok(pre, pre.registers.spec_get_hl(), bus_read(pre, pre.registers.spec_get_hl()) | 0x20, post))
        },
        0xEF => {
            &&& (post.wf())
            &&& (post == with_regs(pre, (Registers { a: pre.registers.a | 0x20, ..pre.registers })))
        },
        0xF0 => {
            &&& (post.wf())
            &&& (post == with_regs(pre, (Registers { b: pre.registers.b | 0x40, ..pre.registers })))
        },
        0xF1 => {
            &&& (post.wf())
            &&& (post == with_regs(pre, (Registers { c: pre.registers.c | 0x40, ..pre.registers })))
        },
        0xF2 => {
            &&& (post.wf())
            &&& (post == with_regs(pre, (Registers { d: pre.registers.d | 0x40, ..pre.registers })))
        },
        0xF3 => {
            &&& (post.wf())
            &&& (post == with_regs(pre, (Registers { e: pre.registers.e | 0x40, ..pre.registers })))
        },
        0xF4 => {
            &&& (post.wf())
            &&& (post == with_regs(pre, (Registers { h: pre.registers.h | 0x40, ..pre.registers })))
        },
        0xF5 => {
            &&& (post.wf())
            &&& (post == with_regs(pre, (Registers { l: pre.registers.l | 0x40, ..pre.registers })))
        },
        0xF6 => {
            &&& (post.wf())
            &&& (post.cpu == pre.cpu)
            &&& (post.registers == pre.registers)
            &&& (det_read(pre.registers.spec_get_hl()) ==> bus_write_ok(pre, pre.registers.spec_get_hl(), bus_read(pre, pre.registers.spec_get_hl()) | 0x40, post))
        },
        0xF7 => {
            &&& (post.wf())
            &&& (post == with_regs(pre, (Registers { a: pre.registers.a | 0x40, ..pre.registers })))
        },
        0xF8 => {
            &&& (post.wf())
            &&& (post == with_regs(pre, (Registers { b: pre.registers.b | 0x80, ..pre.registers })))
        },
        0xF9 => {
            &&& (post.wf())
            &&& (post == with_regs(pre, (Registers { c: pre.registers.c | 0x80, ..pre.registers })))
        },
        0xFA => {
            &&& (post.wf())
            &&& (post == with_regs(pre, (Registers { d: pre.registers.d | 0x80, ..pre.registers })))
        },
        0xFB => {
            &&& (post.wf())
            &&& (post == with_regs(pre, (Registers { e: pre.registers.e | 0x80, ..pre.registers })))
        },
        0xFC => {
            &&& (post.wf())
            &&& (post == with_regs(pre, (Registers { h: pre.registers.h | 0x80, ..pre.registers })))
        },
        0xFD => {
            &&& (post.wf())
            &&& (post == with_regs(pre, (Registers { l: pre.registers.l | 0x80, ..pre.registers })))
        },
        0xFE => {
            &&& (post.wf())
            &&& (post.cpu == pre.cpu)
            &&& (post.registers == pre.registers)
            &&& (det_read(pre.registers.spec_get_hl()) ==> bus_write_ok(pre, pre.registers.spec_get_hl(), bus_read(pre, pre.registers.spec_get_hl()) | 0x80, post))
        },
        _ => {
            &&& (post.wf())
            &&& (post == with_regs(pre, (Registers { a: pre.registers.a | 0x80, ..pre.registers })))
        },
    }
}

/// Decodes one extended-table opcode and runs its operation, whose
/// exact effect `exec_cb_ok` states per opcode.
pub fn execute_extended(e: &mut Emulator, opcode: u8)
    requires
        old(e).wf(),
    ensures
        final(e).wf(),
        final(e)@.cpu == old(e)@.cpu,
        exec_cb_ok(opcode, old(e)@, final(e)@),
{
    match opcode {
        0x00 => rlc_b(e),
        0x01 => rlc_c(e),
        0x02 => rlc_d(e),
        0x03 => rlc_e(e),
        0x04 => rlc_h(e),
        0x05 => rlc_l(e),
        0x06 => rlc_hlp(e),
        0x07 => rlc_a(e),
        0x08 => rrc_b(e),
        0x09 => rrc_c(e),
        0x0A => rrc_d(e),
        0x0B => rrc_e(e),
        0x0C => rrc_h(e),
        0x0D => rrc_l(e),
        0x0E => rrc_hlp(e),
        0x0F => rrc_a(e),
        0x10 => rl_b(e),
        0x11 => rl_c(e),
        0x12 => rl_d(e),
        0x13 => rl_e(e),
        0x14 => rl_h(e),
        0x15 => rl_l(e),
        0x16 => rl_hlp(e),
        0x17 => rl_a(e),
        0x18 => rr_b(e),
        0x19 => rr_c(e),
        0x1A => rr_d(e),
        0x1B => rr_e(e),
        0x1C => rr_h(e),
        0x1D => rr_l(e),
        0x1E => rr_hlp(e),
        0x1F => rr_a(e),
        0x20 => sla_b(e),
        0x21 => sla_c(e),
        0x22 => sla_d(e),
        0x23 => sla_e(e),
        0x24 => sla_h(e),
        0x25 => sla_l(e),
        0x26 => sla_hlp(e),
        0x27 => sla_a(e),
        0x28 => sra_b(e),
        0x29 => sra_c(e),
        0x2A => sra_d(e),
        0x2B => sra_e(e),
        0x2C => sra_h(e),
        0x2D => sra_l(e),
        0x2E => sra_hlp(e),
        0x2F => sra_a(e),
        0x30 => swap_b(e),
        0x31 => swap_c(e),
        0x32 => swap_d(e),
        0x33 => swap_e(e),
        0x34 => swap_h(e),
        0x35 => swap_l(e),
        0x36 => swap_hlp(e),
        0x37 => swap_a(e),
        0x38 => srl_b(e),
        0x39 => srl_c(e),
        0x3A => srl_d(e),
        0x3B => srl_e(e),
        0x3C => srl_h(e),
        0x3D => srl_l(e),
        0x3E => srl_hlp(e),
        0x3F => srl_a(e),
        0x40 => bit_0_b(e),
        0x41 => bit_0_c(e),
        0x42 => bit_0_d(e),
        0x43 => bit_0_e(e),
        0x44 => bit_0_h(e),
        0x45 => bit_0_l(e),
        0x46 => bit_0_hlp(e),
        0x47 => bit_0_a(e),
        0x48 => bit_1_b(e),
        0x49 => bit_1_c(e),
        0x4A => bit_1_d(e),
        0x4B => bit_1_e(e),
        0x4C => bit_1_h(e),
        0x4D => bit_1_l(e),
        0x4E => bit_1_hlp(e),
        0x4F => bit_1_a(e),
        0x50 => bit_2_b(e),
        0x51 => bit_2_c(e),
        0x52 => bit_2_d(e),
        0x53 => bit_2_e(e),
        0x54 => bit_2_h(e),
        0x55 => bit_2_l(e),
        0x56 => bit_2_hlp(e),
        0x57 => bit_2_a(e),
        0x58 => bit_3_b(e),
        0x59 => bit_3_c(e),
        0x5A => bit_3_d(e),
        0x5B => bit_3_e(e),
        0x5C => bit_3_h(e),
        0x5D => bit_3_l(e),
        0x5E => bit_3_hlp(e),
        0x5F => bit_3_a(e),
        0x60 => bit_4_b(e),
        0x61 => bit_4_c(e),
        0x62 => bit_4_d(e),
        0x63 => bit_4_e(e),
        0x64 => bit_4_h(e),
        0x65 => bit_4_l(e),
        0x66 => bit_4_hlp(e),
        0x67 => bit_4_a(e),
        0x68 => bit_5_b(e),
        0x69 => bit_5_c(e),
        0x6A => bit_5_d(e),
        0x6B => bit_5_e(e),
        0x6C => bit_5_h(e),
        0x6D => bit_5_l(e),
        0x6E => bit_5_hlp(e),
        0x6F => bit_5_a(e),
        0x70 => bit_6_b(e),
        0x71 => bit_6_c(e),
        0x72 => bit_6_d(e),
        0x73 => bit_6_e(e),
        0x74 => bit_6_h(e),
        0x75 => bit_6_l(e),
        0x76 => bit_6_hlp(e),
        0x77 => bit_6_a(e),
        0x78 => bit_7_b(e),
        0x79 => bit_7_c(e),
        0x7A => bit_7_d(e),
        0x7B => bit_7_e(e),
        0x7C => bit_7_h(e),
        0x7D => bit_7_l(e),
        0x7E => bit_7_hlp(e),
        0x7F => bit_7_a(e),
        0x80 => res_0_b(e),
        0x81 => res_0_c(e),
        0x82 => res_0_d(e),
        0x83 => res_0_e(e),
        0x84 => res_0_h(e),
        0x85 => res_0_l(e),
        0x86 => res_0_hlp(e),
        0x87 => res_0_a(e),
        0x88 => res_1_b(e),
        0x89 => res_1_c(e),
        0x8A => res_1_d(e),
        0x8B => res_1_e(e),
        0x8C => res_1_h(e),
        0x8D => res_1_l(e),
        0x8E => res_1_hlp(e),
        0x8F => res_1_a(e),
        0x90 => res_2_b(e),
        0x91 => res_2_c(e),
        0x92 => res_2_d(e),
        0x93 => res_2_e(e),
        0x94 => res_2_h(e),
        0x95 => res_2_l(e),
        0x96 => res_2_hlp(e),
        0x97 => res_2_a(e),
        0x98 => res_3_b(e),
        0x99 => res_3_c(e),
        0x9A => res_3_d(e),
        0x9B => res_3_e(e),
        0x9C => res_3_h(e),
        0x9D => res_3_l(e),
        0x9E => res_3_hlp(e),
        0x9F => res_3_a(e),
        0xA0 => res_4_b(e),
        0xA1 => res_4_c(e),
        0xA2 => res_4_d(e),
        0xA3 => res_4_e(e),
        0xA4 => res_4_h(e),
        0xA5 => res_4_l(e),
        0xA6 => res_4_hlp(e),
        0xA7 => res_4_a(e),
        0xA8 => res_5_b(e),
        0xA9 => res_5_c(e),
        0xAA => res_5_d(e),
        0xAB => res_5_e(e),
        0xAC => res_5_h(e),
        0xAD => res_5_l(e),
        0xAE => res_5_hlp(e),
        0xAF => res_5_a(e),
        0xB0 => res_6_b(e),
        0xB1 => res_6_c(e),
        0xB2 => res_6_d(e),
        0xB3 => res_6_e(e),
        0xB4 => res_6_h(e),
        0xB5 => res_6_l(e),
        0xB6 => res_6_hlp(e),
        0xB7 => res_6_a(e),
        0xB8 => res_7_b(e),
        0xB9 => res_7_c(e),
        0xBA => res_7_d(e),
        0xBB => res_7_e(e),
        0xBC => res_7_h(e),
        0xBD => res_7_l(e),
        0xBE => res_7_hlp(e),
        0xBF => res_7_a(e),
        0xC0 => set_0_b(e),
        0xC1 => set_0_c(e),
        0xC2 => set_0_d(e),
        0xC3 => set_0_e(e),
        0xC4 => set_0_h(e),
        0xC5 => set_0_l(e),
        0xC6 => set_0_hlp(e),
        0xC7 => set_0_a(e),
        0xC8 => set_1_b(e),
        0xC9 => set_1_c(e),
        0xCA => set_1_d(e),
        0xCB => set_1_e(e),
        0xCC => set_1_h(e),
        0xCD => set_1_l(e),
        0xCE => set_1_hlp(e),
        0xCF => set_1_a(e),
        0xD0 => set_2_b(e),
        0xD1 => set_2_c(e),
        0xD2 => set_2_d(e),
        0xD3 => set_2_e(e),
        0xD4 => set_2_h(e),
        0xD5 => set_2_l(e),
        0xD6 => set_2_hlp(e),
        0xD7 => set_2_a(e),
        0xD8 => set_3_b(e),
        0xD9 => set_3_c(e),
        0xDA => set_3_d(e),
        0xDB => set_3_e(e),
        0xDC => set_3_h(e),
        0xDD => set_3_l(e),
        0xDE => set_3_hlp(e),
        0xDF => set_3_a(e),
        0xE0 => set_4_b(e),
        0xE1 => set_4_c(e),
        0xE2 => set_4_d(e),
        0xE3 => set_4_e(e),
        0xE4 => set_4_h(e),
        0xE5 => set_4_l(e),
        0xE6 => set_4_hlp(e),
        0xE7 => set_4_a(e),
        0xE8 => set_5_b(e),
        0xE9 => set_5_c(e),
        0xEA => set_5_d(e),
        0xEB => set_5_e(e),
        0xEC => set_5_h(e),
        0xED => set_5_l(e),
        0xEE => set_5_hlp(e),
        0xEF => set_5_a(e),
        0xF0 => set_6_b(e),
        0xF1 => set_6_c(e),
        0xF2 => set_6_d(e),
        0xF3 => set_6_e(e),
        0xF4 => set_6_h(e),
        0xF5 => set_6_l(e),
        0xF6 => set_6_hlp(e),
        0xF7 => set_6_a(e),
        0xF8 => set_7_b(e),
        0xF9 => set_7_c(e),
        0xFA => set_7_d(e),
        0xFB => set_7_e(e),
        0xFC => set_7_h(e),
        0xFD => set_7_l(e),
        0xFE => set_7_hlp(e),
        _ => set_7_a(e),
    }
}

} // verus!
