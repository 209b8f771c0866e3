//! The register file: eight 8-bit general registers paired into 16-bit
//! views, the stack pointer, the program counter and the flag nibble.

use vstd::prelude::*;

verus! {

/// Zero flag: the last operation produced 0.
pub const FLAG_ZERO: u8 = 0x80;
/// Subtract flag: the last operation was a subtraction.
pub const FLAG_NEGATIVE: u8 = 0x40;
/// Half-carry flag: carry or borrow out of bit 3.
pub const FLAG_HALF_CARRY: u8 = 0x20;
/// Carry flag: carry or borrow out of the top bit.
pub const FLAG_CARRY: u8 = 0x10;

/// The flag register `f` keeps its four flags in bits 7..4
/// (Z, N, H, C); flag writes force the low nibble to zero.
#[derive(Clone, Copy, Debug, PartialEq, Eq, Structural)]
pub struct Registers {
    pub a: u8,
    pub f: u8,
    pub b: u8,
    pub c: u8,
    pub d: u8,
    pub e: u8,
    pub h: u8,
    pub l: u8,
    pub sp: u16,
    pub pc: u16,
}

/// True when the mask `m` has at least one bit set in `f`.
pub open spec fn spec_flag_set(f: u8, m: u8) -> bool {
    f & m != 0
}

/// The value of `f` after the flags in `m` are switched on (`v` true)
/// or off (`v` false); the low nibble is forced to zero either way.
pub open spec fn spec_apply_flags(f: u8, m: u8, v: bool) -> u8 {
    if v {
        (f | m) & 0xF0
    } else {
        (f & !m) & 0xF0
    }
}

/// The high byte of a 16-bit value.
pub open spec fn spec_high_byte(v: u16) -> u8 {
    ((v & 0xFF00) >> 8) as u8
}

/// The low byte of a 16-bit value.
pub open spec fn spec_low_byte(v: u16) -> u8 {
    (v & 0x00FF) as u8
}

/// Two bytes combined big-endian into a 16-bit value.
pub open spec fn spec_pair(hi: u8, lo: u8) -> u16 {
    ((hi as u16) << 8) | (lo as u16)
}

/// A 16-bit value incremented modulo 2^16.
pub open spec fn spec_inc16(v: u16) -> u16 {
    if v == 0xFFFF {
        0
    } else {
        (v + 1) as u16
    }
}

/// A 16-bit value decremented modulo 2^16.
pub open spec fn spec_dec16(v: u16) -> u16 {
    if v == 0 {
        0xFFFF
    } else {
        (v - 1) as u16
    }
}

impl Registers {
    /// The documented post-boot register values.
    pub open spec fn spec_boot() -> Registers {
        Registers {
            a: 0x01,
            f: 0xB0,
            b: 0x00,
            c: 0x13,
            d: 0x00,
            e: 0xD8,
            h: 0x01,
            l: 0x4D,
            sp: 0xFFFE,
            pc: 0x0100,
        }
    }

    pub open spec fn spec_get_af(self) -> u16 {
        spec_pair(self.a, self.f)
    }

    pub open spec fn spec_get_bc(self) -> u16 {
        spec_pair(self.b, self.c)
    }

    pub open spec fn spec_get_de(self) -> u16 {
        spec_pair(self.d, self.e)
    }

    pub open spec fn spec_get_hl(self) -> u16 {
        spec_pair(self.h, self.l)
    }

    pub open spec fn spec_set_af(self, value: u16) -> Registers {
        Registers { a: spec_high_byte(value), f: spec_low_byte(value), ..self }
    }

    pub open spec fn spec_set_bc(self, value: u16) -> Registers {
        Registers { b: spec_high_byte(value), c: spec_low_byte(value), ..self }
    }

    pub open spec fn spec_set_de(self, value: u16) -> Registers {
        Registers { d: spec_high_byte(value), e: spec_low_byte(value), ..self }
    }

    pub open spec fn spec_set_hl(self, value: u16) -> Registers {
        Registers { h: spec_high_byte(value), l: spec_low_byte(value), ..self }
    }

    /// Power-on construction with the documented post-boot values.
    pub fn new() -> (r: Registers)
        ensures
            r == Registers::spec_boot(),
    {
        Registers {
            a: 0x01,
            f: 0xB0,
            b: 0x00,
            c: 0x13,
            d: 0x00,
            e: 0xD8,
            h: 0x01,
            l: 0x4D,
            sp: 0xFFFE,
            pc: 0x0100,
        }
    }

    /// A user-triggered reset restores exactly the post-boot values.
    pub fn reset(&mut self)
        ensures
            *final(self) == Registers::spec_boot(),
    {
        self.a = 0x01;
        self.f = 0xB0;
        self.b = 0x00;
        self.c = 0x13;
        self.d = 0x00;
        self.e = 0xD8;
        self.h = 0x01;
        self.l = 0x4D;
        self.sp = 0xFFFE;
        self.pc = 0x0100;
    }

    pub fn get_af(&self) -> (r: u16)
        ensures
            r == self.spec_get_af(),
    {
        ((self.a as u16) << 8) | (self.f as u16)
    }

    pub fn get_bc(&self) -> (r: u16)
        ensures
            r == self.spec_get_bc(),
    {
        ((self.b as u16) << 8) | (self.c as u16)
    }

    pub fn get_de(&self) -> (r: u16)
        ensures
            r == self.spec_get_de(),
    {
        ((self.d as u16) << 8) | (self.e as u16)
    }

    pub fn get_hl(&self) -> (r: u16)
        ensures
            r == self.spec_get_hl(),
    {
        ((self.h as u16) << 8) | (self.l as u16)
    }

    pub fn set_af(&mut self, value: u16)
        ensures
            *final(self) == old(self).spec_set_af(value),
    {
        self.a = ((value & 0xFF00) >> 8) as u8;
        self.f = (value & 0x00FF) as u8;
    }

    pub fn set_bc(&mut self, value: u16)
        ensures
            *final(self) == old(self).spec_set_bc(value),
    {
        self.b = ((value & 0xFF00) >> 8) as u8;
        self.c = (value & 0x00FF) as u8;
    }

    pub fn set_de(&mut self, value: u16)
        ensures
            *final(self) == old(self).spec_set_de(value),
    {
        self.d = ((value & 0xFF00) >> 8) as u8;
        self.e = (value & 0x00FF) as u8;
    }

    pub fn set_hl(&mut self, value: u16)
        ensures
            *final(self) == old(self).spec_set_hl(value),
    {
        self.h = ((value & 0xFF00) >> 8) as u8;
        self.l = (value & 0x00FF) as u8;
    }

    /// Post-decrement: returns the old HL and stores HL - 1 (mod 2^16).
    pub fn decrement_hl(&mut self) -> (r: u16)
        ensures
            r == old(self).spec_get_hl(),
            *final(self) == old(self).spec_set_hl(spec_dec16(old(self).spec_get_hl())),
    {
        let hl = self.get_hl();
        let hl_minus_one: u16 = if hl == 0 {
            0xFFFF
        } else {
            hl - 1
        };
        self.set_hl(hl_minus_one);
        hl
    }

    /// Post-increment: returns the old HL and stores HL + 1 (mod 2^16).
    pub fn increment_hl(&mut self) -> (r: u16)
        ensures
            r == old(self).spec_get_hl(),
            *final(self) == old(self).spec_set_hl(spec_inc16(old(self).spec_get_hl())),
    {
        let hl = self.get_hl();
        let hl_plus_one: u16 = if hl == 0xFFFF {
            0
        } else {
            hl + 1
        };
        self.set_hl(hl_plus_one);
        hl
    }

    /// True when any flag of the mask is set.
    pub fn get_flags(&self, flags: u8) -> (r: bool)
        ensures
            r == spec_flag_set(self.f, flags),
    {
        self.f & flags > 0
    }

    /// True when any flag of the mask is set.
    pub fn is_flag_set(&self, flag: u8) -> (r: bool)
        ensures
            r == spec_flag_set(self.f, flag),
    {
        self.f & flag > 0
    }

    /// Switches the flags of the mask on or off; the low nibble of `f`
    /// is re-masked to zero.
    pub fn set_flags(&mut self, flags: u8, value: bool)
        ensures
            *final(self) == (Registers { f: spec_apply_flags(old(self).f, flags, value), ..*old(self) }),
    {
        if value {
            self.f = (self.f | flags) & 0xF0;
        } else {
            self.f = (self.f & !flags) & 0xF0;
        }
    }

    /// Switches the flags of the mask on; the low nibble of `f` is
    /// re-masked to zero.
    pub fn set_flag(&mut self, flag: u8)
        ensures
            *final(self) == (Registers { f: spec_apply_flags(old(self).f, flag, true), ..*old(self) }),
    {
        self.f = (self.f | flag) & 0xF0;
    }

    /// Switches the flags of the mask off; the low nibble of `f` is
    /// re-masked to zero.
    pub fn clear_flag(&mut self, flag: u8)
        ensures
            *final(self) == (Registers { f: spec_apply_flags(old(self).f, flag, false), ..*old(self) }),
    {
        self.f = (self.f & !flag) & 0xF0;
    }
}

/// Every value written through a flag operation leaves the low nibble
/// of the flag register zero.
pub proof fn lemma_flag_write_masks_low_nibble(f: u8, m: u8, v: bool)
    ensures
        spec_apply_flags(f, m, v) & 0x0F == 0,
{
    assert(((f | m) & 0xF0) & 0x0F == 0) by (bit_vector);
    assert(((f & !m) & 0xF0) & 0x0F == 0) by (bit_vector);
}

/// Splitting a 16-bit value into its two bytes and recombining them
/// big-endian gives the value back: the round trip behind the paired
/// accessors of AF, BC, DE and HL.
pub proof fn lemma_pair_round_trip(v: u16)
    ensures
        spec_pair(spec_high_byte(v), spec_low_byte(v)) == v,
{
    assert(((((v & 0xFF00) >> 8) as u8 as u16) << 8) | ((v & 0x00FF) as u8 as u16) == v)
        by (bit_vector);
}

/// The BC round trip: storing any 16-bit value through the paired
/// setter and reading it back returns the value unchanged.
pub proof fn lemma_bc_round_trip(r: Registers, v: u16)
    ensures
        r.spec_set_bc(v).spec_get_bc() == v,
{
    lemma_pair_round_trip(v);
}

/// The AF round trip, as for BC.
pub proof fn lemma_af_round_trip(r: Registers, v: u16)
    ensures
        r.spec_set_af(v).spec_get_af() == v,
{
    lemma_pair_round_trip(v);
}

/// The DE round trip, as for BC.
pub proof fn lemma_de_round_trip(r: Registers, v: u16)
    ensures
        r.spec_set_de(v).spec_get_de() == v,
{
    lemma_pair_round_trip(v);
}

/// The HL round trip, as for BC.
pub proof fn lemma_hl_round_trip(r: Registers, v: u16)
    ensures
        r.spec_set_hl(v).spec_get_hl() == v,
{
    lemma_pair_round_trip(v);
}

} // verus!
