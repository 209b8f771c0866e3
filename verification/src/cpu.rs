//! Instruction dispatcher state, the shared arithmetic helpers with
//! their documented flag semantics, and the operations of the base
//! opcode table.
//!
//! Flag semantics shared by every helper: Zero means the result is 0,
//! Subtract means the operation was a subtraction, Half-Carry means a
//! carry or borrow out of bit 3, Carry means a carry or borrow out of
//! the top bit of the operation's width. Wraparound modulo the
//! operand width is the defined behaviour of all arithmetic.

use vstd::prelude::*;
use crate::emulator::{Emulator, EmulatorV};
use crate::interrupt::Interrupt;
use crate::memory::{bus_read, bus_read16, bus_write_ok, bus_write16_ok, det_read, det_read16, push16_ok};
use crate::registers::{
    Registers, FLAG_CARRY, FLAG_HALF_CARRY, FLAG_NEGATIVE, FLAG_ZERO, spec_flag_set,
    spec_high_byte, spec_low_byte, spec_inc16, spec_dec16,
};

verus! {

/// Dispatcher state. `stopped` is set by the STOP operation; while it
/// holds, the dispatcher does nothing.
#[derive(Clone, Copy, Debug, PartialEq, Eq, Structural)]
pub struct Cpu {
    pub stopped: bool,
    pub ticks: u64,
}

impl Cpu {
    /// Power-on state: running, no ticks spent.
    pub open spec fn spec_boot() -> Cpu {
        Cpu { stopped: false, ticks: 0 }
    }

    pub fn new() -> (r: Cpu)
        ensures
            r == Cpu::spec_boot(),
    {
        Cpu { stopped: false, ticks: 0 }
    }

    pub fn reset(&mut self)
        ensures
            *final(self) == Cpu::spec_boot(),
    {
        self.stopped = false;
        self.ticks = 0;
    }
}

/// The state with only its register file replaced.
pub open spec fn with_regs(v: EmulatorV, r: Registers) -> EmulatorV {
    EmulatorV { registers: r, ..v }
}

/// The flag byte assembled from the four flags; the low nibble is
/// zero.
pub open spec fn spec_flags(z: bool, n: bool, h: bool, c: bool) -> u8 {
    (if z {
        0x80u8
    } else {
        0u8
    }) | (if n {
        0x40u8
    } else {
        0u8
    }) | (if h {
        0x20u8
    } else {
        0u8
    }) | (if c {
        0x10u8
    } else {
        0u8
    })
}

/// The carry flag of a flag byte.
pub open spec fn spec_carry(f: u8) -> bool {
    f & FLAG_CARRY != 0
}

pub open spec fn spec_inc8(v: u8) -> u8 {
    if v == 255 {
        0
    } else {
        (v + 1) as u8
    }
}

pub open spec fn spec_dec8(v: u8) -> u8 {
    if v == 0 {
        255
    } else {
        (v - 1) as u8
    }
}

/// 8-bit addition modulo 256.
pub open spec fn spec_add8(l: u8, r: u8) -> u8 {
    if l + r > 255 {
        (l + r - 256) as u8
    } else {
        (l + r) as u8
    }
}

/// 8-bit addition with carry-in, modulo 256.
pub open spec fn spec_adc8(a: u8, v: u8, cin: bool) -> u8 {
    let c: int = if cin {
        1
    } else {
        0
    };
    if a + v + c > 255 {
        (a + v + c - 256) as u8
    } else {
        (a + v + c) as u8
    }
}

/// 8-bit subtraction modulo 256.
pub open spec fn spec_sub8(a: u8, v: u8) -> u8 {
    if a >= v {
        (a - v) as u8
    } else {
        (a + 256 - v) as u8
    }
}

/// 8-bit subtraction with borrow-in, modulo 256.
pub open spec fn spec_sbc8(a: u8, v: u8, cin: bool) -> u8 {
    let c: int = if cin {
        1
    } else {
        0
    };
    if a >= v + c {
        (a - v - c) as u8
    } else {
        (a + 256 - v - c) as u8
    }
}

/// 16-bit addition modulo 2^16.
pub open spec fn spec_add16(l: u16, r: u16) -> u16 {
    if l + r > 0xFFFF {
        (l + r - 0x10000) as u16
    } else {
        (l + r) as u16
    }
}

/// A 16-bit base plus an 8-bit two's-complement displacement, modulo
/// 2^16.
pub open spec fn spec_signed_add16(base: u16, off: u8) -> u16 {
    if off < 0x80 {
        ((base + off) % 0x10000) as u16
    } else {
        ((base + off + 0x10000 - 0x100) % 0x10000) as u16
    }
}

pub open spec fn spec_rlc8(v: u8) -> u8 {
    (v << 1) | (v >> 7)
}

pub open spec fn spec_rrc8(v: u8) -> u8 {
    (v >> 1) | (v << 7)
}

pub open spec fn spec_rl8(v: u8, cin: bool) -> u8 {
    (v << 1) | (if cin {
        1u8
    } else {
        0u8
    })
}

pub open spec fn spec_rr8(v: u8, cin: bool) -> u8 {
    (v >> 1) | (if cin {
        0x80u8
    } else {
        0u8
    })
}

pub open spec fn spec_sla8(v: u8) -> u8 {
    v << 1
}

pub open spec fn spec_sra8(v: u8) -> u8 {
    (v >> 1) | (v & 0x80)
}

pub open spec fn spec_srl8(v: u8) -> u8 {
    v >> 1
}

pub open spec fn spec_swap8(v: u8) -> u8 {
    (v >> 4) | (v << 4)
}

/// Flags of an 8-bit increment: carry is preserved.
pub open spec fn spec_inc_flags(f: u8, v: u8) -> u8 {
    spec_flags(spec_inc8(v) == 0, false, v & 0x0F == 0x0F, spec_carry(f))
}

/// Flags of an 8-bit decrement: carry is preserved.
pub open spec fn spec_dec_flags(f: u8, v: u8) -> u8 {
    spec_flags(spec_dec8(v) == 0, true, v & 0x0F == 0, spec_carry(f))
}

/// Flags of an 8-bit addition.
pub open spec fn spec_add_flags(l: u8, r: u8) -> u8 {
    spec_flags(spec_add8(l, r) == 0, false, (l & 0x0F) + (r & 0x0F) > 0x0F, l + r > 255)
}

/// The register file after `ADD A, v`.
pub open spec fn spec_add_a(r: Registers, v: u8) -> Registers {
    Registers { a: spec_add8(r.a, v), f: spec_add_flags(r.a, v), ..r }
}

/// The register file after `ADC A, v`.
pub open spec fn spec_adc_a(r: Registers, v: u8) -> Registers {
    let cin = spec_carry(r.f);
    let c: int = if cin {
        1
    } else {
        0
    };
    Registers {
        a: spec_adc8(r.a, v, cin),
        f: spec_flags(
            spec_adc8(r.a, v, cin) == 0,
            false,
            (r.a & 0x0F) + (v & 0x0F) + c > 0x0F,
            r.a + v + c > 255,
        ),
        ..r
    }
}

/// The register file after `SUB v`.
pub open spec fn spec_sub_a(r: Registers, v: u8) -> Registers {
    Registers {
        a: spec_sub8(r.a, v),
        f: spec_flags(spec_sub8(r.a, v) == 0, true, (v & 0x0F) > (r.a & 0x0F), v > r.a),
        ..r
    }
}

/// The register file after `SBC A, v`.
pub open spec fn spec_sbc_a(r: Registers, v: u8) -> Registers {
    let cin = spec_carry(r.f);
    let c: int = if cin {
        1
    } else {
        0
    };
    Registers {
        a: spec_sbc8(r.a, v, cin),
        f: spec_flags(
            spec_sbc8(r.a, v, cin) == 0,
            true,
            (v & 0x0F) + c > (r.a & 0x0F),
            v + c > r.a,
        ),
        ..r
    }
}

/// The register file after `AND v`.
pub open spec fn spec_and_a(r: Registers, v: u8) -> Registers {
    Registers { a: r.a & v, f: spec_flags(r.a & v == 0, false, true, false), ..r }
}

/// The register file after `OR v`.
pub open spec fn spec_or_a(r: Registers, v: u8) -> Registers {
    Registers { a: r.a | v, f: spec_flags(r.a | v == 0, false, false, false), ..r }
}

/// The register file after `XOR v`.
pub open spec fn spec_xor_a(r: Registers, v: u8) -> Registers {
    Registers { a: r.a ^ v, f: spec_flags(r.a ^ v == 0, false, false, false), ..r }
}

/// The register file after `CP v`: subtraction flags, accumulator
/// kept.
pub open spec fn spec_cp_a(r: Registers, v: u8) -> Registers {
    Registers { f: spec_flags(r.a == v, true, (v & 0x0F) > (r.a & 0x0F), v > r.a), ..r }
}

/// The register file after `ADD HL, v`: zero flag preserved.
pub open spec fn spec_add_hl(r: Registers, v: u16) -> Registers {
    let hl = r.spec_get_hl();
    let res = spec_add16(hl, v);
    Registers {
        h: spec_high_byte(res),
        l: spec_low_byte(res),
        f: spec_flags(
            spec_flag_set(r.f, FLAG_ZERO),
            false,
            (hl & 0x0F) + (v & 0x0F) > 0x0F,
            hl + v > 0xFFFF,
        ),
        ..r
    }
}

/// Assembles a flag byte from the four flags.
pub(crate) fn flags_byte(z: bool, n: bool, h: bool, c: bool) -> (f: u8)
    ensures
        f == spec_flags(z, n, h, c),
{
    (if z {
        0x80u8
    } else {
        0u8
    }) | (if n {
        0x40u8
    } else {
        0u8
    }) | (if h {
        0x20u8
    } else {
        0u8
    }) | (if c {
        0x10u8
    } else {
        0u8
    })
}

/// Increments a byte, modulo 256: Zero and Half-Carry set from the
/// operation, Subtract cleared, Carry preserved.
pub fn increment(r: &mut Registers, value: u8) -> (res: u8)
    ensures
        res == spec_inc8(value),
        *final(r) == (Registers { f: spec_inc_flags(old(r).f, value), ..*old(r) }),
{
    let res: u8 = if value == 255 {
        0
    } else {
        value + 1
    };
    let c = r.is_flag_set(FLAG_CARRY);
    r.f = flags_byte(res == 0, false, value & 0x0F == 0x0F, c);
    res
}

/// Decrements a byte, modulo 256: Zero and Half-Carry (borrow out of
/// bit 3) set from the operation, Subtract set, Carry preserved.
pub fn decrement(r: &mut Registers, value: u8) -> (res: u8)
    ensures
        res == spec_dec8(value),
        *final(r) == (Registers { f: spec_dec_flags(old(r).f, value), ..*old(r) }),
{
    let res: u8 = if value == 0 {
        255
    } else {
        value - 1
    };
    let c = r.is_flag_set(FLAG_CARRY);
    r.f = flags_byte(res == 0, true, value & 0x0F == 0, c);
    res
}

/// Adds two bytes, modulo 256, setting all four flags.
pub fn add_byte(r: &mut Registers, left: u8, right: u8) -> (res: u8)
    ensures
        res == spec_add8(left, right),
        *final(r) == (Registers { f: spec_add_flags(left, right), ..*old(r) }),
{
    let sum: u16 = left as u16 + right as u16;
    let res: u8 = if sum > 255 {
        (sum - 256) as u8
    } else {
        sum as u8
    };
    r.f = flags_byte(res == 0, false, (left & 0x0F) as u16 + (right & 0x0F) as u16 > 0x0F, sum > 255);
    res
}

/// Adds two 16-bit values, modulo 2^16: Zero preserved, Subtract
/// cleared, Half-Carry and Carry from the addition.
pub fn add_short(r: &mut Registers, left: u16, right: u16) -> (res: u16)
    ensures
        res == spec_add16(left, right),
        *final(r) == (Registers {
            f: spec_flags(
                spec_flag_set(old(r).f, FLAG_ZERO),
                false,
                (left & 0x0F) + (right & 0x0F) > 0x0F,
                left + right > 0xFFFF,
            ),
            ..*old(r)
        }),
{
    let sum: u32 = left as u32 + right as u32;
    let res: u16 = if sum > 0xFFFF {
        (sum - 0x10000) as u16
    } else {
        sum as u16
    };
    let z = r.is_flag_set(FLAG_ZERO);
    r.f = flags_byte(z, false, (left & 0x0F) as u32 + (right & 0x0F) as u32 > 0x0F, sum > 0xFFFF);
    res
}

/// Subtracts a byte from the accumulator, modulo 256, setting all
/// four flags.
pub fn subtract(r: &mut Registers, value: u8)
    ensures
        *final(r) == spec_sub_a(*old(r), value),
{
    let a = r.a;
    let res: u8 = if a >= value {
        a - value
    } else {
        ((a as u16 + 256) - value as u16) as u8
    };
    r.f = flags_byte(res == 0, true, (value & 0x0F) > (a & 0x0F), value > a);
    r.a = res;
}

/// Adds a byte and the carry flag to the accumulator, modulo 256.
pub fn add_with_carry(r: &mut Registers, value: u8)
    ensures
        *final(r) == spec_adc_a(*old(r), value),
{
    let cin = r.is_flag_set(FLAG_CARRY);
    let c: u16 = if cin {
        1
    } else {
        0
    };
    let a = r.a;
    let sum: u16 = a as u16 + value as u16 + c;
    let res: u8 = if sum > 255 {
        (sum - 256) as u8
    } else {
        sum as u8
    };
    r.f = flags_byte(
        res == 0,
        false,
        (a & 0x0F) as u16 + (value & 0x0F) as u16 + c > 0x0F,
        sum > 255,
    );
    r.a = res;
}

/// Subtracts a byte and the carry flag from the accumulator, modulo
/// 256.
pub fn subtract_with_carry(r: &mut Registers, value: u8)
    ensures
        *final(r) == spec_sbc_a(*old(r), value),
{
    let cin = r.is_flag_set(FLAG_CARRY);
    let c: u16 = if cin {
        1
    } else {
        0
    };
    let a = r.a;
    let total: u16 = value as u16 + c;
    let res: u8 = if a as u16 >= total {
        (a as u16 - total) as u8
    } else {
        (a as u16 + 256 - total) as u8
    };
    r.f = flags_byte(
        res == 0,
        true,
        (value & 0x0F) as u16 + c > (a & 0x0F) as u16,
        total > a as u16,
    );
    r.a = res;
}

/// Bitwise AND into the accumulator: Half-Carry set, Carry and
/// Subtract cleared.
pub fn and(r: &mut Registers, value: u8)
    ensures
        *final(r) == spec_and_a(*old(r), value),
{
    let res = r.a & value;
    r.f = flags_byte(res == 0, false, true, false);
    r.a = res;
}

/// Bitwise OR into the accumulator: Subtract, Half-Carry and Carry
/// cleared.
pub fn or(r: &mut Registers, value: u8)
    ensures
        *final(r) == spec_or_a(*old(r), value),
{
    let res = r.a | value;
    r.f = flags_byte(res == 0, false, false, false);
    r.a = res;
}

/// Bitwise XOR into the accumulator: Subtract, Half-Carry and Carry
/// cleared.
pub fn xor(r: &mut Registers, value: u8)
    ensures
        *final(r) == spec_xor_a(*old(r), value),
{
    let res = r.a ^ value;
    r.f = flags_byte(res == 0, false, false, false);
    r.a = res;
}

/// Compares a byte against the accumulator: subtraction flags, the
/// accumulator kept.
pub fn compare(r: &mut Registers, value: u8)
    ensures
        *final(r) == spec_cp_a(*old(r), value),
{
    let a = r.a;
    r.f = flags_byte(a == value, true, (value & 0x0F) > (a & 0x0F), value > a);
}

/// A 16-bit base plus an 8-bit two's-complement displacement.
pub fn signed_add16(base: u16, off: u8) -> (res: u16)
    ensures
        res == spec_signed_add16(base, off),
{
    let t: u32 = if off < 0x80 {
        base as u32 + off as u32
    } else {
        base as u32 + off as u32 + 0x10000 - 0x100
    };
    (t % 0x10000) as u16
}

impl Emulator {
    /// Fetches the byte at the program counter and advances it.
    pub fn read_next_byte(&mut self) -> (r: u8)
        requires
            old(self).wf(),
        ensures
            final(self).wf(),
            final(self)@ == with_regs(
                old(self)@,
                Registers { pc: spec_inc16(old(self)@.registers.pc), ..old(self)@.registers },
            ),
            det_read(old(self)@.registers.pc) ==> r == bus_read(
                old(self)@,
                old(self)@.registers.pc,
            ),
    {
        let value = self.read_byte(self.registers.pc);
        self.registers.pc = if self.registers.pc == 0xFFFF {
            0
        } else {
            self.registers.pc + 1
        };
        value
    }

    /// Fetches the 16-bit little-endian value at the program counter
    /// and advances it by two.
    pub fn read_next_short(&mut self) -> (r: u16)
        requires
            old(self).wf(),
        ensures
            final(self).wf(),
            final(self)@ == with_regs(
                old(self)@,
                Registers {
                    pc: spec_inc16(spec_inc16(old(self)@.registers.pc)),
                    ..old(self)@.registers
                },
            ),
            det_read16(old(self)@.registers.pc) ==> r == bus_read16(
                old(self)@,
                old(self)@.registers.pc,
            ),
    {
        let value = self.read_short(self.registers.pc);
        let pc1: u16 = if self.registers.pc == 0xFFFF {
            0
        } else {
            self.registers.pc + 1
        };
        let pc2: u16 = if pc1 == 0xFFFF {
            0
        } else {
            pc1 + 1
        };
        self.registers.pc = pc2;
        value
    }
}

/// No operation.
pub fn nop(e: &mut Emulator)
    requires
        old(e).wf(),
    ensures
        final(e).wf(),
        final(e)@ == old(e)@,
{
}

/// `INC B`: increments B; Zero and Half-Carry from the result,
/// Subtract cleared, Carry preserved.
pub fn inc_b(e: &mut Emulator)
    requires
        old(e).wf(),
    ensures
        final(e).wf(),
        final(e)@ == with_regs(
            old(e)@,
            Registers {
                b: spec_inc8(old(e)@.registers.b),
                f: spec_inc_flags(old(e)@.registers.f, old(e)@.registers.b),
                ..old(e)@.registers
            },
        ),
{
    let b = e.registers.b;
    let t = increment(&mut e.registers, b);
    e.registers.b = t;
}

/// `DEC B`.
pub fn dec_b(e: &mut Emulator)
    requires
        old(e).wf(),
    ensures
        final(e).wf(),
        final(e)@ == with_regs(
            old(e)@,
            Registers {
                b: spec_dec8(old(e)@.registers.b),
                f: spec_dec_flags(old(e)@.registers.f, old(e)@.registers.b),
                ..old(e)@.registers
            },
        ),
{
    let b = e.registers.b;
    let t = decrement(&mut e.registers, b);
    e.registers.b = t;
}

/// `LD B, n`: loads the immediate operand into B.
pub fn ld_b_n(e: &mut Emulator)
    requires
        old(e).wf(),
    ensures
        final(e).wf(),
        final(e)@ == with_regs(
            old(e)@,
            Registers {
                b: final(e)@.registers.b,
                pc: spec_inc16(old(e)@.registers.pc),
                ..old(e)@.registers
            },
        ),
        det_read(old(e)@.registers.pc) ==> final(e)@.registers.b == bus_read(
            old(e)@,
            old(e)@.registers.pc,
        ),
{
    let t = e.read_next_byte();
    e.registers.b = t;
}

/// `LD B, C`.
pub fn ld_b_c(e: &mut Emulator)
    requires
        old(e).wf(),
    ensures
        final(e).wf(),
        final(e)@ == with_regs(
            old(e)@,
            Registers { b: old(e)@.registers.c, ..old(e)@.registers },
        ),
{
    e.registers.b = e.registers.c;
}

/// `LD B, (HL)`.
pub fn ld_b_hlp(e: &mut Emulator)
    requires
        old(e).wf(),
    ensures
        final(e).wf(),
        final(e)@ == with_regs(
            old(e)@,
            Registers { b: final(e)@.registers.b, ..old(e)@.registers },
        ),
        det_read(old(e)@.registers.spec_get_hl()) ==> final(e)@.registers.b == bus_read(
            old(e)@,
            old(e)@.registers.spec_get_hl(),
        ),
{
    let hl = e.registers.get_hl();
    let t = e.read_byte(hl);
    e.registers.b = t;
}

/// `LD (HL), A`.
pub fn ld_hlp_a(e: &mut Emulator)
    requires
        old(e).wf(),
    ensures
        final(e).wf(),
        bus_write_ok(old(e)@, old(e)@.registers.spec_get_hl(), old(e)@.registers.a, final(e)@),
        final(e)@.cpu == old(e)@.cpu,
        final(e)@.registers == old(e)@.registers,
{
    let hl = e.registers.get_hl();
    let a = e.registers.a;
    e.write_byte(hl, a);
}

/// `LDI (HL), A`: stores A at HL, then increments HL.
pub fn ldi_hlp_a(e: &mut Emulator)
    requires
        old(e).wf(),
    ensures
        final(e).wf(),
        final(e)@.registers == old(e)@.registers.spec_set_hl(
            spec_inc16(old(e)@.registers.spec_get_hl()),
        ),
        bus_write_ok(
            old(e)@,
            old(e)@.registers.spec_get_hl(),
            old(e)@.registers.a,
            with_regs(final(e)@, old(e)@.registers),
        ),
        final(e)@.cpu == old(e)@.cpu,
{
    let hl = e.registers.get_hl();
    let a = e.registers.a;
    e.write_byte(hl, a);
    let ghost w = e@;
    let hl_plus_one: u16 = if hl == 0xFFFF {
        0
    } else {
        hl + 1
    };
    e.registers.set_hl(hl_plus_one);
    proof {
        assert(with_regs(e@, old(e)@.registers) =~= w);
    }
}

/// `ADD A, B`.
pub fn add_a_b(e: &mut Emulator)
    requires
        old(e).wf(),
    ensures
        final(e).wf(),
        final(e)@ == with_regs(old(e)@, spec_add_a(old(e)@.registers, old(e)@.registers.b)),
{
    let a = e.registers.a;
    let b = e.registers.b;
    let t = add_byte(&mut e.registers, a, b);
    e.registers.a = t;
}

/// `ADD A, (HL)`.
pub fn add_a_hlp(e: &mut Emulator)
    requires
        old(e).wf(),
    ensures
        final(e).wf(),
        final(e)@ == with_regs(old(e)@, Registers { a: final(e)@.registers.a, f: final(e)@.registers.f, ..old(e)@.registers }),
        det_read(old(e)@.registers.spec_get_hl()) ==> final(e)@ == with_regs(
            old(e)@,
            spec_add_a(old(e)@.registers, bus_read(old(e)@, old(e)@.registers.spec_get_hl())),
        ),
{
    let hl = e.registers.get_hl();
    let value = e.read_byte(hl);
    let a = e.registers.a;
    let t = add_byte(&mut e.registers, a, value);
    e.registers.a = t;
}

/// `JR NZ, n`: the operand is always consumed; the signed jump and
/// the longer 12-tick path are taken only when Zero is clear, the
/// 8-tick path otherwise.
pub fn jr_nz_n(e: &mut Emulator)
    requires
        old(e).wf(),
        old(e)@.cpu.ticks + 24 <= u64::MAX,
    ensures
        final(e).wf(),
        old(e)@.cpu.ticks <= final(e)@.cpu.ticks <= old(e)@.cpu.ticks + 24,
        final(e)@ == (EmulatorV {
            registers: Registers { pc: final(e)@.registers.pc, ..old(e)@.registers },
            cpu: Cpu { ticks: final(e)@.cpu.ticks, ..old(e)@.cpu },
            ..old(e)@
        }),
        det_read(old(e)@.registers.pc) ==> final(e)@ == (if spec_flag_set(
            old(e)@.registers.f,
            FLAG_ZERO,
        ) {
            EmulatorV {
                registers: Registers {
                    pc: spec_inc16(old(e)@.registers.pc),
                    ..old(e)@.registers
                },
                cpu: Cpu { ticks: (old(e)@.cpu.ticks + 8) as u64, ..old(e)@.cpu },
                ..old(e)@
            }
        } else {
            EmulatorV {
                registers: Registers {
                    pc: spec_signed_add16(
                        spec_inc16(old(e)@.registers.pc),
                        bus_read(old(e)@, old(e)@.registers.pc),
                    ),
                    ..old(e)@.registers
                },
                cpu: Cpu { ticks: (old(e)@.cpu.ticks + 12) as u64, ..old(e)@.cpu },
                ..old(e)@
            }
        }),
{
    let operand = e.read_next_byte();
    if e.registers.is_flag_set(FLAG_ZERO) {
        e.cpu.ticks = e.cpu.ticks + 8;
    } else {
        e.registers.pc = signed_add16(e.registers.pc, operand);
        e.cpu.ticks = e.cpu.ticks + 12;
    }
}

/// `PUSH BC`.
pub fn push_bc(e: &mut Emulator)
    requires
        old(e).wf(),
    ensures
        final(e).wf(),
        push16_ok(old(e)@, old(e)@.registers.spec_get_bc(), final(e)@),
        final(e)@.cpu == old(e)@.cpu,
{
    let bc = e.registers.get_bc();
    e.write_short_to_stack(bc);
}

/// `POP BC`.
pub fn pop_bc(e: &mut Emulator)
    requires
        old(e).wf(),
    ensures
        final(e).wf(),
        final(e)@ == with_regs(
            old(e)@,
            Registers {
                b: final(e)@.registers.b,
                c: final(e)@.registers.c,
                sp: spec_inc16(spec_inc16(old(e)@.registers.sp)),
                ..old(e)@.registers
            },
        ),
        det_read16(old(e)@.registers.sp) ==> final(e)@.registers == (Registers {
            b: spec_high_byte(bus_read16(old(e)@, old(e)@.registers.sp)),
            c: spec_low_byte(bus_read16(old(e)@, old(e)@.registers.sp)),
            sp: spec_inc16(spec_inc16(old(e)@.registers.sp)),
            ..old(e)@.registers
        }),
{
    let t = e.read_short_from_stack();
    e.registers.set_bc(t);
}

/// `JP nn`.
pub fn jp_nn(e: &mut Emulator)
    requires
        old(e).wf(),
    ensures
        final(e).wf(),
        final(e)@ == with_regs(
            old(e)@,
            Registers { pc: final(e)@.registers.pc, ..old(e)@.registers },
        ),
        det_read16(old(e)@.registers.pc) ==> final(e)@.registers.pc == bus_read16(
            old(e)@,
            old(e)@.registers.pc,
        ),
{
    let t = e.read_next_short();
    e.registers.pc = t;
}

/// `RET`.
pub fn ret(e: &mut Emulator)
    requires
        old(e).wf(),
    ensures
        final(e).wf(),
        final(e)@ == with_regs(
            old(e)@,
            Registers {
                pc: final(e)@.registers.pc,
                sp: spec_inc16(spec_inc16(old(e)@.registers.sp)),
                ..old(e)@.registers
            },
        ),
        det_read16(old(e)@.registers.sp) ==> final(e)@.registers.pc == bus_read16(
            old(e)@,
            old(e)@.registers.sp,
        ),
{
    let t = e.read_short_from_stack();
    e.registers.pc = t;
}

/// How a call-like operation relates states: the return address is
/// pushed, the program counter lands on the target, and `cost` extra
/// ticks are spent.
pub open spec fn call_cost_ok(
    pre: EmulatorV,
    ret_addr: u16,
    target: u16,
    cost: u64,
    post: EmulatorV,
) -> bool {
    exists|m: EmulatorV|
        {
            &&& #[trigger] push16_ok(pre, ret_addr, m)
            &&& post == (EmulatorV {
                registers: Registers { pc: target, ..m.registers },
                cpu: Cpu { ticks: (m.cpu.ticks + cost) as u64, ..m.cpu },
                ..m
            })
        }
}

/// `CALL nn`: pushes the address after the operand, then jumps to the
/// operand.
pub fn call_nn(e: &mut Emulator)
    requires
        old(e).wf(),
    ensures
        final(e).wf(),
        final(e)@.cpu == old(e)@.cpu,
        det_read16(old(e)@.registers.pc) ==> call_cost_ok(
            with_regs(
                old(e)@,
                Registers {
                    pc: spec_inc16(spec_inc16(old(e)@.registers.pc)),
                    ..old(e)@.registers
                },
            ),
            spec_inc16(spec_inc16(old(e)@.registers.pc)),
            bus_read16(old(e)@, old(e)@.registers.pc),
            0,
            final(e)@,
        ),
{
    let operand = e.read_next_short();
    let pc = e.registers.pc;
    e.write_short_to_stack(pc);
    let ghost m = e@;
    e.registers.pc = operand;
    proof {
        assert(e@ =~= (EmulatorV {
            registers: Registers { pc: e@.registers.pc, ..m.registers },
            cpu: Cpu { ticks: (m.cpu.ticks + 0) as u64, ..m.cpu },
            ..m
        }));
    }
}

/// `RST 0x00`: pushes the program counter and jumps to the fixed
/// vector.
pub fn rst_0(e: &mut Emulator)
    requires
        old(e).wf(),
    ensures
        final(e).wf(),
        final(e)@.cpu == old(e)@.cpu,
        call_cost_ok(old(e)@, old(e)@.registers.pc, 0x0000, 0, final(e)@),
{
    let pc = e.registers.pc;
    e.write_short_to_stack(pc);
    let ghost m = e@;
    e.registers.pc = 0x0000;
    proof {
        assert(e@ =~= (EmulatorV {
            registers: Registers { pc: 0x0000u16, ..m.registers },
            cpu: Cpu { ticks: (m.cpu.ticks + 0) as u64, ..m.cpu },
            ..m
        }));
    }
}


/// The adjusted accumulator value (before truncation) of the
/// decimal-adjust operation, following the reference scheme: after a
/// subtraction the 0x06/0x60 corrections wrap within a byte; after an
/// addition they may carry out, which sets Carry.
pub open spec fn spec_daa_v(a: u8, f: u8) -> int {
    let h = spec_flag_set(f, FLAG_HALF_CARRY);
    let c = spec_flag_set(f, FLAG_CARRY);
    if spec_flag_set(f, FLAG_NEGATIVE) {
        let v1: int = if h {
            (a + 256 - 6) % 256
        } else {
            a as int
        };
        if c {
            (v1 + 256 - 0x60) % 256
        } else {
            v1
        }
    } else {
        let v1: int = if h || a & 0x0F > 9 {
            a + 6
        } else {
            a as int
        };
        if c || v1 > 0x9F {
            v1 + 0x60
        } else {
            v1
        }
    }
}

/// The register file after `DAA`: Subtract preserved, Half-Carry
/// cleared, Carry only ever set.
pub open spec fn spec_daa_r(r: Registers) -> Registers {
    let v = spec_daa_v(r.a, r.f);
    Registers {
        a: (v % 256) as u8,
        f: spec_flags(
            v % 256 == 0,
            spec_flag_set(r.f, FLAG_NEGATIVE),
            false,
            spec_carry(r.f) || v > 255,
        ),
        ..r
    }
}

/// `LD BC, nn`: loads the 16-bit little-endian operand.
pub fn ld_bc_nn(e: &mut Emulator)
    requires
        old(e).wf(),
    ensures
        final(e).wf(),
        final(e)@ == with_regs(old(e)@, (Registers { b: final(e)@.registers.b, c: final(e)@.registers.c, pc: spec_inc16(spec_inc16(old(e)@.registers.pc)), ..old(e)@.registers })),
        det_read16(old(e)@.registers.pc) ==> final(e)@.registers == (Registers { b: spec_high_byte(bus_read16(old(e)@, old(e)@.registers.pc)), c: spec_low_byte(bus_read16(old(e)@, old(e)@.registers.pc)), pc: spec_inc16(spec_inc16(old(e)@.registers.pc)), ..old(e)@.registers }),
{
    let t = e.read_next_short();
    e.registers.set_bc(t);
}

/// `LD (BC), A`.
pub fn ld_bcp_a(e: &mut Emulator)
    requires
        old(e).wf(),
    ensures
        final(e).wf(),
        bus_write_ok(old(e)@, old(e)@.registers.spec_get_bc(), old(e)@.registers.a, final(e)@),
        final(e)@.cpu == old(e)@.cpu,
        final(e)@.registers == old(e)@.registers,
{
    let addr = e.registers.get_bc();
    let a = e.registers.a;
    e.write_byte(addr, a);
}

/// `INC BC`: wraps modulo 2^16, no flags.
pub fn inc_bc(e: &mut Emulator)
    requires
        old(e).wf(),
    ensures
        final(e).wf(),
        final(e)@ == with_regs(old(e)@, old(e)@.registers.spec_set_bc(spec_inc16(old(e)@.registers.spec_get_bc()))),
{
    let v = e.registers.get_bc();
    let t: u16 = if v == 0xFFFF { 0 } else { v + 1 };
    e.registers.set_bc(t);
}

/// `RLCA`: rotates the accumulator; Zero, Subtract and Half-Carry cleared.
pub fn rlca(e: &mut Emulator)
    requires
        old(e).wf(),
    ensures
        final(e).wf(),
        final(e)@ == with_regs(old(e)@, (Registers { a: spec_rlc8(old(e)@.registers.a), f: spec_flags(false, false, false, old(e)@.registers.a & 0x80 != 0), ..old(e)@.registers })),
{
    let a = e.registers.a;
    let c = a & 0x80 != 0;
    e.registers.a = (a << 1) | (a >> 7);
    e.registers.f = flags_byte(false, false, false, c);
}

/// `LD (nn), SP`: stores the stack pointer little-endian at the
/// operand address.
pub fn ld_nnp_sp(e: &mut Emulator)
    requires
        old(e).wf(),
    ensures
        final(e).wf(),
        final(e)@.cpu == old(e)@.cpu,
        final(e)@.registers == (Registers { pc: spec_inc16(spec_inc16(old(e)@.registers.pc)), ..old(e)@.registers }),
        det_read16(old(e)@.registers.pc) ==> bus_write16_ok(with_regs(old(e)@, (Registers { pc: spec_inc16(spec_inc16(old(e)@.registers.pc)), ..old(e)@.registers })), bus_read16(old(e)@, old(e)@.registers.pc), old(e)@.registers.sp, final(e)@),
{
    let addr = e.read_next_short();
    let sp = e.registers.sp;
    e.write_short(addr, sp);
}

/// `ADD HL, BC`: Zero preserved, Subtract cleared.
pub fn add_hl_bc(e: &mut Emulator)
    requires
        old(e).wf(),
    ensures
        final(e).wf(),
        final(e)@ == with_regs(old(e)@, spec_add_hl(old(e)@.registers, old(e)@.registers.spec_get_bc())),
{
    let hl = e.registers.get_hl();
    let v = e.registers.get_bc();
    let t = add_short(&mut e.registers, hl, v);
    e.registers.set_hl(t);
}

/// `LD A, (BC)`.
pub fn ld_a_bcp(e: &mut Emulator)
    requires
        old(e).wf(),
    ensures
        final(e).wf(),
        final(e)@ == with_regs(old(e)@, (Registers { a: final(e)@.registers.a, ..old(e)@.registers })),
        det_read(old(e)@.registers.spec_get_bc()) ==> final(e)@.registers.a == bus_read(old(e)@, old(e)@.registers.spec_get_bc()),
{
    let addr = e.registers.get_bc();
    let t = e.read_byte(addr);
    e.registers.a = t;
}

/// `DEC BC`: wraps modulo 2^16, no flags.
pub fn dec_bc(e: &mut Emulator)
    requires
        old(e).wf(),
    ensures
        final(e).wf(),
        final(e)@ == with_regs(old(e)@, old(e)@.registers.spec_set_bc(spec_dec16(old(e)@.registers.spec_get_bc()))),
{
    let v = e.registers.get_bc();
    let t: u16 = if v == 0 { 0xFFFF } else { v - 1 };
    e.registers.set_bc(t);
}

/// `INC C`: Zero and Half-Carry from the result, Subtract cleared, Carry preserved.
pub fn inc_c(e: &mut Emulator)
    requires
        old(e).wf(),
    ensures
        final(e).wf(),
        final(e)@ == with_regs(old(e)@, (Registers { c: spec_inc8(old(e)@.registers.c), f: spec_inc_flags(old(e)@.registers.f, old(e)@.registers.c), ..old(e)@.registers })),
{
    let v = e.registers.c;
    let t = increment(&mut e.registers, v);
    e.registers.c = t;
}

/// `DEC C`.
pub fn dec_c(e: &mut Emulator)
    requires
        old(e).wf(),
    ensures
        final(e).wf(),
        final(e)@ == with_regs(old(e)@, (Registers { c: spec_dec8(old(e)@.registers.c), f: spec_dec_flags(old(e)@.registers.f, old(e)@.registers.c), ..old(e)@.registers })),
{
    let v = e.registers.c;
    let t = decrement(&mut e.registers, v);
    e.registers.c = t;
}

/// `LD C, n`: loads the immediate operand.
pub fn ld_c_n(e: &mut Emulator)
    requires
        old(e).wf(),
    ensures
        final(e).wf(),
        final(e)@ == with_regs(old(e)@, (Registers { c: final(e)@.registers.c, pc: spec_inc16(old(e)@.registers.pc), ..old(e)@.registers })),
        det_read(old(e)@.registers.pc) ==> final(e)@.registers.c == bus_read(old(e)@, old(e)@.registers.pc),
{
    let t = e.read_next_byte();
    e.registers.c = t;
}

/// `RRCA`: rotates the accumulator; Zero, Subtract and Half-Carry cleared.
pub fn rrca(e: &mut Emulator)
    requires
        old(e).wf(),
    ensures
        final(e).wf(),
        final(e)@ == with_regs(old(e)@, (Registers { a: spec_rrc8(old(e)@.registers.a), f: spec_flags(false, false, false, old(e)@.registers.a & 0x01 != 0), ..old(e)@.registers })),
{
    let a = e.registers.a;
    let c = a & 0x01 != 0;
    e.registers.a = (a >> 1) | (a << 7);
    e.registers.f = flags_byte(false, false, false, c);
}

/// `STOP`: consumes its operand byte and halts the dispatcher until
/// outside input clears the flag.
pub fn stop(e: &mut Emulator)
    requires
        old(e).wf(),
    ensures
        final(e).wf(),
        final(e)@ == (EmulatorV { registers: (Registers { pc: spec_inc16(old(e)@.registers.pc), ..old(e)@.registers }), cpu: (Cpu { stopped: true, ..old(e)@.cpu }), ..old(e)@ }),
{
    let _operand = e.read_next_byte();
    e.cpu.stopped = true;
}

/// `LD DE, nn`: loads the 16-bit little-endian operand.
pub fn ld_de_nn(e: &mut Emulator)
    requires
        old(e).wf(),
    ensures
        final(e).wf(),
        final(e)@ == with_regs(old(e)@, (Registers { d: final(e)@.registers.d, e: final(e)@.registers.e, pc: spec_inc16(spec_inc16(old(e)@.registers.pc)), ..old(e)@.registers })),
        det_read16(old(e)@.registers.pc) ==> final(e)@.registers == (Registers { d: spec_high_byte(bus_read16(old(e)@, old(e)@.registers.pc)), e: spec_low_byte(bus_read16(old(e)@, old(e)@.registers.pc)), pc: spec_inc16(spec_inc16(old(e)@.registers.pc)), ..old(e)@.registers }),
{
    let t = e.read_next_short();
    e.registers.set_de(t);
}

/// `LD (DE), A`.
pub fn ld_dep_a(e: &mut Emulator)
    requires
        old(e).wf(),
    ensures
        final(e).wf(),
        bus_write_ok(old(e)@, old(e)@.registers.spec_get_de(), old(e)@.registers.a, final(e)@),
        final(e)@.cpu == old(e)@.cpu,
        final(e)@.registers == old(e)@.registers,
{
    let addr = e.registers.get_de();
    let a = e.registers.a;
    e.write_byte(addr, a);
}

/// `INC DE`: wraps modulo 2^16, no flags.
pub fn inc_de(e: &mut Emulator)
    requires
        old(e).wf(),
    ensures
        final(e).wf(),
        final(e)@ == with_regs(old(e)@, old(e)@.registers.spec_set_de(spec_inc16(old(e)@.registers.spec_get_de()))),
{
    let v = e.registers.get_de();
    let t: u16 = if v == 0xFFFF { 0 } else { v + 1 };
    e.registers.set_de(t);
}

/// `INC D`: Zero and Half-Carry from the result, Subtract cleared, Carry preserved.
pub fn inc_d(e: &mut Emulator)
    requires
        old(e).wf(),
    ensures
        final(e).wf(),
        final(e)@ == with_regs(old(e)@, (Registers { d: spec_inc8(old(e)@.registers.d), f: spec_inc_flags(old(e)@.registers.f, old(e)@.registers.d), ..old(e)@.registers })),
{
    let v = e.registers.d;
    let t = increment(&mut e.registers, v);
    e.registers.d = t;
}

/// `DEC D`.
pub fn dec_d(e: &mut Emulator)
    requires
        old(e).wf(),
    ensures
        final(e).wf(),
        final(e)@ == with_regs(old(e)@, (Registers { d: spec_dec8(old(e)@.registers.d), f: spec_dec_flags(old(e)@.registers.f, old(e)@.registers.d), ..old(e)@.registers })),
{
    let v = e.registers.d;
    let t = decrement(&mut e.registers, v);
    e.registers.d = t;
}

/// `LD D, n`: loads the immediate operand.
pub fn ld_d_n(e: &mut Emulator)
    requires
        old(e).wf(),
    ensures
        final(e).wf(),
        final(e)@ == with_regs(old(e)@, (Registers { d: final(e)@.registers.d, pc: spec_inc16(old(e)@.registers.pc), ..old(e)@.registers })),
        det_read(old(e)@.registers.pc) ==> final(e)@.registers.d == bus_read(old(e)@, old(e)@.registers.pc),
{
    let t = e.read_next_byte();
    e.registers.d = t;
}

/// `RLA`: rotates the accumulator; Zero, Subtract and Half-Carry cleared.
pub fn rla(e: &mut Emulator)
    requires
        old(e).wf(),
    ensures
        final(e).wf(),
        final(e)@ == with_regs(old(e)@, (Registers { a: spec_rl8(old(e)@.registers.a, spec_carry(old(e)@.registers.f)), f: spec_flags(false, false, false, old(e)@.registers.a & 0x80 != 0), ..old(e)@.registers })),
{
    let a = e.registers.a;
    let cin = e.registers.is_flag_set(FLAG_CARRY);
    let c = a & 0x80 != 0;
    e.registers.a = (a << 1) | (if cin { 1 } else { 0 });
    e.registers.f = flags_byte(false, false, false, c);
}

/// `JR n`: unconditional relative jump by the signed operand.
pub fn jr_n(e: &mut Emulator)
    requires
        old(e).wf(),
    ensures
        final(e).wf(),
        final(e)@ == with_regs(old(e)@, (Registers { pc: final(e)@.registers.pc, ..old(e)@.registers })),
        det_read(old(e)@.registers.pc) ==> final(e)@.registers.pc == spec_signed_add16(spec_inc16(old(e)@.registers.pc), bus_read(old(e)@, old(e)@.registers.pc)),
{
    let operand = e.read_next_byte();
    e.registers.pc = signed_add16(e.registers.pc, operand);
}

/// `ADD HL, DE`: Zero preserved, Subtract cleared.
pub fn add_hl_de(e: &mut Emulator)
    requires
        old(e).wf(),
    ensures
        final(e).wf(),
        final(e)@ == with_regs(old(e)@, spec_add_hl(old(e)@.registers, old(e)@.registers.spec_get_de())),
{
    let hl = e.registers.get_hl();
    let v = e.registers.get_de();
    let t = add_short(&mut e.registers, hl, v);
    e.registers.set_hl(t);
}

/// `LD A, (DE)`.
pub fn ld_a_dep(e: &mut Emulator)
    requires
        old(e).wf(),
    ensures
        final(e).wf(),
        final(e)@ == with_regs(old(e)@, (Registers { a: final(e)@.registers.a, ..old(e)@.registers })),
        det_read(old(e)@.registers.spec_get_de()) ==> final(e)@.registers.a == bus_read(old(e)@, old(e)@.registers.spec_get_de()),
{
    let addr = e.registers.get_de();
    let t = e.read_byte(addr);
    e.registers.a = t;
}

/// `DEC DE`: wraps modulo 2^16, no flags.
pub fn dec_de(e: &mut Emulator)
    requires
        old(e).wf(),
    ensures
        final(e).wf(),
        final(e)@ == with_regs(old(e)@, old(e)@.registers.spec_set_de(spec_dec16(old(e)@.registers.spec_get_de()))),
{
    let v = e.registers.get_de();
    let t: u16 = if v == 0 { 0xFFFF } else { v - 1 };
    e.registers.set_de(t);
}

/// `INC E`: Zero and Half-Carry from the result, Subtract cleared, Carry preserved.
pub fn inc_e(e: &mut Emulator)
    requires
        old(e).wf(),
    ensures
        final(e).wf(),
        final(e)@ == with_regs(old(e)@, (Registers { e: spec_inc8(old(e)@.registers.e), f: spec_inc_flags(old(e)@.registers.f, old(e)@.registers.e), ..old(e)@.registers })),
{
    let v = e.registers.e;
    let t = increment(&mut e.registers, v);
    e.registers.e = t;
}

/// `DEC E`.
pub fn dec_e(e: &mut Emulator)
    requires
        old(e).wf(),
    ensures
        final(e).wf(),
        final(e)@ == with_regs(old(e)@, (Registers { e: spec_dec8(old(e)@.registers.e), f: spec_dec_flags(old(e)@.registers.f, old(e)@.registers.e), ..old(e)@.registers })),
{
    let v = e.registers.e;
    let t = decrement(&mut e.registers, v);
    e.registers.e = t;
}

/// `LD E, n`: loads the immediate operand.
pub fn ld_e_n(e: &mut Emulator)
    requires
        old(e).wf(),
    ensures
        final(e).wf(),
        final(e)@ == with_regs(old(e)@, (Registers { e: final(e)@.registers.e, pc: spec_inc16(old(e)@.registers.pc), ..old(e)@.registers })),
        det_read(old(e)@.registers.pc) ==> final(e)@.registers.e == bus_read(old(e)@, old(e)@.registers.pc),
{
    let t = e.read_next_byte();
    e.registers.e = t;
}

/// `RRA`: rotates the accumulator; Zero, Subtract and Half-Carry cleared.
pub fn rra(e: &mut Emulator)
    requires
        old(e).wf(),
    ensures
        final(e).wf(),
        final(e)@ == with_regs(old(e)@, (Registers { a: spec_rr8(old(e)@.registers.a, spec_carry(old(e)@.registers.f)), f: spec_flags(false, false, false, old(e)@.registers.a & 0x01 != 0), ..old(e)@.registers })),
{
    let a = e.registers.a;
    let cin = e.registers.is_flag_set(FLAG_CARRY);
    let c = a & 0x01 != 0;
    e.registers.a = (a >> 1) | (if cin { 0x80 } else { 0 });
    e.registers.f = flags_byte(false, false, false, c);
}

/// `LD HL, nn`: loads the 16-bit little-endian operand.
pub fn ld_hl_nn(e: &mut Emulator)
    requires
        old(e).wf(),
    ensures
        final(e).wf(),
        final(e)@ == with_regs(old(e)@, (Registers { h: final(e)@.registers.h, l: final(e)@.registers.l, pc: spec_inc16(spec_inc16(old(e)@.registers.pc)), ..old(e)@.registers })),
        det_read16(old(e)@.registers.pc) ==> final(e)@.registers == (Registers { h: spec_high_byte(bus_read16(old(e)@, old(e)@.registers.pc)), l: spec_low_byte(bus_read16(old(e)@, old(e)@.registers.pc)), pc: spec_inc16(spec_inc16(old(e)@.registers.pc)), ..old(e)@.registers }),
{
    let t = e.read_next_short();
    e.registers.set_hl(t);
}

/// `INC HL`: wraps modulo 2^16, no flags.
pub fn inc_hl(e: &mut Emulator)
    requires
        old(e).wf(),
    ensures
        final(e).wf(),
        final(e)@ == with_regs(old(e)@, old(e)@.registers.spec_set_hl(spec_inc16(old(e)@.registers.spec_get_hl()))),
{
    let v = e.registers.get_hl();
    let t: u16 = if v == 0xFFFF { 0 } else { v + 1 };
    e.registers.set_hl(t);
}

/// `INC H`: Zero and Half-Carry from the result, Subtract cleared, Carry preserved.
pub fn inc_h(e: &mut Emulator)
    requires
        old(e).wf(),
    ensures
        final(e).wf(),
        final(e)@ == with_regs(old(e)@, (Registers { h: spec_inc8(old(e)@.registers.h), f: spec_inc_flags(old(e)@.registers.f, old(e)@.registers.h), ..old(e)@.registers })),
{
    let v = e.registers.h;
    let t = increment(&mut e.registers, v);
    e.registers.h = t;
}

/// `DEC H`.
pub fn dec_h(e: &mut Emulator)
    requires
        old(e).wf(),
    ensures
        final(e).wf(),
        final(e)@ == with_regs(old(e)@, (Registers { h: spec_dec8(old(e)@.registers.h), f: spec_dec_flags(old(e)@.registers.f, old(e)@.registers.h), ..old(e)@.registers })),
{
    let v = e.registers.h;
    let t = decrement(&mut e.registers, v);
    e.registers.h = t;
}

/// `LD H, n`: loads the immediate operand.
pub fn ld_h_n(e: &mut Emulator)
    requires
        old(e).wf(),
    ensures
        final(e).wf(),
        final(e)@ == with_regs(old(e)@, (Registers { h: final(e)@.registers.h, pc: spec_inc16(old(e)@.registers.pc), ..old(e)@.registers })),
        det_read(old(e)@.registers.pc) ==> final(e)@.registers.h == bus_read(old(e)@, old(e)@.registers.pc),
{
    let t = e.read_next_byte();
    e.registers.h = t;
}

/// `DAA`: decimal-adjusts the accumulator after a BCD addition or
/// subtraction, following the reference adjustment scheme; Subtract
/// is preserved, Half-Carry cleared, Carry only ever set.
pub fn daa(e: &mut Emulator)
    requires
        old(e).wf(),
    ensures
        final(e).wf(),
        final(e)@ == with_regs(old(e)@, spec_daa_r(old(e)@.registers)),
{
    let a = e.registers.a;
    let n = e.registers.is_flag_set(FLAG_NEGATIVE);
    let h = e.registers.is_flag_set(FLAG_HALF_CARRY);
    let c = e.registers.is_flag_set(FLAG_CARRY);
    let mut v: u32 = a as u32;
    if n {
        if h {
            v = (v + 256 - 6) % 256;
        }
        if c {
            v = (v + 256 - 0x60) % 256;
        }
    } else {
        if h || (a & 0x0F) > 9 {
            v = v + 6;
        }
        if c || v > 0x9F {
            v = v + 0x60;
        }
    }
    let res = (v % 256) as u8;
    e.registers.a = res;
    e.registers.f = flags_byte(res == 0, n, false, c || v > 255);
}

/// `JR Z, n`: the operand is always consumed; the signed jump costs 12 ticks when taken, 8 when not.
pub fn jr_z_n(e: &mut Emulator)
    requires
        old(e).wf(),
        old(e)@.cpu.ticks + 24 <= u64::MAX,
    ensures
        final(e).wf(),
        old(e)@.cpu.ticks <= final(e)@.cpu.ticks <= old(e)@.cpu.ticks + 24,
        final(e)@ == (EmulatorV { registers: (Registers { pc: final(e)@.registers.pc, ..old(e)@.registers }), cpu: (Cpu { ticks: final(e)@.cpu.ticks, ..old(e)@.cpu }), ..old(e)@ }),
        det_read(old(e)@.registers.pc) ==> final(e)@ == (if spec_flag_set(old(e)@.registers.f, FLAG_ZERO) { (EmulatorV { registers: (Registers { pc: spec_signed_add16(spec_inc16(old(e)@.registers.pc), bus_read(old(e)@, old(e)@.registers.pc)), ..old(e)@.registers }), cpu: (Cpu { ticks: (old(e)@.cpu.ticks + 12) as u64, ..old(e)@.cpu }), ..old(e)@ }) } else { (EmulatorV { registers: (Registers { pc: spec_inc16(old(e)@.registers.pc), ..old(e)@.registers }), cpu: (Cpu { ticks: (old(e)@.cpu.ticks + 8) as u64, ..old(e)@.cpu }), ..old(e)@ }) }),
{
    let operand = e.read_next_byte();
    if e.registers.is_flag_set(FLAG_ZERO) {
        e.registers.pc = signed_add16(e.registers.pc, operand);
        e.cpu.ticks = e.cpu.ticks + 12;
    } else {
        e.cpu.ticks = e.cpu.ticks + 8;
    }
}

/// `ADD HL, HL`: Zero preserved, Subtract cleared.
pub fn add_hl_hl(e: &mut Emulator)
    requires
        old(e).wf(),
    ensures
        final(e).wf(),
        final(e)@ == with_regs(old(e)@, spec_add_hl(old(e)@.registers, old(e)@.registers.spec_get_hl())),
{
    let hl = e.registers.get_hl();
    let v = e.registers.get_hl();
    let t = add_short(&mut e.registers, hl, v);
    e.registers.set_hl(t);
}

/// `LDI A, (HL)`: loads A from HL, then increments HL.
pub fn ldi_a_hlp(e: &mut Emulator)
    requires
        old(e).wf(),
    ensures
        final(e).wf(),
        final(e)@ == with_regs(old(e)@, (Registers { a: final(e)@.registers.a, ..old(e)@.registers.spec_set_hl(spec_inc16(old(e)@.registers.spec_get_hl())) })),
        det_read(old(e)@.registers.spec_get_hl()) ==> final(e)@.registers.a == bus_read(old(e)@, old(e)@.registers.spec_get_hl()),
{
    let hl = e.registers.get_hl();
    let v = e.read_byte(hl);
    e.registers.a = v;
    let t: u16 = if hl == 0xFFFF { 0 } else { hl + 1 };
    e.registers.set_hl(t);
}

/// `DEC HL`: wraps modulo 2^16, no flags.
pub fn dec_hl(e: &mut Emulator)
    requires
        old(e).wf(),
    ensures
        final(e).wf(),
        final(e)@ == with_regs(old(e)@, old(e)@.registers.spec_set_hl(spec_dec16(old(e)@.registers.spec_get_hl()))),
{
    let v = e.registers.get_hl();
    let t: u16 = if v == 0 { 0xFFFF } else { v - 1 };
    e.registers.set_hl(t);
}

/// `INC L`: Zero and Half-Carry from the result, Subtract cleared, Carry preserved.
pub fn inc_l(e: &mut Emulator)
    requires
        old(e).wf(),
    ensures
        final(e).wf(),
        final(e)@ == with_regs(old(e)@, (Registers { l: spec_inc8(old(e)@.registers.l), f: spec_inc_flags(old(e)@.registers.f, old(e)@.registers.l), ..old(e)@.registers })),
{
    let v = e.registers.l;
    let t = increment(&mut e.registers, v);
    e.registers.l = t;
}

/// `DEC L`.
pub fn dec_l(e: &mut Emulator)
    requires
        old(e).wf(),
    ensures
        final(e).wf(),
        final(e)@ == with_regs(old(e)@, (Registers { l: spec_dec8(old(e)@.registers.l), f: spec_dec_flags(old(e)@.registers.f, old(e)@.registers.l), ..old(e)@.registers })),
{
    let v = e.registers.l;
    let t = decrement(&mut e.registers, v);
    e.registers.l = t;
}

/// `LD L, n`: loads the immediate operand.
pub fn ld_l_n(e: &mut Emulator)
    requires
        old(e).wf(),
    ensures
        final(e).wf(),
        final(e)@ == with_regs(old(e)@, (Registers { l: final(e)@.registers.l, pc: spec_inc16(old(e)@.registers.pc), ..old(e)@.registers })),
        det_read(old(e)@.registers.pc) ==> final(e)@.registers.l == bus_read(old(e)@, old(e)@.registers.pc),
{
    let t = e.read_next_byte();
    e.registers.l = t;
}

/// `CPL`: complements the accumulator; Subtract and Half-Carry set,
/// Zero and Carry preserved.
pub fn cpl(e: &mut Emulator)
    requires
        old(e).wf(),
    ensures
        final(e).wf(),
        final(e)@ == with_regs(old(e)@, (Registers { a: !old(e)@.registers.a, f: spec_flags(spec_flag_set(old(e)@.registers.f, FLAG_ZERO), true, true, spec_carry(old(e)@.registers.f)), ..old(e)@.registers })),
{
    let z = e.registers.is_flag_set(FLAG_ZERO);
    let c = e.registers.is_flag_set(FLAG_CARRY);
    e.registers.a = !e.registers.a;
    e.registers.f = flags_byte(z, true, true, c);
}

/// `JR NC, n`: the operand is always consumed; the signed jump costs 12 ticks when taken, 8 when not.
pub fn jr_nc_n(e: &mut Emulator)
    requires
        old(e).wf(),
        old(e)@.cpu.ticks + 24 <= u64::MAX,
    ensures
        final(e).wf(),
        old(e)@.cpu.ticks <= final(e)@.cpu.ticks <= old(e)@.cpu.ticks + 24,
        final(e)@ == (EmulatorV { registers: (Registers { pc: final(e)@.registers.pc, ..old(e)@.registers }), cpu: (Cpu { ticks: final(e)@.cpu.ticks, ..old(e)@.cpu }), ..old(e)@ }),
        det_read(old(e)@.registers.pc) ==> final(e)@ == (if !spec_flag_set(old(e)@.registers.f, FLAG_CARRY) { (EmulatorV { registers: (Registers { pc: spec_signed_add16(spec_inc16(old(e)@.registers.pc), bus_read(old(e)@, old(e)@.registers.pc)), ..old(e)@.registers }), cpu: (Cpu { ticks: (old(e)@.cpu.ticks + 12) as u64, ..old(e)@.cpu }), ..old(e)@ }) } else { (EmulatorV { registers: (Registers { pc: spec_inc16(old(e)@.registers.pc), ..old(e)@.registers }), cpu: (Cpu { ticks: (old(e)@.cpu.ticks + 8) as u64, ..old(e)@.cpu }), ..old(e)@ }) }),
{
    let operand = e.read_next_byte();
    if !(e.registers.is_flag_set(FLAG_CARRY)) {
        e.registers.pc = signed_add16(e.registers.pc, operand);
        e.cpu.ticks = e.cpu.ticks + 12;
    } else {
        e.cpu.ticks = e.cpu.ticks + 8;
    }
}

/// `LD SP, nn`.
pub fn ld_sp_nn(e: &mut Emulator)
    requires
        old(e).wf(),
    ensures
        final(e).wf(),
        final(e)@ == with_regs(old(e)@, (Registers { sp: final(e)@.registers.sp, pc: spec_inc16(spec_inc16(old(e)@.registers.pc)), ..old(e)@.registers })),
        det_read16(old(e)@.registers.pc) ==> final(e)@.registers.sp == bus_read16(old(e)@, old(e)@.registers.pc),
{
    let t = e.read_next_short();
    e.registers.sp = t;
}

/// `LDD (HL), A`: stores A at HL, then decrements HL.
pub fn ldd_hlp_a(e: &mut Emulator)
    requires
        old(e).wf(),
    ensures
        final(e).wf(),
        final(e)@.registers == old(e)@.registers.spec_set_hl(spec_dec16(old(e)@.registers.spec_get_hl())),
        bus_write_ok(old(e)@, old(e)@.registers.spec_get_hl(), old(e)@.registers.a, with_regs(final(e)@, old(e)@.registers)),
        final(e)@.cpu == old(e)@.cpu,
{
    let hl = e.registers.get_hl();
    let a = e.registers.a;
    e.write_byte(hl, a);
    let ghost w = e@;
    let t: u16 = if hl == 0 { 0xFFFF } else { hl - 1 };
    e.registers.set_hl(t);
    proof {
        assert(with_regs(e@, old(e)@.registers) =~= w);
    }
}

/// `INC SP`: wraps modulo 2^16, no flags.
pub fn inc_sp(e: &mut Emulator)
    requires
        old(e).wf(),
    ensures
        final(e).wf(),
        final(e)@ == with_regs(old(e)@, (Registers { sp: spec_inc16(old(e)@.registers.sp), ..old(e)@.registers })),
{
    e.registers.sp = if e.registers.sp == 0xFFFF { 0 } else { e.registers.sp + 1 };
}

/// `INC (HL)`: increments the byte at HL in place; Carry preserved.
pub fn inc_hlp(e: &mut Emulator)
    requires
        old(e).wf(),
    ensures
        final(e).wf(),
        final(e)@.cpu == old(e)@.cpu,
        final(e)@.registers == (Registers { f: final(e)@.registers.f, ..old(e)@.registers }),
        det_read(old(e)@.registers.spec_get_hl()) ==> bus_write_ok(with_regs(old(e)@, (Registers { f: spec_inc_flags(old(e)@.registers.f, bus_read(old(e)@, old(e)@.registers.spec_get_hl())), ..old(e)@.registers })), old(e)@.registers.spec_get_hl(), spec_inc8(bus_read(old(e)@, old(e)@.registers.spec_get_hl())), final(e)@),
{
    let hl = e.registers.get_hl();
    let v = e.read_byte(hl);
    let t = increment(&mut e.registers, v);
    e.write_byte(hl, t);
}

/// `DEC (HL)`: decrements the byte at HL in place; Carry preserved.
pub fn dec_hlp(e: &mut Emulator)
    requires
        old(e).wf(),
    ensures
        final(e).wf(),
        final(e)@.cpu == old(e)@.cpu,
        final(e)@.registers == (Registers { f: final(e)@.registers.f, ..old(e)@.registers }),
        det_read(old(e)@.registers.spec_get_hl()) ==> bus_write_ok(with_regs(old(e)@, (Registers { f: spec_dec_flags(old(e)@.registers.f, bus_read(old(e)@, old(e)@.registers.spec_get_hl())), ..old(e)@.registers })), old(e)@.registers.spec_get_hl(), spec_dec8(bus_read(old(e)@, old(e)@.registers.spec_get_hl())), final(e)@),
{
    let hl = e.registers.get_hl();
    let v = e.read_byte(hl);
    let t = decrement(&mut e.registers, v);
    e.write_byte(hl, t);
}

/// `LD (HL), n`: stores the immediate operand at HL.
pub fn ld_hlp_n(e: &mut Emulator)
    requires
        old(e).wf(),
    ensures
        final(e).wf(),
        final(e)@.cpu == old(e)@.cpu,
        final(e)@.registers == (Registers { pc: spec_inc16(old(e)@.registers.pc), ..old(e)@.registers }),
        det_read(old(e)@.registers.pc) ==> bus_write_ok(with_regs(old(e)@, (Registers { pc: spec_inc16(old(e)@.registers.pc), ..old(e)@.registers })), old(e)@.registers.spec_get_hl(), bus_read(old(e)@, old(e)@.registers.pc), final(e)@),
{
    let hl = e.registers.get_hl();
    let v = e.read_next_byte();
    e.write_byte(hl, v);
}

/// `SCF`: sets Carry; Subtract and Half-Carry cleared, Zero
/// preserved.
pub fn scf(e: &mut Emulator)
    requires
        old(e).wf(),
    ensures
        final(e).wf(),
        final(e)@ == with_regs(old(e)@, (Registers { f: spec_flags(spec_flag_set(old(e)@.registers.f, FLAG_ZERO), false, false, true), ..old(e)@.registers })),
{
    let z = e.registers.is_flag_set(FLAG_ZERO);
    e.registers.f = flags_byte(z, false, false, true);
}

/// `JR C, n`: the operand is always consumed; the signed jump costs 12 ticks when taken, 8 when not.
pub fn jr_c_n(e: &mut Emulator)
    requires
        old(e).wf(),
        old(e)@.cpu.ticks + 24 <= u64::MAX,
    ensures
        final(e).wf(),
        old(e)@.cpu.ticks <= final(e)@.cpu.ticks <= old(e)@.cpu.ticks + 24,
        final(e)@ == (EmulatorV { registers: (Registers { pc: final(e)@.registers.pc, ..old(e)@.registers }), cpu: (Cpu { ticks: final(e)@.cpu.ticks, ..old(e)@.cpu }), ..old(e)@ }),
        det_read(old(e)@.registers.pc) ==> final(e)@ == (if spec_flag_set(old(e)@.registers.f, FLAG_CARRY) { (EmulatorV { registers: (Registers { pc: spec_signed_add16(spec_inc16(old(e)@.registers.pc), bus_read(old(e)@, old(e)@.registers.pc)), ..old(e)@.registers }), cpu: (Cpu { ticks: (old(e)@.cpu.ticks + 12) as u64, ..old(e)@.cpu }), ..old(e)@ }) } else { (EmulatorV { registers: (Registers { pc: spec_inc16(old(e)@.registers.pc), ..old(e)@.registers }), cpu: (Cpu { ticks: (old(e)@.cpu.ticks + 8) as u64, ..old(e)@.cpu }), ..old(e)@ }) }),
{
    let operand = e.read_next_byte();
    if e.registers.is_flag_set(FLAG_CARRY) {
        e.registers.pc = signed_add16(e.registers.pc, operand);
        e.cpu.ticks = e.cpu.ticks + 12;
    } else {
        e.cpu.ticks = e.cpu.ticks + 8;
    }
}

/// `ADD HL, SP`: Zero preserved, Subtract cleared.
pub fn add_hl_sp(e: &mut Emulator)
    requires
        old(e).wf(),
    ensures
        final(e).wf(),
        final(e)@ == with_regs(old(e)@, spec_add_hl(old(e)@.registers, old(e)@.registers.sp)),
{
    let hl = e.registers.get_hl();
    let v = e.registers.sp;
    let t = add_short(&mut e.registers, hl, v);
    e.registers.set_hl(t);
}

/// `LDD A, (HL)`: loads A from HL, then decrements HL.
pub fn ldd_a_hlp(e: &mut Emulator)
    requires
        old(e).wf(),
    ensures
        final(e).wf(),
        final(e)@ == with_regs(old(e)@, (Registers { a: final(e)@.registers.a, ..old(e)@.registers.spec_set_hl(spec_dec16(old(e)@.registers.spec_get_hl())) })),
        det_read(old(e)@.registers.spec_get_hl()) ==> final(e)@.registers.a == bus_read(old(e)@, old(e)@.registers.spec_get_hl()),
{
    let hl = e.registers.get_hl();
    let v = e.read_byte(hl);
    e.registers.a = v;
    let t: u16 = if hl == 0 { 0xFFFF } else { hl - 1 };
    e.registers.set_hl(t);
}

/// `DEC SP`: wraps modulo 2^16, no flags.
pub fn dec_sp(e: &mut Emulator)
    requires
        old(e).wf(),
    ensures
        final(e).wf(),
        final(e)@ == with_regs(old(e)@, (Registers { sp: spec_dec16(old(e)@.registers.sp), ..old(e)@.registers })),
{
    e.registers.sp = if e.registers.sp == 0 { 0xFFFF } else { e.registers.sp - 1 };
}

/// `INC A`: Zero and Half-Carry from the result, Subtract cleared, Carry preserved.
pub fn inc_a(e: &mut Emulator)
    requires
        old(e).wf(),
    ensures
        final(e).wf(),
        final(e)@ == with_regs(old(e)@, (Registers { a: spec_inc8(old(e)@.registers.a), f: spec_inc_flags(old(e)@.registers.f, old(e)@.registers.a), ..old(e)@.registers })),
{
    let v = e.registers.a;
    let t = increment(&mut e.registers, v);
    e.registers.a = t;
}

/// `DEC A`.
pub fn dec_a(e: &mut Emulator)
    requires
        old(e).wf(),
    ensures
        final(e).wf(),
        final(e)@ == with_regs(old(e)@, (Registers { a: spec_dec8(old(e)@.registers.a), f: spec_dec_flags(old(e)@.registers.f, old(e)@.registers.a), ..old(e)@.registers })),
{
    let v = e.registers.a;
    let t = decrement(&mut e.registers, v);
    e.registers.a = t;
}

/// `LD A, n`: loads the immediate operand.
pub fn ld_a_n(e: &mut Emulator)
    requires
        old(e).wf(),
    ensures
        final(e).wf(),
        final(e)@ == with_regs(old(e)@, (Registers { a: final(e)@.registers.a, pc: spec_inc16(old(e)@.registers.pc), ..old(e)@.registers })),
        det_read(old(e)@.registers.pc) ==> final(e)@.registers.a == bus_read(old(e)@, old(e)@.registers.pc),
{
    let t = e.read_next_byte();
    e.registers.a = t;
}

/// `CCF`: complements Carry; Subtract and Half-Carry cleared, Zero
/// preserved.
pub fn ccf(e: &mut Emulator)
    requires
        old(e).wf(),
    ensures
        final(e).wf(),
        final(e)@ == with_regs(old(e)@, (Registers { f: spec_flags(spec_flag_set(old(e)@.registers.f, FLAG_ZERO), false, false, !spec_carry(old(e)@.registers.f)), ..old(e)@.registers })),
{
    let z = e.registers.is_flag_set(FLAG_ZERO);
    let c = e.registers.is_flag_set(FLAG_CARRY);
    e.registers.f = flags_byte(z, false, false, !c);
}

/// `LD B, D`.
pub fn ld_b_d(e: &mut Emulator)
    requires
        old(e).wf(),
    ensures
        final(e).wf(),
        final(e)@ == with_regs(old(e)@, (Registers { b: old(e)@.registers.d, ..old(e)@.registers })),
{
    e.registers.b = e.registers.d;
}

/// `LD B, E`.
pub fn ld_b_e(e: &mut Emulator)
    requires
        old(e).wf(),
    ensures
        final(e).wf(),
        final(e)@ == with_regs(old(e)@, (Registers { b: old(e)@.registers.e, ..old(e)@.registers })),
{
    e.registers.b = e.registers.e;
}

/// `LD B, H`.
pub fn ld_b_h(e: &mut Emulator)
    requires
        old(e).wf(),
    ensures
        final(e).wf(),
        final(e)@ == with_regs(old(e)@, (Registers { b: old(e)@.registers.h, ..old(e)@.registers })),
{
    e.registers.b = e.registers.h;
}

/// `LD B, L`.
pub fn ld_b_l(e: &mut Emulator)
    requires
        old(e).wf(),
    ensures
        final(e).wf(),
        final(e)@ == with_regs(old(e)@, (Registers { b: old(e)@.registers.l, ..old(e)@.registers })),
{
    e.registers.b = e.registers.l;
}

/// `LD B, A`.
pub fn ld_b_a(e: &mut Emulator)
    requires
        old(e).wf(),
    ensures
        final(e).wf(),
        final(e)@ == with_regs(old(e)@, (Registers { b: old(e)@.registers.a, ..old(e)@.registers })),
{
    e.registers.b = e.registers.a;
}

/// `LD C, B`.
pub fn ld_c_b(e: &mut Emulator)
    requires
        old(e).wf(),
    ensures
        final(e).wf(),
        final(e)@ == with_regs(old(e)@, (Registers { c: old(e)@.registers.b, ..old(e)@.registers })),
{
    e.registers.c = e.registers.b;
}

/// `LD C, D`.
pub fn ld_c_d(e: &mut Emulator)
    requires
        old(e).wf(),
    ensures
        final(e).wf(),
        final(e)@ == with_regs(old(e)@, (Registers { c: old(e)@.registers.d, ..old(e)@.registers })),
{
    e.registers.c = e.registers.d;
}

/// `LD C, E`.
pub fn ld_c_e(e: &mut Emulator)
    requires
        old(e).wf(),
    ensures
        final(e).wf(),
        final(e)@ == with_regs(old(e)@, (Registers { c: old(e)@.registers.e, ..old(e)@.registers })),
{
    e.registers.c = e.registers.e;
}

/// `LD C, H`.
pub fn ld_c_h(e: &mut Emulator)
    requires
        old(e).wf(),
    ensures
        final(e).wf(),
        final(e)@ == with_regs(old(e)@, (Registers { c: old(e)@.registers.h, ..old(e)@.registers })),
{
    e.registers.c = e.registers.h;
}

/// `LD C, L`.
pub fn ld_c_l(e: &mut Emulator)
    requires
        old(e).wf(),
    ensures
        final(e).wf(),
        final(e)@ == with_regs(old(e)@, (Registers { c: old(e)@.registers.l, ..old(e)@.registers })),
{
    e.registers.c = e.registers.l;
}

/// `LD C, (HL)`.
pub fn ld_c_hlp(e: &mut Emulator)
    requires
        old(e).wf(),
    ensures
        final(e).wf(),
        final(e)@ == with_regs(old(e)@, (Registers { c: final(e)@.registers.c, ..old(e)@.registers })),
        det_read(old(e)@.registers.spec_get_hl()) ==> final(e)@.registers.c == bus_read(old(e)@, old(e)@.registers.spec_get_hl()),
{
    let hl = e.registers.get_hl();
    let t = e.read_byte(hl);
    e.registers.c = t;
}

/// `LD C, A`.
pub fn ld_c_a(e: &mut Emulator)
    requires
        old(e).wf(),
    ensures
        final(e).wf(),
        final(e)@ == with_regs(old(e)@, (Registers { c: old(e)@.registers.a, ..old(e)@.registers })),
{
    e.registers.c = e.registers.a;
}

/// `LD D, B`.
pub fn ld_d_b(e: &mut Emulator)
    requires
        old(e).wf(),
    ensures
        final(e).wf(),
        final(e)@ == with_regs(old(e)@, (Registers { d: old(e)@.registers.b, ..old(e)@.registers })),
{
    e.registers.d = e.registers.b;
}

/// `LD D, C`.
pub fn ld_d_c(e: &mut Emulator)
    requires
        old(e).wf(),
    ensures
        final(e).wf(),
        final(e)@ == with_regs(old(e)@, (Registers { d: old(e)@.registers.c, ..old(e)@.registers })),
{
    e.registers.d = e.registers.c;
}

/// `LD D, E`.
pub fn ld_d_e(e: &mut Emulator)
    requires
        old(e).wf(),
    ensures
        final(e).wf(),
        final(e)@ == with_regs(old(e)@, (Registers { d: old(e)@.registers.e, ..old(e)@.registers })),
{
    e.registers.d = e.registers.e;
}

/// `LD D, H`.
pub fn ld_d_h(e: &mut Emulator)
    requires
        old(e).wf(),
    ensures
        final(e).wf(),
        final(e)@ == with_regs(old(e)@, (Registers { d: old(e)@.registers.h, ..old(e)@.registers })),
{
    e.registers.d = e.registers.h;
}

/// `LD D, L`.
pub fn ld_d_l(e: &mut Emulator)
    requires
        old(e).wf(),
    ensures
        final(e).wf(),
        final(e)@ == with_regs(old(e)@, (Registers { d: old(e)@.registers.l, ..old(e)@.registers })),
{
    e.registers.d = e.registers.l;
}

/// `LD D, (HL)`.
pub fn ld_d_hlp(e: &mut Emulator)
    requires
        old(e).wf(),
    ensures
        final(e).wf(),
        final(e)@ == with_regs(old(e)@, (Registers { d: final(e)@.registers.d, ..old(e)@.registers })),
        det_read(old(e)@.registers.spec_get_hl()) ==> final(e)@.registers.d == bus_read(old(e)@, old(e)@.registers.spec_get_hl()),
{
    let hl = e.registers.get_hl();
    let t = e.read_byte(hl);
    e.registers.d = t;
}

/// `LD D, A`.
pub fn ld_d_a(e: &mut Emulator)
    requires
        old(e).wf(),
    ensures
        final(e).wf(),
        final(e)@ == with_regs(old(e)@, (Registers { d: old(e)@.registers.a, ..old(e)@.registers })),
{
    e.registers.d = e.registers.a;
}

/// `LD E, B`.
pub fn ld_e_b(e: &mut Emulator)
    requires
        old(e).wf(),
    ensures
        final(e).wf(),
        final(e)@ == with_regs(old(e)@, (Registers { e: old(e)@.registers.b, ..old(e)@.registers })),
{
    e.registers.e = e.registers.b;
}

/// `LD E, C`.
pub fn ld_e_c(e: &mut Emulator)
    requires
        old(e).wf(),
    ensures
        final(e).wf(),
        final(e)@ == with_regs(old(e)@, (Registers { e: old(e)@.registers.c, ..old(e)@.registers })),
{
    e.registers.e = e.registers.c;
}

/// `LD E, D`.
pub fn ld_e_d(e: &mut Emulator)
    requires
        old(e).wf(),
    ensures
        final(e).wf(),
        final(e)@ == with_regs(old(e)@, (Registers { e: old(e)@.registers.d, ..old(e)@.registers })),
{
    e.registers.e = e.registers.d;
}

/// `LD E, H`.
pub fn ld_e_h(e: &mut Emulator)
    requires
        old(e).wf(),
    ensures
        final(e).wf(),
        final(e)@ == with_regs(old(e)@, (Registers { e: old(e)@.registers.h, ..old(e)@.registers })),
{
    e.registers.e = e.registers.h;
}

/// `LD E, L`.
pub fn ld_e_l(e: &mut Emulator)
    requires
        old(e).wf(),
    ensures
        final(e).wf(),
        final(e)@ == with_regs(old(e)@, (Registers { e: old(e)@.registers.l, ..old(e)@.registers })),
{
    e.registers.e = e.registers.l;
}

/// `LD E, (HL)`.
pub fn ld_e_hlp(e: &mut Emulator)
    requires
        old(e).wf(),
    ensures
        final(e).wf(),
        final(e)@ == with_regs(old(e)@, (Registers { e: final(e)@.registers.e, ..old(e)@.registers })),
        det_read(old(e)@.registers.spec_get_hl()) ==> final(e)@.registers.e == bus_read(old(e)@, old(e)@.registers.spec_get_hl()),
{
    let hl = e.registers.get_hl();
    let t = e.read_byte(hl);
    e.registers.e = t;
}

/// `LD E, A`.
pub fn ld_e_a(e: &mut Emulator)
    requires
        old(e).wf(),
    ensures
        final(e).wf(),
        final(e)@ == with_regs(old(e)@, (Registers { e: old(e)@.registers.a, ..old(e)@.registers })),
{
    e.registers.e = e.registers.a;
}

/// `LD H, B`.
pub fn ld_h_b(e: &mut Emulator)
    requires
        old(e).wf(),
    ensures
        final(e).wf(),
        final(e)@ == with_regs(old(e)@, (Registers { h: old(e)@.registers.b, ..old(e)@.registers })),
{
    e.registers.h = e.registers.b;
}

/// `LD H, C`.
pub fn ld_h_c(e: &mut Emulator)
    requires
        old(e).wf(),
    ensures
        final(e).wf(),
        final(e)@ == with_regs(old(e)@, (Registers { h: old(e)@.registers.c, ..old(e)@.registers })),
{
    e.registers.h = e.registers.c;
}

/// `LD H, D`.
pub fn ld_h_d(e: &mut Emulator)
    requires
        old(e).wf(),
    ensures
        final(e).wf(),
        final(e)@ == with_regs(old(e)@, (Registers { h: old(e)@.registers.d, ..old(e)@.registers })),
{
    e.registers.h = e.registers.d;
}

/// `LD H, E`.
pub fn ld_h_e(e: &mut Emulator)
    requires
        old(e).wf(),
    ensures
        final(e).wf(),
        final(e)@ == with_regs(old(e)@, (Registers { h: old(e)@.registers.e, ..old(e)@.registers })),
{
    e.registers.h = e.registers.e;
}

/// `LD H, L`.
pub fn ld_h_l(e: &mut Emulator)
    requires
        old(e).wf(),
    ensures
        final(e).wf(),
        final(e)@ == with_regs(old(e)@, (Registers { h: old(e)@.registers.l, ..old(e)@.registers })),
{
    e.registers.h = e.registers.l;
}

/// `LD H, (HL)`.
pub fn ld_h_hlp(e: &mut Emulator)
    requires
        old(e).wf(),
    ensures
        final(e).wf(),
        final(e)@ == with_regs(old(e)@, (Registers { h: final(e)@.registers.h, ..old(e)@.registers })),
        det_read(old(e)@.registers.spec_get_hl()) ==> final(e)@.registers.h == bus_read(old(e)@, old(e)@.registers.spec_get_hl()),
{
    let hl = e.registers.get_hl();
    let t = e.read_byte(hl);
    e.registers.h = t;
}

/// `LD H, A`.
pub fn ld_h_a(e: &mut Emulator)
    requires
        old(e).wf(),
    ensures
        final(e).wf(),
        final(e)@ == with_regs(old(e)@, (Registers { h: old(e)@.registers.a, ..old(e)@.registers })),
{
    e.registers.h = e.registers.a;
}

/// `LD L, B`.
pub fn ld_l_b(e: &mut Emulator)
    requires
        old(e).wf(),
    ensures
        final(e).wf(),
        final(e)@ == with_regs(old(e)@, (Registers { l: old(e)@.registers.b, ..old(e)@.registers })),
{
    e.registers.l = e.registers.b;
}

/// `LD L, C`.
pub fn ld_l_c(e: &mut Emulator)
    requires
        old(e).wf(),
    ensures
        final(e).wf(),
        final(e)@ == with_regs(old(e)@, (Registers { l: old(e)@.registers.c, ..old(e)@.registers })),
{
    e.registers.l = e.registers.c;
}

/// `LD L, D`.
pub fn ld_l_d(e: &mut Emulator)
    requires
        old(e).wf(),
    ensures
        final(e).wf(),
        final(e)@ == with_regs(old(e)@, (Registers { l: old(e)@.registers.d, ..old(e)@.registers })),
{
    e.registers.l = e.registers.d;
}

/// `LD L, E`.
pub fn ld_l_e(e: &mut Emulator)
    requires
        old(e).wf(),
    ensures
        final(e).wf(),
        final(e)@ == with_regs(old(e)@, (Registers { l: old(e)@.registers.e, ..old(e)@.registers })),
{
    e.registers.l = e.registers.e;
}

/// `LD L, H`.
pub fn ld_l_h(e: &mut Emulator)
    requires
        old(e).wf(),
    ensures
        final(e).wf(),
        final(e)@ == with_regs(old(e)@, (Registers { l: old(e)@.registers.h, ..old(e)@.registers })),
{
    e.registers.l = e.registers.h;
}

/// `LD L, (HL)`.
pub fn ld_l_hlp(e: &mut Emulator)
    requires
        old(e).wf(),
    ensures
        final(e).wf(),
        final(e)@ == with_regs(old(e)@, (Registers { l: final(e)@.registers.l, ..old(e)@.registers })),
        det_read(old(e)@.registers.spec_get_hl()) ==> final(e)@.registers.l == bus_read(old(e)@, old(e)@.registers.spec_get_hl()),
{
    let hl = e.registers.get_hl();
    let t = e.read_byte(hl);
    e.registers.l = t;
}

/// `LD L, A`.
pub fn ld_l_a(e: &mut Emulator)
    requires
        old(e).wf(),
    ensures
        final(e).wf(),
        final(e)@ == with_regs(old(e)@, (Registers { l: old(e)@.registers.a, ..old(e)@.registers })),
{
    e.registers.l = e.registers.a;
}

/// `LD (HL), B`.
pub fn ld_hlp_b(e: &mut Emulator)
    requires
        old(e).wf(),
    ensures
        final(e).wf(),
        bus_write_ok(old(e)@, old(e)@.registers.spec_get_hl(), old(e)@.registers.b, final(e)@),
        final(e)@.cpu == old(e)@.cpu,
        final(e)@.registers == old(e)@.registers,
{
    let hl = e.registers.get_hl();
    let v = e.registers.b;
    e.write_byte(hl, v);
}

/// `LD (HL), C`.
pub fn ld_hlp_c(e: &mut Emulator)
    requires
        old(e).wf(),
    ensures
        final(e).wf(),
        bus_write_ok(old(e)@, old(e)@.registers.spec_get_hl(), old(e)@.registers.c, final(e)@),
        final(e)@.cpu == old(e)@.cpu,
        final(e)@.registers == old(e)@.registers,
{
    let hl = e.registers.get_hl();
    let v = e.registers.c;
    e.write_byte(hl, v);
}

/// `LD (HL), D`.
pub fn ld_hlp_d(e: &mut Emulator)
    requires
        old(e).wf(),
    ensures
        final(e).wf(),
        bus_write_ok(old(e)@, old(e)@.registers.spec_get_hl(), old(e)@.registers.d, final(e)@),
        final(e)@.cpu == old(e)@.cpu,
        final(e)@.registers == old(e)@.registers,
{
    let hl = e.registers.get_hl();
    let v = e.registers.d;
    e.write_byte(hl, v);
}

/// `LD (HL), E`.
pub fn ld_hlp_e(e: &mut Emulator)
    requires
        old(e).wf(),
    ensures
        final(e).wf(),
        bus_write_ok(old(e)@, old(e)@.registers.spec_get_hl(), old(e)@.registers.e, final(e)@),
        final(e)@.cpu == old(e)@.cpu,
        final(e)@.registers == old(e)@.registers,
{
    let hl = e.registers.get_hl();
    let v = e.registers.e;
    e.write_byte(hl, v);
}

/// `LD (HL), H`.
pub fn ld_hlp_h(e: &mut Emulator)
    requires
        old(e).wf(),
    ensures
        final(e).wf(),
        bus_write_ok(old(e)@, old(e)@.registers.spec_get_hl(), old(e)@.registers.h, final(e)@),
        final(e)@.cpu == old(e)@.cpu,
        final(e)@.registers == old(e)@.registers,
{
    let hl = e.registers.get_hl();
    let v = e.registers.h;
    e.write_byte(hl, v);
}

/// `LD (HL), L`.
pub fn ld_hlp_l(e: &mut Emulator)
    requires
        old(e).wf(),
    ensures
        final(e).wf(),
        bus_write_ok(old(e)@, old(e)@.registers.spec_get_hl(), old(e)@.registers.l, final(e)@),
        final(e)@.cpu == old(e)@.cpu,
        final(e)@.registers == old(e)@.registers,
{
    let hl = e.registers.get_hl();
    let v = e.registers.l;
    e.write_byte(hl, v);
}

/// `HALT`: with the master interrupt flag off the program counter
/// skips past the instruction instead of halting (the documented
/// halt-bug workaround); otherwise nothing changes until an
/// interrupt arrives.
pub fn halt(e: &mut Emulator)
    requires
        old(e).wf(),
    ensures
        final(e).wf(),
        final(e)@ == (if old(e)@.interrupt.master != 0 { old(e)@ } else { with_regs(old(e)@, (Registers { pc: spec_inc16(old(e)@.registers.pc), ..old(e)@.registers })) }),
{
    if e.interrupt.master != 0 {
    } else {
        e.registers.pc = if e.registers.pc == 0xFFFF { 0 } else { e.registers.pc + 1 };
    }
}

/// `LD A, B`.
pub fn ld_a_b(e: &mut Emulator)
    requires
        old(e).wf(),
    ensures
        final(e).wf(),
        final(e)@ == with_regs(old(e)@, (Registers { a: old(e)@.registers.b, ..old(e)@.registers })),
{
    e.registers.a = e.registers.b;
}

/// `LD A, C`.
pub fn ld_a_c(e: &mut Emulator)
    requires
        old(e).wf(),
    ensures
        final(e).wf(),
        final(e)@ == with_regs(old(e)@, (Registers { a: old(e)@.registers.c, ..old(e)@.registers })),
{
    e.registers.a = e.registers.c;
}

/// `LD A, D`.
pub fn ld_a_d(e: &mut Emulator)
    requires
        old(e).wf(),
    ensures
        final(e).wf(),
        final(e)@ == with_regs(old(e)@, (Registers { a: old(e)@.registers.d, ..old(e)@.registers })),
{
    e.registers.a = e.registers.d;
}

/// `LD A, E`.
pub fn ld_a_e(e: &mut Emulator)
    requires
        old(e).wf(),
    ensures
        final(e).wf(),
        final(e)@ == with_regs(old(e)@, (Registers { a: old(e)@.registers.e, ..old(e)@.registers })),
{
    e.registers.a = e.registers.e;
}

/// `LD A, H`.
pub fn ld_a_h(e: &mut Emulator)
    requires
        old(e).wf(),
    ensures
        final(e).wf(),
        final(e)@ == with_regs(old(e)@, (Registers { a: old(e)@.registers.h, ..old(e)@.registers })),
{
    e.registers.a = e.registers.h;
}

/// `LD A, L`.
pub fn ld_a_l(e: &mut Emulator)
    requires
        old(e).wf(),
    ensures
        final(e).wf(),
        final(e)@ == with_regs(old(e)@, (Registers { a: old(e)@.registers.l, ..old(e)@.registers })),
{
    e.registers.a = e.registers.l;
}

/// `LD A, (HL)`.
pub fn ld_a_hlp(e: &mut Emulator)
    requires
        old(e).wf(),
    ensures
        final(e).wf(),
        final(e)@ == with_regs(old(e)@, (Registers { a: final(e)@.registers.a, ..old(e)@.registers })),
        det_read(old(e)@.registers.spec_get_hl()) ==> final(e)@.registers.a == bus_read(old(e)@, old(e)@.registers.spec_get_hl()),
{
    let hl = e.registers.get_hl();
    let t = e.read_byte(hl);
    e.registers.a = t;
}

/// `ADD A, C`.
pub fn add_a_c(e: &mut Emulator)
    requires
        old(e).wf(),
    ensures
        final(e).wf(),
        final(e)@ == with_regs(old(e)@, spec_add_a(old(e)@.registers, old(e)@.registers.c)),
{
    let v = e.registers.c;
    let a = e.registers.a;
    let t = add_byte(&mut e.registers, a, v);
    e.registers.a = t;
}

/// `ADD A, D`.
pub fn add_a_d(e: &mut Emulator)
    requires
        old(e).wf(),
    ensures
        final(e).wf(),
        final(e)@ == with_regs(old(e)@, spec_add_a(old(e)@.registers, old(e)@.registers.d)),
{
    let v = e.registers.d;
    let a = e.registers.a;
    let t = add_byte(&mut e.registers, a, v);
    e.registers.a = t;
}

/// `ADD A, E`.
pub fn add_a_e(e: &mut Emulator)
    requires
        old(e).wf(),
    ensures
        final(e).wf(),
        final(e)@ == with_regs(old(e)@, spec_add_a(old(e)@.registers, old(e)@.registers.e)),
{
    let v = e.registers.e;
    let a = e.registers.a;
    let t = add_byte(&mut e.registers, a, v);
    e.registers.a = t;
}

/// `ADD A, H`.
pub fn add_a_h(e: &mut Emulator)
    requires
        old(e).wf(),
    ensures
        final(e).wf(),
        final(e)@ == with_regs(old(e)@, spec_add_a(old(e)@.registers, old(e)@.registers.h)),
{
    let v = e.registers.h;
    let a = e.registers.a;
    let t = add_byte(&mut e.registers, a, v);
    e.registers.a = t;
}

/// `ADD A, L`.
pub fn add_a_l(e: &mut Emulator)
    requires
        old(e).wf(),
    ensures
        final(e).wf(),
        final(e)@ == with_regs(old(e)@, spec_add_a(old(e)@.registers, old(e)@.registers.l)),
{
    let v = e.registers.l;
    let a = e.registers.a;
    let t = add_byte(&mut e.registers, a, v);
    e.registers.a = t;
}

/// `ADD A, A`.
pub fn add_a_a(e: &mut Emulator)
    requires
        old(e).wf(),
    ensures
        final(e).wf(),
        final(e)@ == with_regs(old(e)@, spec_add_a(old(e)@.registers, old(e)@.registers.a)),
{
    let v = e.registers.a;
    let a = e.registers.a;
    let t = add_byte(&mut e.registers, a, v);
    e.registers.a = t;
}

/// `ADC B`.
pub fn adc_b(e: &mut Emulator)
    requires
        old(e).wf(),
    ensures
        final(e).wf(),
        final(e)@ == with_regs(old(e)@, spec_adc_a(old(e)@.registers, old(e)@.registers.b)),
{
    let v = e.registers.b;
    add_with_carry(&mut e.registers, v);
}

/// `ADC C`.
pub fn adc_c(e: &mut Emulator)
    requires
        old(e).wf(),
    ensures
        final(e).wf(),
        final(e)@ == with_regs(old(e)@, spec_adc_a(old(e)@.registers, old(e)@.registers.c)),
{
    let v = e.registers.c;
    add_with_carry(&mut e.registers, v);
}

/// `ADC D`.
pub fn adc_d(e: &mut Emulator)
    requires
        old(e).wf(),
    ensures
        final(e).wf(),
        final(e)@ == with_regs(old(e)@, spec_adc_a(old(e)@.registers, old(e)@.registers.d)),
{
    let v = e.registers.d;
    add_with_carry(&mut e.registers, v);
}

/// `ADC E`.
pub fn adc_e(e: &mut Emulator)
    requires
        old(e).wf(),
    ensures
        final(e).wf(),
        final(e)@ == with_regs(old(e)@, spec_adc_a(old(e)@.registers, old(e)@.registers.e)),
{
    let v = e.registers.e;
    add_with_carry(&mut e.registers, v);
}

/// `ADC H`.
pub fn adc_h(e: &mut Emulator)
    requires
        old(e).wf(),
    ensures
        final(e).wf(),
        final(e)@ == with_regs(old(e)@, spec_adc_a(old(e)@.registers, old(e)@.registers.h)),
{
    let v = e.registers.h;
    add_with_carry(&mut e.registers, v);
}

/// `ADC L`.
pub fn adc_l(e: &mut Emulator)
    requires
        old(e).wf(),
    ensures
        final(e).wf(),
        final(e)@ == with_regs(old(e)@, spec_adc_a(old(e)@.registers, old(e)@.registers.l)),
{
    let v = e.registers.l;
    add_with_carry(&mut e.registers, v);
}

/// `ADC (HL)`.
pub fn adc_hlp(e: &mut Emulator)
    requires
        old(e).wf(),
    ensures
        final(e).wf(),
        final(e)@ == with_regs(old(e)@, (Registers { a: final(e)@.registers.a, f: final(e)@.registers.f, ..old(e)@.registers })),
        det_read(old(e)@.registers.spec_get_hl()) ==> final(e)@ == with_regs(old(e)@, spec_adc_a(old(e)@.registers, bus_read(old(e)@, old(e)@.registers.spec_get_hl()))),
{
    let hl = e.registers.get_hl();
    let v = e.read_byte(hl);
    add_with_carry(&mut e.registers, v);
}

/// `ADC A`.
pub fn adc_a(e: &mut Emulator)
    requires
        old(e).wf(),
    ensures
        final(e).wf(),
        final(e)@ == with_regs(old(e)@, spec_adc_a(old(e)@.registers, old(e)@.registers.a)),
{
    let v = e.registers.a;
    add_with_carry(&mut e.registers, v);
}

/// `SUB B`.
pub fn sub_b(e: &mut Emulator)
    requires
        old(e).wf(),
    ensures
        final(e).wf(),
        final(e)@ == with_regs(old(e)@, spec_sub_a(old(e)@.registers, old(e)@.registers.b)),
{
    let v = e.registers.b;
    subtract(&mut e.registers, v);
}

/// `SUB C`.
pub fn sub_c(e: &mut Emulator)
    requires
        old(e).wf(),
    ensures
        final(e).wf(),
        final(e)@ == with_regs(old(e)@, spec_sub_a(old(e)@.registers, old(e)@.registers.c)),
{
    let v = e.registers.c;
    subtract(&mut e.registers, v);
}

/// `SUB D`.
pub fn sub_d(e: &mut Emulator)
    requires
        old(e).wf(),
    ensures
        final(e).wf(),
        final(e)@ == with_regs(old(e)@, spec_sub_a(old(e)@.registers, old(e)@.registers.d)),
{
    let v = e.registers.d;
    subtract(&mut e.registers, v);
}

/// `SUB E`.
pub fn sub_e(e: &mut Emulator)
    requires
        old(e).wf(),
    ensures
        final(e).wf(),
        final(e)@ == with_regs(old(e)@, spec_sub_a(old(e)@.registers, old(e)@.registers.e)),
{
    let v = e.registers.e;
    subtract(&mut e.registers, v);
}

/// `SUB H`.
pub fn sub_h(e: &mut Emulator)
    requires
        old(e).wf(),
    ensures
        final(e).wf(),
        final(e)@ == with_regs(old(e)@, spec_sub_a(old(e)@.registers, old(e)@.registers.h)),
{
    let v = e.registers.h;
    subtract(&mut e.registers, v);
}

/// `SUB L`.
pub fn sub_l(e: &mut Emulator)
    requires
        old(e).wf(),
    ensures
        final(e).wf(),
        final(e)@ == with_regs(old(e)@, spec_sub_a(old(e)@.registers, old(e)@.registers.l)),
{
    let v = e.registers.l;
    subtract(&mut e.registers, v);
}

/// `SUB (HL)`.
pub fn sub_hlp(e: &mut Emulator)
    requires
        old(e).wf(),
    ensures
        final(e).wf(),
        final(e)@ == with_regs(old(e)@, (Registers { a: final(e)@.registers.a, f: final(e)@.registers.f, ..old(e)@.registers })),
        det_read(old(e)@.registers.spec_get_hl()) ==> final(e)@ == with_regs(old(e)@, spec_sub_a(old(e)@.registers, bus_read(old(e)@, old(e)@.registers.spec_get_hl()))),
{
    let hl = e.registers.get_hl();
    let v = e.read_byte(hl);
    subtract(&mut e.registers, v);
}

/// `SUB A`.
pub fn sub_a(e: &mut Emulator)
    requires
        old(e).wf(),
    ensures
        final(e).wf(),
        final(e)@ == with_regs(old(e)@, spec_sub_a(old(e)@.registers, old(e)@.registers.a)),
{
    let v = e.registers.a;
    subtract(&mut e.registers, v);
}

/// `SBC B`.
pub fn sbc_b(e: &mut Emulator)
    requires
        old(e).wf(),
    ensures
        final(e).wf(),
        final(e)@ == with_regs(old(e)@, spec_sbc_a(old(e)@.registers, old(e)@.registers.b)),
{
    let v = e.registers.b;
    subtract_with_carry(&mut e.registers, v);
}

/// `SBC C`.
pub fn sbc_c(e: &mut Emulator)
    requires
        old(e).wf(),
    ensures
        final(e).wf(),
        final(e)@ == with_regs(old(e)@, spec_sbc_a(old(e)@.registers, old(e)@.registers.c)),
{
    let v = e.registers.c;
    subtract_with_carry(&mut e.registers, v);
}

/// `SBC D`.
pub fn sbc_d(e: &mut Emulator)
    requires
        old(e).wf(),
    ensures
        final(e).wf(),
        final(e)@ == with_regs(old(e)@, spec_sbc_a(old(e)@.registers, old(e)@.registers.d)),
{
    let v = e.registers.d;
    subtract_with_carry(&mut e.registers, v);
}

/// `SBC E`.
pub fn sbc_e(e: &mut Emulator)
    requires
        old(e).wf(),
    ensures
        final(e).wf(),
        final(e)@ == with_regs(old(e)@, spec_sbc_a(old(e)@.registers, old(e)@.registers.e)),
{
    let v = e.registers.e;
    subtract_with_carry(&mut e.registers, v);
}

/// `SBC H`.
pub fn sbc_h(e: &mut Emulator)
    requires
        old(e).wf(),
    ensures
        final(e).wf(),
        final(e)@ == with_regs(old(e)@, spec_sbc_a(old(e)@.registers, old(e)@.registers.h)),
{
    let v = e.registers.h;
    subtract_with_carry(&mut e.registers, v);
}

/// `SBC L`.
pub fn sbc_l(e: &mut Emulator)
    requires
        old(e).wf(),
    ensures
        final(e).wf(),
        final(e)@ == with_regs(old(e)@, spec_sbc_a(old(e)@.registers, old(e)@.registers.l)),
{
    let v = e.registers.l;
    subtract_with_carry(&mut e.registers, v);
}

/// `SBC (HL)`.
pub fn sbc_hlp(e: &mut Emulator)
    requires
        old(e).wf(),
    ensures
        final(e).wf(),
        final(e)@ == with_regs(old(e)@, (Registers { a: final(e)@.registers.a, f: final(e)@.registers.f, ..old(e)@.registers })),
        det_read(old(e)@.registers.spec_get_hl()) ==> final(e)@ == with_regs(old(e)@, spec_sbc_a(old(e)@.registers, bus_read(old(e)@, old(e)@.registers.spec_get_hl()))),
{
    let hl = e.registers.get_hl();
    let v = e.read_byte(hl);
    subtract_with_carry(&mut e.registers, v);
}

/// `SBC A`.
pub fn sbc_a(e: &mut Emulator)
    requires
        old(e).wf(),
    ensures
        final(e).wf(),
        final(e)@ == with_regs(old(e)@, spec_sbc_a(old(e)@.registers, old(e)@.registers.a)),
{
    let v = e.registers.a;
    subtract_with_carry(&mut e.registers, v);
}

/// `AND B`.
pub fn and_b(e: &mut Emulator)
    requires
        old(e).wf(),
    ensures
        final(e).wf(),
        final(e)@ == with_regs(old(e)@, spec_and_a(old(e)@.registers, old(e)@.registers.b)),
{
    let v = e.registers.b;
    and(&mut e.registers, v);
}

/// `AND C`.
pub fn and_c(e: &mut Emulator)
    requires
        old(e).wf(),
    ensures
        final(e).wf(),
        final(e)@ == with_regs(old(e)@, spec_and_a(old(e)@.registers, old(e)@.registers.c)),
{
    let v = e.registers.c;
    and(&mut e.registers, v);
}

/// `AND D`.
pub fn and_d(e: &mut Emulator)
    requires
        old(e).wf(),
    ensures
        final(e).wf(),
        final(e)@ == with_regs(old(e)@, spec_and_a(old(e)@.registers, old(e)@.registers.d)),
{
    let v = e.registers.d;
    and(&mut e.registers, v);
}

/// `AND E`.
pub fn and_e(e: &mut Emulator)
    requires
        old(e).wf(),
    ensures
        final(e).wf(),
        final(e)@ == with_regs(old(e)@, spec_and_a(old(e)@.registers, old(e)@.registers.e)),
{
    let v = e.registers.e;
    and(&mut e.registers, v);
}

/// `AND H`.
pub fn and_h(e: &mut Emulator)
    requires
        old(e).wf(),
    ensures
        final(e).wf(),
        final(e)@ == with_regs(old(e)@, spec_and_a(old(e)@.registers, old(e)@.registers.h)),
{
    let v = e.registers.h;
    and(&mut e.registers, v);
}

/// `AND L`.
pub fn and_l(e: &mut Emulator)
    requires
        old(e).wf(),
    ensures
        final(e).wf(),
        final(e)@ == with_regs(old(e)@, spec_and_a(old(e)@.registers, old(e)@.registers.l)),
{
    let v = e.registers.l;
    and(&mut e.registers, v);
}

/// `AND (HL)`.
pub fn and_hlp(e: &mut Emulator)
    requires
        old(e).wf(),
    ensures
        final(e).wf(),
        final(e)@ == with_regs(old(e)@, (Registers { a: final(e)@.registers.a, f: final(e)@.registers.f, ..old(e)@.registers })),
        det_read(old(e)@.registers.spec_get_hl()) ==> final(e)@ == with_regs(old(e)@, spec_and_a(old(e)@.registers, bus_read(old(e)@, old(e)@.registers.spec_get_hl()))),
{
    let hl = e.registers.get_hl();
    let v = e.read_byte(hl);
    and(&mut e.registers, v);
}

/// `AND A`.
pub fn and_a(e: &mut Emulator)
    requires
        old(e).wf(),
    ensures
        final(e).wf(),
        final(e)@ == with_regs(old(e)@, spec_and_a(old(e)@.registers, old(e)@.registers.a)),
{
    let v = e.registers.a;
    and(&mut e.registers, v);
}

/// `XOR B`.
pub fn xor_b(e: &mut Emulator)
    requires
        old(e).wf(),
    ensures
        final(e).wf(),
        final(e)@ == with_regs(old(e)@, spec_xor_a(old(e)@.registers, old(e)@.registers.b)),
{
    let v = e.registers.b;
    xor(&mut e.registers, v);
}

/// `XOR C`.
pub fn xor_c(e: &mut Emulator)
    requires
        old(e).wf(),
    ensures
        final(e).wf(),
        final(e)@ == with_regs(old(e)@, spec_xor_a(old(e)@.registers, old(e)@.registers.c)),
{
    let v = e.registers.c;
    xor(&mut e.registers, v);
}

/// `XOR D`.
pub fn xor_d(e: &mut Emulator)
    requires
        old(e).wf(),
    ensures
        final(e).wf(),
        final(e)@ == with_regs(old(e)@, spec_xor_a(old(e)@.registers, old(e)@.registers.d)),
{
    let v = e.registers.d;
    xor(&mut e.registers, v);
}

/// `XOR E`.
pub fn xor_e(e: &mut Emulator)
    requires
        old(e).wf(),
    ensures
        final(e).wf(),
        final(e)@ == with_regs(old(e)@, spec_xor_a(old(e)@.registers, old(e)@.registers.e)),
{
    let v = e.registers.e;
    xor(&mut e.registers, v);
}

/// `XOR H`.
pub fn xor_h(e: &mut Emulator)
    requires
        old(e).wf(),
    ensures
        final(e).wf(),
        final(e)@ == with_regs(old(e)@, spec_xor_a(old(e)@.registers, old(e)@.registers.h)),
{
    let v = e.registers.h;
    xor(&mut e.registers, v);
}

/// `XOR L`.
pub fn xor_l(e: &mut Emulator)
    requires
        old(e).wf(),
    ensures
        final(e).wf(),
        final(e)@ == with_regs(old(e)@, spec_xor_a(old(e)@.registers, old(e)@.registers.l)),
{
    let v = e.registers.l;
    xor(&mut e.registers, v);
}

/// `XOR (HL)`.
pub fn xor_hlp(e: &mut Emulator)
    requires
        old(e).wf(),
    ensures
        final(e).wf(),
        final(e)@ == with_regs(old(e)@, (Registers { a: final(e)@.registers.a, f: final(e)@.registers.f, ..old(e)@.registers })),
        det_read(old(e)@.registers.spec_get_hl()) ==> final(e)@ == with_regs(old(e)@, spec_xor_a(old(e)@.registers, bus_read(old(e)@, old(e)@.registers.spec_get_hl()))),
{
    let hl = e.registers.get_hl();
    let v = e.read_byte(hl);
    xor(&mut e.registers, v);
}

/// `XOR A`.
pub fn xor_a(e: &mut Emulator)
    requires
        old(e).wf(),
    ensures
        final(e).wf(),
        final(e)@ == with_regs(old(e)@, spec_xor_a(old(e)@.registers, old(e)@.registers.a)),
{
    let v = e.registers.a;
    xor(&mut e.registers, v);
}

/// `OR B`.
pub fn or_b(e: &mut Emulator)
    requires
        old(e).wf(),
    ensures
        final(e).wf(),
        final(e)@ == with_regs(old(e)@, spec_or_a(old(e)@.registers, old(e)@.registers.b)),
{
    let v = e.registers.b;
    or(&mut e.registers, v);
}

/// `OR C`.
pub fn or_c(e: &mut Emulator)
    requires
        old(e).wf(),
    ensures
        final(e).wf(),
        final(e)@ == with_regs(old(e)@, spec_or_a(old(e)@.registers, old(e)@.registers.c)),
{
    let v = e.registers.c;
    or(&mut e.registers, v);
}

/// `OR D`.
pub fn or_d(e: &mut Emulator)
    requires
        old(e).wf(),
    ensures
        final(e).wf(),
        final(e)@ == with_regs(old(e)@, spec_or_a(old(e)@.registers, old(e)@.registers.d)),
{
    let v = e.registers.d;
    or(&mut e.registers, v);
}

/// `OR E`.
pub fn or_e(e: &mut Emulator)
    requires
        old(e).wf(),
    ensures
        final(e).wf(),
        final(e)@ == with_regs(old(e)@, spec_or_a(old(e)@.registers, old(e)@.registers.e)),
{
    let v = e.registers.e;
    or(&mut e.registers, v);
}

/// `OR H`.
pub fn or_h(e: &mut Emulator)
    requires
        old(e).wf(),
    ensures
        final(e).wf(),
        final(e)@ == with_regs(old(e)@, spec_or_a(old(e)@.registers, old(e)@.registers.h)),
{
    let v = e.registers.h;
    or(&mut e.registers, v);
}

/// `OR L`.
pub fn or_l(e: &mut Emulator)
    requires
        old(e).wf(),
    ensures
        final(e).wf(),
        final(e)@ == with_regs(old(e)@, spec_or_a(old(e)@.registers, old(e)@.registers.l)),
{
    let v = e.registers.l;
    or(&mut e.registers, v);
}

/// `OR (HL)`.
pub fn or_hlp(e: &mut Emulator)
    requires
        old(e).wf(),
    ensures
        final(e).wf(),
        final(e)@ == with_regs(old(e)@, (Registers { a: final(e)@.registers.a, f: final(e)@.registers.f, ..old(e)@.registers })),
        det_read(old(e)@.registers.spec_get_hl()) ==> final(e)@ == with_regs(old(e)@, spec_or_a(old(e)@.registers, bus_read(old(e)@, old(e)@.registers.spec_get_hl()))),
{
    let hl = e.registers.get_hl();
    let v = e.read_byte(hl);
    or(&mut e.registers, v);
}

/// `OR A`.
pub fn or_a(e: &mut Emulator)
    requires
        old(e).wf(),
    ensures
        final(e).wf(),
        final(e)@ == with_regs(old(e)@, spec_or_a(old(e)@.registers, old(e)@.registers.a)),
{
    let v = e.registers.a;
    or(&mut e.registers, v);
}

/// `CP B`.
pub fn cp_b(e: &mut Emulator)
    requires
        old(e).wf(),
    ensures
        final(e).wf(),
        final(e)@ == with_regs(old(e)@, spec_cp_a(old(e)@.registers, old(e)@.registers.b)),
{
    let v = e.registers.b;
    compare(&mut e.registers, v);
}

/// `CP C`.
pub fn cp_c(e: &mut Emulator)
    requires
        old(e).wf(),
    ensures
        final(e).wf(),
        final(e)@ == with_regs(old(e)@, spec_cp_a(old(e)@.registers, old(e)@.registers.c)),
{
    let v = e.registers.c;
    compare(&mut e.registers, v);
}

/// `CP D`.
pub fn cp_d(e: &mut Emulator)
    requires
        old(e).wf(),
    ensures
        final(e).wf(),
        final(e)@ == with_regs(old(e)@, spec_cp_a(old(e)@.registers, old(e)@.registers.d)),
{
    let v = e.registers.d;
    compare(&mut e.registers, v);
}

/// `CP E`.
pub fn cp_e(e: &mut Emulator)
    requires
        old(e).wf(),
    ensures
        final(e).wf(),
        final(e)@ == with_regs(old(e)@, spec_cp_a(old(e)@.registers, old(e)@.registers.e)),
{
    let v = e.registers.e;
    compare(&mut e.registers, v);
}

/// `CP H`.
pub fn cp_h(e: &mut Emulator)
    requires
        old(e).wf(),
    ensures
        final(e).wf(),
        final(e)@ == with_regs(old(e)@, spec_cp_a(old(e)@.registers, old(e)@.registers.h)),
{
    let v = e.registers.h;
    compare(&mut e.registers, v);
}

/// `CP L`.
pub fn cp_l(e: &mut Emulator)
    requires
        old(e).wf(),
    ensures
        final(e).wf(),
        final(e)@ == with_regs(old(e)@, spec_cp_a(old(e)@.registers, old(e)@.registers.l)),
{
    let v = e.registers.l;
    compare(&mut e.registers, v);
}

/// `CP (HL)`.
pub fn cp_hlp(e: &mut Emulator)
    requires
        old(e).wf(),
    ensures
        final(e).wf(),
        final(e)@ == with_regs(old(e)@, (Registers { a: final(e)@.registers.a, f: final(e)@.registers.f, ..old(e)@.registers })),
        det_read(old(e)@.registers.spec_get_hl()) ==> final(e)@ == with_regs(old(e)@, spec_cp_a(old(e)@.registers, bus_read(old(e)@, old(e)@.registers.spec_get_hl()))),
{
    let hl = e.registers.get_hl();
    let v = e.read_byte(hl);
    compare(&mut e.registers, v);
}

/// `CP A`.
pub fn cp_a(e: &mut Emulator)
    requires
        old(e).wf(),
    ensures
        final(e).wf(),
        final(e)@ == with_regs(old(e)@, spec_cp_a(old(e)@.registers, old(e)@.registers.a)),
{
    let v = e.registers.a;
    compare(&mut e.registers, v);
}

/// `RET NZ`: returns (20 ticks) when the condition holds, otherwise only 8 ticks pass.
pub fn ret_nz(e: &mut Emulator)
    requires
        old(e).wf(),
        old(e)@.cpu.ticks + 24 <= u64::MAX,
    ensures
        final(e).wf(),
        old(e)@.cpu.ticks <= final(e)@.cpu.ticks <= old(e)@.cpu.ticks + 24,
        final(e)@ == (EmulatorV { registers: (Registers { pc: final(e)@.registers.pc, sp: final(e)@.registers.sp, ..old(e)@.registers }), cpu: (Cpu { ticks: final(e)@.cpu.ticks, ..old(e)@.cpu }), ..old(e)@ }),
        !(!spec_flag_set(old(e)@.registers.f, FLAG_ZERO)) ==> final(e)@ == (EmulatorV { cpu: (Cpu { ticks: (old(e)@.cpu.ticks + 8) as u64, ..old(e)@.cpu }), ..old(e)@ }),
        !spec_flag_set(old(e)@.registers.f, FLAG_ZERO) ==> final(e)@.registers.sp == spec_inc16(spec_inc16(old(e)@.registers.sp)) && final(e)@.cpu.ticks == old(e)@.cpu.ticks + 20,
        !spec_flag_set(old(e)@.registers.f, FLAG_ZERO) && det_read16(old(e)@.registers.sp) ==> final(e)@.registers.pc == bus_read16(old(e)@, old(e)@.registers.sp),
{
    if !(e.registers.is_flag_set(FLAG_ZERO)) {
        let t = e.read_short_from_stack();
        e.registers.pc = t;
        e.cpu.ticks = e.cpu.ticks + 20;
    } else {
        e.cpu.ticks = e.cpu.ticks + 8;
    }
}

/// `JP NZ, nn`: the operand is always consumed; the jump costs 16 ticks when taken, 12 when not.
pub fn jp_nz_nn(e: &mut Emulator)
    requires
        old(e).wf(),
        old(e)@.cpu.ticks + 24 <= u64::MAX,
    ensures
        final(e).wf(),
        old(e)@.cpu.ticks <= final(e)@.cpu.ticks <= old(e)@.cpu.ticks + 24,
        final(e)@ == (EmulatorV { registers: (Registers { pc: final(e)@.registers.pc, ..old(e)@.registers }), cpu: (Cpu { ticks: final(e)@.cpu.ticks, ..old(e)@.cpu }), ..old(e)@ }),
        det_read16(old(e)@.registers.pc) ==> final(e)@ == (if !spec_flag_set(old(e)@.registers.f, FLAG_ZERO) { (EmulatorV { registers: (Registers { pc: bus_read16(old(e)@, old(e)@.registers.pc), ..old(e)@.registers }), cpu: (Cpu { ticks: (old(e)@.cpu.ticks + 16) as u64, ..old(e)@.cpu }), ..old(e)@ }) } else { (EmulatorV { registers: (Registers { pc: spec_inc16(spec_inc16(old(e)@.registers.pc)), ..old(e)@.registers }), cpu: (Cpu { ticks: (old(e)@.cpu.ticks + 12) as u64, ..old(e)@.cpu }), ..old(e)@ }) }),
{
    let operand = e.read_next_short();
    if !(e.registers.is_flag_set(FLAG_ZERO)) {
        e.registers.pc = operand;
        e.cpu.ticks = e.cpu.ticks + 16;
    } else {
        e.cpu.ticks = e.cpu.ticks + 12;
    }
}

/// `CALL NZ, nn`: the operand is always consumed; taken calls push the return address and cost 24 ticks, otherwise 12 ticks pass.
pub fn call_nz_nn(e: &mut Emulator)
    requires
        old(e).wf(),
        old(e)@.cpu.ticks + 24 <= u64::MAX,
    ensures
        final(e).wf(),
        old(e)@.cpu.ticks <= final(e)@.cpu.ticks <= old(e)@.cpu.ticks + 24,
        det_read16(old(e)@.registers.pc) && !(!spec_flag_set(old(e)@.registers.f, FLAG_ZERO)) ==> final(e)@ == (EmulatorV { registers: (Registers { pc: spec_inc16(spec_inc16(old(e)@.registers.pc)), ..old(e)@.registers }), cpu: (Cpu { ticks: (old(e)@.cpu.ticks + 12) as u64, ..old(e)@.cpu }), ..old(e)@ }),
        det_read16(old(e)@.registers.pc) && !spec_flag_set(old(e)@.registers.f, FLAG_ZERO) ==> call_cost_ok(with_regs(old(e)@, (Registers { pc: spec_inc16(spec_inc16(old(e)@.registers.pc)), ..old(e)@.registers })), spec_inc16(spec_inc16(old(e)@.registers.pc)), bus_read16(old(e)@, old(e)@.registers.pc), 24, final(e)@),
{
    let operand = e.read_next_short();
    if !(e.registers.is_flag_set(FLAG_ZERO)) {
        let pc = e.registers.pc;
        e.write_short_to_stack(pc);
        let ghost m = e@;
        e.registers.pc = operand;
        e.cpu.ticks = e.cpu.ticks + 24;
        proof {
            assert(e@ =~= (EmulatorV {
                registers: Registers { pc: e@.registers.pc, ..m.registers },
                cpu: Cpu { ticks: (m.cpu.ticks + 24) as u64, ..m.cpu },
                ..m
            }));
        }
    } else {
        e.cpu.ticks = e.cpu.ticks + 12;
    }
}

/// `ADD A, n`: the immediate operand.
pub fn add_a_n(e: &mut Emulator)
    requires
        old(e).wf(),
    ensures
        final(e).wf(),
        final(e)@ == with_regs(old(e)@, (Registers { a: final(e)@.registers.a, f: final(e)@.registers.f, pc: spec_inc16(old(e)@.registers.pc), ..old(e)@.registers })),
        det_read(old(e)@.registers.pc) ==> final(e)@ == with_regs(old(e)@, spec_add_a((Registers { pc: spec_inc16(old(e)@.registers.pc), ..old(e)@.registers }), bus_read(old(e)@, old(e)@.registers.pc))),
{
    let v = e.read_next_byte();
    let a = e.registers.a;
    let t = add_byte(&mut e.registers, a, v);
    e.registers.a = t;
}

/// `RET Z`: returns (20 ticks) when the condition holds, otherwise only 8 ticks pass.
pub fn ret_z(e: &mut Emulator)
    requires
        old(e).wf(),
        old(e)@.cpu.ticks + 24 <= u64::MAX,
    ensures
        final(e).wf(),
        old(e)@.cpu.ticks <= final(e)@.cpu.ticks <= old(e)@.cpu.ticks + 24,
        final(e)@ == (EmulatorV { registers: (Registers { pc: final(e)@.registers.pc, sp: final(e)@.registers.sp, ..old(e)@.registers }), cpu: (Cpu { ticks: final(e)@.cpu.ticks, ..old(e)@.cpu }), ..old(e)@ }),
        !(spec_flag_set(old(e)@.registers.f, FLAG_ZERO)) ==> final(e)@ == (EmulatorV { cpu: (Cpu { ticks: (old(e)@.cpu.ticks + 8) as u64, ..old(e)@.cpu }), ..old(e)@ }),
        spec_flag_set(old(e)@.registers.f, FLAG_ZERO) ==> final(e)@.registers.sp == spec_inc16(spec_inc16(old(e)@.registers.sp)) && final(e)@.cpu.ticks == old(e)@.cpu.ticks + 20,
        spec_flag_set(old(e)@.registers.f, FLAG_ZERO) && det_read16(old(e)@.registers.sp) ==> final(e)@.registers.pc == bus_read16(old(e)@, old(e)@.registers.sp),
{
    if e.registers.is_flag_set(FLAG_ZERO) {
        let t = e.read_short_from_stack();
        e.registers.pc = t;
        e.cpu.ticks = e.cpu.ticks + 20;
    } else {
        e.cpu.ticks = e.cpu.ticks + 8;
    }
}

/// `JP Z, nn`: the operand is always consumed; the jump costs 16 ticks when taken, 12 when not.
pub fn jp_z_nn(e: &mut Emulator)
    requires
        old(e).wf(),
        old(e)@.cpu.ticks + 24 <= u64::MAX,
    ensures
        final(e).wf(),
        old(e)@.cpu.ticks <= final(e)@.cpu.ticks <= old(e)@.cpu.ticks + 24,
        final(e)@ == (EmulatorV { registers: (Registers { pc: final(e)@.registers.pc, ..old(e)@.registers }), cpu: (Cpu { ticks: final(e)@.cpu.ticks, ..old(e)@.cpu }), ..old(e)@ }),
        det_read16(old(e)@.registers.pc) ==> final(e)@ == (if spec_flag_set(old(e)@.registers.f, FLAG_ZERO) { (EmulatorV { registers: (Registers { pc: bus_read16(old(e)@, old(e)@.registers.pc), ..old(e)@.registers }), cpu: (Cpu { ticks: (old(e)@.cpu.ticks + 16) as u64, ..old(e)@.cpu }), ..old(e)@ }) } else { (EmulatorV { registers: (Registers { pc: spec_inc16(spec_inc16(old(e)@.registers.pc)), ..old(e)@.registers }), cpu: (Cpu { ticks: (old(e)@.cpu.ticks + 12) as u64, ..old(e)@.cpu }), ..old(e)@ }) }),
{
    let operand = e.read_next_short();
    if e.registers.is_flag_set(FLAG_ZERO) {
        e.registers.pc = operand;
        e.cpu.ticks = e.cpu.ticks + 16;
    } else {
        e.cpu.ticks = e.cpu.ticks + 12;
    }
}

/// `CALL Z, nn`: the operand is always consumed; taken calls push the return address and cost 24 ticks, otherwise 12 ticks pass.
pub fn call_z_nn(e: &mut Emulator)
    requires
        old(e).wf(),
        old(e)@.cpu.ticks + 24 <= u64::MAX,
    ensures
        final(e).wf(),
        old(e)@.cpu.ticks <= final(e)@.cpu.ticks <= old(e)@.cpu.ticks + 24,
        det_read16(old(e)@.registers.pc) && !(spec_flag_set(old(e)@.registers.f, FLAG_ZERO)) ==> final(e)@ == (EmulatorV { registers: (Registers { pc: spec_inc16(spec_inc16(old(e)@.registers.pc)), ..old(e)@.registers }), cpu: (Cpu { ticks: (old(e)@.cpu.ticks + 12) as u64, ..old(e)@.cpu }), ..old(e)@ }),
        det_read16(old(e)@.registers.pc) && spec_flag_set(old(e)@.registers.f, FLAG_ZERO) ==> call_cost_ok(with_regs(old(e)@, (Registers { pc: spec_inc16(spec_inc16(old(e)@.registers.pc)), ..old(e)@.registers })), spec_inc16(spec_inc16(old(e)@.registers.pc)), bus_read16(old(e)@, old(e)@.registers.pc), 24, final(e)@),
{
    let operand = e.read_next_short();
    if e.registers.is_flag_set(FLAG_ZERO) {
        let pc = e.registers.pc;
        e.write_short_to_stack(pc);
        let ghost m = e@;
        e.registers.pc = operand;
        e.cpu.ticks = e.cpu.ticks + 24;
        proof {
            assert(e@ =~= (EmulatorV {
                registers: Registers { pc: e@.registers.pc, ..m.registers },
                cpu: Cpu { ticks: (m.cpu.ticks + 24) as u64, ..m.cpu },
                ..m
            }));
        }
    } else {
        e.cpu.ticks = e.cpu.ticks + 12;
    }
}

/// `ADC n`: the immediate operand.
pub fn adc_n(e: &mut Emulator)
    requires
        old(e).wf(),
    ensures
        final(e).wf(),
        final(e)@ == with_regs(old(e)@, (Registers { a: final(e)@.registers.a, f: final(e)@.registers.f, pc: spec_inc16(old(e)@.registers.pc), ..old(e)@.registers })),
        det_read(old(e)@.registers.pc) ==> final(e)@ == with_regs(old(e)@, spec_adc_a((Registers { pc: spec_inc16(old(e)@.registers.pc), ..old(e)@.registers }), bus_read(old(e)@, old(e)@.registers.pc))),
{
    let v = e.read_next_byte();
    add_with_carry(&mut e.registers, v);
}

/// `RST 0x0008`: pushes the program counter and jumps to the fixed vector.
pub fn rst_08(e: &mut Emulator)
    requires
        old(e).wf(),
    ensures
        final(e).wf(),
        final(e)@.cpu == old(e)@.cpu,
        call_cost_ok(old(e)@, old(e)@.registers.pc, 0x0008, 0, final(e)@),
{
    let pc = e.registers.pc;
    e.write_short_to_stack(pc);
    let ghost m = e@;
    e.registers.pc = 0x0008;
    proof {
        assert(e@ =~= (EmulatorV {
            registers: Registers { pc: 0x0008u16, ..m.registers },
            cpu: Cpu { ticks: (m.cpu.ticks + 0) as u64, ..m.cpu },
            ..m
        }));
    }
}

/// `RET NC`: returns (20 ticks) when the condition holds, otherwise only 8 ticks pass.
pub fn ret_nc(e: &mut Emulator)
    requires
        old(e).wf(),
        old(e)@.cpu.ticks + 24 <= u64::MAX,
    ensures
        final(e).wf(),
        old(e)@.cpu.ticks <= final(e)@.cpu.ticks <= old(e)@.cpu.ticks + 24,
        final(e)@ == (EmulatorV { registers: (Registers { pc: final(e)@.registers.pc, sp: final(e)@.registers.sp, ..old(e)@.registers }), cpu: (Cpu { ticks: final(e)@.cpu.ticks, ..old(e)@.cpu }), ..old(e)@ }),
        !(!spec_flag_set(old(e)@.registers.f, FLAG_CARRY)) ==> final(e)@ == (EmulatorV { cpu: (Cpu { ticks: (old(e)@.cpu.ticks + 8) as u64, ..old(e)@.cpu }), ..old(e)@ }),
        !spec_flag_set(old(e)@.registers.f, FLAG_CARRY) ==> final(e)@.registers.sp == spec_inc16(spec_inc16(old(e)@.registers.sp)) && final(e)@.cpu.ticks == old(e)@.cpu.ticks + 20,
        !spec_flag_set(old(e)@.registers.f, FLAG_CARRY) && det_read16(old(e)@.registers.sp) ==> final(e)@.registers.pc == bus_read16(old(e)@, old(e)@.registers.sp),
{
    if !(e.registers.is_flag_set(FLAG_CARRY)) {
        let t = e.read_short_from_stack();
        e.registers.pc = t;
        e.cpu.ticks = e.cpu.ticks + 20;
    } else {
        e.cpu.ticks = e.cpu.ticks + 8;
    }
}

/// `POP DE`.
pub fn pop_de(e: &mut Emulator)
    requires
        old(e).wf(),
    ensures
        final(e).wf(),
        final(e)@ == with_regs(old(e)@, (Registers { d: final(e)@.registers.d, e: final(e)@.registers.e, sp: spec_inc16(spec_inc16(old(e)@.registers.sp)), ..old(e)@.registers })),
        det_read16(old(e)@.registers.sp) ==> final(e)@.registers == (Registers { d: spec_high_byte(bus_read16(old(e)@, old(e)@.registers.sp)), e: spec_low_byte(bus_read16(old(e)@, old(e)@.registers.sp)), sp: spec_inc16(spec_inc16(old(e)@.registers.sp)), ..old(e)@.registers }),
{
    let t = e.read_short_from_stack();
    e.registers.set_de(t);
}

/// `JP NC, nn`: the operand is always consumed; the jump costs 16 ticks when taken, 12 when not.
pub fn jp_nc_nn(e: &mut Emulator)
    requires
        old(e).wf(),
        old(e)@.cpu.ticks + 24 <= u64::MAX,
    ensures
        final(e).wf(),
        old(e)@.cpu.ticks <= final(e)@.cpu.ticks <= old(e)@.cpu.ticks + 24,
        final(e)@ == (EmulatorV { registers: (Registers { pc: final(e)@.registers.pc, ..old(e)@.registers }), cpu: (Cpu { ticks: final(e)@.cpu.ticks, ..old(e)@.cpu }), ..old(e)@ }),
        det_read16(old(e)@.registers.pc) ==> final(e)@ == (if !spec_flag_set(old(e)@.registers.f, FLAG_CARRY) { (EmulatorV { registers: (Registers { pc: bus_read16(old(e)@, old(e)@.registers.pc), ..old(e)@.registers }), cpu: (Cpu { ticks: (old(e)@.cpu.ticks + 16) as u64, ..old(e)@.cpu }), ..old(e)@ }) } else { (EmulatorV { registers: (Registers { pc: spec_inc16(spec_inc16(old(e)@.registers.pc)), ..old(e)@.registers }), cpu: (Cpu { ticks: (old(e)@.cpu.ticks + 12) as u64, ..old(e)@.cpu }), ..old(e)@ }) }),
{
    let operand = e.read_next_short();
    if !(e.registers.is_flag_set(FLAG_CARRY)) {
        e.registers.pc = operand;
        e.cpu.ticks = e.cpu.ticks + 16;
    } else {
        e.cpu.ticks = e.cpu.ticks + 12;
    }
}

/// An opcode marked undefined in the table: the program counter
/// backs up over it, a diagnostic stop rather than a crash.
pub fn undefined(e: &mut Emulator)
    requires
        old(e).wf(),
    ensures
        final(e).wf(),
        final(e)@ == with_regs(old(e)@, (Registers { pc: spec_dec16(old(e)@.registers.pc), ..old(e)@.registers })),
{
    e.registers.pc = if e.registers.pc == 0 { 0xFFFF } else { e.registers.pc - 1 };
}

/// `CALL NC, nn`: the operand is always consumed; taken calls push the return address and cost 24 ticks, otherwise 12 ticks pass.
pub fn call_nc_nn(e: &mut Emulator)
    requires
        old(e).wf(),
        old(e)@.cpu.ticks + 24 <= u64::MAX,
    ensures
        final(e).wf(),
        old(e)@.cpu.ticks <= final(e)@.cpu.ticks <= old(e)@.cpu.ticks + 24,
        det_read16(old(e)@.registers.pc) && !(!spec_flag_set(old(e)@.registers.f, FLAG_CARRY)) ==> final(e)@ == (EmulatorV { registers: (Registers { pc: spec_inc16(spec_inc16(old(e)@.registers.pc)), ..old(e)@.registers }), cpu: (Cpu { ticks: (old(e)@.cpu.ticks + 12) as u64, ..old(e)@.cpu }), ..old(e)@ }),
        det_read16(old(e)@.registers.pc) && !spec_flag_set(old(e)@.registers.f, FLAG_CARRY) ==> call_cost_ok(with_regs(old(e)@, (Registers { pc: spec_inc16(spec_inc16(old(e)@.registers.pc)), ..old(e)@.registers })), spec_inc16(spec_inc16(old(e)@.registers.pc)), bus_read16(old(e)@, old(e)@.registers.pc), 24, final(e)@),
{
    let operand = e.read_next_short();
    if !(e.registers.is_flag_set(FLAG_CARRY)) {
        let pc = e.registers.pc;
        e.write_short_to_stack(pc);
        let ghost m = e@;
        e.registers.pc = operand;
        e.cpu.ticks = e.cpu.ticks + 24;
        proof {
            assert(e@ =~= (EmulatorV {
                registers: Registers { pc: e@.registers.pc, ..m.registers },
                cpu: Cpu { ticks: (m.cpu.ticks + 24) as u64, ..m.cpu },
                ..m
            }));
        }
    } else {
        e.cpu.ticks = e.cpu.ticks + 12;
    }
}

/// `PUSH DE`.
pub fn push_de(e: &mut Emulator)
    requires
        old(e).wf(),
    ensures
        final(e).wf(),
        push16_ok(old(e)@, old(e)@.registers.spec_get_de(), final(e)@),
        final(e)@.cpu == old(e)@.cpu,
{
    let v = e.registers.get_de();
    e.write_short_to_stack(v);
}

/// `SUB n`: the immediate operand.
pub fn sub_n(e: &mut Emulator)
    requires
        old(e).wf(),
    ensures
        final(e).wf(),
        final(e)@ == with_regs(old(e)@, (Registers { a: final(e)@.registers.a, f: final(e)@.registers.f, pc: spec_inc16(old(e)@.registers.pc), ..old(e)@.registers })),
        det_read(old(e)@.registers.pc) ==> final(e)@ == with_regs(old(e)@, spec_sub_a((Registers { pc: spec_inc16(old(e)@.registers.pc), ..old(e)@.registers }), bus_read(old(e)@, old(e)@.registers.pc))),
{
    let v = e.read_next_byte();
    subtract(&mut e.registers, v);
}

/// `RST 0x0010`: pushes the program counter and jumps to the fixed vector.
pub fn rst_10(e: &mut Emulator)
    requires
        old(e).wf(),
    ensures
        final(e).wf(),
        final(e)@.cpu == old(e)@.cpu,
        call_cost_ok(old(e)@, old(e)@.registers.pc, 0x0010, 0, final(e)@),
{
    let pc = e.registers.pc;
    e.write_short_to_stack(pc);
    let ghost m = e@;
    e.registers.pc = 0x0010;
    proof {
        assert(e@ =~= (EmulatorV {
            registers: Registers { pc: 0x0010u16, ..m.registers },
            cpu: Cpu { ticks: (m.cpu.ticks + 0) as u64, ..m.cpu },
            ..m
        }));
    }
}

/// `RET C`: returns (20 ticks) when the condition holds, otherwise only 8 ticks pass.
pub fn ret_c(e: &mut Emulator)
    requires
        old(e).wf(),
        old(e)@.cpu.ticks + 24 <= u64::MAX,
    ensures
        final(e).wf(),
        old(e)@.cpu.ticks <= final(e)@.cpu.ticks <= old(e)@.cpu.ticks + 24,
        final(e)@ == (EmulatorV { registers: (Registers { pc: final(e)@.registers.pc, sp: final(e)@.registers.sp, ..old(e)@.registers }), cpu: (Cpu { ticks: final(e)@.cpu.ticks, ..old(e)@.cpu }), ..old(e)@ }),
        !(spec_flag_set(old(e)@.registers.f, FLAG_CARRY)) ==> final(e)@ == (EmulatorV { cpu: (Cpu { ticks: (old(e)@.cpu.ticks + 8) as u64, ..old(e)@.cpu }), ..old(e)@ }),
        spec_flag_set(old(e)@.registers.f, FLAG_CARRY) ==> final(e)@.registers.sp == spec_inc16(spec_inc16(old(e)@.registers.sp)) && final(e)@.cpu.ticks == old(e)@.cpu.ticks + 20,
        spec_flag_set(old(e)@.registers.f, FLAG_CARRY) && det_read16(old(e)@.registers.sp) ==> final(e)@.registers.pc == bus_read16(old(e)@, old(e)@.registers.sp),
{
    if e.registers.is_flag_set(FLAG_CARRY) {
        let t = e.read_short_from_stack();
        e.registers.pc = t;
        e.cpu.ticks = e.cpu.ticks + 20;
    } else {
        e.cpu.ticks = e.cpu.ticks + 8;
    }
}

/// `JP C, nn`: the operand is always consumed; the jump costs 16 ticks when taken, 12 when not.
pub fn jp_c_nn(e: &mut Emulator)
    requires
        old(e).wf(),
        old(e)@.cpu.ticks + 24 <= u64::MAX,
    ensures
        final(e).wf(),
        old(e)@.cpu.ticks <= final(e)@.cpu.ticks <= old(e)@.cpu.ticks + 24,
        final(e)@ == (EmulatorV { registers: (Registers { pc: final(e)@.registers.pc, ..old(e)@.registers }), cpu: (Cpu { ticks: final(e)@.cpu.ticks, ..old(e)@.cpu }), ..old(e)@ }),
        det_read16(old(e)@.registers.pc) ==> final(e)@ == (if spec_flag_set(old(e)@.registers.f, FLAG_CARRY) { (EmulatorV { registers: (Registers { pc: bus_read16(old(e)@, old(e)@.registers.pc), ..old(e)@.registers }), cpu: (Cpu { ticks: (old(e)@.cpu.ticks + 16) as u64, ..old(e)@.cpu }), ..old(e)@ }) } else { (EmulatorV { registers: (Registers { pc: spec_inc16(spec_inc16(old(e)@.registers.pc)), ..old(e)@.registers }), cpu: (Cpu { ticks: (old(e)@.cpu.ticks + 12) as u64, ..old(e)@.cpu }), ..old(e)@ }) }),
{
    let operand = e.read_next_short();
    if e.registers.is_flag_set(FLAG_CARRY) {
        e.registers.pc = operand;
        e.cpu.ticks = e.cpu.ticks + 16;
    } else {
        e.cpu.ticks = e.cpu.ticks + 12;
    }
}

/// `CALL C, nn`: the operand is always consumed; taken calls push the return address and cost 24 ticks, otherwise 12 ticks pass.
pub fn call_c_nn(e: &mut Emulator)
    requires
        old(e).wf(),
        old(e)@.cpu.ticks + 24 <= u64::MAX,
    ensures
        final(e).wf(),
        old(e)@.cpu.ticks <= final(e)@.cpu.ticks <= old(e)@.cpu.ticks + 24,
        det_read16(old(e)@.registers.pc) && !(spec_flag_set(old(e)@.registers.f, FLAG_CARRY)) ==> final(e)@ == (EmulatorV { registers: (Registers { pc: spec_inc16(spec_inc16(old(e)@.registers.pc)), ..old(e)@.registers }), cpu: (Cpu { ticks: (old(e)@.cpu.ticks + 12) as u64, ..old(e)@.cpu }), ..old(e)@ }),
        det_read16(old(e)@.registers.pc) && spec_flag_set(old(e)@.registers.f, FLAG_CARRY) ==> call_cost_ok(with_regs(old(e)@, (Registers { pc: spec_inc16(spec_inc16(old(e)@.registers.pc)), ..old(e)@.registers })), spec_inc16(spec_inc16(old(e)@.registers.pc)), bus_read16(old(e)@, old(e)@.registers.pc), 24, final(e)@),
{
    let operand = e.read_next_short();
    if e.registers.is_flag_set(FLAG_CARRY) {
        let pc = e.registers.pc;
        e.write_short_to_stack(pc);
        let ghost m = e@;
        e.registers.pc = operand;
        e.cpu.ticks = e.cpu.ticks + 24;
        proof {
            assert(e@ =~= (EmulatorV {
                registers: Registers { pc: e@.registers.pc, ..m.registers },
                cpu: Cpu { ticks: (m.cpu.ticks + 24) as u64, ..m.cpu },
                ..m
            }));
        }
    } else {
        e.cpu.ticks = e.cpu.ticks + 12;
    }
}

/// `SBC n`: the immediate operand.
pub fn sbc_n(e: &mut Emulator)
    requires
        old(e).wf(),
    ensures
        final(e).wf(),
        final(e)@ == with_regs(old(e)@, (Registers { a: final(e)@.registers.a, f: final(e)@.registers.f, pc: spec_inc16(old(e)@.registers.pc), ..old(e)@.registers })),
        det_read(old(e)@.registers.pc) ==> final(e)@ == with_regs(old(e)@, spec_sbc_a((Registers { pc: spec_inc16(old(e)@.registers.pc), ..old(e)@.registers }), bus_read(old(e)@, old(e)@.registers.pc))),
{
    let v = e.read_next_byte();
    subtract_with_carry(&mut e.registers, v);
}

/// `RST 0x0018`: pushes the program counter and jumps to the fixed vector.
pub fn rst_18(e: &mut Emulator)
    requires
        old(e).wf(),
    ensures
        final(e).wf(),
        final(e)@.cpu == old(e)@.cpu,
        call_cost_ok(old(e)@, old(e)@.registers.pc, 0x0018, 0, final(e)@),
{
    let pc = e.registers.pc;
    e.write_short_to_stack(pc);
    let ghost m = e@;
    e.registers.pc = 0x0018;
    proof {
        assert(e@ =~= (EmulatorV {
            registers: Registers { pc: 0x0018u16, ..m.registers },
            cpu: Cpu { ticks: (m.cpu.ticks + 0) as u64, ..m.cpu },
            ..m
        }));
    }
}

/// `LD (0xFF00 + n), A`.
pub fn ld_ff_n_ap(e: &mut Emulator)
    requires
        old(e).wf(),
    ensures
        final(e).wf(),
        final(e)@.cpu == old(e)@.cpu,
        final(e)@.registers == (Registers { pc: spec_inc16(old(e)@.registers.pc), ..old(e)@.registers }),
        det_read(old(e)@.registers.pc) ==> bus_write_ok(with_regs(old(e)@, (Registers { pc: spec_inc16(old(e)@.registers.pc), ..old(e)@.registers })), (0xFF00 + bus_read(old(e)@, old(e)@.registers.pc)) as u16, old(e)@.registers.a, final(e)@),
{
    let operand = e.read_next_byte();
    let a = e.registers.a;
    e.write_byte(0xFF00 + operand as u16, a);
}

/// `POP HL`.
pub fn pop_hl(e: &mut Emulator)
    requires
        old(e).wf(),
    ensures
        final(e).wf(),
        final(e)@ == with_regs(old(e)@, (Registers { h: final(e)@.registers.h, l: final(e)@.registers.l, sp: spec_inc16(spec_inc16(old(e)@.registers.sp)), ..old(e)@.registers })),
        det_read16(old(e)@.registers.sp) ==> final(e)@.registers == (Registers { h: spec_high_byte(bus_read16(old(e)@, old(e)@.registers.sp)), l: spec_low_byte(bus_read16(old(e)@, old(e)@.registers.sp)), sp: spec_inc16(spec_inc16(old(e)@.registers.sp)), ..old(e)@.registers }),
{
    let t = e.read_short_from_stack();
    e.registers.set_hl(t);
}

/// `LD (0xFF00 + C), A`.
pub fn ld_ff_c_a(e: &mut Emulator)
    requires
        old(e).wf(),
    ensures
        final(e).wf(),
        bus_write_ok(old(e)@, (0xFF00 + old(e)@.registers.c) as u16, old(e)@.registers.a, final(e)@),
        final(e)@.cpu == old(e)@.cpu,
        final(e)@.registers == old(e)@.registers,
{
    let c = e.registers.c;
    let a = e.registers.a;
    e.write_byte(0xFF00 + c as u16, a);
}

/// `PUSH HL`.
pub fn push_hl(e: &mut Emulator)
    requires
        old(e).wf(),
    ensures
        final(e).wf(),
        push16_ok(old(e)@, old(e)@.registers.spec_get_hl(), final(e)@),
        final(e)@.cpu == old(e)@.cpu,
{
    let v = e.registers.get_hl();
    e.write_short_to_stack(v);
}

/// `AND n`: the immediate operand.
pub fn and_n(e: &mut Emulator)
    requires
        old(e).wf(),
    ensures
        final(e).wf(),
        final(e)@ == with_regs(old(e)@, (Registers { a: final(e)@.registers.a, f: final(e)@.registers.f, pc: spec_inc16(old(e)@.registers.pc), ..old(e)@.registers })),
        det_read(old(e)@.registers.pc) ==> final(e)@ == with_regs(old(e)@, spec_and_a((Registers { pc: spec_inc16(old(e)@.registers.pc), ..old(e)@.registers }), bus_read(old(e)@, old(e)@.registers.pc))),
{
    let v = e.read_next_byte();
    and(&mut e.registers, v);
}

/// `RST 0x0020`: pushes the program counter and jumps to the fixed vector.
pub fn rst_20(e: &mut Emulator)
    requires
        old(e).wf(),
    ensures
        final(e).wf(),
        final(e)@.cpu == old(e)@.cpu,
        call_cost_ok(old(e)@, old(e)@.registers.pc, 0x0020, 0, final(e)@),
{
    let pc = e.registers.pc;
    e.write_short_to_stack(pc);
    let ghost m = e@;
    e.registers.pc = 0x0020;
    proof {
        assert(e@ =~= (EmulatorV {
            registers: Registers { pc: 0x0020u16, ..m.registers },
            cpu: Cpu { ticks: (m.cpu.ticks + 0) as u64, ..m.cpu },
            ..m
        }));
    }
}

/// `ADD SP, n`: adds the signed operand to the stack pointer; Zero
/// and Subtract cleared, Half-Carry and Carry from the low-byte
/// addition.
pub fn add_sp_n(e: &mut Emulator)
    requires
        old(e).wf(),
    ensures
        final(e).wf(),
        final(e)@ == with_regs(old(e)@, (Registers { sp: final(e)@.registers.sp, f: final(e)@.registers.f, pc: spec_inc16(old(e)@.registers.pc), ..old(e)@.registers })),
        det_read(old(e)@.registers.pc) ==> final(e)@.registers == (Registers { sp: spec_signed_add16(old(e)@.registers.sp, bus_read(old(e)@, old(e)@.registers.pc)), f: spec_flags(false, false, (old(e)@.registers.sp & 0x0F) + (bus_read(old(e)@, old(e)@.registers.pc) & 0x0F) > 0x0F, (old(e)@.registers.sp & 0xFF) + bus_read(old(e)@, old(e)@.registers.pc) > 0xFF), pc: spec_inc16(old(e)@.registers.pc), ..old(e)@.registers }),
{
    let operand = e.read_next_byte();
    let sp = e.registers.sp;
    let h = (sp & 0x0F) as u32 + (operand & 0x0F) as u32 > 0x0F;
    let c = (sp & 0xFF) as u32 + operand as u32 > 0xFF;
    e.registers.sp = signed_add16(sp, operand);
    e.registers.f = flags_byte(false, false, h, c);
}

/// `JP HL`.
pub fn jp_hl(e: &mut Emulator)
    requires
        old(e).wf(),
    ensures
        final(e).wf(),
        final(e)@ == with_regs(old(e)@, (Registers { pc: old(e)@.registers.spec_get_hl(), ..old(e)@.registers })),
{
    let hl = e.registers.get_hl();
    e.registers.pc = hl;
}

/// `LD (nn), A`.
pub fn ld_nnp_a(e: &mut Emulator)
    requires
        old(e).wf(),
    ensures
        final(e).wf(),
        final(e)@.cpu == old(e)@.cpu,
        final(e)@.registers == (Registers { pc: spec_inc16(spec_inc16(old(e)@.registers.pc)), ..old(e)@.registers }),
        det_read16(old(e)@.registers.pc) ==> bus_write_ok(with_regs(old(e)@, (Registers { pc: spec_inc16(spec_inc16(old(e)@.registers.pc)), ..old(e)@.registers })), bus_read16(old(e)@, old(e)@.registers.pc), old(e)@.registers.a, final(e)@),
{
    let addr = e.read_next_short();
    let a = e.registers.a;
    e.write_byte(addr, a);
}

/// `XOR n`: the immediate operand.
pub fn xor_n(e: &mut Emulator)
    requires
        old(e).wf(),
    ensures
        final(e).wf(),
        final(e)@ == with_regs(old(e)@, (Registers { a: final(e)@.registers.a, f: final(e)@.registers.f, pc: spec_inc16(old(e)@.registers.pc), ..old(e)@.registers })),
        det_read(old(e)@.registers.pc) ==> final(e)@ == with_regs(old(e)@, spec_xor_a((Registers { pc: spec_inc16(old(e)@.registers.pc), ..old(e)@.registers }), bus_read(old(e)@, old(e)@.registers.pc))),
{
    let v = e.read_next_byte();
    xor(&mut e.registers, v);
}

/// `RST 0x0028`: pushes the program counter and jumps to the fixed vector.
pub fn rst_28(e: &mut Emulator)
    requires
        old(e).wf(),
    ensures
        final(e).wf(),
        final(e)@.cpu == old(e)@.cpu,
        call_cost_ok(old(e)@, old(e)@.registers.pc, 0x0028, 0, final(e)@),
{
    let pc = e.registers.pc;
    e.write_short_to_stack(pc);
    let ghost m = e@;
    e.registers.pc = 0x0028;
    proof {
        assert(e@ =~= (EmulatorV {
            registers: Registers { pc: 0x0028u16, ..m.registers },
            cpu: Cpu { ticks: (m.cpu.ticks + 0) as u64, ..m.cpu },
            ..m
        }));
    }
}

/// `LD A, (0xFF00 + n)`.
pub fn ld_ff_ap_n(e: &mut Emulator)
    requires
        old(e).wf(),
    ensures
        final(e).wf(),
        final(e)@ == with_regs(old(e)@, (Registers { a: final(e)@.registers.a, pc: spec_inc16(old(e)@.registers.pc), ..old(e)@.registers })),
        det_read(old(e)@.registers.pc) && det_read((0xFF00 + bus_read(old(e)@, old(e)@.registers.pc)) as u16) ==> final(e)@.registers.a == bus_read(old(e)@, (0xFF00 + bus_read(old(e)@, old(e)@.registers.pc)) as u16),
{
    let operand = e.read_next_byte();
    let t = e.read_byte(0xFF00 + operand as u16);
    e.registers.a = t;
}

/// `POP AF`.
pub fn pop_af(e: &mut Emulator)
    requires
        old(e).wf(),
    ensures
        final(e).wf(),
        final(e)@ == with_regs(old(e)@, (Registers { a: final(e)@.registers.a, f: final(e)@.registers.f, sp: spec_inc16(spec_inc16(old(e)@.registers.sp)), ..old(e)@.registers })),
        det_read16(old(e)@.registers.sp) ==> final(e)@.registers == (Registers { a: spec_high_byte(bus_read16(old(e)@, old(e)@.registers.sp)), f: spec_low_byte(bus_read16(old(e)@, old(e)@.registers.sp)), sp: spec_inc16(spec_inc16(old(e)@.registers.sp)), ..old(e)@.registers }),
{
    let t = e.read_short_from_stack();
    e.registers.set_af(t);
}

/// `LD A, (0xFF00 + C)`.
pub fn ld_a_ff_c(e: &mut Emulator)
    requires
        old(e).wf(),
    ensures
        final(e).wf(),
        final(e)@ == with_regs(old(e)@, (Registers { a: final(e)@.registers.a, ..old(e)@.registers })),
        det_read((0xFF00 + old(e)@.registers.c) as u16) ==> final(e)@.registers.a == bus_read(old(e)@, (0xFF00 + old(e)@.registers.c) as u16),
{
    let c = e.registers.c;
    let t = e.read_byte(0xFF00 + c as u16);
    e.registers.a = t;
}

/// `DI`: clears the interrupt master flag.
pub fn di_inst(e: &mut Emulator)
    requires
        old(e).wf(),
    ensures
        final(e).wf(),
        final(e)@ == (EmulatorV { interrupt: (Interrupt { master: 0, ..old(e)@.interrupt }), ..old(e)@ }),
{
    e.interrupt.master = 0;
}

/// `PUSH AF`.
pub fn push_af(e: &mut Emulator)
    requires
        old(e).wf(),
    ensures
        final(e).wf(),
        push16_ok(old(e)@, old(e)@.registers.spec_get_af(), final(e)@),
        final(e)@.cpu == old(e)@.cpu,
{
    let v = e.registers.get_af();
    e.write_short_to_stack(v);
}

/// `OR n`: the immediate operand.
pub fn or_n(e: &mut Emulator)
    requires
        old(e).wf(),
    ensures
        final(e).wf(),
        final(e)@ == with_regs(old(e)@, (Registers { a: final(e)@.registers.a, f: final(e)@.registers.f, pc: spec_inc16(old(e)@.registers.pc), ..old(e)@.registers })),
        det_read(old(e)@.registers.pc) ==> final(e)@ == with_regs(old(e)@, spec_or_a((Registers { pc: spec_inc16(old(e)@.registers.pc), ..old(e)@.registers }), bus_read(old(e)@, old(e)@.registers.pc))),
{
    let v = e.read_next_byte();
    or(&mut e.registers, v);
}

/// `RST 0x0030`: pushes the program counter and jumps to the fixed vector.
pub fn rst_30(e: &mut Emulator)
    requires
        old(e).wf(),
    ensures
        final(e).wf(),
        final(e)@.cpu == old(e)@.cpu,
        call_cost_ok(old(e)@, old(e)@.registers.pc, 0x0030, 0, final(e)@),
{
    let pc = e.registers.pc;
    e.write_short_to_stack(pc);
    let ghost m = e@;
    e.registers.pc = 0x0030;
    proof {
        assert(e@ =~= (EmulatorV {
            registers: Registers { pc: 0x0030u16, ..m.registers },
            cpu: Cpu { ticks: (m.cpu.ticks + 0) as u64, ..m.cpu },
            ..m
        }));
    }
}

/// `LD HL, SP + n`: loads the stack pointer plus the signed operand
/// into HL; flags as for `ADD SP, n`, the stack pointer itself kept.
pub fn ld_hl_sp_n(e: &mut Emulator)
    requires
        old(e).wf(),
    ensures
        final(e).wf(),
        final(e)@ == with_regs(old(e)@, (Registers { h: final(e)@.registers.h, l: final(e)@.registers.l, f: final(e)@.registers.f, pc: spec_inc16(old(e)@.registers.pc), ..old(e)@.registers })),
        det_read(old(e)@.registers.pc) ==> final(e)@.registers == (Registers { h: spec_high_byte(spec_signed_add16(old(e)@.registers.sp, bus_read(old(e)@, old(e)@.registers.pc))), l: spec_low_byte(spec_signed_add16(old(e)@.registers.sp, bus_read(old(e)@, old(e)@.registers.pc))), f: spec_flags(false, false, (old(e)@.registers.sp & 0x0F) + (bus_read(old(e)@, old(e)@.registers.pc) & 0x0F) > 0x0F, (old(e)@.registers.sp & 0xFF) + bus_read(old(e)@, old(e)@.registers.pc) > 0xFF), pc: spec_inc16(old(e)@.registers.pc), ..old(e)@.registers }),
{
    let operand = e.read_next_byte();
    let sp = e.registers.sp;
    let h = (sp & 0x0F) as u32 + (operand & 0x0F) as u32 > 0x0F;
    let c = (sp & 0xFF) as u32 + operand as u32 > 0xFF;
    let t = signed_add16(sp, operand);
    e.registers.set_hl(t);
    e.registers.f = flags_byte(false, false, h, c);
}

/// `LD SP, HL`.
pub fn ld_sp_hl(e: &mut Emulator)
    requires
        old(e).wf(),
    ensures
        final(e).wf(),
        final(e)@ == with_regs(old(e)@, (Registers { sp: old(e)@.registers.spec_get_hl(), ..old(e)@.registers })),
{
    let hl = e.registers.get_hl();
    e.registers.sp = hl;
}

/// `LD A, (nn)`.
pub fn ld_a_nnp(e: &mut Emulator)
    requires
        old(e).wf(),
    ensures
        final(e).wf(),
        final(e)@ == with_regs(old(e)@, (Registers { a: final(e)@.registers.a, pc: spec_inc16(spec_inc16(old(e)@.registers.pc)), ..old(e)@.registers })),
        det_read16(old(e)@.registers.pc) && det_read(bus_read16(old(e)@, old(e)@.registers.pc)) ==> final(e)@.registers.a == bus_read(old(e)@, bus_read16(old(e)@, old(e)@.registers.pc)),
{
    let addr = e.read_next_short();
    let t = e.read_byte(addr);
    e.registers.a = t;
}

/// `EI`: sets the interrupt master flag.
pub fn ei(e: &mut Emulator)
    requires
        old(e).wf(),
    ensures
        final(e).wf(),
        final(e)@ == (EmulatorV { interrupt: (Interrupt { master: 1, ..old(e)@.interrupt }), ..old(e)@ }),
{
    e.interrupt.master = 1;
}

/// `CP n`: the immediate operand.
pub fn cp_n(e: &mut Emulator)
    requires
        old(e).wf(),
    ensures
        final(e).wf(),
        final(e)@ == with_regs(old(e)@, (Registers { a: final(e)@.registers.a, f: final(e)@.registers.f, pc: spec_inc16(old(e)@.registers.pc), ..old(e)@.registers })),
        det_read(old(e)@.registers.pc) ==> final(e)@ == with_regs(old(e)@, spec_cp_a((Registers { pc: spec_inc16(old(e)@.registers.pc), ..old(e)@.registers }), bus_read(old(e)@, old(e)@.registers.pc))),
{
    let v = e.read_next_byte();
    compare(&mut e.registers, v);
}

/// `RST 0x0038`: pushes the program counter and jumps to the fixed vector.
pub fn rst_38(e: &mut Emulator)
    requires
        old(e).wf(),
    ensures
        final(e).wf(),
        final(e)@.cpu == old(e)@.cpu,
        call_cost_ok(old(e)@, old(e)@.registers.pc, 0x0038, 0, final(e)@),
{
    let pc = e.registers.pc;
    e.write_short_to_stack(pc);
    let ghost m = e@;
    e.registers.pc = 0x0038;
    proof {
        assert(e@ =~= (EmulatorV {
            registers: Registers { pc: 0x0038u16, ..m.registers },
            cpu: Cpu { ticks: (m.cpu.ticks + 0) as u64, ..m.cpu },
            ..m
        }));
    }
}

/// The base opcode table's cycle costs, as a function: the table
/// itself is its most direct statement.
pub open spec fn spec_base_cycles(opcode: u8) -> u8 {
    match opcode {
        0x00 => 2,
        0x01 => 6,
        0x02 => 4,
        0x03 => 4,
        0x04 => 2,
        0x05 => 2,
        0x06 => 4,
        0x07 => 4,
        0x08 => 10,
        0x09 => 4,
        0x0A => 4,
        0x0B => 4,
        0x0C => 2,
        0x0D => 2,
        0x0E => 4,
        0x0F => 4,
        0x10 => 2,
        0x11 => 6,
        0x12 => 4,
        0x13 => 4,
        0x14 => 2,
        0x15 => 2,
        0x16 => 4,
        0x17 => 4,
        0x18 => 4,
        0x19 => 4,
        0x1A => 4,
        0x1B => 4,
        0x1C => 2,
        0x1D => 2,
        0x1E => 4,
        0x1F => 4,
        0x20 => 0,
        0x21 => 6,
        0x22 => 4,
        0x23 => 4,
        0x24 => 2,
        0x25 => 2,
        0x26 => 4,
        0x27 => 2,
        0x28 => 0,
        0x29 => 4,
        0x2A => 4,
        0x2B => 4,
        0x2C => 2,
        0x2D => 2,
        0x2E => 4,
        0x2F => 2,
        0x30 => 4,
        0x31 => 6,
        0x32 => 4,
        0x33 => 4,
        0x34 => 6,
        0x35 => 6,
        0x36 => 6,
        0x37 => 2,
        0x38 => 0,
        0x39 => 4,
        0x3A => 4,
        0x3B => 4,
        0x3C => 2,
        0x3D => 2,
        0x3E => 4,
        0x3F => 2,
        0x40 => 2,
        0x41 => 2,
        0x42 => 2,
        0x43 => 2,
        0x44 => 2,
        0x45 => 2,
        0x46 => 4,
        0x47 => 2,
        0x48 => 2,
        0x49 => 2,
        0x4A => 2,
        0x4B => 2,
        0x4C => 2,
        0x4D => 2,
        0x4E => 4,
        0x4F => 2,
        0x50 => 2,
        0x51 => 2,
        0x52 => 2,
        0x53 => 2,
        0x54 => 2,
        0x55 => 2,
        0x56 => 4,
        0x57 => 2,
        0x58 => 2,
        0x59 => 2,
        0x5A => 2,
        0x5B => 2,
        0x5C => 2,
        0x5D => 2,
        0x5E => 4,
        0x5F => 2,
        0x60 => 2,
        0x61 => 2,
        0x62 => 2,
        0x63 => 2,
        0x64 => 2,
        0x65 => 2,
        0x66 => 4,
        0x67 => 2,
        0x68 => 2,
        0x69 => 2,
        0x6A => 2,
        0x6B => 2,
        0x6C => 2,
        0x6D => 2,
        0x6E => 4,
        0x6F => 2,
        0x70 => 4,
        0x71 => 4,
        0x72 => 4,
        0x73 => 4,
        0x74 => 4,
        0x75 => 4,
        0x76 => 2,
        0x77 => 4,
        0x78 => 2,
        0x79 => 2,
        0x7A => 2,
        0x7B => 2,
        0x7C => 2,
        0x7D => 2,
        0x7E => 4,
        0x7F => 2,
        0x80 => 2,
        0x81 => 2,
        0x82 => 2,
        0x83 => 2,
        0x84 => 2,
        0x85 => 2,
        0x86 => 4,
        0x87 => 2,
        0x88 => 2,
        0x89 => 2,
        0x8A => 2,
        0x8B => 2,
        0x8C => 2,
        0x8D => 2,
        0x8E => 4,
        0x8F => 2,
        0x90 => 2,
        0x91 => 2,
        0x92 => 2,
        0x93 => 2,
        0x94 => 2,
        0x95 => 2,
        0x96 => 4,
        0x97 => 2,
        0x98 => 2,
        0x99 => 2,
        0x9A => 2,
        0x9B => 2,
        0x9C => 2,
        0x9D => 2,
        0x9E => 4,
        0x9F => 2,
        0xA0 => 2,
        0xA1 => 2,
        0xA2 => 2,
        0xA3 => 2,
        0xA4 => 2,
        0xA5 => 2,
        0xA6 => 4,
        0xA7 => 2,
        0xA8 => 2,
        0xA9 => 2,
        0xAA => 2,
        0xAB => 2,
        0xAC => 2,
        0xAD => 2,
        0xAE => 4,
        0xAF => 2,
        0xB0 => 2,
        0xB1 => 2,
        0xB2 => 2,
        0xB3 => 2,
        0xB4 => 2,
        0xB5 => 2,
        0xB6 => 4,
        0xB7 => 2,
        0xB8 => 2,
        0xB9 => 2,
        0xBA => 2,
        0xBB => 2,
        0xBC => 2,
        0xBD => 2,
        0xBE => 4,
        0xBF => 2,
        0xC0 => 0,
        0xC1 => 6,
        0xC2 => 0,
        0xC3 => 6,
        0xC4 => 0,
        0xC5 => 8,
        0xC6 => 4,
        0xC7 => 8,
        0xC8 => 0,
        0xC9 => 2,
        0xCA => 0,
        0xCB => 0,
        0xCC => 0,
        0xCD => 6,
        0xCE => 4,
        0xCF => 8,
        0xD0 => 0,
        0xD1 => 6,
        0xD2 => 0,
        0xD3 => 6,
        0xD4 => 0,
        0xD5 => 8,
        0xD6 => 4,
        0xD7 => 8,
        0xD8 => 0,
        0xD9 => 2,
        0xDA => 0,
        0xDB => 0,
        0xDC => 0,
        0xDD => 6,
        0xDE => 4,
        0xDF => 8,
        0xE0 => 6,
        0xE1 => 6,
        0xE2 => 4,
        0xE3 => 0,
        0xE4 => 0,
        0xE5 => 8,
        0xE6 => 4,
        0xE7 => 8,
        0xE8 => 8,
        0xE9 => 2,
        0xEA => 8,
        0xEB => 0,
        0xEC => 0,
        0xED => 0,
        0xEE => 4,
        0xEF => 8,
        0xF0 => 6,
        0xF1 => 6,
        0xF2 => 4,
        0xF3 => 2,
        0xF4 => 0,
        0xF5 => 8,
        0xF6 => 4,
        0xF7 => 8,
        0xF8 => 6,
        0xF9 => 4,
        0xFA => 8,
        0xFB => 2,
        0xFC => 0,
        0xFD => 0,
        0xFE => 4,
        _ => 8,
    }
}

/// The base opcode table's cycle costs; conditional control flow
/// carries cost 0 here and adds its own cost on the taken or
/// not-taken path.
pub fn base_cycles(opcode: u8) -> (r: u8)
    ensures
        r == spec_base_cycles(opcode),
        r <= 12,
{
    match opcode {
        0x00 => 2,
        0x01 => 6,
        0x02 => 4,
        0x03 => 4,
        0x04 => 2,
        0x05 => 2,
        0x06 => 4,
        0x07 => 4,
        0x08 => 10,
        0x09 => 4,
        0x0A => 4,
        0x0B => 4,
        0x0C => 2,
        0x0D => 2,
        0x0E => 4,
        0x0F => 4,
        0x10 => 2,
        0x11 => 6,
        0x12 => 4,
        0x13 => 4,
        0x14 => 2,
        0x15 => 2,
        0x16 => 4,
        0x17 => 4,
        0x18 => 4,
        0x19 => 4,
        0x1A => 4,
        0x1B => 4,
        0x1C => 2,
        0x1D => 2,
        0x1E => 4,
        0x1F => 4,
        0x20 => 0,
        0x21 => 6,
        0x22 => 4,
        0x23 => 4,
        0x24 => 2,
        0x25 => 2,
        0x26 => 4,
        0x27 => 2,
        0x28 => 0,
        0x29 => 4,
        0x2A => 4,
        0x2B => 4,
        0x2C => 2,
        0x2D => 2,
        0x2E => 4,
        0x2F => 2,
        0x30 => 4,
        0x31 => 6,
        0x32 => 4,
        0x33 => 4,
        0x34 => 6,
        0x35 => 6,
        0x36 => 6,
        0x37 => 2,
        0x38 => 0,
        0x39 => 4,
        0x3A => 4,
        0x3B => 4,
        0x3C => 2,
        0x3D => 2,
        0x3E => 4,
        0x3F => 2,
        0x40 => 2,
        0x41 => 2,
        0x42 => 2,
        0x43 => 2,
        0x44 => 2,
        0x45 => 2,
        0x46 => 4,
        0x47 => 2,
        0x48 => 2,
        0x49 => 2,
        0x4A => 2,
        0x4B => 2,
        0x4C => 2,
        0x4D => 2,
        0x4E => 4,
        0x4F => 2,
        0x50 => 2,
        0x51 => 2,
        0x52 => 2,
        0x53 => 2,
        0x54 => 2,
        0x55 => 2,
        0x56 => 4,
        0x57 => 2,
        0x58 => 2,
        0x59 => 2,
        0x5A => 2,
        0x5B => 2,
        0x5C => 2,
        0x5D => 2,
        0x5E => 4,
        0x5F => 2,
        0x60 => 2,
        0x61 => 2,
        0x62 => 2,
        0x63 => 2,
        0x64 => 2,
        0x65 => 2,
        0x66 => 4,
        0x67 => 2,
        0x68 => 2,
        0x69 => 2,
        0x6A => 2,
        0x6B => 2,
        0x6C => 2,
        0x6D => 2,
        0x6E => 4,
        0x6F => 2,
        0x70 => 4,
        0x71 => 4,
        0x72 => 4,
        0x73 => 4,
        0x74 => 4,
        0x75 => 4,
        0x76 => 2,
        0x77 => 4,
        0x78 => 2,
        0x79 => 2,
        0x7A => 2,
        0x7B => 2,
        0x7C => 2,
        0x7D => 2,
        0x7E => 4,
        0x7F => 2,
        0x80 => 2,
        0x81 => 2,
        0x82 => 2,
        0x83 => 2,
        0x84 => 2,
        0x85 => 2,
        0x86 => 4,
        0x87 => 2,
        0x88 => 2,
        0x89 => 2,
        0x8A => 2,
        0x8B => 2,
        0x8C => 2,
        0x8D => 2,
        0x8E => 4,
        0x8F => 2,
        0x90 => 2,
        0x91 => 2,
        0x92 => 2,
        0x93 => 2,
        0x94 => 2,
        0x95 => 2,
        0x96 => 4,
        0x97 => 2,
        0x98 => 2,
        0x99 => 2,
        0x9A => 2,
        0x9B => 2,
        0x9C => 2,
        0x9D => 2,
        0x9E => 4,
        0x9F => 2,
        0xA0 => 2,
        0xA1 => 2,
        0xA2 => 2,
        0xA3 => 2,
        0xA4 => 2,
        0xA5 => 2,
        0xA6 => 4,
        0xA7 => 2,
        0xA8 => 2,
        0xA9 => 2,
        0xAA => 2,
        0xAB => 2,
        0xAC => 2,
        0xAD => 2,
        0xAE => 4,
        0xAF => 2,
        0xB0 => 2,
        0xB1 => 2,
        0xB2 => 2,
        0xB3 => 2,
        0xB4 => 2,
        0xB5 => 2,
        0xB6 => 4,
        0xB7 => 2,
        0xB8 => 2,
        0xB9 => 2,
        0xBA => 2,
        0xBB => 2,
        0xBC => 2,
        0xBD => 2,
        0xBE => 4,
        0xBF => 2,
        0xC0 => 0,
        0xC1 => 6,
        0xC2 => 0,
        0xC3 => 6,
        0xC4 => 0,
        0xC5 => 8,
        0xC6 => 4,
        0xC7 => 8,
        0xC8 => 0,
        0xC9 => 2,
        0xCA => 0,
        0xCB => 0,
        0xCC => 0,
        0xCD => 6,
        0xCE => 4,
        0xCF => 8,
        0xD0 => 0,
        0xD1 => 6,
        0xD2 => 0,
        0xD3 => 6,
        0xD4 => 0,
        0xD5 => 8,
        0xD6 => 4,
        0xD7 => 8,
        0xD8 => 0,
        0xD9 => 2,
        0xDA => 0,
        0xDB => 0,
        0xDC => 0,
        0xDD => 6,
        0xDE => 4,
        0xDF => 8,
        0xE0 => 6,
        0xE1 => 6,
        0xE2 => 4,
        0xE3 => 0,
        0xE4 => 0,
        0xE5 => 8,
        0xE6 => 4,
        0xE7 => 8,
        0xE8 => 8,
        0xE9 => 2,
        0xEA => 8,
        0xEB => 0,
        0xEC => 0,
        0xED => 0,
        0xEE => 4,
        0xEF => 8,
        0xF0 => 6,
        0xF1 => 6,
        0xF2 => 4,
        0xF3 => 2,
        0xF4 => 0,
        0xF5 => 8,
        0xF6 => 4,
        0xF7 => 8,
        0xF8 => 6,
        0xF9 => 4,
        0xFA => 8,
        0xFB => 2,
        0xFC => 0,
        0xFD => 0,
        0xFE => 4,
        _ => 8,
    }
}

/// What one base-table operation does, gathered per opcode byte:
/// each arm is exactly the postcondition of that opcode's operation
/// function (for 0xD9, of the interrupt return; for 0xCB, of the
/// two-byte escape).
pub open spec fn exec_ok(opcode: u8, pre: EmulatorV, post: EmulatorV) -> bool {
    match opcode {
        0x00 => {
            &&& (post.wf())
            &&& (post == pre)
        },
        0x01 => {
            &&& (post.wf())
            &&& (post == with_regs(pre, (Registers { b: post.registers.b, c: post.registers.c, pc: spec_inc16(spec_inc16(pre.registers.pc)), ..pre.registers })))
            &&& (det_read16(pre.registers.pc) ==> post.registers == (Registers { b: spec_high_byte(bus_read16(pre, pre.registers.pc)), c: spec_low_byte(bus_read16(pre, pre.registers.pc)), pc: spec_inc16(spec_inc16(pre.registers.pc)), ..pre.registers }))
        },
        0x02 => {
            &&& (post.wf())
            &&& (bus_write_ok(pre, pre.registers.spec_get_bc(), pre.registers.a, post))
            &&& (post.cpu == pre.cpu)
            &&& (post.registers == pre.registers)
        },
        0x03 => {
            &&& (post.wf())
            &&& (post == with_regs(pre, pre.registers.spec_set_bc(spec_inc16(pre.registers.spec_get_bc()))))
        },
        0x04 => {
            &&& (post.wf())
            &&& (post == with_regs( pre, Registers { b: spec_inc8(pre.registers.b), f: spec_inc_flags(pre.registers.f, pre.registers.b), ..pre.registers }, ))
        },
        0x05 => {
            &&& (post.wf())
            &&& (post == with_regs( pre, Registers { b: spec_dec8(pre.registers.b), f: spec_dec_flags(pre.registers.f, pre.registers.b), ..pre.registers }, ))
        },
        0x06 => {
            &&& (post.wf())
            &&& (post == with_regs( pre, Registers { b: post.registers.b, pc: spec_inc16(pre.registers.pc), ..pre.registers }, ))
            &&& (det_read(pre.registers.pc) ==> post.registers.b == bus_read( pre, pre.registers.pc, ))
        },
        0x07 => {
            &&& (post.wf())
            &&& (post == with_regs(pre, (Registers { a: spec_rlc8(pre.registers.a), f: spec_flags(false, false, false, pre.registers.a & 0x80 != 0), ..pre.registers })))
        },
        0x08 => {
            &&& (post.wf())
            &&& (post.cpu == pre.cpu)
            &&& (post.registers == (Registers { pc: spec_inc16(spec_inc16(pre.registers.pc)), ..pre.registers }))
            &&& (det_read16(pre.registers.pc) ==> bus_write16_ok(with_regs(pre, (Registers { pc: spec_inc16(spec_inc16(pre.registers.pc)), ..pre.registers })), bus_read16(pre, pre.registers.pc), pre.registers.sp, post))
        },
        0x09 => {
            &&& (post.wf())
            &&& (post == with_regs(pre, spec_add_hl(pre.registers, pre.registers.spec_get_bc())))
        },
        0x0A => {
            &&& (post.wf())
            &&& (post == with_regs(pre, (Registers { a: post.registers.a, ..pre.registers })))
            &&& (det_read(pre.registers.spec_get_bc()) ==> post.registers.a == bus_read(pre, pre.registers.spec_get_bc()))
        },
        0x0B => {
            &&& (post.wf())
            &&& (post == with_regs(pre, pre.registers.spec_set_bc(spec_dec16(pre.registers.spec_get_bc()))))
        },
        0x0C => {
            &&& (post.wf())
            &&& (post == with_regs(pre, (Registers { c: spec_inc8(pre.registers.c), f: spec_inc_flags(pre.registers.f, pre.registers.c), ..pre.registers })))
        },
        0x0D => {
            &&& (post.wf())
            &&& (post == with_regs(pre, (Registers { c: spec_dec8(pre.registers.c), f: spec_dec_flags(pre.registers.f, pre.registers.c), ..pre.registers })))
        },
        0x0E => {
            &&& (post.wf())
            &&& (post == with_regs(pre, (Registers { c: post.registers.c, pc: spec_inc16(pre.registers.pc), ..pre.registers })))
            &&& (det_read(pre.registers.pc) ==> post.registers.c == bus_read(pre, pre.registers.pc))
        },
        0x0F => {
            &&& (post.wf())
            &&& (post == with_regs(pre, (Registers { a: spec_rrc8(pre.registers.a), f: spec_flags(false, false, false, pre.registers.a & 0x01 != 0), ..pre.registers })))
        },
        0x10 => {
            &&& (post.wf())
            &&& (post == (EmulatorV { registers: (Registers { pc: spec_inc16(pre.registers.pc), ..pre.registers }), cpu: (Cpu { stopped: true, ..pre.cpu }), ..pre }))
        },
        0x11 => {
            &&& (post.wf())
            &&& (post == with_regs(pre, (Registers { d: post.registers.d, e: post.registers.e, pc: spec_inc16(spec_inc16(pre.registers.pc)), ..pre.registers })))
            &&& (det_read16(pre.registers.pc) ==> post.registers == (Registers { d: spec_high_byte(bus_read16(pre, pre.registers.pc)), e: spec_low_byte(bus_read16(pre, pre.registers.pc)), pc: spec_inc16(spec_inc16(pre.registers.pc)), ..pre.registers }))
        },
        0x12 => {
            &&& (post.wf())
            &&& (bus_write_ok(pre, pre.registers.spec_get_de(), pre.registers.a, post))
            &&& (post.cpu == pre.cpu)
            &&& (post.registers == pre.registers)
        },
        0x13 => {
            &&& (post.wf())
            &&& (post == with_regs(pre, pre.registers.spec_set_de(spec_inc16(pre.registers.spec_get_de()))))
        },
        0x14 => {
            &&& (post.wf())
            &&& (post == with_regs(pre, (Registers { d: spec_inc8(pre.registers.d), f: spec_inc_flags(pre.registers.f, pre.registers.d), ..pre.registers })))
        },
        0x15 => {
            &&& (post.wf())
            &&& (post == with_regs(pre, (Registers { d: spec_dec8(pre.registers.d), f: spec_dec_flags(pre.registers.f, pre.registers.d), ..pre.registers })))
        },
        0x16 => {
            &&& (post.wf())
            &&& (post == with_regs(pre, (Registers { d: post.registers.d, pc: spec_inc16(pre.registers.pc), ..pre.registers })))
            &&& (det_read(pre.registers.pc) ==> post.registers.d == bus_read(pre, pre.registers.pc))
        },
        0x17 => {
            &&& (post.wf())
            &&& (post == with_regs(pre, (Registers { a: spec_rl8(pre.registers.a, spec_carry(pre.registers.f)), f: spec_flags(false, false, false, pre.registers.a & 0x80 != 0), ..pre.registers })))
        },
        0x18 => {
            &&& (post.wf())
            &&& (post == with_regs(pre, (Registers { pc: post.registers.pc, ..pre.registers })))
            &&& (det_read(pre.registers.pc) ==> post.registers.pc == spec_signed_add16(spec_inc16(pre.registers.pc), bus_read(pre, pre.registers.pc)))
        },
        0x19 => {
            &&& (post.wf())
            &&& (post == with_regs(pre, spec_add_hl(pre.registers, pre.registers.spec_get_de())))
        },
        0x1A => {
            &&& (post.wf())
            &&& (post == with_regs(pre, (Registers { a: post.registers.a, ..pre.registers })))
            &&& (det_read(pre.registers.spec_get_de()) ==> post.registers.a == bus_read(pre, pre.registers.spec_get_de()))
        },
        0x1B => {
            &&& (post.wf())
            &&& (post == with_regs(pre, pre.registers.spec_set_de(spec_dec16(pre.registers.spec_get_de()))))
        },
        0x1C => {
            &&& (post.wf())
            &&& (post == with_regs(pre, (Registers { e: spec_inc8(pre.registers.e), f: spec_inc_flags(pre.registers.f, pre.registers.e), ..pre.registers })))
        },
        0x1D => {
            &&& (post.wf())
            &&& (post == with_regs(pre, (Registers { e: spec_dec8(pre.registers.e), f: spec_dec_flags(pre.registers.f, pre.registers.e), ..pre.registers })))
        },
        0x1E => {
            &&& (post.wf())
            &&& (post == with_regs(pre, (Registers { e: post.registers.e, pc: spec_inc16(pre.registers.pc), ..pre.registers })))
            &&& (det_read(pre.registers.pc) ==> post.registers.e == bus_read(pre, pre.registers.pc))
        },
        0x1F => {
            &&& (post.wf())
            &&& (post == with_regs(pre, (Registers { a: spec_rr8(pre.registers.a, spec_carry(pre.registers.f)), f: spec_flags(false, false, false, pre.registers.a & 0x01 != 0), ..pre.registers })))
        },
        0x20 => {
            &&& (post.wf())
            &&& (pre.cpu.ticks <= post.cpu.ticks <= pre.cpu.ticks + 24)
            &&& (post == (EmulatorV { registers: Registers { pc: post.registers.pc, ..pre.registers }, cpu: Cpu { ticks: post.cpu.ticks, ..pre.cpu }, ..pre }))
            &&& (det_read(pre.registers.pc) ==> post == (if spec_flag_set( pre.registers.f, FLAG_ZERO, ) { EmulatorV { registers: Registers { pc: spec_inc16(pre.registers.pc), ..pre.registers }, cpu: Cpu { ticks: (pre.cpu.ticks + 8) as u64, ..pre.cpu }, ..pre } } else { EmulatorV { registers: Registers { pc: spec_signed_add16( spec_inc16(pre.registers.pc), bus_read(pre, pre.registers.pc), ), ..pre.registers }, cpu: Cpu { ticks: (pre.cpu.ticks + 12) as u64, ..pre.cpu }, ..pre } }))
        },
        0x21 => {
            &&& (post.wf())
            &&& (post == with_regs(pre, (Registers { h: post.registers.h, l: post.registers.l, pc: spec_inc16(spec_inc16(pre.registers.pc)), ..pre.registers })))
            &&& (det_read16(pre.registers.pc) ==> post.registers == (Registers { h: spec_high_byte(bus_read16(pre, pre.registers.pc)), l: spec_low_byte(bus_read16(pre, pre.registers.pc)), pc: spec_inc16(spec_inc16(pre.registers.pc)), ..pre.registers }))
        },
        0x22 => {
            &&& (post.wf())
            &&& (post.registers == pre.registers.spec_set_hl( spec_inc16(pre.registers.spec_get_hl()), ))
            &&& (bus_write_ok( pre, pre.registers.spec_get_hl(), pre.registers.a, with_regs(post, pre.registers), ))
            &&& (post.cpu == pre.cpu)
        },
        0x23 => {
            &&& (post.wf())
            &&& (post == with_regs(pre, pre.registers.spec_set_hl(spec_inc16(pre.registers.spec_get_hl()))))
        },
        0x24 => {
            &&& (post.wf())
            &&& (post == with_regs(pre, (Registers { h: spec_inc8(pre.registers.h), f: spec_inc_flags(pre.registers.f, pre.registers.h), ..pre.registers })))
        },
        0x25 => {
            &&& (post.wf())
            &&& (post == with_regs(pre, (Registers { h: spec_dec8(pre.registers.h), f: spec_dec_flags(pre.registers.f, pre.registers.h), ..pre.registers })))
        },
        0x26 => {
            &&& (post.wf())
            &&& (post == with_regs(pre, (Registers { h: post.registers.h, pc: spec_inc16(pre.registers.pc), ..pre.registers })))
            &&& (det_read(pre.registers.pc) ==> post.registers.h == bus_read(pre, pre.registers.pc))
        },
        0x27 => {
            &&& (post.wf())
            &&& (post == with_regs(pre, spec_daa_r(pre.registers)))
        },
        0x28 => {
            &&& (post.wf())
            &&& (pre.cpu.ticks <= post.cpu.ticks <= pre.cpu.ticks + 24)
            &&& (post == (EmulatorV { registers: (Registers { pc: post.registers.pc, ..pre.registers }), cpu: (Cpu { ticks: post.cpu.ticks, ..pre.cpu }), ..pre }))
            &&& (det_read(pre.registers.pc) ==> post == (if spec_flag_set(pre.registers.f, FLAG_ZERO) { (EmulatorV { registers: (Registers { pc: spec_signed_add16(spec_inc16(pre.registers.pc), bus_read(pre, pre.registers.pc)), ..pre.registers }), cpu: (Cpu { ticks: (pre.cpu.ticks + 12) as u64, ..pre.cpu }), ..pre }) } else { (EmulatorV { registers: (Registers { pc: spec_inc16(pre.registers.pc), ..pre.registers }), cpu: (Cpu { ticks: (pre.cpu.ticks + 8) as u64, ..pre.cpu }), ..pre }) }))
        },
        0x29 => {
            &&& (post.wf())
            &&& (post == with_regs(pre, spec_add_hl(pre.registers, pre.registers.spec_get_hl())))
        },
        0x2A => {
            &&& (post.wf())
            &&& (post == with_regs(pre, (Registers { a: post.registers.a, ..pre.registers.spec_set_hl(spec_inc16(pre.registers.spec_get_hl())) })))
            &&& (det_read(pre.registers.spec_get_hl()) ==> post.registers.a == bus_read(pre, pre.registers.spec_get_hl()))
        },
        0x2B => {
            &&& (post.wf())
            &&& (post == with_regs(pre, pre.registers.spec_set_hl(spec_dec16(pre.registers.spec_get_hl()))))
        },
        0x2C => {
            &&& (post.wf())
            &&& (post == with_regs(pre, (Registers { l: spec_inc8(pre.registers.l), f: spec_inc_flags(pre.registers.f, pre.registers.l), ..pre.registers })))
        },
        0x2D => {
            &&& (post.wf())
            &&& (post == with_regs(pre, (Registers { l: spec_dec8(pre.registers.l), f: spec_dec_flags(pre.registers.f, pre.registers.l), ..pre.registers })))
        },
        0x2E => {
            &&& (post.wf())
            &&& (post == with_regs(pre, (Registers { l: post.registers.l, pc: spec_inc16(pre.registers.pc), ..pre.registers })))
            &&& (det_read(pre.registers.pc) ==> post.registers.l == bus_read(pre, pre.registers.pc))
        },
        0x2F => {
            &&& (post.wf())
            &&& (post == with_regs(pre, (Registers { a: !pre.registers.a, f: spec_flags(spec_flag_set(pre.registers.f, FLAG_ZERO), true, true, spec_carry(pre.registers.f)), ..pre.registers })))
        },
        0x30 => {
            &&& (post.wf())
            &&& (pre.cpu.ticks <= post.cpu.ticks <= pre.cpu.ticks + 24)
            &&& (post == (EmulatorV { registers: (Registers { pc: post.registers.pc, ..pre.registers }), cpu: (Cpu { ticks: post.cpu.ticks, ..pre.cpu }), ..pre }))
            &&& (det_read(pre.registers.pc) ==> post == (if !spec_flag_set(pre.registers.f, FLAG_CARRY) { (EmulatorV { registers: (Registers { pc: spec_signed_add16(spec_inc16(pre.registers.pc), bus_read(pre, pre.registers.pc)), ..pre.registers }), cpu: (Cpu { ticks: (pre.cpu.ticks + 12) as u64, ..pre.cpu }), ..pre }) } else { (EmulatorV { registers: (Registers { pc: spec_inc16(pre.registers.pc), ..pre.registers }), cpu: (Cpu { ticks: (pre.cpu.ticks + 8) as u64, ..pre.cpu }), ..pre }) }))
        },
        0x31 => {
            &&& (post.wf())
            &&& (post == with_regs(pre, (Registers { sp: post.registers.sp, pc: spec_inc16(spec_inc16(pre.registers.pc)), ..pre.registers })))
            &&& (det_read16(pre.registers.pc) ==> post.registers.sp == bus_read16(pre, pre.registers.pc))
        },
        0x32 => {
            &&& (post.wf())
            &&& (post.registers == pre.registers.spec_set_hl(spec_dec16(pre.registers.spec_get_hl())))
            &&& (bus_write_ok(pre, pre.registers.spec_get_hl(), pre.registers.a, with_regs(post, pre.registers)))
            &&& (post.cpu == pre.cpu)
        },
        0x33 => {
            &&& (post.wf())
            &&& (post == with_regs(pre, (Registers { sp: spec_inc16(pre.registers.sp), ..pre.registers })))
        },
        0x34 => {
            &&& (post.wf())
            &&& (post.cpu == pre.cpu)
            &&& (post.registers == (Registers { f: post.registers.f, ..pre.registers }))
            &&& (det_read(pre.registers.spec_get_hl()) ==> bus_write_ok(with_regs(pre, (Registers { f: spec_inc_flags(pre.registers.f, bus_read(pre, pre.registers.spec_get_hl())), ..pre.registers })), pre.registers.spec_get_hl(), spec_inc8(bus_read(pre, pre.registers.spec_get_hl())), post))
        },
        0x35 => {
            &&& (post.wf())
            &&& (post.cpu == pre.cpu)
            &&& (post.registers == (Registers { f: post.registers.f, ..pre.registers }))
            &&& (det_read(pre.registers.spec_get_hl()) ==> bus_write_ok(with_regs(pre, (Registers { f: spec_dec_flags(pre.registers.f, bus_read(pre, pre.registers.spec_get_hl())), ..pre.registers })), pre.registers.spec_get_hl(), spec_dec8(bus_read(pre, pre.registers.spec_get_hl())), post))
        },
        0x36 => {
            &&& (post.wf())
            &&& (post.cpu == pre.cpu)
            &&& (post.registers == (Registers { pc: spec_inc16(pre.registers.pc), ..pre.registers }))
            &&& (det_read(pre.registers.pc) ==> bus_write_ok(with_regs(pre, (Registers { pc: spec_inc16(pre.registers.pc), ..pre.registers })), pre.registers.spec_get_hl(), bus_read(pre, pre.registers.pc), post))
        },
        0x37 => {
            &&& (post.wf())
            &&& (post == with_regs(pre, (Registers { f: spec_flags(spec_flag_set(pre.registers.f, FLAG_ZERO), false, false, true), ..pre.registers })))
        },
        0x38 => {
            &&& (post.wf())
            &&& (pre.cpu.ticks <= post.cpu.ticks <= pre.cpu.ticks + 24)
            &&& (post == (EmulatorV { registers: (Registers { pc: post.registers.pc, ..pre.registers }), cpu: (Cpu { ticks: post.cpu.ticks, ..pre.cpu }), ..pre }))
            &&& (det_read(pre.registers.pc) ==> post == (if spec_flag_set(pre.registers.f, FLAG_CARRY) { (EmulatorV { registers: (Registers { pc: spec_signed_add16(spec_inc16(pre.registers.pc), bus_read(pre, pre.registers.pc)), ..pre.registers }), cpu: (Cpu { ticks: (pre.cpu.ticks + 12) as u64, ..pre.cpu }), ..pre }) } else { (EmulatorV { registers: (Registers { pc: spec_inc16(pre.registers.pc), ..pre.registers }), cpu: (Cpu { ticks: (pre.cpu.ticks + 8) as u64, ..pre.cpu }), ..pre }) }))
        },
        0x39 => {
            &&& (post.wf())
            &&& (post == with_regs(pre, spec_add_hl(pre.registers, pre.registers.sp)))
        },
        0x3A => {
            &&& (post.wf())
            &&& (post == with_regs(pre, (Registers { a: post.registers.a, ..pre.registers.spec_set_hl(spec_dec16(pre.registers.spec_get_hl())) })))
            &&& (det_read(pre.registers.spec_get_hl()) ==> post.registers.a == bus_read(pre, pre.registers.spec_get_hl()))
        },
        0x3B => {
            &&& (post.wf())
            &&& (post == with_regs(pre, (Registers { sp: spec_dec16(pre.registers.sp), ..pre.registers })))
        },
        0x3C => {
            &&& (post.wf())
            &&& (post == with_regs(pre, (Registers { a: spec_inc8(pre.registers.a), f: spec_inc_flags(pre.registers.f, pre.registers.a), ..pre.registers })))
        },
        0x3D => {
            &&& (post.wf())
            &&& (post == with_regs(pre, (Registers { a: spec_dec8(pre.registers.a), f: spec_dec_flags(pre.registers.f, pre.registers.a), ..pre.registers })))
        },
        0x3E => {
            &&& (post.wf())
            &&& (post == with_regs(pre, (Registers { a: post.registers.a, pc: spec_inc16(pre.registers.pc), ..pre.registers })))
            &&& (det_read(pre.registers.pc) ==> post.registers.a == bus_read(pre, pre.registers.pc))
        },
        0x3F => {
            &&& (post.wf())
            &&& (post == with_regs(pre, (Registers { f: spec_flags(spec_flag_set(pre.registers.f, FLAG_ZERO), false, false, !spec_carry(pre.registers.f)), ..pre.registers })))
        },
        0x40 => {
            &&& (post.wf())
            &&& (post == pre)
        },
        0x41 => {
            &&& (post.wf())
            &&& (post == with_regs( pre, Registers { b: pre.registers.c, ..pre.registers }, ))
        },
        0x42 => {
            &&& (post.wf())
            &&& (post == with_regs(pre, (Registers { b: pre.registers.d, ..pre.registers })))
        },
        0x43 => {
            &&& (post.wf())
            &&& (post == with_regs(pre, (Registers { b: pre.registers.e, ..pre.registers })))
        },
        0x44 => {
            &&& (post.wf())
            &&& (post == with_regs(pre, (Registers { b: pre.registers.h, ..pre.registers })))
        },
        0x45 => {
            &&& (post.wf())
            &&& (post == with_regs(pre, (Registers { b: pre.registers.l, ..pre.registers })))
        },
        0x46 => {
            &&& (post.wf())
            &&& (post == with_regs( pre, Registers { b: post.registers.b, ..pre.registers }, ))
            &&& (det_read(pre.registers.spec_get_hl()) ==> post.registers.b == bus_read( pre, pre.registers.spec_get_hl(), ))
        },
        0x47 => {
            &&& (post.wf())
            &&& (post == with_regs(pre, (Registers { b: pre.registers.a, ..pre.registers })))
        },
        0x48 => {
            &&& (post.wf())
            &&& (post == with_regs(pre, (Registers { c: pre.registers.b, ..pre.registers })))
        },
        0x49 => {
            &&& (post.wf())
            &&& (post == pre)
        },
        0x4A => {
            &&& (post.wf())
            &&& (post == with_regs(pre, (Registers { c: pre.registers.d, ..pre.registers })))
        },
        0x4B => {
            &&& (post.wf())
            &&& (post == with_regs(pre, (Registers { c: pre.registers.e, ..pre.registers })))
        },
        0x4C => {
            &&& (post.wf())
            &&& (post == with_regs(pre, (Registers { c: pre.registers.h, ..pre.registers })))
        },
        0x4D => {
            &&& (post.wf())
            &&& (post == with_regs(pre, (Registers { c: pre.registers.l, ..pre.registers })))
        },
        0x4E => {
            &&& (post.wf())
            &&& (post == with_regs(pre, (Registers { c: post.registers.c, ..pre.registers })))
            &&& (det_read(pre.registers.spec_get_hl()) ==> post.registers.c == bus_read(pre, pre.registers.spec_get_hl()))
        },
        0x4F => {
            &&& (post.wf())
            &&& (post == with_regs(pre, (Registers { c: pre.registers.a, ..pre.registers })))
        },
        0x50 => {
            &&& (post.wf())
            &&& (post == with_regs(pre, (Registers { d: pre.registers.b, ..pre.registers })))
        },
        0x51 => {
            &&& (post.wf())
            &&& (post == with_regs(pre, (Registers { d: pre.registers.c, ..pre.registers })))
        },
        0x52 => {
            &&& (post.wf())
            &&& (post == pre)
        },
        0x53 => {
            &&& (post.wf())
            &&& (post == with_regs(pre, (Registers { d: pre.registers.e, ..pre.registers })))
        },
        0x54 => {
            &&& (post.wf())
            &&& (post == with_regs(pre, (Registers { d: pre.registers.h, ..pre.registers })))
        },
        0x55 => {
            &&& (post.wf())
            &&& (post == with_regs(pre, (Registers { d: pre.registers.l, ..pre.registers })))
        },
        0x56 => {
            &&& (post.wf())
            &&& (post == with_regs(pre, (Registers { d: post.registers.d, ..pre.registers })))
            &&& (det_read(pre.registers.spec_get_hl()) ==> post.registers.d == bus_read(pre, pre.registers.spec_get_hl()))
        },
        0x57 => {
            &&& (post.wf())
            &&& (post == with_regs(pre, (Registers { d: pre.registers.a, ..pre.registers })))
        },
        0x58 => {
            &&& (post.wf())
            &&& (post == with_regs(pre, (Registers { e: pre.registers.b, ..pre.registers })))
        },
        0x59 => {
            &&& (post.wf())
            &&& (post == with_regs(pre, (Registers { e: pre.registers.c, ..pre.registers })))
        },
        0x5A => {
            &&& (post.wf())
            &&& (post == with_regs(pre, (Registers { e: pre.registers.d, ..pre.registers })))
        },
        0x5B => {
            &&& (post.wf())
            &&& (post == pre)
        },
        0x5C => {
            &&& (post.wf())
            &&& (post == with_regs(pre, (Registers { e: pre.registers.h, ..pre.registers })))
        },
        0x5D => {
            &&& (post.wf())
            &&& (post == with_regs(pre, (Registers { e: pre.registers.l, ..pre.registers })))
        },
        0x5E => {
            &&& (post.wf())
            &&& (post == with_regs(pre, (Registers { e: post.registers.e, ..pre.registers })))
            &&& (det_read(pre.registers.spec_get_hl()) ==> post.registers.e == bus_read(pre, pre.registers.spec_get_hl()))
        },
        0x5F => {
            &&& (post.wf())
            &&& (post == with_regs(pre, (Registers { e: pre.registers.a, ..pre.registers })))
        },
        0x60 => {
            &&& (post.wf())
            &&& (post == with_regs(pre, (Registers { h: pre.registers.b, ..pre.registers })))
        },
        0x61 => {
            &&& (post.wf())
            &&& (post == with_regs(pre, (Registers { h: pre.registers.c, ..pre.registers })))
        },
        0x62 => {
            &&& (post.wf())
            &&& (post == with_regs(pre, (Registers { h: pre.registers.d, ..pre.registers })))
        },
        0x63 => {
            &&& (post.wf())
            &&& (post == with_regs(pre, (Registers { h: pre.registers.e, ..pre.registers })))
        },
        0x64 => {
            &&& (post.wf())
            &&& (post == pre)
        },
        0x65 => {
            &&& (post.wf())
            &&& (post == with_regs(pre, (Registers { h: pre.registers.l, ..pre.registers })))
        },
        0x66 => {
            &&& (post.wf())
            &&& (post == with_regs(pre, (Registers { h: post.registers.h, ..pre.registers })))
            &&& (det_read(pre.registers.spec_get_hl()) ==> post.registers.h == bus_read(pre, pre.registers.spec_get_hl()))
        },
        0x67 => {
            &&& (post.wf())
            &&& (post == with_regs(pre, (Registers { h: pre.registers.a, ..pre.registers })))
        },
        0x68 => {
            &&& (post.wf())
            &&& (post == with_regs(pre, (Registers { l: pre.registers.b, ..pre.registers })))
        },
        0x69 => {
            &&& (post.wf())
            &&& (post == with_regs(pre, (Registers { l: pre.registers.c, ..pre.registers })))
        },
        0x6A => {
            &&& (post.wf())
            &&& (post == with_regs(pre, (Registers { l: pre.registers.d, ..pre.registers })))
        },
        0x6B => {
            &&& (post.wf())
            &&& (post == with_regs(pre, (Registers { l: pre.registers.e, ..pre.registers })))
        },
        0x6C => {
            &&& (post.wf())
            &&& (post == with_regs(pre, (Registers { l: pre.registers.h, ..pre.registers })))
        },
        0x6D => {
            &&& (post.wf())
            &&& (post == pre)
        },
        0x6E => {
            &&& (post.wf())
            &&& (post == with_regs(pre, (Registers { l: post.registers.l, ..pre.registers })))
            &&& (det_read(pre.registers.spec_get_hl()) ==> post.registers.l == bus_read(pre, pre.registers.spec_get_hl()))
        },
        0x6F => {
            &&& (post.wf())
            &&& (post == with_regs(pre, (Registers { l: pre.registers.a, ..pre.registers })))
        },
        0x70 => {
            &&& (post.wf())
            &&& (bus_write_ok(pre, pre.registers.spec_get_hl(), pre.registers.b, post))
            &&& (post.cpu == pre.cpu)
            &&& (post.registers == pre.registers)
        },
        0x71 => {
            &&& (post.wf())
            &&& (bus_write_ok(pre, pre.registers.spec_get_hl(), pre.registers.c, post))
            &&& (post.cpu == pre.cpu)
            &&& (post.registers == pre.registers)
        },
        0x72 => {
            &&& (post.wf())
            &&& (bus_write_ok(pre, pre.registers.spec_get_hl(), pre.registers.d, post))
            &&& (post.cpu == pre.cpu)
            &&& (post.registers == pre.registers)
        },
        0x73 => {
            &&& (post.wf())
            &&& (bus_write_ok(pre, pre.registers.spec_get_hl(), pre.registers.e, post))
            &&& (post.cpu == pre.cpu)
            &&& (post.registers == pre.registers)
        },
        0x74 => {
            &&& (post.wf())
            &&& (bus_write_ok(pre, pre.registers.spec_get_hl(), pre.registers.h, post))
            &&& (post.cpu == pre.cpu)
            &&& (post.registers == pre.registers)
        },
        0x75 => {
            &&& (post.wf())
            &&& (bus_write_ok(pre, pre.registers.spec_get_hl(), pre.registers.l, post))
            &&& (post.cpu == pre.cpu)
            &&& (post.registers == pre.registers)
        },
        0x76 => {
            &&& (post.wf())
            &&& (post == (if pre.interrupt.master != 0 { pre } else { with_regs(pre, (Registers { pc: spec_inc16(pre.registers.pc), ..pre.registers })) }))
        },
        0x77 => {
            &&& (post.wf())
            &&& (bus_write_ok(pre, pre.registers.spec_get_hl(), pre.registers.a, post))
            &&& (post.cpu == pre.cpu)
            &&& (post.registers == pre.registers)
        },
        0x78 => {
            &&& (post.wf())
            &&& (post == with_regs(pre, (Registers { a: pre.registers.b, ..pre.registers })))
        },
        0x79 => {
            &&& (post.wf())
            &&& (post == with_regs(pre, (Registers { a: pre.registers.c, ..pre.registers })))
        },
        0x7A => {
            &&& (post.wf())
            &&& (post == with_regs(pre, (Registers { a: pre.registers.d, ..pre.registers })))
        },
        0x7B => {
            &&& (post.wf())
            &&& (post == with_regs(pre, (Registers { a: pre.registers.e, ..pre.registers })))
        },
        0x7C => {
            &&& (post.wf())
            &&& (post == with_regs(pre, (Registers { a: pre.registers.h, ..pre.registers })))
        },
        0x7D => {
            &&& (post.wf())
            &&& (post == with_regs(pre, (Registers { a: pre.registers.l, ..pre.registers })))
        },
        0x7E => {
            &&& (post.wf())
            &&& (post == with_regs(pre, (Registers { a: post.registers.a, ..pre.registers })))
            &&& (det_read(pre.registers.spec_get_hl()) ==> post.registers.a == bus_read(pre, pre.registers.spec_get_hl()))
        },
        0x7F => {
            &&& (post.wf())
            &&& (post == pre)
        },
        0x80 => {
            &&& (post.wf())
            &&& (post == with_regs(pre, spec_add_a(pre.registers, pre.registers.b)))
        },
        0x81 => {
            &&& (post.wf())
            &&& (post == with_regs(pre, spec_add_a(pre.registers, pre.registers.c)))
        },
        0x82 => {
            &&& (post.wf())
            &&& (post == with_regs(pre, spec_add_a(pre.registers, pre.registers.d)))
        },
        0x83 => {
            &&& (post.wf())
            &&& (post == with_regs(pre, spec_add_a(pre.registers, pre.registers.e)))
        },
        0x84 => {
            &&& (post.wf())
            &&& (post == with_regs(pre, spec_add_a(pre.registers, pre.registers.h)))
        },
        0x85 => {
            &&& (post.wf())
            &&& (post == with_regs(pre, spec_add_a(pre.registers, pre.registers.l)))
        },
        0x86 => {
            &&& (post.wf())
            &&& (post == with_regs(pre, Registers { a: post.registers.a, f: post.registers.f, ..pre.registers }))
            &&& (det_read(pre.registers.spec_get_hl()) ==> post == with_regs( pre, spec_add_a(pre.registers, bus_read(pre, pre.registers.spec_get_hl())), ))
        },
        0x87 => {
            &&& (post.wf())
            &&& (post == with_regs(pre, spec_add_a(pre.registers, pre.registers.a)))
        },
        0x88 => {
            &&& (post.wf())
            &&& (post == with_regs(pre, spec_adc_a(pre.registers, pre.registers.b)))
        },
        0x89 => {
            &&& (post.wf())
            &&& (post == with_regs(pre, spec_adc_a(pre.registers, pre.registers.c)))
        },
        0x8A => {
            &&& (post.wf())
            &&& (post == with_regs(pre, spec_adc_a(pre.registers, pre.registers.d)))
        },
        0x8B => {
            &&& (post.wf())
            &&& (post == with_regs(pre, spec_adc_a(pre.registers, pre.registers.e)))
        },
        0x8C => {
            &&& (post.wf())
            &&& (post == with_regs(pre, spec_adc_a(pre.registers, pre.registers.h)))
        },
        0x8D => {
            &&& (post.wf())
            &&& (post == with_regs(pre, spec_adc_a(pre.registers, pre.registers.l)))
        },
        0x8E => {
            &&& (post.wf())
            &&& (post == with_regs(pre, (Registers { a: post.registers.a, f: post.registers.f, ..pre.registers })))
            &&& (det_read(pre.registers.spec_get_hl()) ==> post == with_regs(pre, spec_adc_a(pre.registers, bus_read(pre, pre.registers.spec_get_hl()))))
        },
        0x8F => {
            &&& (post.wf())
            &&& (post == with_regs(pre, spec_adc_a(pre.registers, pre.registers.a)))
        },
        0x90 => {
            &&& (post.wf())
            &&& (post == with_regs(pre, spec_sub_a(pre.registers, pre.registers.b)))
        },
        0x91 => {
            &&& (post.wf())
            &&& (post == with_regs(pre, spec_sub_a(pre.registers, pre.registers.c)))
        },
        0x92 => {
            &&& (post.wf())
            &&& (post == with_regs(pre, spec_sub_a(pre.registers, pre.registers.d)))
        },
        0x93 => {
            &&& (post.wf())
            &&& (post == with_regs(pre, spec_sub_a(pre.registers, pre.registers.e)))
        },
        0x94 => {
            &&& (post.wf())
            &&& (post == with_regs(pre, spec_sub_a(pre.registers, pre.registers.h)))
        },
        0x95 => {
            &&& (post.wf())
            &&& (post == with_regs(pre, spec_sub_a(pre.registers, pre.registers.l)))
        },
        0x96 => {
            &&& (post.wf())
            &&& (post == with_regs(pre, (Registers { a: post.registers.a, f: post.registers.f, ..pre.registers })))
            &&& (det_read(pre.registers.spec_get_hl()) ==> post == with_regs(pre, spec_sub_a(pre.registers, bus_read(pre, pre.registers.spec_get_hl()))))
        },
        0x97 => {
            &&& (post.wf())
            &&& (post == with_regs(pre, spec_sub_a(pre.registers, pre.registers.a)))
        },
        0x98 => {
            &&& (post.wf())
            &&& (post == with_regs(pre, spec_sbc_a(pre.registers, pre.registers.b)))
        },
        0x99 => {
            &&& (post.wf())
            &&& (post == with_regs(pre, spec_sbc_a(pre.registers, pre.registers.c)))
        },
        0x9A => {
            &&& (post.wf())
            &&& (post == with_regs(pre, spec_sbc_a(pre.registers, pre.registers.d)))
        },
        0x9B => {
            &&& (post.wf())
            &&& (post == with_regs(pre, spec_sbc_a(pre.registers, pre.registers.e)))
        },
        0x9C => {
            &&& (post.wf())
            &&& (post == with_regs(pre, spec_sbc_a(pre.registers, pre.registers.h)))
        },
        0x9D => {
            &&& (post.wf())
            &&& (post == with_regs(pre, spec_sbc_a(pre.registers, pre.registers.l)))
        },
        0x9E => {
            &&& (post.wf())
            &&& (post == with_regs(pre, (Registers { a: post.registers.a, f: post.registers.f, ..pre.registers })))
            &&& (det_read(pre.registers.spec_get_hl()) ==> post == with_regs(pre, spec_sbc_a(pre.registers, bus_read(pre, pre.registers.spec_get_hl()))))
        },
        0x9F => {
            &&& (post.wf())
            &&& (post == with_regs(pre, spec_sbc_a(pre.registers, pre.registers.a)))
        },
        0xA0 => {
            &&& (post.wf())
            &&& (post == with_regs(pre, spec_and_a(pre.registers, pre.registers.b)))
        },
        0xA1 => {
            &&& (post.wf())
            &&& (post == with_regs(pre, spec_and_a(pre.registers, pre.registers.c)))
        },
        0xA2 => {
            &&& (post.wf())
            &&& (post == with_regs(pre, spec_and_a(pre.registers, pre.registers.d)))
        },
        0xA3 => {
            &&& (post.wf())
            &&& (post == with_regs(pre, spec_and_a(pre.registers, pre.registers.e)))
        },
        0xA4 => {
            &&& (post.wf())
            &&& (post == with_regs(pre, spec_and_a(pre.registers, pre.registers.h)))
        },
        0xA5 => {
            &&& (post.wf())
            &&& (post == with_regs(pre, spec_and_a(pre.registers, pre.registers.l)))
        },
        0xA6 => {
            &&& (post.wf())
            &&& (post == with_regs(pre, (Registers { a: post.registers.a, f: post.registers.f, ..pre.registers })))
            &&& (det_read(pre.registers.spec_get_hl()) ==> post == with_regs(pre, spec_and_a(pre.registers, bus_read(pre, pre.registers.spec_get_hl()))))
        },
        0xA7 => {
            &&& (post.wf())
            &&& (post == with_regs(pre, spec_and_a(pre.registers, pre.registers.a)))
        },
        0xA8 => {
            &&& (post.wf())
            &&& (post == with_regs(pre, spec_xor_a(pre.registers, pre.registers.b)))
        },
        0xA9 => {
            &&& (post.wf())
            &&& (post == with_regs(pre, spec_xor_a(pre.registers, pre.registers.c)))
        },
        0xAA => {
            &&& (post.wf())
            &&& (post == with_regs(pre, spec_xor_a(pre.registers, pre.registers.d)))
        },
        0xAB => {
            &&& (post.wf())
            &&& (post == with_regs(pre, spec_xor_a(pre.registers, pre.registers.e)))
        },
        0xAC => {
            &&& (post.wf())
            &&& (post == with_regs(pre, spec_xor_a(pre.registers, pre.registers.h)))
        },
        0xAD => {
            &&& (post.wf())
            &&& (post == with_regs(pre, spec_xor_a(pre.registers, pre.registers.l)))
        },
        0xAE => {
            &&& (post.wf())
            &&& (post == with_regs(pre, (Registers { a: post.registers.a, f: post.registers.f, ..pre.registers })))
            &&& (det_read(pre.registers.spec_get_hl()) ==> post == with_regs(pre, spec_xor_a(pre.registers, bus_read(pre, pre.registers.spec_get_hl()))))
        },
        0xAF => {
            &&& (post.wf())
            &&& (post == with_regs(pre, spec_xor_a(pre.registers, pre.registers.a)))
        },
        0xB0 => {
            &&& (post.wf())
            &&& (post == with_regs(pre, spec_or_a(pre.registers, pre.registers.b)))
        },
        0xB1 => {
            &&& (post.wf())
            &&& (post == with_regs(pre, spec_or_a(pre.registers, pre.registers.c)))
        },
        0xB2 => {
            &&& (post.wf())
            &&& (post == with_regs(pre, spec_or_a(pre.registers, pre.registers.d)))
        },
        0xB3 => {
            &&& (post.wf())
            &&& (post == with_regs(pre, spec_or_a(pre.registers, pre.registers.e)))
        },
        0xB4 => {
            &&& (post.wf())
            &&& (post == with_regs(pre, spec_or_a(pre.registers, pre.registers.h)))
        },
        0xB5 => {
            &&& (post.wf())
            &&& (post == with_regs(pre, spec_or_a(pre.registers, pre.registers.l)))
        },
        0xB6 => {
            &&& (post.wf())
            &&& (post == with_regs(pre, (Registers { a: post.registers.a, f: post.registers.f, ..pre.registers })))
            &&& (det_read(pre.registers.spec_get_hl()) ==> post == with_regs(pre, spec_or_a(pre.registers, bus_read(pre, pre.registers.spec_get_hl()))))
        },
        0xB7 => {
            &&& (post.wf())
            &&& (post == with_regs(pre, spec_or_a(pre.registers, pre.registers.a)))
        },
        0xB8 => {
            &&& (post.wf())
            &&& (post == with_regs(pre, spec_cp_a(pre.registers, pre.registers.b)))
        },
        0xB9 => {
            &&& (post.wf())
            &&& (post == with_regs(pre, spec_cp_a(pre.registers, pre.registers.c)))
        },
        0xBA => {
            &&& (post.wf())
            &&& (post == with_regs(pre, spec_cp_a(pre.registers, pre.registers.d)))
        },
        0xBB => {
            &&& (post.wf())
            &&& (post == with_regs(pre, spec_cp_a(pre.registers, pre.registers.e)))
        },
        0xBC => {
            &&& (post.wf())
            &&& (post == with_regs(pre, spec_cp_a(pre.registers, pre.registers.h)))
        },
        0xBD => {
            &&& (post.wf())
            &&& (post == with_regs(pre, spec_cp_a(pre.registers, pre.registers.l)))
        },
        0xBE => {
            &&& (post.wf())
            &&& (post == with_regs(pre, (Registers { a: post.registers.a, f: post.registers.f, ..pre.registers })))
            &&& (det_read(pre.registers.spec_get_hl()) ==> post == with_regs(pre, spec_cp_a(pre.registers, bus_read(pre, pre.registers.spec_get_hl()))))
        },
        0xBF => {
            &&& (post.wf())
            &&& (post == with_regs(pre, spec_cp_a(pre.registers, pre.registers.a)))
        },
        0xC0 => {
            &&& (post.wf())
            &&& (pre.cpu.ticks <= post.cpu.ticks <= pre.cpu.ticks + 24)
            &&& (post == (EmulatorV { registers: (Registers { pc: post.registers.pc, sp: post.registers.sp, ..pre.registers }), cpu: (Cpu { ticks: post.cpu.ticks, ..pre.cpu }), ..pre }))
            &&& (!(!spec_flag_set(pre.registers.f, FLAG_ZERO)) ==> post == (EmulatorV { cpu: (Cpu { ticks: (pre.cpu.ticks + 8) as u64, ..pre.cpu }), ..pre }))
            &&& (!spec_flag_set(pre.registers.f, FLAG_ZERO) ==> post.registers.sp == spec_inc16(spec_inc16(pre.registers.sp)) && post.cpu.ticks == pre.cpu.ticks + 20)
            &&& (!spec_flag_set(pre.registers.f, FLAG_ZERO) && det_read16(pre.registers.sp) ==> post.registers.pc == bus_read16(pre, pre.registers.sp))
        },
        0xC1 => {
            &&& (post.wf())
            &&& (post == with_regs( pre, Registers { b: post.registers.b, c: post.registers.c, sp: spec_inc16(spec_inc16(pre.registers.sp)), ..pre.registers }, ))
            &&& (det_read16(pre.registers.sp) ==> post.registers == (Registers { b: spec_high_byte(bus_read16(pre, pre.registers.sp)), c: spec_low_byte(bus_read16(pre, pre.registers.sp)), sp: spec_inc16(spec_inc16(pre.registers.sp)), ..pre.registers }))
        },
        0xC2 => {
            &&& (post.wf())
            &&& (pre.cpu.ticks <= post.cpu.ticks <= pre.cpu.ticks + 24)
            &&& (post == (EmulatorV { registers: (Registers { pc: post.registers.pc, ..pre.registers }), cpu: (Cpu { ticks: post.cpu.ticks, ..pre.cpu }), ..pre }))
            &&& (det_read16(pre.registers.pc) ==> post == (if !spec_flag_set(pre.registers.f, FLAG_ZERO) { (EmulatorV { registers: (Registers { pc: bus_read16(pre, pre.registers.pc), ..pre.registers }), cpu: (Cpu { ticks: (pre.cpu.ticks + 16) as u64, ..pre.cpu }), ..pre }) } else { (EmulatorV { registers: (Registers { pc: spec_inc16(spec_inc16(pre.registers.pc)), ..pre.registers }), cpu: (Cpu { ticks: (pre.cpu.ticks + 12) as u64, ..pre.cpu }), ..pre }) }))
        },
        0xC3 => {
            &&& (post.wf())
            &&& (post == with_regs( pre, Registers { pc: post.registers.pc, ..pre.registers }, ))
            &&& (det_read16(pre.registers.pc) ==> post.registers.pc == bus_read16( pre, pre.registers.pc, ))
        },
        0xC4 => {
            &&& (post.wf())
            &&& (pre.cpu.ticks <= post.cpu.ticks <= pre.cpu.ticks + 24)
            &&& (det_read16(pre.registers.pc) && !(!spec_flag_set(pre.registers.f, FLAG_ZERO)) ==> post == (EmulatorV { registers: (Registers { pc: spec_inc16(spec_inc16(pre.registers.pc)), ..pre.registers }), cpu: (Cpu { ticks: (pre.cpu.ticks + 12) as u64, ..pre.cpu }), ..pre }))
            &&& (det_read16(pre.registers.pc) && !spec_flag_set(pre.registers.f, FLAG_ZERO) ==> call_cost_ok(with_regs(pre, (Registers { pc: spec_inc16(spec_inc16(pre.registers.pc)), ..pre.registers })), spec_inc16(spec_inc16(pre.registers.pc)), bus_read16(pre, pre.registers.pc), 24, post))
        },
        0xC5 => {
            &&& (post.wf())
            &&& (push16_ok(pre, pre.registers.spec_get_bc(), post))
            &&& (post.cpu == pre.cpu)
        },
        0xC6 => {
            &&& (post.wf())
            &&& (post == with_regs(pre, (Registers { a: post.registers.a, f: post.registers.f, pc: spec_inc16(pre.registers.pc), ..pre.registers })))
            &&& (det_read(pre.registers.pc) ==> post == with_regs(pre, spec_add_a((Registers { pc: spec_inc16(pre.registers.pc), ..pre.registers }), bus_read(pre, pre.registers.pc))))
        },
        0xC7 => {
            &&& (post.wf())
            &&& (post.cpu == pre.cpu)
            &&& (call_cost_ok(pre, pre.registers.pc, 0x0000, 0, post))
        },
        0xC8 => {
            &&& (post.wf())
            &&& (pre.cpu.ticks <= post.cpu.ticks <= pre.cpu.ticks + 24)
            &&& (post == (EmulatorV { registers: (Registers { pc: post.registers.pc, sp: post.registers.sp, ..pre.registers }), cpu: (Cpu { ticks: post.cpu.ticks, ..pre.cpu }), ..pre }))
            &&& (!(spec_flag_set(pre.registers.f, FLAG_ZERO)) ==> post == (EmulatorV { cpu: (Cpu { ticks: (pre.cpu.ticks + 8) as u64, ..pre.cpu }), ..pre }))
            &&& (spec_flag_set(pre.registers.f, FLAG_ZERO) ==> post.registers.sp == spec_inc16(spec_inc16(pre.registers.sp)) && post.cpu.ticks == pre.cpu.ticks + 20)
            &&& (spec_flag_set(pre.registers.f, FLAG_ZERO) && det_read16(pre.registers.sp) ==> post.registers.pc == bus_read16(pre, pre.registers.sp))
        },
        0xC9 => {
            &&& (post.wf())
            &&& (post == with_regs( pre, Registers { pc: post.registers.pc, sp: spec_inc16(spec_inc16(pre.registers.sp)), ..pre.registers }, ))
            &&& (det_read16(pre.registers.sp) ==> post.registers.pc == bus_read16( pre, pre.registers.sp, ))
        },
        0xCA => {
            &&& (post.wf())
            &&& (pre.cpu.ticks <= post.cpu.ticks <= pre.cpu.ticks + 24)
            &&& (post == (EmulatorV { registers: (Registers { pc: post.registers.pc, ..pre.registers }), cpu: (Cpu { ticks: post.cpu.ticks, ..pre.cpu }), ..pre }))
            &&& (det_read16(pre.registers.pc) ==> post == (if spec_flag_set(pre.registers.f, FLAG_ZERO) { (EmulatorV { registers: (Registers { pc: bus_read16(pre, pre.registers.pc), ..pre.registers }), cpu: (Cpu { ticks: (pre.cpu.ticks + 16) as u64, ..pre.cpu }), ..pre }) } else { (EmulatorV { registers: (Registers { pc: spec_inc16(spec_inc16(pre.registers.pc)), ..pre.registers }), cpu: (Cpu { ticks: (pre.cpu.ticks + 12) as u64, ..pre.cpu }), ..pre }) }))
        },
        0xCB => {
            &&& (post.wf())
            &&& (pre.cpu.ticks <= post.cpu.ticks <= pre.cpu.ticks + 24)
            &&& (det_read(pre.registers.pc) ==> post.cpu.ticks == pre.cpu.ticks + crate::cpu_cb::spec_extended_cycles(bus_read(pre, pre.registers.pc)))
            &&& (det_read(pre.registers.pc) ==> ({ let fetched = bus_read(pre, pre.registers.pc); let stepped = with_regs( pre, Registers { pc: spec_inc16(pre.registers.pc), ..pre.registers }, ); exists|mid: EmulatorV| { &&& #[trigger] crate::cpu_cb::exec_cb_ok(fetched, stepped, mid) &&& post == (EmulatorV { cpu: Cpu { ticks: (mid.cpu.ticks + crate::cpu_cb::spec_extended_cycles( fetched, )) as u64, ..mid.cpu }, ..mid }) } }))
        },
        0xCC => {
            &&& (post.wf())
            &&& (pre.cpu.ticks <= post.cpu.ticks <= pre.cpu.ticks + 24)
            &&& (det_read16(pre.registers.pc) && !(spec_flag_set(pre.registers.f, FLAG_ZERO)) ==> post == (EmulatorV { registers: (Registers { pc: spec_inc16(spec_inc16(pre.registers.pc)), ..pre.registers }), cpu: (Cpu { ticks: (pre.cpu.ticks + 12) as u64, ..pre.cpu }), ..pre }))
            &&& (det_read16(pre.registers.pc) && spec_flag_set(pre.registers.f, FLAG_ZERO) ==> call_cost_ok(with_regs(pre, (Registers { pc: spec_inc16(spec_inc16(pre.registers.pc)), ..pre.registers })), spec_inc16(spec_inc16(pre.registers.pc)), bus_read16(pre, pre.registers.pc), 24, post))
        },
        0xCD => {
            &&& (post.wf())
            &&& (post.cpu == pre.cpu)
            &&& (det_read16(pre.registers.pc) ==> call_cost_ok( with_regs( pre, Registers { pc: spec_inc16(spec_inc16(pre.registers.pc)), ..pre.registers }, ), spec_inc16(spec_inc16(pre.registers.pc)), bus_read16(pre, pre.registers.pc), 0, post, ))
        },
        0xCE => {
            &&& (post.wf())
            &&& (post == with_regs(pre, (Registers { a: post.registers.a, f: post.registers.f, pc: spec_inc16(pre.registers.pc), ..pre.registers })))
            &&& (det_read(pre.registers.pc) ==> post == with_regs(pre, spec_adc_a((Registers { pc: spec_inc16(pre.registers.pc), ..pre.registers }), bus_read(pre, pre.registers.pc))))
        },
        0xCF => {
            &&& (post.wf())
            &&& (post.cpu == pre.cpu)
            &&& (call_cost_ok(pre, pre.registers.pc, 0x0008, 0, post))
        },
        0xD0 => {
            &&& (post.wf())
            &&& (pre.cpu.ticks <= post.cpu.ticks <= pre.cpu.ticks + 24)
            &&& (post == (EmulatorV { registers: (Registers { pc: post.registers.pc, sp: post.registers.sp, ..pre.registers }), cpu: (Cpu { ticks: post.cpu.ticks, ..pre.cpu }), ..pre }))
            &&& (!(!spec_flag_set(pre.registers.f, FLAG_CARRY)) ==> post == (EmulatorV { cpu: (Cpu { ticks: (pre.cpu.ticks + 8) as u64, ..pre.cpu }), ..pre }))
            &&& (!spec_flag_set(pre.registers.f, FLAG_CARRY) ==> post.registers.sp == spec_inc16(spec_inc16(pre.registers.sp)) && post.cpu.ticks == pre.cpu.ticks + 20)
            &&& (!spec_flag_set(pre.registers.f, FLAG_CARRY) && det_read16(pre.registers.sp) ==> post.registers.pc == bus_read16(pre, pre.registers.sp))
        },
        0xD1 => {
            &&& (post.wf())
            &&& (post == with_regs(pre, (Registers { d: post.registers.d, e: post.registers.e, sp: spec_inc16(spec_inc16(pre.registers.sp)), ..pre.registers })))
            &&& (det_read16(pre.registers.sp) ==> post.registers == (Registers { d: spec_high_byte(bus_read16(pre, pre.registers.sp)), e: spec_low_byte(bus_read16(pre, pre.registers.sp)), sp: spec_inc16(spec_inc16(pre.registers.sp)), ..pre.registers }))
        },
        0xD2 => {
            &&& (post.wf())
            &&& (pre.cpu.ticks <= post.cpu.ticks <= pre.cpu.ticks + 24)
            &&& (post == (EmulatorV { registers: (Registers { pc: post.registers.pc, ..pre.registers }), cpu: (Cpu { ticks: post.cpu.ticks, ..pre.cpu }), ..pre }))
            &&& (det_read16(pre.registers.pc) ==> post == (if !spec_flag_set(pre.registers.f, FLAG_CARRY) { (EmulatorV { registers: (Registers { pc: bus_read16(pre, pre.registers.pc), ..pre.registers }), cpu: (Cpu { ticks: (pre.cpu.ticks + 16) as u64, ..pre.cpu }), ..pre }) } else { (EmulatorV { registers: (Registers { pc: spec_inc16(spec_inc16(pre.registers.pc)), ..pre.registers }), cpu: (Cpu { ticks: (pre.cpu.ticks + 12) as u64, ..pre.cpu }), ..pre }) }))
        },
        0xD3 => {
            &&& (post.wf())
            &&& (post == with_regs(pre, (Registers { pc: spec_dec16(pre.registers.pc), ..pre.registers })))
        },
        0xD4 => {
            &&& (post.wf())
            &&& (pre.cpu.ticks <= post.cpu.ticks <= pre.cpu.ticks + 24)
            &&& (det_read16(pre.registers.pc) && !(!spec_flag_set(pre.registers.f, FLAG_CARRY)) ==> post == (EmulatorV { registers: (Registers { pc: spec_inc16(spec_inc16(pre.registers.pc)), ..pre.registers }), cpu: (Cpu { ticks: (pre.cpu.ticks + 12) as u64, ..pre.cpu }), ..pre }))
            &&& (det_read16(pre.registers.pc) && !spec_flag_set(pre.registers.f, FLAG_CARRY) ==> call_cost_ok(with_regs(pre, (Registers { pc: spec_inc16(spec_inc16(pre.registers.pc)), ..pre.registers })), spec_inc16(spec_inc16(pre.registers.pc)), bus_read16(pre, pre.registers.pc), 24, post))
        },
        0xD5 => {
            &&& (post.wf())
            &&& (push16_ok(pre, pre.registers.spec_get_de(), post))
            &&& (post.cpu == pre.cpu)
        },
        0xD6 => {
            &&& (post.wf())
            &&& (post == with_regs(pre, (Registers { a: post.registers.a, f: post.registers.f, pc: spec_inc16(pre.registers.pc), ..pre.registers })))
            &&& (det_read(pre.registers.pc) ==> post == with_regs(pre, spec_sub_a((Registers { pc: spec_inc16(pre.registers.pc), ..pre.registers }), bus_read(pre, pre.registers.pc))))
        },
        0xD7 => {
            &&& (post.wf())
            &&& (post.cpu == pre.cpu)
            &&& (call_cost_ok(pre, pre.registers.pc, 0x0010, 0, post))
        },
        0xD8 => {
            &&& (post.wf())
            &&& (pre.cpu.ticks <= post.cpu.ticks <= pre.cpu.ticks + 24)
            &&& (post == (EmulatorV { registers: (Registers { pc: post.registers.pc, sp: post.registers.sp, ..pre.registers }), cpu: (Cpu { ticks: post.cpu.ticks, ..pre.cpu }), ..pre }))
            &&& (!(spec_flag_set(pre.registers.f, FLAG_CARRY)) ==> post == (EmulatorV { cpu: (Cpu { ticks: (pre.cpu.ticks + 8) as u64, ..pre.cpu }), ..pre }))
            &&& (spec_flag_set(pre.registers.f, FLAG_CARRY) ==> post.registers.sp == spec_inc16(spec_inc16(pre.registers.sp)) && post.cpu.ticks == pre.cpu.ticks + 20)
            &&& (spec_flag_set(pre.registers.f, FLAG_CARRY) && det_read16(pre.registers.sp) ==> post.registers.pc == bus_read16(pre, pre.registers.sp))
        },
        0xD9 => {
            &&& (post.wf())
            &&& (post == (EmulatorV { interrupt: Interrupt { master: 1, ..pre.interrupt }, registers: Registers { pc: post.registers.pc, sp: spec_inc16(spec_inc16(pre.registers.sp)), ..pre.registers }, ..pre }))
            &&& (det_read16(pre.registers.sp) ==> post.registers.pc == bus_read16( pre, pre.registers.sp, ))
        },
        0xDA => {
            &&& (post.wf())
            &&& (pre.cpu.ticks <= post.cpu.ticks <= pre.cpu.ticks + 24)
            &&& (post == (EmulatorV { registers: (Registers { pc: post.registers.pc, ..pre.registers }), cpu: (Cpu { ticks: post.cpu.ticks, ..pre.cpu }), ..pre }))
            &&& (det_read16(pre.registers.pc) ==> post == (if spec_flag_set(pre.registers.f, FLAG_CARRY) { (EmulatorV { registers: (Registers { pc: bus_read16(pre, pre.registers.pc), ..pre.registers }), cpu: (Cpu { ticks: (pre.cpu.ticks + 16) as u64, ..pre.cpu }), ..pre }) } else { (EmulatorV { registers: (Registers { pc: spec_inc16(spec_inc16(pre.registers.pc)), ..pre.registers }), cpu: (Cpu { ticks: (pre.cpu.ticks + 12) as u64, ..pre.cpu }), ..pre }) }))
        },
        0xDB => {
            &&& (post.wf())
            &&& (post == with_regs(pre, (Registers { pc: spec_dec16(pre.registers.pc), ..pre.registers })))
        },
        0xDC => {
            &&& (post.wf())
            &&& (pre.cpu.ticks <= post.cpu.ticks <= pre.cpu.ticks + 24)
            &&& (det_read16(pre.registers.pc) && !(spec_flag_set(pre.registers.f, FLAG_CARRY)) ==> post == (EmulatorV { registers: (Registers { pc: spec_inc16(spec_inc16(pre.registers.pc)), ..pre.registers }), cpu: (Cpu { ticks: (pre.cpu.ticks + 12) as u64, ..pre.cpu }), ..pre }))
            &&& (det_read16(pre.registers.pc) && spec_flag_set(pre.registers.f, FLAG_CARRY) ==> call_cost_ok(with_regs(pre, (Registers { pc: spec_inc16(spec_inc16(pre.registers.pc)), ..pre.registers })), spec_inc16(spec_inc16(pre.registers.pc)), bus_read16(pre, pre.registers.pc), 24, post))
        },
        0xDD => {
            &&& (post.wf())
            &&& (post == with_regs(pre, (Registers { pc: spec_dec16(pre.registers.pc), ..pre.registers })))
        },
        0xDE => {
            &&& (post.wf())
            &&& (post == with_regs(pre, (Registers { a: post.registers.a, f: post.registers.f, pc: spec_inc16(pre.registers.pc), ..pre.registers })))
            &&& (det_read(pre.registers.pc) ==> post == with_regs(pre, spec_sbc_a((Registers { pc: spec_inc16(pre.registers.pc), ..pre.registers }), bus_read(pre, pre.registers.pc))))
        },
        0xDF => {
            &&& (post.wf())
            &&& (post.cpu == pre.cpu)
            &&& (call_cost_ok(pre, pre.registers.pc, 0x0018, 0, post))
        },
        0xE0 => {
            &&& (post.wf())
            &&& (post.cpu == pre.cpu)
            &&& (post.registers == (Registers { pc: spec_inc16(pre.registers.pc), ..pre.registers }))
            &&& (det_read(pre.registers.pc) ==> bus_write_ok(with_regs(pre, (Registers { pc: spec_inc16(pre.registers.pc), ..pre.registers })), (0xFF00 + bus_read(pre, pre.registers.pc)) as u16, pre.registers.a, post))
        },
        0xE1 => {
            &&& (post.wf())
            &&& (post == with_regs(pre, (Registers { h: post.registers.h, l: post.registers.l, sp: spec_inc16(spec_inc16(pre.registers.sp)), ..pre.registers })))
            &&& (det_read16(pre.registers.sp) ==> post.registers == (Registers { h: spec_high_byte(bus_read16(pre, pre.registers.sp)), l: spec_low_byte(bus_read16(pre, pre.registers.sp)), sp: spec_inc16(spec_inc16(pre.registers.sp)), ..pre.registers }))
        },
        0xE2 => {
            &&& (post.wf())
            &&& (bus_write_ok(pre, (0xFF00 + pre.registers.c) as u16, pre.registers.a, post))
            &&& (post.cpu == pre.cpu)
            &&& (post.registers == pre.registers)
        },
        0xE3 => {
            &&& (post.wf())
            &&& (post == with_regs(pre, (Registers { pc: spec_dec16(pre.registers.pc), ..pre.registers })))
        },
        0xE4 => {
            &&& (post.wf())
            &&& (post == with_regs(pre, (Registers { pc: spec_dec16(pre.registers.pc), ..pre.registers })))
        },
        0xE5 => {
            &&& (post.wf())
            &&& (push16_ok(pre, pre.registers.spec_get_hl(), post))
            &&& (post.cpu == pre.cpu)
        },
        0xE6 => {
            &&& (post.wf())
            &&& (post == with_regs(pre, (Registers { a: post.registers.a, f: post.registers.f, pc: spec_inc16(pre.registers.pc), ..pre.registers })))
            &&& (det_read(pre.registers.pc) ==> post == with_regs(pre, spec_and_a((Registers { pc: spec_inc16(pre.registers.pc), ..pre.registers }), bus_read(pre, pre.registers.pc))))
        },
        0xE7 => {
            &&& (post.wf())
            &&& (post.cpu == pre.cpu)
            &&& (call_cost_ok(pre, pre.registers.pc, 0x0020, 0, post))
        },
        0xE8 => {
            &&& (post.wf())
            &&& (post == with_regs(pre, (Registers { sp: post.registers.sp, f: post.registers.f, pc: spec_inc16(pre.registers.pc), ..pre.registers })))
            &&& (det_read(pre.registers.pc) ==> post.registers == (Registers { sp: spec_signed_add16(pre.registers.sp, bus_read(pre, pre.registers.pc)), f: spec_flags(false, false, (pre.registers.sp & 0x0F) + (bus_read(pre, pre.registers.pc) & 0x0F) > 0x0F, (pre.registers.sp & 0xFF) + bus_read(pre, pre.registers.pc) > 0xFF), pc: spec_inc16(pre.registers.pc), ..pre.registers }))
        },
        0xE9 => {
            &&& (post.wf())
            &&& (post == with_regs(pre, (Registers { pc: pre.registers.spec_get_hl(), ..pre.registers })))
        },
        0xEA => {
            &&& (post.wf())
            &&& (post.cpu == pre.cpu)
            &&& (post.registers == (Registers { pc: spec_inc16(spec_inc16(pre.registers.pc)), ..pre.registers }))
            &&& (det_read16(pre.registers.pc) ==> bus_write_ok(with_regs(pre, (Registers { pc: spec_inc16(spec_inc16(pre.registers.pc)), ..pre.registers })), bus_read16(pre, pre.registers.pc), pre.registers.a, post))
        },
        0xEB => {
            &&& (post.wf())
            &&& (post == with_regs(pre, (Registers { pc: spec_dec16(pre.registers.pc), ..pre.registers })))
        },
        0xEC => {
            &&& (post.wf())
            &&& (post == with_regs(pre, (Registers { pc: spec_dec16(pre.registers.pc), ..pre.registers })))
        },
        0xED => {
            &&& (post.wf())
            &&& (post == with_regs(pre, (Registers { pc: spec_dec16(pre.registers.pc), ..pre.registers })))
        },
        0xEE => {
            &&& (post.wf())
            &&& (post == with_regs(pre, (Registers { a: post.registers.a, f: post.registers.f, pc: spec_inc16(pre.registers.pc), ..pre.registers })))
            &&& (det_read(pre.registers.pc) ==> post == with_regs(pre, spec_xor_a((Registers { pc: spec_inc16(pre.registers.pc), ..pre.registers }), bus_read(pre, pre.registers.pc))))
        },
        0xEF => {
            &&& (post.wf())
            &&& (post.cpu == pre.cpu)
            &&& (call_cost_ok(pre, pre.registers.pc, 0x0028, 0, post))
        },
        0xF0 => {
            &&& (post.wf())
            &&& (post == with_regs(pre, (Registers { a: post.registers.a, pc: spec_inc16(pre.registers.pc), ..pre.registers })))
            &&& (det_read(pre.registers.pc) && det_read((0xFF00 + bus_read(pre, pre.registers.pc)) as u16) ==> post.registers.a == bus_read(pre, (0xFF00 + bus_read(pre, pre.registers.pc)) as u16))
        },
        0xF1 => {
            &&& (post.wf())
            &&& (post == with_regs(pre, (Registers { a: post.registers.a, f: post.registers.f, sp: spec_inc16(spec_inc16(pre.registers.sp)), ..pre.registers })))
            &&& (det_read16(pre.registers.sp) ==> post.registers == (Registers { a: spec_high_byte(bus_read16(pre, pre.registers.sp)), f: spec_low_byte(bus_read16(pre, pre.registers.sp)), sp: spec_inc16(spec_inc16(pre.registers.sp)), ..pre.registers }))
        },
        0xF2 => {
            &&& (post.wf())
            &&& (post == with_regs(pre, (Registers { a: post.registers.a, ..pre.registers })))
            &&& (det_read((0xFF00 + pre.registers.c) as u16) ==> post.registers.a == bus_read(pre, (0xFF00 + pre.registers.c) as u16))
        },
        0xF3 => {
            &&& (post.wf())
            &&& (post == (EmulatorV { interrupt: (Interrupt { master: 0, ..pre.interrupt }), ..pre }))
        },
        0xF4 => {
            &&& (post.wf())
            &&& (post == with_regs(pre, (Registers { pc: spec_dec16(pre.registers.pc), ..pre.registers })))
        },
        0xF5 => {
            &&& (post.wf())
            &&& (push16_ok(pre, pre.registers.spec_get_af(), post))
            &&& (post.cpu == pre.cpu)
        },
        0xF6 => {
            &&& (post.wf())
            &&& (post == with_regs(pre, (Registers { a: post.registers.a, f: post.registers.f, pc: spec_inc16(pre.registers.pc), ..pre.registers })))
            &&& (det_read(pre.registers.pc) ==> post == with_regs(pre, spec_or_a((Registers { pc: spec_inc16(pre.registers.pc), ..pre.registers }), bus_read(pre, pre.registers.pc))))
        },
        0xF7 => {
            &&& (post.wf())
            &&& (post.cpu == pre.cpu)
            &&& (call_cost_ok(pre, pre.registers.pc, 0x0030, 0, post))
        },
        0xF8 => {
            &&& (post.wf())
            &&& (post == with_regs(pre, (Registers { h: post.registers.h, l: post.registers.l, f: post.registers.f, pc: spec_inc16(pre.registers.pc), ..pre.registers })))
            &&& (det_read(pre.registers.pc) ==> post.registers == (Registers { h: spec_high_byte(spec_signed_add16(pre.registers.sp, bus_read(pre, pre.registers.pc))), l: spec_low_byte(spec_signed_add16(pre.registers.sp, bus_read(pre, pre.registers.pc))), f: spec_flags(false, false, (pre.registers.sp & 0x0F) + (bus_read(pre, pre.registers.pc) & 0x0F) > 0x0F, (pre.registers.sp & 0xFF) + bus_read(pre, pre.registers.pc) > 0xFF), pc: spec_inc16(pre.registers.pc), ..pre.registers }))
        },
        0xF9 => {
            &&& (post.wf())
            &&& (post == with_regs(pre, (Registers { sp: pre.registers.spec_get_hl(), ..pre.registers })))
        },
        0xFA => {
            &&& (post.wf())
            &&& (post == with_regs(pre, (Registers { a: post.registers.a, pc: spec_inc16(spec_inc16(pre.registers.pc)), ..pre.registers })))
            &&& (det_read16(pre.registers.pc) && det_read(bus_read16(pre, pre.registers.pc)) ==> post.registers.a == bus_read(pre, bus_read16(pre, pre.registers.pc)))
        },
        0xFB => {
            &&& (post.wf())
            &&& (post == (EmulatorV { interrupt: (Interrupt { master: 1, ..pre.interrupt }), ..pre }))
        },
        0xFC => {
            &&& (post.wf())
            &&& (post == with_regs(pre, (Registers { pc: spec_dec16(pre.registers.pc), ..pre.registers })))
        },
        0xFD => {
            &&& (post.wf())
            &&& (post == with_regs(pre, (Registers { pc: spec_dec16(pre.registers.pc), ..pre.registers })))
        },
        0xFE => {
            &&& (post.wf())
            &&& (post == with_regs(pre, (Registers { a: post.registers.a, f: post.registers.f, pc: spec_inc16(pre.registers.pc), ..pre.registers })))
            &&& (det_read(pre.registers.pc) ==> post == with_regs(pre, spec_cp_a((Registers { pc: spec_inc16(pre.registers.pc), ..pre.registers }), bus_read(pre, pre.registers.pc))))
        },
        _ => {
            &&& (post.wf())
            &&& (post.cpu == pre.cpu)
            &&& (call_cost_ok(pre, pre.registers.pc, 0x0038, 0, post))
        },
    }
}

/// Decodes one base-table opcode and runs its operation against the
/// shared state exactly once; `exec_ok` states the exact effect per
/// opcode.
pub fn execute(e: &mut Emulator, opcode: u8)
    requires
        old(e).wf(),
        old(e)@.cpu.ticks + 24 <= u64::MAX,
    ensures
        final(e).wf(),
        old(e)@.cpu.ticks <= final(e)@.cpu.ticks <= old(e)@.cpu.ticks + 24,
        exec_ok(opcode, old(e)@, final(e)@),
{
    match opcode {
        0x00 => nop(e),
        0x01 => ld_bc_nn(e),
        0x02 => ld_bcp_a(e),
        0x03 => inc_bc(e),
        0x04 => inc_b(e),
        0x05 => dec_b(e),
        0x06 => ld_b_n(e),
        0x07 => rlca(e),
        0x08 => ld_nnp_sp(e),
        0x09 => add_hl_bc(e),
        0x0A => ld_a_bcp(e),
        0x0B => dec_bc(e),
        0x0C => inc_c(e),
        0x0D => dec_c(e),
        0x0E => ld_c_n(e),
        0x0F => rrca(e),
        0x10 => stop(e),
        0x11 => ld_de_nn(e),
        0x12 => ld_dep_a(e),
        0x13 => inc_de(e),
        0x14 => inc_d(e),
        0x15 => dec_d(e),
        0x16 => ld_d_n(e),
        0x17 => rla(e),
        0x18 => jr_n(e),
        0x19 => add_hl_de(e),
        0x1A => ld_a_dep(e),
        0x1B => dec_de(e),
        0x1C => inc_e(e),
        0x1D => dec_e(e),
        0x1E => ld_e_n(e),
        0x1F => rra(e),
        0x20 => jr_nz_n(e),
        0x21 => ld_hl_nn(e),
        0x22 => ldi_hlp_a(e),
        0x23 => inc_hl(e),
        0x24 => inc_h(e),
        0x25 => dec_h(e),
        0x26 => ld_h_n(e),
        0x27 => daa(e),
        0x28 => jr_z_n(e),
        0x29 => add_hl_hl(e),
        0x2A => ldi_a_hlp(e),
        0x2B => dec_hl(e),
        0x2C => inc_l(e),
        0x2D => dec_l(e),
        0x2E => ld_l_n(e),
        0x2F => cpl(e),
        0x30 => jr_nc_n(e),
        0x31 => ld_sp_nn(e),
        0x32 => ldd_hlp_a(e),
        0x33 => inc_sp(e),
        0x34 => inc_hlp(e),
        0x35 => dec_hlp(e),
        0x36 => ld_hlp_n(e),
        0x37 => scf(e),
        0x38 => jr_c_n(e),
        0x39 => add_hl_sp(e),
        0x3A => ldd_a_hlp(e),
        0x3B => dec_sp(e),
        0x3C => inc_a(e),
        0x3D => dec_a(e),
        0x3E => ld_a_n(e),
        0x3F => ccf(e),
        0x40 => nop(e),
        0x41 => ld_b_c(e),
        0x42 => ld_b_d(e),
        0x43 => ld_b_e(e),
        0x44 => ld_b_h(e),
        0x45 => ld_b_l(e),
        0x46 => ld_b_hlp(e),
        0x47 => ld_b_a(e),
        0x48 => ld_c_b(e),
        0x49 => nop(e),
        0x4A => ld_c_d(e),
        0x4B => ld_c_e(e),
        0x4C => ld_c_h(e),
        0x4D => ld_c_l(e),
        0x4E => ld_c_hlp(e),
        0x4F => ld_c_a(e),
        0x50 => ld_d_b(e),
        0x51 => ld_d_c(e),
        0x52 => nop(e),
        0x53 => ld_d_e(e),
        0x54 => ld_d_h(e),
        0x55 => ld_d_l(e),
        0x56 => ld_d_hlp(e),
        0x57 => ld_d_a(e),
        0x58 => ld_e_b(e),
        0x59 => ld_e_c(e),
        0x5A => ld_e_d(e),
        0x5B => nop(e),
        0x5C => ld_e_h(e),
        0x5D => ld_e_l(e),
        0x5E => ld_e_hlp(e),
        0x5F => ld_e_a(e),
        0x60 => ld_h_b(e),
        0x61 => ld_h_c(e),
        0x62 => ld_h_d(e),
        0x63 => ld_h_e(e),
        0x64 => nop(e),
        0x65 => ld_h_l(e),
        0x66 => ld_h_hlp(e),
        0x67 => ld_h_a(e),
        0x68 => ld_l_b(e),
        0x69 => ld_l_c(e),
        0x6A => ld_l_d(e),
        0x6B => ld_l_e(e),
        0x6C => ld_l_h(e),
        0x6D => nop(e),
        0x6E => ld_l_hlp(e),
        0x6F => ld_l_a(e),
        0x70 => ld_hlp_b(e),
        0x71 => ld_hlp_c(e),
        0x72 => ld_hlp_d(e),
        0x73 => ld_hlp_e(e),
        0x74 => ld_hlp_h(e),
        0x75 => ld_hlp_l(e),
        0x76 => halt(e),
        0x77 => ld_hlp_a(e),
        0x78 => ld_a_b(e),
        0x79 => ld_a_c(e),
        0x7A => ld_a_d(e),
        0x7B => ld_a_e(e),
        0x7C => ld_a_h(e),
        0x7D => ld_a_l(e),
        0x7E => ld_a_hlp(e),
        0x7F => nop(e),
        0x80 => add_a_b(e),
        0x81 => add_a_c(e),
        0x82 => add_a_d(e),
        0x83 => add_a_e(e),
        0x84 => add_a_h(e),
        0x85 => add_a_l(e),
        0x86 => add_a_hlp(e),
        0x87 => add_a_a(e),
        0x88 => adc_b(e),
        0x89 => adc_c(e),
        0x8A => adc_d(e),
        0x8B => adc_e(e),
        0x8C => adc_h(e),
        0x8D => adc_l(e),
        0x8E => adc_hlp(e),
        0x8F => adc_a(e),
        0x90 => sub_b(e),
        0x91 => sub_c(e),
        0x92 => sub_d(e),
        0x93 => sub_e(e),
        0x94 => sub_h(e),
        0x95 => sub_l(e),
        0x96 => sub_hlp(e),
        0x97 => sub_a(e),
        0x98 => sbc_b(e),
        0x99 => sbc_c(e),
        0x9A => sbc_d(e),
        0x9B => sbc_e(e),
        0x9C => sbc_h(e),
        0x9D => sbc_l(e),
        0x9E => sbc_hlp(e),
        0x9F => sbc_a(e),
        0xA0 => and_b(e),
        0xA1 => and_c(e),
        0xA2 => and_d(e),
        0xA3 => and_e(e),
        0xA4 => and_h(e),
        0xA5 => and_l(e),
        0xA6 => and_hlp(e),
        0xA7 => and_a(e),
        0xA8 => xor_b(e),
        0xA9 => xor_c(e),
        0xAA => xor_d(e),
        0xAB => xor_e(e),
        0xAC => xor_h(e),
        0xAD => xor_l(e),
        0xAE => xor_hlp(e),
        0xAF => xor_a(e),
        0xB0 => or_b(e),
        0xB1 => or_c(e),
        0xB2 => or_d(e),
        0xB3 => or_e(e),
        0xB4 => or_h(e),
        0xB5 => or_l(e),
        0xB6 => or_hlp(e),
        0xB7 => or_a(e),
        0xB8 => cp_b(e),
        0xB9 => cp_c(e),
        0xBA => cp_d(e),
        0xBB => cp_e(e),
        0xBC => cp_h(e),
        0xBD => cp_l(e),
        0xBE => cp_hlp(e),
        0xBF => cp_a(e),
        0xC0 => ret_nz(e),
        0xC1 => pop_bc(e),
        0xC2 => jp_nz_nn(e),
        0xC3 => jp_nn(e),
        0xC4 => call_nz_nn(e),
        0xC5 => push_bc(e),
        0xC6 => add_a_n(e),
        0xC7 => rst_0(e),
        0xC8 => ret_z(e),
        0xC9 => ret(e),
        0xCA => jp_z_nn(e),
        0xCB => cpu_cb_n(e),
        0xCC => call_z_nn(e),
        0xCD => call_nn(e),
        0xCE => adc_n(e),
        0xCF => rst_08(e),
        0xD0 => ret_nc(e),
        0xD1 => pop_de(e),
        0xD2 => jp_nc_nn(e),
        0xD3 => undefined(e),
        0xD4 => call_nc_nn(e),
        0xD5 => push_de(e),
        0xD6 => sub_n(e),
        0xD7 => rst_10(e),
        0xD8 => ret_c(e),
        0xD9 => e.return_from_interrupt(),
        0xDA => jp_c_nn(e),
        0xDB => undefined(e),
        0xDC => call_c_nn(e),
        0xDD => undefined(e),
        0xDE => sbc_n(e),
        0xDF => rst_18(e),
        0xE0 => ld_ff_n_ap(e),
        0xE1 => pop_hl(e),
        0xE2 => ld_ff_c_a(e),
        0xE3 => undefined(e),
        0xE4 => undefined(e),
        0xE5 => push_hl(e),
        0xE6 => and_n(e),
        0xE7 => rst_20(e),
        0xE8 => add_sp_n(e),
        0xE9 => jp_hl(e),
        0xEA => ld_nnp_a(e),
        0xEB => undefined(e),
        0xEC => undefined(e),
        0xED => undefined(e),
        0xEE => xor_n(e),
        0xEF => rst_28(e),
        0xF0 => ld_ff_ap_n(e),
        0xF1 => pop_af(e),
        0xF2 => ld_a_ff_c(e),
        0xF3 => di_inst(e),
        0xF4 => undefined(e),
        0xF5 => push_af(e),
        0xF6 => or_n(e),
        0xF7 => rst_30(e),
        0xF8 => ld_hl_sp_n(e),
        0xF9 => ld_sp_hl(e),
        0xFA => ld_a_nnp(e),
        0xFB => ei(e),
        0xFC => undefined(e),
        0xFD => undefined(e),
        0xFE => cp_n(e),
        _ => rst_38(e),
    }
}

/// One dispatcher step as a relation: while stopped nothing happens;
/// otherwise the opcode byte fetched at the program counter is
/// executed exactly once against the state with the counter already
/// advanced past it, and the table's cycle cost is then added to the
/// ticks the operation itself spent.
pub open spec fn run_next_ok(pre: EmulatorV, post: EmulatorV) -> bool {
    &&& (pre.cpu.stopped ==> post == pre)
    &&& pre.cpu.ticks <= post.cpu.ticks <= pre.cpu.ticks + 64
    &&& (!pre.cpu.stopped && det_read(pre.registers.pc) ==> ({
        let fetched = bus_read(pre, pre.registers.pc);
        let stepped = with_regs(
            pre,
            Registers { pc: spec_inc16(pre.registers.pc), ..pre.registers },
        );
        exists|mid: EmulatorV|
            {
                &&& #[trigger] exec_ok(fetched, stepped, mid)
                &&& post == (EmulatorV {
                    cpu: Cpu {
                        ticks: (mid.cpu.ticks + spec_base_cycles(fetched)) as u64,
                        ..mid.cpu
                    },
                    ..mid
                })
            }
    }))
}

/// One dispatcher step: does nothing while stopped; otherwise
/// fetches the byte at the program counter, advances it, executes
/// the operation, and adds the table's cycle cost to the tick
/// counter.
pub fn run_next(e: &mut Emulator)
    requires
        old(e).wf(),
        old(e)@.cpu.ticks + 64 <= u64::MAX,
    ensures
        final(e).wf(),
        run_next_ok(old(e)@, final(e)@),
{
    if e.cpu.stopped {
        return ;
    }
    let opcode = e.read_next_byte();
    execute(e, opcode);
    let ghost mid = e@;
    let cost = base_cycles(opcode);
    e.cpu.ticks = e.cpu.ticks + cost as u64;
    proof {
        if det_read(old(e)@.registers.pc) {
            let fetched = bus_read(old(e)@, old(e)@.registers.pc);
            let stepped = with_regs(
                old(e)@,
                Registers { pc: spec_inc16(old(e)@.registers.pc), ..old(e)@.registers },
            );
            assert(exec_ok(fetched, stepped, mid));
            assert(e@ =~= (EmulatorV {
                cpu: Cpu {
                    ticks: (mid.cpu.ticks + spec_base_cycles(fetched)) as u64,
                    ..mid.cpu
                },
                ..mid
            }));
        }
    }
}

/// The two-byte escape 0xCB: fetches the second opcode byte —
/// advancing the program counter past it — dispatches it through the
/// extended table exactly once, and adds that table's own cycle
/// cost.
pub fn cpu_cb_n(e: &mut Emulator)
    requires
        old(e).wf(),
        old(e)@.cpu.ticks + 24 <= u64::MAX,
    ensures
        final(e).wf(),
        old(e)@.cpu.ticks <= final(e)@.cpu.ticks <= old(e)@.cpu.ticks + 24,
        det_read(old(e)@.registers.pc) ==> final(e)@.cpu.ticks == old(e)@.cpu.ticks
            + crate::cpu_cb::spec_extended_cycles(bus_read(old(e)@, old(e)@.registers.pc)),
        det_read(old(e)@.registers.pc) ==> ({
            let fetched = bus_read(old(e)@, old(e)@.registers.pc);
            let stepped = with_regs(
                old(e)@,
                Registers { pc: spec_inc16(old(e)@.registers.pc), ..old(e)@.registers },
            );
            exists|mid: EmulatorV|
                {
                    &&& #[trigger] crate::cpu_cb::exec_cb_ok(fetched, stepped, mid)
                    &&& final(e)@ == (EmulatorV {
                        cpu: Cpu {
                            ticks: (mid.cpu.ticks + crate::cpu_cb::spec_extended_cycles(
                                fetched,
                            )) as u64,
                            ..mid.cpu
                        },
                        ..mid
                    })
                }
        }),
{
    let opcode = e.read_next_byte();
    crate::cpu_cb::execute_extended(e, opcode);
    let ghost mid = e@;
    let cost = crate::cpu_cb::extended_cycles(opcode);
    e.cpu.ticks = e.cpu.ticks + cost as u64;
    proof {
        if det_read(old(e)@.registers.pc) {
            assert(crate::cpu_cb::exec_cb_ok(
                bus_read(old(e)@, old(e)@.registers.pc),
                with_regs(
                    old(e)@,
                    Registers { pc: spec_inc16(old(e)@.registers.pc), ..old(e)@.registers },
                ),
                mid,
            ));
            assert(e@ =~= (EmulatorV {
                cpu: Cpu {
                    ticks: (mid.cpu.ticks + crate::cpu_cb::spec_extended_cycles(
                        bus_read(old(e)@, old(e)@.registers.pc),
                    )) as u64,
                    ..mid.cpu
                },
                ..mid
            }));
        }
    }
}

} // verus!
