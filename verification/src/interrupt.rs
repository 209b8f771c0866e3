//! Interrupt controller state: the master-enable flag, the per-source
//! enable mask and the per-source pending mask.
//!
//! Dispatching itself lives with the aggregate emulator state, since
//! vectoring pushes the program counter through the memory bus.

use vstd::prelude::*;
use crate::emulator::{Emulator, EmulatorV};
use crate::memory::{bus_read16, det_read16, push16_ok, spec_bus_write, spec_dma_ok, bus_write_ok};
use crate::registers::{Registers, spec_dec16, spec_inc16};
use crate::cpu::Cpu;

verus! {

pub const INTERRUPT_VBLANK: u8 = 0x01;
pub const INTERRUPT_LCDSTAT: u8 = 0x02;
pub const INTERRUPT_TIMER: u8 = 0x04;
pub const INTERRUPT_SERIAL: u8 = 0x08;
pub const INTERRUPT_JOYPAD: u8 = 0x10;

/// A source's handler fires only when `master`, its `enable` bit and
/// its `flags` (pending) bit are all set.
#[derive(Clone, Copy, Debug, PartialEq, Eq, Structural)]
pub struct Interrupt {
    pub master: u8,
    pub enable: u8,
    pub flags: u8,
}

impl Interrupt {
    /// Power-on state: master enabled, nothing enabled or pending.
    pub open spec fn spec_boot() -> Interrupt {
        Interrupt { master: 1, enable: 0, flags: 0 }
    }

    pub fn new() -> (r: Interrupt)
        ensures
            r == Interrupt::spec_boot(),
    {
        Interrupt { master: 1, enable: 0, flags: 0 }
    }

    pub fn reset(&mut self)
        ensures
            *final(self) == Interrupt::spec_boot(),
    {
        self.master = 1;
        self.enable = 0;
        self.flags = 0;
    }
}

/// The highest-priority bit among the enabled-and-pending sources:
/// V-blank before LCD-stat before timer before serial before joypad;
/// 0 when none of the five is set.
pub open spec fn spec_first_pending(enabled: u8) -> u8 {
    if enabled & INTERRUPT_VBLANK != 0 {
        INTERRUPT_VBLANK
    } else if enabled & INTERRUPT_LCDSTAT != 0 {
        INTERRUPT_LCDSTAT
    } else if enabled & INTERRUPT_TIMER != 0 {
        INTERRUPT_TIMER
    } else if enabled & INTERRUPT_SERIAL != 0 {
        INTERRUPT_SERIAL
    } else if enabled & INTERRUPT_JOYPAD != 0 {
        INTERRUPT_JOYPAD
    } else {
        0
    }
}

/// Each source's fixed handler address.
pub open spec fn spec_vector(bit: u8) -> u16 {
    if bit == INTERRUPT_VBLANK {
        0x40
    } else if bit == INTERRUPT_LCDSTAT {
        0x48
    } else if bit == INTERRUPT_TIMER {
        0x50
    } else if bit == INTERRUPT_SERIAL {
        0x58
    } else if bit == INTERRUPT_JOYPAD {
        0x60
    } else {
        0
    }
}

/// What firing one source does, starting from the state in which its
/// pending bit is already cleared: the master flag drops, the program
/// counter is pushed onto the stack through the bus, the counter is
/// vectored, and the fixed 12-cycle dispatch cost is added.
pub open spec fn spec_fire_ok(pre: EmulatorV, vector: u16, post: EmulatorV) -> bool {
    let dropped = EmulatorV { interrupt: Interrupt { master: 0, ..pre.interrupt }, ..pre };
    exists|mid: EmulatorV|
        {
            &&& #[trigger] push16_ok(dropped, pre.registers.pc, mid)
            &&& post == (EmulatorV {
                registers: Registers { pc: vector, ..mid.registers },
                cpu: Cpu { ticks: (mid.cpu.ticks + 12) as u64, ..mid.cpu },
                ..mid
            })
        }
}

/// One controller step: a no-op unless the master flag, the enable
/// mask and the pending mask are all non-zero and share a set source
/// bit; otherwise exactly the highest-priority enabled-and-pending
/// source fires, and its pending bit alone is cleared first.
pub open spec fn interrupt_step_ok(pre: EmulatorV, post: EmulatorV) -> bool {
    let enabled = pre.interrupt.enable & pre.interrupt.flags;
    let bit = spec_first_pending(enabled);
    if pre.interrupt.master == 0 || pre.interrupt.enable == 0 || pre.interrupt.flags == 0 || bit
        == 0 {
        post == pre
    } else {
        spec_fire_ok(
            EmulatorV {
                interrupt: Interrupt { flags: pre.interrupt.flags & !bit, ..pre.interrupt },
                ..pre
            },
            spec_vector(bit),
            post,
        )
    }
}

impl Emulator {
    /// Fires one source: clears the master flag, pushes the program
    /// counter, vectors to the handler and adds the dispatch cost.
    fn fire_interrupt(&mut self, vector: u16)
        requires
            old(self).wf(),
            old(self)@.cpu.ticks + 12 <= u64::MAX,
        ensures
            final(self).wf(),
            spec_fire_ok(old(self)@, vector, final(self)@),
    {
        self.interrupt.master = 0;
        let pc = self.registers.pc;
        self.write_short_to_stack(pc);
        let ghost mid = self@;
        self.registers.pc = vector;
        self.cpu.ticks = self.cpu.ticks + 12;
        proof {
            let dropped = EmulatorV {
                interrupt: Interrupt { master: 0, ..old(self)@.interrupt },
                ..old(self)@
            };
            assert(push16_ok(dropped, old(self)@.registers.pc, mid));
        }
    }

    /// One interrupt-controller step, as `interrupt_step_ok` states:
    /// at most one source fires, in fixed priority order.
    pub fn interrupt_step(&mut self)
        requires
            old(self).wf(),
            old(self)@.cpu.ticks + 12 <= u64::MAX,
        ensures
            final(self).wf(),
            interrupt_step_ok(old(self)@, final(self)@),
    {
        if self.interrupt.master == 0 || self.interrupt.enable == 0 || self.interrupt.flags == 0 {
            return ;
        }
        let enabled_flags = self.interrupt.enable & self.interrupt.flags;
        if enabled_flags & INTERRUPT_VBLANK != 0 {
            self.interrupt.flags = self.interrupt.flags & !INTERRUPT_VBLANK;
            self.fire_interrupt(0x40);
        } else if enabled_flags & INTERRUPT_LCDSTAT != 0 {
            self.interrupt.flags = self.interrupt.flags & !INTERRUPT_LCDSTAT;
            self.fire_interrupt(0x48);
        } else if enabled_flags & INTERRUPT_TIMER != 0 {
            self.interrupt.flags = self.interrupt.flags & !INTERRUPT_TIMER;
            self.fire_interrupt(0x50);
        } else if enabled_flags & INTERRUPT_SERIAL != 0 {
            self.interrupt.flags = self.interrupt.flags & !INTERRUPT_SERIAL;
            self.fire_interrupt(0x58);
        } else if enabled_flags & INTERRUPT_JOYPAD != 0 {
            self.interrupt.flags = self.interrupt.flags & !INTERRUPT_JOYPAD;
            self.fire_interrupt(0x60);
        }
    }

    /// Restores the master flag and pops the program counter from the
    /// stack: the return path of an interrupt handler.
    pub fn return_from_interrupt(&mut self)
        requires
            old(self).wf(),
        ensures
            final(self).wf(),
            final(self)@ == (EmulatorV {
                interrupt: Interrupt { master: 1, ..old(self)@.interrupt },
                registers: Registers {
                    pc: final(self)@.registers.pc,
                    sp: spec_inc16(spec_inc16(old(self)@.registers.sp)),
                    ..old(self)@.registers
                },
                ..old(self)@
            }),
            det_read16(old(self)@.registers.sp) ==> final(self)@.registers.pc == bus_read16(
                old(self)@,
                old(self)@.registers.sp,
            ),
    {
        self.interrupt.master = 1;
        let value = self.read_short_from_stack();
        self.registers.pc = value;
    }
}

/// Interrupt priority: with V-blank and timer both enabled and both
/// pending, and the master flag on, one controller step services
/// V-blank — it vectors to V-blank's handler address and clears
/// V-blank's pending bit — and leaves the timer's pending bit set.
/// The stack push is assumed not to land on the pending-mask register
/// itself.
pub proof fn lemma_interrupt_priority(pre: EmulatorV, post: EmulatorV)
    requires
        pre.interrupt.master != 0,
        pre.interrupt.enable & INTERRUPT_VBLANK != 0,
        pre.interrupt.flags & INTERRUPT_VBLANK != 0,
        pre.interrupt.enable & INTERRUPT_TIMER != 0,
        pre.interrupt.flags & INTERRUPT_TIMER != 0,
        spec_dec16(pre.registers.sp) != 0xFF0F,
        spec_dec16(spec_dec16(pre.registers.sp)) != 0xFF0F,
        interrupt_step_ok(pre, post),
    ensures
        post.interrupt.flags & INTERRUPT_VBLANK == 0,
        post.interrupt.flags & INTERRUPT_TIMER != 0,
        post.interrupt.master == 0,
        post.registers.pc == 0x40,
{
    let e = pre.interrupt.enable;
    let f = pre.interrupt.flags;
    assert(e != 0 && f != 0 && e & f != 0 && (e & f) & INTERRUPT_VBLANK != 0) by (bit_vector)
        requires
            e & 0x01u8 != 0,
            f & 0x01u8 != 0,
    ;
    let bit = spec_first_pending(e & f);
    assert(bit == INTERRUPT_VBLANK);
    let cleared = EmulatorV {
        interrupt: Interrupt { flags: f & !INTERRUPT_VBLANK, ..pre.interrupt },
        ..pre
    };
    lemma_fire_keeps_pending(cleared, spec_vector(bit), post);
    assert((f & !0x01u8) & 0x01u8 == 0) by (bit_vector);
    assert(f & 0x04u8 != 0 ==> (f & !0x01u8) & 0x04u8 != 0) by (bit_vector);
}

/// Firing a source whose stack cells avoid the pending-mask register
/// leaves the pending mask as it was when the source fired, drops the
/// master flag, and vectors the program counter.
proof fn lemma_fire_keeps_pending(pre: EmulatorV, vector: u16, post: EmulatorV)
    requires
        spec_fire_ok(pre, vector, post),
        spec_dec16(pre.registers.sp) != 0xFF0F,
        spec_dec16(spec_dec16(pre.registers.sp)) != 0xFF0F,
    ensures
        post.interrupt.flags == pre.interrupt.flags,
        post.interrupt.master == 0,
        post.registers.pc == vector,
{
    let dropped = EmulatorV { interrupt: Interrupt { master: 0, ..pre.interrupt }, ..pre };
    let mid = choose|mid: EmulatorV|
        {
            &&& #[trigger] push16_ok(dropped, pre.registers.pc, mid)
            &&& post == (EmulatorV {
                registers: Registers { pc: vector, ..mid.registers },
                cpu: Cpu { ticks: (mid.cpu.ticks + 12) as u64, ..mid.cpu },
                ..mid
            })
        };
    lemma_push_keeps_pending(dropped, pre.registers.pc, mid);
}

/// A stack push whose two cells avoid the pending-mask register
/// leaves the interrupt state unchanged.
proof fn lemma_push_keeps_pending(pre: EmulatorV, value: u16, post: EmulatorV)
    requires
        push16_ok(pre, value, post),
        spec_dec16(pre.registers.sp) != 0xFF0F,
        spec_dec16(spec_dec16(pre.registers.sp)) != 0xFF0F,
    ensures
        post.interrupt.flags == pre.interrupt.flags,
        post.interrupt.master == pre.interrupt.master,
        post.registers.pc == pre.registers.pc,
{
    let sp2 = spec_dec16(spec_dec16(pre.registers.sp));
    let start = EmulatorV { registers: Registers { sp: sp2, ..pre.registers }, ..pre };
    let mid = choose|mid: EmulatorV|
        #[trigger] bus_write_ok(start, sp2, crate::registers::spec_low_byte(value), mid)
            && bus_write_ok(
            mid,
            spec_inc16(sp2),
            crate::registers::spec_high_byte(value),
            post,
        );
    lemma_byte_write_keeps_pending(start, sp2, crate::registers::spec_low_byte(value), mid);
    assert(spec_inc16(sp2) == spec_dec16(pre.registers.sp));
    lemma_byte_write_keeps_pending(
        mid,
        spec_inc16(sp2),
        crate::registers::spec_high_byte(value),
        post,
    );
}

/// A single bus write anywhere but the pending-mask register leaves
/// the pending mask, the master flag and the program counter alone.
proof fn lemma_byte_write_keeps_pending(pre: EmulatorV, addr: u16, val: u8, post: EmulatorV)
    requires
        bus_write_ok(pre, addr, val, post),
        addr != 0xFF0F,
    ensures
        post.interrupt.flags == pre.interrupt.flags,
        post.interrupt.master == pre.interrupt.master,
        post.registers.pc == pre.registers.pc,
{
}

} // verus!
