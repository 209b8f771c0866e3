//! The aggregate machine state: processor, video unit, interrupt
//! controller, memory bus and register file, stepped in lock-step.
//!
//! Every operation and helper takes this aggregate by mutable
//! reference; no component holds a back-reference to another.

use vstd::prelude::*;
use crate::cpu::Cpu;
use crate::gpu::{Gpu, GpuV};
use crate::interrupt::Interrupt;
use crate::memory::{Memory, MemoryV};
use crate::registers::Registers;

verus! {

/// The whole machine.
pub struct Emulator {
    pub cpu: Cpu,
    pub gpu: Gpu,
    pub interrupt: Interrupt,
    pub memory: Memory,
    pub registers: Registers,
}

/// The mathematical model of the whole machine.
#[verifier::ext_equal]
pub ghost struct EmulatorV {
    pub cpu: Cpu,
    pub gpu: GpuV,
    pub interrupt: Interrupt,
    pub memory: MemoryV,
    pub registers: Registers,
}

impl View for Emulator {
    type V = EmulatorV;

    open spec fn view(&self) -> EmulatorV {
        EmulatorV {
            cpu: self.cpu,
            gpu: self.gpu@,
            interrupt: self.interrupt,
            memory: self.memory@,
            registers: self.registers,
        }
    }
}

impl EmulatorV {
    /// Region sizes are fixed, the video unit is well formed, and the
    /// video unit never claims more unconsumed ticks than the
    /// processor has spent.
    pub open spec fn wf(self) -> bool {
        &&& self.memory.wf()
        &&& self.gpu.wf()
        &&& self.gpu.last_cpu_ticks <= self.cpu.ticks
    }

    /// Power-on state of every component.
    pub open spec fn spec_boot() -> EmulatorV {
        EmulatorV {
            cpu: Cpu::spec_boot(),
            gpu: GpuV::spec_boot(),
            interrupt: Interrupt::spec_boot(),
            memory: MemoryV::spec_boot(),
            registers: Registers::spec_boot(),
        }
    }

    /// A user-triggered reset: every component returns to its
    /// power-on state, except that the loaded cartridge contents and
    /// the decoded tile cache are kept.
    pub open spec fn spec_reset(self) -> EmulatorV {
        EmulatorV {
            cpu: Cpu::spec_boot(),
            gpu: self.gpu.spec_reset(),
            interrupt: Interrupt::spec_boot(),
            memory: self.memory.spec_reset(),
            registers: Registers::spec_boot(),
        }
    }
}

impl Emulator {
    /// The machine's structural invariant.
    pub open spec fn wf(self) -> bool {
        self@.wf()
    }

    /// Power-on construction.
    pub fn new() -> (e: Emulator)
        ensures
            e@ == EmulatorV::spec_boot(),
            e.wf(),
    {
        let e = Emulator {
            cpu: Cpu::new(),
            gpu: Gpu::new(),
            interrupt: Interrupt::new(),
            memory: Memory::new(),
            registers: Registers::new(),
        };
        proof {
            assert(e@ =~= EmulatorV::spec_boot());
        }
        e
    }

    /// Resets every component; cartridge contents and the decoded
    /// tile cache are kept.
    pub fn reset(&mut self)
        requires
            old(self).wf(),
        ensures
            final(self)@ == old(self)@.spec_reset(),
            final(self).wf(),
    {
        self.cpu.reset();
        self.gpu.reset();
        self.interrupt.reset();
        self.memory.reset();
        self.registers.reset();
        proof {
            assert(self@ =~= old(self)@.spec_reset());
        }
    }

    /// One step of the outer loop, in fixed order: the dispatcher
    /// executes one instruction, the video unit consumes the ticks
    /// just spent, then the interrupt controller dispatches at most
    /// one pending source. The loop itself is the scheduler; there is
    /// no other.
    pub fn run_tick(&mut self)
        requires
            old(self).wf(),
            old(self)@.cpu.ticks + 128 <= u64::MAX,
        ensures
            final(self).wf(),
            old(self)@.cpu.ticks <= final(self)@.cpu.ticks <= old(self)@.cpu.ticks + 128,
            run_tick_ok(old(self)@, final(self)@),
    {
        crate::cpu::run_next(self);
        let ghost m1 = self@;
        let t = self.cpu.ticks;
        self.gpu.run_tick(t, &mut self.interrupt, &self.memory);
        let ghost m2 = self@;
        self.interrupt_step();
        proof {
            assert(crate::cpu::run_next_ok(old(self)@, m1));
            assert(m2 == (EmulatorV { gpu: m2.gpu, interrupt: m2.interrupt, ..m1 }));
            assert(crate::gpu::gpu_tick_ok(
                m1.gpu,
                m1.cpu.ticks,
                m1.interrupt,
                m2.gpu,
                m2.interrupt,
                m1.memory,
            ));
            assert(crate::interrupt::interrupt_step_ok(m2, self@));
        }
    }
}

/// The fixed three-unit order of one outer step: a dispatcher step,
/// then the video unit consuming the ticks that step spent, touching
/// only its own state and the interrupt requests, then one interrupt
/// dispatch.
pub open spec fn run_tick_ok(pre: EmulatorV, post: EmulatorV) -> bool {
    exists|m1: EmulatorV, m2: EmulatorV|
        #![trigger crate::cpu::run_next_ok(pre, m1), crate::interrupt::interrupt_step_ok(m2, post)]
        {
            &&& crate::cpu::run_next_ok(pre, m1)
            &&& m2 == (EmulatorV { gpu: m2.gpu, interrupt: m2.interrupt, ..m1 })
            &&& crate::gpu::gpu_tick_ok(
                m1.gpu,
                m1.cpu.ticks,
                m1.interrupt,
                m2.gpu,
                m2.interrupt,
                m1.memory,
            )
            &&& crate::interrupt::interrupt_step_ok(m2, post)
        }
}

} // verus!
