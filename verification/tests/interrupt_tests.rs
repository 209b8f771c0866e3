use gb_core::emulator::Emulator;
use gb_core::interrupt::{
    INTERRUPT_JOYPAD, INTERRUPT_LCDSTAT, INTERRUPT_SERIAL, INTERRUPT_TIMER, INTERRUPT_VBLANK,
};

#[test]
fn vblank_wins_over_timer() {
    let mut e = Emulator::new();
    e.interrupt.master = 1;
    e.interrupt.enable = INTERRUPT_VBLANK | INTERRUPT_TIMER;
    e.interrupt.flags = INTERRUPT_VBLANK | INTERRUPT_TIMER;
    e.registers.pc = 0x1234;
    e.registers.sp = 0xD000;
    let t0 = e.cpu.ticks;
    e.interrupt_step();
    assert_eq!(e.registers.pc, 0x0040);
    assert_eq!(e.interrupt.flags & INTERRUPT_VBLANK, 0);
    assert_ne!(e.interrupt.flags & INTERRUPT_TIMER, 0);
    assert_eq!(e.interrupt.master, 0);
    assert_eq!(e.registers.sp, 0xCFFE);
    assert_eq!(e.read_short(0xCFFE), 0x1234);
    assert_eq!(e.cpu.ticks, t0 + 12);
}

#[test]
fn each_source_vectors_to_its_handler() {
    let cases = [
        (INTERRUPT_VBLANK, 0x0040u16),
        (INTERRUPT_LCDSTAT, 0x0048),
        (INTERRUPT_TIMER, 0x0050),
        (INTERRUPT_SERIAL, 0x0058),
        (INTERRUPT_JOYPAD, 0x0060),
    ];
    for &(bit, vector) in &cases {
        let mut e = Emulator::new();
        e.interrupt.master = 1;
        e.interrupt.enable = bit;
        e.interrupt.flags = bit;
        e.registers.sp = 0xD000;
        e.interrupt_step();
        assert_eq!(e.registers.pc, vector);
        assert_eq!(e.interrupt.flags, 0);
    }
}

#[test]
fn masked_or_disabled_sources_do_nothing() {
    let mut e = Emulator::new();
    e.registers.pc = 0x1234;
    // pending but master off
    e.interrupt.master = 0;
    e.interrupt.enable = INTERRUPT_TIMER;
    e.interrupt.flags = INTERRUPT_TIMER;
    e.interrupt_step();
    assert_eq!(e.registers.pc, 0x1234);
    assert_eq!(e.interrupt.flags, INTERRUPT_TIMER);
    // master on but nothing enabled
    e.interrupt.master = 1;
    e.interrupt.enable = 0;
    e.interrupt_step();
    assert_eq!(e.registers.pc, 0x1234);
    // enabled but nothing pending
    e.interrupt.enable = INTERRUPT_TIMER;
    e.interrupt.flags = 0;
    e.interrupt_step();
    assert_eq!(e.registers.pc, 0x1234);
    // pending and enabled masks disjoint
    e.interrupt.flags = INTERRUPT_SERIAL;
    e.interrupt_step();
    assert_eq!(e.registers.pc, 0x1234);
    assert_eq!(e.interrupt.flags, INTERRUPT_SERIAL);
}

#[test]
fn lower_priority_fires_once_higher_is_clear() {
    let mut e = Emulator::new();
    e.interrupt.master = 1;
    e.interrupt.enable = INTERRUPT_VBLANK | INTERRUPT_TIMER;
    e.interrupt.flags = INTERRUPT_VBLANK | INTERRUPT_TIMER;
    e.registers.sp = 0xD000;
    e.interrupt_step();
    assert_eq!(e.registers.pc, 0x0040);
    // re-enable and step again: the waiting timer is next
    e.interrupt.master = 1;
    e.interrupt_step();
    assert_eq!(e.registers.pc, 0x0050);
    assert_eq!(e.interrupt.flags, 0);
}

#[test]
fn returning_restores_master_and_pops_the_counter() {
    let mut e = Emulator::new();
    e.interrupt.master = 1;
    e.interrupt.enable = INTERRUPT_VBLANK;
    e.interrupt.flags = INTERRUPT_VBLANK;
    e.registers.pc = 0x1234;
    e.registers.sp = 0xD000;
    e.interrupt_step();
    assert_eq!(e.interrupt.master, 0);
    e.return_from_interrupt();
    assert_eq!(e.interrupt.master, 1);
    assert_eq!(e.registers.pc, 0x1234);
    assert_eq!(e.registers.sp, 0xD000);
}
