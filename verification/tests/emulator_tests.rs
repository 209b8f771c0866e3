use gb_core::emulator::Emulator;
use gb_core::gpu::GpuMode;
use gb_core::keys::Keys;
use gb_core::sprite::Sprite;

#[test]
fn power_on_state() {
    let e = Emulator::new();
    assert_eq!(e.registers.a, 0x01);
    assert_eq!(e.registers.pc, 0x0100);
    assert_eq!(e.cpu.ticks, 0);
    assert!(!e.cpu.stopped);
    assert_eq!(e.interrupt.master, 1);
    assert_eq!(e.interrupt.enable, 0);
    assert_eq!(e.interrupt.flags, 0);
    assert!(matches!(e.gpu.mode, GpuMode::HBlank));
    assert_eq!(e.memory.cart.len(), 0x8000);
    assert_eq!(e.memory.wram.len(), 0x2000);
    assert_eq!(e.memory.io[0x00], 0x0F);
    assert_eq!(e.memory.io[0x02], 0x7C);
    assert_eq!(e.memory.keys.value, 0xFF);
}

#[test]
fn reset_keeps_cartridge_and_tile_cache() {
    let mut e = Emulator::new();
    e.memory.cart[0] = 0x55;
    e.write_byte(0x8000, 0xFF);
    e.write_byte(0xC000, 0x12);
    e.registers.pc = 0x4444;
    e.cpu.ticks = 99;
    e.reset();
    assert_eq!(e.memory.cart[0], 0x55);
    assert_eq!(e.gpu.tiles[0], 1);
    assert_eq!(e.read_byte(0xC000), 0x00);
    assert_eq!(e.registers.pc, 0x0100);
    assert_eq!(e.cpu.ticks, 0);
}

#[test]
fn one_outer_tick_runs_all_three_units() {
    let mut e = Emulator::new();
    // NOP at the boot program counter
    e.memory.cart[0x0100] = 0x00;
    e.run_tick();
    assert_eq!(e.registers.pc, 0x0101);
    assert_eq!(e.cpu.ticks, 2);
    assert_eq!(e.gpu.last_cpu_ticks, 2);
    assert_eq!(e.gpu.ticks, 2);
}

#[test]
fn video_unit_advances_under_the_outer_loop() {
    let mut e = Emulator::new();
    e.gpu.mode = GpuMode::OAM;
    // a NOP-filled cartridge: each step spends 2 ticks
    for _ in 0..60 {
        e.run_tick();
    }
    // 120 ticks consumed: sprite search (80) done, pixel transfer on
    assert!(matches!(e.gpu.mode, GpuMode::VRAM));
}

#[test]
fn interrupt_fires_within_the_outer_loop() {
    let mut e = Emulator::new();
    e.memory.cart[0x0100] = 0x00;
    e.registers.sp = 0xD000;
    e.write_byte(0xFFFF, 0x01);
    e.write_byte(0xFF0F, 0x01);
    e.run_tick();
    assert_eq!(e.registers.pc, 0x0040);
    assert_eq!(e.interrupt.master, 0);
    assert_eq!(e.read_short(0xCFFE), 0x0101);
}

#[test]
fn keys_pack_active_low_nibbles() {
    let mut k = Keys::new();
    assert_eq!(k.value, 0xFF);
    k.set_a(true);
    assert_eq!(k.get_a(), 0);
    assert_eq!(k.get_keys_1(), 0x0E);
    k.set_start(true);
    assert_eq!(k.get_keys_1(), 0x06);
    k.set_a(false);
    assert_eq!(k.get_keys_1(), 0x07);
    k.set_down(true);
    assert_eq!(k.get_keys_2(), 0x07);
    assert_eq!(k.get_down(), 0);
    k.reset();
    assert_eq!(k.value, 0xFF);
    k.set_keys_2(0x05);
    assert_eq!(k.get_keys_2(), 0x05);
    k.set_keys_1(0x0A);
    assert_eq!(k.value, 0xA5);
}

#[test]
fn sprite_descriptor_from_table() {
    let mut table = vec![0u8; 256];
    table[4] = 10;
    table[5] = 20;
    table[6] = 3;
    table[7] = 0b0000_1111;
    let s = Sprite::from_array(&table, 1);
    assert_eq!(s.y, 10);
    assert_eq!(s.x, 20);
    assert_eq!(s.tile, 3);
    assert_eq!(s.get_priority(), 1);
    assert_eq!(s.get_v_flip(), 1);
    assert_eq!(s.get_h_flip(), 1);
    assert_eq!(s.get_palette(), 1);
    let s0 = Sprite::from_array(&table, 0);
    assert_eq!(s0.get_priority(), 0);
    assert_eq!(s0.get_v_flip(), 0);
    assert_eq!(s0.get_h_flip(), 0);
    assert_eq!(s0.get_palette(), 0);
}
