use gb_core::emulator::Emulator;
use gb_core::gpu::{Colour, GpuMode};
use gb_core::interrupt::INTERRUPT_VBLANK;

const WHITE: Colour = Colour { r: 255, g: 255, b: 255 };
const LIGHT: Colour = Colour { r: 192, g: 192, b: 192 };
const DARK: Colour = Colour { r: 96, g: 96, b: 96 };
const BLACK: Colour = Colour { r: 0, g: 0, b: 0 };

#[test]
fn phase_sequence_consumes_fixed_budgets() {
    let mut e = Emulator::new();
    e.gpu.mode = GpuMode::OAM;
    e.gpu.ticks = 0;
    e.gpu.last_cpu_ticks = 0;
    e.gpu.scan_line = 0;
    // make a render observable: palette index 0 becomes black
    e.write_byte(0xFF47, 0x03);

    e.gpu.run_tick(79, &mut e.interrupt, &e.memory);
    assert!(matches!(e.gpu.mode, GpuMode::OAM));
    e.gpu.run_tick(80, &mut e.interrupt, &e.memory);
    assert!(matches!(e.gpu.mode, GpuMode::VRAM));
    assert_eq!(e.gpu.ticks, 0);
    assert_eq!(e.gpu.frame_buffer[0], WHITE);

    e.gpu.run_tick(80 + 172, &mut e.interrupt, &e.memory);
    assert!(matches!(e.gpu.mode, GpuMode::HBlank));
    assert_eq!(e.gpu.ticks, 0);
    // the scanline was rendered exactly at this transition
    assert_eq!(e.gpu.frame_buffer[0], BLACK);
    assert_eq!(e.gpu.frame_buffer[159], BLACK);
    // the next row was not touched
    assert_eq!(e.gpu.frame_buffer[160], WHITE);
    assert_eq!(e.gpu.scan_line, 0);

    e.gpu.run_tick(80 + 172 + 204, &mut e.interrupt, &e.memory);
    assert_eq!(e.gpu.scan_line, 1);
    assert!(matches!(e.gpu.mode, GpuMode::OAM));
}

#[test]
fn vblank_is_requested_at_line_one_forty_four() {
    let mut e = Emulator::new();
    e.gpu.mode = GpuMode::HBlank;
    e.gpu.scan_line = 143;
    e.gpu.ticks = 0;
    e.gpu.last_cpu_ticks = 0;
    e.interrupt.enable = INTERRUPT_VBLANK;
    e.gpu.run_tick(204, &mut e.interrupt, &e.memory);
    assert!(matches!(e.gpu.mode, GpuMode::VBlank));
    assert_eq!(e.gpu.scan_line, 144);
    assert_ne!(e.interrupt.flags & INTERRUPT_VBLANK, 0);
}

#[test]
fn vblank_request_respects_the_enable_bit() {
    let mut e = Emulator::new();
    e.gpu.mode = GpuMode::HBlank;
    e.gpu.scan_line = 143;
    e.gpu.ticks = 0;
    e.gpu.last_cpu_ticks = 0;
    e.interrupt.enable = 0;
    e.gpu.run_tick(204, &mut e.interrupt, &e.memory);
    assert!(matches!(e.gpu.mode, GpuMode::VBlank));
    assert_eq!(e.interrupt.flags & INTERRUPT_VBLANK, 0);
}

#[test]
fn vblank_lines_and_wraparound() {
    let mut e = Emulator::new();
    e.gpu.mode = GpuMode::VBlank;
    e.gpu.scan_line = 153;
    e.gpu.ticks = 0;
    e.gpu.last_cpu_ticks = 0;
    e.gpu.run_tick(455, &mut e.interrupt, &e.memory);
    assert_eq!(e.gpu.scan_line, 153);
    e.gpu.run_tick(456, &mut e.interrupt, &e.memory);
    assert_eq!(e.gpu.scan_line, 0);
    assert!(matches!(e.gpu.mode, GpuMode::OAM));
}

#[test]
fn background_row_uses_map_and_tile_cache() {
    let mut e = Emulator::new();
    // tile 1, row 0: all pixels colour index 1
    e.write_byte(0x8010, 0xFF);
    // map bank 0 entry (0, 0) names tile 1
    e.write_byte(0x9800, 0x01);
    e.gpu.scan_line = 0;
    e.gpu.render_scan_line(&e.memory);
    for x in 0..8 {
        assert_eq!(e.gpu.frame_buffer[x], LIGHT);
    }
    // entry (1, 0) still names tile 0: white
    assert_eq!(e.gpu.frame_buffer[8], WHITE);
}

#[test]
fn background_honours_scroll_and_map_bank() {
    let mut e = Emulator::new();
    // tile 2, row 1 (the row under scroll_y 1): darkest colour
    e.write_byte(0x8022, 0xFF);
    e.write_byte(0x8023, 0xFF);
    // second map bank entry (0, 0) names tile 2
    e.write_byte(0x9C00, 0x02);
    e.write_byte(0xFF40, 0x08);  // select the second map bank
    e.write_byte(0xFF42, 1);  // scroll_y
    e.write_byte(0xFF43, 4);  // scroll_x
    e.gpu.scan_line = 0;
    e.gpu.render_scan_line(&e.memory);
    // columns 0..4 come from tile 2 pixels 4..8
    for x in 0..4 {
        assert_eq!(e.gpu.frame_buffer[x], BLACK);
    }
    // column 4 crosses into map entry (1, 0): tile 0, white
    assert_eq!(e.gpu.frame_buffer[4], WHITE);
}

#[test]
fn sprite_composites_over_background() {
    let mut e = Emulator::new();
    // sprite tile 1, row 0: colour index 1 everywhere
    e.write_byte(0x8010, 0xFF);
    // sprite palette bank 0: index 1 maps to the darkest shade
    e.write_byte(0xFF48, 0b00_00_11_00);
    // sprite 0 at screen (4, 0)
    e.write_byte(0xFE00, 16);
    e.write_byte(0xFE01, 12);
    e.write_byte(0xFE02, 1);
    e.write_byte(0xFE03, 0);
    e.gpu.scan_line = 0;
    e.gpu.render_scan_line(&e.memory);
    assert_eq!(e.gpu.frame_buffer[3], WHITE);
    for x in 4..12 {
        assert_eq!(e.gpu.frame_buffer[x], BLACK);
    }
    assert_eq!(e.gpu.frame_buffer[12], WHITE);
}

#[test]
fn sprite_zero_pixels_are_transparent() {
    let mut e = Emulator::new();
    // tile 1, row 0: only the leftmost pixel is opaque
    e.write_byte(0x8010, 0b1000_0000);
    e.write_byte(0xFF48, 0b00_00_11_00);
    e.write_byte(0xFE00, 16);
    e.write_byte(0xFE01, 8);
    e.write_byte(0xFE02, 1);
    e.write_byte(0xFE03, 0);
    e.gpu.scan_line = 0;
    e.gpu.render_scan_line(&e.memory);
    assert_eq!(e.gpu.frame_buffer[0], BLACK);
    for x in 1..8 {
        assert_eq!(e.gpu.frame_buffer[x], WHITE);
    }
}

#[test]
fn sprite_horizontal_flip() {
    let mut e = Emulator::new();
    e.write_byte(0x8010, 0b1000_0000);
    e.write_byte(0xFF48, 0b00_00_11_00);
    e.write_byte(0xFE00, 16);
    e.write_byte(0xFE01, 8);
    e.write_byte(0xFE02, 1);
    e.write_byte(0xFE03, 0x04);  // horizontal flip
    e.gpu.scan_line = 0;
    e.gpu.render_scan_line(&e.memory);
    assert_eq!(e.gpu.frame_buffer[0], WHITE);
    assert_eq!(e.gpu.frame_buffer[7], BLACK);
}

#[test]
fn sprite_vertical_flip() {
    let mut e = Emulator::new();
    // tile 1: row 0 opaque, row 7 transparent
    e.write_byte(0x8010, 0xFF);
    e.write_byte(0xFF48, 0b00_00_11_00);
    e.write_byte(0xFE00, 16);
    e.write_byte(0xFE01, 8);
    e.write_byte(0xFE02, 1);
    e.write_byte(0xFE03, 0x02);  // vertical flip
    // scanline 7 crosses sprite row 7, flipped to tile row 0
    e.gpu.scan_line = 7;
    e.gpu.render_scan_line(&e.memory);
    assert_eq!(e.gpu.frame_buffer[7 * 160], BLACK);
    // without the flip the same scanline shows tile row 7: empty
    e.write_byte(0xFE03, 0x00);
    e.gpu.render_scan_line(&e.memory);
    assert_eq!(e.gpu.frame_buffer[7 * 160], WHITE);
}

#[test]
fn sprite_priority_lets_background_show_through() {
    let mut e = Emulator::new();
    // background tile 1: colour index 1 (non-zero) in row 0
    e.write_byte(0x8010, 0xFF);
    e.write_byte(0x9800, 0x01);
    // sprite tile 2: opaque row 0
    e.write_byte(0x8020, 0xFF);
    e.write_byte(0x8021, 0xFF);
    e.write_byte(0xFF48, 0b11_11_11_00);
    // sprite 0 behind the background, covering columns 0..8
    e.write_byte(0xFE00, 16);
    e.write_byte(0xFE01, 8);
    e.write_byte(0xFE02, 2);
    e.write_byte(0xFE03, 0x01);
    e.gpu.scan_line = 0;
    e.gpu.render_scan_line(&e.memory);
    // background is non-zero under columns 0..8: sprite hidden
    for x in 0..8 {
        assert_eq!(e.gpu.frame_buffer[x], LIGHT);
    }
    // map entry (1, 0) is tile 0 (index 0): move the sprite there
    e.write_byte(0xFE01, 16);
    e.gpu.render_scan_line(&e.memory);
    for x in 8..16 {
        assert_eq!(e.gpu.frame_buffer[x], BLACK);
    }
}

#[test]
fn later_sprites_paint_over_earlier_ones() {
    let mut e = Emulator::new();
    e.write_byte(0x8010, 0xFF);  // tile 1: index 1
    e.write_byte(0x8021, 0xFF);  // tile 2: index 2
    e.write_byte(0xFF48, 0b01_10_11_00);  // index 1 -> black, index 2 -> dark
    e.write_byte(0xFE00, 16);
    e.write_byte(0xFE01, 8);
    e.write_byte(0xFE02, 1);
    e.write_byte(0xFE03, 0);
    e.write_byte(0xFE04, 16);
    e.write_byte(0xFE05, 8);
    e.write_byte(0xFE06, 2);
    e.write_byte(0xFE07, 0);
    e.gpu.scan_line = 0;
    e.gpu.render_scan_line(&e.memory);
    for x in 0..8 {
        assert_eq!(e.gpu.frame_buffer[x], DARK);
    }
}

#[test]
fn gpu_reset_keeps_the_tile_cache() {
    let mut e = Emulator::new();
    e.write_byte(0x8000, 0xFF);
    assert_eq!(e.gpu.tiles[0], 1);
    e.gpu.control = 0x91;
    e.gpu.scan_line = 77;
    e.gpu.reset();
    assert_eq!(e.gpu.control, 0);
    assert_eq!(e.gpu.scan_line, 0);
    assert_eq!(e.gpu.tiles[0], 1);
    assert_eq!(e.gpu.frame_buffer[0], WHITE);
}
