use gb_core::emulator::Emulator;
use gb_core::rom::{load_rom, rom_type_from_byte, RomError, RomType};

fn image_with(name: &[u8], type_byte: u8) -> Vec<u8> {
    let mut data = vec![0u8; 0x200];
    for (i, &b) in name.iter().enumerate() {
        data[0x134 + i] = b;
    }
    data[0x147] = type_byte;
    data
}

#[test]
fn loads_image_and_reads_header() {
    let mut e = Emulator::new();
    let mut data = image_with(b"TETRIS", 0x01);
    data[0] = 0xAB;
    data[0x1FF] = 0xCD;
    let meta = load_rom(&mut e, &data).unwrap();
    assert_eq!(meta.name, "TETRIS");
    assert_eq!(meta.rom_type, RomType::RomMbc1);
    assert_eq!(e.memory.cart[0], 0xAB);
    assert_eq!(e.memory.cart[0x1FF], 0xCD);
    // the region is padded with zeroes past the image
    assert_eq!(e.memory.cart[0x200], 0x00);
    assert_eq!(e.memory.cart[0x7FFF], 0x00);
}

#[test]
fn name_field_can_fill_sixteen_bytes() {
    let mut e = Emulator::new();
    let data = image_with(b"ABCDEFGHIJKLMNOPQRST", 0x00);
    let meta = load_rom(&mut e, &data).unwrap();
    assert_eq!(meta.name, "ABCDEFGHIJKLMNOP");
}

#[test]
fn name_terminates_at_control_bytes() {
    let mut e = Emulator::new();
    let mut data = image_with(b"HELLO", 0x00);
    data[0x134 + 5] = 0x80;
    data[0x134 + 6] = b'X';
    let meta = load_rom(&mut e, &data).unwrap();
    assert_eq!(meta.name, "HELLO");
}

#[test]
fn oversized_image_is_rejected() {
    let mut e = Emulator::new();
    let data = vec![0u8; 0x8001];
    let before = e.memory.cart.clone();
    assert_eq!(load_rom(&mut e, &data).unwrap_err(), RomError::TooLarge);
    assert_eq!(e.memory.cart, before);
}

#[test]
fn exactly_full_image_is_accepted() {
    let mut e = Emulator::new();
    let mut data = vec![0u8; 0x8000];
    data[0x147] = 0x00;
    data[0x7FFF] = 0x77;
    let meta = load_rom(&mut e, &data).unwrap();
    assert_eq!(meta.rom_type, RomType::RomPlain);
    assert_eq!(e.memory.cart[0x7FFF], 0x77);
}

#[test]
fn unknown_mapper_code_is_rejected() {
    let mut e = Emulator::new();
    let data = image_with(b"X", 0x42);
    assert_eq!(load_rom(&mut e, &data).unwrap_err(), RomError::UnknownType(0x42));
    assert_eq!(e.memory.cart[0x134], 0x00);
}

#[test]
fn short_image_defaults_to_the_plain_mapper() {
    let mut e = Emulator::new();
    let data = vec![0x12u8; 0x40];
    let meta = load_rom(&mut e, &data).unwrap();
    assert_eq!(meta.rom_type, RomType::RomPlain);
    assert_eq!(e.memory.cart[0x3F], 0x12);
    assert_eq!(e.memory.cart[0x40], 0x00);
}

#[test]
fn mapper_codes_decode() {
    assert_eq!(rom_type_from_byte(0x00), Some(RomType::RomPlain));
    assert_eq!(rom_type_from_byte(0x03), Some(RomType::RomMbc1RamBattery));
    assert_eq!(rom_type_from_byte(0x06), Some(RomType::RomMbc2Battery));
    assert_eq!(rom_type_from_byte(0x13), Some(RomType::RomMbc3RamBattery));
    assert_eq!(rom_type_from_byte(0x1E), Some(RomType::RomMbc5RumbleSramBattery));
    assert_eq!(rom_type_from_byte(0xFF), Some(RomType::RomHudsonHuc1));
    assert_eq!(rom_type_from_byte(0x04), None);
    assert_eq!(rom_type_from_byte(0x20), None);
}
