//! Cartridge ingestion: size and mapper-type validation, header
//! parsing, and injection of the image into the cartridge region.
//!
//! File access itself is the caller's concern; this module works on
//! the bytes.

use vstd::prelude::*;
use crate::emulator::{Emulator, EmulatorV};
use crate::memory::{MemoryV, CART_SIZE};

verus! {

pub const ROM_OFFSET_NAME: u16 = 0x134;
pub const ROM_OFFSET_TYPE: u16 = 0x147;

/// The declared cartridge/mapper type, byte 0x147 of the header.
#[derive(Clone, Copy, Debug, PartialEq, Eq, Structural)]
pub enum RomType {
    RomPlain,
    RomMbc1,
    RomMbc1Ram,
    RomMbc1RamBattery,
    RomMbc2,
    RomMbc2Battery,
    RomRam,
    RomRamBattery,
    RomMmm01,
    RomMmm01Sram,
    RomMmm01SramBatter,
    RomMbc3TimerBattery,
    RomMbc3TimerRamBattery,
    RomMbc3,
    RomMbc3Ram,
    RomMbc3RamBattery,
    RomMbc5,
    RomMbc5Ram,
    RomMbc5RamBattery,
    RomMbc5Rumble,
    RomMbc5RumbleSram,
    RomMbc5RumbleSramBattery,
    RomPocketCamera,
    RomBandaiTama5,
    RomHudsonHuc3,
    RomHudsonHuc1,
}

/// A load-time fatal error: reported to the caller, never recovered
/// internally.
#[derive(Clone, Copy, Debug, PartialEq, Eq, Structural)]
pub enum RomError {
    /// The image is larger than the fixed cartridge region.
    TooLarge,
    /// The header declares a mapper code this core does not
    /// recognise.
    UnknownType(u8),
}

/// The mapper named by a header type byte, or `None` for an
/// unrecognised code.
pub open spec fn spec_rom_type_of(b: u8) -> Option<RomType> {
    match b {
        0x00 => Some(RomType::RomPlain),
        0x01 => Some(RomType::RomMbc1),
        0x02 => Some(RomType::RomMbc1Ram),
        0x03 => Some(RomType::RomMbc1RamBattery),
        0x05 => Some(RomType::RomMbc2),
        0x06 => Some(RomType::RomMbc2Battery),
        0x08 => Some(RomType::RomRam),
        0x09 => Some(RomType::RomRamBattery),
        0x0B => Some(RomType::RomMmm01),
        0x0C => Some(RomType::RomMmm01Sram),
        0x0D => Some(RomType::RomMmm01SramBatter),
        0x0F => Some(RomType::RomMbc3TimerBattery),
        0x10 => Some(RomType::RomMbc3TimerRamBattery),
        0x11 => Some(RomType::RomMbc3),
        0x12 => Some(RomType::RomMbc3Ram),
        0x13 => Some(RomType::RomMbc3RamBattery),
        0x19 => Some(RomType::RomMbc5),
        0x1A => Some(RomType::RomMbc5Ram),
        0x1B => Some(RomType::RomMbc5RamBattery),
        0x1C => Some(RomType::RomMbc5Rumble),
        0x1D => Some(RomType::RomMbc5RumbleSram),
        0x1E => Some(RomType::RomMbc5RumbleSramBattery),
        0x1F => Some(RomType::RomPocketCamera),
        0xFD => Some(RomType::RomBandaiTama5),
        0xFE => Some(RomType::RomHudsonHuc3),
        0xFF => Some(RomType::RomHudsonHuc1),
        _ => None,
    }
}

/// Decodes the header's mapper code.
pub fn rom_type_from_byte(b: u8) -> (r: Option<RomType>)
    ensures
        r == spec_rom_type_of(b),
{
    match b {
        0x00 => Some(RomType::RomPlain),
        0x01 => Some(RomType::RomMbc1),
        0x02 => Some(RomType::RomMbc1Ram),
        0x03 => Some(RomType::RomMbc1RamBattery),
        0x05 => Some(RomType::RomMbc2),
        0x06 => Some(RomType::RomMbc2Battery),
        0x08 => Some(RomType::RomRam),
        0x09 => Some(RomType::RomRamBattery),
        0x0B => Some(RomType::RomMmm01),
        0x0C => Some(RomType::RomMmm01Sram),
        0x0D => Some(RomType::RomMmm01SramBatter),
        0x0F => Some(RomType::RomMbc3TimerBattery),
        0x10 => Some(RomType::RomMbc3TimerRamBattery),
        0x11 => Some(RomType::RomMbc3),
        0x12 => Some(RomType::RomMbc3Ram),
        0x13 => Some(RomType::RomMbc3RamBattery),
        0x19 => Some(RomType::RomMbc5),
        0x1A => Some(RomType::RomMbc5Ram),
        0x1B => Some(RomType::RomMbc5RamBattery),
        0x1C => Some(RomType::RomMbc5Rumble),
        0x1D => Some(RomType::RomMbc5RumbleSram),
        0x1E => Some(RomType::RomMbc5RumbleSramBattery),
        0x1F => Some(RomType::RomPocketCamera),
        0xFD => Some(RomType::RomBandaiTama5),
        0xFE => Some(RomType::RomHudsonHuc3),
        0xFF => Some(RomType::RomHudsonHuc1),
        _ => None,
    }
}

/// Header metadata read once at load time.
#[derive(Debug)]
pub struct RomMetadata {
    pub name: String,
    pub rom_type: RomType,
}

/// An image padded with zeroes to the fixed cartridge size.
pub open spec fn spec_padded_cart(data: Seq<u8>) -> Seq<u8> {
    Seq::new(
        CART_SIZE as nat,
        |i: int|
            if i < data.len() {
                data[i]
            } else {
                0u8
            },
    )
}

/// A byte the internal name may carry: printable seven-bit text.
/// Control bytes (among them the colour and super-console marker
/// bytes) terminate the name.
pub open spec fn spec_name_byte(b: u8) -> bool {
    0x20 <= b <= 0x7E
}

/// `n` is where the internal name ends: every byte before it is
/// printable and the byte at it (inside the 16-byte field) is not.
pub open spec fn spec_name_ends_at(cart: Seq<u8>, n: int) -> bool {
    &&& 0 <= n <= 16
    &&& (forall|k: int| 0 <= k < n ==> spec_name_byte(#[trigger] cart[0x134 + k]))
    &&& (n < 16 ==> !spec_name_byte(cart[0x134 + n]))
}

/// The type byte a load will see: byte 0x147 of the padded image.
pub open spec fn spec_type_byte(data: Seq<u8>) -> u8 {
    if data.len() > 0x147 {
        data[0x147]
    } else {
        0
    }
}

/// Relies on String::from_utf8: on seven-bit bytes the decoded
/// string's characters are exactly those bytes.
#[verifier::external_body]
fn ascii_to_string(bytes: &Vec<u8>) -> (r: String)
    requires
        forall|i: int| 0 <= i < bytes@.len() ==> bytes@[i] < 0x80,
    ensures
        r@.len() == bytes@.len(),
        forall|i: int| 0 <= i < bytes@.len() ==> r@[i] as int == bytes@[i] as int,
{
    String::from_utf8(bytes.clone()).unwrap_or_default()
}

/// Loads an image into the cartridge region and reads the
/// header-derived metadata: the internal name (bytes 0x134 to 0x143,
/// terminated at control bytes) and the declared mapper type (byte
/// 0x147).
///
/// An image over the fixed cartridge size or declaring an
/// unrecognised mapper code is a load-time fatal error: it is
/// reported and the machine is left untouched. Every image within
/// the size bound whose type byte names a known mapper loads.
#[verifier::loop_isolation(false)]
pub fn load_rom(e: &mut Emulator, data: &Vec<u8>) -> (r: Result<RomMetadata, RomError>)
    requires
        old(e).wf(),
    ensures
        final(e).wf(),
        data@.len() > CART_SIZE ==> r == Result::<RomMetadata, RomError>::Err(RomError::TooLarge),
        data@.len() <= CART_SIZE && spec_rom_type_of(spec_type_byte(data@)) is None ==> r
            == Result::<RomMetadata, RomError>::Err(RomError::UnknownType(spec_type_byte(data@))),
        r is Err <==> (data@.len() > CART_SIZE || spec_rom_type_of(spec_type_byte(data@)) is None),
        r is Err ==> final(e)@ == old(e)@,
        (r matches Ok(meta) ==> {
            &&& final(e)@ == (EmulatorV {
                memory: MemoryV { cart: spec_padded_cart(data@), ..old(e)@.memory },
                ..old(e)@
            })
            &&& Some(meta.rom_type) == spec_rom_type_of(spec_type_byte(data@))
            &&& spec_name_ends_at(spec_padded_cart(data@), meta.name@.len() as int)
            &&& (forall|k: int|
                0 <= k < meta.name@.len() ==> meta.name@[k] as int == spec_padded_cart(
                    data@,
                )[0x134 + k] as int)
        }),
{
    if data.len() > CART_SIZE {
        return Err(RomError::TooLarge);
    }
    let type_byte: u8 = if data.len() > 0x147 {
        data[0x147]
    } else {
        0
    };
    let rom_type = match rom_type_from_byte(type_byte) {
        Some(t) => t,
        None => {
            return Err(RomError::UnknownType(type_byte));
        },
    };
    let mut cart: Vec<u8> = Vec::new();
    let mut i: usize = 0;
    while i < CART_SIZE
        invariant
            i <= CART_SIZE,
            cart@.len() == i,
            forall|k: int| 0 <= k < i ==> cart@[k] == spec_padded_cart(data@)[k],
        decreases CART_SIZE - i,
    {
        if i < data.len() {
            cart.push(data[i]);
        } else {
            cart.push(0);
        }
        i = i + 1;
    }
    let mut name_bytes: Vec<u8> = Vec::new();
    let mut n: usize = 0;
    let mut ended = false;
    while n < 16 && !ended
        invariant
            n <= 16,
            cart@.len() == CART_SIZE,
            cart@ == spec_padded_cart(data@),
            forall|k: int| 0 <= k < n ==> spec_name_byte(#[trigger] cart@[0x134 + k]),
            ended ==> n < 16 && !spec_name_byte(cart@[0x134 + n]),
            name_bytes@.len() == n,
            forall|k: int| 0 <= k < n ==> name_bytes@[k] == cart@[0x134 + k] && name_bytes@[k]
                < 0x80,
        decreases 16 - n + (if ended {
            0int
        } else {
            1int
        }),
    {
        let b = cart[0x134 + n];
        if b >= 0x20 && b <= 0x7E {
            name_bytes.push(b);
            n = n + 1;
        } else {
            ended = true;
        }
    }
    let name = ascii_to_string(&name_bytes);
    proof {
        assert(cart@ =~= spec_padded_cart(data@));
    }
    self_assign_cart(e, cart);
    Ok(RomMetadata { name, rom_type })
}

/// Replaces the cartridge region.
fn self_assign_cart(e: &mut Emulator, cart: Vec<u8>)
    requires
        old(e).wf(),
        cart@.len() == CART_SIZE,
    ensures
        final(e).wf(),
        final(e)@ == (EmulatorV { memory: MemoryV { cart: cart@, ..old(e)@.memory }, ..old(e)@ }),
{
    e.memory.cart = cart;
}

} // verus!
