//! The memory bus backing stores: one fixed-size byte region per
//! address range, plus the joypad button state.
//!
//! Address decoding itself lives with the aggregate emulator state,
//! since several mapped registers belong to the video and interrupt
//! units.

use vstd::prelude::*;
use crate::emulator::{Emulator, EmulatorV};
use crate::gpu::{Colour, GpuV, spec_shade, spec_tile_row_update};
use crate::interrupt::Interrupt;
use crate::keys::{Keys, spec_keys_1, spec_keys_2};
use crate::registers::{Registers, spec_pair, spec_inc16, spec_dec16, spec_high_byte, spec_low_byte};

verus! {

pub const CART_SIZE: usize = 0x8000;
pub const SRAM_SIZE: usize = 0x2000;
pub const IO_SIZE: usize = 0x100;
pub const VRAM_SIZE: usize = 0x2000;
pub const OAM_SIZE: usize = 0x100;
pub const WRAM_SIZE: usize = 0x2000;
pub const HRAM_SIZE: usize = 0x80;

/// All addressable storage regions. The cartridge region is read-only
/// through the bus; its contents are injected at load time.
pub struct Memory {
    pub cart: Vec<u8>,
    pub sram: Vec<u8>,
    pub io: Vec<u8>,
    pub vram: Vec<u8>,
    pub oam: Vec<u8>,
    pub wram: Vec<u8>,
    pub hram: Vec<u8>,
    pub keys: Keys,
}

/// The mathematical model of the storage regions.
#[verifier::ext_equal]
pub ghost struct MemoryV {
    pub cart: Seq<u8>,
    pub sram: Seq<u8>,
    pub io: Seq<u8>,
    pub vram: Seq<u8>,
    pub oam: Seq<u8>,
    pub wram: Seq<u8>,
    pub hram: Seq<u8>,
    pub keys: Keys,
}

impl View for Memory {
    type V = MemoryV;

    open spec fn view(&self) -> MemoryV {
        MemoryV {
            cart: self.cart@,
            sram: self.sram@,
            io: self.io@,
            vram: self.vram@,
            oam: self.oam@,
            wram: self.wram@,
            hram: self.hram@,
            keys: self.keys,
        }
    }
}

/// A region of `n` zero bytes.
pub open spec fn zero_bytes(n: int) -> Seq<u8> {
    Seq::new(n as nat, |i: int| 0u8)
}

/// The documented post-boot contents of the I/O register block.
pub open spec fn io_boot_values() -> Seq<u8> {
    seq![
        0x0F, 0x00, 0x7C, 0xFF, 0x00, 0x00, 0x00, 0xF8,
        0xFF, 0xFF, 0xFF, 0xFF, 0xFF, 0xFF, 0xFF, 0x01,
        0x80, 0xBF, 0xF3, 0xFF, 0xBF, 0xFF, 0x3F, 0x00,
        0xFF, 0xBF, 0x7F, 0xFF, 0x9F, 0xFF, 0xBF, 0xFF,
        0xFF, 0x00, 0x00, 0xBF, 0x77, 0xF3, 0xF1, 0xFF,
        0xFF, 0xFF, 0xFF, 0xFF, 0xFF, 0xFF, 0xFF, 0xFF,
        0x00, 0xFF, 0x00, 0xFF, 0x00, 0xFF, 0x00, 0xFF,
        0x00, 0xFF, 0x00, 0xFF, 0x00, 0xFF, 0x00, 0xFF,
        0x91, 0x80, 0x00, 0x00, 0x00, 0x00, 0x00, 0xFC,
        0x00, 0x00, 0x00, 0x00, 0xFF, 0x7E, 0xFF, 0xFE,
        0xFF, 0xFF, 0xFF, 0xFF, 0xFF, 0xFF, 0x3E, 0xFF,
        0xFF, 0xFF, 0xFF, 0xFF, 0xFF, 0xFF, 0xFF, 0xFF,
        0xFF, 0xFF, 0xFF, 0xFF, 0xFF, 0xFF, 0xFF, 0xFF,
        0xC0, 0xFF, 0xC1, 0x00, 0xFE, 0xFF, 0xFF, 0xFF,
        0xF8, 0xFF, 0x00, 0x00, 0x00, 0x8F, 0x00, 0x00,
        0xFF, 0xFF, 0xFF, 0xFF, 0xFF, 0xFF, 0xFF, 0xFF,
        0xCE, 0xED, 0x66, 0x66, 0xCC, 0x0D, 0x00, 0x0B,
        0x03, 0x73, 0x00, 0x83, 0x00, 0x0C, 0x00, 0x0D,
        0x00, 0x08, 0x11, 0x1F, 0x88, 0x89, 0x00, 0x0E,
        0xDC, 0xCC, 0x6E, 0xE6, 0xDD, 0xDD, 0xD9, 0x99,
        0xBB, 0xBB, 0x67, 0x63, 0x6E, 0x0E, 0xEC, 0xCC,
        0xDD, 0xDC, 0x99, 0x9F, 0xBB, 0xB9, 0x33, 0x3E,
        0x45, 0xEC, 0x52, 0xFA, 0x08, 0xB7, 0x07, 0x5D,
        0x01, 0xFD, 0xC0, 0xFF, 0x08, 0xFC, 0x00, 0xE5,
        0x0B, 0xF8, 0xC2, 0xCE, 0xF4, 0xF9, 0x0F, 0x7F,
        0x45, 0x6D, 0x3D, 0xFE, 0x46, 0x97, 0x33, 0x5E,
        0x08, 0xEF, 0xF1, 0xFF, 0x86, 0x83, 0x24, 0x74,
        0x12, 0xFC, 0x00, 0x9F, 0xB4, 0xB7, 0x06, 0xD5,
        0xD0, 0x7A, 0x00, 0x9E, 0x04, 0x5F, 0x41, 0x2F,
        0x1D, 0x77, 0x36, 0x75, 0x81, 0xAA, 0x70, 0x3A,
        0x98, 0xD1, 0x71, 0x02, 0x4D, 0x01, 0xC1, 0xFF,
        0x0D, 0x00, 0xD3, 0x05, 0xF9, 0x00, 0x0B, 0x00,
    ]
}

impl MemoryV {
    /// Every region has its fixed size.
    pub open spec fn wf(self) -> bool {
        &&& self.cart.len() == CART_SIZE
        &&& self.sram.len() == SRAM_SIZE
        &&& self.io.len() == IO_SIZE
        &&& self.vram.len() == VRAM_SIZE
        &&& self.oam.len() == OAM_SIZE
        &&& self.wram.len() == WRAM_SIZE
        &&& self.hram.len() == HRAM_SIZE
    }

    /// Power-on contents: all RAM-like regions zeroed, the I/O block
    /// pre-seeded with its documented post-boot values, all buttons
    /// released.
    pub open spec fn spec_boot() -> MemoryV {
        MemoryV {
            cart: zero_bytes(CART_SIZE as int),
            sram: zero_bytes(SRAM_SIZE as int),
            io: io_boot_values(),
            vram: zero_bytes(VRAM_SIZE as int),
            oam: zero_bytes(OAM_SIZE as int),
            wram: zero_bytes(WRAM_SIZE as int),
            hram: zero_bytes(HRAM_SIZE as int),
            keys: Keys { value: 0xFF },
        }
    }

    /// A reset clears the RAM-like regions and reseeds the I/O block
    /// but keeps the loaded cartridge contents.
    pub open spec fn spec_reset(self) -> MemoryV {
        MemoryV { cart: self.cart, ..MemoryV::spec_boot() }
    }
}

/// A zero-filled region of the given size.
fn zero_region(n: usize) -> (v: Vec<u8>)
    ensures
        v@ == zero_bytes(n as int),
{
    let v = vec![0u8; n];
    proof {
        assert(v@ =~= zero_bytes(n as int));
    }
    v
}

/// The I/O block with its documented post-boot seed.
fn boot_io() -> (v: Vec<u8>)
    ensures
        v@ == io_boot_values(),
{
    let seed: [u8; 256] = [
        0x0F, 0x00, 0x7C, 0xFF, 0x00, 0x00, 0x00, 0xF8,
        0xFF, 0xFF, 0xFF, 0xFF, 0xFF, 0xFF, 0xFF, 0x01,
        0x80, 0xBF, 0xF3, 0xFF, 0xBF, 0xFF, 0x3F, 0x00,
        0xFF, 0xBF, 0x7F, 0xFF, 0x9F, 0xFF, 0xBF, 0xFF,
        0xFF, 0x00, 0x00, 0xBF, 0x77, 0xF3, 0xF1, 0xFF,
        0xFF, 0xFF, 0xFF, 0xFF, 0xFF, 0xFF, 0xFF, 0xFF,
        0x00, 0xFF, 0x00, 0xFF, 0x00, 0xFF, 0x00, 0xFF,
        0x00, 0xFF, 0x00, 0xFF, 0x00, 0xFF, 0x00, 0xFF,
        0x91, 0x80, 0x00, 0x00, 0x00, 0x00, 0x00, 0xFC,
        0x00, 0x00, 0x00, 0x00, 0xFF, 0x7E, 0xFF, 0xFE,
        0xFF, 0xFF, 0xFF, 0xFF, 0xFF, 0xFF, 0x3E, 0xFF,
        0xFF, 0xFF, 0xFF, 0xFF, 0xFF, 0xFF, 0xFF, 0xFF,
        0xFF, 0xFF, 0xFF, 0xFF, 0xFF, 0xFF, 0xFF, 0xFF,
        0xC0, 0xFF, 0xC1, 0x00, 0xFE, 0xFF, 0xFF, 0xFF,
        0xF8, 0xFF, 0x00, 0x00, 0x00, 0x8F, 0x00, 0x00,
        0xFF, 0xFF, 0xFF, 0xFF, 0xFF, 0xFF, 0xFF, 0xFF,
        0xCE, 0xED, 0x66, 0x66, 0xCC, 0x0D, 0x00, 0x0B,
        0x03, 0x73, 0x00, 0x83, 0x00, 0x0C, 0x00, 0x0D,
        0x00, 0x08, 0x11, 0x1F, 0x88, 0x89, 0x00, 0x0E,
        0xDC, 0xCC, 0x6E, 0xE6, 0xDD, 0xDD, 0xD9, 0x99,
        0xBB, 0xBB, 0x67, 0x63, 0x6E, 0x0E, 0xEC, 0xCC,
        0xDD, 0xDC, 0x99, 0x9F, 0xBB, 0xB9, 0x33, 0x3E,
        0x45, 0xEC, 0x52, 0xFA, 0x08, 0xB7, 0x07, 0x5D,
        0x01, 0xFD, 0xC0, 0xFF, 0x08, 0xFC, 0x00, 0xE5,
        0x0B, 0xF8, 0xC2, 0xCE, 0xF4, 0xF9, 0x0F, 0x7F,
        0x45, 0x6D, 0x3D, 0xFE, 0x46, 0x97, 0x33, 0x5E,
        0x08, 0xEF, 0xF1, 0xFF, 0x86, 0x83, 0x24, 0x74,
        0x12, 0xFC, 0x00, 0x9F, 0xB4, 0xB7, 0x06, 0xD5,
        0xD0, 0x7A, 0x00, 0x9E, 0x04, 0x5F, 0x41, 0x2F,
        0x1D, 0x77, 0x36, 0x75, 0x81, 0xAA, 0x70, 0x3A,
        0x98, 0xD1, 0x71, 0x02, 0x4D, 0x01, 0xC1, 0xFF,
        0x0D, 0x00, 0xD3, 0x05, 0xF9, 0x00, 0x0B, 0x00,
    ];
    let v = vstd::slice::slice_to_vec(seed.as_slice());
    proof {
        assert(v@ =~= io_boot_values());
    }
    v
}

impl Memory {
    /// Allocates every region once, with the documented power-on
    /// contents.
    pub fn new() -> (m: Memory)
        ensures
            m@ == MemoryV::spec_boot(),
            m@.wf(),
    {
        let m = Memory {
            cart: zero_region(CART_SIZE),
            sram: zero_region(SRAM_SIZE),
            io: boot_io(),
            vram: zero_region(VRAM_SIZE),
            oam: zero_region(OAM_SIZE),
            wram: zero_region(WRAM_SIZE),
            hram: zero_region(HRAM_SIZE),
            keys: Keys::new(),
        };
        proof {
            assert(m@ =~= MemoryV::spec_boot());
        }
        m
    }

    /// Clears the RAM-like regions and reseeds the I/O block; the
    /// cartridge contents stay loaded.
    pub fn reset(&mut self)
        requires
            old(self)@.wf(),
        ensures
            final(self)@ == old(self)@.spec_reset(),
            final(self)@.wf(),
    {
        self.sram = zero_region(SRAM_SIZE);
        self.io = boot_io();
        self.vram = zero_region(VRAM_SIZE);
        self.oam = zero_region(OAM_SIZE);
        self.wram = zero_region(WRAM_SIZE);
        self.hram = zero_region(HRAM_SIZE);
        self.keys.reset();
        proof {
            assert(self@ =~= old(self)@.spec_reset());
        }
    }
}

/// A read of this address is deterministic; the divider register at
/// 0xFF04 reads as a fresh random byte instead.
pub open spec fn det_read(addr: u16) -> bool {
    addr != 0xFF04
}

/// Both bytes of a 16-bit read at this address are deterministic.
pub open spec fn det_read16(addr: u16) -> bool {
    det_read(addr) && det_read(spec_inc16(addr))
}

/// What the joypad register reports: the selected button nibble,
/// inverted and active-low, or 0xFF when neither or both nibbles are
/// selected. A selection bit is active when written low.
pub open spec fn spec_joypad_read(select: u8, keys: Keys) -> u8 {
    if select & 0x30 == 0x10 {
        0xC0 | spec_keys_1(keys.value) | 0x10
    } else if select & 0x30 == 0x20 {
        0xC0 | spec_keys_2(keys.value) | 0x20
    } else {
        0xFF
    }
}

/// Address decoding for reads, in decoding order: cartridge ROM,
/// external RAM, video RAM, working RAM with its echo mirror, object
/// attribute memory, the side-effecting registers, high RAM, the
/// generic I/O block; anything left decodes to 0. The divider
/// register 0xFF04 is modelled here by its backing store; the
/// executable bus returns a random byte for it instead.
pub open spec fn bus_read(v: EmulatorV, addr: u16) -> u8 {
    if addr <= 0x7FFF {
        v.memory.cart[addr as int]
    } else if 0xA000 <= addr && addr <= 0xBFFF {
        v.memory.sram[addr - 0xA000]
    } else if 0x8000 <= addr && addr <= 0x9FFF {
        v.memory.vram[addr - 0x8000]
    } else if 0xC000 <= addr && addr <= 0xDFFF {
        v.memory.wram[addr - 0xC000]
    } else if 0xE000 <= addr && addr <= 0xFDFF {
        v.memory.wram[addr - 0xE000]
    } else if 0xFE00 <= addr && addr <= 0xFEFF {
        v.memory.oam[addr - 0xFE00]
    } else if addr == 0xFF04 {
        v.memory.io[0x04]
    } else if addr == 0xFF40 {
        v.gpu.control
    } else if addr == 0xFF42 {
        v.gpu.scroll_y
    } else if addr == 0xFF43 {
        v.gpu.scroll_x
    } else if addr == 0xFF44 {
        v.gpu.scan_line
    } else if addr == 0xFF00 {
        spec_joypad_read(v.memory.io[0], v.memory.keys)
    } else if addr == 0xFF0F {
        v.interrupt.flags
    } else if addr == 0xFFFF {
        v.interrupt.enable
    } else if 0xFF80 <= addr && addr <= 0xFFFE {
        v.memory.hram[addr - 0xFF80]
    } else if 0xFF00 <= addr && addr <= 0xFF7F {
        v.memory.io[addr - 0xFF00]
    } else {
        0
    }
}

/// A 16-bit little-endian read: the low byte at `addr`, the high byte
/// one above it (wrapping).
pub open spec fn bus_read16(v: EmulatorV, addr: u16) -> u16 {
    spec_pair(bus_read(v, spec_inc16(addr)), bus_read(v, addr))
}

/// A four-colour palette decoded from one register byte: two bits per
/// entry, entry 0 in the low bits.
pub open spec fn spec_palette_of(val: u8) -> Seq<Colour> {
    Seq::new(4, |i: int| spec_shade(((val >> ((i * 2) as u8)) & 3) as int))
}

/// Address decoding for writes other than the OAM-DMA trigger, in
/// decoding order. Writes into the cartridge region and reads-only
/// registers fall through unchanged; a write into the tile region of
/// video RAM also recomputes the affected tile-cache row.
pub open spec fn spec_bus_write(v: EmulatorV, addr: u16, val: u8) -> EmulatorV {
    if 0xA000 <= addr && addr <= 0xBFFF {
        EmulatorV { memory: MemoryV { sram: v.memory.sram.update(addr - 0xA000, val), ..v.memory }, ..v }
    } else if 0x8000 <= addr && addr <= 0x9FFF {
        let vram2 = v.memory.vram.update(addr - 0x8000, val);
        let with_vram = EmulatorV { memory: MemoryV { vram: vram2, ..v.memory }, ..v };
        if addr <= 0x97FF {
            EmulatorV {
                gpu: GpuV { tiles: spec_tile_row_update(v.gpu.tiles, vram2, addr & 0x1FFE), ..v.gpu },
                ..with_vram
            }
        } else {
            with_vram
        }
    } else if 0xC000 <= addr && addr <= 0xDFFF {
        EmulatorV { memory: MemoryV { wram: v.memory.wram.update(addr - 0xC000, val), ..v.memory }, ..v }
    } else if 0xE000 <= addr && addr <= 0xFDFF {
        EmulatorV { memory: MemoryV { wram: v.memory.wram.update(addr - 0xE000, val), ..v.memory }, ..v }
    } else if 0xFE00 <= addr && addr <= 0xFEFF {
        EmulatorV { memory: MemoryV { oam: v.memory.oam.update(addr - 0xFE00, val), ..v.memory }, ..v }
    } else if 0xFF80 <= addr && addr <= 0xFFFE {
        EmulatorV { memory: MemoryV { hram: v.memory.hram.update(addr - 0xFF80, val), ..v.memory }, ..v }
    } else if addr == 0xFF40 {
        EmulatorV { gpu: GpuV { control: val, ..v.gpu }, ..v }
    } else if addr == 0xFF42 {
        EmulatorV { gpu: GpuV { scroll_y: val, ..v.gpu }, ..v }
    } else if addr == 0xFF43 {
        EmulatorV { gpu: GpuV { scroll_x: val, ..v.gpu }, ..v }
    } else if addr == 0xFF47 {
        EmulatorV { gpu: GpuV { background_palette: spec_palette_of(val), ..v.gpu }, ..v }
    } else if addr == 0xFF48 {
        EmulatorV {
            gpu: GpuV {
                sprite_palette: spec_palette_of(val) + v.gpu.sprite_palette.skip(4),
                ..v.gpu
            },
            ..v
        }
    } else if addr == 0xFF49 {
        EmulatorV {
            gpu: GpuV {
                sprite_palette: v.gpu.sprite_palette.take(4) + spec_palette_of(val),
                ..v.gpu
            },
            ..v
        }
    } else if addr == 0xFF0F {
        EmulatorV { interrupt: Interrupt { flags: val, ..v.interrupt }, ..v }
    } else if addr == 0xFFFF {
        EmulatorV { interrupt: Interrupt { enable: val, ..v.interrupt }, ..v }
    } else if 0xFF00 <= addr && addr <= 0xFF7F {
        EmulatorV { memory: MemoryV { io: v.memory.io.update(addr - 0xFF00, val), ..v.memory }, ..v }
    } else {
        v
    }
}

/// What a write to the OAM-DMA trigger register does: 160 bytes
/// starting at `val << 8` are copied into object attribute memory;
/// nothing else changes. A source byte that reads as random (the
/// divider register) is unconstrained.
pub open spec fn spec_dma_ok(pre: EmulatorV, val: u8, post: EmulatorV) -> bool {
    &&& post == (EmulatorV { memory: MemoryV { oam: post.memory.oam, ..pre.memory }, ..pre })
    &&& post.memory.oam.len() == pre.memory.oam.len()
    &&& forall|i: int|
        0 <= i < 160 && det_read((val as int * 256 + i) as u16) ==> post.memory.oam[i] == bus_read(
            pre,
            (val as int * 256 + i) as u16,
        )
    &&& forall|i: int|
        160 <= i < pre.memory.oam.len() ==> post.memory.oam[i] == pre.memory.oam[i]
}

/// The full write relation: the OAM-DMA trigger relates states as
/// `spec_dma_ok`; every other address writes deterministically.
pub open spec fn bus_write_ok(pre: EmulatorV, addr: u16, val: u8, post: EmulatorV) -> bool {
    if addr == 0xFF46 {
        spec_dma_ok(pre, val, post)
    } else {
        post == spec_bus_write(pre, addr, val)
    }
}

/// A 16-bit little-endian write: the low byte lands at `addr`, the
/// high byte one above it (wrapping).
pub open spec fn bus_write16_ok(pre: EmulatorV, addr: u16, val: u16, post: EmulatorV) -> bool {
    exists|mid: EmulatorV|
        bus_write_ok(pre, addr, spec_low_byte(val), mid) && bus_write_ok(
            mid,
            spec_inc16(addr),
            spec_high_byte(val),
            post,
        )
}

/// A stack push: the stack pointer pre-decrements by two, then the
/// value is written there little-endian.
pub open spec fn push16_ok(pre: EmulatorV, val: u16, post: EmulatorV) -> bool {
    let sp2 = spec_dec16(spec_dec16(pre.registers.sp));
    bus_write16_ok(
        EmulatorV { registers: Registers { sp: sp2, ..pre.registers }, ..pre },
        sp2,
        val,
        post,
    )
}

/// In the tile region, masking an absolute address to its even
/// video-RAM offset stays below the tile data's end.
pub proof fn lemma_tile_mask_in_range(addr: u16)
    requires
        0x8000 <= addr <= 0x97FF,
    ensures
        (addr & 0x1FFE) < 0x1800,
{
    assert(0x8000 <= addr <= 0x97FF ==> (addr & 0x1FFE) < 0x1800) by (bit_vector);
}

/// Two palette-selection bits always name one of the four shades.
pub proof fn lemma_two_bits_below_four(v: u8, sh: u8)
    ensures
        (v >> sh) & 3 < 4,
{
    assert((v >> sh) & 3 < 4) by (bit_vector);
}

/// Echo RAM: the range 0xE000 to 0xFDFF mirrors working RAM's
/// storage. A byte written anywhere in working RAM's primary range
/// reads back through the mirror 0x2000 above it, and a byte written
/// through the mirror reads back at the primary address.
pub proof fn lemma_echo_ram(v: EmulatorV, addr: u16, x: u8)
    requires
        v.wf(),
        0xC000 <= addr <= 0xDDFF,
    ensures
        bus_read(spec_bus_write(v, addr, x), (addr + 0x2000) as u16) == x,
        bus_read(spec_bus_write(v, (addr + 0x2000) as u16, x), addr) == x,
{
}

/// Tile-cache coherence: immediately after a write anywhere in the
/// tile region of video RAM, every decoded colour index of the
/// affected tile row matches the two backing bytes now in video RAM
/// — so there is no stale read even between the two byte writes a
/// full row change takes.
pub proof fn lemma_tile_cache_coherence(v: EmulatorV, addr: u16, val: u8, x: u8)
    requires
        v.wf(),
        0x8000 <= addr <= 0x97FF,
        x < 8,
    ensures
        ({
            let post = spec_bus_write(v, addr, val);
            let rel = addr & 0x1FFE;
            post.gpu.tiles[(rel as int / 16) * 64 + ((rel as int / 2) % 8) * 8 + x] == crate::gpu::spec_tile_pixel(
                post.memory.vram[rel as int],
                post.memory.vram[rel as int + 1],
                x,
            )
        }),
{
    lemma_tile_mask_in_range(addr);
}

/// Relies on rand::random: one uniformly distributed byte from the
/// thread-local generator; nothing is assumed of the value.
#[verifier::external_body]
fn random_byte() -> u8 {
    rand::random::<u8>()
}

impl Emulator {
    /// Decodes a read anywhere in the 16-bit address space. Every
    /// address is deterministic except the divider register, which
    /// reads as a fresh random byte.
    pub fn read_byte(&self, address: u16) -> (r: u8)
        requires
            self.wf(),
        ensures
            det_read(address) ==> r == bus_read(self@, address),
    {
        if address <= 0x7FFF {
            return self.memory.cart[address as usize];
        }
        if address >= 0xA000 && address <= 0xBFFF {
            return self.memory.sram[(address - 0xA000) as usize];
        }
        if address >= 0x8000 && address <= 0x9FFF {
            return self.memory.vram[(address - 0x8000) as usize];
        }
        if address >= 0xC000 && address <= 0xDFFF {
            return self.memory.wram[(address - 0xC000) as usize];
        }
        if address >= 0xE000 && address <= 0xFDFF {
            return self.memory.wram[(address - 0xE000) as usize];
        }
        if address >= 0xFE00 && address <= 0xFEFF {
            return self.memory.oam[(address - 0xFE00) as usize];
        }
        if address == 0xFF04 {
            return random_byte();
        }
        if address == 0xFF40 {
            return self.gpu.control;
        }
        if address == 0xFF42 {
            return self.gpu.scroll_y;
        }
        if address == 0xFF43 {
            return self.gpu.scroll_x;
        }
        if address == 0xFF44 {
            return self.gpu.scan_line;
        }
        if address == 0xFF00 {
            let select = self.memory.io[0];
            if select & 0x30 == 0x10 {
                return 0xC0 | self.memory.keys.get_keys_1() | 0x10;
            }
            if select & 0x30 == 0x20 {
                return 0xC0 | self.memory.keys.get_keys_2() | 0x20;
            }
            return 0xFF;
        }
        if address == 0xFF0F {
            return self.interrupt.flags;
        }
        if address == 0xFFFF {
            return self.interrupt.enable;
        }
        if address >= 0xFF80 && address <= 0xFFFE {
            return self.memory.hram[(address - 0xFF80) as usize];
        }
        if address >= 0xFF00 && address <= 0xFF7F {
            return self.memory.io[(address - 0xFF00) as usize];
        }
        0
    }

    /// A 16-bit little-endian read.
    pub fn read_short(&self, address: u16) -> (r: u16)
        requires
            self.wf(),
        ensures
            det_read16(address) ==> r == bus_read16(self@, address),
    {
        let lo = self.read_byte(address);
        let next: u16 = if address == 0xFFFF {
            0
        } else {
            address + 1
        };
        let hi = self.read_byte(next);
        ((hi as u16) << 8) | (lo as u16)
    }

    /// Pops a 16-bit value: reads at the stack pointer, then
    /// post-increments it by two.
    pub fn read_short_from_stack(&mut self) -> (r: u16)
        requires
            old(self).wf(),
        ensures
            final(self).wf(),
            det_read16(old(self).registers.sp) ==> r == bus_read16(old(self)@, old(self).registers.sp),
            final(self)@ == (EmulatorV {
                registers: Registers {
                    sp: spec_inc16(spec_inc16(old(self).registers.sp)),
                    ..old(self).registers
                },
                ..old(self)@
            }),
    {
        let value = self.read_short(self.registers.sp);
        let sp1: u16 = if self.registers.sp == 0xFFFF {
            0
        } else {
            self.registers.sp + 1
        };
        let sp2: u16 = if sp1 == 0xFFFF {
            0
        } else {
            sp1 + 1
        };
        self.registers.sp = sp2;
        value
    }

    /// Decodes a write anywhere in the 16-bit address space,
    /// including the mapped side effects: tile-cache recomputation,
    /// palette decoding, interrupt registers, and the OAM-DMA copy.
    pub fn write_byte(&mut self, address: u16, value: u8)
        requires
            old(self).wf(),
        ensures
            final(self).wf(),
            bus_write_ok(old(self)@, address, value, final(self)@),
            final(self)@.gpu.mode == old(self)@.gpu.mode,
            final(self)@.gpu.scan_line == old(self)@.gpu.scan_line,
            final(self)@.gpu.ticks == old(self)@.gpu.ticks,
            final(self)@.gpu.last_cpu_ticks == old(self)@.gpu.last_cpu_ticks,
            final(self)@.cpu == old(self)@.cpu,
            final(self)@.registers == old(self)@.registers,
    {
        if address >= 0xA000 && address <= 0xBFFF {
            self.memory.sram[(address - 0xA000) as usize] = value;
        } else if address >= 0x8000 && address <= 0x9FFF {
            self.memory.vram[(address - 0x8000) as usize] = value;
            if address <= 0x97FF {
                proof {
                    lemma_tile_mask_in_range(address);
                }
                self.gpu.update_tile(address, &self.memory.vram);
            }
        } else if address >= 0xC000 && address <= 0xDFFF {
            self.memory.wram[(address - 0xC000) as usize] = value;
        } else if address >= 0xE000 && address <= 0xFDFF {
            self.memory.wram[(address - 0xE000) as usize] = value;
        } else if address >= 0xFE00 && address <= 0xFEFF {
            self.memory.oam[(address - 0xFE00) as usize] = value;
        } else if address >= 0xFF80 && address <= 0xFFFE {
            self.memory.hram[(address - 0xFF80) as usize] = value;
        } else if address == 0xFF40 {
            self.gpu.control = value;
        } else if address == 0xFF42 {
            self.gpu.scroll_y = value;
        } else if address == 0xFF43 {
            self.gpu.scroll_x = value;
        } else if address == 0xFF46 {
            self.oam_dma(value);
        } else if address == 0xFF47 {
            let mut i: u8 = 0;
            while i < 4
                invariant
                    i <= 4,
                    self@.gpu.background_palette.len() == 4,
                    self@ == (EmulatorV {
                        gpu: GpuV {
                            background_palette: self@.gpu.background_palette,
                            ..old(self)@.gpu
                        },
                        ..old(self)@
                    }),
                    forall|k: int|
                        0 <= k < i ==> self@.gpu.background_palette[k] == spec_palette_of(value)[k],
                    forall|k: int|
                        i <= k < 4 ==> self@.gpu.background_palette[k]
                            == old(self)@.gpu.background_palette[k],
                decreases 4 - i,
            {
                proof {
                    lemma_two_bits_below_four(value, (i * 2) as u8);
                }
                let c = crate::gpu::shade((value >> (i * 2)) & 3);
                self.gpu.background_palette[i as usize] = c;
                i = i + 1;
            }
            proof {
                assert(self@.gpu.background_palette =~= spec_palette_of(value));
                assert(self@ =~= spec_bus_write(old(self)@, address, value));
            }
        } else if address == 0xFF48 {
            let mut i: u8 = 0;
            while i < 4
                invariant
                    i <= 4,
                    self@.gpu.sprite_palette.len() == 8,
                    self@ == (EmulatorV {
                        gpu: GpuV { sprite_palette: self@.gpu.sprite_palette, ..old(self)@.gpu },
                        ..old(self)@
                    }),
                    forall|k: int|
                        0 <= k < i ==> self@.gpu.sprite_palette[k] == spec_palette_of(value)[k],
                    forall|k: int|
                        i <= k < 8 ==> self@.gpu.sprite_palette[k]
                            == old(self)@.gpu.sprite_palette[k],
                decreases 4 - i,
            {
                proof {
                    lemma_two_bits_below_four(value, (i * 2) as u8);
                }
                let c = crate::gpu::shade((value >> (i * 2)) & 3);
                self.gpu.sprite_palette[i as usize] = c;
                i = i + 1;
            }
            proof {
                assert(self@.gpu.sprite_palette =~= spec_palette_of(value)
                    + old(self)@.gpu.sprite_palette.skip(4));
                assert(self@ =~= spec_bus_write(old(self)@, address, value));
            }
        } else if address == 0xFF49 {
            let mut i: u8 = 0;
            while i < 4
                invariant
                    i <= 4,
                    self@.gpu.sprite_palette.len() == 8,
                    self@ == (EmulatorV {
                        gpu: GpuV { sprite_palette: self@.gpu.sprite_palette, ..old(self)@.gpu },
                        ..old(self)@
                    }),
                    forall|k: int|
                        0 <= k < i ==> self@.gpu.sprite_palette[4 + k] == spec_palette_of(value)[k],
                    forall|k: int|
                        0 <= k < 4 ==> self@.gpu.sprite_palette[k]
                            == old(self)@.gpu.sprite_palette[k],
                    forall|k: int|
                        4 + i <= k < 8 ==> self@.gpu.sprite_palette[k]
                            == old(self)@.gpu.sprite_palette[k],
                decreases 4 - i,
            {
                proof {
                    lemma_two_bits_below_four(value, (i * 2) as u8);
                }
                let c = crate::gpu::shade((value >> (i * 2)) & 3);
                self.gpu.sprite_palette[4 + i as usize] = c;
                i = i + 1;
            }
            proof {
                assert(self@.gpu.sprite_palette =~= old(self)@.gpu.sprite_palette.take(4)
                    + spec_palette_of(value));
                assert(self@ =~= spec_bus_write(old(self)@, address, value));
            }
        } else if address == 0xFF0F {
            self.interrupt.flags = value;
        } else if address == 0xFFFF {
            self.interrupt.enable = value;
        } else if address >= 0xFF00 && address <= 0xFF7F {
            self.memory.io[(address - 0xFF00) as usize] = value;
        }
    }

    /// The OAM-DMA copy: gathers the 160 source bytes first, then
    /// stores them into object attribute memory, so a source window
    /// overlapping the table still copies its prior contents.
    #[verifier::loop_isolation(false)]
    fn oam_dma(&mut self, value: u8)
        requires
            old(self).wf(),
        ensures
            final(self).wf(),
            spec_dma_ok(old(self)@, value, final(self)@),
            final(self)@.gpu == old(self)@.gpu,
            final(self)@.cpu == old(self)@.cpu,
            final(self)@.registers == old(self)@.registers,
    {
        let source: u16 = (value as u16) << 8;
        proof {
            assert((value as u16) << 8 == value as int * 256) by (bit_vector);
            assert(value as int * 256 + 160 <= 0x10000);
        }
        let mut buffer: Vec<u8> = Vec::new();
        let mut i: u16 = 0;
        while i < 160
            invariant
                i <= 160,
                source == value as int * 256,
                source as int + 160 <= 0x10000,
                self == old(self),
                self.wf(),
                buffer@.len() == i,
                forall|k: int|
                    0 <= k < i && det_read((value as int * 256 + k) as u16) ==> buffer@[k]
                        == bus_read(self@, (value as int * 256 + k) as u16),
            decreases 160 - i,
        {
            let b = self.read_byte(source + i);
            buffer.push(b);
            i = i + 1;
        }
        let mut j: usize = 0;
        while j < 160
            invariant
                j <= 160,
                buffer@.len() == 160,
                self@.memory.oam.len() == OAM_SIZE,
                self@ == (EmulatorV {
                    memory: MemoryV { oam: self@.memory.oam, ..old(self)@.memory },
                    ..old(self)@
                }),
                forall|k: int| 0 <= k < j ==> self@.memory.oam[k] == buffer@[k],
                forall|k: int|
                    j <= k < OAM_SIZE ==> self@.memory.oam[k] == old(self)@.memory.oam[k],
                forall|k: int|
                    0 <= k < 160 && det_read((value as int * 256 + k) as u16) ==> buffer@[k]
                        == bus_read(old(self)@, (value as int * 256 + k) as u16),
            decreases 160 - j,
        {
            self.memory.oam[j] = buffer[j];
            j = j + 1;
        }
        proof {
            assert forall|k: int|
                0 <= k < 160 && det_read((value as int * 256 + k) as u16) implies self@.memory.oam[k]
                == bus_read(old(self)@, (value as int * 256 + k) as u16) by {
                assert(self@.memory.oam[k] == buffer@[k]);
                assert(buffer@[k] == bus_read(old(self)@, (value as int * 256 + k) as u16));
            }
        }
    }

    /// A 16-bit little-endian write.
    pub fn write_short(&mut self, address: u16, value: u16)
        requires
            old(self).wf(),
        ensures
            final(self).wf(),
            bus_write16_ok(old(self)@, address, value, final(self)@),
            final(self)@.cpu == old(self)@.cpu,
            final(self)@.registers == old(self)@.registers,
    {
        self.write_byte(address, (value & 0x00FF) as u8);
        let next: u16 = if address == 0xFFFF {
            0
        } else {
            address + 1
        };
        let ghost mid = self@;
        self.write_byte(next, ((value & 0xFF00) >> 8) as u8);
        proof {
            assert(bus_write_ok(old(self)@, address, spec_low_byte(value), mid));
            assert(bus_write_ok(mid, spec_inc16(address), spec_high_byte(value), self@));
        }
    }

    /// Pushes a 16-bit value: pre-decrements the stack pointer by
    /// two, then writes the value there little-endian.
    pub fn write_short_to_stack(&mut self, value: u16)
        requires
            old(self).wf(),
        ensures
            final(self).wf(),
            push16_ok(old(self)@, value, final(self)@),
    {
        let sp1: u16 = if self.registers.sp == 0 {
            0xFFFF
        } else {
            self.registers.sp - 1
        };
        let sp2: u16 = if sp1 == 0 {
            0xFFFF
        } else {
            sp1 - 1
        };
        self.registers.sp = sp2;
        self.write_short(sp2, value);
    }
}

} // verus!
