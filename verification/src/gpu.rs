//! The video timing unit: a four-state scanline timer, the decoded
//! tile cache, the palettes and the frame buffer.

use vstd::prelude::*;
use crate::interrupt::{Interrupt, INTERRUPT_VBLANK};
use crate::memory::{Memory, MemoryV, VRAM_SIZE};
use crate::sprite::Sprite;

verus! {

pub const SCREEN_WIDTH: usize = 160;
pub const SCREEN_HEIGHT: usize = 144;
pub const FRAME_PIXELS: usize = 160 * 144;
/// 384 tiles of 8 x 8 decoded 2-bit colour indices.
pub const TILE_CACHE_SIZE: usize = 384 * 8 * 8;

/// Control bit selecting which of the two background map banks is
/// active.
pub const GPU_TILEMAP: u8 = 0x08;

/// One RGB pixel.
#[derive(Clone, Copy, Debug, PartialEq, Eq, Structural)]
pub struct Colour {
    pub r: u8,
    pub g: u8,
    pub b: u8,
}

impl Colour {
    pub fn new(r: u8, g: u8, b: u8) -> (c: Colour)
        ensures
            c == (Colour { r, g, b }),
    {
        Colour { r, g, b }
    }
}

/// The four phases of a scanline period.
#[derive(Clone, Copy, Debug, PartialEq, Eq, Structural)]
pub enum GpuMode {
    /// Horizontal blank, 204 ticks: the last phase of a visible line.
    HBlank,
    /// Vertical blank: ten whole line periods after the last visible
    /// line.
    VBlank,
    /// Sprite-table search, 80 ticks: the first phase of a visible
    /// line.
    OAM,
    /// Pixel transfer, 172 ticks: rendering happens when this phase
    /// completes.
    VRAM,
}

/// The shade of grey wired to palette index `i` (0 lightest,
/// 3 darkest).
pub open spec fn spec_shade(i: int) -> Colour {
    if i == 0 {
        Colour { r: 255, g: 255, b: 255 }
    } else if i == 1 {
        Colour { r: 192, g: 192, b: 192 }
    } else if i == 2 {
        Colour { r: 96, g: 96, b: 96 }
    } else {
        Colour { r: 0, g: 0, b: 0 }
    }
}

/// The fixed four-shade palette.
pub fn shade(index: u8) -> (c: Colour)
    requires
        index < 4,
    ensures
        c == spec_shade(index as int),
{
    if index == 0 {
        Colour { r: 255, g: 255, b: 255 }
    } else if index == 1 {
        Colour { r: 192, g: 192, b: 192 }
    } else if index == 2 {
        Colour { r: 96, g: 96, b: 96 }
    } else {
        Colour { r: 0, g: 0, b: 0 }
    }
}

/// The boot background palette: the identity mapping onto the four
/// shades.
pub open spec fn spec_default_bg_palette() -> Seq<Colour> {
    seq![spec_shade(0), spec_shade(1), spec_shade(2), spec_shade(3)]
}

/// The boot sprite palettes: both four-colour banks map onto the four
/// shades.
pub open spec fn spec_default_sprite_palette() -> Seq<Colour> {
    seq![
        spec_shade(0),
        spec_shade(1),
        spec_shade(2),
        spec_shade(3),
        spec_shade(0),
        spec_shade(1),
        spec_shade(2),
        spec_shade(3),
    ]
}

/// A frame buffer filled with the lightest shade.
pub open spec fn spec_white_frame() -> Seq<Colour> {
    Seq::new(FRAME_PIXELS as nat, |i: int| spec_shade(0))
}

/// The video unit state.
pub struct Gpu {
    pub background_palette: Vec<Colour>,
    pub control: u8,
    pub frame_buffer: Vec<Colour>,
    pub last_cpu_ticks: u64,
    pub mode: GpuMode,
    pub scan_line: u8,
    pub scroll_x: u8,
    pub scroll_y: u8,
    pub sprite_palette: Vec<Colour>,
    pub ticks: u64,
    pub tiles: Vec<u8>,
}

/// The mathematical model of the video unit state.
#[verifier::ext_equal]
pub ghost struct GpuV {
    pub background_palette: Seq<Colour>,
    pub control: u8,
    pub frame_buffer: Seq<Colour>,
    pub last_cpu_ticks: u64,
    pub mode: GpuMode,
    pub scan_line: u8,
    pub scroll_x: u8,
    pub scroll_y: u8,
    pub sprite_palette: Seq<Colour>,
    pub ticks: u64,
    pub tiles: Seq<u8>,
}

impl View for Gpu {
    type V = GpuV;

    open spec fn view(&self) -> GpuV {
        GpuV {
            background_palette: self.background_palette@,
            control: self.control,
            frame_buffer: self.frame_buffer@,
            last_cpu_ticks: self.last_cpu_ticks,
            mode: self.mode,
            scan_line: self.scan_line,
            scroll_x: self.scroll_x,
            scroll_y: self.scroll_y,
            sprite_palette: self.sprite_palette@,
            ticks: self.ticks,
            tiles: self.tiles@,
        }
    }
}

impl GpuV {
    /// Fixed buffer sizes, the unconsumed-tick bound, and the coupling
    /// of the mode to the scanline counter: the counter passes 143
    /// only during vertical blank.
    pub open spec fn wf(self) -> bool {
        &&& self.background_palette.len() == 4
        &&& self.sprite_palette.len() == 8
        &&& self.frame_buffer.len() == FRAME_PIXELS
        &&& self.tiles.len() == TILE_CACHE_SIZE
        &&& (forall|i: int| 0 <= i < self.tiles.len() ==> self.tiles[i] < 4)
        &&& self.ticks <= self.last_cpu_ticks
        &&& (self.mode is VBlank ==> 144 <= self.scan_line <= 153)
        &&& (!(self.mode is VBlank) ==> self.scan_line < 144)
    }

    /// Power-on state: everything cleared, palettes at their default
    /// shades, the frame buffer white, the tile cache empty.
    pub open spec fn spec_boot() -> GpuV {
        GpuV {
            background_palette: spec_default_bg_palette(),
            control: 0,
            frame_buffer: spec_white_frame(),
            last_cpu_ticks: 0,
            mode: GpuMode::HBlank,
            scan_line: 0,
            scroll_x: 0,
            scroll_y: 0,
            sprite_palette: spec_default_sprite_palette(),
            ticks: 0,
            tiles: Seq::new(TILE_CACHE_SIZE as nat, |i: int| 0u8),
        }
    }

    /// A reset restores the power-on state except for the tile cache,
    /// which keeps its decoded contents.
    pub open spec fn spec_reset(self) -> GpuV {
        GpuV { tiles: self.tiles, ..GpuV::spec_boot() }
    }
}

/// The boot background palette.
fn default_bg_palette() -> (v: Vec<Colour>)
    ensures
        v@ == spec_default_bg_palette(),
{
    let mut v: Vec<Colour> = Vec::new();
    v.push(shade(0));
    v.push(shade(1));
    v.push(shade(2));
    v.push(shade(3));
    proof {
        assert(v@ =~= spec_default_bg_palette());
    }
    v
}

/// The boot sprite palettes.
fn default_sprite_palette() -> (v: Vec<Colour>)
    ensures
        v@ == spec_default_sprite_palette(),
{
    let mut v: Vec<Colour> = Vec::new();
    v.push(shade(0));
    v.push(shade(1));
    v.push(shade(2));
    v.push(shade(3));
    v.push(shade(0));
    v.push(shade(1));
    v.push(shade(2));
    v.push(shade(3));
    proof {
        assert(v@ =~= spec_default_sprite_palette());
    }
    v
}

/// A white frame buffer.
fn white_frame() -> (v: Vec<Colour>)
    ensures
        v@ == spec_white_frame(),
{
    let v = vec![Colour { r: 255, g: 255, b: 255 }; FRAME_PIXELS];
    proof {
        assert(v@ =~= spec_white_frame());
    }
    v
}

/// The decoded 2-bit colour index of pixel `x` of a tile row whose
/// two bit-planes are the bytes `b0` (low plane) and `b1` (high
/// plane). Pixel 0 is the most significant bit of each plane.
pub open spec fn spec_tile_pixel(b0: u8, b1: u8, x: u8) -> u8 {
    let lo: u8 = if b0 & (0x80u8 >> x) != 0 {
        1
    } else {
        0
    };
    let hi: u8 = if b1 & (0x80u8 >> x) != 0 {
        2
    } else {
        0
    };
    (lo + hi) as u8
}

/// The tile cache after the row backed by the two video-RAM bytes at
/// even offset `rel` and `rel + 1` is recomputed: `rel / 16` names the
/// tile and `(rel / 2) % 8` the row inside it.
pub open spec fn spec_tile_row_update(tiles: Seq<u8>, vram: Seq<u8>, rel: u16) -> Seq<u8> {
    let base = (rel as int / 16) * 64 + ((rel as int / 2) % 8) * 8;
    Seq::new(
        tiles.len(),
        |j: int|
            if base <= j < base + 8 {
                spec_tile_pixel(vram[rel as int], vram[rel as int + 1], (j - base) as u8)
            } else {
                tiles[j]
            },
    )
}

impl Gpu {
    /// Power-on construction.
    pub fn new() -> (g: Gpu)
        ensures
            g@ == GpuV::spec_boot(),
            g@.wf(),
    {
        let g = Gpu {
            background_palette: default_bg_palette(),
            control: 0,
            frame_buffer: white_frame(),
            last_cpu_ticks: 0,
            mode: GpuMode::HBlank,
            scan_line: 0,
            scroll_x: 0,
            scroll_y: 0,
            sprite_palette: default_sprite_palette(),
            ticks: 0,
            tiles: vec![0u8; TILE_CACHE_SIZE],
        };
        proof {
            assert(g@.tiles =~= GpuV::spec_boot().tiles);
            assert(g@ =~= GpuV::spec_boot());
        }
        g
    }

    /// Restores the power-on state except for the decoded tile cache.
    pub fn reset(&mut self)
        ensures
            final(self)@ == old(self)@.spec_reset(),
    {
        self.control = 0;
        self.scroll_x = 0;
        self.scroll_y = 0;
        self.scan_line = 0;
        self.ticks = 0;
        self.last_cpu_ticks = 0;
        self.mode = GpuMode::HBlank;
        self.frame_buffer = white_frame();
        self.background_palette = default_bg_palette();
        self.sprite_palette = default_sprite_palette();
        proof {
            assert(self@ =~= old(self)@.spec_reset());
        }
    }

    /// Recomputes the eight colour indices of one tile row from its
    /// two raw bit-planes; called whenever either backing byte in the
    /// tile region of video RAM changes.
    pub fn update_tile(&mut self, address: u16, vram: &Vec<u8>)
        requires
            old(self)@.tiles.len() == TILE_CACHE_SIZE,
            vram@.len() == VRAM_SIZE,
            (address & 0x1FFE) < 0x1800,
        ensures
            final(self)@ == (GpuV {
                tiles: spec_tile_row_update(old(self)@.tiles, vram@, address & 0x1FFE),
                ..old(self)@
            }),
    {
        let rel = (address & 0x1FFE) as usize;
        let tile = rel / 16;
        let y = (rel / 2) % 8;
        let base = tile * 64 + y * 8;
        let b0 = vram[rel];
        let b1 = vram[rel + 1];
        let ghost target = spec_tile_row_update(old(self)@.tiles, vram@, address & 0x1FFE);
        let mut x: u8 = 0;
        while x < 8
            invariant
                x <= 8,
                base == (rel as int / 16) * 64 + ((rel as int / 2) % 8) * 8,
                base + 8 <= TILE_CACHE_SIZE,
                b0 == vram@[rel as int],
                b1 == vram@[rel as int + 1],
                rel == address & 0x1FFE,
                vram@.len() == VRAM_SIZE,
                self@.tiles.len() == TILE_CACHE_SIZE,
                forall|j: int|
                    0 <= j < TILE_CACHE_SIZE && !(base <= j < base + x) ==> self@.tiles[j]
                        == old(self)@.tiles[j],
                forall|j: int|
                    base <= j < base + x ==> self@.tiles[j] == spec_tile_pixel(
                        b0,
                        b1,
                        (j - base) as u8,
                    ),
                self@ == (GpuV { tiles: self@.tiles, ..old(self)@ }),
            decreases 8 - x,
        {
            let mask: u8 = 0x80u8 >> x;
            let first_bit: u8 = if b0 & mask != 0 {
                1
            } else {
                0
            };
            let second_bit: u8 = if b1 & mask != 0 {
                2
            } else {
                0
            };
            self.tiles[base + x as usize] = first_bit + second_bit;
            x = x + 1;
        }
        proof {
            assert(self@.tiles =~= target);
        }
    }
}

/// The 2-bit background colour index under screen column `col` of the
/// current scanline: the active map bank names the tile covering
/// `(scroll_x + col, scroll_y + scan_line)` (wrapping at 256), and
/// the decoded tile cache supplies the pixel.
pub open spec fn spec_bg_index(g: GpuV, mem: MemoryV, col: int) -> u8 {
    let map_base: int = if g.control & GPU_TILEMAP != 0 {
        0x1C00
    } else {
        0x1800
    };
    let yy = (g.scan_line + g.scroll_y) % 256;
    let map_off = map_base + (yy / 8) * 32 + ((g.scroll_x + col) / 8) % 32;
    let tile = mem.vram[map_off];
    g.tiles[tile * 64 + (yy % 8) * 8 + (g.scroll_x + col) % 8]
}

/// Sprite entry `i` of the 40-entry attribute table.
pub open spec fn spec_sprite_at(mem: MemoryV, i: int) -> Sprite {
    Sprite::spec_from_array(mem.oam, i)
}

/// The row inside a sprite's tile that the current scanline crosses,
/// honouring the vertical-flip attribute.
pub open spec fn spec_sprite_row(s: Sprite, scan_line: int) -> int {
    let sy = s.y - 16;
    if (s.options & 0x02) >> 1 != 0 {
        7 - (scan_line - sy)
    } else {
        scan_line - sy
    }
}

/// The 2-bit colour index a sprite shows at screen column `col`,
/// honouring the horizontal-flip attribute; index 0 is transparent.
pub open spec fn spec_sprite_colour_index(g: GpuV, s: Sprite, scan_line: int, col: int) -> u8 {
    let sx = s.x - 8;
    let xoff = col - sx;
    let px = if (s.options & 0x04) >> 2 != 0 {
        7 - xoff
    } else {
        xoff
    };
    g.tiles[s.tile * 64 + spec_sprite_row(s, scan_line) * 8 + px]
}

/// Whether sprite `i` puts a pixel at column `col` of the current
/// scanline: its box crosses the line and the column, its pixel is
/// not transparent, and — when its priority bit is set — the
/// background pixel underneath is zero.
pub open spec fn spec_sprite_draws(g: GpuV, mem: MemoryV, i: int, col: int) -> bool {
    let s = spec_sprite_at(mem, i);
    let sx = s.x - 8;
    let sy = s.y - 16;
    &&& sy <= g.scan_line < sy + 8
    &&& sx <= col < sx + 8
    &&& (s.options & 0x01 == 0 || spec_bg_index(g, mem, col) == 0)
    &&& spec_sprite_colour_index(g, s, g.scan_line as int, col) != 0
}

/// The colour at column `col` after the background and the first `n`
/// sprites are composited, in table order: a later sprite paints over
/// an earlier one.
pub open spec fn spec_composite(g: GpuV, mem: MemoryV, n: int, col: int) -> Colour
    decreases n,
{
    if n <= 0 {
        g.background_palette[spec_bg_index(g, mem, col) as int]
    } else if spec_sprite_draws(g, mem, n - 1, col) {
        let s = spec_sprite_at(mem, n - 1);
        g.sprite_palette[((s.options & 0x08) >> 3) * 4 + spec_sprite_colour_index(
            g,
            s,
            g.scan_line as int,
            col,
        )]
    } else {
        spec_composite(g, mem, n - 1, col)
    }
}

/// The final colour of column `col` of the current scanline: the
/// background composited with all 40 sprites.
pub open spec fn spec_row_pixel(g: GpuV, mem: MemoryV, col: int) -> Colour {
    spec_composite(g, mem, 40, col)
}

/// The frame buffer after the current scanline is rendered: its 160
/// pixels are replaced, every other row is untouched.
pub open spec fn spec_render_frame(g: GpuV, mem: MemoryV) -> Seq<Colour> {
    Seq::new(
        g.frame_buffer.len(),
        |p: int|
            if g.scan_line * 160 <= p < g.scan_line * 160 + 160 {
                spec_row_pixel(g, mem, p - g.scan_line * 160)
            } else {
                g.frame_buffer[p]
            },
    )
}

/// One timing step of the four-phase scanline state machine: the
/// video unit consumes the processor ticks spent since it last ran,
/// then advances at most one phase. The result carries the new video
/// state, the new interrupt state, and whether this step completed a
/// pixel-transfer phase (in which case the caller renders the line).
///
/// Phases: sprite-search lasts 80 ticks, pixel transfer 172, the
/// horizontal blank 204. Completing the blank advances the scanline;
/// a counter reaching 144 requests the V-blank interrupt (when its
/// enable bit is set) and enters vertical blank, which then consumes
/// a whole 456-tick line period per scanline until the counter passes
/// 153 and wraps back to sprite-search of line 0.
pub open spec fn spec_timing(g: GpuV, cpu_ticks: u64, intr: Interrupt) -> (GpuV, Interrupt, bool) {
    let t = (g.ticks + cpu_ticks - g.last_cpu_ticks) as u64;
    let g1 = GpuV { ticks: t, last_cpu_ticks: cpu_ticks, ..g };
    match g.mode {
        GpuMode::HBlank => {
            if t >= 204 {
                let sl = (g.scan_line + 1) as u8;
                if sl == 144 {
                    (
                        GpuV { scan_line: sl, mode: GpuMode::VBlank, ..g1 },
                        if intr.enable & INTERRUPT_VBLANK != 0 {
                            Interrupt { flags: intr.flags | INTERRUPT_VBLANK, ..intr }
                        } else {
                            intr
                        },
                        false,
                    )
                } else {
                    (
                        GpuV { scan_line: sl, mode: GpuMode::OAM, ticks: (t - 204) as u64, ..g1 },
                        intr,
                        false,
                    )
                }
            } else {
                (g1, intr, false)
            }
        },
        GpuMode::VBlank => {
            if t >= 456 {
                let sl = (g.scan_line + 1) as u8;
                if sl > 153 {
                    (
                        GpuV { scan_line: 0, mode: GpuMode::OAM, ticks: (t - 456) as u64, ..g1 },
                        intr,
                        false,
                    )
                } else {
                    (GpuV { scan_line: sl, ticks: (t - 456) as u64, ..g1 }, intr, false)
                }
            } else {
                (g1, intr, false)
            }
        },
        GpuMode::OAM => {
            if t >= 80 {
                (GpuV { mode: GpuMode::VRAM, ticks: (t - 80) as u64, ..g1 }, intr, false)
            } else {
                (g1, intr, false)
            }
        },
        GpuMode::VRAM => {
            if t >= 172 {
                (GpuV { mode: GpuMode::HBlank, ticks: (t - 172) as u64, ..g1 }, intr, true)
            } else {
                (g1, intr, false)
            }
        },
    }
}

/// Video timing: a unit standing at the start of sprite search with
/// an empty tick accumulator becomes a pixel-transfer unit once 80
/// ticks are consumed; after a further 172 it enters the horizontal
/// blank and renders exactly then, exactly once; and only after a
/// further 204 does the scanline counter advance, by exactly one.
pub proof fn lemma_video_phase_sequence(g: GpuV, c1: u64, c2: u64, c3: u64, intr: Interrupt)
    requires
        g.wf(),
        g.mode is OAM,
        g.ticks == 0,
        g.last_cpu_ticks + 456 <= u64::MAX,
        c1 == g.last_cpu_ticks + 80,
        c2 == c1 + 172,
        c3 == c2 + 204,
    ensures
        ({
            let (g1, i1, r1) = spec_timing(g, c1, intr);
            let (g2, i2, r2) = spec_timing(g1, c2, i1);
            let (g3, i3, r3) = spec_timing(g2, c3, i2);
            &&& g1.mode is VRAM && !r1 && g1.scan_line == g.scan_line
            &&& g2.mode is HBlank && r2 && g2.scan_line == g.scan_line
            &&& g3.scan_line == g.scan_line + 1 && !r3
        }),
{
}

/// V-blank trigger: when the horizontal blank of the last visible
/// line completes, the scanline counter reaching 144 switches the
/// unit into vertical blank, and — its enable bit being set — the
/// V-blank pending bit is raised.
pub proof fn lemma_vblank_trigger(g: GpuV, cpu_ticks: u64, intr: Interrupt)
    requires
        g.wf(),
        g.mode is HBlank,
        g.scan_line == 143,
        g.last_cpu_ticks <= cpu_ticks,
        g.ticks + cpu_ticks - g.last_cpu_ticks >= 204,
        intr.enable & INTERRUPT_VBLANK != 0,
    ensures
        ({
            let (g2, i2, r) = spec_timing(g, cpu_ticks, intr);
            &&& g2.mode is VBlank
            &&& g2.scan_line == 144
            &&& i2.flags & INTERRUPT_VBLANK != 0
        }),
{
    let f = intr.flags;
    assert((f | 0x01u8) & 0x01u8 != 0) by (bit_vector);
}

/// One video-unit step as a relation over the models: the timing
/// machine consumes the ticks spent since it last ran and advances
/// at most one phase, and where it completes pixel transfer the
/// current scanline is rendered into the frame buffer.
pub open spec fn gpu_tick_ok(
    pre: GpuV,
    cpu_ticks: u64,
    intr_pre: Interrupt,
    post: GpuV,
    intr_post: Interrupt,
    mem: MemoryV,
) -> bool {
    let stepped = spec_timing(pre, cpu_ticks, intr_pre);
    &&& intr_post == stepped.1
    &&& post == (if stepped.2 {
        GpuV { frame_buffer: spec_render_frame(stepped.0, mem), ..stepped.0 }
    } else {
        stepped.0
    })
}

impl Gpu {
    /// Renders the current scanline into the frame buffer: for each
    /// of the 160 columns the background tile pixel, then the 40
    /// sprites composited over it in table order with flip,
    /// transparency and priority semantics.
    #[verifier::loop_isolation(false)]
    pub fn render_scan_line(&mut self, memory: &Memory)
        requires
            old(self)@.wf(),
            old(self)@.scan_line < 144,
            memory@.wf(),
        ensures
            final(self)@ == (GpuV {
                frame_buffer: spec_render_frame(old(self)@, memory@),
                ..old(self)@
            }),
            final(self)@.wf(),
    {
        let ghost g0 = self@;
        let ghost memv = memory@;
        let base: usize = self.scan_line as usize * 160;
        let map_base: usize = if self.control & GPU_TILEMAP != 0 {
            0x1C00
        } else {
            0x1800
        };
        let yy: usize = (self.scan_line as usize + self.scroll_y as usize) % 256;
        let mut scan_line_row: Vec<u8> = Vec::new();
        let mut i: usize = 0;
        while i < 160
            invariant
                i <= 160,
                scan_line_row@.len() == i,
                forall|c: int| 0 <= c < i ==> scan_line_row@[c] == spec_bg_index(g0, memv, c),
                forall|c: int|
                    0 <= c < i ==> self@.frame_buffer[base + c] == g0.background_palette[spec_bg_index(
                        g0,
                        memv,
                        c,
                    ) as int],
                forall|p: int|
                    0 <= p < FRAME_PIXELS && !(base <= p < base + i) ==> self@.frame_buffer[p]
                        == g0.frame_buffer[p],
                self@ == (GpuV { frame_buffer: self@.frame_buffer, ..g0 }),
                self@.frame_buffer.len() == FRAME_PIXELS,
            decreases 160 - i,
        {
            let map_off = map_base + (yy / 8) * 32 + ((self.scroll_x as usize + i) / 8) % 32;
            let tile = memory.vram[map_off] as usize;
            let px = (self.scroll_x as usize + i) % 8;
            let py = yy % 8;
            let colour_idx = self.tiles[tile * 64 + py * 8 + px];
            scan_line_row.push(colour_idx);
            let shade_here = self.background_palette[colour_idx as usize];
            self.frame_buffer[base + i] = shade_here;
            i = i + 1;
        }
        let mut s: usize = 0;
        while s < 40
            invariant
                s <= 40,
                scan_line_row@.len() == 160,
                forall|c: int| 0 <= c < 160 ==> scan_line_row@[c] == spec_bg_index(g0, memv, c),
                forall|c: int|
                    0 <= c < 160 ==> self@.frame_buffer[base + c] == spec_composite(
                        g0,
                        memv,
                        s as int,
                        c,
                    ),
                forall|p: int|
                    0 <= p < FRAME_PIXELS && !(base <= p < base + 160) ==> self@.frame_buffer[p]
                        == g0.frame_buffer[p],
                self@ == (GpuV { frame_buffer: self@.frame_buffer, ..g0 }),
                self@.frame_buffer.len() == FRAME_PIXELS,
            decreases 40 - s,
        {
            let sprite = Sprite::from_array(&memory.oam, s as u8);
            proof {
                assert(sprite == spec_sprite_at(memv, s as int));
            }
            let sx: i32 = sprite.x as i32 - 8;
            let sy: i32 = sprite.y as i32 - 16;
            let line: i32 = self.scan_line as i32;
            if sy <= line && line < sy + 8 {
                let palette_offset: usize = if sprite.get_palette() != 0 {
                    4
                } else {
                    0
                };
                let tile_row: i32 = if sprite.get_v_flip() != 0 {
                    7 - (line - sy)
                } else {
                    line - sy
                };
                proof {
                    assert(tile_row == spec_sprite_row(sprite, g0.scan_line as int));
                    assert(0 <= tile_row < 8);
                    let o = sprite.options;
                    assert((o & 0x08) >> 3 == 0 || (o & 0x08) >> 3 == 1) by (bit_vector);
                    assert forall|c: int| 0 <= c < 160 && c < sx implies #[trigger] self@.frame_buffer[
                        base + c] == spec_composite(g0, memv, s as int + 1, c) by {
                        assert(!spec_sprite_draws(g0, memv, s as int, c));
                        assert(spec_composite(g0, memv, s as int + 1, c) == spec_composite(
                            g0,
                            memv,
                            s as int,
                            c,
                        ));
                        assert(self@.frame_buffer[base + c] == spec_composite(
                            g0,
                            memv,
                            s as int,
                            c,
                        ));
                    }
                }
                let mut x: i32 = 0;
                while x < 8
                    invariant
                        0 <= x <= 8,
                        sprite == spec_sprite_at(memv, s as int),
                        s < 40,
                        sx == sprite.x - 8,
                        sy == sprite.y - 16,
                        line == g0.scan_line as int,
                        sy <= line < sy + 8,
                        tile_row == spec_sprite_row(sprite, g0.scan_line as int),
                        0 <= tile_row < 8,
                        palette_offset == ((sprite.options & 0x08) >> 3) * 4,
                        forall|c: int|
                            0 <= c < 160 && c < sx + x ==> #[trigger] self@.frame_buffer[base + c]
                                == spec_composite(g0, memv, s as int + 1, c),
                        forall|c: int|
                            0 <= c < 160 && c >= sx + x ==> #[trigger] self@.frame_buffer[base + c]
                                == spec_composite(g0, memv, s as int, c),
                        forall|p: int|
                            0 <= p < FRAME_PIXELS && !(base <= p < base + 160)
                                ==> self@.frame_buffer[p] == g0.frame_buffer[p],
                        self@ == (GpuV { frame_buffer: self@.frame_buffer, ..g0 }),
                        self@.frame_buffer.len() == FRAME_PIXELS,
                    decreases 8 - x,
                {
                    let col: i32 = sx + x;
                    if 0 <= col && col < 160 && (sprite.get_priority() == 0 || scan_line_row[col
                        as usize] == 0) {
                        let px: i32 = if sprite.get_h_flip() != 0 {
                            7 - x
                        } else {
                            x
                        };
                        let colour = self.tiles[(sprite.tile as usize) * 64 + (tile_row as usize)
                            * 8 + (px as usize)];
                        proof {
                            assert(colour == spec_sprite_colour_index(
                                g0,
                                sprite,
                                g0.scan_line as int,
                                col as int,
                            ));
                        }
                        if colour != 0 {
                            let sprite_colour = self.sprite_palette[palette_offset + colour
                                as usize];
                            self.frame_buffer[base + col as usize] = sprite_colour;
                            proof {
                                assert(spec_sprite_draws(g0, memv, s as int, col as int));
                                assert(self@.frame_buffer[base + col] == spec_composite(
                                    g0,
                                    memv,
                                    s as int + 1,
                                    col as int,
                                ));
                            }
                        } else {
                            proof {
                                assert(!spec_sprite_draws(g0, memv, s as int, col as int));
                                assert(spec_composite(g0, memv, s as int + 1, col as int)
                                    == spec_composite(g0, memv, s as int, col as int));
                            }
                        }
                    } else {
                        proof {
                            if 0 <= col < 160 {
                                assert(!spec_sprite_draws(g0, memv, s as int, col as int));
                                assert(spec_composite(g0, memv, s as int + 1, col as int)
                                    == spec_composite(g0, memv, s as int, col as int));
                            }
                        }
                    }
                    x = x + 1;
                }
                proof {
                    assert forall|c: int| 0 <= c < 160 implies #[trigger] self@.frame_buffer[
                        base + c] == spec_composite(g0, memv, s as int + 1, c) by {
                        if !(sx <= c < sx + 8) {
                            assert(!spec_sprite_draws(g0, memv, s as int, c));
                            assert(spec_composite(g0, memv, s as int + 1, c) == spec_composite(
                                g0,
                                memv,
                                s as int,
                                c,
                            ));
                            assert(self@.frame_buffer[base + c] == spec_composite(
                                g0,
                                memv,
                                s as int,
                                c,
                            ));
                        }
                    }
                }
            } else {
                proof {
                    assert forall|c: int| 0 <= c < 160 implies #[trigger] self@.frame_buffer[
                        base + c] == spec_composite(g0, memv, s as int + 1, c) by {
                        assert(!spec_sprite_draws(g0, memv, s as int, c));
                        assert(spec_composite(g0, memv, s as int + 1, c) == spec_composite(
                            g0,
                            memv,
                            s as int,
                            c,
                        ));
                        assert(self@.frame_buffer[base + c] == spec_composite(
                            g0,
                            memv,
                            s as int,
                            c,
                        ));
                    }
                }
            }
            s = s + 1;
        }
        proof {
            assert(self@.frame_buffer =~= spec_render_frame(g0, memv));
            assert(self@ =~= (GpuV { frame_buffer: spec_render_frame(g0, memv), ..g0 }));
        }
    }

    /// One video-unit step: consume the processor ticks spent since
    /// the last step and advance the scanline state machine, raising
    /// the V-blank request and rendering a line where the machine
    /// calls for it.
    pub fn run_tick(&mut self, cpu_ticks: u64, interrupt: &mut Interrupt, memory: &Memory)
        requires
            old(self)@.wf(),
            old(self)@.last_cpu_ticks <= cpu_ticks,
            memory@.wf(),
        ensures
            final(self)@.wf(),
            gpu_tick_ok(
                old(self)@,
                cpu_ticks,
                *old(interrupt),
                final(self)@,
                *final(interrupt),
                memory@,
            ),
    {
        self.ticks = self.ticks + (cpu_ticks - self.last_cpu_ticks);
        self.last_cpu_ticks = cpu_ticks;
        match self.mode {
            GpuMode::HBlank => {
                if self.ticks >= 204 {
                    self.scan_line = self.scan_line + 1;
                    if self.scan_line == 144 {
                        if interrupt.enable & INTERRUPT_VBLANK != 0 {
                            interrupt.flags = interrupt.flags | INTERRUPT_VBLANK;
                        }
                        self.mode = GpuMode::VBlank;
                    } else {
                        self.mode = GpuMode::OAM;
                        self.ticks = self.ticks - 204;
                    }
                }
            },
            GpuMode::VBlank => {
                if self.ticks >= 456 {
                    self.scan_line = self.scan_line + 1;
                    if self.scan_line > 153 {
                        self.scan_line = 0;
                        self.mode = GpuMode::OAM;
                    }
                    self.ticks = self.ticks - 456;
                }
            },
            GpuMode::OAM => {
                if self.ticks >= 80 {
                    self.mode = GpuMode::VRAM;
                    self.ticks = self.ticks - 80;
                }
            },
            GpuMode::VRAM => {
                if self.ticks >= 172 {
                    self.mode = GpuMode::HBlank;
                    self.ticks = self.ticks - 172;
                    self.render_scan_line(memory);
                }
            },
        }
    }
}

} // verus!
