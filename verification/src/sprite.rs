//! A sprite descriptor: four consecutive bytes of object attribute
//! memory (position, tile index and an attribute byte).

use vstd::prelude::*;

verus! {

/// One entry of object attribute memory. `y` and `x` are the stored
/// (offset) screen coordinates; `options` packs the attribute bits:
/// bit 0 priority, bit 1 vertical flip, bit 2 horizontal flip,
/// bit 3 palette selection.
#[derive(Clone, Copy, Debug, PartialEq, Eq, Structural)]
pub struct Sprite {
    pub y: u8,
    pub x: u8,
    pub tile: u8,
    pub options: u8,
}

impl Sprite {
    /// The sprite stored at entry `index` of the table: four bytes
    /// starting at `index * 4`.
    pub open spec fn spec_from_array(arr: Seq<u8>, index: int) -> Sprite {
        Sprite {
            y: arr[index * 4],
            x: arr[index * 4 + 1],
            tile: arr[index * 4 + 2],
            options: arr[index * 4 + 3],
        }
    }

    /// Reads the descriptor at entry `index` of a sprite table.
    pub fn from_array(array: &Vec<u8>, index: u8) -> (s: Sprite)
        requires
            index < 64,
            index as int * 4 + 4 <= array@.len(),
        ensures
            s == Sprite::spec_from_array(array@, index as int),
    {
        let offset = (index as usize) * 4;
        Sprite {
            y: array[offset],
            x: array[offset + 1],
            tile: array[offset + 2],
            options: array[offset + 3],
        }
    }

    /// The priority bit: when 1 the background shows through wherever
    /// its own pixel is non-zero.
    pub fn get_priority(&self) -> (r: u8)
        ensures
            r == self.options & 0x01,
    {
        self.options & 0x01
    }

    /// The vertical-flip bit.
    pub fn get_v_flip(&self) -> (r: u8)
        ensures
            r == (self.options & 0x02) >> 1,
    {
        (self.options & 0x02) >> 1
    }

    /// The horizontal-flip bit.
    pub fn get_h_flip(&self) -> (r: u8)
        ensures
            r == (self.options & 0x04) >> 2,
    {
        (self.options & 0x04) >> 2
    }

    /// The palette-selection bit.
    pub fn get_palette(&self) -> (r: u8)
        ensures
            r == (self.options & 0x08) >> 3,
    {
        (self.options & 0x08) >> 3
    }
}

} // verus!
