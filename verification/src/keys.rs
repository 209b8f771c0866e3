//! Button state for the joypad register: eight independent buttons
//! packed into two active-low nibbles (a cleared bit means pressed).

use vstd::prelude::*;

verus! {

/// The high nibble holds A, B, Select and Start; the low nibble holds
/// Right, Left, Up and Down. A bit is 1 while its button is released.
#[derive(Clone, Copy, Debug, PartialEq, Eq, Structural)]
pub struct Keys {
    pub value: u8,
}

/// The action-button nibble (A, B, Select, Start).
pub open spec fn spec_keys_1(value: u8) -> u8 {
    (value & 0xF0) >> 4
}

/// The direction-button nibble (Right, Left, Up, Down).
pub open spec fn spec_keys_2(value: u8) -> u8 {
    value & 0x0F
}

/// The packed value after the action nibble is replaced.
pub open spec fn spec_set_keys_1(value: u8, nibble: u8) -> u8 {
    ((nibble & 0x0F) << 4) | (value & 0x0F)
}

/// The packed value after the direction nibble is replaced.
pub open spec fn spec_set_keys_2(value: u8, nibble: u8) -> u8 {
    (value & 0xF0) | (nibble & 0x0F)
}

/// A nibble with the masked button forced pressed (bit cleared) or
/// released (bit set).
pub open spec fn spec_press(nibble: u8, mask: u8, pressed: bool) -> u8 {
    if pressed {
        nibble & !mask
    } else {
        nibble | mask
    }
}

impl Keys {
    /// All buttons released.
    pub fn new() -> (r: Keys)
        ensures
            r.value == 0xFF,
    {
        Keys { value: 0xFF }
    }

    pub fn get_keys_1(&self) -> (r: u8)
        ensures
            r == spec_keys_1(self.value),
    {
        (self.value & 0xF0) >> 4
    }

    pub fn get_keys_2(&self) -> (r: u8)
        ensures
            r == spec_keys_2(self.value),
    {
        self.value & 0x0F
    }

    /// Releases every button.
    pub fn reset(&mut self)
        ensures
            final(self).value == 0xFF,
    {
        self.value = 0xFF;
    }

    pub fn set_keys_1(&mut self, value: u8)
        ensures
            final(self).value == spec_set_keys_1(old(self).value, value),
    {
        self.value = ((value & 0x0F) << 4) | (self.value & 0x0F);
    }

    pub fn set_keys_2(&mut self, value: u8)
        ensures
            final(self).value == spec_set_keys_2(old(self).value, value),
    {
        self.value = (self.value & 0xF0) | (value & 0x0F);
    }

    pub fn get_a(&self) -> (r: u8)
        ensures
            r == spec_keys_1(self.value) & 0x01,
    {
        self.get_keys_1() & 0x01
    }

    pub fn set_a(&mut self, value: bool)
        ensures
            final(self).value == spec_set_keys_1(
                old(self).value,
                spec_press(spec_keys_1(old(self).value), 0x01, value),
            ),
    {
        let mut keys = self.get_keys_1();
        if !value {
            keys = keys | 0x01;
        } else {
            keys = keys & !0x01;
        }
        self.set_keys_1(keys);
    }

    pub fn get_b(&self) -> (r: u8)
        ensures
            r == spec_keys_1(self.value) & 0x02,
    {
        self.get_keys_1() & 0x02
    }

    pub fn set_b(&mut self, value: bool)
        ensures
            final(self).value == spec_set_keys_1(
                old(self).value,
                spec_press(spec_keys_1(old(self).value), 0x02, value),
            ),
    {
        let mut keys = self.get_keys_1();
        if !value {
            keys = keys | 0x02;
        } else {
            keys = keys & !0x02;
        }
        self.set_keys_1(keys);
    }

    pub fn get_select(&self) -> (r: u8)
        ensures
            r == spec_keys_1(self.value) & 0x04,
    {
        self.get_keys_1() & 0x04
    }

    pub fn set_select(&mut self, value: bool)
        ensures
            final(self).value == spec_set_keys_1(
                old(self).value,
                spec_press(spec_keys_1(old(self).value), 0x04, value),
            ),
    {
        let mut keys = self.get_keys_1();
        if !value {
            keys = keys | 0x04;
        } else {
            keys = keys & !0x04;
        }
        self.set_keys_1(keys);
    }

    pub fn get_start(&self) -> (r: u8)
        ensures
            r == spec_keys_1(self.value) & 0x08,
    {
        self.get_keys_1() & 0x08
    }

    pub fn set_start(&mut self, value: bool)
        ensures
            final(self).value == spec_set_keys_1(
                old(self).value,
                spec_press(spec_keys_1(old(self).value), 0x08, value),
            ),
    {
        let mut keys = self.get_keys_1();
        if !value {
            keys = keys | 0x08;
        } else {
            keys = keys & !0x08;
        }
        self.set_keys_1(keys);
    }

    pub fn get_right(&self) -> (r: u8)
        ensures
            r == spec_keys_2(self.value) & 0x01,
    {
        self.get_keys_2() & 0x01
    }

    pub fn set_right(&mut self, value: bool)
        ensures
            final(self).value == spec_set_keys_2(
                old(self).value,
                spec_press(spec_keys_2(old(self).value), 0x01, value),
            ),
    {
        let mut keys = self.get_keys_2();
        if !value {
            keys = keys | 0x01;
        } else {
            keys = keys & !0x01;
        }
        self.set_keys_2(keys);
    }

    pub fn get_left(&self) -> (r: u8)
        ensures
            r == spec_keys_2(self.value) & 0x02,
    {
        self.get_keys_2() & 0x02
    }

    pub fn set_left(&mut self, value: bool)
        ensures
            final(self).value == spec_set_keys_2(
                old(self).value,
                spec_press(spec_keys_2(old(self).value), 0x02, value),
            ),
    {
        let mut keys = self.get_keys_2();
        if !value {
            keys = keys | 0x02;
        } else {
            keys = keys & !0x02;
        }
        self.set_keys_2(keys);
    }

    pub fn get_up(&self) -> (r: u8)
        ensures
            r == spec_keys_2(self.value) & 0x04,
    {
        self.get_keys_2() & 0x04
    }

    pub fn set_up(&mut self, value: bool)
        ensures
            final(self).value == spec_set_keys_2(
                old(self).value,
                spec_press(spec_keys_2(old(self).value), 0x04, value),
            ),
    {
        let mut keys = self.get_keys_2();
        if !value {
            keys = keys | 0x04;
        } else {
            keys = keys & !0x04;
        }
        self.set_keys_2(keys);
    }

    pub fn get_down(&self) -> (r: u8)
        ensures
            r == spec_keys_2(self.value) & 0x08,
    {
        self.get_keys_2() & 0x08
    }

    pub fn set_down(&mut self, value: bool)
        ensures
            final(self).value == spec_set_keys_2(
                old(self).value,
                spec_press(spec_keys_2(old(self).value), 0x08, value),
            ),
    {
        let mut keys = self.get_keys_2();
        if !value {
            keys = keys | 0x08;
        } else {
            keys = keys & !0x08;
        }
        self.set_keys_2(keys);
    }
}

} // verus!
