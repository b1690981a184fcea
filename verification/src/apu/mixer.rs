use vstd::prelude::*;
use crate::bits::{has_bit, test_bit};

verus! {

/// The stereo mixer: a master volume from 0 to 7 for each side, and for
/// each channel whether it sounds on the left and on the right.
#[derive(Debug, Copy, Clone, PartialEq, Eq, Structural)]
pub struct Mixer {
    pub vol_left: i16,
    pub vol_right: i16,
    pub ch4_l: bool,
    pub ch3_l: bool,
    pub ch2_l: bool,
    pub ch1_l: bool,
    pub ch4_r: bool,
    pub ch3_r: bool,
    pub ch2_r: bool,
    pub ch1_r: bool,
}

/// The sample where the channel is switched on, else silence.
pub open spec fn routed(on: bool, sample: i16) -> int {
    if on {
        sample as int
    } else {
        0
    }
}

impl Mixer {
    pub open spec fn wf(self) -> bool {
        0 <= self.vol_left <= 7 && 0 <= self.vol_right <= 7
    }

    pub open spec fn initial() -> Mixer {
        Mixer {
            vol_left: 0,
            vol_right: 0,
            ch4_l: false,
            ch3_l: false,
            ch2_l: false,
            ch1_l: false,
            ch4_r: false,
            ch3_r: false,
            ch2_r: false,
            ch1_r: false,
        }
    }

    /// The mixer after a write: NR50 at 0xFF24 holds the two volumes, NR51
    /// at 0xFF25 the switches, the left side in the high nibble.
    pub open spec fn written(self, address: u16, value: u8) -> Mixer {
        if address == 0xFF24 {
            Mixer { vol_left: ((value / 16) % 8) as i16, vol_right: (value % 8) as i16, ..self }
        } else if address == 0xFF25 {
            Mixer {
                ch4_l: has_bit(value, 0x80),
                ch3_l: has_bit(value, 0x40),
                ch2_l: has_bit(value, 0x20),
                ch1_l: has_bit(value, 0x10),
                ch4_r: has_bit(value, 0x08),
                ch3_r: has_bit(value, 0x04),
                ch2_r: has_bit(value, 0x02),
                ch1_r: has_bit(value, 0x01),
                ..self
            }
        } else {
            self
        }
    }

    /// The left output: the volume times the sum of the channels that are
    /// switched to the left.
    pub open spec fn left(self, ch1: i16, ch2: i16, ch3: i16, ch4: i16) -> int {
        self.vol_left * (routed(self.ch1_l, ch1) + routed(self.ch2_l, ch2) + routed(self.ch3_l, ch3)
            + routed(self.ch4_l, ch4))
    }

    /// The right output.
    pub open spec fn right(self, ch1: i16, ch2: i16, ch3: i16, ch4: i16) -> int {
        self.vol_right * (routed(self.ch1_r, ch1) + routed(self.ch2_r, ch2) + routed(
            self.ch3_r,
            ch3,
        ) + routed(self.ch4_r, ch4))
    }

    pub fn new() -> (mixer: Mixer)
        ensures
            mixer == Self::initial(),
            mixer.wf(),
    {
        Mixer {
            vol_left: 0,
            vol_right: 0,
            ch4_l: false,
            ch3_l: false,
            ch2_l: false,
            ch1_l: false,
            ch4_r: false,
            ch3_r: false,
            ch2_r: false,
            ch1_r: false,
        }
    }

    pub fn write_byte(&mut self, address: u16, value: u8)
        ensures
            *final(self) == old(self).written(address, value),
            old(self).wf() ==> final(self).wf(),
    {
        if address == 0xFF24 {
            *self = Mixer { vol_left: ((value / 16) % 8) as i16, vol_right: (value % 8) as i16, ..*self };
        } else if address == 0xFF25 {
            *self = Mixer {
                ch4_l: test_bit(value, 0x80),
                ch3_l: test_bit(value, 0x40),
                ch2_l: test_bit(value, 0x20),
                ch1_l: test_bit(value, 0x10),
                ch4_r: test_bit(value, 0x08),
                ch3_r: test_bit(value, 0x04),
                ch2_r: test_bit(value, 0x02),
                ch1_r: test_bit(value, 0x01),
                ..*self
            };
        }
    }

    /// Mixes one sample of each channel to a left and a right output,
    /// which must fit 16 bits.
    pub fn mix(&self, ch1: i16, ch2: i16, ch3: i16, ch4: i16) -> (out: (i16, i16))
        requires
            self.wf(),
            -0x8000 <= self.left(ch1, ch2, ch3, ch4) <= 0x7FFF,
            -0x8000 <= self.right(ch1, ch2, ch3, ch4) <= 0x7FFF,
        ensures
            out.0 == self.left(ch1, ch2, ch3, ch4),
            out.1 == self.right(ch1, ch2, ch3, ch4),
    {
        let left: i32 = Self::route(self.ch1_l, ch1) + Self::route(self.ch2_l, ch2) + Self::route(
            self.ch3_l,
            ch3,
        ) + Self::route(self.ch4_l, ch4);
        let right: i32 = Self::route(self.ch1_r, ch1) + Self::route(self.ch2_r, ch2) + Self::route(
            self.ch3_r,
            ch3,
        ) + Self::route(self.ch4_r, ch4);
        assert(-0x100000 <= self.vol_left * left <= 0x100000) by (nonlinear_arith)
            requires
                0 <= self.vol_left <= 7,
                -0x20000 <= left <= 0x20000,
        ;
        assert(-0x100000 <= self.vol_right * right <= 0x100000) by (nonlinear_arith)
            requires
                0 <= self.vol_right <= 7,
                -0x20000 <= right <= 0x20000,
        ;
        ((self.vol_left as i32 * left) as i16, (self.vol_right as i32 * right) as i16)
    }

    fn route(on: bool, sample: i16) -> (out: i32)
        ensures
            out == routed(on, sample),
    {
        if on {
            sample as i32
        } else {
            0
        }
    }
}

} // verus!
