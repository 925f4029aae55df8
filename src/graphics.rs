use vstd::prelude::*;

use crate::math::{Size, Vec2};

verus! {

/// The four colours that need no pattern.
#[allow(non_camel_case_types)]
#[derive(Debug, Clone, Copy, PartialEq, Eq, Hash, Structural)]
pub enum LCDSolidColor {
    kColorBlack,
    kColorWhite,
    kColorClear,
    kColorXOR,
}

impl LCDSolidColor {
    /// The value that stands for the colour in a native colour word.
    pub open spec fn code(self) -> u64 {
        match self {
            LCDSolidColor::kColorBlack => 0,
            LCDSolidColor::kColorWhite => 1,
            LCDSolidColor::kColorClear => 2,
            LCDSolidColor::kColorXOR => 3,
        }
    }
}

/// A native colour word: one of the solid colours (`0` to `3`), or else the
/// address of an 8x8 pattern.
#[derive(Debug, PartialEq, Eq, Hash, Default, Structural)]
pub struct LCDColor(pub u64);

impl LCDColor {
    /// The solid colour that the word names, if it names one.
    pub fn as_solid_color(&self) -> (r: Option<LCDSolidColor>)
        ensures
            self.0 <= 3 ==> (r matches Some(c) && c.code() == self.0),
            self.0 > 3 ==> r is None,
    {
        match self.0 {
            0 => Some(LCDSolidColor::kColorBlack),
            1 => Some(LCDSolidColor::kColorWhite),
            2 => Some(LCDSolidColor::kColorClear),
            3 => Some(LCDSolidColor::kColorXOR),
            _ => None,
        }
    }
}

impl From<LCDSolidColor> for LCDColor {
    fn from(value: LCDSolidColor) -> Self {
        match value {
            LCDSolidColor::kColorBlack => LCDColor(0),
            LCDSolidColor::kColorWhite => LCDColor(1),
            LCDSolidColor::kColorClear => LCDColor(2),
            LCDSolidColor::kColorXOR => LCDColor(3),
        }
    }
}

impl vstd::std_specs::convert::FromSpecImpl<LCDSolidColor> for LCDColor {
    open spec fn obeys_from_spec() -> bool {
        true
    }

    open spec fn from_spec(v: LCDSolidColor) -> Self {
        LCDColor(v.code())
    }
}

/// The pixels of an image, one bit each, rows of `rowbytes` bytes; a set bit
/// is a black pixel. `mask`, where there is one, is laid out the same way.
#[derive(PartialEq, Eq, Debug, Clone)]
pub struct BitmapData {
    pub size: Size<i32>,
    pub rowbytes: i32,
    pub mask: Option<Vec<u8>>,
    pub data: Vec<u8>,
}

/// The index of the byte that holds pixel (`x`, `y`).
pub open spec fn pixel_byte(rowbytes: int, x: int, y: int) -> int {
    y * rowbytes + x / 8
}

/// Whether bit `7 - i` (counting from the least significant) of `b` is set:
/// the leftmost pixel of a byte is its most significant bit.
pub open spec fn pixel_bit(b: u8, i: int) -> bool {
    (b as int / vstd::arithmetic::power2::pow2((7 - i) as nat) as int) % 2 == 1
}

impl BitmapData {
    /// Empty data: no pixels, no mask.
    pub fn new() -> (r: Self)
        ensures
            r.size.width == 0 && r.size.height == 0,
            r.rowbytes == 0,
            r.mask is None,
            r.data@.len() == 0,
    {
        BitmapData { size: Size::new(0, 0), rowbytes: 0, mask: None, data: Vec::new() }
    }

    /// Whether the pixel at `pos` is black.
    pub fn get_pixel(&self, pos: Vec2<u32>) -> (r: bool)
        requires
            self.rowbytes >= 0,
            0 <= pixel_byte(self.rowbytes as int, pos.x as int, pos.y as int) < self.data@.len(),
        ensures
            r == pixel_bit(
                self.data@[pixel_byte(self.rowbytes as int, pos.x as int, pos.y as int)],
                pos.x as int % 8,
            ),
    {
        let n = self.data.len();
        let row = pos.y as usize;
        let rb = self.rowbytes as usize;
        assert(0 <= row * rb <= pixel_byte(self.rowbytes as int, pos.x as int, pos.y as int)) by (
        nonlinear_arith)
            requires
                row == pos.y,
                rb == self.rowbytes,
                rb >= 0,
                row >= 0,
        ;
        let index = row * rb + (pos.x / 8) as usize;
        let v = self.data[index];
        let bit = (pos.x % 8) as u8;
        let shifted = v >> (7 - bit);
        proof {
            vstd::bits::lemma_u8_shr_is_div(v, (7 - bit) as u8);
        }
        shifted % 2 == 1
    }
}

} // verus!
