//! Sampled colours and their native representation.
use vstd::prelude::*;

verus! {

#[derive(Debug, Clone, Copy, PartialEq, Eq, Hash, Structural)]
pub struct Rgb8 {
    pub r: u8,
    pub g: u8,
    pub b: u8,
}

/// A native colour value: red in the low byte, then green, then blue.
pub open spec fn color_ref(r: int, g: int, b: int) -> int {
    r + g * 0x100 + b * 0x10000
}

impl Rgb8 {
    pub fn new(r: u8, g: u8, b: u8) -> (rgb: Self)
        ensures
            rgb == (Rgb8 { r, g, b }),
    {
        Rgb8 { r, g, b }
    }

    /// The native value of this colour.
    pub fn to_color_ref(&self) -> (value: u32)
        ensures
            value == color_ref(self.r as int, self.g as int, self.b as int),
    {
        let r: u32 = self.r as u32;
        let g: u32 = self.g as u32;
        let b: u32 = self.b as u32;
        assert(r | (g << 8) | (b << 16) == r + g * 0x100 + b * 0x10000) by (bit_vector)
            requires
                r < 0x100,
                g < 0x100,
                b < 0x100,
        ;
        r | (g << 8) | (b << 16)
    }
}

/// The native value of a colour written as `0xRRGGBB`.
pub open spec fn color_ref_of_hex(value: int) -> int {
    color_ref(value / 0x10000 % 0x100, value / 0x100 % 0x100, value % 0x100)
}

/// Converts `0xRRGGBB` into the native byte order.
pub fn rgb(value: u32) -> (r: u32)
    ensures
        r == color_ref_of_hex(value as int),
{
    assert(((value & 0xff) << 16) | (value & 0xff00) | ((value >> 16) & 0xff) == value / 0x10000
        % 0x100 + (value / 0x100 % 0x100) * 0x100 + (value % 0x100) * 0x10000) by (bit_vector);
    ((value & 0xff) << 16) | (value & 0xff00) | ((value >> 16) & 0xff)
}

/// A sampled colour and its written form have the same native value.
pub proof fn written_colours_match_sampled_ones(sample: Rgb8)
    ensures
        color_ref_of_hex(sample.r * 0x10000 + sample.g * 0x100 + sample.b) == color_ref(
            sample.r as int,
            sample.g as int,
            sample.b as int,
        ),
{
}

/// A native colour holds red in its lowest byte, then green, then blue, and nothing
/// above; so different colours have different values.
pub proof fn native_colours_hold_the_channels(sample: Rgb8, other: Rgb8)
    ensures
        ({
            let value = color_ref(sample.r as int, sample.g as int, sample.b as int);
            &&& 0 <= value < 0x100_0000
            &&& value % 0x100 == sample.r
            &&& value / 0x100 % 0x100 == sample.g
            &&& value / 0x10000 == sample.b
            &&& value == color_ref(other.r as int, other.g as int, other.b as int) ==> sample
                == other
        }),
{
}

/// Turning a written colour into a native one swaps its first and its last byte;
/// doing so twice gives the written colour back.
pub proof fn native_order_is_its_own_inverse(value: int)
    requires
        0 <= value < 0x100_0000,
    ensures
        color_ref_of_hex(value) % 0x100 == value / 0x10000,
        color_ref_of_hex(color_ref_of_hex(value)) == value,
{
}

} // verus!
