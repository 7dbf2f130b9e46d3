//! The two tones of the panel.

use vstd::prelude::*;
use vstd::std_specs::convert::FromSpecImpl;

verus! {

/// One of the panel's two tones.
#[derive(Clone, Copy, Debug, PartialEq, Eq, Structural)]
pub enum Color {
    Black,
    White,
}

impl Color {
    /// The bit that stands for this tone in a packed frame: 0 is black, 1 is white.
    pub open spec fn spec_bit(self) -> u8 {
        match self {
            Color::Black => 0,
            Color::White => 1,
        }
    }

    /// The byte that paints eight neighbouring pixels in this tone.
    pub open spec fn fill_byte(self) -> u8 {
        match self {
            Color::Black => 0x00,
            Color::White => 0xff,
        }
    }

    /// The tone that a byte's lowest bit stands for; the other seven bits do not
    /// count.
    pub open spec fn of_lowest_bit(value: u8) -> Color {
        if value % 2 == 0 {
            Color::Black
        } else {
            Color::White
        }
    }

    /// Returns the bit that stands for this tone in a packed frame.
    #[verifier::when_used_as_spec(spec_bit)]
    pub fn bit(self) -> (r: u8)
        ensures
            r == self.spec_bit(),
    {
        match self {
            Color::Black => 0,
            Color::White => 1,
        }
    }
}

impl From<u8> for Color {
    /// Reads a tone from the lowest bit of `value`; the other seven bits are ignored.
    fn from(value: u8) -> (r: Color) {
        assert(value & 0x01 == value % 2) by (bit_vector);
        if value & 0x01 == 0x00 {
            Color::Black
        } else {
            Color::White
        }
    }
}

impl FromSpecImpl<u8> for Color {
    open spec fn obeys_from_spec() -> bool {
        true
    }

    open spec fn from_spec(value: u8) -> Color {
        Color::of_lowest_bit(value)
    }
}

impl From<Color> for u8 {
    /// Turns a tone into its fill byte: `0xff` for white, `0x00` for black.
    fn from(color: Color) -> (r: u8) {
        match color {
            Color::White => 0xff,
            Color::Black => 0x00,
        }
    }
}

impl FromSpecImpl<Color> for u8 {
    open spec fn obeys_from_spec() -> bool {
        true
    }

    open spec fn from_spec(color: Color) -> u8 {
        color.fill_byte()
    }
}

/// A tone survives the trip to its bit and back.
pub proof fn lemma_bit_round_trip(color: Color)
    ensures
        Color::of_lowest_bit(color.bit()) == color,
{
}

/// Reading a tone from a byte and turning it back into a bit yields the byte's
/// lowest bit.
pub proof fn lemma_from_reads_lowest_bit(value: u8)
    ensures
        Color::of_lowest_bit(value).bit() == value % 2,
{
}

/// Every bit of a tone's fill byte is the tone's own bit, so a byte read back
/// from a flooded frame gives the tone that flooded it.
pub proof fn lemma_fill_byte_repeats_bit(color: Color)
    ensures
        color.fill_byte() == 255 * color.bit(),
        Color::of_lowest_bit(color.fill_byte()) == color,
{
}

} // verus!
