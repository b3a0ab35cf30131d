use vstd::prelude::*;

verus! {

/// The packed value of an opaque colour: alpha in the top byte, then blue,
/// green and red in the lowest byte.
pub open spec fn packed_rgb(r: u8, g: u8, b: u8) -> u32 {
    (0xff00_0000 + b * 0x1_0000 + g * 0x100 + r) as u32
}

/// Packs `(r, g, b)` into one 32-bit value with full alpha.
pub fn new_colour(r: u8, g: u8, b: u8) -> (c: u32)
    ensures
        c == packed_rgb(r, g, b),
        c as int == 0xff00_0000 + b * 0x1_0000 + g * 0x100 + r,
{
    let bb: u32 = b as u32;
    let gg: u32 = g as u32;
    let rr: u32 = r as u32;
    assert(bb << 16 == bb * 0x1_0000) by (bit_vector)
        requires
            bb < 256,
    ;
    assert(gg << 8 == gg * 0x100) by (bit_vector)
        requires
            gg < 256,
    ;
    0xff00_0000u32 + (bb << 16) + (gg << 8) + rr
}

/// The eight named colours.
#[derive(Clone, Copy, Debug, PartialEq, Eq, Structural)]
pub enum Colour {
    Black,
    Red,
    Green,
    Yellow,
    Blue,
    Magenta,
    Cyan,
    White,
}

/// The `(r, g, b)` components of a named colour: each either 0 or 255.
pub open spec fn colour_rgb(c: Colour) -> (u8, u8, u8) {
    match c {
        Colour::Black => (0, 0, 0),
        Colour::Red => (255, 0, 0),
        Colour::Green => (0, 255, 0),
        Colour::Yellow => (255, 255, 0),
        Colour::Blue => (0, 0, 255),
        Colour::Magenta => (255, 0, 255),
        Colour::Cyan => (0, 255, 255),
        Colour::White => (255, 255, 255),
    }
}

/// The packed value of a named colour.
pub open spec fn colour_value(c: Colour) -> u32 {
    let (r, g, b) = colour_rgb(c);
    packed_rgb(r, g, b)
}

impl From<Colour> for u32 {
    fn from(c: Colour) -> (v: u32)
        ensures
            v == colour_value(c),
    {
        match c {
            Colour::Black => new_colour(0, 0, 0),
            Colour::Red => new_colour(255, 0, 0),
            Colour::Green => new_colour(0, 255, 0),
            Colour::Yellow => new_colour(255, 255, 0),
            Colour::Blue => new_colour(0, 0, 255),
            Colour::Magenta => new_colour(255, 0, 255),
            Colour::Cyan => new_colour(0, 255, 255),
            Colour::White => new_colour(255, 255, 255),
        }
    }
}

impl vstd::std_specs::convert::FromSpecImpl<Colour> for u32 {
    open spec fn obeys_from_spec() -> bool {
        true
    }

    open spec fn from_spec(c: Colour) -> u32 {
        colour_value(c)
    }
}

} // verus!
