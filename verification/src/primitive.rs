//! Primitives the GPU hands to the rasterizer sink: screen positions and
//! colors, unpacked from GP0 command words.

use vstd::prelude::*;

verus! {

/// A vertex position: signed 16-bit x and y packed into a command word.
#[derive(Clone, Copy, Debug, PartialEq, Eq, Structural)]
pub struct Position(pub i16, pub i16);

/// Low 16 bits of `val` as a signed 16-bit value.
pub open spec fn gp0_x(val: u32) -> i16 {
    val as i16
}

/// High 16 bits of `val` as a signed 16-bit value.
pub open spec fn gp0_y(val: u32) -> i16 {
    (val >> 16) as i16
}

impl Position {
    /// Unpacks x from the low and y from the high half of a command word.
    pub fn from_gp0(val: u32) -> (r: Position)
        ensures
            r == (Position(gp0_x(val), gp0_y(val))),
    {
        let x = val as i16;
        let y = (val >> 16) as i16;

        Position(x, y)
    }
}

/// An 8-bit RGB color packed low to high in a command word.
#[derive(Clone, Copy, Debug, PartialEq, Eq, Structural)]
pub struct Color(pub u8, pub u8, pub u8);

impl Color {
    /// Unpacks red, green and blue from the low three bytes of a command
    /// word.
    pub fn from_gp0(val: u32) -> (r: Color)
        ensures
            r == (Color(val as u8, (val >> 8) as u8, (val >> 16) as u8)),
    {
        let r = val as u8;
        let g = (val >> 8) as u8;
        let b = (val >> 16) as u8;

        Color(r, g, b)
    }
}

} // verus!
