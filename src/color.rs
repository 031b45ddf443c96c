use vstd::prelude::*;

verus! {

/// The state of a pixel on the black/white plane.
#[derive(Clone, Copy, PartialEq, Eq, Debug, Structural)]
pub enum Color {
    Black,
    White,
}

impl Color {
    /// The color encoded by `value`: 0 is black, 1 is white.
    pub fn from(value: u8) -> (c: Color)
        requires
            value <= 1,
        ensures
            value == 0 ==> c == Color::Black,
            value == 1 ==> c == Color::White,
    {
        if value == 0 {
            Color::Black
        } else {
            Color::White
        }
    }
}

} // verus!
