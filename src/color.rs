use vstd::prelude::*;

verus! {

/// An RGBA color with 8 bits per channel.
#[derive(Clone, Copy, Debug, PartialEq, Eq, Structural)]
pub struct Color {
    pub r: u8,
    pub g: u8,
    pub b: u8,
    pub a: u8,
}

/// The two shades of the placeholder drawn under an empty cell.
#[derive(Clone, Copy, Debug, PartialEq, Eq, Structural)]
pub enum Checker {
    Light,
    Dark,
}

pub open spec fn checker_spec(x: usize, y: usize) -> Checker {
    if (x as int + y as int) % 2 == 0 {
        Checker::Light
    } else {
        Checker::Dark
    }
}

/// The placeholder shade of cell `(x, y)`: light where `x + y` is even.
pub fn get_checkerboard(x: usize, y: usize) -> (r: Checker)
    ensures
        r == checker_spec(x, y),
{
    if (x % 2 == 0) == (y % 2 == 0) {
        Checker::Light
    } else {
        Checker::Dark
    }
}

} // verus!
