//! Display colors for canvas primitives.

use vstd::prelude::*;

verus! {

/// A display color, named after the conventional terminal palette, with an
/// escape hatch for true-color values.
#[derive(Clone, Copy, Debug, PartialEq, Eq, Structural)]
pub enum Color {
    /// Black.
    Black,
    /// Red.
    Red,
    /// Green.
    Green,
    /// Yellow.
    Yellow,
    /// Blue.
    Blue,
    /// Magenta.
    Magenta,
    /// Cyan.
    Cyan,
    /// White.
    White,
    /// Gray.
    Gray,
    /// A true-color value given as red, green and blue components.
    Rgb(u8, u8, u8),
}

} // verus!
