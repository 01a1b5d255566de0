//! Drawing primitives handed to the host surface.
//!
//! A render pass produces a sequence of these commands; the host paints them
//! onto its own surface in order.  Coordinates are fixed-point canvas
//! coordinates (thousandths of a unit, see [`crate::fixed`]).

use vstd::prelude::*;
use crate::color::Color;

verus! {

/// One drawing primitive for the host surface.
#[derive(Clone, Copy, Debug, PartialEq, Eq, Structural)]
pub enum DrawCmd {
    /// A line segment from `(x1, y1)` to `(x2, y2)`.
    Line { x1: i64, y1: i64, x2: i64, y2: i64, color: Color },
    /// An axis-aligned rectangle with top-left corner `(x, y)`.
    Rect { x: i64, y: i64, width: i64, height: i64, color: Color },
    /// A single point.
    Point { x: i64, y: i64, color: Color },
}

} // verus!
