//! Layout module - constraint-based layout description.
//!
//! Describes how a rectangular area should be divided: a direction, a list
//! of size constraints, and an outer margin.  The host rendering framework
//! consumes the description when it splits the terminal area.

use vstd::prelude::*;

verus! {

/// Represents a layout constraint for dividing space.
#[derive(Debug, Clone, Copy)]
pub enum Constraint {
    /// Percentage of available space (0 to 100).
    Percentage(u16),
    /// Ratio of available space (numerator, denominator).
    Ratio(u32, u32),
    /// Fixed length in characters.
    Length(u16),
    /// Minimum size.
    Min(u16),
    /// Maximum size.
    Max(u16),
}

/// Layout direction.
#[derive(Debug, Clone, Copy)]
pub enum Direction {
    /// Horizontal layout (left to right).
    Horizontal,
    /// Vertical layout (top to bottom).
    Vertical,
}

/// Layout builder for dividing rectangular areas.
pub struct Layout {
    /// Direction the area is divided in.
    pub direction: Direction,
    /// Size constraints, one per resulting region.
    pub constraints: Vec<Constraint>,
    /// Outer margin in characters.
    pub margin: u16,
}

impl Layout {
    /// Create a new layout with the given direction, no constraints, and
    /// no margin.
    pub fn new(direction: Direction) -> (r: Layout)
        ensures
            r.direction == direction,
            r.constraints@.len() == 0,
            r.margin == 0,
    {
        Layout { direction, constraints: Vec::new(), margin: 0 }
    }

    /// Create a vertical layout.
    pub fn vertical() -> (r: Layout)
        ensures
            r.direction == Direction::Vertical,
            r.constraints@.len() == 0,
            r.margin == 0,
    {
        Layout::new(Direction::Vertical)
    }

    /// Create a horizontal layout.
    pub fn horizontal() -> (r: Layout)
        ensures
            r.direction == Direction::Horizontal,
            r.constraints@.len() == 0,
            r.margin == 0,
    {
        Layout::new(Direction::Horizontal)
    }

    /// Set the constraints for this layout.
    pub fn constraints(self, constraints: Vec<Constraint>) -> (r: Layout)
        ensures
            r.direction == self.direction,
            r.constraints == constraints,
            r.margin == self.margin,
    {
        Layout { constraints, ..self }
    }

    /// Set the margin for this layout.
    pub fn margin(self, margin: u16) -> (r: Layout)
        ensures
            r.direction == self.direction,
            r.constraints == self.constraints,
            r.margin == margin,
    {
        Layout { margin, ..self }
    }
}

} // verus!
