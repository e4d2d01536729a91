//! Rectangles on the screen.

use vstd::prelude::*;

verus! {

/// A rectangle of the screen, in columns and rows.
#[derive(Debug, Clone, Copy, PartialEq, Eq, Structural)]
pub struct Area {
    pub x: u16,
    pub y: u16,
    pub width: u16,
    pub height: u16,
}

impl Area {
    pub fn new(x: u16, y: u16, width: u16, height: u16) -> (area: Area)
        ensures
            area == (Area { x, y, width, height }),
    {
        Area { x, y, width, height }
    }

    /// The row of the last line of the rectangle; its first row if it has
    /// no line at all.
    pub open spec fn last_row(self) -> int {
        if self.height == 0 {
            self.y as int
        } else {
            self.y + self.height - 1
        }
    }
}

} // verus!
