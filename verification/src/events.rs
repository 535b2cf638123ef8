//! Pointer events and surface-local coordinates.

use vstd::prelude::*;

verus! {

/// Largest magnitude a pointer coordinate handed in by the host may have.
/// Real surfaces are a few thousand units wide, so this is no practical
/// restriction; it keeps every coordinate computation inside `i64`.
pub const MAX_COORD: i64 = 0x1000_0000_0000_0000;

/// A coordinate the host may hand in: within `MAX_COORD` of the origin.
pub open spec fn coord_in_range(v: int) -> bool {
    -MAX_COORD <= v <= MAX_COORD
}

/// A position on the drawing surface, in surface-local units.
#[derive(Clone, Copy, Debug, PartialEq, Eq, Structural)]
pub struct Point {
    pub x: i64,
    pub y: i64,
}

/// Both coordinates of `p` are within the host coordinate range.
pub open spec fn point_in_range(p: Point) -> bool {
    coord_in_range(p.x as int) && coord_in_range(p.y as int)
}

/// One pointer event, with its surface-local position.
#[derive(Clone, Copy, Debug, PartialEq, Eq, Structural)]
pub enum Event {
    MouseDown { point: Point },
    MouseMove { point: Point },
    MouseUp { point: Point },
}

impl Event {
    /// The position the event carries, whatever its kind.
    pub open spec fn spec_point(self) -> Point {
        match self {
            Event::MouseDown { point } => point,
            Event::MouseMove { point } => point,
            Event::MouseUp { point } => point,
        }
    }

    /// The position the event carries, whatever its kind.
    pub fn point(&self) -> (p: Point)
        ensures
            p == self.spec_point(),
    {
        match self {
            Event::MouseDown { point } => *point,
            Event::MouseMove { point } => *point,
            Event::MouseUp { point } => *point,
        }
    }
}

} // verus!
