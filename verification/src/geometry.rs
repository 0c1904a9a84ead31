//! Points, sizes and rectangles in the coordinate spaces the controller
//! works with, and the conversion between them.
//!
//! Two coordinate spaces appear throughout the crate: virtual-screen
//! coordinates, an absolute space spanning all attached displays, and
//! container-relative coordinates, interpreted against the client area of a
//! specific parent window. A rectangle does not record which space it is in;
//! which component produced it determines that, and callers must not mix the
//! two spaces.

use vstd::prelude::*;

verus! {

/// Magnitude bound on virtual-screen coordinates. Window systems report
/// positions as 32-bit values, so every screen coordinate the host hands in
/// fits in this range.
pub const COORD_LIMIT: i64 = 0x8000_0000;

/// Magnitude bound on positions a window model may reach. Converting a
/// bounded screen position into the space of a bounded container origin, or
/// centering inside a bounded display, at most doubles the magnitude, so the
/// model allows positions a few times larger than `COORD_LIMIT`.
pub const POS_LIMIT: i64 = 0x8_0000_0000;

/// A point, in whichever coordinate space the context assigns it.
#[derive(Clone, Copy, PartialEq, Eq, Structural, Debug)]
pub struct Point {
    pub x: i64,
    pub y: i64,
}

/// A width and height in physical pixels.
#[derive(Clone, Copy, PartialEq, Eq, Structural, Debug)]
pub struct Dim {
    pub width: u32,
    pub height: u32,
}

/// An axis-aligned rectangle: origin plus size.
#[derive(Clone, Copy, PartialEq, Eq, Structural, Debug)]
pub struct GeometryRect {
    pub x: i64,
    pub y: i64,
    pub width: u32,
    pub height: u32,
}

impl Point {
    /// The point lies within the virtual-screen coordinate range.
    pub open spec fn on_screen(self) -> bool {
        -COORD_LIMIT <= self.x <= COORD_LIMIT && -COORD_LIMIT <= self.y <= COORD_LIMIT
    }

    /// The point lies within the wider range a window model position may
    /// occupy.
    pub open spec fn in_model_range(self) -> bool {
        -POS_LIMIT <= self.x <= POS_LIMIT && -POS_LIMIT <= self.y <= POS_LIMIT
    }
}

impl GeometryRect {
    /// The rectangle's origin lies on the virtual screen.
    pub open spec fn on_screen(self) -> bool {
        self.origin().on_screen()
    }

    /// The rectangle's top-left corner.
    pub open spec fn origin(self) -> Point {
        Point { x: self.x, y: self.y }
    }

    /// The rectangle's extent.
    pub open spec fn size(self) -> Dim {
        Dim { width: self.width, height: self.height }
    }
}

/// Where a screen point lands in the coordinate space of a container whose
/// client area starts at `origin` (in screen coordinates): the plain
/// componentwise difference.
pub open spec fn to_container_space(p: Point, origin: Point) -> Point {
    Point { x: (p.x - origin.x) as i64, y: (p.y - origin.y) as i64 }
}

/// Converts an absolute virtual-screen point into the client coordinate
/// space of the container whose client area begins at `origin` on the
/// screen. Required after reparenting: from then on the window system
/// interprets the window's position against the new parent, not the screen.
pub fn screen_to_container(p: Point, origin: Point) -> (r: Point)
    requires
        p.on_screen(),
        origin.on_screen(),
    ensures
        r == to_container_space(p, origin),
        r.in_model_range(),
{
    Point { x: p.x - origin.x, y: p.y - origin.y }
}

} // verus!
