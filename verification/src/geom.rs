//! Integer geometry: points, sizes, rectangles, alignment policies, and the
//! coordinate clamping that keeps every stored quantity within machine range.

use vstd::prelude::*;

verus! {

/// Largest magnitude a coordinate may take, and largest value of a dimension
/// or margin. Keeping every stored quantity within this bound lets all layout
/// arithmetic stay comfortably inside `i64`.
pub const COORD_LIMIT: i64 = 0x4000_0000;

/// A coordinate within the representable range.
pub open spec fn coord_ok(v: i64) -> bool {
    -COORD_LIMIT <= v <= COORD_LIMIT
}

/// A dimension (width, height) or margin: non-negative and within range.
pub open spec fn dim_ok(v: i64) -> bool {
    0 <= v <= COORD_LIMIT
}

/// Clamp a mathematical coordinate into the representable range.
pub open spec fn clamp_coord_spec(v: int) -> int {
    if v < -(COORD_LIMIT as int) {
        -(COORD_LIMIT as int)
    } else if v > COORD_LIMIT as int {
        COORD_LIMIT as int
    } else {
        v
    }
}

/// Clamp a mathematical dimension into `[0, COORD_LIMIT]`.
pub open spec fn clamp_dim_spec(v: int) -> int {
    if v < 0 {
        0
    } else if v > COORD_LIMIT as int {
        COORD_LIMIT as int
    } else {
        v
    }
}

/// Executable counterpart of `clamp_coord_spec`.
pub fn clamp_coord(v: i64) -> (r: i64)
    ensures
        r as int == clamp_coord_spec(v as int),
{
    if v < -COORD_LIMIT {
        -COORD_LIMIT
    } else if v > COORD_LIMIT {
        COORD_LIMIT
    } else {
        v
    }
}

/// Executable counterpart of `clamp_dim_spec`.
pub fn clamp_dim(v: i64) -> (r: i64)
    ensures
        r as int == clamp_dim_spec(v as int),
{
    if v < 0 {
        0
    } else if v > COORD_LIMIT {
        COORD_LIMIT
    } else {
        v
    }
}

/// A position in absolute (screen) space.
#[derive(Clone, Copy, Debug, PartialEq, Eq, Structural)]
pub struct Point {
    pub x: i64,
    pub y: i64,
}

impl Point {
    pub open spec fn in_bounds(self) -> bool {
        coord_ok(self.x) && coord_ok(self.y)
    }
}

/// A two-dimensional extent.
#[derive(Clone, Copy, Debug, PartialEq, Eq, Structural)]
pub struct Size {
    pub w: i64,
    pub h: i64,
}

impl Size {
    pub open spec fn in_bounds(self) -> bool {
        dim_ok(self.w) && dim_ok(self.h)
    }
}

/// An axis-aligned rectangle in absolute space.
#[derive(Clone, Copy, Debug, PartialEq, Eq, Structural)]
pub struct Rect {
    pub x: i64,
    pub y: i64,
    pub w: i64,
    pub h: i64,
}

/// Half-open rectangle containment: a point on the right or bottom edge is
/// outside.
pub open spec fn rect_contains(r: Rect, p: Point) -> bool {
    &&& r.x <= p.x < r.x + r.w
    &&& r.y <= p.y < r.y + r.h
}

impl Rect {
    pub open spec fn in_bounds(self) -> bool {
        coord_ok(self.x) && coord_ok(self.y) && dim_ok(self.w) && dim_ok(self.h)
    }

    pub open spec fn spec_origin(self) -> Point {
        Point { x: self.x, y: self.y }
    }

    pub open spec fn spec_size(self) -> Size {
        Size { w: self.w, h: self.h }
    }

    pub fn new(origin: Point, size: Size) -> (r: Rect)
        ensures
            r == (Rect { x: origin.x, y: origin.y, w: size.w, h: size.h }),
    {
        Rect { x: origin.x, y: origin.y, w: size.w, h: size.h }
    }

    pub fn origin(&self) -> (p: Point)
        ensures
            p == self.spec_origin(),
    {
        Point { x: self.x, y: self.y }
    }

    pub fn size(&self) -> (s: Size)
        ensures
            s == self.spec_size(),
    {
        Size { w: self.w, h: self.h }
    }

    /// Whether every coordinate and dimension is within representable range.
    pub fn check_in_bounds(&self) -> (b: bool)
        ensures
            b == self.in_bounds(),
    {
        -COORD_LIMIT <= self.x && self.x <= COORD_LIMIT && -COORD_LIMIT <= self.y && self.y
            <= COORD_LIMIT && 0 <= self.w && self.w <= COORD_LIMIT && 0 <= self.h && self.h
            <= COORD_LIMIT
    }

    /// Rectangle containment used for hit tests.
    pub fn contains(&self, p: Point) -> (b: bool)
        requires
            self.in_bounds(),
        ensures
            b == rect_contains(*self, p),
    {
        self.x <= p.x && p.x < self.x + self.w && self.y <= p.y && p.y < self.y + self.h
    }
}

/// Horizontal alignment of a child within its container.
#[derive(Clone, Copy, Debug, PartialEq, Eq, Structural)]
pub enum Align {
    /// Flush to the container's left edge.
    Begin,
    /// Centered between the container's edges.
    Middle,
    /// Flush to the container's right edge.
    End,
    /// Width forced to the container's width, positioned at the left edge.
    Stretch,
}

impl Default for Align {
    fn default() -> (r: Align)
        ensures
            r == Align::Begin,
    {
        Align::Begin
    }
}

} // verus!
