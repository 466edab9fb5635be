//! Integer plane geometry: points, sizes and the boxes that entities occupy.
//!
//! All coordinates are whole world units. A host that keeps fractional
//! coordinates rounds them before it hands them over.

use vstd::prelude::*;

verus! {

/// A position or a displacement in the world plane.
#[derive(Clone, Copy, Debug, PartialEq, Eq, Structural)]
pub struct Point {
    pub x: i32,
    pub y: i32,
}

/// A scale factor along each axis.
#[derive(Clone, Copy, Debug, PartialEq, Eq, Structural)]
pub struct Scale {
    pub x: i32,
    pub y: i32,
}

/// The unscaled width and height of a sprite.
#[derive(Clone, Copy, Debug, PartialEq, Eq, Structural)]
pub struct Size {
    pub width: i32,
    pub height: i32,
}

/// A width and height after scaling.
#[derive(Clone, Copy, Debug, PartialEq, Eq, Structural)]
pub struct Extent {
    pub width: i64,
    pub height: i64,
}

/// An axis-aligned box given by its minimum corner and its size.
#[derive(Clone, Copy, Debug, PartialEq, Eq, Structural)]
pub struct Tile {
    pub origin: Point,
    pub size: Size,
}

impl Point {
    pub fn new(x: i32, y: i32) -> (p: Point)
        ensures
            p == (Point { x, y }),
    {
        Point { x, y }
    }

    /// The origin of the world plane.
    pub fn origin() -> (p: Point)
        ensures
            p == (Point { x: 0, y: 0 }),
    {
        Point { x: 0, y: 0 }
    }

    /// The square of the Euclidean distance between two points.
    pub open spec fn spec_distance_squared(self, other: Point) -> int {
        (self.x - other.x) * (self.x - other.x) + (self.y - other.y) * (self.y - other.y)
    }

    /// The square of the Euclidean distance between two points.
    pub fn distance_squared(&self, other: &Point) -> (d: u128)
        ensures
            d == self.spec_distance_squared(*other),
            d <= 0x2_0000_0000_0000_0000,
    {
        let dx: i128 = self.x as i128 - other.x as i128;
        let dy: i128 = self.y as i128 - other.y as i128;
        assert(0 <= dx * dx <= 0x1_0000_0000_0000_0000) by (nonlinear_arith)
            requires
                -0x1_0000_0000 <= dx <= 0x1_0000_0000,
        ;
        assert(0 <= dy * dy <= 0x1_0000_0000_0000_0000) by (nonlinear_arith)
            requires
                -0x1_0000_0000 <= dy <= 0x1_0000_0000,
        ;
        (dx * dx + dy * dy) as u128
    }
}

impl Scale {
    pub fn new(x: i32, y: i32) -> (s: Scale)
        ensures
            s == (Scale { x, y }),
    {
        Scale { x, y }
    }

    /// The scale that leaves every size as it is.
    pub fn one() -> (s: Scale)
        ensures
            s == (Scale { x: 1, y: 1 }),
    {
        Scale { x: 1, y: 1 }
    }
}

impl Size {
    pub fn new(width: i32, height: i32) -> (s: Size)
        ensures
            s == (Size { width, height }),
    {
        Size { width, height }
    }
}

impl Tile {
    pub fn new(origin: Point, size: Size) -> (t: Tile)
        ensures
            t == (Tile { origin, size }),
    {
        Tile { origin, size }
    }

    /// Whether `p` lies in the box, both edges of each axis included.
    pub open spec fn spec_contains(self, p: Point) -> bool {
        &&& self.origin.x <= p.x <= self.origin.x + self.size.width
        &&& self.origin.y <= p.y <= self.origin.y + self.size.height
    }

    /// Whether `p` lies in the box, both edges of each axis included.
    pub fn contains(&self, p: &Point) -> (hit: bool)
        ensures
            hit == self.spec_contains(*p),
    {
        let px: i64 = p.x as i64;
        let py: i64 = p.y as i64;
        let left: i64 = self.origin.x as i64;
        let bottom: i64 = self.origin.y as i64;
        let right: i64 = left + self.size.width as i64;
        let top: i64 = bottom + self.size.height as i64;
        left <= px && px <= right && bottom <= py && py <= top
    }
}

/// A point on an edge that two boxes share lies in both of them.
pub proof fn lemma_shared_edge_is_in_both(left: Tile, right: Tile, p: Point)
    requires
        left.size.width >= 0,
        right.size.width >= 0,
        right.origin.x == left.origin.x + left.size.width,
        p.x == right.origin.x,
        left.origin.y <= p.y <= left.origin.y + left.size.height,
        right.origin.y <= p.y <= right.origin.y + right.size.height,
    ensures
        left.spec_contains(p),
        right.spec_contains(p),
{
}

} // verus!
