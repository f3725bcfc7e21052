//! Points and axis-aligned rectangles.

use vstd::prelude::*;
use crate::fixed::{Fixed, sum};

verus! {

/// A point or a displacement, as a pair of raw values: the view of a [`Vec2`].
pub struct Point {
    pub x: int,
    pub y: int,
}

/// An axis-aligned rectangle, as raw values: the view of a [`Rectangle`].
///
/// `x` and `y` are its top-left corner; it reaches from `x` to `x + width`
/// and from `y` to `y + height`, both ends included.
pub struct Rect {
    pub x: int,
    pub y: int,
    pub width: int,
    pub height: int,
}

/// The point reached from `p` by the displacement `d`, each coordinate clamped.
pub open spec fn displaced(p: Point, d: Point) -> Point {
    Point { x: sum(p.x, d.x), y: sum(p.y, d.y) }
}

/// Whether the point lies in the rectangle, its edges included.
pub open spec fn contains(r: Rect, p: Point) -> bool {
    &&& r.x <= p.x <= r.x + r.width
    &&& r.y <= p.y <= r.y + r.height
}

/// Whether two rectangles overlap on both axes. Rectangles that only touch
/// along an edge or at a corner do.
pub open spec fn overlap(a: Rect, b: Rect) -> bool {
    &&& a.x <= b.x + b.width
    &&& b.x <= a.x + a.width
    &&& a.y <= b.y + b.height
    &&& b.y <= a.y + a.height
}

/// Overlap does not depend on the order of the two rectangles.
pub proof fn lemma_overlap_symmetric(a: Rect, b: Rect)
    ensures
        overlap(a, b) == overlap(b, a),
{
}

/// Two rectangles of a size that is not negative overlap exactly if they
/// have a point in common.
pub proof fn lemma_overlap_is_common_point(a: Rect, b: Rect)
    requires
        a.width >= 0,
        a.height >= 0,
        b.width >= 0,
        b.height >= 0,
    ensures
        overlap(a, b) <==> exists|p: Point| #[trigger] contains(a, p) && contains(b, p),
{
    if overlap(a, b) {
        let p: Point = Point {
            x: if a.x >= b.x {
                a.x
            } else {
                b.x
            },
            y: if a.y >= b.y {
                a.y
            } else {
                b.y
            },
        };
        assert(contains(a, p) && contains(b, p));
    }
}

/// A point or a displacement in the plane.
#[derive(Clone, Copy, Debug, PartialEq, Eq, Structural)]
pub struct Vec2 {
    pub x: Fixed,
    pub y: Fixed,
}

impl View for Vec2 {
    type V = Point;

    open spec fn view(&self) -> Point {
        Point { x: self.x@, y: self.y@ }
    }
}

impl Vec2 {
    /// The point `(x, y)`.
    pub fn new(x: Fixed, y: Fixed) -> (r: Vec2)
        ensures
            r@ == (Point { x: x@, y: y@ }),
    {
        Vec2 { x, y }
    }

    /// The origin, or the displacement that moves nothing.
    pub fn zero() -> (r: Vec2)
        ensures
            r@ == (Point { x: 0, y: 0 }),
    {
        Vec2 { x: Fixed::zero(), y: Fixed::zero() }
    }

    /// The point reached from `self` by `displacement`.
    pub fn plus(self, displacement: Vec2) -> (r: Vec2)
        ensures
            r@ == displaced(self@, displacement@),
    {
        Vec2 { x: self.x.plus(displacement.x), y: self.y.plus(displacement.y) }
    }
}

/// An axis-aligned rectangle given by its top-left corner and its size.
#[derive(Clone, Copy, Debug, PartialEq, Eq, Structural)]
pub struct Rectangle {
    pub x: Fixed,
    pub y: Fixed,
    pub width: Fixed,
    pub height: Fixed,
}

impl View for Rectangle {
    type V = Rect;

    open spec fn view(&self) -> Rect {
        Rect { x: self.x@, y: self.y@, width: self.width@, height: self.height@ }
    }
}

impl Rectangle {
    /// The rectangle with top-left corner `(x, y)` and the given size.
    pub fn new(x: Fixed, y: Fixed, width: Fixed, height: Fixed) -> (r: Rectangle)
        ensures
            r@ == (Rect { x: x@, y: y@, width: width@, height: height@ }),
    {
        Rectangle { x, y, width, height }
    }

    /// Whether `self` and `other` have a point in common, edges included.
    pub fn intersects(&self, other: &Rectangle) -> (r: bool)
        ensures
            r == overlap(self@, other@),
    {
        let ax: i64 = self.x.raw();
        let ay: i64 = self.y.raw();
        let bx: i64 = other.x.raw();
        let by: i64 = other.y.raw();
        ax <= bx + other.width.raw() && bx <= ax + self.width.raw()
            && ay <= by + other.height.raw() && by <= ay + self.height.raw()
    }
}

} // verus!
