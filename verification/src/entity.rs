//! The paddles and the ball: rectangles of a fixed size that move.

use vstd::prelude::*;
use crate::fixed::{Fixed, LIMIT_RAW, half, in_range, sum, whole};
use crate::geometry::{Point, Rect, Rectangle, Vec2};

verus! {

/// The width and height of an image, in whole pixels. Both are positive.
#[derive(Clone, Copy, Debug, PartialEq, Eq, Structural)]
pub struct Size {
    width: i32,
    height: i32,
}

impl Size {
    /// Both dimensions of every `Size` are positive.
    #[verifier::type_invariant]
    pub open spec fn wf(self) -> bool {
        self.spec_width() > 0 && self.spec_height() > 0
    }

    /// The width in pixels.
    pub closed spec fn spec_width(self) -> i32 {
        self.width
    }

    /// The height in pixels.
    pub closed spec fn spec_height(self) -> i32 {
        self.height
    }

    /// Two sizes with the same dimensions are the same size.
    pub proof fn lemma_dimensions_injective(a: Size, b: Size)
        ensures
            a.spec_width() == b.spec_width() && a.spec_height() == b.spec_height() <==> a == b,
    {
    }

    /// The size `width` by `height`, if both are positive.
    pub fn new(width: i32, height: i32) -> (r: Option<Size>)
        ensures
            r is Some <==> width > 0 && height > 0,
            r matches Some(s) ==> s.spec_width() == width && s.spec_height() == height,
    {
        if width > 0 && height > 0 {
            Some(Size { width, height })
        } else {
            None
        }
    }

    /// The width in pixels.
    #[verifier::when_used_as_spec(spec_width)]
    pub fn width(self) -> (r: i32)
        ensures
            r == self.spec_width(),
            r > 0,
    {
        proof {
            use_type_invariant(&self);
        }
        self.width
    }

    /// The height in pixels.
    #[verifier::when_used_as_spec(spec_height)]
    pub fn height(self) -> (r: i32)
        ensures
            r == self.spec_height(),
            r > 0,
    {
        proof {
            use_type_invariant(&self);
        }
        self.height
    }
}

/// A rectangle of fixed size that moves, as raw values: the view of an [`Entity`].
pub struct Body {
    /// The top-left corner.
    pub position: Point,
    /// The displacement of one step.
    pub velocity: Point,
    pub width: int,
    pub height: int,
}

impl Body {
    /// What holds of the view of every [`Entity`]: each coordinate is the raw
    /// value of a number, and the size is a positive whole number of pixels.
    pub open spec fn valid(self) -> bool {
        &&& in_range(self.position.x)
        &&& in_range(self.position.y)
        &&& in_range(self.velocity.x)
        &&& in_range(self.velocity.y)
        &&& 0 < self.width < LIMIT_RAW
        &&& 0 < self.height < LIMIT_RAW
    }

    /// The rectangle that the body covers.
    pub open spec fn bounds(self) -> Rect {
        Rect { x: self.position.x, y: self.position.y, width: self.width, height: self.height }
    }

    /// The middle of the rectangle that the body covers.
    pub open spec fn centre(self) -> Point {
        Point {
            x: sum(self.position.x, half(self.width)),
            y: sum(self.position.y, half(self.height)),
        }
    }
}

/// A paddle or the ball: an image of a fixed size at a position, with a velocity.
///
/// The rectangle it covers and its centre are computed from the position
/// whenever they are asked for, and so can never be out of date.
#[derive(Clone, Copy, Debug, PartialEq, Eq, Structural)]
pub struct Entity {
    /// The size of its image. No step of a round changes it.
    pub size: Size,
    /// The top-left corner.
    pub position: Vec2,
    /// The displacement of one step.
    pub velocity: Vec2,
}

impl View for Entity {
    type V = Body;

    open spec fn view(&self) -> Body {
        Body {
            position: self.position@,
            velocity: self.velocity@,
            width: whole(self.size.spec_width() as int),
            height: whole(self.size.spec_height() as int),
        }
    }
}

impl Entity {
    /// Two entities with the same view are the same entity.
    pub proof fn lemma_view_injective(a: Entity, b: Entity)
        ensures
            a@ == b@ <==> a == b,
    {
        Size::lemma_dimensions_injective(a.size, b.size);
        Fixed::lemma_view_injective(a.position.x, b.position.x);
        Fixed::lemma_view_injective(a.position.y, b.position.y);
        Fixed::lemma_view_injective(a.velocity.x, b.velocity.x);
        Fixed::lemma_view_injective(a.velocity.y, b.velocity.y);
    }

    /// An entity of the given size at `position`, at rest.
    pub fn new(size: Size, position: Vec2) -> (r: Entity)
        ensures
            r.size == size,
            r.position == position,
            r.velocity@ == (Point { x: 0, y: 0 }),
            r@.valid(),
    {
        Entity::with_velocity(size, position, Vec2::zero())
    }

    /// An entity of the given size at `position`, moving by `velocity` each step.
    pub fn with_velocity(size: Size, position: Vec2, velocity: Vec2) -> (r: Entity)
        ensures
            r.size == size,
            r.position == position,
            r.velocity == velocity,
            r@.valid(),
    {
        proof {
            use_type_invariant(&size);
            use_type_invariant(&position.x);
            use_type_invariant(&position.y);
            use_type_invariant(&velocity.x);
            use_type_invariant(&velocity.y);
        }
        Entity { size, position, velocity }
    }

    /// The width of the entity.
    pub fn width(&self) -> (r: Fixed)
        ensures
            r@ == self@.width,
            r@ > 0,
    {
        Fixed::from_int(self.size.width())
    }

    /// The height of the entity.
    pub fn height(&self) -> (r: Fixed)
        ensures
            r@ == self@.height,
            r@ > 0,
    {
        Fixed::from_int(self.size.height())
    }

    /// The rectangle that the entity covers, at its current position.
    pub fn bounds(&self) -> (r: Rectangle)
        ensures
            r@ == self@.bounds(),
    {
        Rectangle::new(self.position.x, self.position.y, self.width(), self.height())
    }

    /// The middle of the rectangle that the entity covers.
    pub fn centre(&self) -> (r: Vec2)
        ensures
            r@ == self@.centre(),
    {
        Vec2::new(
            self.position.x.plus(self.width().halved()),
            self.position.y.plus(self.height().halved()),
        )
    }
}

} // verus!
