//! The three shape variants and the operations they share.

use vstd::prelude::*;
use crate::coord::Coord;

verus! {

/// A circle, placed by its origin.
#[derive(Clone, Copy, Debug, PartialEq)]
pub struct Circle<T> {
    pub origin: Coord<T>,
    pub radius: T,
}

/// A rectangle, placed by its origin.
#[derive(Clone, Copy, Debug, PartialEq)]
pub struct Rectangle<T> {
    pub origin: Coord<T>,
    pub side_a: T,
    pub side_b: T,
}

/// A triangle, placed by its origin.
#[derive(Clone, Copy, Debug, PartialEq)]
pub struct Triangle<T> {
    pub origin: Coord<T>,
    pub base: T,
    pub height: T,
}

/// Any one of the shapes. No variant's dimensions are validated: zero and
/// negative values are stored as given.
#[derive(Clone, Copy, Debug, PartialEq)]
pub enum Shape<T> {
    Circle(Circle<T>),
    Rectangle(Rectangle<T>),
    Triangle(Triangle<T>),
}

impl<T: Copy> Circle<T> {
    /// The current position.
    pub fn origin(&self) -> (c: Coord<T>)
        ensures
            c == self.origin,
    {
        self.origin
    }

    /// Replaces the position and leaves the radius as it is.
    pub fn set_origin(&mut self, origin: Coord<T>)
        ensures
            *final(self) == (Circle { origin, radius: old(self).radius }),
    {
        self.origin = origin;
    }
}

impl<T: Copy> Rectangle<T> {
    /// The current position.
    pub fn origin(&self) -> (c: Coord<T>)
        ensures
            c == self.origin,
    {
        self.origin
    }

    /// Replaces the position and leaves both sides as they are.
    pub fn set_origin(&mut self, origin: Coord<T>)
        ensures
            *final(self) == (Rectangle {
                origin,
                side_a: old(self).side_a,
                side_b: old(self).side_b,
            }),
    {
        self.origin = origin;
    }
}

impl<T: Copy> Triangle<T> {
    /// The current position.
    pub fn origin(&self) -> (c: Coord<T>)
        ensures
            c == self.origin,
    {
        self.origin
    }

    /// Replaces the position and leaves base and height as they are.
    pub fn set_origin(&mut self, origin: Coord<T>)
        ensures
            *final(self) == (Triangle {
                origin,
                base: old(self).base,
                height: old(self).height,
            }),
    {
        self.origin = origin;
    }
}

impl<T> Shape<T> {
    /// The position of the shape, whichever variant it is.
    pub open spec fn position(self) -> Coord<T> {
        match self {
            Shape::Circle(c) => c.origin,
            Shape::Rectangle(r) => r.origin,
            Shape::Triangle(t) => t.origin,
        }
    }

    /// The same shape moved to `origin`: same variant, same dimensions.
    pub open spec fn moved_to(self, origin: Coord<T>) -> Shape<T> {
        match self {
            Shape::Circle(c) => Shape::Circle(Circle { origin, radius: c.radius }),
            Shape::Rectangle(r) => Shape::Rectangle(
                Rectangle { origin, side_a: r.side_a, side_b: r.side_b },
            ),
            Shape::Triangle(t) => Shape::Triangle(
                Triangle { origin, base: t.base, height: t.height },
            ),
        }
    }

    /// Whether the two shapes are of one variant and of the same dimensions,
    /// so that they differ in their position at most.
    pub open spec fn same_geometry(self, other: Shape<T>) -> bool {
        match (self, other) {
            (Shape::Circle(a), Shape::Circle(b)) => a.radius == b.radius,
            (Shape::Rectangle(a), Shape::Rectangle(b)) => a.side_a == b.side_a && a.side_b
                == b.side_b,
            (Shape::Triangle(a), Shape::Triangle(b)) => a.base == b.base && a.height == b.height,
            _ => false,
        }
    }

    /// A shape whose origin was replaced by `origin` is found at `origin`,
    /// whatever the point and whichever the variant.
    pub proof fn moved_shape_is_at_origin(shape: Shape<T>, origin: Coord<T>)
        ensures
            shape.moved_to(origin).position() == origin,
    {
    }

    /// Replacing the origin changes nothing but the origin: the shape keeps
    /// its geometry, and putting the old origin back gives the shape that
    /// was there before.
    pub proof fn moving_keeps_geometry(shape: Shape<T>, origin: Coord<T>)
        ensures
            shape.moved_to(origin).same_geometry(shape),
            shape.moved_to(origin).moved_to(shape.position()) == shape,
    {
    }

    /// Of two replacements of the origin the later one stays: the shape is
    /// as if the earlier one had never been made.
    pub proof fn last_move_wins(shape: Shape<T>, earlier: Coord<T>, later: Coord<T>)
        ensures
            shape.moved_to(earlier).moved_to(later) == shape.moved_to(later),
    {
    }

    /// Two shapes have the same geometry exactly when moving one of them to
    /// where the other is gives the other.
    pub proof fn same_geometry_is_equality_up_to_origin(a: Shape<T>, b: Shape<T>)
        ensures
            a.same_geometry(b) <==> a.moved_to(b.position()) == b,
    {
    }
}

impl<T: Copy> Shape<T> {
    /// The current position.
    pub fn origin(&self) -> (c: Coord<T>)
        ensures
            c == self.position(),
    {
        match self {
            Shape::Circle(c) => c.origin(),
            Shape::Rectangle(r) => r.origin(),
            Shape::Triangle(t) => t.origin(),
        }
    }

    /// Replaces the position and nothing else.
    pub fn set_origin(&mut self, origin: Coord<T>)
        ensures
            *final(self) == old(self).moved_to(origin),
    {
        match self {
            Shape::Circle(c) => c.set_origin(origin),
            Shape::Rectangle(r) => r.set_origin(origin),
            Shape::Triangle(t) => t.set_origin(origin),
        }
    }
}

} // verus!
