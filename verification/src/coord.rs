//! A point in the plane.

use vstd::prelude::*;

verus! {

/// A two-dimensional point, compared and copied by value.
#[derive(Clone, Copy, Debug, PartialEq)]
pub struct Coord<T> {
    pub x: T,
    pub y: T,
}

impl<T: Default> Default for Coord<T> {
    /// The point whose two scalars are both the scalar type's default,
    /// which is the origin `(0, 0)` for the numeric types.
    fn default() -> (c: Self)
        ensures
            T::default.ensures((), c.x),
            T::default.ensures((), c.y),
    {
        Coord { x: T::default(), y: T::default() }
    }
}

} // verus!
