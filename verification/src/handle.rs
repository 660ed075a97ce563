//! A shape behind a reference-counted, mutually exclusive cell.
//!
//! Every access, a read as much as a write, takes the cell's lock for itself
//! alone, works on the shape and gives the lock back, so no thread sees a
//! half-written shape. The lock is held only across code that is verified
//! to run to its end: no holder can fail and leave the cell behind locked.
//!
//! Between two accesses any holder of the handle may have moved the shape.
//! Where a shape is at a given moment is therefore no part of a handle's
//! value; what it was made from is, and the lock admits only shapes of that
//! geometry.

use vstd::prelude::*;
use vstd::rwlock::RwLock;
use vstd::rwlock::RwLockPredicate;
use std::sync::Arc;
use crate::coord::Coord;
use crate::shape::Shape;

verus! {

/// What a cell admits: the shapes with the geometry of `of`.
struct Geometry<T> {
    of: Shape<T>,
}

impl<T> RwLockPredicate<Shape<T>> for Geometry<T> {
    closed spec fn inv(self, shape: Shape<T>) -> bool {
        shape.same_geometry(self.of)
    }
}

/// `Arc::clone`: one more pointer to the same cell, which as a value is the
/// cell itself.
#[verifier::external_body]
fn share<T>(cell: &Arc<RwLock<Shape<T>, Geometry<T>>>) -> (shared: Arc<RwLock<Shape<T>, Geometry<T>>>)
    ensures
        shared == *cell,
{
    Arc::clone(cell)
}

/// A shared handle to one shape. Clones of a handle refer to the same shape,
/// which has a lock of its own: accesses to different shapes never wait for
/// each other.
#[verifier::reject_recursive_types(T)]
pub struct ShapeObject<T> {
    cell: Arc<RwLock<Shape<T>, Geometry<T>>>,
}

impl<T> Clone for ShapeObject<T> {
    /// Another handle to the same shape.
    fn clone(&self) -> (handle: Self)
        ensures
            handle == *self,
    {
        ShapeObject { cell: share(&self.cell) }
    }
}

impl<T> ShapeObject<T> {
    /// The shape that the handle was made from. The shape in the cell is
    /// this one, moved to wherever it was last put.
    pub closed spec fn made_from(&self) -> Shape<T> {
        self.cell.pred().of
    }

    /// Whether `shape` is one that the cell may hold.
    pub open spec fn admits(&self, shape: Shape<T>) -> bool {
        shape.same_geometry(self.made_from())
    }
}

impl<T: Copy> ShapeObject<T> {
    /// A handle to a new cell that holds `shape`.
    pub fn new(shape: Shape<T>) -> (handle: Self)
        ensures
            handle.made_from() == shape,
    {
        ShapeObject { cell: Arc::new(RwLock::new(shape, Ghost(Geometry { of: shape }))) }
    }

    /// A copy of the shape, taken while holding its lock. It has the variant
    /// and the dimensions that the handle was made with; its origin is the
    /// one stored last, by whichever holder of the handle.
    pub fn shape(&self) -> (found: Shape<T>)
        ensures
            self.admits(found),
    {
        let (shape, held) = self.cell.acquire_write();
        held.release_write(shape);
        shape
    }

    /// The origin of the shape, read while holding its lock: the one stored
    /// last, by whichever holder of the handle.
    pub fn origin(&self) -> (found: Coord<T>) {
        self.shape().origin()
    }

    /// Replaces the origin of the shape while holding its lock; variant and
    /// dimensions stay as they are. What is stored is the shape found in the
    /// cell after [`Shape::set_origin`].
    pub fn set_origin(&self, origin: Coord<T>) {
        let (mut shape, held) = self.cell.acquire_write();
        shape.set_origin(origin);
        held.release_write(shape);
    }

    /// The area of the shape as `area` measures it: what `area` gives for a
    /// shape of the handle's geometry. The shape is copied while holding its
    /// lock and measured after the lock is given back, so `area` may itself
    /// use the handle.
    pub fn get_area<A, F: FnOnce(Shape<T>) -> A>(&self, area: F) -> (measured: A)
        requires
            forall|shape: Shape<T>| self.admits(shape) ==> #[trigger] area.requires((shape,)),
        ensures
            exists|shape: Shape<T>| self.admits(shape) && #[trigger] area.ensures((shape,), measured),
    {
        let shape = self.shape();
        area(shape)
    }
}

} // verus!
