//! An ordered collection of shape handles with indexed access.

use vstd::prelude::*;
use crate::coord::Coord;
use crate::handle::ShapeObject;
use crate::shape::Shape;

verus! {

/// The handles of a drawing, in the order in which they were added. The
/// canvas owns the sequence; each shape is reached through its own lock, so
/// the indexed operations that take `&self` may be called from several
/// threads at once, on the same index or on different ones.
#[verifier::reject_recursive_types(T)]
pub struct Canvas<T> {
    shapes: Vec<ShapeObject<T>>,
}

impl<T> View for Canvas<T> {
    type V = Seq<ShapeObject<T>>;

    /// The handles, first added first.
    closed spec fn view(&self) -> Seq<ShapeObject<T>> {
        self.shapes@
    }
}

impl<T> Canvas<T> {
    /// Whether `index` names a handle of the canvas.
    pub open spec fn in_range(&self, index: int) -> bool {
        0 <= index < self@.len()
    }

    /// A canvas without handles.
    pub fn new() -> (canvas: Self)
        ensures
            canvas@ == Seq::<ShapeObject<T>>::empty(),
    {
        Canvas { shapes: Vec::new() }
    }

    /// The number of handles.
    pub fn len(&self) -> (n: usize)
        ensures
            n == self@.len(),
    {
        self.shapes.len()
    }

    /// Appends `shape` after the handles that are there.
    pub fn add(&mut self, shape: ShapeObject<T>)
        ensures
            final(self)@ == old(self)@.push(shape),
    {
        self.shapes.push(shape);
    }

    /// The handle at `index`, or `None` where the canvas has no such index.
    /// The shape's lock is not taken.
    pub fn get(&self, index: usize) -> (found: Option<&ShapeObject<T>>)
        ensures
            self.in_range(index as int) ==> found == Some(&self@[index as int]),
            !self.in_range(index as int) ==> found is None,
    {
        if index < self.shapes.len() {
            Some(&self.shapes[index])
        } else {
            None
        }
    }

    /// Takes the handle at `index` out of the canvas and hands it to the
    /// caller; the handles behind it move up by one.
    pub fn remove(&mut self, index: usize) -> (removed: ShapeObject<T>)
        requires
            old(self).in_range(index as int),
        ensures
            removed == old(self)@[index as int],
            final(self)@ == old(self)@.remove(index as int),
    {
        self.shapes.remove(index)
    }
}

impl<T: Copy> Canvas<T> {
    /// The area of the shape at `index` as `area` measures it, or `None`
    /// where the canvas has no such index. The area is what `area` gives for
    /// a shape of the geometry that the handle at `index` was made with.
    pub fn get_area<A, F: FnOnce(Shape<T>) -> A>(&self, index: usize, area: F) -> (measured: Option<A>)
        requires
            forall|shape: Shape<T>|
                self.in_range(index as int) && self@[index as int].admits(shape)
                    ==> #[trigger] area.requires((shape,)),
        ensures
            !self.in_range(index as int) ==> measured is None,
            self.in_range(index as int) ==> (measured matches Some(a) && exists|shape: Shape<T>|
                self@[index as int].admits(shape) && #[trigger] area.ensures((shape,), a)),
    {
        match self.get(index) {
            Some(handle) => {
                let shape = handle.shape();
                let measured = Some(area(shape));
                assert(area.ensures((shape,), measured->Some_0));
                measured
            },
            None => None,
        }
    }

    /// Replaces the origin of the shape at `index`, as
    /// [`ShapeObject::set_origin`] does for the handle that [`Canvas::get`]
    /// finds there. Where the canvas has no such index, nothing is locked
    /// and nothing changes; no index makes the call fail.
    pub fn set_origin(&self, index: usize, origin: Coord<T>) {
        match self.get(index) {
            Some(handle) => handle.set_origin(origin),
            None => {},
        }
    }
}

} // verus!
