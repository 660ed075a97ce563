//! Geometric shapes kept on a canvas of shared, individually locked handles.
//!
//! * [`coord`]: a point in the plane.
//! * [`shape`]: circle, rectangle and triangle, each with an origin that can
//!   be read and replaced, and what replacing it does and does not change.
//! * [`handle`]: one shape behind its own lock, shared by every clone of the
//!   handle.
//! * [`canvas`]: the handles in the order they were added, with indexed
//!   access that several threads may use at once.
//!
//! The library is generic in the scalar type `T` of coordinates and
//! dimensions: it stores, copies and replaces scalars but does no arithmetic
//! on them. A caller that wants an area hands in the function that measures
//! a shape.

pub mod coord;
pub mod shape;
pub mod handle;
pub mod canvas;
