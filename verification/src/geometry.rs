//! Plain two-dimensional points and vectors.
use vstd::prelude::*;

verus! {

/// A point in the plane, `x` growing to the right and `y` downwards.
#[derive(Clone, Copy, Debug, PartialEq, Eq)]
pub struct Point2<S> {
    pub x: S,
    pub y: S,
}

/// A displacement (or an extent) in the plane.
#[derive(Clone, Copy, Debug, PartialEq, Eq)]
pub struct Vector2<S> {
    pub x: S,
    pub y: S,
}

} // verus!
