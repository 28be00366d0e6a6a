//! The vector type and its constructors.

use vstd::prelude::*;

verus! {

/// A point or direction in the plane.
///
/// The type carries no invariant: every pair of element values is a vector.
#[derive(Debug)]
pub struct Vec2<T> {
    pub x: T,
    pub y: T,
}

impl<T> Vec2<T> {
    /// Builds the vector with the given coordinates.
    pub fn new(x: T, y: T) -> (v: Self)
        ensures
            v.x == x,
            v.y == y,
    {
        Self { x, y }
    }
}

impl<T: Default> Default for Vec2<T> {
    /// The vector whose two coordinates are the element type's default
    /// value. For every primitive number type that value is zero, so the
    /// default vector is the additive identity.
    fn default() -> (v: Self)
        ensures
            call_ensures(T::default, (), v.x),
            call_ensures(T::default, (), v.y),
    {
        Self { x: T::default(), y: T::default() }
    }
}

impl<T: Clone> Clone for Vec2<T> {
    /// An independent copy: each coordinate is a clone of the matching
    /// coordinate of `self`.
    fn clone(&self) -> (v: Self)
        ensures
            cloned(self.x, v.x),
            cloned(self.y, v.y),
    {
        Self { x: self.x.clone(), y: self.y.clone() }
    }
}

impl<T: Copy> Copy for Vec2<T> {}

} // verus!
