//! Arithmetic operators on vectors.
//!
//! Every operator works coordinate by coordinate, leaves its operands as they
//! are and returns a new vector.
//!
//! A call is admitted when the element type admits the operation on both
//! pairs of operands (`add_req`, `sub_req`, `mul_req`, `div_req`). For the
//! primitive integers that means that neither result overflows and that no
//! divisor is zero.
//!
//! Each contract says two things of each coordinate of the result. For any
//! element type, it is a value that the element type's own operator returns
//! on the matching operands. For an element type whose operator is known to
//! compute its `*_spec` function, as those of the primitive integers are, it
//! is that function's value: the integer sum, difference or product, or the
//! quotient truncated toward zero.

use crate::vec2::Vec2;
use core::ops::Add;
use core::ops::Div;
use core::ops::Mul;
use core::ops::Sub;
use vstd::prelude::*;
use vstd::std_specs::ops::AddSpec;
use vstd::std_specs::ops::DivSpec;
use vstd::std_specs::ops::MulSpec;
use vstd::std_specs::ops::SubSpec;

verus! {

/// What `+` means on vectors: the element type's `+` on each coordinate.
impl<T: Add<Output = T>> vstd::std_specs::ops::AddSpecImpl for Vec2<T> {
    open spec fn obeys_add_spec() -> bool {
        T::obeys_add_spec()
    }

    open spec fn add_req(self, rhs: Vec2<T>) -> bool {
        self.x.add_req(rhs.x) && self.y.add_req(rhs.y)
    }

    open spec fn add_spec(self, rhs: Vec2<T>) -> Vec2<T> {
        Vec2 { x: self.x.add_spec(rhs.x), y: self.y.add_spec(rhs.y) }
    }
}

impl<T: Add<Output = T>> Add for Vec2<T> {
    type Output = Vec2<T>;

    /// The vector of the two sums `self.x + rhs.x` and `self.y + rhs.y`.
    ///
    /// Admitted when `self.add_req(rhs)`.
    fn add(self, rhs: Vec2<T>) -> (sum: Vec2<T>)
        ensures
            call_ensures(T::add, (self.x, rhs.x), sum.x),
            call_ensures(T::add, (self.y, rhs.y), sum.y),
            T::obeys_add_spec() ==> sum.x == self.x.add_spec(rhs.x),
            T::obeys_add_spec() ==> sum.y == self.y.add_spec(rhs.y),
    {
        Vec2 { x: self.x + rhs.x, y: self.y + rhs.y }
    }
}

/// What `-` means on vectors: the element type's `-` on each coordinate.
impl<T: Sub<Output = T>> vstd::std_specs::ops::SubSpecImpl for Vec2<T> {
    open spec fn obeys_sub_spec() -> bool {
        T::obeys_sub_spec()
    }

    open spec fn sub_req(self, rhs: Vec2<T>) -> bool {
        self.x.sub_req(rhs.x) && self.y.sub_req(rhs.y)
    }

    open spec fn sub_spec(self, rhs: Vec2<T>) -> Vec2<T> {
        Vec2 { x: self.x.sub_spec(rhs.x), y: self.y.sub_spec(rhs.y) }
    }
}

impl<T: Sub<Output = T>> Sub for Vec2<T> {
    type Output = Vec2<T>;

    /// The vector of the two differences `self.x - rhs.x` and
    /// `self.y - rhs.y`.
    ///
    /// Admitted when `self.sub_req(rhs)`.
    fn sub(self, rhs: Vec2<T>) -> (diff: Vec2<T>)
        ensures
            call_ensures(T::sub, (self.x, rhs.x), diff.x),
            call_ensures(T::sub, (self.y, rhs.y), diff.y),
            T::obeys_sub_spec() ==> diff.x == self.x.sub_spec(rhs.x),
            T::obeys_sub_spec() ==> diff.y == self.y.sub_spec(rhs.y),
    {
        Vec2 { x: self.x - rhs.x, y: self.y - rhs.y }
    }
}

/// What `*` by a scalar means: each coordinate times the scalar.
impl<T: Mul<Output = T> + Copy> vstd::std_specs::ops::MulSpecImpl<T> for Vec2<T> {
    open spec fn obeys_mul_spec() -> bool {
        T::obeys_mul_spec()
    }

    open spec fn mul_req(self, rhs: T) -> bool {
        self.x.mul_req(rhs) && self.y.mul_req(rhs)
    }

    open spec fn mul_spec(self, rhs: T) -> Vec2<T> {
        Vec2 { x: self.x.mul_spec(rhs), y: self.y.mul_spec(rhs) }
    }
}

impl<T: Mul<Output = T> + Copy> Mul<T> for Vec2<T> {
    type Output = Vec2<T>;

    /// The vector scaled by `rhs`: `self.x * rhs` and `self.y * rhs`.
    ///
    /// Admitted when `self.mul_req(rhs)`.
    fn mul(self, rhs: T) -> (scaled: Vec2<T>)
        ensures
            call_ensures(T::mul, (self.x, rhs), scaled.x),
            call_ensures(T::mul, (self.y, rhs), scaled.y),
            T::obeys_mul_spec() ==> scaled.x == self.x.mul_spec(rhs),
            T::obeys_mul_spec() ==> scaled.y == self.y.mul_spec(rhs),
    {
        Vec2 { x: self.x * rhs, y: self.y * rhs }
    }
}

/// What `*` by a vector means: the element type's `*` on each coordinate.
impl<T: Mul<Output = T>> vstd::std_specs::ops::MulSpecImpl<Vec2<T>> for Vec2<T> {
    open spec fn obeys_mul_spec() -> bool {
        T::obeys_mul_spec()
    }

    open spec fn mul_req(self, rhs: Vec2<T>) -> bool {
        self.x.mul_req(rhs.x) && self.y.mul_req(rhs.y)
    }

    open spec fn mul_spec(self, rhs: Vec2<T>) -> Vec2<T> {
        Vec2 { x: self.x.mul_spec(rhs.x), y: self.y.mul_spec(rhs.y) }
    }
}

impl<T: Mul<Output = T>> Mul<Vec2<T>> for Vec2<T> {
    type Output = Vec2<T>;

    /// The vector of the two products `self.x * rhs.x` and `self.y * rhs.y`.
    ///
    /// Admitted when `self.mul_req(rhs)`.
    fn mul(self, rhs: Vec2<T>) -> (prod: Vec2<T>)
        ensures
            call_ensures(T::mul, (self.x, rhs.x), prod.x),
            call_ensures(T::mul, (self.y, rhs.y), prod.y),
            T::obeys_mul_spec() ==> prod.x == self.x.mul_spec(rhs.x),
            T::obeys_mul_spec() ==> prod.y == self.y.mul_spec(rhs.y),
    {
        Vec2 { x: self.x * rhs.x, y: self.y * rhs.y }
    }
}

/// What `/` by a scalar means: each coordinate divided by the scalar.
impl<T: Div<Output = T> + Copy> vstd::std_specs::ops::DivSpecImpl<T> for Vec2<T> {
    open spec fn obeys_div_spec() -> bool {
        T::obeys_div_spec()
    }

    open spec fn div_req(self, rhs: T) -> bool {
        self.x.div_req(rhs) && self.y.div_req(rhs)
    }

    open spec fn div_spec(self, rhs: T) -> Vec2<T> {
        Vec2 { x: self.x.div_spec(rhs), y: self.y.div_spec(rhs) }
    }
}

impl<T: Div<Output = T> + Copy> Div<T> for Vec2<T> {
    type Output = Vec2<T>;

    /// The vector divided by `rhs`: `self.x / rhs` and `self.y / rhs`.
    ///
    /// Admitted when `self.div_req(rhs)`, which for integers rules out a zero
    /// `rhs`.
    fn div(self, rhs: T) -> (quot: Vec2<T>)
        ensures
            call_ensures(T::div, (self.x, rhs), quot.x),
            call_ensures(T::div, (self.y, rhs), quot.y),
            T::obeys_div_spec() ==> quot.x == self.x.div_spec(rhs),
            T::obeys_div_spec() ==> quot.y == self.y.div_spec(rhs),
    {
        Vec2 { x: self.x / rhs, y: self.y / rhs }
    }
}

/// What `/` by a vector means: the element type's `/` on each coordinate.
impl<T: Div<Output = T>> vstd::std_specs::ops::DivSpecImpl<Vec2<T>> for Vec2<T> {
    open spec fn obeys_div_spec() -> bool {
        T::obeys_div_spec()
    }

    open spec fn div_req(self, rhs: Vec2<T>) -> bool {
        self.x.div_req(rhs.x) && self.y.div_req(rhs.y)
    }

    open spec fn div_spec(self, rhs: Vec2<T>) -> Vec2<T> {
        Vec2 { x: self.x.div_spec(rhs.x), y: self.y.div_spec(rhs.y) }
    }
}

impl<T: Div<Output = T>> Div<Vec2<T>> for Vec2<T> {
    type Output = Vec2<T>;

    /// The vector of the two quotients `self.x / rhs.x` and
    /// `self.y / rhs.y`.
    ///
    /// Admitted when `self.div_req(rhs)`, which for integers rules out a zero
    /// coordinate of `rhs`.
    fn div(self, rhs: Vec2<T>) -> (quot: Vec2<T>)
        ensures
            call_ensures(T::div, (self.x, rhs.x), quot.x),
            call_ensures(T::div, (self.y, rhs.y), quot.y),
            T::obeys_div_spec() ==> quot.x == self.x.div_spec(rhs.x),
            T::obeys_div_spec() ==> quot.y == self.y.div_spec(rhs.y),
    {
        Vec2 { x: self.x / rhs.x, y: self.y / rhs.y }
    }
}

} // verus!
