//! Circles.

use vstd::prelude::*;
use crate::city::geom::vector::Vector2;

verus! {

/// A circle around a centre.
#[derive(Debug)]
pub struct Circle {
    center: Vector2,
    radius: i64,
}

impl View for Circle {
    type V = (Vector2, i64);

    /// The centre and the radius.
    closed spec fn view(&self) -> (Vector2, i64) {
        (self.center, self.radius)
    }
}

impl Circle {
    /// The circle of the given `radius` around `center`.
    pub fn new(center: Vector2, radius: i64) -> (r: Self)
        ensures
            r@ == (center, radius),
    {
        Self { center, radius }
    }

    /// Whether `point` is less than a radius away from the centre.
    pub fn contains(&self, point: Vector2) -> (r: bool)
        ensures
            r == (point.minus(self@.0).magnitude() < self@.1),
    {
        (point - self.center).mag() < self.radius
    }
}

} // verus!
