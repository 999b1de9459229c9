//! Two-dimensional vectors: fixed-point positions and integer pixel coordinates.

use vstd::prelude::*;
use vstd::std_specs::convert::FromSpecImpl;
use vstd::std_specs::ops::{AddSpecImpl, MulSpecImpl, SubSpecImpl};
use std::ops::{Add, Mul, MulAssign, Sub};
use crate::city::fixed::{
    clamp, fixed_mul, from_whole, lemma_root_is_unique, product, root, sat_add, sat_sub,
    whole_root, ONE,
};

verus! {

/// A point or displacement in fixed-point units.
#[derive(Clone, Copy, Debug)]
pub struct Vector2 {
    pub x: i64,
    pub y: i64,
}

/// A pixel coordinate.
#[derive(Clone, Copy, Debug)]
pub struct Vector2i {
    pub x: u32,
    pub y: u32,
}

impl Vector2 {
    /// The sum of two vectors, each coordinate held to the `i64` range.
    pub open spec fn plus(self, rhs: Vector2) -> Vector2 {
        Vector2 { x: clamp(self.x + rhs.x), y: clamp(self.y + rhs.y) }
    }

    /// The difference of two vectors, each coordinate held to the `i64` range.
    pub open spec fn minus(self, rhs: Vector2) -> Vector2 {
        Vector2 { x: clamp(self.x - rhs.x), y: clamp(self.y - rhs.y) }
    }

    /// The fixed-point product of two vectors, coordinate by coordinate.
    pub open spec fn times(self, rhs: Vector2) -> Vector2 {
        Vector2 { x: product(self.x as int, rhs.x as int), y: product(self.y as int, rhs.y as int) }
    }

    /// The fixed-point product of a vector and a scalar.
    pub open spec fn scaled(self, factor: i64) -> Vector2 {
        Vector2 {
            x: product(self.x as int, factor as int),
            y: product(self.y as int, factor as int),
        }
    }

    /// The length of the vector: the whole part, in fixed-point units, of the
    /// square root of the sum of the squares of its coordinates, held to the `i64`
    /// range.
    pub open spec fn magnitude(self) -> i64 {
        clamp(root(self.x * self.x + self.y * self.y))
    }

    /// The length of the vector.
    pub fn mag(self) -> (r: i64)
        ensures
            r == self.magnitude(),
    {
        assert(0 <= self.x * self.x <= 0x4000_0000_0000_0000_0000_0000_0000_0000) by (nonlinear_arith)
            requires
                -0x8000_0000_0000_0000 <= self.x <= 0x7fff_ffff_ffff_ffff,
        ;
        assert(0 <= self.y * self.y <= 0x4000_0000_0000_0000_0000_0000_0000_0000) by (nonlinear_arith)
            requires
                -0x8000_0000_0000_0000 <= self.y <= 0x7fff_ffff_ffff_ffff,
        ;
        let x = self.x as i128;
        let y = self.y as i128;
        let squares: u128 = (x * x) as u128 + (y * y) as u128;
        let found = whole_root(squares);
        proof {
            lemma_root_is_unique(found as int, self.x * self.x + self.y * self.y);
        }
        if found > i64::MAX as u128 {
            i64::MAX
        } else {
            found as i64
        }
    }

    /// The sum of the two coordinates, held to the `i64` range.
    pub fn comp_sum(self) -> (r: i64)
        ensures
            r == clamp(self.x + self.y),
    {
        sat_add(self.x, self.y)
    }

    /// The square of the length of the vector, as a fixed-point number.
    pub fn mag_squared(self) -> (r: i64)
        ensures
            r == clamp(product(self.x as int, self.x as int) + product(self.y as int, self.y as int)),
    {
        sat_add(fixed_mul(self.x, self.x), fixed_mul(self.y, self.y))
    }

    /// Whether `self` has the larger y coordinate.
    pub fn north_of(self, point: Vector2) -> (r: bool)
        ensures
            r == (self.y > point.y),
    {
        self.y > point.y
    }

    /// Whether `self` has the smaller y coordinate.
    pub fn south_of(self, point: Vector2) -> (r: bool)
        ensures
            r == (self.y < point.y),
    {
        self.y < point.y
    }

    /// Whether `self` has the larger x coordinate.
    pub fn east_of(self, point: Vector2) -> (r: bool)
        ensures
            r == (self.x > point.x),
    {
        self.x > point.x
    }

    /// Whether `self` has the smaller x coordinate.
    pub fn west_of(self, point: Vector2) -> (r: bool)
        ensures
            r == (self.x < point.x),
    {
        self.x < point.x
    }
}

impl Default for Vector2 {
    fn default() -> (r: Self)
        ensures
            r == (Vector2 { x: 0, y: 0 }),
    {
        Vector2 { x: 0, y: 0 }
    }
}

impl Add for Vector2 {
    type Output = Self;

    fn add(self, rhs: Self) -> (r: Self) {
        Self { x: sat_add(self.x, rhs.x), y: sat_add(self.y, rhs.y) }
    }
}

impl AddSpecImpl for Vector2 {
    open spec fn obeys_add_spec() -> bool {
        true
    }

    open spec fn add_req(self, rhs: Self) -> bool {
        true
    }

    open spec fn add_spec(self, rhs: Self) -> Self {
        self.plus(rhs)
    }
}

impl Sub for Vector2 {
    type Output = Self;

    fn sub(self, rhs: Self) -> (r: Self) {
        Self { x: sat_sub(self.x, rhs.x), y: sat_sub(self.y, rhs.y) }
    }
}

impl SubSpecImpl for Vector2 {
    open spec fn obeys_sub_spec() -> bool {
        true
    }

    open spec fn sub_req(self, rhs: Self) -> bool {
        true
    }

    open spec fn sub_spec(self, rhs: Self) -> Self {
        self.minus(rhs)
    }
}

impl Mul for Vector2 {
    type Output = Self;

    fn mul(self, rhs: Self) -> (r: Self) {
        Self { x: fixed_mul(self.x, rhs.x), y: fixed_mul(self.y, rhs.y) }
    }
}

impl MulSpecImpl for Vector2 {
    open spec fn obeys_mul_spec() -> bool {
        true
    }

    open spec fn mul_req(self, rhs: Self) -> bool {
        true
    }

    open spec fn mul_spec(self, rhs: Self) -> Self {
        self.times(rhs)
    }
}

impl Mul<i64> for Vector2 {
    type Output = Self;

    fn mul(self, rhs: i64) -> (r: Self) {
        Self { x: fixed_mul(self.x, rhs), y: fixed_mul(self.y, rhs) }
    }
}

impl MulSpecImpl<i64> for Vector2 {
    open spec fn obeys_mul_spec() -> bool {
        true
    }

    open spec fn mul_req(self, rhs: i64) -> bool {
        true
    }

    open spec fn mul_spec(self, rhs: i64) -> Self {
        self.scaled(rhs)
    }
}

impl MulAssign for Vector2 {
    fn mul_assign(&mut self, rhs: Self)
        ensures
            *final(self) == old(self).times(rhs),
    {
        self.x = fixed_mul(self.x, rhs.x);
        self.y = fixed_mul(self.y, rhs.y);
    }
}

impl From<Vector2i> for Vector2 {
    fn from(vector: Vector2i) -> (r: Self) {
        Self { x: from_whole(vector.x), y: from_whole(vector.y) }
    }
}

impl FromSpecImpl<Vector2i> for Vector2 {
    open spec fn obeys_from_spec() -> bool {
        true
    }

    open spec fn from_spec(vector: Vector2i) -> Self {
        Vector2 { x: (vector.x * ONE) as i64, y: (vector.y * ONE) as i64 }
    }
}

impl Vector2i {
    /// The length of the vector as a fixed-point number: the whole part of the
    /// square root of the sum of the squares of its coordinates, each taken as a
    /// fixed-point number.
    pub open spec fn magnitude(self) -> i64 {
        root((self.x * self.x + self.y * self.y) * 1_000_000_000_000) as i64
    }

    /// The length of the vector as a fixed-point number.
    pub fn mag(self) -> (r: i64)
        ensures
            r == self.magnitude(),
    {
        assert(0 <= self.x * self.x <= 0xFFFF_FFFF * 0xFFFF_FFFF) by (nonlinear_arith)
            requires
                0 <= self.x <= 0xFFFF_FFFF,
        ;
        assert(0 <= self.y * self.y <= 0xFFFF_FFFF * 0xFFFF_FFFF) by (nonlinear_arith)
            requires
                0 <= self.y <= 0xFFFF_FFFF,
        ;
        let x = self.x as u128;
        let y = self.y as u128;
        let squares: u128 = (x * x + y * y) * 1_000_000_000_000;
        let found = whole_root(squares);
        proof {
            lemma_root_is_unique(found as int, squares as int);
            assert(found * found <= squares);
            assert(found < 0x7fff_ffff_ffff_ffff) by (nonlinear_arith)
                requires
                    found * found <= squares,
                    squares <= 2 * 0xFFFF_FFFF * 0xFFFF_FFFF * 1_000_000_000_000,
                    0 <= found,
            ;
        }
        found as i64
    }

    /// The square of the length of the vector, which fits a `u32`.
    pub fn mag_squared(self) -> (r: u32)
        requires
            self.x * self.x + self.y * self.y <= u32::MAX,
        ensures
            r == self.x * self.x + self.y * self.y,
    {
        assert(self.x * self.x <= self.x * self.x + self.y * self.y) by (nonlinear_arith);
        assert(self.y * self.y <= self.x * self.x + self.y * self.y) by (nonlinear_arith);
        self.x * self.x + self.y * self.y
    }

    /// Whether `self` has the larger y coordinate.
    pub fn north_of(self, point: Vector2i) -> (r: bool)
        ensures
            r == (self.y > point.y),
    {
        self.y > point.y
    }

    /// Whether `self` has the smaller y coordinate.
    pub fn south_of(self, point: Vector2i) -> (r: bool)
        ensures
            r == (self.y < point.y),
    {
        self.y < point.y
    }

    /// Whether `self` has the larger x coordinate.
    pub fn east_of(self, point: Vector2i) -> (r: bool)
        ensures
            r == (self.x > point.x),
    {
        self.x > point.x
    }

    /// Whether `self` has the smaller x coordinate.
    pub fn west_of(self, point: Vector2i) -> (r: bool)
        ensures
            r == (self.x < point.x),
    {
        self.x < point.x
    }
}

impl Add for Vector2i {
    type Output = Self;

    fn add(self, rhs: Self) -> (r: Self) {
        Self { x: self.x + rhs.x, y: self.y + rhs.y }
    }
}

impl AddSpecImpl for Vector2i {
    open spec fn obeys_add_spec() -> bool {
        true
    }

    /// Neither coordinate of the sum exceeds a `u32`.
    open spec fn add_req(self, rhs: Self) -> bool {
        self.x + rhs.x <= u32::MAX && self.y + rhs.y <= u32::MAX
    }

    open spec fn add_spec(self, rhs: Self) -> Self {
        Vector2i { x: (self.x + rhs.x) as u32, y: (self.y + rhs.y) as u32 }
    }
}

impl Sub for Vector2i {
    type Output = Self;

    fn sub(self, rhs: Self) -> (r: Self) {
        Self { x: self.x - rhs.x, y: self.y - rhs.y }
    }
}

impl SubSpecImpl for Vector2i {
    open spec fn obeys_sub_spec() -> bool {
        true
    }

    /// Neither coordinate of the difference is negative.
    open spec fn sub_req(self, rhs: Self) -> bool {
        self.x >= rhs.x && self.y >= rhs.y
    }

    open spec fn sub_spec(self, rhs: Self) -> Self {
        Vector2i { x: (self.x - rhs.x) as u32, y: (self.y - rhs.y) as u32 }
    }
}

impl Mul for Vector2i {
    type Output = Self;

    fn mul(self, rhs: Self) -> (r: Self) {
        Self { x: self.x * rhs.x, y: self.y * rhs.y }
    }
}

impl MulSpecImpl for Vector2i {
    open spec fn obeys_mul_spec() -> bool {
        true
    }

    /// Neither coordinate of the product exceeds a `u32`.
    open spec fn mul_req(self, rhs: Self) -> bool {
        self.x * rhs.x <= u32::MAX && self.y * rhs.y <= u32::MAX
    }

    open spec fn mul_spec(self, rhs: Self) -> Self {
        Vector2i { x: (self.x * rhs.x) as u32, y: (self.y * rhs.y) as u32 }
    }
}

impl MulAssign for Vector2i {
    fn mul_assign(&mut self, rhs: Self)
        requires
            old(self).x * rhs.x <= u32::MAX,
            old(self).y * rhs.y <= u32::MAX,
        ensures
            final(self).x == old(self).x * rhs.x,
            final(self).y == old(self).y * rhs.y,
    {
        self.x = self.x * rhs.x;
        self.y = self.y * rhs.y;
    }
}

} // verus!
