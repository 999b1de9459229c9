//! Fixed-point scalars.
//!
//! Every length, density and fraction in this crate is an `i64` counting
//! millionths of its unit. Results that leave the `i64` range saturate at its
//! ends instead of wrapping, and quotients round towards zero.

use vstd::prelude::*;
use vstd::arithmetic::div_mod::lemma_div_multiples_vanish;

verus! {

/// The fixed-point representation of the number one.
pub const ONE: i64 = 1_000_000;

/// The nearest `i64` to `v`.
pub open spec fn clamp(v: int) -> i64 {
    if v < i64::MIN {
        i64::MIN
    } else if v > i64::MAX {
        i64::MAX
    } else {
        v as i64
    }
}

/// The quotient of `a` by `b`, rounded towards zero.
pub open spec fn trunc_div(a: int, b: int) -> int
    recommends
        b != 0,
{
    if a >= 0 && b > 0 {
        a / b
    } else if a >= 0 {
        -(a / (-b))
    } else if b > 0 {
        -((-a) / b)
    } else {
        (-a) / (-b)
    }
}

/// Half of `v`, rounded towards zero.
pub open spec fn half(v: int) -> int {
    trunc_div(v, 2)
}

/// The fixed-point product of `a` and `b`.
pub open spec fn product(a: int, b: int) -> i64 {
    clamp(trunc_div(a * b, ONE as int))
}

/// The fixed-point quotient of `a` by `b`. Division by zero saturates by the
/// sign of `a`, and zero by zero is zero.
pub open spec fn quotient(a: int, b: int) -> i64 {
    if b != 0 {
        clamp(trunc_div(a * ONE, b))
    } else if a > 0 {
        i64::MAX
    } else if a < 0 {
        i64::MIN
    } else {
        0
    }
}

/// The whole part of `v`, held to the `u32` range.
pub open spec fn whole(v: int) -> u32 {
    if v < 0 {
        0
    } else if v / (ONE as int) > u32::MAX {
        u32::MAX
    } else {
        (v / (ONE as int)) as u32
    }
}

/// The nearest `i64` to `wide`.
pub fn saturate(wide: i128) -> (r: i64)
    ensures
        r == clamp(wide as int),
{
    if wide < i64::MIN as i128 {
        i64::MIN
    } else if wide > i64::MAX as i128 {
        i64::MAX
    } else {
        wide as i64
    }
}

/// `a + b`, held to the `i64` range.
pub fn sat_add(a: i64, b: i64) -> (r: i64)
    ensures
        r == clamp(a + b),
{
    saturate(a as i128 + b as i128)
}

/// `a - b`, held to the `i64` range.
pub fn sat_sub(a: i64, b: i64) -> (r: i64)
    ensures
        r == clamp(a - b),
{
    saturate(a as i128 - b as i128)
}

/// Half of `v`, rounded towards zero.
pub fn halve(v: i64) -> (r: i64)
    ensures
        r == half(v as int),
{
    v / 2
}

/// The fixed-point product of `a` and `b`.
pub fn fixed_mul(a: i64, b: i64) -> (r: i64)
    ensures
        r == product(a as int, b as int),
{
    assert(-0x4000_0000_0000_0000_0000_0000_0000_0000 <= a * b
        <= 0x4000_0000_0000_0000_0000_0000_0000_0000) by (nonlinear_arith)
        requires
            -0x8000_0000_0000_0000 <= a <= 0x7fff_ffff_ffff_ffff,
            -0x8000_0000_0000_0000 <= b <= 0x7fff_ffff_ffff_ffff,
    ;
    let wide: i128 = (a as i128) * (b as i128);
    saturate(wide / (ONE as i128))
}

/// The fixed-point quotient of `a` by `b`.
pub fn fixed_div(a: i64, b: i64) -> (r: i64)
    ensures
        r == quotient(a as int, b as int),
{
    if b == 0 {
        if a > 0 {
            i64::MAX
        } else if a < 0 {
            i64::MIN
        } else {
            0
        }
    } else {
        assert(-0x8000_0000_0000_0000 * 1_000_000 <= a * ONE <= 0x8000_0000_0000_0000
            * 1_000_000) by (nonlinear_arith)
            requires
                ONE == 1_000_000,
                -0x8000_0000_0000_0000 <= a <= 0x7fff_ffff_ffff_ffff,
        ;
        let wide: i128 = (a as i128) * (ONE as i128);
        let q: i128 = if b > 0 {
            wide / (b as i128)
        } else {
            -(wide / -(b as i128))
        };
        saturate(q)
    }
}

/// The fixed-point reciprocal of `v`.
pub fn recip(v: i64) -> (r: i64)
    ensures
        r == quotient(ONE as int, v as int),
{
    fixed_div(ONE, v)
}

/// The whole part of `v`, held to the `u32` range.
pub fn to_whole(v: i64) -> (r: u32)
    ensures
        r == whole(v as int),
{
    if v < 0 {
        0
    } else {
        let w: i64 = v / ONE;
        if w > u32::MAX as i64 {
            u32::MAX
        } else {
            w as u32
        }
    }
}

/// The fixed-point representation of the whole number `n`.
pub fn from_whole(n: u32) -> (r: i64)
    ensures
        r == n * ONE,
{
    (n as i64) * ONE
}

/// Whether `r` is the whole part of the square root of `n`.
pub open spec fn is_root(r: int, n: int) -> bool {
    0 <= r && r * r <= n < (r + 1) * (r + 1)
}

/// The whole part of the square root of `n`.
pub fn whole_root(n: u128) -> (r: u128)
    ensures
        is_root(r as int, n as int),
        r < 0x1_0000_0000_0000_0000,
{
    let mut low: u128 = 0;
    let mut high: u128 = 0x1_0000_0000_0000_0000;
    assert(0x1_0000_0000_0000_0000 * 0x1_0000_0000_0000_0000
        == 0x1_0000_0000_0000_0000_0000_0000_0000_0000) by (nonlinear_arith);
    while high - low > 1
        invariant
            low < high <= 0x1_0000_0000_0000_0000,
            low * low <= n < high * high,
        decreases high - low,
    {
        let middle = low + (high - low) / 2;
        assert(middle * middle <= 0xFFFF_FFFF_FFFF_FFFF * 0xFFFF_FFFF_FFFF_FFFF) by (nonlinear_arith)
            requires
                0 <= middle <= 0xFFFF_FFFF_FFFF_FFFF,
        ;
        if middle * middle <= n {
            low = middle;
        } else {
            high = middle;
        }
    }
    low
}

/// The whole part of the square root of `n`, for `n` that is not negative.
pub open spec fn root(n: int) -> int {
    choose|r: int| is_root(r, n)
}

/// A number has one whole root only.
pub proof fn lemma_root_is_unique(r: int, n: int)
    requires
        is_root(r, n),
    ensures
        root(n) == r,
{
    let other = root(n);
    assert(is_root(other, n));
    if other < r {
        assert((other + 1) * (other + 1) <= r * r) by (nonlinear_arith)
            requires
                0 <= other + 1 <= r,
        ;
    } else if r < other {
        assert((r + 1) * (r + 1) <= other * other) by (nonlinear_arith)
            requires
                0 <= r + 1 <= other,
        ;
    }
}

/// Products with one, zero and minus one: one keeps a number, zero makes
/// it zero, and minus one makes it its opposite, held to the `i64` range.
pub proof fn lemma_unit_products(v: i64)
    ensures
        product(ONE as int, v as int) == v,
        product(v as int, ONE as int) == v,
        product(0, v as int) == 0,
        product(v as int, 0) == 0,
        product(-ONE, v as int) == clamp(-v),
        product(v as int, -ONE) == clamp(-v),
{
    let one = ONE as int;
    assert(0 * v == 0 && v * 0 == 0);
    assert(one * v == v * one) by (nonlinear_arith);
    assert((-one) * v == -(one * v) && v * (-one) == -(one * v)) by (nonlinear_arith);
    assert(-(one * v) == one * (-v)) by (nonlinear_arith);
    if v >= 0 {
        lemma_div_multiples_vanish(v as int, one);
        assert(one * v >= 0) by (nonlinear_arith)
            requires
                v >= 0,
                one > 0,
        ;
    } else {
        lemma_div_multiples_vanish(-v, one);
        assert(one * v < 0) by (nonlinear_arith)
            requires
                v < 0,
                one > 0,
        ;
    }
}

} // verus!
