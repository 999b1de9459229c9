//! Axis-aligned rectangles with ordered corners.

use vstd::prelude::*;
use vstd::arithmetic::div_mod::lemma_fundamental_div_mod_converse;
use crate::city::fixed::{clamp, sat_add, sat_sub, to_whole, whole};
use crate::city::geom::vector::{Vector2, Vector2i};

verus! {

/// The smaller of two coordinates.
pub open spec fn lesser(a: i64, b: i64) -> i64 {
    if a <= b {
        a
    } else {
        b
    }
}

/// The larger of two coordinates.
pub open spec fn greater(a: i64, b: i64) -> i64 {
    if a >= b {
        a
    } else {
        b
    }
}

/// The corners of the rectangle spanned by `a` and `b`, lower corner first.
pub open spec fn span(a: Vector2, b: Vector2) -> (Vector2, Vector2) {
    (
        Vector2 { x: lesser(a.x, b.x), y: lesser(a.y, b.y) },
        Vector2 { x: greater(a.x, b.x), y: greater(a.y, b.y) },
    )
}

/// The rectangle spanned by two corners does not depend on their order, and
/// its lower corner never exceeds its upper corner.
pub proof fn lemma_span_is_ordered(a: Vector2, b: Vector2)
    ensures
        span(a, b) == span(b, a),
        span(a, b).0.x <= span(a, b).1.x,
        span(a, b).0.y <= span(a, b).1.y,
{
}

/// One axis of a rectangle after shrinking by `breadth` at both ends. An
/// interval too short for that collapses onto its midpoint.
pub open spec fn inset_axis(lo: i64, hi: i64, breadth: i64) -> (i64, i64) {
    let s = clamp(lo + breadth);
    let e = clamp(hi - breadth);
    if s <= e {
        (s, e)
    } else {
        let mid = (lo + (hi - lo) / 2) as i64;
        (mid, mid)
    }
}

/// Both axes of a rectangle after shrinking by `breadth` on all sides.
pub open spec fn inset_corners(r: (Vector2, Vector2), breadth: i64) -> (Vector2, Vector2) {
    let x = inset_axis(r.0.x, r.1.x, breadth);
    let y = inset_axis(r.0.y, r.1.y, breadth);
    (Vector2 { x: x.0, y: y.0 }, Vector2 { x: x.1, y: y.1 })
}

/// The corners `r` moved by `offset`.
pub open spec fn translated(r: (Vector2, Vector2), offset: Vector2) -> (Vector2, Vector2) {
    (r.0.plus(offset), r.1.plus(offset))
}

/// The corners `r` multiplied by `by`, coordinate by coordinate, and put back
/// in order.
pub open spec fn scaled(r: (Vector2, Vector2), by: Vector2) -> (Vector2, Vector2) {
    span(r.0.times(by), r.1.times(by))
}

/// Whether the interiors of two rectangles share a point.
pub open spec fn interiors_meet(a: (Vector2, Vector2), b: (Vector2, Vector2)) -> bool {
    &&& greater(a.0.x, b.0.x) < lesser(a.1.x, b.1.x)
    &&& greater(a.0.y, b.0.y) < lesser(a.1.y, b.1.y)
}

/// The pixel coordinates inside the rectangle with corners `r`: the whole
/// parts of its corners bound them, the upper bound excluded, and they run
/// column by column.
pub open spec fn interior_pixels(r: (Vector2, Vector2)) -> Seq<Vector2i> {
    let x0 = whole(r.0.x as int);
    let x1 = whole(r.1.x as int);
    let y0 = whole(r.0.y as int);
    let y1 = whole(r.1.y as int);
    if x0 < x1 && y0 < y1 {
        Seq::new(
            ((x1 - x0) * (y1 - y0)) as nat,
            |k: int| Vector2i { x: (x0 + k / (y1 - y0)) as u32, y: (y0 + k % (y1 - y0)) as u32 },
        )
    } else {
        Seq::empty()
    }
}

/// An axis-aligned rectangle. Its lower corner never exceeds its upper corner
/// in either coordinate.
#[derive(Clone, Copy, Debug)]
pub struct Rectangle {
    start: Vector2,
    end: Vector2,
}

impl View for Rectangle {
    type V = (Vector2, Vector2);

    /// The lower and the upper corner.
    closed spec fn view(&self) -> (Vector2, Vector2) {
        (self.start, self.end)
    }
}

impl Rectangle {
    #[verifier::type_invariant]
    closed spec fn ordered(self) -> bool {
        self.start.x <= self.end.x && self.start.y <= self.end.y
    }

    /// Whether the corners `v` are in order.
    pub open spec fn well_formed(v: (Vector2, Vector2)) -> bool {
        v.0.x <= v.1.x && v.0.y <= v.1.y
    }

    /// The rectangle spanned by two corners given in any order.
    pub fn new(start: Vector2, end: Vector2) -> (r: Self)
        ensures
            r@ == span(start, end),
            Self::well_formed(r@),
    {
        Self {
            start: Vector2 {
                x: if start.x <= end.x { start.x } else { end.x },
                y: if start.y <= end.y { start.y } else { end.y },
            },
            end: Vector2 {
                x: if start.x >= end.x { start.x } else { end.x },
                y: if start.y >= end.y { start.y } else { end.y },
            },
        }
    }

    /// The lower corner.
    pub fn start(&self) -> (r: Vector2)
        ensures
            r == self@.0,
            Self::well_formed(self@),
    {
        proof {
            use_type_invariant(self);
        }
        self.start
    }

    /// The upper corner.
    pub fn end(&self) -> (r: Vector2)
        ensures
            r == self@.1,
            Self::well_formed(self@),
    {
        proof {
            use_type_invariant(self);
        }
        self.end
    }

    /// The extent along the x axis.
    pub fn width(&self) -> (r: i64)
        ensures
            r == clamp(self@.1.x - self@.0.x),
            r >= 0,
    {
        proof {
            use_type_invariant(self);
        }
        sat_sub(self.end.x, self.start.x)
    }

    /// The extent along the y axis.
    pub fn height(&self) -> (r: i64)
        ensures
            r == clamp(self@.1.y - self@.0.y),
            r >= 0,
    {
        proof {
            use_type_invariant(self);
        }
        sat_sub(self.end.y, self.start.y)
    }

    /// Width and height as one vector.
    pub fn dimensions(&self) -> (r: Vector2)
        ensures
            r.x == clamp(self@.1.x - self@.0.x),
            r.y == clamp(self@.1.y - self@.0.y),
            r.x >= 0,
            r.y >= 0,
    {
        Vector2 { x: self.width(), y: self.height() }
    }

    /// Whether `point` lies strictly inside: a point on the boundary is not
    /// contained.
    pub fn contains(&self, point: Vector2) -> (r: bool)
        ensures
            r == (self@.0.x < point.x < self@.1.x && self@.0.y < point.y < self@.1.y),
    {
        point.east_of(self.start) && point.west_of(self.end) && point.north_of(self.start)
            && point.south_of(self.end)
    }

    /// The rectangle with both corners multiplied by `by`, coordinate by
    /// coordinate. A negative factor swaps the corners back into order.
    pub fn scale(&self, by: Vector2) -> (r: Self)
        ensures
            r@ == scaled(self@, by),
            Self::well_formed(r@),
    {
        Self::new(self.start * by, self.end * by)
    }

    /// The rectangle moved by `offset`.
    pub fn translate(&self, offset: Vector2) -> (r: Self)
        ensures
            r@ == translated(self@, offset),
            Self::well_formed(r@),
    {
        proof {
            use_type_invariant(self);
        }
        Self { start: self.start + offset, end: self.end + offset }
    }

    /// The rectangle shrunk by `breadth` on all four sides. Along an axis that
    /// is shorter than twice the breadth the result has no extent and sits at the
    /// midpoint; its corners never swap.
    pub fn inset(&self, breadth: i64) -> (r: Self)
        ensures
            r@ == inset_corners(self@, breadth),
            Self::well_formed(r@),
    {
        proof {
            use_type_invariant(self);
        }
        let x = Self::inset_span(self.start.x, self.end.x, breadth);
        let y = Self::inset_span(self.start.y, self.end.y, breadth);
        Self { start: Vector2 { x: x.0, y: y.0 }, end: Vector2 { x: x.1, y: y.1 } }
    }

    fn inset_span(lo: i64, hi: i64, breadth: i64) -> (r: (i64, i64))
        requires
            lo <= hi,
        ensures
            r == inset_axis(lo, hi, breadth),
            r.0 <= r.1,
    {
        let s = sat_add(lo, breadth);
        let e = sat_sub(hi, breadth);
        if s <= e {
            (s, e)
        } else {
            let wide: i128 = lo as i128 + (hi as i128 - lo as i128) / 2;
            let mid = wide as i64;
            (mid, mid)
        }
    }

    /// Whether the interiors of `self` and `other` overlap. Rectangles that
    /// only touch, and rectangles without area, overlap nothing.
    pub fn intersects(&self, other: Rectangle) -> (r: bool)
        ensures
            r == interiors_meet(self@, other@),
    {
        let left = if self.start.x >= other.start.x { self.start.x } else { other.start.x };
        let right = if self.end.x <= other.end.x { self.end.x } else { other.end.x };
        let top = if self.start.y >= other.start.y { self.start.y } else { other.start.y };
        let bottom = if self.end.y <= other.end.y { self.end.y } else { other.end.y };
        left < right && top < bottom
    }

    /// The pixel coordinates inside the rectangle, column by column. Both
    /// corners are cut down to whole pixels, never rounded up.
    pub fn interior_int_coords(&self) -> (pixels: Vec<Vector2i>)
        ensures
            pixels@ == interior_pixels(self@),
    {
        let startx = to_whole(self.start.x);
        let endx = to_whole(self.end.x);
        let starty = to_whole(self.start.y);
        let endy = to_whole(self.end.y);
        let mut pixels: Vec<Vector2i> = Vec::new();
        if startx >= endx || starty >= endy {
            return pixels;
        }
        let ghost model = interior_pixels(self@);
        let ghost h = endy - starty;
        let mut x = startx;
        while x < endx
            invariant
                startx <= x <= endx,
                starty < endy,
                h == endy - starty,
                model == interior_pixels(self@),
                model.len() == (endx - startx) * h,
                startx == whole(self@.0.x as int),
                endx == whole(self@.1.x as int),
                starty == whole(self@.0.y as int),
                endy == whole(self@.1.y as int),
                pixels.len() == (x - startx) * h,
                forall|k: int| 0 <= k < pixels.len() ==> pixels@[k] == model[k],
            decreases endx - x,
        {
            let mut y = starty;
            while y < endy
                invariant
                    startx <= x < endx,
                    starty <= y <= endy,
                    h == endy - starty,
                    model == interior_pixels(self@),
                    model.len() == (endx - startx) * h,
                    startx == whole(self@.0.x as int),
                    endx == whole(self@.1.x as int),
                    starty == whole(self@.0.y as int),
                    endy == whole(self@.1.y as int),
                    pixels.len() == (x - startx) * h + (y - starty),
                    forall|k: int| 0 <= k < pixels.len() ==> pixels@[k] == model[k],
                decreases endy - y,
            {
                proof {
                    let k = (x - startx) * h + (y - starty);
                    lemma_fundamental_div_mod_converse(k, h, x - startx, y - starty);
                    assert(k < (endx - startx) * h) by (nonlinear_arith)
                        requires
                            k == (x - startx) * h + (y - starty),
                            0 <= x - startx < endx - startx,
                            0 <= y - starty < h,
                    ;
                }
                pixels.push(Vector2i { x, y });
                y = y + 1;
            }
            assert((x - startx) * h + h == (x + 1 - startx) * h) by (nonlinear_arith);
            x = x + 1;
        }
        assert(pixels@ =~= model);
        pixels
    }
}

} // verus!
