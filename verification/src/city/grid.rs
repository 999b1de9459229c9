//! Partition of a rectangular plane into road lines and block cells.
//!
//! Each axis is scanned on its own. Walking forward from zero by successive
//! pitch deltas gives the candidate line centres; each candidate takes the next
//! breadth from a stream that both axes share, the x axis first. A candidate
//! becomes a line when its whole breadth fits inside the plane, and the gaps
//! between lines are the cell spans. The cells of the plane are the products of
//! the cell spans of the two axes.

use vstd::prelude::*;
use vstd::arithmetic::div_mod::lemma_fundamental_div_mod_converse;
use crate::city::fixed::{half, halve};
use crate::city::geom::rectangle::{span, Rectangle};
use crate::city::geom::vector::Vector2;
use crate::city::GenerateError;

verus! {

/// The sum of the first `n` pitch deltas.
pub open spec fn offset_after(deltas: Seq<i64>, n: int) -> int
    decreases n,
{
    if n <= 0 {
        0
    } else {
        offset_after(deltas, n - 1) + deltas[n - 1]
    }
}

/// Whether a candidate centred at `offset` becomes a line: its breadth is not
/// negative, its near edge is not below zero and its centre is less than half a
/// breadth short of `bound`.
pub open spec fn accepts(offset: int, breadth: i64, bound: i64) -> bool {
    0 <= breadth && half(breadth as int) <= offset < bound - half(breadth as int)
}

/// The span that a line centred at `offset` occupies along its axis.
pub open spec fn line_span(offset: int, breadth: i64) -> (i64, i64) {
    ((offset - half(breadth as int)) as i64, (offset + half(breadth as int)) as i64)
}

/// How many candidates an axis considers: one for each pitch delta that has a
/// breadth to go with it.
pub open spec fn candidates(deltas: Seq<i64>, breadths: Seq<i64>) -> int {
    if deltas.len() <= breadths.len() {
        deltas.len() as int
    } else {
        breadths.len() as int
    }
}

/// The spans of the lines accepted among the first `n` candidates of an axis,
/// in the order of the scan.
pub open spec fn axis_lines(deltas: Seq<i64>, breadths: Seq<i64>, bound: i64, n: int) -> Seq<
    (i64, i64),
>
    decreases n,
{
    if n <= 0 {
        Seq::empty()
    } else {
        let earlier = axis_lines(deltas, breadths, bound, n - 1);
        let offset = offset_after(deltas, n);
        if accepts(offset, breadths[n - 1], bound) {
            earlier.push(line_span(offset, breadths[n - 1]))
        } else {
            earlier
        }
    }
}

/// The cell spans that `lines` leave along an axis: from zero to the first
/// line, between neighbouring lines, and from the last line to `bound`.
pub open spec fn axis_cells(lines: Seq<(i64, i64)>, bound: i64) -> Seq<(i64, i64)> {
    Seq::new(
        lines.len() + 1,
        |i: int|
            (
                if i == 0 {
                    0i64
                } else {
                    lines[i - 1].1
                },
                if i == lines.len() {
                    bound
                } else {
                    lines[i].0
                },
            ),
    )
}

/// The line spans of the x axis.
pub open spec fn x_lines(x_offsets: Seq<i64>, breadths: Seq<i64>, bounds: Vector2) -> Seq<
    (i64, i64),
> {
    axis_lines(x_offsets, breadths, bounds.x, candidates(x_offsets, breadths))
}

/// The line spans of the y axis, which takes up the breadth stream where the
/// x axis left it.
pub open spec fn y_lines(
    x_offsets: Seq<i64>,
    y_offsets: Seq<i64>,
    breadths: Seq<i64>,
    bounds: Vector2,
) -> Seq<(i64, i64)> {
    let rest = breadths.skip(candidates(x_offsets, breadths));
    axis_lines(y_offsets, rest, bounds.y, candidates(y_offsets, rest))
}

/// The corners of the line rectangles: the lines of the x axis, each spanning
/// the full height, then the lines of the y axis, each spanning the full width.
pub open spec fn line_rectangles(xl: Seq<(i64, i64)>, yl: Seq<(i64, i64)>, bounds: Vector2) -> Seq<
    (Vector2, Vector2),
> {
    Seq::new(
        xl.len() + yl.len(),
        |i: int|
            if i < xl.len() {
                span(Vector2 { x: xl[i].0, y: 0 }, Vector2 { x: xl[i].1, y: bounds.y })
            } else {
                span(
                    Vector2 { x: 0, y: yl[i - xl.len()].0 },
                    Vector2 { x: bounds.x, y: yl[i - xl.len()].1 },
                )
            },
    )
}

/// The corners of the cell rectangles: every x cell span crossed with every
/// y cell span, the y spans varying fastest.
pub open spec fn cell_rectangles(cx: Seq<(i64, i64)>, cy: Seq<(i64, i64)>) -> Seq<
    (Vector2, Vector2),
> {
    Seq::new(
        cx.len() * cy.len(),
        |k: int|
            span(
                Vector2 { x: cx[k / (cy.len() as int)].0, y: cy[k % (cy.len() as int)].0 },
                Vector2 { x: cx[k / (cy.len() as int)].1, y: cy[k % (cy.len() as int)].1 },
            ),
    )
}

/// The corners of each rectangle of `rectangles`.
pub open spec fn corners(rectangles: Seq<Rectangle>) -> Seq<(Vector2, Vector2)> {
    rectangles.map_values(|r: Rectangle| r@)
}

/// A grid-like set of rectangles: the lines of the grid and the cells that the
/// lines leave.
pub struct GridPartition {
    pub lines: Vec<Rectangle>,
    pub rectangles: Vec<Rectangle>,
}

/// A sum of `n` pitch deltas is at most `n` times as far from zero as one delta
/// can be.
pub proof fn lemma_offset_bounded(deltas: Seq<i64>, n: int)
    requires
        0 <= n <= deltas.len(),
    ensures
        -n * 0x8000_0000_0000_0000 <= offset_after(deltas, n) <= n * 0x7fff_ffff_ffff_ffff,
    decreases n,
{
    if n > 0 {
        lemma_offset_bounded(deltas, n - 1);
    }
}

/// Scans one axis: pairs the pitch deltas with the breadths from index `first`
/// on and collects the spans of the accepted lines.
fn scan_axis(deltas: &Vec<i64>, breadths: &Vec<i64>, first: usize, bound: i64) -> (res: (
    Vec<(i64, i64)>,
    usize,
))
    requires
        first <= breadths.len(),
    ensures
        res.0@ == axis_lines(
            deltas@,
            breadths@.skip(first as int),
            bound,
            candidates(deltas@, breadths@.skip(first as int)),
        ),
        res.1 == first + candidates(deltas@, breadths@.skip(first as int)),
{
    let ghost rest = breadths@.skip(first as int);
    let mut lines: Vec<(i64, i64)> = Vec::new();
    let mut offset: i128 = 0;
    let mut k: usize = 0;
    while k < deltas.len() && k < breadths.len() - first
        invariant
            first <= breadths.len(),
            rest == breadths@.skip(first as int),
            k <= candidates(deltas@, rest),
            offset == offset_after(deltas@, k as int),
            lines@ == axis_lines(deltas@, rest, bound, k as int),
        decreases deltas.len() - k,
    {
        proof {
            lemma_offset_bounded(deltas@, k as int);
            lemma_offset_bounded(deltas@, k + 1);
        }
        let breadth = breadths[first + k];
        offset = offset + deltas[k] as i128;
        k = k + 1;
        if breadth >= 0 {
            let outset = halve(breadth) as i128;
            if outset <= offset && offset < bound as i128 - outset {
                lines.push(((offset - outset) as i64, (offset + outset) as i64));
            }
        }
    }
    (lines, first + k)
}

/// The cell spans that `lines` leave along an axis that ends at `bound`.
fn cells_between(lines: &Vec<(i64, i64)>, bound: i64) -> (cells: Vec<(i64, i64)>)
    ensures
        cells@ == axis_cells(lines@, bound),
{
    let mut cells: Vec<(i64, i64)> = Vec::new();
    let mut start: i64 = 0;
    let mut i: usize = 0;
    while i < lines.len()
        invariant
            i <= lines.len(),
            cells.len() == i,
            start == if i == 0 {
                0i64
            } else {
                lines@[i - 1].1
            },
            forall|j: int| 0 <= j < i ==> cells@[j] == axis_cells(lines@, bound)[j],
        decreases lines.len() - i,
    {
        cells.push((start, lines[i].0));
        start = lines[i].1;
        i = i + 1;
    }
    cells.push((start, bound));
    cells
}

impl GridPartition {
    /// Partitions the plane from the origin to `grid_bounds`.
    ///
    /// `x_offsets` and `y_offsets` hold the pitch deltas of the two axes and
    /// `line_breadths` the breadths, taken in turn by the candidates of the
    /// x axis and then by those of the y axis. An axis stops when it runs out of
    /// pitch deltas or of breadths; its last cell always ends at the bound.
    pub fn new(
        x_offsets: Vec<i64>,
        y_offsets: Vec<i64>,
        line_breadths: Vec<i64>,
        grid_bounds: Vector2,
    ) -> (res: Result<GridPartition, GenerateError>)
        ensures
            res matches Ok(grid) && {
                let xl = x_lines(x_offsets@, line_breadths@, grid_bounds);
                let yl = y_lines(x_offsets@, y_offsets@, line_breadths@, grid_bounds);
                &&& corners(grid.lines@) == line_rectangles(xl, yl, grid_bounds)
                &&& corners(grid.rectangles@) == cell_rectangles(
                    axis_cells(xl, grid_bounds.x),
                    axis_cells(yl, grid_bounds.y),
                )
            },
    {
        let (xl, used) = scan_axis(&x_offsets, &line_breadths, 0, grid_bounds.x);
        assert(line_breadths@.skip(0) == line_breadths@);
        let (yl, _) = scan_axis(&y_offsets, &line_breadths, used, grid_bounds.y);
        let ghost model_lines = line_rectangles(xl@, yl@, grid_bounds);

        let mut grid_lines: Vec<Rectangle> = Vec::new();
        let mut i: usize = 0;
        while i < xl.len()
            invariant
                i <= xl.len(),
                grid_lines.len() == i,
                model_lines == line_rectangles(xl@, yl@, grid_bounds),
                forall|k: int| 0 <= k < i ==> (#[trigger] grid_lines@[k])@ == model_lines[k],
            decreases xl.len() - i,
        {
            let start = Vector2 { x: xl[i].0, y: 0 };
            let end = Vector2 { x: xl[i].1, y: grid_bounds.y };
            grid_lines.push(Rectangle::new(start, end));
            i = i + 1;
        }
        let mut j: usize = 0;
        while j < yl.len()
            invariant
                j <= yl.len(),
                grid_lines.len() == xl.len() + j,
                model_lines == line_rectangles(xl@, yl@, grid_bounds),
                forall|k: int|
                    0 <= k < xl.len() + j ==> (#[trigger] grid_lines@[k])@ == model_lines[k],
            decreases yl.len() - j,
        {
            let start = Vector2 { x: 0, y: yl[j].0 };
            let end = Vector2 { x: grid_bounds.x, y: yl[j].1 };
            grid_lines.push(Rectangle::new(start, end));
            j = j + 1;
        }
        assert(corners(grid_lines@) =~= model_lines);

        let x_bounds = cells_between(&xl, grid_bounds.x);
        let y_bounds = cells_between(&yl, grid_bounds.y);
        let ghost model_cells = cell_rectangles(x_bounds@, y_bounds@);
        let ghost ny = y_bounds.len() as int;
        let mut grid_rectangles: Vec<Rectangle> = Vec::new();
        let mut a: usize = 0;
        while a < x_bounds.len()
            invariant
                a <= x_bounds.len(),
                ny == y_bounds.len(),
                ny > 0,
                grid_rectangles.len() == a * ny,
                model_cells == cell_rectangles(x_bounds@, y_bounds@),
                forall|k: int|
                    0 <= k < a * ny ==> (#[trigger] grid_rectangles@[k])@ == model_cells[k],
            decreases x_bounds.len() - a,
        {
            let mut b: usize = 0;
            while b < y_bounds.len()
                invariant
                    a < x_bounds.len(),
                    b <= y_bounds.len(),
                    ny == y_bounds.len(),
                    ny > 0,
                    grid_rectangles.len() == a * ny + b,
                    model_cells == cell_rectangles(x_bounds@, y_bounds@),
                    forall|k: int|
                        0 <= k < a * ny + b ==> (#[trigger] grid_rectangles@[k])@
                            == model_cells[k],
                decreases y_bounds.len() - b,
            {
                proof {
                    lemma_fundamental_div_mod_converse(a * ny + b, ny, a as int, b as int);
                    assert(a * ny + b < x_bounds.len() * ny) by (nonlinear_arith)
                        requires
                            a < x_bounds.len(),
                            b < ny,
                    ;
                }
                let start = Vector2 { x: x_bounds[a].0, y: y_bounds[b].0 };
                let end = Vector2 { x: x_bounds[a].1, y: y_bounds[b].1 };
                grid_rectangles.push(Rectangle::new(start, end));
                b = b + 1;
            }
            assert(a * ny + ny == (a + 1) * ny) by (nonlinear_arith);
            a = a + 1;
        }
        assert(corners(grid_rectangles@) =~= model_cells);

        Ok(Self { lines: grid_lines, rectangles: grid_rectangles })
    }
}

} // verus!
