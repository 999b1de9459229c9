//! What holds of every grid partition: lines stay inside the plane, and lines
//! and cells together tile it.
//!
//! Coordinates are whole numbers of fixed-point units, so the plane from the
//! origin to `(w, h)` is made of the unit squares `(u, v)` with `0 <= u < w` and
//! `0 <= v < h`, and a rectangle covers the unit squares between its corners.
//! Rectangles have disjoint interiors exactly when no unit square is covered by
//! two of them.

use vstd::prelude::*;
use vstd::arithmetic::div_mod::{
    lemma_div_pos_is_pos, lemma_fundamental_div_mod, lemma_fundamental_div_mod_converse,
    lemma_mod_pos_bound,
};
use crate::city::fixed::half;
use crate::city::geom::vector::Vector2;
use crate::city::grid::{
    accepts, axis_cells, axis_lines, candidates, cell_rectangles, line_rectangles, line_span,
    offset_after, x_lines, y_lines,
};

verus! {

/// Whether the span holds the unit interval that starts at `u`.
pub open spec fn in_span(s: (i64, i64), u: int) -> bool {
    s.0 <= u < s.1
}

/// Whether the rectangle with corners `r` covers the unit square at `(u, v)`.
pub open spec fn covers(r: (Vector2, Vector2), u: int, v: int) -> bool {
    r.0.x <= u < r.1.x && r.0.y <= v < r.1.y
}

/// Whether every span lies between zero and `bound` with its ends in order.
pub open spec fn within(spans: Seq<(i64, i64)>, bound: i64) -> bool {
    forall|i: int| 0 <= i < spans.len() ==> 0 <= (#[trigger] spans[i]).0 <= spans[i].1 <= bound
}

/// Whether each line begins no earlier than the line accepted before it ends.
pub open spec fn separated(lines: Seq<(i64, i64)>) -> bool {
    forall|i: int| 0 <= i && i + 1 < lines.len() ==> (#[trigger] lines[i]).1 <= lines[i + 1].0
}

/// Whether no line of one axis crosses a line of the other in more than an
/// edge: of any two such lines one has no breadth.
pub open spec fn crossing_free(xl: Seq<(i64, i64)>, yl: Seq<(i64, i64)>) -> bool {
    forall|i: int, j: int|
        0 <= i < xl.len() && 0 <= j < yl.len() ==> (#[trigger] xl[i]).0 == xl[i].1 || (
        #[trigger] yl[j]).0 == yl[j].1
}

/// Whether candidate `k` of an axis was in range and left the line `line`: its
/// outset does not exceed its offset, nor its offset the bound less its outset.
pub open spec fn is_source(
    deltas: Seq<i64>,
    breadths: Seq<i64>,
    bound: i64,
    k: int,
    line: (i64, i64),
) -> bool {
    let offset = offset_after(deltas, k + 1);
    let outset = half(breadths[k] as int);
    &&& outset <= offset <= bound - outset
    &&& accepts(offset, breadths[k], bound)
    &&& line == line_span(offset, breadths[k])
    &&& line.0 == offset - outset
    &&& line.1 == offset + outset
}

/// A candidate whose outset exceeds its offset, or whose offset exceeds the
/// bound less its outset, adds no line: the lines after it are the lines before
/// it.
pub proof fn lemma_candidate_out_of_range_is_dropped(
    deltas: Seq<i64>,
    breadths: Seq<i64>,
    bound: i64,
    k: int,
)
    requires
        0 <= k < candidates(deltas, breadths),
        half(breadths[k] as int) > offset_after(deltas, k + 1) || offset_after(deltas, k + 1) > bound
            - half(breadths[k] as int),
    ensures
        !accepts(offset_after(deltas, k + 1), breadths[k], bound),
        axis_lines(deltas, breadths, bound, k + 1) == axis_lines(deltas, breadths, bound, k),
{
}

/// Whether one of the first `n` candidates of an axis was in range and left
/// the line `line`.
pub open spec fn has_source(
    deltas: Seq<i64>,
    breadths: Seq<i64>,
    bound: i64,
    n: int,
    line: (i64, i64),
) -> bool {
    exists|k: int| 0 <= k < n && #[trigger] is_source(deltas, breadths, bound, k, line)
}

/// Every line is the span of a candidate that was in range, and lies inside
/// the axis: a candidate whose outset exceeds its offset, or whose offset
/// exceeds the bound less its outset, leaves no line.
pub proof fn lemma_lines_come_from_candidates_in_range(
    deltas: Seq<i64>,
    breadths: Seq<i64>,
    bound: i64,
    n: int,
)
    requires
        0 <= n <= candidates(deltas, breadths),
    ensures
        axis_lines(deltas, breadths, bound, n).len() <= n,
        within(axis_lines(deltas, breadths, bound, n), bound),
        forall|i: int|
            0 <= i < axis_lines(deltas, breadths, bound, n).len() ==> has_source(
                deltas,
                breadths,
                bound,
                n,
                #[trigger] axis_lines(deltas, breadths, bound, n)[i],
            ),
    decreases n,
{
    if n > 0 {
        lemma_lines_come_from_candidates_in_range(deltas, breadths, bound, n - 1);
        let earlier = axis_lines(deltas, breadths, bound, n - 1);
        let lines = axis_lines(deltas, breadths, bound, n);
        assert forall|i: int| 0 <= i < lines.len() implies has_source(
            deltas,
            breadths,
            bound,
            n,
            #[trigger] lines[i],
        ) && 0 <= lines[i].0 <= lines[i].1 <= bound by {
            if i < earlier.len() {
                assert(lines[i] == earlier[i]);
                assert(has_source(deltas, breadths, bound, n - 1, earlier[i]));
                let k = choose|k: int|
                    0 <= k < n - 1 && is_source(deltas, breadths, bound, k, earlier[i]);
                assert(is_source(deltas, breadths, bound, k, lines[i]));
            } else {
                assert(is_source(deltas, breadths, bound, n - 1, lines[i]));
            }
        }
    }
}

/// Whether lines `l` and `m` belong to the same axis, where the first `nx`
/// lines are those of the x axis.
pub open spec fn same_axis(nx: int, l: int, m: int) -> bool {
    (l < nx) == (m < nx)
}

/// What holds at the unit square `(u, v)` of a plane tiled by the lines `xl`
/// and `yl` and the cells between them: a line or a cell covers it, no two cells
/// cover it, no line covers it along with a cell, and no two lines of one axis
/// cover it.
pub open spec fn tiled_at(
    xl: Seq<(i64, i64)>,
    yl: Seq<(i64, i64)>,
    bounds: Vector2,
    u: int,
    v: int,
) -> bool {
    let lines = line_rectangles(xl, yl, bounds);
    let cells = cell_rectangles(axis_cells(xl, bounds.x), axis_cells(yl, bounds.y));
    &&& (exists|l: int| 0 <= l < lines.len() && covers(#[trigger] lines[l], u, v)) || (exists|
        k: int,
    | 0 <= k < cells.len() && covers(#[trigger] cells[k], u, v))
    &&& forall|k: int, m: int|
        0 <= k < cells.len() && 0 <= m < cells.len() && covers(#[trigger] cells[k], u, v) && covers(
            #[trigger] cells[m],
            u,
            v,
        ) ==> k == m
    &&& forall|k: int, l: int|
        0 <= k < cells.len() && 0 <= l < lines.len() ==> !(covers(#[trigger] cells[k], u, v)
            && covers(#[trigger] lines[l], u, v))
    &&& forall|l: int, m: int|
        0 <= l < lines.len() && 0 <= m < lines.len() && same_axis(xl.len() as int, l, m) && covers(
            #[trigger] lines[l],
            u,
            v,
        ) && covers(#[trigger] lines[m], u, v) ==> l == m
}

/// Whether the first `n` candidates of an axis keep their distance: no
/// breadth is negative, and every pitch delta after the first is at least half
/// the breadth of the candidate before it and half the breadth of its own.
pub open spec fn spaced(deltas: Seq<i64>, breadths: Seq<i64>, n: int) -> bool {
    &&& forall|k: int| 0 <= k < n ==> #[trigger] breadths[k] >= 0
    &&& forall|k: int|
        1 <= k < n ==> #[trigger] deltas[k] >= half(breadths[k - 1] as int) + half(
            breadths[k] as int,
        )
}

/// Candidates that keep their distance leave separated lines: each line
/// begins no earlier than the line before it ends, and the last line ends no
/// later than the last candidate would.
pub proof fn lemma_spaced_lines_are_separated(
    deltas: Seq<i64>,
    breadths: Seq<i64>,
    bound: i64,
    n: int,
)
    requires
        0 <= n <= candidates(deltas, breadths),
        spaced(deltas, breadths, n),
    ensures
        separated(axis_lines(deltas, breadths, bound, n)),
        n > 0 && axis_lines(deltas, breadths, bound, n).len() > 0 ==> axis_lines(
            deltas,
            breadths,
            bound,
            n,
        ).last().1 <= offset_after(deltas, n) + half(breadths[n - 1] as int),
    decreases n,
{
    if n > 0 {
        lemma_spaced_lines_are_separated(deltas, breadths, bound, n - 1);
        let earlier = axis_lines(deltas, breadths, bound, n - 1);
        let lines = axis_lines(deltas, breadths, bound, n);
        let offset = offset_after(deltas, n);
        let outset = half(breadths[n - 1] as int);
        assert(breadths[n - 1] >= 0);
        if n > 1 {
            assert(breadths[n - 2] >= 0);
            assert(deltas[n - 1] >= half(breadths[n - 2] as int) + outset);
        }
        if accepts(offset, breadths[n - 1], bound) {
            assert(lines == earlier.push(line_span(offset, breadths[n - 1])));
            assert forall|i: int| 0 <= i && i + 1 < lines.len() implies (#[trigger] lines[i]).1
                <= lines[i + 1].0 by {
                if i + 1 < earlier.len() {
                    assert(lines[i] == earlier[i]);
                    assert(lines[i + 1] == earlier[i + 1]);
                    assert(earlier[i].1 <= earlier[i + 1].0);
                } else {
                    assert(lines[i] == earlier.last());
                }
            }
        } else {
            assert(lines == earlier);
        }
    }
}

/// In a separated run of spans a later span starts and ends no earlier than
/// an earlier one.
proof fn lemma_chain(lines: Seq<(i64, i64)>, bound: i64, i: int, j: int)
    requires
        within(lines, bound),
        separated(lines),
        0 <= i <= j < lines.len(),
    ensures
        lines[i].0 <= lines[j].0,
        lines[i].1 <= lines[j].1,
        i < j ==> lines[i].1 <= lines[j].0,
    decreases j - i,
{
    if i < j {
        lemma_chain(lines, bound, i, j - 1);
        assert(lines[j - 1].1 <= lines[j - 1 + 1].0);
    }
}

/// The cell spans between separated lines are themselves inside the axis.
proof fn lemma_cells_within(lines: Seq<(i64, i64)>, bound: i64)
    requires
        0 <= bound,
        within(lines, bound),
        separated(lines),
    ensures
        within(axis_cells(lines, bound), bound),
{
    let cells = axis_cells(lines, bound);
    assert forall|i: int| 0 <= i < cells.len() implies 0 <= (#[trigger] cells[i]).0 <= cells[i].1
        <= bound by {
        if 0 < i {
            assert(0 <= lines[i - 1].0);
        }
        if i < lines.len() {
            assert(0 <= lines[i].0);
        }
        if 0 < i < lines.len() {
            assert(lines[i - 1].1 <= lines[i - 1 + 1].0);
        }
    }
}

/// Finds the line or cell span of an axis that holds `u`, searching from cell
/// `i` on. The result is `(true, k)` for line `k` and `(false, k)` for cell `k`.
proof fn lemma_locate(lines: Seq<(i64, i64)>, bound: i64, u: int, i: int) -> (r: (bool, int))
    requires
        within(lines, bound),
        separated(lines),
        0 <= u < bound,
        0 <= i <= lines.len(),
        i > 0 ==> lines[i - 1].1 <= u,
    ensures
        r.0 ==> 0 <= r.1 < lines.len() && in_span(lines[r.1], u),
        !r.0 ==> 0 <= r.1 <= lines.len() && in_span(axis_cells(lines, bound)[r.1], u),
    decreases lines.len() - i,
{
    if i == lines.len() {
        (false, i)
    } else if u < lines[i].0 {
        (false, i)
    } else if u < lines[i].1 {
        (true, i)
    } else {
        lemma_locate(lines, bound, u, i + 1)
    }
}

/// No unit interval of an axis lies in two of its line and cell spans.
proof fn lemma_axis_exclusive(lines: Seq<(i64, i64)>, bound: i64, u: int)
    requires
        within(lines, bound),
        separated(lines),
    ensures
        forall|i: int, j: int|
            0 <= i < lines.len() && 0 <= j < lines.len() && in_span(#[trigger] lines[i], u)
                && in_span(#[trigger] lines[j], u) ==> i == j,
        forall|i: int, j: int|
            0 <= i <= lines.len() && 0 <= j <= lines.len() && in_span(
                #[trigger] axis_cells(lines, bound)[i],
                u,
            ) && in_span(#[trigger] axis_cells(lines, bound)[j], u) ==> i == j,
        forall|i: int, j: int|
            0 <= i <= lines.len() && 0 <= j < lines.len() ==> !(in_span(
                #[trigger] axis_cells(lines, bound)[i],
                u,
            ) && in_span(#[trigger] lines[j], u)),
{
    let cells = axis_cells(lines, bound);
    assert forall|i: int, j: int|
        0 <= i < lines.len() && 0 <= j < lines.len() && in_span(#[trigger] lines[i], u) && in_span(
            #[trigger] lines[j],
            u,
        ) implies i == j by {
        if i < j {
            lemma_chain(lines, bound, i, j);
        } else if j < i {
            lemma_chain(lines, bound, j, i);
        }
    }
    assert forall|i: int, j: int|
        0 <= i <= lines.len() && 0 <= j <= lines.len() && in_span(#[trigger] cells[i], u)
            && in_span(#[trigger] cells[j], u) implies i == j by {
        if i < j {
            lemma_chain(lines, bound, i, j - 1);
            assert(lines[i].0 <= lines[i].1);
        } else if j < i {
            lemma_chain(lines, bound, j, i - 1);
            assert(lines[j].0 <= lines[j].1);
        }
    }
    assert forall|i: int, j: int| 0 <= i <= lines.len() && 0 <= j < lines.len() implies !(in_span(
        #[trigger] cells[i],
        u,
    ) && in_span(#[trigger] lines[j], u)) by {
        if i <= j {
            lemma_chain(lines, bound, i, j);
        } else {
            lemma_chain(lines, bound, j, i - 1);
        }
    }
}

/// The row and column of cell `k` in a product of `nx` by `ny` cell spans.
proof fn lemma_cell_coordinates(nx: int, ny: int, k: int)
    requires
        0 < ny,
        0 <= k < nx * ny,
    ensures
        0 <= k / ny < nx,
        0 <= k % ny < ny,
        k == (k / ny) * ny + k % ny,
{
    lemma_fundamental_div_mod(k, ny);
    lemma_mod_pos_bound(k, ny);
    lemma_div_pos_is_pos(k, ny);
    let q = k / ny;
    let r = k % ny;
    assert(k == ny * q + r);
    assert(q < nx) by (nonlinear_arith)
        requires
            k == ny * q + r,
            0 <= r,
            0 < ny,
            k < nx * ny,
    ;
    assert(ny * q == q * ny) by (nonlinear_arith);
}

/// The index of the cell in row `i` and column `j`.
proof fn lemma_cell_index(nx: int, ny: int, i: int, j: int)
    requires
        0 <= i < nx,
        0 <= j < ny,
    ensures
        0 <= i * ny + j < nx * ny,
        (i * ny + j) / ny == i,
        (i * ny + j) % ny == j,
{
    lemma_fundamental_div_mod_converse(i * ny + j, ny, i, j);
    assert(0 <= i * ny + j < nx * ny) by (nonlinear_arith)
        requires
            0 <= i < nx,
            0 <= j < ny,
    ;
}

/// The tiling of the plane by lines and cells whose spans along each axis
/// are in order.
proof fn lemma_spans_tile(xl: Seq<(i64, i64)>, yl: Seq<(i64, i64)>, bounds: Vector2, u: int, v: int)
    requires
        0 < bounds.x,
        0 < bounds.y,
        within(xl, bounds.x),
        within(yl, bounds.y),
        separated(xl),
        separated(yl),
        0 <= u < bounds.x,
        0 <= v < bounds.y,
    ensures
        tiled_at(xl, yl, bounds, u, v),
{
    let cx = axis_cells(xl, bounds.x);
    let cy = axis_cells(yl, bounds.y);
    let lines = line_rectangles(xl, yl, bounds);
    let cells = cell_rectangles(cx, cy);
    let nx = cx.len() as int;
    let ny = cy.len() as int;
    lemma_cells_within(xl, bounds.x);
    lemma_cells_within(yl, bounds.y);
    lemma_axis_exclusive(xl, bounds.x, u);
    lemma_axis_exclusive(yl, bounds.y, v);
    assert(nx * ny == cells.len());

    // What it means for each rectangle to cover the unit square.
    assert forall|k: int| 0 <= k < cells.len() implies (covers(#[trigger] cells[k], u, v) <==> in_span(
        cx[k / ny],
        u,
    ) && in_span(cy[k % ny], v)) by {
        lemma_cell_coordinates(nx, ny, k);
        assert(0 <= cx[k / ny].0 <= cx[k / ny].1);
        assert(0 <= cy[k % ny].0 <= cy[k % ny].1);
    }
    assert forall|l: int| 0 <= l < xl.len() implies (covers(#[trigger] lines[l], u, v) <==> in_span(
        xl[l],
        u,
    )) by {
        assert(0 <= xl[l].0 <= xl[l].1);
    }
    assert forall|l: int| xl.len() <= l < lines.len() implies (covers(#[trigger] lines[l], u, v)
        <==> in_span(yl[l - xl.len()], v)) by {
        assert(0 <= yl[l - xl.len()].0 <= yl[l - xl.len()].1);
    }

    // Something covers the unit square.
    let (x_is_line, i) = lemma_locate(xl, bounds.x, u, 0);
    let (y_is_line, j) = lemma_locate(yl, bounds.y, v, 0);
    if x_is_line {
        assert(covers(lines[i], u, v));
    } else if y_is_line {
        assert(covers(lines[xl.len() + j], u, v));
    } else {
        lemma_cell_index(nx, ny, i, j);
        assert(covers(cells[i * ny + j], u, v));
    }

    // No two cells cover it.
    assert forall|k: int, m: int|
        0 <= k < cells.len() && 0 <= m < cells.len() && covers(#[trigger] cells[k], u, v) && covers(
            #[trigger] cells[m],
            u,
            v,
        ) implies k == m by {
        lemma_cell_coordinates(nx, ny, k);
        lemma_cell_coordinates(nx, ny, m);
        assert(in_span(cx[k / ny], u) && in_span(cx[m / ny], u));
        assert(in_span(cy[k % ny], v) && in_span(cy[m % ny], v));
    }

    // No line covers what a cell covers.
    assert forall|k: int, l: int|
        0 <= k < cells.len() && 0 <= l < lines.len() implies !(covers(#[trigger] cells[k], u, v)
            && covers(#[trigger] lines[l], u, v)) by {
        lemma_cell_coordinates(nx, ny, k);
        if covers(cells[k], u, v) && covers(lines[l], u, v) {
            assert(in_span(cx[k / ny], u) && in_span(cy[k % ny], v));
            if l < xl.len() {
                assert(in_span(xl[l], u));
            } else {
                assert(in_span(yl[l - xl.len()], v));
            }
        }
    }

    // No two lines of one axis cover it.
    assert forall|l: int, m: int|
        0 <= l < lines.len() && 0 <= m < lines.len() && same_axis(xl.len() as int, l, m) && covers(
            #[trigger] lines[l],
            u,
            v,
        ) && covers(#[trigger] lines[m], u, v) implies l == m by {
        if l < xl.len() {
            assert(in_span(xl[l], u) && in_span(xl[m], u));
        } else {
            assert(in_span(yl[l - xl.len()], v) && in_span(yl[m - xl.len()], v));
        }
    }
}

/// Whether the rectangle with corners `r` lies in the plane from the origin
/// to `bounds`.
pub open spec fn inside_plane(r: (Vector2, Vector2), bounds: Vector2) -> bool {
    0 <= r.0.x <= r.1.x <= bounds.x && 0 <= r.0.y <= r.1.y <= bounds.y
}

/// The lines of a grid followed by its cells.
pub open spec fn grid_rectangles(
    x_offsets: Seq<i64>,
    y_offsets: Seq<i64>,
    breadths: Seq<i64>,
    bounds: Vector2,
) -> Seq<(Vector2, Vector2)> {
    let xl = x_lines(x_offsets, breadths, bounds);
    let yl = y_lines(x_offsets, y_offsets, breadths, bounds);
    line_rectangles(xl, yl, bounds) + cell_rectangles(
        axis_cells(xl, bounds.x),
        axis_cells(yl, bounds.y),
    )
}

/// The shape of a grid, whatever the bounds and the streams: it has the
/// lines of both axes, and one cell for each pair of cell spans. Each axis has
/// one cell span more than it has lines; its first cell span starts at zero and
/// its last ends at the bound, so that an axis without lines has the one cell
/// span from zero to the bound.
pub proof fn lemma_grid_shape(
    x_offsets: Seq<i64>,
    y_offsets: Seq<i64>,
    breadths: Seq<i64>,
    bounds: Vector2,
)
    ensures
        ({
            let xl = x_lines(x_offsets, breadths, bounds);
            let yl = y_lines(x_offsets, y_offsets, breadths, bounds);
            let cx = axis_cells(xl, bounds.x);
            let cy = axis_cells(yl, bounds.y);
            &&& xl.len() <= candidates(x_offsets, breadths)
            &&& yl.len() <= candidates(y_offsets, breadths.skip(candidates(x_offsets, breadths)))
            &&& line_rectangles(xl, yl, bounds).len() == xl.len() + yl.len()
            &&& cell_rectangles(cx, cy).len() == (xl.len() + 1) * (yl.len() + 1)
            &&& cx.len() == xl.len() + 1
            &&& cy.len() == yl.len() + 1
            &&& cx.first().0 == 0 && cx.last().1 == bounds.x
            &&& cy.first().0 == 0 && cy.last().1 == bounds.y
        }),
{
    let nx = candidates(x_offsets, breadths);
    let rest = breadths.skip(nx);
    lemma_lines_come_from_candidates_in_range(x_offsets, breadths, bounds.x, nx);
    lemma_lines_come_from_candidates_in_range(
        y_offsets,
        rest,
        bounds.y,
        candidates(y_offsets, rest),
    );
}

/// The line spans of both axes of a grid lie inside their axes.
proof fn lemma_grid_lines_within(
    x_offsets: Seq<i64>,
    y_offsets: Seq<i64>,
    breadths: Seq<i64>,
    bounds: Vector2,
)
    ensures
        within(x_lines(x_offsets, breadths, bounds), bounds.x),
        within(y_lines(x_offsets, y_offsets, breadths, bounds), bounds.y),
{
    let nx = candidates(x_offsets, breadths);
    let rest = breadths.skip(nx);
    lemma_lines_come_from_candidates_in_range(x_offsets, breadths, bounds.x, nx);
    lemma_lines_come_from_candidates_in_range(
        y_offsets,
        rest,
        bounds.y,
        candidates(y_offsets, rest),
    );
}

/// In a plane of positive size, whatever the streams, every line of the grid
/// lies inside the plane; where the lines of each axis are separated, so does
/// every cell.
pub proof fn lemma_grid_stays_inside_plane(
    x_offsets: Seq<i64>,
    y_offsets: Seq<i64>,
    breadths: Seq<i64>,
    bounds: Vector2,
)
    requires
        0 < bounds.x,
        0 < bounds.y,
    ensures
        ({
            let xl = x_lines(x_offsets, breadths, bounds);
            let yl = y_lines(x_offsets, y_offsets, breadths, bounds);
            let lines = line_rectangles(xl, yl, bounds);
            let cells = cell_rectangles(axis_cells(xl, bounds.x), axis_cells(yl, bounds.y));
            &&& forall|l: int| 0 <= l < lines.len() ==> inside_plane(#[trigger] lines[l], bounds)
            &&& separated(xl) && separated(yl) ==> forall|k: int|
                0 <= k < cells.len() ==> inside_plane(#[trigger] cells[k], bounds)
        }),
{
    let xl = x_lines(x_offsets, breadths, bounds);
    let yl = y_lines(x_offsets, y_offsets, breadths, bounds);
    let lines = line_rectangles(xl, yl, bounds);
    let cx = axis_cells(xl, bounds.x);
    let cy = axis_cells(yl, bounds.y);
    let cells = cell_rectangles(cx, cy);
    lemma_grid_lines_within(x_offsets, y_offsets, breadths, bounds);
    assert forall|l: int| 0 <= l < lines.len() implies inside_plane(#[trigger] lines[l], bounds) by {
        if l < xl.len() {
            assert(0 <= xl[l].0 <= xl[l].1 <= bounds.x);
        } else {
            assert(0 <= yl[l - xl.len()].0 <= yl[l - xl.len()].1 <= bounds.y);
        }
    }
    if separated(xl) && separated(yl) {
        lemma_cells_within(xl, bounds.x);
        lemma_cells_within(yl, bounds.y);
        assert(cx.len() * cy.len() == cells.len());
        assert forall|k: int| 0 <= k < cells.len() implies inside_plane(
            #[trigger] cells[k],
            bounds,
        ) by {
            lemma_cell_coordinates(cx.len() as int, cy.len() as int, k);
            assert(0 <= cx[k / (cy.len() as int)].0 <= cx[k / (cy.len() as int)].1 <= bounds.x);
            assert(0 <= cy[k % (cy.len() as int)].0 <= cy[k % (cy.len() as int)].1 <= bounds.y);
        }
    }
}

/// In a plane of positive size whose lines are separated along each axis,
/// the lines and cells of the grid tile the plane: every unit square is covered
/// by a line or a cell, by at most one cell, by no line where a cell covers it,
/// and by at most one line of each axis. Only a line of one axis and a line of
/// the other may share unit squares, where they cross.
pub proof fn lemma_grid_tiles_plane(
    x_offsets: Seq<i64>,
    y_offsets: Seq<i64>,
    breadths: Seq<i64>,
    bounds: Vector2,
    u: int,
    v: int,
)
    requires
        0 < bounds.x,
        0 < bounds.y,
        separated(x_lines(x_offsets, breadths, bounds)),
        separated(y_lines(x_offsets, y_offsets, breadths, bounds)),
        0 <= u < bounds.x,
        0 <= v < bounds.y,
    ensures
        tiled_at(
            x_lines(x_offsets, breadths, bounds),
            y_lines(x_offsets, y_offsets, breadths, bounds),
            bounds,
            u,
            v,
        ),
{
    lemma_grid_lines_within(x_offsets, y_offsets, breadths, bounds);
    lemma_spans_tile(
        x_lines(x_offsets, breadths, bounds),
        y_lines(x_offsets, y_offsets, breadths, bounds),
        bounds,
        u,
        v,
    );
}

/// In a plane of positive size, streams whose candidates keep their
/// distance along each axis give a grid that tiles the plane.
pub proof fn lemma_spaced_grid_tiles_plane(
    x_offsets: Seq<i64>,
    y_offsets: Seq<i64>,
    breadths: Seq<i64>,
    bounds: Vector2,
    u: int,
    v: int,
)
    requires
        0 < bounds.x,
        0 < bounds.y,
        spaced(x_offsets, breadths, candidates(x_offsets, breadths)),
        spaced(
            y_offsets,
            breadths.skip(candidates(x_offsets, breadths)),
            candidates(y_offsets, breadths.skip(candidates(x_offsets, breadths))),
        ),
        0 <= u < bounds.x,
        0 <= v < bounds.y,
    ensures
        tiled_at(
            x_lines(x_offsets, breadths, bounds),
            y_lines(x_offsets, y_offsets, breadths, bounds),
            bounds,
            u,
            v,
        ),
{
    let nx = candidates(x_offsets, breadths);
    let rest = breadths.skip(nx);
    lemma_spaced_lines_are_separated(x_offsets, breadths, bounds.x, nx);
    lemma_spaced_lines_are_separated(y_offsets, rest, bounds.y, candidates(y_offsets, rest));
    lemma_grid_tiles_plane(x_offsets, y_offsets, breadths, bounds, u, v);
}

/// In a plane of positive size whose lines are separated along each axis and
/// do not cross, exactly one rectangle among the lines and cells of the grid
/// covers each unit square: together they cover the plane and no two of them
/// overlap.
pub proof fn lemma_grid_tiles_plane_exactly(
    x_offsets: Seq<i64>,
    y_offsets: Seq<i64>,
    breadths: Seq<i64>,
    bounds: Vector2,
    u: int,
    v: int,
)
    requires
        0 < bounds.x,
        0 < bounds.y,
        separated(x_lines(x_offsets, breadths, bounds)),
        separated(y_lines(x_offsets, y_offsets, breadths, bounds)),
        crossing_free(
            x_lines(x_offsets, breadths, bounds),
            y_lines(x_offsets, y_offsets, breadths, bounds),
        ),
        0 <= u < bounds.x,
        0 <= v < bounds.y,
    ensures
        ({
            let all = grid_rectangles(x_offsets, y_offsets, breadths, bounds);
            &&& exists|k: int| 0 <= k < all.len() && covers(#[trigger] all[k], u, v)
            &&& forall|k: int, m: int|
                0 <= k < all.len() && 0 <= m < all.len() && covers(#[trigger] all[k], u, v)
                    && covers(#[trigger] all[m], u, v) ==> k == m
        }),
{
    let xl = x_lines(x_offsets, breadths, bounds);
    let yl = y_lines(x_offsets, y_offsets, breadths, bounds);
    let lines = line_rectangles(xl, yl, bounds);
    let cells = cell_rectangles(axis_cells(xl, bounds.x), axis_cells(yl, bounds.y));
    let all = grid_rectangles(x_offsets, y_offsets, breadths, bounds);
    lemma_grid_lines_within(x_offsets, y_offsets, breadths, bounds);
    lemma_spans_tile(xl, yl, bounds, u, v);
    assert(all == lines + cells);
    assert forall|k: int| 0 <= k < lines.len() implies #[trigger] all[k] == lines[k] by {}
    assert forall|k: int| lines.len() <= k < all.len() implies #[trigger] all[k] == cells[k
        - lines.len()] by {}

    if exists|l: int| 0 <= l < lines.len() && covers(#[trigger] lines[l], u, v) {
        let l = choose|l: int| 0 <= l < lines.len() && covers(#[trigger] lines[l], u, v);
        assert(covers(all[l], u, v));
    } else {
        let k = choose|k: int| 0 <= k < cells.len() && covers(#[trigger] cells[k], u, v);
        assert(all[lines.len() + k] == cells[k]);
        assert(covers(all[lines.len() + k], u, v));
    }

    assert forall|k: int, m: int|
        0 <= k < all.len() && 0 <= m < all.len() && covers(#[trigger] all[k], u, v) && covers(
            #[trigger] all[m],
            u,
            v,
        ) implies k == m by {
        if k < lines.len() && m < lines.len() {
            if !same_axis(xl.len() as int, k, m) {
                // Two lines that cross share no unit square: one has no breadth.
                let i = if k < xl.len() { k } else { m };
                let j = if k < xl.len() { m - xl.len() } else { k - xl.len() };
                assert(covers(lines[i], u, v) && covers(lines[xl.len() + j], u, v));
                assert(xl[i].0 == xl[i].1 || yl[j].0 == yl[j].1);
                assert(0 <= xl[i].0 <= xl[i].1);
                assert(0 <= yl[j].0 <= yl[j].1);
            }
        } else if k < lines.len() {
            assert(covers(cells[m - lines.len()], u, v) && covers(lines[k], u, v));
        } else if m < lines.len() {
            assert(covers(cells[k - lines.len()], u, v) && covers(lines[m], u, v));
        } else {
            assert(covers(cells[k - lines.len()], u, v) && covers(cells[m - lines.len()], u, v));
        }
    }
}

} // verus!
