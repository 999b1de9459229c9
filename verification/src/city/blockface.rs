//! Placement of buildings along the edges of a block.
//!
//! An edge is walked from its starting corner. Each step takes a pitch delta
//! and a spacing and advances the offset by the pitch delta; while the offset
//! stays short of the end of the edge by more than half the spacing, an alley of
//! that spacing is centred on the offset. The spans between alleys become
//! buildings, each extruded inwards by a depth sample that the depth limit caps.
//! The four edges of a block take from the same streams in turn.

use vstd::prelude::*;
use crate::city::fixed::{clamp, half, halve, lemma_unit_products, saturate, ONE};
use crate::city::geom::rectangle::{lesser, span, Rectangle};
use crate::city::geom::vector::Vector2;
use crate::city::grid::{corners, lemma_offset_bounded, offset_after};
use crate::city::stream::Stream;
use crate::city::{Builder, GenerateError};

verus! {

/// How many alleys fit along an edge of `length`, counting on from `k` alleys
/// already placed: the walk ends at the first step that lacks a pitch delta or
/// a spacing, or that brings the offset within half its spacing of the end of
/// the edge.
pub open spec fn alley_count(length: i64, deltas: Seq<i64>, spacings: Seq<i64>, k: int) -> int
    decreases deltas.len() - k,
{
    if 0 <= k < deltas.len() && k < spacings.len() && offset_after(deltas, k + 1) < length - half(
        spacings[k] as int,
    ) {
        alley_count(length, deltas, spacings, k + 1)
    } else {
        k
    }
}

/// How many pitch deltas and spacings the walk along an edge takes: one pair
/// for each alley, and the pair at which the walk found no room.
pub open spec fn pairs_taken(length: i64, deltas: Seq<i64>, spacings: Seq<i64>) -> int {
    let m = alley_count(length, deltas, spacings, 0);
    if m < deltas.len() && m < spacings.len() {
        m + 1
    } else {
        m
    }
}

/// The building spans along an edge: from its start to the first alley,
/// between neighbouring alleys, and from the last alley to the end of the edge.
pub open spec fn edge_spans(length: i64, deltas: Seq<i64>, spacings: Seq<i64>) -> Seq<(i64, i64)> {
    let m = alley_count(length, deltas, spacings, 0);
    Seq::new(
        (m + 1) as nat,
        |i: int|
            (
                if i == 0 {
                    0i64
                } else {
                    clamp(offset_after(deltas, i) + half(spacings[i - 1] as int))
                },
                if i == m {
                    length
                } else {
                    clamp(offset_after(deltas, i + 1) - half(spacings[i] as int))
                },
            ),
    )
}

/// The corners of the building on the span `s` of an edge that starts at
/// `start` and runs along `clockwise`, extruded along `inwards` by `depth` or
/// by `depth_limit`, whichever is less.
pub open spec fn building_corners(
    start: Vector2,
    clockwise: Vector2,
    inwards: Vector2,
    s: (i64, i64),
    depth: i64,
    depth_limit: i64,
) -> (Vector2, Vector2) {
    span(
        start.plus(clockwise.scaled(s.0)),
        start.plus(clockwise.scaled(s.1)).plus(inwards.scaled(lesser(depth, depth_limit))),
    )
}

/// How many buildings an edge gets: one for each span that has a depth
/// sample.
pub open spec fn building_count(
    length: i64,
    deltas: Seq<i64>,
    spacings: Seq<i64>,
    depths: Seq<i64>,
) -> int {
    let spans = edge_spans(length, deltas, spacings);
    if spans.len() <= depths.len() {
        spans.len() as int
    } else {
        depths.len() as int
    }
}

/// The corners of the buildings along one edge, in the order of the walk.
pub open spec fn edge_buildings(
    length: i64,
    start: Vector2,
    clockwise: Vector2,
    inwards: Vector2,
    deltas: Seq<i64>,
    spacings: Seq<i64>,
    depths: Seq<i64>,
    depth_limit: i64,
) -> Seq<(Vector2, Vector2)> {
    let spans = edge_spans(length, deltas, spacings);
    Seq::new(
        building_count(length, deltas, spacings, depths) as nat,
        |i: int| building_corners(start, clockwise, inwards, spans[i], depths[i], depth_limit),
    )
}

/// The alley count lies between the alleys already placed and the shorter of
/// the two streams.
pub proof fn lemma_alley_count_bounds(length: i64, deltas: Seq<i64>, spacings: Seq<i64>, k: int)
    requires
        0 <= k <= deltas.len(),
        k <= spacings.len(),
    ensures
        k <= alley_count(length, deltas, spacings, k) <= deltas.len(),
        alley_count(length, deltas, spacings, k) <= spacings.len(),
    decreases deltas.len() - k,
{
    if 0 <= k < deltas.len() && k < spacings.len() && offset_after(deltas, k + 1) < length - half(
        spacings[k] as int,
    ) {
        lemma_alley_count_bounds(length, deltas, spacings, k + 1);
    }
}

/// Every edge has at least one building span, and its last span ends exactly
/// at the end of the edge.
pub proof fn lemma_last_span_ends_at_length(length: i64, deltas: Seq<i64>, spacings: Seq<i64>)
    ensures
        edge_spans(length, deltas, spacings).len() >= 1,
        edge_spans(length, deltas, spacings).last().1 == length,
        edge_spans(length, deltas, spacings).first().0 == 0,
{
    lemma_alley_count_bounds(length, deltas, spacings, 0);
}

/// The unit vector along edge `i` of a block, clockwise from the edge that
/// leaves the origin along the x axis.
pub open spec fn edge_direction(i: int) -> Vector2 {
    if i == 0 {
        Vector2 { x: ONE, y: 0 }
    } else if i == 1 {
        Vector2 { x: 0, y: ONE }
    } else if i == 2 {
        Vector2 { x: (-ONE) as i64, y: 0 }
    } else {
        Vector2 { x: 0, y: (-ONE) as i64 }
    }
}

/// The corner of a block of the given `size` at which edge `i` starts.
pub open spec fn edge_corner(size: Vector2, i: int) -> Vector2 {
    if i == 0 {
        Vector2 { x: 0, y: 0 }
    } else if i == 1 {
        Vector2 { x: size.x, y: 0 }
    } else if i == 2 {
        Vector2 { x: size.x, y: size.y }
    } else {
        Vector2 { x: 0, y: size.y }
    }
}

/// What the streams hold when the walk reaches edge `i`: the pitch deltas of
/// the x and the y axis, the spacings and the depths, each less what the edges
/// before `i` took. Edges 0 and 2 take their pitch deltas from the x stream,
/// edges 1 and 3 from the y stream.
pub open spec fn streams_at(
    size: Vector2,
    x_offsets: Seq<i64>,
    y_offsets: Seq<i64>,
    spacings: Seq<i64>,
    depths: Seq<i64>,
    i: int,
) -> (Seq<i64>, Seq<i64>, Seq<i64>, Seq<i64>)
    decreases i,
{
    if i <= 0 {
        (x_offsets, y_offsets, spacings, depths)
    } else {
        let (x, y, s, d) = streams_at(size, x_offsets, y_offsets, spacings, depths, i - 1);
        if (i - 1) % 2 == 0 {
            let taken = pairs_taken(size.x, x, s);
            (x.skip(taken), y, s.skip(taken), d.skip(building_count(size.x, x, s, d)))
        } else {
            let taken = pairs_taken(size.y, y, s);
            (x, y.skip(taken), s.skip(taken), d.skip(building_count(size.y, y, s, d)))
        }
    }
}

/// The corners of the buildings along edge `i` of a block.
pub open spec fn ring_edge(
    size: Vector2,
    x_offsets: Seq<i64>,
    y_offsets: Seq<i64>,
    spacings: Seq<i64>,
    depths: Seq<i64>,
    i: int,
) -> Seq<(Vector2, Vector2)> {
    let (x, y, s, d) = streams_at(size, x_offsets, y_offsets, spacings, depths, i);
    if i % 2 == 0 {
        edge_buildings(
            size.x,
            edge_corner(size, i),
            edge_direction(i),
            edge_direction((i + 1) % 4),
            x,
            s,
            d,
            size.y,
        )
    } else {
        edge_buildings(
            size.y,
            edge_corner(size, i),
            edge_direction(i),
            edge_direction((i + 1) % 4),
            y,
            s,
            d,
            size.x,
        )
    }
}

/// The corners of the buildings that ring a block, edge after edge.
pub open spec fn ring_buildings(
    size: Vector2,
    x_offsets: Seq<i64>,
    y_offsets: Seq<i64>,
    spacings: Seq<i64>,
    depths: Seq<i64>,
) -> Seq<(Vector2, Vector2)> {
    ring_edge(size, x_offsets, y_offsets, spacings, depths, 0) + ring_edge(
        size,
        x_offsets,
        y_offsets,
        spacings,
        depths,
        1,
    ) + ring_edge(size, x_offsets, y_offsets, spacings, depths, 2) + ring_edge(
        size,
        x_offsets,
        y_offsets,
        spacings,
        depths,
        3,
    )
}

/// Where the buildings of each edge of a block stand. Along the first edge a
/// building spans its span from the top of the block down to its depth; along
/// the second it reaches from the right side inwards, along the third from the
/// bottom upwards, along the fourth from the left side inwards. Its depth is
/// its depth sample or the depth limit, whichever is less.
pub proof fn lemma_ring_corners(size: Vector2, s: (i64, i64), depth: i64, depth_limit: i64)
    ensures
        building_corners(
            edge_corner(size, 0),
            edge_direction(0),
            edge_direction(1),
            s,
            depth,
            depth_limit,
        ) == span(
            Vector2 { x: s.0, y: 0 },
            Vector2 { x: s.1, y: lesser(depth, depth_limit) },
        ),
        building_corners(
            edge_corner(size, 1),
            edge_direction(1),
            edge_direction(2),
            s,
            depth,
            depth_limit,
        ) == span(
            Vector2 { x: size.x, y: s.0 },
            Vector2 { x: clamp(size.x + clamp(-lesser(depth, depth_limit))), y: s.1 },
        ),
        building_corners(
            edge_corner(size, 2),
            edge_direction(2),
            edge_direction(3),
            s,
            depth,
            depth_limit,
        ) == span(
            Vector2 { x: clamp(size.x + clamp(-s.0)), y: size.y },
            Vector2 {
                x: clamp(size.x + clamp(-s.1)),
                y: clamp(size.y + clamp(-lesser(depth, depth_limit))),
            },
        ),
        building_corners(
            edge_corner(size, 3),
            edge_direction(3),
            edge_direction(0),
            s,
            depth,
            depth_limit,
        ) == span(
            Vector2 { x: 0, y: clamp(size.y + clamp(-s.0)) },
            Vector2 { x: lesser(depth, depth_limit), y: clamp(size.y + clamp(-s.1)) },
        ),
{
    lemma_unit_products(s.0);
    lemma_unit_products(s.1);
    lemma_unit_products(lesser(depth, depth_limit));
}

/// How far the corners `c` of a building on edge `i` reach across the
/// block: down or up from an edge along the x axis, left or right from an edge
/// along the y axis.
pub open spec fn reach_across(c: (Vector2, Vector2), i: int) -> int {
    if i % 2 == 0 {
        c.1.y - c.0.y
    } else {
        c.1.x - c.0.x
    }
}

/// The depth cap on the edge that leaves the origin along the x axis and on
/// the edge that returns to it along the y axis.
proof fn lemma_depth_is_capped_from_origin(
    size: Vector2,
    s: (i64, i64),
    depth: i64,
    depth_limit: i64,
)
    requires
        0 <= depth,
        0 <= depth_limit,
    ensures
        reach_across(
            building_corners(
                edge_corner(size, 0),
                edge_direction(0),
                edge_direction(1),
                s,
                depth,
                depth_limit,
            ),
            0,
        ) == lesser(depth, depth_limit),
        reach_across(
            building_corners(
                edge_corner(size, 3),
                edge_direction(3),
                edge_direction(0),
                s,
                depth,
                depth_limit,
            ),
            3,
        ) == lesser(depth, depth_limit),
{
    lemma_ring_corners(size, s, depth, depth_limit);
}

/// The depth cap on the two edges that start away from the origin.
proof fn lemma_depth_is_capped_from_afar(
    size: Vector2,
    s: (i64, i64),
    depth: i64,
    depth_limit: i64,
)
    requires
        0 <= depth,
        0 <= depth_limit,
    ensures
        0 <= reach_across(
            building_corners(
                edge_corner(size, 1),
                edge_direction(1),
                edge_direction(2),
                s,
                depth,
                depth_limit,
            ),
            1,
        ) <= lesser(depth, depth_limit),
        0 <= reach_across(
            building_corners(
                edge_corner(size, 2),
                edge_direction(2),
                edge_direction(3),
                s,
                depth,
                depth_limit,
            ),
            2,
        ) <= lesser(depth, depth_limit),
{
    lemma_ring_corners(size, s, depth, depth_limit);
}

/// The depth of a building is capped: whatever the block, the span and the
/// streams, a building with a depth that is not negative reaches across the
/// block no further than its depth and no further than the depth limit.
pub proof fn lemma_depth_is_capped(
    size: Vector2,
    i: int,
    s: (i64, i64),
    depth: i64,
    depth_limit: i64,
)
    requires
        0 <= i < 4,
        0 <= depth,
        0 <= depth_limit,
    ensures
        0 <= reach_across(
            building_corners(
                edge_corner(size, i),
                edge_direction(i),
                edge_direction((i + 1) % 4),
                s,
                depth,
                depth_limit,
            ),
            i,
        ) <= lesser(depth, depth_limit),
        lesser(depth, depth_limit) <= depth,
        lesser(depth, depth_limit) <= depth_limit,
{
    if i == 0 || i == 3 {
        lemma_depth_is_capped_from_origin(size, s, depth, depth_limit);
    } else {
        lemma_depth_is_capped_from_afar(size, s, depth, depth_limit);
    }
}

/// Whether the corners `c` lie inside a block of the given `size`.
pub open spec fn inside_block(c: (Vector2, Vector2), size: Vector2) -> bool {
    &&& 0 <= c.0.x <= c.1.x <= size.x
    &&& 0 <= c.0.y <= c.1.y <= size.y
}

proof fn lemma_inside_edge_0(size: Vector2, s: (i64, i64), depth: i64)
    requires
        0 <= size.x,
        0 <= size.y,
        0 <= depth,
        0 <= s.0 <= size.x,
        0 <= s.1 <= size.x,
    ensures
        inside_block(
            building_corners(
                edge_corner(size, 0),
                edge_direction(0),
                edge_direction(1),
                s,
                depth,
                size.y,
            ),
            size,
        ),
{
    lemma_ring_corners(size, s, depth, size.y);
}

proof fn lemma_inside_edge_1(size: Vector2, s: (i64, i64), depth: i64)
    requires
        0 <= size.x,
        0 <= size.y,
        0 <= depth,
        0 <= s.0 <= size.y,
        0 <= s.1 <= size.y,
    ensures
        inside_block(
            building_corners(
                edge_corner(size, 1),
                edge_direction(1),
                edge_direction(2),
                s,
                depth,
                size.x,
            ),
            size,
        ),
{
    lemma_ring_corners(size, s, depth, size.x);
}

proof fn lemma_inside_edge_2(size: Vector2, s: (i64, i64), depth: i64)
    requires
        0 <= size.x,
        0 <= size.y,
        0 <= depth,
        0 <= s.0 <= size.x,
        0 <= s.1 <= size.x,
    ensures
        inside_block(
            building_corners(
                edge_corner(size, 2),
                edge_direction(2),
                edge_direction(3),
                s,
                depth,
                size.y,
            ),
            size,
        ),
{
    lemma_ring_corners(size, s, depth, size.y);
}

proof fn lemma_inside_edge_3(size: Vector2, s: (i64, i64), depth: i64)
    requires
        0 <= size.x,
        0 <= size.y,
        0 <= depth,
        0 <= s.0 <= size.y,
        0 <= s.1 <= size.y,
    ensures
        inside_block(
            building_corners(
                edge_corner(size, 3),
                edge_direction(3),
                edge_direction(0),
                s,
                depth,
                size.x,
            ),
            size,
        ),
{
    lemma_ring_corners(size, s, depth, size.x);
}

/// A building never crosses the block: on a span that lies along its edge,
/// and with a depth that is not negative, the building of any edge stays
/// inside the block, because its depth is capped by what the block is across.
pub proof fn lemma_building_stays_inside_block(
    size: Vector2,
    i: int,
    s: (i64, i64),
    depth: i64,
)
    requires
        0 <= i < 4,
        0 <= size.x,
        0 <= size.y,
        0 <= depth,
        0 <= s.0 <= (if i % 2 == 0 { size.x } else { size.y }),
        0 <= s.1 <= (if i % 2 == 0 { size.x } else { size.y }),
    ensures
        inside_block(
            building_corners(
                edge_corner(size, i),
                edge_direction(i),
                edge_direction((i + 1) % 4),
                s,
                depth,
                if i % 2 == 0 { size.y } else { size.x },
            ),
            size,
        ),
{
    if i == 0 {
        lemma_inside_edge_0(size, s, depth);
    } else if i == 1 {
        lemma_inside_edge_1(size, s, depth);
    } else if i == 2 {
        lemma_inside_edge_2(size, s, depth);
    } else {
        lemma_inside_edge_3(size, s, depth);
    }
}

impl Builder {
    /// Rings a block of the given `size` with buildings.
    ///
    /// The four edges are walked clockwise from the origin. All of them take
    /// spacings and stepbacks from the same streams, one after the other; the
    /// edges along the x axis share `x_offsets` and those along the y axis share
    /// `y_offsets`. A building is never deeper than the block is across.
    pub fn build_buildings_around(
        size: Vector2,
        x_offsets: Vec<i64>,
        y_offsets: Vec<i64>,
        spacings: Vec<i64>,
        stepbacks: Vec<i64>,
    ) -> (res: Result<Vec<Rectangle>, GenerateError>)
        ensures
            res matches Ok(buildings) && corners(buildings@) == ring_buildings(
                size,
                x_offsets@,
                y_offsets@,
                spacings@,
                stepbacks@,
            ),
    {
        let ghost x0 = x_offsets@;
        let ghost y0 = y_offsets@;
        let ghost s0 = spacings@;
        let ghost d0 = stepbacks@;
        proof {
            reveal_with_fuel(streams_at, 5);
        }
        let mut x_stream = Stream::new(x_offsets);
        let mut y_stream = Stream::new(y_offsets);
        let mut spacing_stream = Stream::new(spacings);
        let mut stepback_stream = Stream::new(stepbacks);

        // Clockwise edges
        let east = Vector2 { x: ONE, y: 0 };
        let south = Vector2 { x: 0, y: ONE };
        let west = Vector2 { x: -ONE, y: 0 };
        let north = Vector2 { x: 0, y: -ONE };

        let mut buildings = Self::line_blockface(
            size.x,
            Vector2 { x: 0, y: 0 },
            east,
            south,
            &mut x_stream,
            &mut spacing_stream,
            &mut stepback_stream,
            size.y,
        );
        assert(streams_at(size, x0, y0, s0, d0, 1) == (
            x_stream@,
            y_stream@,
            spacing_stream@,
            stepback_stream@,
        ));
        let mut second = Self::line_blockface(
            size.y,
            Vector2 { x: size.x, y: 0 },
            south,
            west,
            &mut y_stream,
            &mut spacing_stream,
            &mut stepback_stream,
            size.x,
        );
        assert(streams_at(size, x0, y0, s0, d0, 2) == (
            x_stream@,
            y_stream@,
            spacing_stream@,
            stepback_stream@,
        ));
        let mut third = Self::line_blockface(
            size.x,
            Vector2 { x: size.x, y: size.y },
            west,
            north,
            &mut x_stream,
            &mut spacing_stream,
            &mut stepback_stream,
            size.y,
        );
        assert(streams_at(size, x0, y0, s0, d0, 3) == (
            x_stream@,
            y_stream@,
            spacing_stream@,
            stepback_stream@,
        ));
        let mut fourth = Self::line_blockface(
            size.y,
            Vector2 { x: 0, y: size.y },
            north,
            east,
            &mut y_stream,
            &mut spacing_stream,
            &mut stepback_stream,
            size.x,
        );
        let ghost e0 = corners(buildings@);
        let ghost e1 = corners(second@);
        let ghost e2 = corners(third@);
        let ghost e3 = corners(fourth@);
        assert(e0 == ring_edge(size, x0, y0, s0, d0, 0));
        assert(e1 == ring_edge(size, x0, y0, s0, d0, 1));
        assert(e2 == ring_edge(size, x0, y0, s0, d0, 2));
        assert(e3 == ring_edge(size, x0, y0, s0, d0, 3));
        buildings.append(&mut second);
        buildings.append(&mut third);
        buildings.append(&mut fourth);
        assert(corners(buildings@) =~= e0 + e1 + e2 + e3);
        Ok(buildings)
    }

    /// Lines one edge of a block with buildings.
    ///
    /// The edge has the given `length`, starts at `start` and runs along
    /// `clockwise`; `inwards` points into the block. Pitch deltas, spacings and
    /// depths are taken from the streams, which keep what this edge leaves.
    pub fn line_blockface(
        length: i64,
        start: Vector2,
        clockwise: Vector2,
        inwards: Vector2,
        offsets: &mut Stream,
        spacings: &mut Stream,
        depths: &mut Stream,
        depth_limit: i64,
    ) -> (buildings: Vec<Rectangle>)
        ensures
            corners(buildings@) == edge_buildings(
                length,
                start,
                clockwise,
                inwards,
                old(offsets)@,
                old(spacings)@,
                old(depths)@,
                depth_limit,
            ),
            final(offsets)@ == old(offsets)@.skip(pairs_taken(length, old(offsets)@, old(spacings)@)),
            final(spacings)@ == old(spacings)@.skip(
                pairs_taken(length, old(offsets)@, old(spacings)@),
            ),
            final(depths)@ == old(depths)@.skip(
                building_count(length, old(offsets)@, old(spacings)@, old(depths)@),
            ),
    {
        let ghost d0 = offsets@;
        let ghost s0 = spacings@;
        let ghost z0 = depths@;
        let ghost m = alley_count(length, d0, s0, 0);
        let ghost model = edge_spans(length, d0, s0);
        proof {
            lemma_alley_count_bounds(length, d0, s0, 0);
        }

        let mut offset: i128 = 0;
        let mut starts: Vec<i64> = Vec::new();
        starts.push(0);
        let mut ends: Vec<i64> = Vec::new();
        let mut going = true;
        assert(d0.skip(0) == d0);
        assert(s0.skip(0) == s0);
        while going
            invariant
                m == alley_count(length, d0, s0, 0),
                model == edge_spans(length, d0, s0),
                0 <= ends.len() <= m,
                m <= d0.len(),
                m <= s0.len(),
                starts.len() == ends.len() + 1,
                going ==> alley_count(length, d0, s0, ends.len() as int) == m,
                going ==> offsets@ == d0.skip(ends.len() as int),
                going ==> spacings@ == s0.skip(ends.len() as int),
                going ==> offset == offset_after(d0, ends.len() as int),
                !going ==> ends.len() == m,
                !going ==> offsets@ == d0.skip(pairs_taken(length, d0, s0)),
                !going ==> spacings@ == s0.skip(pairs_taken(length, d0, s0)),
                forall|i: int| 0 <= i < starts.len() ==> starts@[i] == model[i].0,
                forall|i: int| 0 <= i < ends.len() ==> ends@[i] == model[i].1,
            decreases offsets@.len() + (if going { 1int } else { 0int }),
        {
            let ghost k = ends.len() as int;
            if offsets.remaining() == 0 || spacings.remaining() == 0 {
                going = false;
            } else {
                proof {
                    lemma_offset_bounded(d0, k);
                    lemma_offset_bounded(d0, k + 1);
                }
                let delta = offsets.next().unwrap();
                let spacing = spacings.next().unwrap();
                assert(delta == d0[k]);
                assert(spacing == s0[k]);
                assert(d0.skip(k).skip(1) == d0.skip(k + 1));
                assert(s0.skip(k).skip(1) == s0.skip(k + 1));
                let half_breadth = halve(spacing) as i128;
                let reached = offset + delta as i128;
                if reached >= length as i128 - half_breadth {
                    going = false;
                } else {
                    proof {
                        lemma_alley_count_bounds(length, d0, s0, k + 1);
                    }
                    ends.push(saturate(reached - half_breadth));
                    starts.push(saturate(reached + half_breadth));
                    offset = reached;
                }
            }
        }
        ends.push(length);

        let mut buildings: Vec<Rectangle> = Vec::new();
        let ghost expected = edge_buildings(
            length,
            start,
            clockwise,
            inwards,
            d0,
            s0,
            z0,
            depth_limit,
        );
        let mut i: usize = 0;
        assert(z0.skip(0) == z0);
        while i < starts.len() && depths.remaining() > 0
            invariant
                model == edge_spans(length, d0, s0),
                expected == edge_buildings(length, start, clockwise, inwards, d0, s0, z0, depth_limit),
                starts.len() == ends.len(),
                starts.len() == model.len(),
                i <= starts.len(),
                i <= z0.len(),
                depths@ == z0.skip(i as int),
                buildings.len() == i,
                forall|j: int| 0 <= j < starts.len() ==> starts@[j] == model[j].0,
                forall|j: int| 0 <= j < ends.len() ==> ends@[j] == model[j].1,
                forall|j: int| 0 <= j < i ==> (#[trigger] buildings@[j])@ == expected[j],
            decreases starts.len() - i,
        {
            let depth = depths.next().unwrap();
            assert(depth == z0[i as int]);
            assert(z0.skip(i as int).skip(1) == z0.skip(i + 1));
            let reach = if depth <= depth_limit {
                depth
            } else {
                depth_limit
            };
            let building = Rectangle::new(
                start + clockwise * starts[i],
                start + clockwise * ends[i] + inwards * reach,
            );
            buildings.push(building);
            i = i + 1;
        }
        assert(corners(buildings@) =~= expected);
        buildings
    }
}

} // verus!
