use cityservice::city::fixed::ONE;
use cityservice::city::geom::{Rectangle, Vector2};
use cityservice::city::stream::Stream;
use cityservice::city::Builder;

fn v(x: i64, y: i64) -> Vector2 {
    Vector2 { x, y }
}

fn corners(r: &Rectangle) -> ((i64, i64), (i64, i64)) {
    ((r.start().x, r.start().y), (r.end().x, r.end().y))
}

fn all(rs: &Vec<Rectangle>) -> Vec<((i64, i64), (i64, i64))> {
    rs.iter().map(corners).collect()
}

fn ring(
    size: Vector2,
    x: Vec<i64>,
    y: Vec<i64>,
    spacings: Vec<i64>,
    stepbacks: Vec<i64>,
) -> Vec<((i64, i64), (i64, i64))> {
    match Builder::build_buildings_around(size, x, y, spacings, stepbacks) {
        Ok(buildings) => all(&buildings),
        Err(_) => panic!("ringing a block never fails"),
    }
}

#[test]
fn stream_yields_in_order() {
    let mut s = Stream::new(vec![3, 1, 2]);
    assert_eq!(s.remaining(), 3);
    assert_eq!(s.peek(), Some(3));
    assert_eq!(s.next(), Some(3));
    assert_eq!(s.next(), Some(1));
    assert_eq!(s.remaining(), 1);
    assert_eq!(s.peek(), Some(2));
    assert_eq!(s.next(), Some(2));
    assert_eq!(s.next(), None);
    assert_eq!(s.peek(), None);
    assert_eq!(s.remaining(), 0);
}

#[test]
fn blockface_example() {
    let mut offsets = Stream::new(vec![30, 40]);
    let mut spacings = Stream::new(vec![10, 10]);
    let mut depths = Stream::new(vec![5, 5]);
    let buildings = Builder::line_blockface(
        100,
        v(0, 0),
        v(ONE, 0),
        v(0, ONE),
        &mut offsets,
        &mut spacings,
        &mut depths,
        20,
    );
    // Alleys at 30 and 70 leave the spans [0, 25], [35, 65] and [75, 100];
    // the two depth samples make buildings of the first two.
    assert_eq!(all(&buildings), vec![((0, 0), (25, 5)), ((35, 0), (65, 5))]);
    assert_eq!(offsets.remaining(), 0);
    assert_eq!(spacings.remaining(), 0);
    assert_eq!(depths.remaining(), 0);
}

#[test]
fn last_span_ends_at_the_end_of_the_edge() {
    let mut offsets = Stream::new(vec![30, 40]);
    let mut spacings = Stream::new(vec![10, 10]);
    let mut depths = Stream::new(vec![5, 5, 5, 5]);
    let buildings = Builder::line_blockface(
        100,
        v(0, 0),
        v(ONE, 0),
        v(0, ONE),
        &mut offsets,
        &mut spacings,
        &mut depths,
        20,
    );
    assert_eq!(
        all(&buildings),
        vec![((0, 0), (25, 5)), ((35, 0), (65, 5)), ((75, 0), (100, 5))]
    );
    assert_eq!(buildings[buildings.len() - 1].end().x, 100);
    // One depth sample is left for the next edge.
    assert_eq!(depths.remaining(), 1);

    for length in [0, 1, 7, 50, 1000] {
        let mut offsets = Stream::new(vec![3, 9, 27, 81]);
        let mut spacings = Stream::new(vec![2, 4, 6, 8]);
        let mut depths = Stream::new(vec![1; 10]);
        let buildings = Builder::line_blockface(
            length,
            v(0, 0),
            v(ONE, 0),
            v(0, ONE),
            &mut offsets,
            &mut spacings,
            &mut depths,
            20,
        );
        assert!(!buildings.is_empty());
        assert_eq!(buildings[0].start().x.min(0), buildings[0].start().x);
        assert_eq!(buildings[buildings.len() - 1].end().x, length.max(0));
    }
}

#[test]
fn an_edge_without_samples_is_one_building() {
    let mut offsets = Stream::new(vec![]);
    let mut spacings = Stream::new(vec![10]);
    let mut depths = Stream::new(vec![8]);
    let buildings = Builder::line_blockface(
        100,
        v(0, 0),
        v(ONE, 0),
        v(0, ONE),
        &mut offsets,
        &mut spacings,
        &mut depths,
        20,
    );
    assert_eq!(all(&buildings), vec![((0, 0), (100, 8))]);
    // Without a pitch delta no spacing is taken.
    assert_eq!(spacings.remaining(), 1);

    // Without depth samples there are no buildings at all.
    let mut offsets = Stream::new(vec![30]);
    let mut spacings = Stream::new(vec![10]);
    let mut depths = Stream::new(vec![]);
    let buildings = Builder::line_blockface(
        100,
        v(0, 0),
        v(ONE, 0),
        v(0, ONE),
        &mut offsets,
        &mut spacings,
        &mut depths,
        20,
    );
    assert!(buildings.is_empty());
}

#[test]
fn the_walk_stops_where_no_alley_fits() {
    // The second step reaches 96, within half a spacing of the end: no alley,
    // and the third pair is left for the next edge.
    let mut offsets = Stream::new(vec![30, 66, 1]);
    let mut spacings = Stream::new(vec![10, 10, 10]);
    let mut depths = Stream::new(vec![5, 5, 5]);
    let buildings = Builder::line_blockface(
        100,
        v(0, 0),
        v(ONE, 0),
        v(0, ONE),
        &mut offsets,
        &mut spacings,
        &mut depths,
        20,
    );
    assert_eq!(all(&buildings), vec![((0, 0), (25, 5)), ((35, 0), (100, 5))]);
    assert_eq!(offsets.remaining(), 1);
    assert_eq!(spacings.remaining(), 1);
    assert_eq!(depths.remaining(), 1);

    // Exactly half a spacing short of the end is no room either.
    let mut offsets = Stream::new(vec![95]);
    let mut spacings = Stream::new(vec![10]);
    let mut depths = Stream::new(vec![5, 5]);
    let buildings = Builder::line_blockface(
        100,
        v(0, 0),
        v(ONE, 0),
        v(0, ONE),
        &mut offsets,
        &mut spacings,
        &mut depths,
        20,
    );
    assert_eq!(all(&buildings), vec![((0, 0), (100, 5))]);
    let mut offsets = Stream::new(vec![94]);
    let mut spacings = Stream::new(vec![10]);
    let mut depths = Stream::new(vec![5, 5]);
    let buildings = Builder::line_blockface(
        100,
        v(0, 0),
        v(ONE, 0),
        v(0, ONE),
        &mut offsets,
        &mut spacings,
        &mut depths,
        20,
    );
    assert_eq!(all(&buildings), vec![((0, 0), (89, 5)), ((99, 0), (100, 5))]);
}

#[test]
fn depth_is_capped_by_the_limit() {
    let mut offsets = Stream::new(vec![50]);
    let mut spacings = Stream::new(vec![10]);
    let mut depths = Stream::new(vec![5, 500]);
    let buildings = Builder::line_blockface(
        100,
        v(10, 20),
        v(ONE, 0),
        v(0, ONE),
        &mut offsets,
        &mut spacings,
        &mut depths,
        30,
    );
    assert_eq!(all(&buildings), vec![((10, 20), (55, 25)), ((65, 20), (110, 50))]);
}

#[test]
fn buildings_ring_all_four_edges() {
    // Edges 0 and 2 take pitch deltas from the x stream, edges 1 and 3 from the
    // y stream; all four share spacings and stepbacks.
    let buildings = ring(
        v(100, 60),
        vec![50, 100, 40, 100],
        vec![30, 100, 20, 100],
        vec![10, 10, 4, 4, 6, 6, 2, 2],
        vec![5, 6, 7, 8, 9, 10, 11, 12],
    );
    assert_eq!(
        buildings,
        vec![
            // top edge, left to right, extruded downwards
            ((0, 0), (45, 5)),
            ((55, 0), (100, 6)),
            // right edge, top to bottom, extruded to the left
            ((93, 0), (100, 28)),
            ((92, 32), (100, 60)),
            // bottom edge, right to left, extruded upwards
            ((63, 51), (100, 60)),
            ((0, 50), (57, 60)),
            // left edge, bottom to top, extruded to the right
            ((0, 41), (11, 60)),
            ((0, 0), (12, 39)),
        ]
    );
}

#[test]
fn a_ring_never_crosses_the_block() {
    let buildings = ring(
        v(40, 30),
        vec![20, 100, 20, 100],
        vec![15, 100, 15, 100],
        vec![2; 8],
        vec![1000; 8],
    );
    assert_eq!(buildings.len(), 8);
    for ((x0, y0), (x1, y1)) in buildings {
        assert!(0 <= x0 && x1 <= 40);
        assert!(0 <= y0 && y1 <= 30);
    }
}

#[test]
fn a_ring_without_samples_is_empty() {
    assert!(ring(v(100, 60), vec![], vec![], vec![], vec![]).is_empty());
    // Four depth samples and nothing else: one building along each edge.
    let buildings = ring(v(100, 60), vec![], vec![], vec![], vec![5, 5, 5, 5]);
    assert_eq!(
        buildings,
        vec![
            ((0, 0), (100, 5)),
            ((95, 0), (100, 60)),
            ((0, 55), (100, 60)),
            ((0, 0), (5, 60)),
        ]
    );
}

#[test]
fn samples_of_any_sign_are_taken_as_they_are() {
    // A negative spacing turns an alley inside out; nothing fails.
    let mut offsets = Stream::new(vec![30, -10, i64::MAX, i64::MAX]);
    let mut spacings = Stream::new(vec![-10, 4, 2, 2]);
    let mut depths = Stream::new(vec![-5, i64::MIN, 7, 7]);
    let buildings = Builder::line_blockface(
        100,
        v(0, 0),
        v(ONE, 0),
        v(0, ONE),
        &mut offsets,
        &mut spacings,
        &mut depths,
        20,
    );
    assert_eq!(
        all(&buildings),
        vec![((0, -5), (35, 0)), ((18, i64::MIN), (25, 0)), ((22, 0), (100, 7))]
    );
    assert_eq!(offsets.remaining(), 1);
    assert_eq!(depths.remaining(), 1);
}
