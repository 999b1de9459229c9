use cityservice::city::geom::{Rectangle, Vector2};
use cityservice::city::grid::GridPartition;

fn corners(r: &Rectangle) -> ((i64, i64), (i64, i64)) {
    ((r.start().x, r.start().y), (r.end().x, r.end().y))
}

fn all(rs: &Vec<Rectangle>) -> Vec<((i64, i64), (i64, i64))> {
    rs.iter().map(corners).collect()
}

fn partition(x: Vec<i64>, y: Vec<i64>, b: Vec<i64>, w: i64, h: i64) -> GridPartition {
    match GridPartition::new(x, y, b, Vector2 { x: w, y: h }) {
        Ok(grid) => grid,
        Err(_) => panic!("a grid partition never fails"),
    }
}

/// How many of the rectangles cover the unit square at `(u, v)`.
fn covering(rs: &Vec<Rectangle>, u: i64, v: i64) -> usize {
    rs.iter()
        .filter(|r| r.start().x <= u && u < r.end().x && r.start().y <= v && v < r.end().y)
        .count()
}

#[test]
fn one_line_splits_the_plane_in_two() {
    let grid = partition(vec![50], vec![], vec![10], 100, 100);
    assert_eq!(all(&grid.lines), vec![((45, 0), (55, 100))]);
    assert_eq!(all(&grid.rectangles), vec![((0, 0), (45, 100)), ((55, 0), (100, 100))]);
}

#[test]
fn no_lines_leave_one_cell() {
    let grid = partition(vec![], vec![], vec![], 100, 60);
    assert!(grid.lines.is_empty());
    assert_eq!(all(&grid.rectangles), vec![((0, 0), (100, 60))]);

    // Pitch deltas without breadths give no candidates either.
    let grid = partition(vec![10, 10], vec![10], vec![], 100, 60);
    assert!(grid.lines.is_empty());
    assert_eq!(all(&grid.rectangles), vec![((0, 0), (100, 60))]);
}

#[test]
fn both_axes_share_the_breadth_stream() {
    // The x axis takes the first two breadths, the y axis the rest.
    let grid = partition(vec![20, 30], vec![40, 40], vec![4, 8, 10, 2], 100, 100);
    assert_eq!(
        all(&grid.lines),
        vec![
            ((18, 0), (22, 100)),
            ((46, 0), (54, 100)),
            ((0, 35), (100, 45)),
            ((0, 79), (100, 81)),
        ]
    );
    assert_eq!(
        all(&grid.rectangles),
        vec![
            ((0, 0), (18, 35)),
            ((0, 45), (18, 79)),
            ((0, 81), (18, 100)),
            ((22, 0), (46, 35)),
            ((22, 45), (46, 79)),
            ((22, 81), (46, 100)),
            ((54, 0), (100, 35)),
            ((54, 45), (100, 79)),
            ((54, 81), (100, 100)),
        ]
    );
}

#[test]
fn the_shorter_stream_decides() {
    // Three pitch deltas but one breadth: one candidate on the x axis, and
    // nothing is left for the y axis.
    let grid = partition(vec![20, 20, 20], vec![50], vec![4], 100, 100);
    assert_eq!(all(&grid.lines), vec![((18, 0), (22, 100))]);
    assert_eq!(grid.rectangles.len(), 2);
}

#[test]
fn candidates_out_of_range_are_dropped() {
    // Outset above the offset: the line would start below zero.
    let grid = partition(vec![4], vec![], vec![10], 100, 100);
    assert!(grid.lines.is_empty());
    // The near edge may sit on zero.
    let grid = partition(vec![5], vec![], vec![10], 100, 100);
    assert_eq!(all(&grid.lines), vec![((0, 0), (10, 100))]);
    // The far edge may not reach the bound.
    let grid = partition(vec![95], vec![], vec![10], 100, 100);
    assert!(grid.lines.is_empty());
    let grid = partition(vec![94], vec![], vec![10], 100, 100);
    assert_eq!(all(&grid.lines), vec![((89, 0), (99, 100))]);
    // Past the bound.
    let grid = partition(vec![150], vec![], vec![10], 100, 100);
    assert!(grid.lines.is_empty());
    // A negative breadth is no line.
    let grid = partition(vec![50], vec![], vec![-10], 100, 100);
    assert!(grid.lines.is_empty());

    // A dropped candidate still takes its breadth and advances the offset.
    let grid = partition(vec![2, 48, 100], vec![50], vec![10, 6, 8, 20], 100, 100);
    assert_eq!(all(&grid.lines), vec![((47, 0), (53, 100)), ((0, 40), (100, 60))]);
}

#[test]
fn every_line_lies_inside_the_plane() {
    let grid = partition(
        vec![3, 9, 27, 81, 243],
        vec![100, 1, 1, 200, 500],
        vec![7, 30, 2, 90, 11, 400, 3, 3, 8, 1],
        300,
        700,
    );
    assert!(!grid.lines.is_empty());
    for line in grid.lines.iter() {
        assert!(0 <= line.start().x && line.end().x <= 300);
        assert!(0 <= line.start().y && line.end().y <= 700);
    }
}

#[test]
fn lines_and_cells_tile_the_plane() {
    // Lines on the x axis only: every unit square lies in exactly one
    // rectangle.
    let grid = partition(vec![10, 13, 20, 30], vec![], vec![4, 6, 9, 10], 80, 7);
    assert_eq!(grid.lines.len(), 4);
    for u in 0..80 {
        for v in 0..7 {
            assert_eq!(covering(&grid.lines, u, v) + covering(&grid.rectangles, u, v), 1);
        }
    }
    for r in grid.lines.iter().chain(grid.rectangles.iter()) {
        assert!(0 <= r.start().x && r.end().x <= 80 && 0 <= r.start().y && r.end().y <= 7);
    }
}

#[test]
fn crossing_lines_overlap_only_each_other() {
    let grid = partition(vec![20, 30], vec![15, 15], vec![4, 8, 6, 2], 70, 40);
    assert_eq!(grid.lines.len(), 4);
    assert_eq!(grid.rectangles.len(), 9);
    for u in 0..70 {
        for v in 0..40 {
            let cells = covering(&grid.rectangles, u, v);
            let lines = covering(&grid.lines, u, v);
            assert!(cells <= 1);
            assert!(cells + lines >= 1);
            assert!(cells == 0 || lines == 0);
            assert!(lines <= 2);
        }
    }
    // Where a line of each axis cross, both cover the square.
    assert_eq!(covering(&grid.lines, 20, 15), 2);
}

#[test]
fn overlapping_lines_break_the_tiling() {
    // The second line starts before the first one ends.
    let grid = partition(vec![50, 1], vec![], vec![10, 10], 100, 1);
    assert_eq!(all(&grid.lines), vec![((45, 0), (55, 1)), ((46, 0), (56, 1))]);
    assert_eq!(covering(&grid.lines, 50, 0), 2);
}

#[test]
fn pitch_deltas_of_any_sign_are_summed_exactly() {
    // A pitch delta of zero repeats the candidate; a negative one steps back.
    let grid = partition(vec![50, 0, -20, 40], vec![], vec![0, 0, 4, 6], 100, 10);
    assert_eq!(
        all(&grid.lines),
        vec![
            ((50, 0), (50, 10)),
            ((50, 0), (50, 10)),
            ((28, 0), (32, 10)),
            ((67, 0), (73, 10)),
        ]
    );
    // Sums beyond the range of a coordinate are still sums.
    let grid = partition(
        vec![i64::MAX, i64::MAX, i64::MIN, i64::MIN, 60],
        vec![],
        vec![2, 2, 2, 2, 2],
        100,
        10,
    );
    assert_eq!(all(&grid.lines), vec![((57, 0), (59, 10))]);
}

#[test]
fn an_odd_breadth_is_halved_towards_zero() {
    let grid = partition(vec![50], vec![], vec![11], 100, 10);
    assert_eq!(all(&grid.lines), vec![((45, 0), (55, 10))]);
    let grid = partition(vec![50], vec![], vec![1], 100, 10);
    assert_eq!(all(&grid.lines), vec![((50, 0), (50, 10))]);
}

#[test]
fn a_plane_without_extent_has_no_lines() {
    let grid = partition(vec![0, 1], vec![0], vec![0, 0, 0], 0, 0);
    assert!(grid.lines.is_empty());
    assert_eq!(all(&grid.rectangles), vec![((0, 0), (0, 0))]);
    let grid = partition(vec![5], vec![5], vec![2, 2], -10, 20);
    assert_eq!(all(&grid.lines), vec![((-10, 4), (0, 6))]);
    assert_eq!(all(&grid.rectangles), vec![((-10, 0), (0, 4)), ((-10, 6), (0, 20))]);
}
