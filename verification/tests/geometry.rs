use cityservice::city::fixed::{
    fixed_div, fixed_mul, from_whole, halve, recip, sat_add, sat_sub, saturate, to_whole,
    whole_root, ONE,
};
use cityservice::city::geom::{Circle, Rectangle, Vector2, Vector2i};

fn v(x: i64, y: i64) -> Vector2 {
    Vector2 { x, y }
}

fn corners(r: &Rectangle) -> ((i64, i64), (i64, i64)) {
    ((r.start().x, r.start().y), (r.end().x, r.end().y))
}

#[test]
fn rectangle_orders_its_corners() {
    let cases = [
        (v(1, 2), v(3, 4)),
        (v(3, 4), v(1, 2)),
        (v(3, 2), v(1, 4)),
        (v(1, 4), v(3, 2)),
        (v(-5, 7), v(-5, -7)),
        (v(i64::MAX, i64::MIN), v(i64::MIN, i64::MAX)),
    ];
    for (a, b) in cases {
        let r = Rectangle::new(a, b);
        assert!(r.start().x <= r.end().x);
        assert!(r.start().y <= r.end().y);
        let swapped = Rectangle::new(b, a);
        assert_eq!(corners(&r), corners(&swapped));
    }
    assert_eq!(corners(&Rectangle::new(v(3, 2), v(1, 4))), ((1, 2), (3, 4)));
}

#[test]
fn rectangle_measures() {
    let r = Rectangle::new(v(10, 50), v(40, 20));
    assert_eq!(r.width(), 30);
    assert_eq!(r.height(), 30);
    let d = r.dimensions();
    assert_eq!((d.x, d.y), (30, 30));

    let huge = Rectangle::new(v(i64::MIN, 0), v(i64::MAX, 0));
    assert_eq!(huge.width(), i64::MAX);
    assert_eq!(huge.height(), 0);
}

#[test]
fn rectangle_contains_is_strict() {
    let r = Rectangle::new(v(0, 0), v(10, 10));
    assert!(r.contains(v(5, 5)));
    assert!(r.contains(v(1, 9)));
    assert!(!r.contains(v(0, 5)));
    assert!(!r.contains(v(10, 5)));
    assert!(!r.contains(v(5, 0)));
    assert!(!r.contains(v(5, 10)));
    assert!(!r.contains(v(0, 0)));
    assert!(!r.contains(v(11, 5)));
    assert!(!r.contains(v(-1, 5)));
}

#[test]
fn rectangle_translate_and_scale() {
    let r = Rectangle::new(v(ONE, 2 * ONE), v(3 * ONE, 4 * ONE));
    let moved = r.translate(v(ONE, -ONE));
    assert_eq!(corners(&moved), ((2 * ONE, ONE), (4 * ONE, 3 * ONE)));

    let doubled = r.scale(v(2 * ONE, ONE / 2));
    assert_eq!(corners(&doubled), ((2 * ONE, ONE), (6 * ONE, 2 * ONE)));

    // A negative factor swaps the corners back into order.
    let mirrored = r.scale(v(-ONE, ONE));
    assert_eq!(corners(&mirrored), ((-3 * ONE, 2 * ONE), (-ONE, 4 * ONE)));

    // Far corners saturate instead of wrapping.
    let far = Rectangle::new(v(0, 0), v(i64::MAX - 1, 5)).translate(v(10, 0));
    assert_eq!(corners(&far), ((10, 0), (i64::MAX, 5)));
}

#[test]
fn rectangle_inset() {
    let r = Rectangle::new(v(0, 0), v(100, 40));
    assert_eq!(corners(&r.inset(10)), ((10, 10), (90, 30)));
    // Exactly half the height: no extent left, corners meet.
    assert_eq!(corners(&r.inset(20)), ((20, 20), (80, 20)));
    // More than half the height: the axis collapses onto its midpoint.
    assert_eq!(corners(&r.inset(30)), ((30, 20), (70, 20)));
    // More than half of both: a point at the middle.
    assert_eq!(corners(&r.inset(60)), ((50, 20), (50, 20)));
    // A negative breadth grows the rectangle.
    assert_eq!(corners(&r.inset(-5)), ((-5, -5), (105, 45)));
    let odd = Rectangle::new(v(0, 0), v(5, 5));
    assert_eq!(corners(&odd.inset(3)), ((2, 2), (2, 2)));
}

#[test]
fn rectangle_intersects() {
    let a = Rectangle::new(v(0, 0), v(10, 10));
    assert!(a.intersects(Rectangle::new(v(5, 5), v(15, 15))));
    assert!(a.intersects(Rectangle::new(v(2, 2), v(3, 3))));
    assert!(a.intersects(Rectangle::new(v(-5, -5), v(50, 50))));
    // Touching edges and corners do not overlap.
    assert!(!a.intersects(Rectangle::new(v(10, 0), v(20, 10))));
    assert!(!a.intersects(Rectangle::new(v(10, 10), v(20, 20))));
    assert!(!a.intersects(Rectangle::new(v(0, 11), v(10, 20))));
    // A rectangle without area overlaps nothing.
    assert!(!a.intersects(Rectangle::new(v(5, 0), v(5, 10))));
}

#[test]
fn rectangle_interior_int_coords() {
    let r = Rectangle::new(v(ONE + 999_999, 2 * ONE), v(3 * ONE + 500_000, 4 * ONE + 1));
    let pixels: Vec<(u32, u32)> = r.interior_int_coords().iter().map(|p| (p.x, p.y)).collect();
    assert_eq!(pixels, vec![(1, 2), (1, 3), (2, 2), (2, 3)]);
    // It can be enumerated again with the same result.
    let again: Vec<(u32, u32)> = r.interior_int_coords().iter().map(|p| (p.x, p.y)).collect();
    assert_eq!(again, pixels);

    // Less than a pixel wide: nothing inside.
    let thin = Rectangle::new(v(ONE, 0), v(ONE + 999_999, 5 * ONE));
    assert!(thin.interior_int_coords().is_empty());
    // Negative coordinates are cut off at zero.
    let left = Rectangle::new(v(-3 * ONE, -ONE), v(ONE, ONE));
    let pixels: Vec<(u32, u32)> = left.interior_int_coords().iter().map(|p| (p.x, p.y)).collect();
    assert_eq!(pixels, vec![(0, 0)]);
}

#[test]
fn vector2_arithmetic() {
    let a = v(3 * ONE, -2 * ONE);
    let b = v(ONE / 2, 4 * ONE);
    let sum = a + b;
    assert_eq!((sum.x, sum.y), (3_500_000, 2 * ONE));
    let diff = a - b;
    assert_eq!((diff.x, diff.y), (2_500_000, -6 * ONE));
    let prod = a * b;
    assert_eq!((prod.x, prod.y), (1_500_000, -8 * ONE));
    let scaled = a * (3 * ONE);
    assert_eq!((scaled.x, scaled.y), (9 * ONE, -6 * ONE));
    let mut c = a;
    c *= b;
    assert_eq!((c.x, c.y), (1_500_000, -8 * ONE));
    assert_eq!(a.comp_sum(), ONE);
    assert_eq!(v(3 * ONE, 4 * ONE).mag_squared(), 25 * ONE);

    let top = v(i64::MAX, i64::MIN);
    let pushed = top + v(1, -1);
    assert_eq!((pushed.x, pushed.y), (i64::MAX, i64::MIN));
    let pulled = v(i64::MIN, 0) - v(1, i64::MIN);
    assert_eq!((pulled.x, pulled.y), (i64::MIN, i64::MAX));

    let d = Vector2::default();
    assert_eq!((d.x, d.y), (0, 0));
}

#[test]
fn vector2_compass() {
    let a = v(1, 5);
    let b = v(2, 3);
    assert!(a.north_of(b));
    assert!(!a.south_of(b));
    assert!(b.south_of(a));
    assert!(b.east_of(a));
    assert!(a.west_of(b));
    assert!(!a.east_of(a));
    assert!(!a.north_of(a));
}

#[test]
fn vector2i_arithmetic() {
    let a = Vector2i { x: 3, y: 4 };
    let b = Vector2i { x: 1, y: 2 };
    let sum = a + b;
    assert_eq!((sum.x, sum.y), (4, 6));
    let diff = a - b;
    assert_eq!((diff.x, diff.y), (2, 2));
    let prod = a * b;
    assert_eq!((prod.x, prod.y), (3, 8));
    let mut c = a;
    c *= b;
    assert_eq!((c.x, c.y), (3, 8));
    assert_eq!(a.mag_squared(), 25);
    assert!(a.north_of(b) && a.east_of(b) && b.south_of(a) && b.west_of(a));
    assert!(!a.south_of(b) && !a.west_of(b));

    let wide = Vector2::from(Vector2i { x: 7, y: u32::MAX });
    assert_eq!((wide.x, wide.y), (7 * ONE, u32::MAX as i64 * ONE));
}

#[test]
fn fixed_point_arithmetic() {
    assert_eq!(sat_add(1, 2), 3);
    assert_eq!(sat_add(i64::MAX, 1), i64::MAX);
    assert_eq!(sat_add(i64::MIN, -1), i64::MIN);
    assert_eq!(sat_sub(5, 7), -2);
    assert_eq!(sat_sub(i64::MIN, 1), i64::MIN);
    assert_eq!(sat_sub(0, i64::MIN), i64::MAX);
    assert_eq!(saturate(i128::MAX), i64::MAX);
    assert_eq!(saturate(-7), -7);

    assert_eq!(halve(10), 5);
    assert_eq!(halve(11), 5);
    assert_eq!(halve(-11), -5);
    assert_eq!(halve(0), 0);

    assert_eq!(fixed_mul(2 * ONE, 3 * ONE), 6 * ONE);
    assert_eq!(fixed_mul(ONE / 2, ONE / 2), ONE / 4);
    assert_eq!(fixed_mul(-3 * ONE, ONE / 2), -1_500_000);
    assert_eq!(fixed_mul(1, 1), 0);
    assert_eq!(fixed_mul(-1, 1), 0);
    assert_eq!(fixed_mul(i64::MAX, i64::MAX), i64::MAX);
    assert_eq!(fixed_mul(i64::MAX, i64::MIN), i64::MIN);

    assert_eq!(fixed_div(6 * ONE, 3 * ONE), 2 * ONE);
    assert_eq!(fixed_div(ONE, 3 * ONE), 333_333);
    assert_eq!(fixed_div(-ONE, 3 * ONE), -333_333);
    assert_eq!(fixed_div(ONE, -3 * ONE), -333_333);
    assert_eq!(fixed_div(-ONE, -3 * ONE), 333_333);
    assert_eq!(fixed_div(5, 0), i64::MAX);
    assert_eq!(fixed_div(-5, 0), i64::MIN);
    assert_eq!(fixed_div(0, 0), 0);
    assert_eq!(fixed_div(i64::MAX, 1), i64::MAX);

    assert_eq!(recip(10_000), 100 * ONE);
    assert_eq!(recip(2 * ONE), ONE / 2);
    assert_eq!(recip(0), i64::MAX);
    assert_eq!(recip(-ONE), -ONE);

    assert_eq!(to_whole(3 * ONE + 999_999), 3);
    assert_eq!(to_whole(ONE - 1), 0);
    assert_eq!(to_whole(-ONE), 0);
    assert_eq!(to_whole(i64::MAX), u32::MAX);
    assert_eq!(from_whole(2048), 2048 * ONE);
}

#[test]
fn whole_roots() {
    assert_eq!(whole_root(0), 0);
    assert_eq!(whole_root(1), 1);
    assert_eq!(whole_root(3), 1);
    assert_eq!(whole_root(4), 2);
    assert_eq!(whole_root(99), 9);
    assert_eq!(whole_root(100), 10);
    assert_eq!(whole_root(u128::MAX), u64::MAX as u128);
    assert_eq!(whole_root((u64::MAX as u128) * (u64::MAX as u128)), u64::MAX as u128);
    assert_eq!(whole_root((u64::MAX as u128) * (u64::MAX as u128) - 1), u64::MAX as u128 - 1);
}

#[test]
fn magnitudes() {
    assert_eq!(v(3 * ONE, 4 * ONE).mag(), 5 * ONE);
    assert_eq!(v(-3 * ONE, 4 * ONE).mag(), 5 * ONE);
    assert_eq!(v(0, 0).mag(), 0);
    assert_eq!(v(ONE, ONE).mag(), 1_414_213);
    assert_eq!(v(i64::MIN, i64::MIN).mag(), i64::MAX);
    assert_eq!(v(i64::MAX, 0).mag(), i64::MAX);

    assert_eq!(Vector2i { x: 3, y: 4 }.mag(), 5 * ONE);
    assert_eq!(Vector2i { x: 1, y: 1 }.mag(), 1_414_213);
    assert_eq!(Vector2i { x: 0, y: 0 }.mag(), 0);
    assert_eq!(Vector2i { x: u32::MAX, y: 0 }.mag(), u32::MAX as i64 * ONE);
}

#[test]
fn circle_contains_is_strict() {
    let c = Circle::new(v(10 * ONE, 10 * ONE), 5 * ONE);
    assert!(c.contains(v(10 * ONE, 10 * ONE)));
    assert!(c.contains(v(13 * ONE, 13 * ONE)));
    assert!(c.contains(v(10 * ONE, 15 * ONE - 1)));
    assert!(!c.contains(v(10 * ONE, 15 * ONE)));
    assert!(!c.contains(v(13 * ONE, 14 * ONE)));
    assert!(!c.contains(v(0, 0)));
    assert!(!Circle::new(v(0, 0), 0).contains(v(0, 0)));
}
