use cityservice::city::fixed::ONE;
use cityservice::city::geom::{Rectangle, Vector2};
use cityservice::city::objects::{Block, Building, Renderable, Road};
use image::{DynamicImage, GenericImageView};

const BLACK: [u8; 4] = [0, 0, 0, 0xFF];
const ASPHALT: [u8; 4] = [0x20, 0x20, 0x20, 0xFF];
const CONCRETE: [u8; 4] = [0xA0, 0xA0, 0xA0, 0xFF];
const ROOF_EDGE: [u8; 4] = [0x50, 0x50, 0x50, 0xFF];

fn v(x: i64, y: i64) -> Vector2 {
    Vector2 { x: x * ONE, y: y * ONE }
}

fn rect(x0: i64, y0: i64, x1: i64, y1: i64) -> Rectangle {
    Rectangle::new(v(x0, y0), v(x1, y1))
}

fn inside(x: u32, y: u32, x0: u32, y0: u32, x1: u32, y1: u32) -> bool {
    x0 <= x && x < x1 && y0 <= y && y < y1
}

#[test]
fn road_paints_its_asphalt() {
    let mut image = DynamicImage::new_rgb8(10, 8);
    let road = Road { asphalt: rect(2, 1, 5, 4) };
    road.render(v(0, 0), v(1, 1), &mut image);
    assert_eq!(image.dimensions(), (10, 8));
    for x in 0..10 {
        for y in 0..8 {
            let expected = if inside(x, y, 2, 1, 5, 4) { ASPHALT } else { BLACK };
            assert_eq!(image.get_pixel(x, y).0, expected, "at ({}, {})", x, y);
        }
    }
}

#[test]
fn rendering_moves_then_scales() {
    let mut image = DynamicImage::new_rgb8(20, 20);
    let road = Road { asphalt: rect(0, 0, 2, 1) };
    // Moved by (1, 2) and then doubled: from (2, 4) to (6, 6).
    road.render(v(1, 2), v(2, 2), &mut image);
    for x in 0..20 {
        for y in 0..20 {
            let expected = if inside(x, y, 2, 4, 6, 6) { ASPHALT } else { BLACK };
            assert_eq!(image.get_pixel(x, y).0, expected, "at ({}, {})", x, y);
        }
    }
}

#[test]
fn corners_are_cut_down_to_whole_pixels() {
    let mut image = DynamicImage::new_rgb8(6, 6);
    let road = Road {
        asphalt: Rectangle::new(
            Vector2 { x: ONE + 900_000, y: ONE / 2 },
            Vector2 { x: 3 * ONE + 999_999, y: 2 * ONE + 1 },
        ),
    };
    road.render(v(0, 0), v(1, 1), &mut image);
    for x in 0..6 {
        for y in 0..6 {
            let expected = if inside(x, y, 1, 0, 3, 2) { ASPHALT } else { BLACK };
            assert_eq!(image.get_pixel(x, y).0, expected, "at ({}, {})", x, y);
        }
    }
}

#[test]
fn pixels_outside_the_image_are_skipped() {
    let mut image = DynamicImage::new_rgb8(4, 4);
    let road = Road { asphalt: rect(-3, 2, 100, 50) };
    road.render(v(0, 0), v(1, 1), &mut image);
    for x in 0..4 {
        for y in 0..4 {
            let expected = if y >= 2 { ASPHALT } else { BLACK };
            assert_eq!(image.get_pixel(x, y).0, expected, "at ({}, {})", x, y);
        }
    }
    // Entirely outside: nothing changes, nothing fails.
    let mut image = DynamicImage::new_rgb8(4, 4);
    Road { asphalt: rect(10, 10, 20, 20) }.render(v(0, 0), v(1, 1), &mut image);
    // Scaled beyond every pixel index.
    Road { asphalt: rect(1, 1, 4, 4) }.render(v(0, 0), v(1 << 40, 1 << 40), &mut image);
    for x in 0..4 {
        for y in 0..4 {
            assert_eq!(image.get_pixel(x, y).0, BLACK, "at ({}, {})", x, y);
        }
    }
    // An image without pixels.
    let mut empty = DynamicImage::new_rgb8(0, 0);
    Road { asphalt: rect(0, 0, 4, 4) }.render(v(0, 0), v(1, 1), &mut empty);
    assert_eq!(empty.dimensions(), (0, 0));
}

#[test]
fn later_paint_covers_earlier_paint() {
    let mut image = DynamicImage::new_rgb8(6, 6);
    let block = Block { footprint: rect(0, 0, 4, 4), buildings: Vec::new(), sidewalk_breadth: 0 };
    Road { asphalt: rect(2, 2, 6, 6) }.render(v(0, 0), v(1, 1), &mut image);
    block.render(v(0, 0), v(1, 1), &mut image);
    for x in 0..6 {
        for y in 0..6 {
            let expected = if inside(x, y, 0, 0, 4, 4) {
                CONCRETE
            } else if inside(x, y, 2, 2, 6, 6) {
                ASPHALT
            } else {
                BLACK
            };
            assert_eq!(image.get_pixel(x, y).0, expected, "at ({}, {})", x, y);
        }
    }
}

#[test]
fn building_paints_roof_inside_roof_edge() {
    let mut image = DynamicImage::new_rgb8(12, 12);
    let building = Building {
        footprint: rect(1, 1, 9, 7),
        roof_edge_breadth: 2 * ONE,
        height: 0,
        roof_color: [200, 192, 176, 0x80],
    };
    building.render(v(1, 0), v(1, 1), &mut image);
    for x in 0..12 {
        for y in 0..12 {
            let expected = if inside(x, y, 4, 3, 8, 5) {
                // The alpha of the roof colour is not kept.
                [200, 192, 176, 0xFF]
            } else if inside(x, y, 2, 1, 10, 7) {
                ROOF_EDGE
            } else {
                BLACK
            };
            assert_eq!(image.get_pixel(x, y).0, expected, "at ({}, {})", x, y);
        }
    }
}

#[test]
fn block_paints_buildings_inside_its_sidewalk() {
    let mut image = DynamicImage::new_rgb8(16, 16);
    let block = Block {
        footprint: rect(2, 2, 14, 14),
        buildings: vec![
            Building {
                footprint: rect(0, 0, 6, 4),
                roof_edge_breadth: ONE,
                height: 0,
                roof_color: [1, 2, 3, 0xFF],
            },
            // The second building covers part of the first.
            Building {
                footprint: rect(4, 2, 8, 8),
                roof_edge_breadth: 0,
                height: 0,
                roof_color: [4, 5, 6, 0xFF],
            },
        ],
        sidewalk_breadth: ONE,
    };
    block.render(v(0, 0), v(1, 1), &mut image);
    // Buildings are placed from the corner of the buildable area, (3, 3).
    for x in 0..16 {
        for y in 0..16 {
            let expected = if inside(x, y, 7, 5, 11, 11) {
                [4, 5, 6, 0xFF]
            } else if inside(x, y, 4, 4, 8, 6) {
                [1, 2, 3, 0xFF]
            } else if inside(x, y, 3, 3, 9, 7) {
                ROOF_EDGE
            } else if inside(x, y, 2, 2, 14, 14) {
                CONCRETE
            } else {
                BLACK
            };
            assert_eq!(image.get_pixel(x, y).0, expected, "at ({}, {})", x, y);
        }
    }
}

#[test]
fn block_buildable_area() {
    let block = Block { footprint: rect(10, 20, 50, 40), buildings: Vec::new(), sidewalk_breadth: 3 * ONE };
    let inner = block.buildings_boundary();
    assert_eq!((inner.start().x, inner.start().y), (13 * ONE, 23 * ONE));
    assert_eq!((inner.end().x, inner.end().y), (47 * ONE, 37 * ONE));
    // A sidewalk broader than the block leaves a point.
    let block = Block { footprint: rect(10, 20, 50, 40), buildings: Vec::new(), sidewalk_breadth: 30 * ONE };
    let inner = block.buildings_boundary();
    assert_eq!((inner.start().x, inner.start().y), (30 * ONE, 30 * ONE));
    assert_eq!((inner.end().x, inner.end().y), (30 * ONE, 30 * ONE));
}

#[test]
fn other_storage_keeps_what_is_not_painted() {
    // An image that stores gray only: what the road reaches turns to the
    // gray of asphalt, and nothing else changes.
    let mut image = DynamicImage::new_luma8(6, 6);
    Road { asphalt: rect(1, 1, 3, 4) }.render(v(0, 0), v(1, 1), &mut image);
    assert_eq!(image.dimensions(), (6, 6));
    for x in 0..6 {
        for y in 0..6 {
            let expected = if inside(x, y, 1, 1, 3, 4) { ASPHALT } else { BLACK };
            assert_eq!(image.get_pixel(x, y).0, expected, "at ({}, {})", x, y);
        }
    }
    // An image with alpha keeps the alpha that is put.
    let mut image = DynamicImage::new_rgba8(4, 4);
    let building = Building {
        footprint: rect(0, 0, 2, 2),
        roof_edge_breadth: 0,
        height: 0,
        roof_color: [9, 8, 7, 0x80],
    };
    building.render(v(0, 0), v(1, 1), &mut image);
    for x in 0..4 {
        for y in 0..4 {
            let expected = if inside(x, y, 0, 0, 2, 2) { [9, 8, 7, 0x80] } else { [0, 0, 0, 0] };
            assert_eq!(image.get_pixel(x, y).0, expected, "at ({}, {})", x, y);
        }
    }
}
