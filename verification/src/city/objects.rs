//! The things a city is made of, and how each paints itself.

use vstd::prelude::*;
use crate::city::fixed::{to_whole, whole};
use crate::city::geom::rectangle::{inset_corners, scaled, translated, Rectangle};
use crate::city::geom::vector::Vector2;
use crate::city::raster::{dimensions, extent, in_bounds, opaque, pixels, put_pixel, stores_rgb8};

verus! {

/// Whether the rectangle with corners `r`, in pixel units, holds the pixel
/// `p`: the whole parts of its corners bound its pixels, the upper bound
/// excluded.
pub open spec fn hits(r: (Vector2, Vector2), p: (u32, u32)) -> bool {
    &&& whole(r.0.x as int) <= p.0 < whole(r.1.x as int)
    &&& whole(r.0.y as int) <= p.1 < whole(r.1.y as int)
}

/// What an image of the given extent shows once the rectangle `r` has been
/// painted in `color` over `shown`. Pixels of the rectangle that fall outside
/// the image are skipped.
pub open spec fn painted(
    shown: Map<(u32, u32), Seq<u8>>,
    extent: (u32, u32),
    r: (Vector2, Vector2),
    color: Seq<u8>,
) -> Map<(u32, u32), Seq<u8>> {
    Map::new(
        |p: (u32, u32)| shown.dom().contains(p) || (hits(r, p) && in_bounds(extent, p)),
        |p: (u32, u32)|
            if hits(r, p) && in_bounds(extent, p) {
                color
            } else {
                shown[p]
            },
    )
}

/// What is shown while `r` is being painted column by column: the pixels of
/// `r` in the columns before `x`, and those of column `x` in the rows before
/// `y`, are painted already.
pub open spec fn painted_until(
    shown: Map<(u32, u32), Seq<u8>>,
    extent: (u32, u32),
    r: (Vector2, Vector2),
    color: Seq<u8>,
    x: int,
    y: int,
) -> Map<(u32, u32), Seq<u8>> {
    Map::new(
        |p: (u32, u32)|
            shown.dom().contains(p) || (hits(r, p) && in_bounds(extent, p) && (p.0 < x || (p.0
                == x && p.1 < y))),
        |p: (u32, u32)|
            if hits(r, p) && in_bounds(extent, p) && (p.0 < x || (p.0 == x && p.1 < y)) {
                color
            } else {
                shown[p]
            },
    )
}

/// The lesser of the whole part of `v` and `limit`.
pub open spec fn whole_within(v: i64, limit: u32) -> u32 {
    if whole(v as int) < limit {
        whole(v as int)
    } else {
        limit
    }
}

/// The colour of asphalt.
pub open spec fn asphalt_color() -> Seq<u8> {
    seq![0x20u8, 0x20u8, 0x20u8, 0xFFu8]
}

/// The colour of the concrete that blocks are made of.
pub open spec fn concrete_color() -> Seq<u8> {
    seq![0xA0u8, 0xA0u8, 0xA0u8, 0xFFu8]
}

/// The colour of the edge of a roof.
pub open spec fn roof_edge_color() -> Seq<u8> {
    seq![0x50u8, 0x50u8, 0x50u8, 0xFFu8]
}

/// Something that can paint itself into an image.
pub trait Renderable {
    /// What an image of the given extent shows once `self` has painted itself
    /// over `shown`, moved by `offset` and then scaled by `scale`.
    spec fn rendering(
        &self,
        offset: Vector2,
        scale: Vector2,
        extent: (u32, u32),
        shown: Map<(u32, u32), Seq<u8>>,
    ) -> Map<(u32, u32), Seq<u8>>;

    /// Whether `self`, moved by `offset` and then scaled by `scale`, paints
    /// the pixel `p` of an image of the given extent.
    spec fn reaches(
        &self,
        offset: Vector2,
        scale: Vector2,
        extent: (u32, u32),
        p: (u32, u32),
    ) -> bool;

    /// Paints `self` into `image`, moved by `offset` and then scaled by
    /// `scale`. What falls outside the image is skipped. Whatever the image
    /// stores, it keeps its size and every pixel that `self` does not reach keeps
    /// its colour; an image that stores red, green and blue then shows the
    /// rendering of `self`.
    fn render(&self, offset: Vector2, scale: Vector2, image: &mut image::DynamicImage)
        ensures
            extent(*final(image)) == extent(*old(image)),
            stores_rgb8(*final(image)) == stores_rgb8(*old(image)),
            forall|p: (u32, u32)|
                !self.reaches(offset, scale, extent(*old(image)), p) ==> #[trigger] pixels(
                    *final(image),
                )[p] == pixels(*old(image))[p],
            stores_rgb8(*old(image)) ==> pixels(*final(image)) == self.rendering(
                offset,
                scale,
                extent(*old(image)),
                pixels(*old(image)),
            ),
    ;
}

/// Whether painting the rectangle `r` colours the pixel `p` of an image of
/// the given extent: the rectangle holds the pixel and the image has it.
pub open spec fn colours(r: (Vector2, Vector2), extent: (u32, u32), p: (u32, u32)) -> bool {
    hits(r, p) && in_bounds(extent, p)
}

/// Paints the pixels of `region` that lie inside `image` in `color`.
fn paint(image: &mut image::DynamicImage, region: &Rectangle, color: [u8; 4])
    ensures
        extent(*final(image)) == extent(*old(image)),
        stores_rgb8(*final(image)) == stores_rgb8(*old(image)),
        forall|p: (u32, u32)|
            !colours(region@, extent(*old(image)), p) ==> #[trigger] pixels(*final(image))[p]
                == pixels(*old(image))[p],
        stores_rgb8(*old(image)) ==> pixels(*final(image)) == painted(
            pixels(*old(image)),
            extent(*old(image)),
            region@,
            opaque(color@),
        ),
{
    let ghost shown = pixels(*image);
    let ghost size = extent(*image);
    let ghost rgb = stores_rgb8(*image);
    let ghost ink = opaque(color@);
    let (width, height) = dimensions(image);
    let start = region.start();
    let end = region.end();
    let startx = to_whole(start.x);
    let starty = to_whole(start.y);
    let endx = if to_whole(end.x) < width { to_whole(end.x) } else { width };
    let endy = if to_whole(end.y) < height { to_whole(end.y) } else { height };
    if startx >= endx || starty >= endy {
        assert(rgb ==> pixels(*image) =~= painted(shown, size, region@, ink));
        return ;
    }
    let mut x = startx;
    while x < endx
        invariant
            startx <= x <= endx <= width,
            starty < endy <= height,
            size == (width, height),
            extent(*image) == size,
            stores_rgb8(*image) == rgb,
            ink == opaque(color@),
            startx == whole(region@.0.x as int),
            starty == whole(region@.0.y as int),
            endx == whole_within(region@.1.x, width),
            endy == whole_within(region@.1.y, height),
            rgb ==> pixels(*image) =~= painted_until(
                shown,
                size,
                region@,
                ink,
                x as int,
                starty as int,
            ),
            forall|p: (u32, u32)|
                !colours(region@, size, p) ==> #[trigger] pixels(*image)[p] == shown[p],
        decreases endx - x,
    {
        let mut y = starty;
        while y < endy
            invariant
                startx <= x < endx <= width,
                starty <= y <= endy <= height,
                size == (width, height),
                extent(*image) == size,
                stores_rgb8(*image) == rgb,
                ink == opaque(color@),
                startx == whole(region@.0.x as int),
                starty == whole(region@.0.y as int),
                endx == whole_within(region@.1.x, width),
                endy == whole_within(region@.1.y, height),
                rgb ==> pixels(*image) =~= painted_until(
                    shown,
                    size,
                    region@,
                    ink,
                    x as int,
                    y as int,
                ),
                forall|p: (u32, u32)|
                    !colours(region@, size, p) ==> #[trigger] pixels(*image)[p] == shown[p],
            decreases endy - y,
        {
            put_pixel(image, x, y, color);
            y = y + 1;
        }
        assert(rgb ==> pixels(*image) =~= painted_until(
            shown,
            size,
            region@,
            ink,
            x + 1,
            starty as int,
        ));
        x = x + 1;
    }
    assert(rgb ==> pixels(*image) =~= painted(shown, size, region@, ink));
}

/// A building on a block.
#[derive(Debug)]
pub struct Building {
    pub footprint: Rectangle,
    pub roof_edge_breadth: i64,
    pub height: i64,
    pub roof_color: [u8; 4],
}

/// A block between roads, ringed by buildings inside its sidewalk.
pub struct Block {
    pub footprint: Rectangle,
    pub buildings: Vec<Building>,
    pub sidewalk_breadth: i64,
}

/// A paved line of the road grid.
#[derive(Debug)]
pub struct Road {
    pub asphalt: Rectangle,
}

impl Block {
    /// The part of the block that buildings may stand on: its footprint less
    /// the sidewalk on every side.
    pub fn buildings_boundary(&self) -> (r: Rectangle)
        ensures
            r@ == inset_corners(self.footprint@, self.sidewalk_breadth),
            Rectangle::well_formed(r@),
    {
        self.footprint.inset(self.sidewalk_breadth)
    }
}

/// Whether one of the first `n` of `buildings` paints the pixel `p`.
pub open spec fn buildings_reach(
    buildings: Seq<Building>,
    n: int,
    offset: Vector2,
    scale: Vector2,
    extent: (u32, u32),
    p: (u32, u32),
) -> bool
    decreases n,
{
    n > 0 && (buildings[n - 1].reaches(offset, scale, extent, p) || buildings_reach(
        buildings,
        n - 1,
        offset,
        scale,
        extent,
        p,
    ))
}

/// What an image shows once the first `n` of `buildings` have painted
/// themselves over `shown`, one after the other.
pub open spec fn buildings_rendering(
    buildings: Seq<Building>,
    n: int,
    offset: Vector2,
    scale: Vector2,
    extent: (u32, u32),
    shown: Map<(u32, u32), Seq<u8>>,
) -> Map<(u32, u32), Seq<u8>>
    decreases n,
{
    if n <= 0 {
        shown
    } else {
        buildings[n - 1].rendering(
            offset,
            scale,
            extent,
            buildings_rendering(buildings, n - 1, offset, scale, extent, shown),
        )
    }
}

impl Renderable for Road {
    /// The asphalt of the road, painted over what was shown.
    open spec fn rendering(
        &self,
        offset: Vector2,
        scale: Vector2,
        extent: (u32, u32),
        shown: Map<(u32, u32), Seq<u8>>,
    ) -> Map<(u32, u32), Seq<u8>> {
        painted(shown, extent, scaled(translated(self.asphalt@, offset), scale), asphalt_color())
    }

    /// The pixels of the asphalt that the image has.
    open spec fn reaches(
        &self,
        offset: Vector2,
        scale: Vector2,
        extent: (u32, u32),
        p: (u32, u32),
    ) -> bool {
        colours(scaled(translated(self.asphalt@, offset), scale), extent, p)
    }

    fn render(&self, offset: Vector2, scale: Vector2, image: &mut image::DynamicImage) {
        let region = self.asphalt.translate(offset).scale(scale);
        let color: [u8; 4] = [0x20, 0x20, 0x20, 0xFF];
        assert(opaque(color@) =~= asphalt_color());
        paint(image, &region, color);
    }
}

impl Renderable for Building {
    /// The whole footprint in the colour of the roof edge, and on top of it
    /// the footprint less the roof edge in the colour of the roof.
    open spec fn rendering(
        &self,
        offset: Vector2,
        scale: Vector2,
        extent: (u32, u32),
        shown: Map<(u32, u32), Seq<u8>>,
    ) -> Map<(u32, u32), Seq<u8>> {
        let moved = translated(self.footprint@, offset);
        painted(
            painted(shown, extent, scaled(moved, scale), roof_edge_color()),
            extent,
            scaled(inset_corners(moved, self.roof_edge_breadth), scale),
            opaque(self.roof_color@),
        )
    }

    /// The pixels of the footprint and of the roof that the image has.
    open spec fn reaches(
        &self,
        offset: Vector2,
        scale: Vector2,
        extent: (u32, u32),
        p: (u32, u32),
    ) -> bool {
        let moved = translated(self.footprint@, offset);
        colours(scaled(moved, scale), extent, p) || colours(
            scaled(inset_corners(moved, self.roof_edge_breadth), scale),
            extent,
            p,
        )
    }

    fn render(&self, offset: Vector2, scale: Vector2, image: &mut image::DynamicImage) {
        let roof_with_edge = self.footprint.translate(offset).scale(scale);
        let roof = self.footprint.translate(offset).inset(self.roof_edge_breadth).scale(scale);
        let color: [u8; 4] = [0x50, 0x50, 0x50, 0xFF];
        assert(opaque(color@) =~= roof_edge_color());
        paint(image, &roof_with_edge, color);
        paint(image, &roof, self.roof_color);
    }
}

impl Renderable for Block {
    /// The footprint of the block in concrete, and on top of it its
    /// buildings in their order, each placed relative to the corner of the
    /// buildable area of the block.
    open spec fn rendering(
        &self,
        offset: Vector2,
        scale: Vector2,
        extent: (u32, u32),
        shown: Map<(u32, u32), Seq<u8>>,
    ) -> Map<(u32, u32), Seq<u8>> {
        buildings_rendering(
            self.buildings@,
            self.buildings@.len() as int,
            offset.plus(inset_corners(self.footprint@, self.sidewalk_breadth).0),
            scale,
            extent,
            painted(
                shown,
                extent,
                scaled(translated(self.footprint@, offset), scale),
                concrete_color(),
            ),
        )
    }

    /// The pixels of the footprint and those that a building reaches.
    open spec fn reaches(
        &self,
        offset: Vector2,
        scale: Vector2,
        extent: (u32, u32),
        p: (u32, u32),
    ) -> bool {
        colours(scaled(translated(self.footprint@, offset), scale), extent, p) || buildings_reach(
            self.buildings@,
            self.buildings@.len() as int,
            offset.plus(inset_corners(self.footprint@, self.sidewalk_breadth).0),
            scale,
            extent,
            p,
        )
    }

    fn render(&self, offset: Vector2, scale: Vector2, image: &mut image::DynamicImage) {
        let ghost size = extent(*image);
        let ghost rgb = stores_rgb8(*image);
        let ghost first = pixels(*image);
        let region = self.footprint.translate(offset).scale(scale);
        let color: [u8; 4] = [0xA0, 0xA0, 0xA0, 0xFF];
        assert(opaque(color@) =~= concrete_color());
        paint(image, &region, color);
        let ghost base = pixels(*image);

        let buildings_offset = offset + self.buildings_boundary().start();
        let mut i: usize = 0;
        while i < self.buildings.len()
            invariant
                i <= self.buildings.len(),
                extent(*image) == size,
                stores_rgb8(*image) == rgb,
                rgb ==> pixels(*image) == buildings_rendering(
                    self.buildings@,
                    i as int,
                    buildings_offset,
                    scale,
                    size,
                    base,
                ),
                forall|p: (u32, u32)|
                    !colours(scaled(translated(self.footprint@, offset), scale), size, p)
                        && !buildings_reach(
                        self.buildings@,
                        i as int,
                        buildings_offset,
                        scale,
                        size,
                        p,
                    ) ==> #[trigger] pixels(*image)[p] == first[p],
            decreases self.buildings.len() - i,
        {
            self.buildings[i].render(buildings_offset, scale, image);
            i = i + 1;
        }
    }
}

} // verus!
