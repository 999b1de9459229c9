//! Rendering of a whole city into an image, and the image's encoding.

use vstd::prelude::*;
use crate::city::fixed::{fixed_div, from_whole, quotient, ONE};
use crate::city::geom::vector::Vector2;
use crate::city::objects::{Block, Renderable, Road};
use crate::city::raster::{
    encode_jpeg, extent, in_bounds, jpeg_bytes, new_rgb8, pixels, stores_rgb8,
};
use crate::city::{City, CityView};

verus! {

/// What a black image of the given extent shows.
pub open spec fn blank(extent: (u32, u32)) -> Map<(u32, u32), Seq<u8>> {
    Map::new(|p: (u32, u32)| in_bounds(extent, p), |p: (u32, u32)| seq![0u8, 0u8, 0u8, 0xFFu8])
}

/// What an image shows once the first `n` of `roads` have painted themselves
/// over `shown`, one after the other.
pub open spec fn roads_rendering(
    roads: Seq<Road>,
    n: int,
    offset: Vector2,
    scale: Vector2,
    extent: (u32, u32),
    shown: Map<(u32, u32), Seq<u8>>,
) -> Map<(u32, u32), Seq<u8>>
    decreases n,
{
    if n <= 0 {
        shown
    } else {
        roads[n - 1].rendering(
            offset,
            scale,
            extent,
            roads_rendering(roads, n - 1, offset, scale, extent, shown),
        )
    }
}

/// What an image shows once the first `n` of `blocks` have painted
/// themselves over `shown`, one after the other.
pub open spec fn blocks_rendering(
    blocks: Seq<Block>,
    n: int,
    offset: Vector2,
    scale: Vector2,
    extent: (u32, u32),
    shown: Map<(u32, u32), Seq<u8>>,
) -> Map<(u32, u32), Seq<u8>>
    decreases n,
{
    if n <= 0 {
        shown
    } else {
        blocks[n - 1].rendering(
            offset,
            scale,
            extent,
            blocks_rendering(blocks, n - 1, offset, scale, extent, shown),
        )
    }
}

/// How many pixels a unit of length takes along each axis, so that the
/// city fills its image.
pub open spec fn image_scale(city: CityView) -> Vector2 {
    Vector2 {
        x: quotient(city.image_size.0 * ONE, city.size.x as int),
        y: quotient(city.image_size.1 * ONE, city.size.y as int),
    }
}

/// What the image of a city shows: on black, its roads in their order and
/// on top of them its blocks in theirs.
pub open spec fn city_rendering(city: CityView) -> Map<(u32, u32), Seq<u8>> {
    let origin = Vector2 { x: 0, y: 0 };
    let scale = image_scale(city);
    blocks_rendering(
        city.blocks,
        city.blocks.len() as int,
        origin,
        scale,
        city.image_size,
        roads_rendering(
            city.roads,
            city.roads.len() as int,
            origin,
            scale,
            city.image_size,
            blank(city.image_size),
        ),
    )
}

/// Whether an image of the given extent can be held in memory: three bytes
/// for each pixel can be allocated.
pub open spec fn holdable(extent: (u32, u32)) -> bool {
    3 * extent.0 * extent.1 <= isize::MAX
}

/// Whether an image of the given extent can be held in memory and encoded as
/// a JPEG: it can be held, and neither side exceeds 65535 pixels.
pub open spec fn encodable(extent: (u32, u32)) -> bool {
    extent.0 <= 0xFFFF && extent.1 <= 0xFFFF && holdable(extent)
}

impl City {
    /// Renders the city into an image of the configured size that stores red,
    /// green and blue, or returns `None` if so large an image cannot be held. The
    /// city is scaled to fill the image; roads are painted first and blocks on top
    /// of them.
    pub fn render(&self) -> (res: Option<image::DynamicImage>)
        ensures
            res is Some <==> holdable(self@.image_size),
            res matches Some(image) ==> extent(image) == self@.image_size && stores_rgb8(image)
                && pixels(image) == city_rendering(self@),
    {
        let (width, height) = self.image_size;
        assert(3 * width * height <= 3 * 0xFFFF_FFFF * 0xFFFF_FFFF) by (nonlinear_arith)
            requires
                0 <= width <= 0xFFFF_FFFF,
                0 <= height <= 0xFFFF_FFFF,
        ;
        let bytes_needed: u128 = 3 * (width as u128) * (height as u128);
        if bytes_needed > isize::MAX as u128 {
            return None;
        }
        let mut image = new_rgb8(width, height);
        assert(pixels(image) =~= blank((width, height)));
        let scale = Vector2 {
            x: fixed_div(from_whole(width), self.size.x),
            y: fixed_div(from_whole(height), self.size.y),
        };
        let offset = Vector2 { x: 0, y: 0 };

        let mut i: usize = 0;
        while i < self.roads.len()
            invariant
                i <= self.roads.len(),
                extent(image) == (width, height),
                stores_rgb8(image),
                pixels(image) == roads_rendering(
                    self.roads@,
                    i as int,
                    offset,
                    scale,
                    (width, height),
                    blank((width, height)),
                ),
            decreases self.roads.len() - i,
        {
            self.roads[i].render(offset, scale, &mut image);
            i = i + 1;
        }
        let ghost paved = pixels(image);

        let mut k: usize = 0;
        while k < self.blocks.len()
            invariant
                k <= self.blocks.len(),
                extent(image) == (width, height),
                stores_rgb8(image),
                pixels(image) == blocks_rendering(
                    self.blocks@,
                    k as int,
                    offset,
                    scale,
                    (width, height),
                    paved,
                ),
            decreases self.blocks.len() - k,
        {
            self.blocks[k].render(offset, scale, &mut image);
            k = k + 1;
        }
        Some(image)
    }

    /// Renders the city as a JPEG albedo map and returns the encoded image,
    /// or `None` if an image of the configured size cannot be held or encoded.
    pub fn into_jpeg(self) -> (res: Option<Vec<u8>>)
        ensures
            res is Some <==> encodable(self@.image_size),
            res matches Some(bytes) ==> bytes@ == jpeg_bytes(
                self@.image_size,
                city_rendering(self@),
            ),
    {
        match self.render() {
            Some(image) => match encode_jpeg(&image) {
                Ok(bytes) => Some(bytes),
                Err(_) => None,
            },
            None => None,
        }
    }
}

} // verus!
