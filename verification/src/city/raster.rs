//! The raster surface that a city is painted on: an image of the `image`
//! crate, with what this crate relies on of it.

use vstd::prelude::*;

verus! {

/// `image::DynamicImage`, an image of any pixel format. Nothing inside it is
/// looked at.
#[verifier::external_type_specification]
#[verifier::external_body]
pub struct ExDynamicImage(image::DynamicImage);

/// `image::ImageError`, the error of a failed encoding. Nothing inside it
/// is looked at.
#[verifier::external_type_specification]
#[verifier::external_body]
pub struct ExImageError(image::ImageError);

/// The colour that an image shows at each of its pixels, by column and row:
/// red, green, blue and alpha.
pub uninterp spec fn pixels(image: image::DynamicImage) -> Map<(u32, u32), Seq<u8>>;

/// The width and height of an image in pixels.
pub uninterp spec fn extent(image: image::DynamicImage) -> (u32, u32);

/// Whether an image keeps eight bits each of red, green and blue for a pixel,
/// and nothing else.
pub uninterp spec fn stores_rgb8(image: image::DynamicImage) -> bool;

/// The JPEG encoding, at the encoder's default quality, of an image of the
/// given extent that shows the given pixels.
pub uninterp spec fn jpeg_bytes(extent: (u32, u32), pixels: Map<(u32, u32), Seq<u8>>) -> Seq<u8>;

/// The colour that an image without alpha shows where `color` was put: the
/// same red, green and blue, fully opaque.
pub open spec fn opaque(color: Seq<u8>) -> Seq<u8> {
    seq![color[0], color[1], color[2], 0xFFu8]
}

/// Whether `p` is a pixel of an image of the given extent.
pub open spec fn in_bounds(extent: (u32, u32), p: (u32, u32)) -> bool {
    p.0 < extent.0 && p.1 < extent.1
}

/// `image::DynamicImage::new_rgb8`: a black image of the given size that
/// stores red, green and blue. The size is such that three bytes for each pixel
/// can be allocated.
#[verifier::external_body]
pub(crate) fn new_rgb8(width: u32, height: u32) -> (image: image::DynamicImage)
    requires
        3 * width * height <= isize::MAX,
    ensures
        extent(image) == (width, height),
        stores_rgb8(image),
        forall|p: (u32, u32)|
            in_bounds((width, height), p) <==> #[trigger] pixels(image).dom().contains(p),
        forall|p: (u32, u32)|
            in_bounds((width, height), p) ==> #[trigger] pixels(image)[p] == seq![
                0u8,
                0u8,
                0u8,
                0xFFu8,
            ],
{
    image::DynamicImage::new_rgb8(width, height)
}

/// `image::GenericImageView::dimensions` of an image: its width and height.
#[verifier::external_body]
pub(crate) fn dimensions(image: &image::DynamicImage) -> (r: (u32, u32))
    ensures
        r == extent(*image),
{
    image::GenericImageView::dimensions(image)
}

/// `image::GenericImage::put_pixel` on an image: puts `color` at column
/// `x` and row `y`, which lie inside the image. The image keeps its size and
/// its storage, and every other pixel keeps its colour. Where the image stores
/// red, green and blue, it now shows these three of `color` there, fully opaque.
#[verifier::external_body]
pub(crate) fn put_pixel(image: &mut image::DynamicImage, x: u32, y: u32, color: [u8; 4])
    requires
        in_bounds(extent(*old(image)), (x, y)),
    ensures
        extent(*final(image)) == extent(*old(image)),
        stores_rgb8(*final(image)) == stores_rgb8(*old(image)),
        pixels(*final(image)).dom() == pixels(*old(image)).dom().insert((x, y)),
        forall|p: (u32, u32)|
            p != (x, y) ==> #[trigger] pixels(*final(image))[p] == pixels(*old(image))[p],
        stores_rgb8(*old(image)) ==> pixels(*final(image))[(x, y)] == opaque(color@),
{
    image::GenericImage::put_pixel(image, x, y, image::Rgba(color))
}

/// `image::codecs::jpeg::JpegEncoder::encode_image` into memory, with the
/// encoder that `JpegEncoder::new` makes, on an image that stores red, green
/// and blue in eight bits each: on other storage the encoder may fail to read a
/// pixel. It fails exactly when the image is wider or higher than 65535 pixels;
/// the bytes depend on the size of the image and on the colours it shows.
#[verifier::external_body]
pub(crate) fn encode_jpeg(image: &image::DynamicImage) -> (encoded: Result<
    Vec<u8>,
    image::ImageError,
>)
    requires
        stores_rgb8(*image),
    ensures
        (encoded is Ok) == (0xFFFF >= extent(*image).0 && 0xFFFF >= extent(*image).1),
        encoded matches Ok(bytes) ==> bytes@ == jpeg_bytes(extent(*image), pixels(*image)),
{
    let mut bytes: Vec<u8> = Vec::new();
    let done = image::codecs::jpeg::JpegEncoder::new(&mut bytes).encode_image(image);
    done.map(|_| bytes)
}

} // verus!
