//! The frame buffer: an RGBA image of the `image` crate, reached through a
//! few trusted calls whose contracts are stated over the image's bytes.
use vstd::prelude::*;

verus! {

/// An RGBA image of the `image` crate. Verus does not take a declaration of
/// `ImageBuffer` (its pixel type is bound by an outside trait), so the image
/// sits in a field that only the trusted calls below touch.
#[verifier::external_body]
pub struct Canvas {
    img: image::RgbaImage,
}

/// The bytes of an RGBA image: row-major, four per pixel.
pub uninterp spec fn canvas_bytes(c: Canvas) -> Seq<u8>;

/// The width an RGBA image was made with.
pub uninterp spec fn canvas_width(c: Canvas) -> u32;

/// The height an RGBA image was made with.
pub uninterp spec fn canvas_height(c: Canvas) -> u32;

/// Relies on `ImageBuffer::new`: a zeroed buffer of `width * height` pixels.
/// It computes the byte count as `4 * width`, then times `height`, and panics
/// when either product overflows `usize`.
#[verifier::external_body]
pub(crate) fn canvas_new(width: u32, height: u32) -> (r: Canvas)
    requires
        4 * width <= usize::MAX,
        4 * width * height <= usize::MAX,
    ensures
        canvas_width(r) == width,
        canvas_height(r) == height,
        canvas_bytes(r) == Seq::new((width * height * 4) as nat, |i: int| 0u8),
{
    Canvas { img: image::ImageBuffer::new(width, height) }
}

/// Relies on `ImageBuffer::put_pixel`: the four bytes of pixel (x, y) start at
/// `(y * width + x) * 4`. It panics outside the image.
#[verifier::external_body]
pub(crate) fn canvas_put(
    c: &mut Canvas,
    x: u32,
    y: u32,
    rgba: [u8; 4],
)
    requires
        x < canvas_width(*old(c)),
        y < canvas_height(*old(c)),
    ensures
        canvas_width(*final(c)) == canvas_width(*old(c)),
        canvas_height(*final(c)) == canvas_height(*old(c)),
        canvas_bytes(*final(c)) == ({
            let i = (y * canvas_width(*old(c)) + x) * 4;
            canvas_bytes(*old(c)).update(i, rgba[0]).update(i + 1, rgba[1]).update(i + 2, rgba[2]).update(
                i + 3,
                rgba[3],
            )
        }),
{
    c.img.put_pixel(x, y, image::Rgba(rgba))
}

/// Relies on `ImageBuffer::as_raw`: the image's bytes as they are stored.
#[verifier::external_body]
pub(crate) fn canvas_raw(c: &Canvas) -> (r: &Vec<u8>)
    ensures
        r@ == canvas_bytes(*c),
{
    c.img.as_raw()
}

} // verus!
