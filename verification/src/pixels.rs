//! Trusted view of a decoded sprite-sheet image: the `image` crate decodes
//! and stores the pixels; verified code reads dimensions and alpha bytes
//! through the two wrappers here.

use vstd::prelude::*;

verus! {

/// `image::DynamicImage`, declared so a decoded glyph sheet can flow
/// through verified signatures; its pixels are reached only through the
/// wrappers below.
#[verifier::external_type_specification]
#[verifier::external_body]
pub struct ExDynamicImage(image::DynamicImage);

/// The alpha channel of a decoded image: for every coordinate pair inside
/// the image, the alpha byte of the pixel there after RGBA conversion.
pub uninterp spec fn image_alpha(img: image::DynamicImage) -> Map<(int, int), u8>;

/// The pixel dimensions (width, height) of a decoded image.
pub uninterp spec fn image_dims(img: image::DynamicImage) -> (u32, u32);

/// Relies on `image::GenericImageView::dimensions` for `DynamicImage`: the
/// width and height of the underlying pixel buffer.
#[verifier::external_body]
pub(crate) fn img_dimensions(img: &image::DynamicImage) -> (d: (u32, u32))
    ensures
        d == image_dims(*img),
{
    image::GenericImageView::dimensions(img)
}

/// Relies on `image::GenericImageView::get_pixel` for `DynamicImage`: the
/// RGBA pixel at an in-bounds coordinate, of which only the alpha byte is
/// kept. The call panics outside the bounds, hence the precondition.
#[verifier::external_body]
pub(crate) fn pixel_alpha(img: &image::DynamicImage, x: u32, y: u32) -> (a: u8)
    requires
        x < image_dims(*img).0,
        y < image_dims(*img).1,
    ensures
        a == image_alpha(*img)[(x as int, y as int)],
{
    image::GenericImageView::get_pixel(img, x, y).0[3]
}

} // verus!
