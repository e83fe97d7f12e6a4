//! Trusted boundary to the `image` crate.
//!
//! A decoded image is opaque to the verifier; `img_grid` names the pixels it
//! holds, as a grid of rows. Every claim below is a fact that the `image`
//! crate's source shows of the named call, stated over that grid.

use vstd::prelude::*;
use crate::grid::{grid_wf, grid_width, flip_h_grid, flip_v_grid, rot90_grid, rot180_grid,
    rot270_grid};

verus! {

#[verifier::external_type_specification]
#[verifier::external_body]
pub struct ExDynamicImage(image::DynamicImage);

#[verifier::external_type_specification]
#[verifier::external_body]
pub struct ExImageError(image::ImageError);

/// The pixels a decoded image holds: one row per pixel row, top to bottom,
/// each row left to right, one value per pixel.
pub uninterp spec fn img_grid(img: image::DynamicImage) -> Seq<Seq<u32>>;

/// What `image::load_from_memory` makes of a byte string: `None` when the
/// bytes do not decode, otherwise the decoded pixel grid. Decoding is a
/// function of the bytes alone.
pub uninterp spec fn decoded_grid(bytes: Seq<u8>) -> Option<Seq<Seq<u32>>>;

/// The pixel grid of a Lanczos resample of `g` to `nw` by `nh` pixels. The
/// resample is a function of the source pixels and the target size alone.
pub uninterp spec fn lanczos_grid(g: Seq<Seq<u32>>, nw: int, nh: int) -> Seq<Seq<u32>>;

/// Relies on `image::load_from_memory`: decodes a byte string, guessing the
/// format; returns `Err` exactly when the bytes do not decode. A decoded
/// image is a rectangular pixel buffer.
#[verifier::external_body]
pub(crate) fn decode_image(bytes: &Vec<u8>) -> (r: Result<image::DynamicImage, image::ImageError>)
    ensures
        r is Ok <==> decoded_grid(bytes@) is Some,
        r matches Ok(img) ==> img_grid(img) == decoded_grid(bytes@)->0 && grid_wf(img_grid(img)),
{
    image::load_from_memory(bytes.as_slice())
}

/// Relies on `image::DynamicImage::height`: the number of pixel rows.
#[verifier::external_body]
pub(crate) fn image_height(img: &image::DynamicImage) -> (r: u32)
    ensures
        r as nat == img_grid(*img).len(),
{
    img.height()
}

/// Relies on `image::DynamicImage::width`: the number of pixel columns
/// (the length of each row, once there is a row).
#[verifier::external_body]
pub(crate) fn image_width(img: &image::DynamicImage) -> (r: u32)
    ensures
        img_grid(*img).len() > 0 ==> r as nat == grid_width(img_grid(*img)),
{
    img.width()
}

/// Relies on `image::DynamicImage::resize_exact` with the Lanczos filter:
/// resamples to exactly `nw` by `nh` pixels, not preserving aspect ratio.
#[verifier::external_body]
pub(crate) fn resize_lanczos(img: &image::DynamicImage, nw: u32, nh: u32) -> (r:
    image::DynamicImage)
    requires
        nw >= 1,
        nh >= 1,
    ensures
        img_grid(r) == lanczos_grid(img_grid(*img), nw as int, nh as int),
        grid_wf(img_grid(r)),
        img_grid(r).len() == nh as nat,
        grid_width(img_grid(r)) == nw as nat,
{
    img.resize_exact(nw, nh, image::imageops::FilterType::Lanczos3)
}

/// Relies on `image::DynamicImage::fliph` (`imageops::flip_horizontal`): the
/// output pixel at column `w - 1 - x`, row `y` is the input pixel at `x`, `y`.
#[verifier::external_body]
pub(crate) fn flip_h_image(img: &image::DynamicImage) -> (r: image::DynamicImage)
    requires
        grid_wf(img_grid(*img)),
    ensures
        img_grid(r) == flip_h_grid(img_grid(*img)),
{
    img.fliph()
}

/// Relies on `image::DynamicImage::flipv` (`imageops::flip_vertical`): the
/// output pixel at column `x`, row `h - 1 - y` is the input pixel at `x`, `y`.
#[verifier::external_body]
pub(crate) fn flip_v_image(img: &image::DynamicImage) -> (r: image::DynamicImage)
    requires
        grid_wf(img_grid(*img)),
    ensures
        img_grid(r) == flip_v_grid(img_grid(*img)),
{
    img.flipv()
}

/// Relies on `image::DynamicImage::rotate90` (`imageops::rotate90`): a
/// quarter turn clockwise; the output pixel at column `h - 1 - y`, row `x`
/// is the input pixel at `x`, `y`.
#[verifier::external_body]
pub(crate) fn rotate90_image(img: &image::DynamicImage) -> (r: image::DynamicImage)
    requires
        grid_wf(img_grid(*img)),
    ensures
        img_grid(r) == rot90_grid(img_grid(*img)),
{
    img.rotate90()
}

/// Relies on `image::DynamicImage::rotate180` (`imageops::rotate180`): the
/// output pixel at column `w - 1 - x`, row `h - 1 - y` is the input pixel at
/// `x`, `y`.
#[verifier::external_body]
pub(crate) fn rotate180_image(img: &image::DynamicImage) -> (r: image::DynamicImage)
    requires
        grid_wf(img_grid(*img)),
    ensures
        img_grid(r) == rot180_grid(img_grid(*img)),
{
    img.rotate180()
}

/// Relies on `image::DynamicImage::rotate270` (`imageops::rotate270`): a
/// quarter turn counterclockwise; the output pixel at column `y`, row
/// `w - 1 - x` is the input pixel at `x`, `y`.
#[verifier::external_body]
pub(crate) fn rotate270_image(img: &image::DynamicImage) -> (r: image::DynamicImage)
    requires
        grid_wf(img_grid(*img)),
    ensures
        img_grid(r) == rot270_grid(img_grid(*img)),
{
    img.rotate270()
}

} // verus!
