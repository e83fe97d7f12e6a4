//! The per-file pipeline: decode, halve with Lanczos resampling, then apply
//! the transform the orientation tag calls for. Each file is handled on its
//! own: the result for one byte string depends on those bytes alone.

use vstd::prelude::*;
use crate::grid::{grid_wf, grid_width, grid_height, oriented_grid, swaps_axes,
    lemma_orientation_identity, lemma_oriented_wf, lemma_rot90_wf, lemma_rot270_wf};
use crate::imaging::{img_grid, decoded_grid, lanczos_grid, decode_image, image_width,
    image_height, resize_lanczos, flip_h_image, flip_v_image, rotate90_image, rotate180_image,
    rotate270_image};
use crate::meta::{exif_orientation, read_orientation};

verus! {

/// Why one file of the batch was given up; the batch itself goes on.
#[derive(Debug)]
pub enum ResizeError {
    /// The bytes did not decode as an image; the decoder's error is kept for
    /// reporting.
    Decode(image::ImageError),
    /// The image is too small to halve: its width or height is below 2, so
    /// half of it would have no pixels.
    TooSmall,
}

impl ResizeError {
    /// A short description of the failure, for diagnostics.
    pub fn describe(&self) -> (r: &'static str)
        ensures
            (*self is Decode) == (r@ == "failed to decode image"@),
            (*self is TooSmall) == (r@ == "image too small to halve"@),
    {
        proof {
            reveal_strlit("failed to decode image");
            reveal_strlit("image too small to halve");
            assert("failed to decode image"@.len() != "image too small to halve"@.len());
        }
        match self {
            ResizeError::Decode(_) => "failed to decode image",
            ResizeError::TooSmall => "image too small to halve",
        }
    }
}

/// The orientation code that governs a file: the tag it carries, or 1 (the
/// identity) when it carries none.
pub open spec fn orientation_code_of(bytes: Seq<u8>) -> u32 {
    match exif_orientation(bytes) {
        Some(code) => code,
        None => 1u32,
    }
}

/// Whether a decoded grid is large enough to halve: both halved dimensions
/// must keep at least one pixel.
pub open spec fn halvable(g: Seq<Seq<u32>>) -> bool {
    grid_height(g) / 2 >= 1 && grid_width(g) / 2 >= 1
}

/// A grid resampled to half its width and half its height (floor division)
/// with the Lanczos kernel.
pub open spec fn half_grid(g: Seq<Seq<u32>>) -> Seq<Seq<u32>> {
    lanczos_grid(g, grid_width(g) as int / 2, grid_height(g) as int / 2)
}

/// The pixel grid the pipeline owes for a decodable, halvable input: the
/// decoded grid, resampled to half its width and half its height (floor
/// division), then presented upright per the file's orientation code.
pub open spec fn processed_grid(bytes: Seq<u8>) -> Seq<Seq<u32>> {
    oriented_grid(half_grid(decoded_grid(bytes)->0), orientation_code_of(bytes))
}

/// A file that carries no orientation tag, or the identity tag 1, comes out
/// as a plain half-scale resample: no geometric transform touches its pixels.
pub proof fn lemma_unoriented_is_plain_resample(bytes: Seq<u8>)
    requires
        exif_orientation(bytes) is None || exif_orientation(bytes) == Some(1u32),
    ensures
        processed_grid(bytes) == half_grid(decoded_grid(bytes)->0),
{
    lemma_orientation_identity(half_grid(decoded_grid(bytes)->0), orientation_code_of(bytes));
}

/// Apply the transform a given orientation code calls for.
///
/// The fixed table: 2 mirrors horizontally; 3 turns by a half; 4 mirrors
/// vertically; 5 turns a quarter clockwise then mirrors horizontally; 6 turns
/// a quarter clockwise; 7 turns a quarter counterclockwise then mirrors
/// horizontally; 8 turns a quarter counterclockwise. Every other code,
/// 1 included, changes nothing.
pub fn apply_orientation(img: image::DynamicImage, orientation: u32) -> (r: image::DynamicImage)
    requires
        grid_wf(img_grid(img)),
    ensures
        img_grid(r) == oriented_grid(img_grid(img), orientation),
{
    if orientation == 2 {
        flip_h_image(&img)
    } else if orientation == 3 {
        rotate180_image(&img)
    } else if orientation == 4 {
        flip_v_image(&img)
    } else if orientation == 5 {
        let turned = rotate90_image(&img);
        proof {
            lemma_rot90_wf(img_grid(img));
        }
        flip_h_image(&turned)
    } else if orientation == 6 {
        rotate90_image(&img)
    } else if orientation == 7 {
        let turned = rotate270_image(&img);
        proof {
            lemma_rot270_wf(img_grid(img));
        }
        flip_h_image(&turned)
    } else if orientation == 8 {
        rotate270_image(&img)
    } else {
        proof {
            lemma_orientation_identity(img_grid(img), orientation);
        }
        img
    }
}

/// Process one file's bytes: decode, halve, reorient.
///
/// Succeeds exactly when the bytes decode and the decoded image is at least
/// 2 pixels wide and 2 pixels high; the result then holds `processed_grid`
/// of the bytes, with the halved dimensions, swapped exactly when the
/// orientation code turns the image by a quarter (codes 5..=8). Bytes that
/// do not decode give `Decode`; a decodable image too small to halve gives
/// `TooSmall`.
pub fn process_jpeg(bytes: &Vec<u8>) -> (r: Result<image::DynamicImage, ResizeError>)
    ensures
        r is Ok <==> (decoded_grid(bytes@) matches Some(g) && halvable(g)),
        decoded_grid(bytes@) is None ==> (r matches Err(e) && e is Decode),
        (decoded_grid(bytes@) matches Some(g) && !halvable(g)) ==> (r matches Err(e)
            && e is TooSmall),
        r matches Ok(img) ==> {
            let g = decoded_grid(bytes@)->0;
            let code = orientation_code_of(bytes@);
            &&& img_grid(img) == processed_grid(bytes@)
            &&& grid_wf(img_grid(img))
            &&& swaps_axes(code) ==> grid_height(img_grid(img)) == grid_width(g) / 2
                && grid_width(img_grid(img)) == grid_height(g) / 2
            &&& !swaps_axes(code) ==> grid_height(img_grid(img)) == grid_height(g) / 2
                && grid_width(img_grid(img)) == grid_width(g) / 2
        },
{
    let img = match decode_image(bytes) {
        Ok(img) => img,
        Err(e) => {
            return Err(ResizeError::Decode(e));
        },
    };
    let h = image_height(&img);
    if h < 2 {
        return Err(ResizeError::TooSmall);
    }
    let w = image_width(&img);
    if w < 2 {
        return Err(ResizeError::TooSmall);
    }
    let half = resize_lanczos(&img, w / 2, h / 2);
    let code = match read_orientation(bytes) {
        Some(code) => code,
        None => 1,
    };
    proof {
        lemma_oriented_wf(img_grid(half), code);
    }
    let upright = apply_orientation(half, code);
    Ok(upright)
}

} // verus!
