//! Mathematical model of an image as a rectangular grid of pixels.
//!
//! A grid is a sequence of rows, each row a sequence of pixel values. The
//! geometric transforms that undo an EXIF orientation are defined here as
//! spec functions, together with the lemmas that describe how they move
//! individual pixels and what they do to the grid's dimensions.

use vstd::prelude::*;

verus! {

/// Number of pixel columns: the length of the first row (0 for an empty grid).
pub open spec fn grid_width(g: Seq<Seq<u32>>) -> nat {
    if g.len() == 0 {
        0
    } else {
        g[0].len()
    }
}

/// Number of pixel rows.
pub open spec fn grid_height(g: Seq<Seq<u32>>) -> nat {
    g.len()
}

/// A grid is well formed when it is rectangular: every row has the same length.
pub open spec fn grid_wf(g: Seq<Seq<u32>>) -> bool {
    forall|r: int| 0 <= r < g.len() ==> #[trigger] g[r].len() == grid_width(g)
}

/// Mirror each row: the pixel at column `c` comes from column `w - 1 - c`.
pub open spec fn flip_h_grid(g: Seq<Seq<u32>>) -> Seq<Seq<u32>> {
    Seq::new(g.len(), |r: int| Seq::new(grid_width(g), |c: int| g[r][grid_width(g) - 1 - c]))
}

/// Reverse the order of the rows.
pub open spec fn flip_v_grid(g: Seq<Seq<u32>>) -> Seq<Seq<u32>> {
    Seq::new(g.len(), |r: int| Seq::new(grid_width(g), |c: int| g[g.len() - 1 - r][c]))
}

/// Quarter turn clockwise: the result has `w` rows of `h` pixels, and the
/// pixel at row `r`, column `c` comes from row `h - 1 - c`, column `r`.
pub open spec fn rot90_grid(g: Seq<Seq<u32>>) -> Seq<Seq<u32>> {
    Seq::new(grid_width(g), |r: int| Seq::new(g.len(), |c: int| g[g.len() - 1 - c][r]))
}

/// Half turn: both axes are mirrored.
pub open spec fn rot180_grid(g: Seq<Seq<u32>>) -> Seq<Seq<u32>> {
    Seq::new(
        g.len(),
        |r: int| Seq::new(grid_width(g), |c: int| g[g.len() - 1 - r][grid_width(g) - 1 - c]),
    )
}

/// Quarter turn counterclockwise: the pixel at row `r`, column `c` comes from
/// row `c`, column `w - 1 - r`.
pub open spec fn rot270_grid(g: Seq<Seq<u32>>) -> Seq<Seq<u32>> {
    Seq::new(grid_width(g), |r: int| Seq::new(g.len(), |c: int| g[c][grid_width(g) - 1 - r]))
}

/// The transform that presents a grid upright, by EXIF orientation code.
/// Codes outside 2..=8 (including 1 and anything unrecognized) are identity.
pub open spec fn oriented_grid(g: Seq<Seq<u32>>, code: u32) -> Seq<Seq<u32>> {
    if code == 2 {
        flip_h_grid(g)
    } else if code == 3 {
        rot180_grid(g)
    } else if code == 4 {
        flip_v_grid(g)
    } else if code == 5 {
        flip_h_grid(rot90_grid(g))
    } else if code == 6 {
        rot90_grid(g)
    } else if code == 7 {
        flip_h_grid(rot270_grid(g))
    } else if code == 8 {
        rot270_grid(g)
    } else {
        g
    }
}

/// Orientation codes 5 through 8 turn the image by a quarter, so they swap
/// the output's width and height relative to the input's.
pub open spec fn swaps_axes(code: u32) -> bool {
    5 <= code <= 8
}

/// A horizontal flip keeps the dimensions and is rectangular again.
pub proof fn lemma_flip_h_wf(g: Seq<Seq<u32>>)
    ensures
        grid_wf(flip_h_grid(g)),
        grid_height(flip_h_grid(g)) == grid_height(g),
        grid_wf(g) ==> grid_width(flip_h_grid(g)) == grid_width(g),
{
    if g.len() > 0 {
        assert(flip_h_grid(g)[0].len() == grid_width(g));
    }
}

/// A vertical flip keeps the dimensions and is rectangular again.
pub proof fn lemma_flip_v_wf(g: Seq<Seq<u32>>)
    ensures
        grid_wf(flip_v_grid(g)),
        grid_height(flip_v_grid(g)) == grid_height(g),
        grid_wf(g) ==> grid_width(flip_v_grid(g)) == grid_width(g),
{
    if g.len() > 0 {
        assert(flip_v_grid(g)[0].len() == grid_width(g));
    }
}

/// A half turn keeps the dimensions and is rectangular again.
pub proof fn lemma_rot180_wf(g: Seq<Seq<u32>>)
    ensures
        grid_wf(rot180_grid(g)),
        grid_height(rot180_grid(g)) == grid_height(g),
        grid_wf(g) ==> grid_width(rot180_grid(g)) == grid_width(g),
{
    if g.len() > 0 {
        assert(rot180_grid(g)[0].len() == grid_width(g));
    }
}

/// A clockwise quarter turn swaps the dimensions and is rectangular again.
pub proof fn lemma_rot90_wf(g: Seq<Seq<u32>>)
    ensures
        grid_wf(rot90_grid(g)),
        grid_height(rot90_grid(g)) == grid_width(g),
        grid_width(g) > 0 ==> grid_width(rot90_grid(g)) == grid_height(g),
{
    if grid_width(g) > 0 {
        assert(rot90_grid(g)[0].len() == g.len());
    }
}

/// A counterclockwise quarter turn swaps the dimensions and is rectangular again.
pub proof fn lemma_rot270_wf(g: Seq<Seq<u32>>)
    ensures
        grid_wf(rot270_grid(g)),
        grid_height(rot270_grid(g)) == grid_width(g),
        grid_width(g) > 0 ==> grid_width(rot270_grid(g)) == grid_height(g),
{
    if grid_width(g) > 0 {
        assert(rot270_grid(g)[0].len() == g.len());
    }
}

/// An orientation code of 1, or any code outside 2..=8, changes nothing:
/// presenting such a grid upright returns exactly the same pixels.
pub proof fn lemma_orientation_identity(g: Seq<Seq<u32>>, code: u32)
    requires
        !(2 <= code <= 8),
    ensures
        oriented_grid(g, code) == g,
{
}

/// Where each pixel of a horizontally flipped grid comes from.
pub proof fn lemma_flip_h_pixel(g: Seq<Seq<u32>>, x: int, y: int)
    requires
        grid_wf(g),
        0 <= y < grid_height(g),
        0 <= x < grid_width(g),
    ensures
        flip_h_grid(g)[y][x] == g[y][grid_width(g) - 1 - x],
{
}

/// Where each pixel of a vertically flipped grid comes from.
pub proof fn lemma_flip_v_pixel(g: Seq<Seq<u32>>, x: int, y: int)
    requires
        grid_wf(g),
        0 <= y < grid_height(g),
        0 <= x < grid_width(g),
    ensures
        flip_v_grid(g)[y][x] == g[grid_height(g) - 1 - y][x],
{
}

/// Where each pixel of a half-turned grid comes from.
pub proof fn lemma_rot180_pixel(g: Seq<Seq<u32>>, x: int, y: int)
    requires
        grid_wf(g),
        0 <= y < grid_height(g),
        0 <= x < grid_width(g),
    ensures
        rot180_grid(g)[y][x] == g[grid_height(g) - 1 - y][grid_width(g) - 1 - x],
{
}

/// Where each pixel of a clockwise quarter turn comes from: the source pixel
/// at column `sx`, row `sy` lands at column `h - 1 - sy`, row `sx`.
pub proof fn lemma_rot90_pixel(g: Seq<Seq<u32>>, sx: int, sy: int)
    requires
        grid_wf(g),
        0 <= sy < grid_height(g),
        0 <= sx < grid_width(g),
    ensures
        rot90_grid(g)[sx][grid_height(g) - 1 - sy] == g[sy][sx],
{
}

/// Where each pixel of a counterclockwise quarter turn comes from: the source
/// pixel at column `sx`, row `sy` lands at column `sy`, row `w - 1 - sx`.
pub proof fn lemma_rot270_pixel(g: Seq<Seq<u32>>, sx: int, sy: int)
    requires
        grid_wf(g),
        0 <= sy < grid_height(g),
        0 <= sx < grid_width(g),
    ensures
        rot270_grid(g)[grid_width(g) - 1 - sx][sy] == g[sy][sx],
{
}

/// Orientation code 5 (quarter turn clockwise, then horizontal flip) is the
/// transpose: the source pixel at column `sx`, row `sy` lands at column `sy`,
/// row `sx`.
pub proof fn lemma_orientation5_pixel(g: Seq<Seq<u32>>, sx: int, sy: int)
    requires
        grid_wf(g),
        0 <= sy < grid_height(g),
        0 <= sx < grid_width(g),
    ensures
        oriented_grid(g, 5)[sx][sy] == g[sy][sx],
{
}

/// Orientation code 7 (quarter turn counterclockwise, then horizontal flip)
/// is the anti-transpose: the source pixel at column `sx`, row `sy` lands at
/// column `h - 1 - sy`, row `w - 1 - sx`.
pub proof fn lemma_orientation7_pixel(g: Seq<Seq<u32>>, sx: int, sy: int)
    requires
        grid_wf(g),
        0 <= sy < grid_height(g),
        0 <= sx < grid_width(g),
    ensures
        oriented_grid(g, 7)[grid_width(g) - 1 - sx][grid_height(g) - 1 - sy] == g[sy][sx],
{
}

/// Presenting a grid upright always yields a rectangular grid, whose
/// dimensions are those of the input, swapped exactly for codes 5..=8.
pub proof fn lemma_oriented_wf(g: Seq<Seq<u32>>, code: u32)
    requires
        grid_wf(g),
        grid_width(g) > 0,
    ensures
        grid_wf(oriented_grid(g, code)),
        swaps_axes(code) ==> grid_height(oriented_grid(g, code)) == grid_width(g)
            && grid_width(oriented_grid(g, code)) == grid_height(g),
        !swaps_axes(code) ==> grid_height(oriented_grid(g, code)) == grid_height(g)
            && grid_width(oriented_grid(g, code)) == grid_width(g),
{
    lemma_flip_h_wf(g);
    lemma_flip_v_wf(g);
    lemma_rot180_wf(g);
    lemma_rot90_wf(g);
    lemma_rot270_wf(g);
    lemma_flip_h_wf(rot90_grid(g));
    lemma_flip_h_wf(rot270_grid(g));
}

} // verus!
