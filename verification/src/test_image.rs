//! Layout of the calibration test image.
//!
//! The test image is a flat buffer of RGB pixels holding, in order: a gray
//! gradient, a red gradient, a green gradient, a blue gradient (each of
//! `GRADIENT_LEN` samples), and a 3-D RGB sampling cube of
//! `TABLE_SIZE`^3 entries. The functions here map a position inside one of
//! those regions to its pixel index in the buffer, and the lemmas show that
//! the regions fit in the image and do not collide.

use vstd::prelude::*;

verus! {

/// Number of samples in each of the four gradient ramps.
pub const GRADIENT_LEN: usize = 131072;

/// Side length of the 3-D RGB sampling cube.
pub const TABLE_SIZE: usize = 144;

/// Horizontal resolution of the test image.
pub const RES_X: usize = 2560;

/// Vertical resolution of the test image.
pub const RES_Y: usize = 1440;

/// Pixel index of sample `idx` of the gray gradient.
pub fn gray_idx(idx: usize) -> (r: usize)
    requires
        idx < GRADIENT_LEN,
    ensures
        r == idx,
        r < RES_X * RES_Y,
{
    idx
}

/// Pixel index of sample `idx` of the red gradient.
pub fn red_idx(idx: usize) -> (r: usize)
    requires
        idx < GRADIENT_LEN,
    ensures
        r == GRADIENT_LEN + idx,
        r < RES_X * RES_Y,
{
    GRADIENT_LEN + idx
}

/// Pixel index of sample `idx` of the green gradient.
pub fn green_idx(idx: usize) -> (r: usize)
    requires
        idx < GRADIENT_LEN,
    ensures
        r == 2 * GRADIENT_LEN + idx,
        r < RES_X * RES_Y,
{
    GRADIENT_LEN * 2 + idx
}

/// Pixel index of sample `idx` of the blue gradient.
pub fn blue_idx(idx: usize) -> (r: usize)
    requires
        idx < GRADIENT_LEN,
    ensures
        r == 3 * GRADIENT_LEN + idx,
        r < RES_X * RES_Y,
{
    GRADIENT_LEN * 3 + idx
}

/// Pixel index of entry `(r_idx, g_idx, b_idx)` of the RGB sampling cube.
pub fn rgb_idx(r_idx: usize, g_idx: usize, b_idx: usize) -> (r: usize)
    requires
        r_idx < TABLE_SIZE,
        g_idx < TABLE_SIZE,
        b_idx < TABLE_SIZE,
    ensures
        r == 4 * GRADIENT_LEN + r_idx * TABLE_SIZE * TABLE_SIZE + g_idx * TABLE_SIZE + b_idx,
        4 * GRADIENT_LEN <= r < RES_X * RES_Y,
{
    (GRADIENT_LEN * 4) + (r_idx * TABLE_SIZE * TABLE_SIZE) + (g_idx * TABLE_SIZE) + b_idx
}

/// All five regions together fit in the pixel buffer: every index the
/// functions above can return is below `RES_X * RES_Y`.
pub proof fn lemma_regions_fit()
    ensures
        4 * GRADIENT_LEN + TABLE_SIZE * TABLE_SIZE * TABLE_SIZE <= RES_X * RES_Y,
{
}

/// Distinct coordinates in the RGB sampling cube map to distinct pixels.
pub proof fn lemma_rgb_idx_injective(r1: int, g1: int, b1: int, r2: int, g2: int, b2: int)
    requires
        0 <= r1 < TABLE_SIZE,
        0 <= g1 < TABLE_SIZE,
        0 <= b1 < TABLE_SIZE,
        0 <= r2 < TABLE_SIZE,
        0 <= g2 < TABLE_SIZE,
        0 <= b2 < TABLE_SIZE,
        r1 * TABLE_SIZE * TABLE_SIZE + g1 * TABLE_SIZE + b1 == r2 * TABLE_SIZE * TABLE_SIZE + g2
            * TABLE_SIZE + b2,
    ensures
        r1 == r2,
        g1 == g2,
        b1 == b2,
{
}

} // verus!
