//! Grid scan: the top-left corners of the candidate tiles of an image.

use vstd::prelude::*;
use vstd::arithmetic::div_mod::lemma_fundamental_div_mod;
use vstd::arithmetic::div_mod::lemma_fundamental_div_mod_converse;

verus! {

/// The positions along one axis at which a tile of length `tile` fits into
/// an image of length `extent`: `0, stride, 2 * stride, ...` up to
/// `extent - tile`. None where the tile is longer than the image.
pub open spec fn axis(extent: u32, tile: u32, stride: u32) -> Seq<u32> {
    if tile > extent || stride == 0 {
        Seq::empty()
    } else {
        Seq::new(((extent - tile) as int / stride as int + 1) as nat, |i: int| (i * stride) as u32)
    }
}

/// The corners of the grid scan, row by row, `x` running fastest.
pub open spec fn grid_coords(
    width: u32,
    height: u32,
    tile_w: u32,
    tile_h: u32,
    stride_x: u32,
    stride_y: u32,
) -> Seq<(u32, u32)> {
    let xs = axis(width, tile_w, stride_x);
    let ys = axis(height, tile_h, stride_y);
    Seq::new(xs.len() * ys.len(), |k: int| (xs[k % (xs.len() as int)], ys[k / (xs.len() as int)]))
}

/// Every position of an axis is a multiple of the stride and leaves room
/// for the tile.
pub proof fn lemma_axis(extent: u32, tile: u32, stride: u32, i: int)
    requires
        0 <= i < axis(extent, tile, stride).len(),
    ensures
        tile <= extent,
        stride > 0,
        axis(extent, tile, stride)[i] == i * stride,
        i * stride + tile <= extent,
{
    let limit = (extent - tile) as int;
    let s = stride as int;
    lemma_fundamental_div_mod(limit, s);
    assert(0 <= i * s <= (limit / s) * s) by (nonlinear_arith)
        requires
            0 <= i <= limit / s,
            0 < s,
    ;
}

/// Every corner of the grid scan is the corner of a tile that lies inside
/// the image, and the corners are those of the two axes combined.
pub proof fn lemma_grid(
    width: u32,
    height: u32,
    tile_w: u32,
    tile_h: u32,
    stride_x: u32,
    stride_y: u32,
    k: int,
)
    requires
        0 <= k < grid_coords(width, height, tile_w, tile_h, stride_x, stride_y).len(),
    ensures
        grid_coords(width, height, tile_w, tile_h, stride_x, stride_y)[k].0 + tile_w <= width,
        grid_coords(width, height, tile_w, tile_h, stride_x, stride_y)[k].1 + tile_h <= height,
        grid_coords(width, height, tile_w, tile_h, stride_x, stride_y)[k].0 % stride_x == 0,
        grid_coords(width, height, tile_w, tile_h, stride_x, stride_y)[k].1 % stride_y == 0,
        stride_x > 0,
        stride_y > 0,
{
    let xs = axis(width, tile_w, stride_x);
    let ys = axis(height, tile_h, stride_y);
    let nx = xs.len() as int;
    let ny = ys.len() as int;
    assert(nx > 0 && ny > 0) by (nonlinear_arith)
        requires
            0 <= k < nx * ny,
            0 <= nx,
            0 <= ny,
    ;
    lemma_fundamental_div_mod(k, nx);
    let i = k % nx;
    let j = k / nx;
    assert(0 <= j < ny) by (nonlinear_arith)
        requires
            k == nx * j + i,
            0 <= i < nx,
            0 <= k < nx * ny,
    ;
    lemma_axis(width, tile_w, stride_x, i);
    lemma_axis(height, tile_h, stride_y, j);
    lemma_fundamental_div_mod_converse(i * stride_x, stride_x as int, i, 0);
    lemma_fundamental_div_mod_converse(j * stride_y, stride_y as int, j, 0);
}

/// The positions along one axis.
pub fn axis_positions(extent: u32, tile: u32, stride: u32) -> (positions: Vec<u32>)
    ensures
        positions@ == axis(extent, tile, stride),
{
    let mut positions: Vec<u32> = Vec::new();
    if tile > extent || stride == 0 {
        return positions;
    }
    let limit: u32 = extent - tile;
    let count: u64 = (limit / stride) as u64 + 1;
    let mut i: u64 = 0;
    while i < count
        invariant
            i <= count,
            stride > 0,
            tile <= extent,
            limit == extent - tile,
            count == (limit as int) / (stride as int) + 1,
            positions@ == Seq::new(i as nat, |k: int| (k * stride) as u32),
        decreases count - i,
    {
        proof {
            lemma_axis(extent, tile, stride, i as int);
        }
        let x: u64 = i * (stride as u64);
        positions.push(x as u32);
        i = i + 1;
    }
    positions
}

/// The corners of the candidate tiles of a `width` by `height` image for
/// tiles of `tile_w` by `tile_h` pixels that lie `stride_x` and `stride_y`
/// apart. Every tile lies inside the image; an image smaller than the tile
/// has no candidates.
pub fn grid_scan(
    width: u32,
    height: u32,
    tile_w: u32,
    tile_h: u32,
    stride_x: u32,
    stride_y: u32,
) -> (corners: Vec<(u32, u32)>)
    requires
        stride_x >= 1,
        stride_y >= 1,
    ensures
        corners@ == grid_coords(width, height, tile_w, tile_h, stride_x, stride_y),
        forall|k: int|
            0 <= k < corners@.len() ==> (#[trigger] corners@[k]).0 + tile_w <= width
                && corners@[k].1 + tile_h <= height,
{
    let xs = axis_positions(width, tile_w, stride_x);
    let ys = axis_positions(height, tile_h, stride_y);
    let nx = xs.len();
    let ny = ys.len();
    let ghost grid = grid_coords(width, height, tile_w, tile_h, stride_x, stride_y);
    let mut corners: Vec<(u32, u32)> = Vec::new();
    let mut j: usize = 0;
    while j < ny
        invariant
            j <= ny,
            nx == xs@.len(),
            ny == ys@.len(),
            xs@ == axis(width, tile_w, stride_x),
            ys@ == axis(height, tile_h, stride_y),
            grid == grid_coords(width, height, tile_w, tile_h, stride_x, stride_y),
            corners@ == grid.take(j * nx),
        decreases ny - j,
    {
        let mut i: usize = 0;
        proof {
            assert(0 <= j * nx && j * nx + nx <= ny * nx) by (nonlinear_arith)
                requires
                    0 <= j < ny,
                    0 <= nx,
            ;
        }
        while i < nx
            invariant
                i <= nx,
                j < ny,
                nx == xs@.len(),
                ny == ys@.len(),
                xs@ == axis(width, tile_w, stride_x),
                ys@ == axis(height, tile_h, stride_y),
                grid == grid_coords(width, height, tile_w, tile_h, stride_x, stride_y),
                j * nx + nx <= grid.len(),
                0 <= j * nx,
                corners@ == grid.take(j * nx + i),
            decreases nx - i,
        {
            proof {
                lemma_fundamental_div_mod_converse(j * nx + i, nx as int, j as int, i as int);
            }
            corners.push((xs[i], ys[j]));
            i = i + 1;
        }
        j = j + 1;
        proof {
            assert((j - 1) * nx + nx == j * nx) by (nonlinear_arith);
        }
    }
    proof {
        assert(ny * nx == nx * ny) by (nonlinear_arith);
        assert forall|k: int| 0 <= k < corners@.len() implies (#[trigger] corners@[k]).0 + tile_w
            <= width && corners@[k].1 + tile_h <= height by {
            lemma_grid(width, height, tile_w, tile_h, stride_x, stride_y, k);
        }
    }
    corners
}

} // verus!
