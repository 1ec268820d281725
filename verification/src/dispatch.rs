//! Workgroup extents of a compute dispatch.
//!
//! The compute step runs one thread per cell, grouped into square tiles
//! of a fixed side.  The dispatch extent along an axis is the number of
//! tiles needed to cover that axis: the rounded-up quotient of the grid
//! side by the tile side.  The extents are derived from the fixed grid
//! dimensions alone and are not stored as state.

use vstd::prelude::*;
use vstd::arithmetic::div_mod::lemma_fundamental_div_mod;
use vstd::arithmetic::div_mod::lemma_mod_bound;

verus! {

/// Side of one square compute tile, in cells.
pub const WORKGROUP_SIZE: u32 = 16;

/// Side of the simulated grid, in cells.
pub const GRID_SIZE: u32 = 64;

/// Rounded-up quotient.
pub open spec fn div_ceil(n: int, d: int) -> int {
    (n + d - 1) / d
}

/// Number of tiles of side `tile` needed to cover `cells` cells: the
/// least count whose combined extent reaches every cell.
pub fn workgroup_count(cells: u32, tile: u32) -> (r: u32)
    requires
        1 <= tile,
        cells <= u32::MAX - tile + 1,
    ensures
        r == div_ceil(cells as int, tile as int),
        r * tile >= cells,
        r * tile < cells + tile,
{
    proof {
        lemma_workgroups_cover(cells as int, tile as int);
    }
    (cells + (tile - 1)) / tile
}

/// The rounded-up quotient covers every cell and wastes less than one
/// whole tile: `div_ceil(n, d)` is the least count of `d`-sized tiles
/// that reaches `n`.
pub proof fn lemma_workgroups_cover(n: int, d: int)
    requires
        1 <= d,
        0 <= n,
    ensures
        div_ceil(n, d) * d >= n,
        div_ceil(n, d) * d < n + d,
{
    lemma_fundamental_div_mod(n + d - 1, d);
    lemma_mod_bound(n + d - 1, d);
    let q = (n + d - 1) / d;
    let r = (n + d - 1) % d;
    assert(q * d == d * q) by (nonlinear_arith);
    assert(q * d == n + d - 1 - r);
}

} // verus!
