//! The pseudo-random initial population.
//!
//! At construction the first state container is seeded with each cell
//! independently live with a fixed probability.  The samples come from
//! an outside generator, so nothing is promised of the contents; the
//! thresholding of each sample and the shape of the grid are verified.

use vstd::prelude::*;
use crate::grid::Grid;
use crate::grid::lemma_area_bound;

verus! {

/// A cell is seeded live when a uniform 32-bit sample lies strictly
/// above this threshold: about three cells in ten.
pub const SEED_THRESHOLD: u32 = 3006477107;

/// Relies on rand::random: one sample from the thread-local generator.
/// Nothing is promised of its value.
#[verifier::external_body]
fn random_u32() -> u32 {
    rand::random::<u32>()
}

/// Whether one sample seeds a live cell.
pub fn seed_cell(sample: u32) -> (b: bool)
    ensures
        b == (sample > SEED_THRESHOLD),
{
    sample > SEED_THRESHOLD
}

/// A grid of the given sides, each cell independently seeded from the
/// generator.  The shape is exact; the contents are whatever the
/// samples gave.
pub fn random_grid(width: u32, height: u32) -> (g: Grid)
    requires
        Grid::dims_ok(width, height),
    ensures
        g.wf(),
        g.width == width,
        g.height == height,
{
    proof {
        lemma_area_bound(width as int, height as int);
    }
    let total: usize = (width as usize) * (height as usize);
    let mut cells: Vec<bool> = Vec::new();
    let mut i: usize = 0;
    while i < total
        invariant
            i <= total,
            cells@.len() == i,
        decreases total - i,
    {
        cells.push(seed_cell(random_u32()));
        i = i + 1;
    }
    Grid { width, height, cells }
}

} // verus!
