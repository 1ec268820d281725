//! The automaton's grid and transition rule.
//!
//! A grid is a fixed `width x height` field of boolean cells stored in
//! row-major order.  The edge policy is wraparound: the grid is a torus,
//! so the left neighbor of column 0 is column `width - 1`, and likewise
//! for rows.  One generation is a pure function of the full prior
//! snapshot: every cell's next state is decided by its own state and the
//! live count of its eight neighbors, all read from the same snapshot.

use vstd::prelude::*;
use vstd::arithmetic::div_mod::lemma_fundamental_div_mod_converse;

verus! {

/// Largest accepted grid side.  Keeps `width * height` and the row-major
/// index arithmetic far away from any machine limit.
pub const MAX_DIM: u32 = 4096;

/// 1 for a live cell, 0 for a dead one: the contribution of one neighbor
/// to a live count.
pub open spec fn one_if(b: bool) -> int {
    if b {
        1
    } else {
        0
    }
}

/// Torus coordinate one step down (toward 0), wrapping at the edge.
pub open spec fn wrap_dec(v: int, m: int) -> int {
    if v == 0 {
        m - 1
    } else {
        v - 1
    }
}

/// Torus coordinate one step up, wrapping at the edge.
pub open spec fn wrap_inc(v: int, m: int) -> int {
    if v == m - 1 {
        0
    } else {
        v + 1
    }
}

/// The cell at column `x`, row `y` of a row-major snapshot of width `w`.
pub open spec fn alive_at(cells: Seq<bool>, w: int, x: int, y: int) -> bool {
    cells[y * w + x]
}

/// Number of live cells among the eight torus neighbors of `(x, y)`,
/// read from the snapshot `cells` alone.
pub open spec fn neighbor_count(cells: Seq<bool>, w: int, h: int, x: int, y: int) -> int {
    let xl = wrap_dec(x, w);
    let xr = wrap_inc(x, w);
    let yu = wrap_dec(y, h);
    let yd = wrap_inc(y, h);
    one_if(alive_at(cells, w, xl, yu)) + one_if(alive_at(cells, w, x, yu)) + one_if(
        alive_at(cells, w, xr, yu),
    ) + one_if(alive_at(cells, w, xl, y)) + one_if(alive_at(cells, w, xr, y)) + one_if(
        alive_at(cells, w, xl, yd),
    ) + one_if(alive_at(cells, w, x, yd)) + one_if(alive_at(cells, w, xr, yd))
}

/// The birth/death rule: a live cell survives with 2 or 3 live
/// neighbors, a dead cell is born with exactly 3.
pub open spec fn next_cell(alive: bool, n: int) -> bool {
    if alive {
        n == 2 || n == 3
    } else {
        n == 3
    }
}

/// The next state of the cell at row-major index `i`, decided entirely
/// by the prior snapshot `cells`.
pub open spec fn next_cell_at(cells: Seq<bool>, w: int, h: int, i: int) -> bool {
    next_cell(cells[i], neighbor_count(cells, w, h, i % w, i / w))
}

/// One full generation: the snapshot that the transition rule produces
/// from `cells`, every cell computed from the same prior snapshot.
pub open spec fn stepped(cells: Seq<bool>, w: int, h: int) -> Seq<bool> {
    Seq::new((w * h) as nat, |i: int| next_cell_at(cells, w, h, i))
}

/// `k` generations from `cells`.
pub open spec fn stepped_n(cells: Seq<bool>, w: int, h: int, k: nat) -> Seq<bool>
    decreases k,
{
    if k == 0 {
        cells
    } else {
        stepped(stepped_n(cells, w, h, (k - 1) as nat), w, h)
    }
}

/// The cell count of an accepted grid is far below any machine limit.
pub proof fn lemma_area_bound(w: int, h: int)
    requires
        0 <= w <= MAX_DIM,
        0 <= h <= MAX_DIM,
    ensures
        w * h <= 16777216,
{
    assert(w * h <= 16777216) by (nonlinear_arith)
        requires
            0 <= w <= 4096,
            0 <= h <= 4096,
    ;
}

/// Row-major indices of cells in bounds stay below the cell count.
pub proof fn lemma_rowmajor_in_range(w: int, h: int, x: int, y: int)
    requires
        0 <= x < w,
        0 <= y < h,
    ensures
        0 <= y * w + x < w * h,
{
    assert(0 <= y * w + x < w * h) by (nonlinear_arith)
        requires
            0 <= x < w,
            0 <= y < h,
    ;
}

/// A row-major index decomposes back into its column and row.
pub proof fn lemma_rowmajor_decompose(w: int, x: int, y: int)
    requires
        0 <= x < w,
        0 <= y,
    ensures
        (y * w + x) % w == x,
        (y * w + x) / w == y,
{
    lemma_fundamental_div_mod_converse(y * w + x, w, y, x);
}

/// One state container: a fixed-size field of cells on a torus.
pub struct Grid {
    pub width: u32,
    pub height: u32,
    pub cells: Vec<bool>,
}

impl Grid {
    /// The container holds exactly one cell per grid position and its
    /// sides are within the accepted range.  The lower bound of 3 per
    /// side keeps the eight torus neighbors eight distinct cells.
    pub open spec fn wf(self) -> bool {
        &&& 3 <= self.width <= MAX_DIM
        &&& 3 <= self.height <= MAX_DIM
        &&& self.cells@.len() == self.width * self.height
    }

    /// Both sides in range: the dimension check `try_new` performs.
    pub open spec fn dims_ok(width: u32, height: u32) -> bool {
        3 <= width <= MAX_DIM && 3 <= height <= MAX_DIM
    }

    /// Builds a grid from a row-major cell vector.  Returns `Some`
    /// exactly when the sides are in range and the vector holds one
    /// value per cell.
    pub fn try_new(width: u32, height: u32, cells: Vec<bool>) -> (r: Option<Grid>)
        ensures
            r is Some <==> (Self::dims_ok(width, height) && cells@.len() == width * height),
            r matches Some(g) ==> g.width == width && g.height == height && g.cells@ == cells@
                && g.wf(),
    {
        if 3 <= width && width <= MAX_DIM && 3 <= height && height <= MAX_DIM {
            proof {
                lemma_area_bound(width as int, height as int);
            }
            if cells.len() == (width as usize) * (height as usize) {
                Some(Grid { width, height, cells })
            } else {
                None
            }
        } else {
            None
        }
    }

    /// An all-dead grid of the given sides.
    pub fn dead(width: u32, height: u32) -> (r: Grid)
        requires
            Self::dims_ok(width, height),
        ensures
            r.wf(),
            r.width == width,
            r.height == height,
            forall|i: int| 0 <= i < r.cells@.len() ==> !r.cells@[i],
    {
        proof {
            lemma_area_bound(width as int, height as int);
        }
        let total: usize = (width as usize) * (height as usize);
        let mut cells: Vec<bool> = Vec::new();
        let mut i: usize = 0;
        while i < total
            invariant
                i <= total,
                cells@.len() == i,
                forall|j: int| 0 <= j < i ==> !cells@[j],
            decreases total - i,
        {
            cells.push(false);
            i = i + 1;
        }
        Grid { width, height, cells }
    }

    /// The cell at column `x`, row `y`.
    pub fn get(&self, x: u32, y: u32) -> (b: bool)
        requires
            self.wf(),
            x < self.width,
            y < self.height,
        ensures
            b == alive_at(self.cells@, self.width as int, x as int, y as int),
    {
        proof {
            lemma_area_bound(self.width as int, self.height as int);
            lemma_rowmajor_in_range(
                self.width as int,
                self.height as int,
                x as int,
                y as int,
            );
        }
        self.cells[(y as usize) * (self.width as usize) + (x as usize)]
    }

    /// Live count of the eight torus neighbors of `(x, y)`.
    pub fn count_neighbors(&self, x: u32, y: u32) -> (n: u32)
        requires
            self.wf(),
            x < self.width,
            y < self.height,
        ensures
            n == neighbor_count(
                self.cells@,
                self.width as int,
                self.height as int,
                x as int,
                y as int,
            ),
    {
        let xl: u32 = if x == 0 {
            self.width - 1
        } else {
            x - 1
        };
        let xr: u32 = if x == self.width - 1 {
            0
        } else {
            x + 1
        };
        let yu: u32 = if y == 0 {
            self.height - 1
        } else {
            y - 1
        };
        let yd: u32 = if y == self.height - 1 {
            0
        } else {
            y + 1
        };
        let mut n: u32 = 0;
        if self.get(xl, yu) {
            n = n + 1;
        }
        if self.get(x, yu) {
            n = n + 1;
        }
        if self.get(xr, yu) {
            n = n + 1;
        }
        if self.get(xl, y) {
            n = n + 1;
        }
        if self.get(xr, y) {
            n = n + 1;
        }
        if self.get(xl, yd) {
            n = n + 1;
        }
        if self.get(x, yd) {
            n = n + 1;
        }
        if self.get(xr, yd) {
            n = n + 1;
        }
        n
    }

    /// One generation: the transition rule applied to every cell, each
    /// decided by this grid's snapshot alone.
    pub fn next_generation(&self) -> (r: Grid)
        requires
            self.wf(),
        ensures
            r.wf(),
            r.width == self.width,
            r.height == self.height,
            r.cells@ == stepped(self.cells@, self.width as int, self.height as int),
    {
        let w = self.width;
        let h = self.height;
        proof {
            lemma_area_bound(w as int, h as int);
        }
        let mut cells: Vec<bool> = Vec::new();
        let mut y: u32 = 0;
        while y < h
            invariant
                self.wf(),
                w == self.width,
                h == self.height,
                y <= h,
                cells@.len() == (y as int) * (w as int),
                forall|j: int|
                    0 <= j < cells@.len() ==> cells@[j] == next_cell_at(
                        self.cells@,
                        w as int,
                        h as int,
                        j,
                    ),
            decreases h - y,
        {
            let mut x: u32 = 0;
            while x < w
                invariant
                    self.wf(),
                    w == self.width,
                    h == self.height,
                    y < h,
                    x <= w,
                    cells@.len() == (y as int) * (w as int) + (x as int),
                    forall|j: int|
                        0 <= j < cells@.len() ==> cells@[j] == next_cell_at(
                            self.cells@,
                            w as int,
                            h as int,
                            j,
                        ),
                decreases w - x,
            {
                let alive = self.get(x, y);
                let n = self.count_neighbors(x, y);
                let next = if alive {
                    n == 2 || n == 3
                } else {
                    n == 3
                };
                proof {
                    lemma_area_bound(w as int, h as int);
                    lemma_rowmajor_in_range(w as int, h as int, x as int, y as int);
                    lemma_rowmajor_decompose(w as int, x as int, y as int);
                }
                cells.push(next);
                x = x + 1;
            }
            proof {
                assert(((y as int) + 1) * (w as int) == (y as int) * (w as int) + (w as int))
                    by (nonlinear_arith);
            }
            y = y + 1;
        }
        let r = Grid { width: w, height: h, cells };
        proof {
            assert((h as int) * (w as int) == (w as int) * (h as int)) by (nonlinear_arith);
            assert(r.cells@ =~= stepped(self.cells@, w as int, h as int));
        }
        r
    }

    /// `k` generations from this grid.
    pub fn advanced(&self, k: u32) -> (r: Grid)
        requires
            self.wf(),
        ensures
            r.wf(),
            r.width == self.width,
            r.height == self.height,
            r.cells@ == stepped_n(self.cells@, self.width as int, self.height as int, k as nat),
    {
        let mut g = Grid { width: self.width, height: self.height, cells: self.cells.clone() };
        let mut i: u32 = 0;
        while i < k
            invariant
                g.wf(),
                g.width == self.width,
                g.height == self.height,
                i <= k,
                self.wf(),
                g.cells@ == stepped_n(
                    self.cells@,
                    self.width as int,
                    self.height as int,
                    i as nat,
                ),
            decreases k - i,
        {
            g = g.next_generation();
            i = i + 1;
        }
        g
    }
}

/// Every cell of one generation is `next_cell` of its prior state and
/// the live count of its neighbors, all taken from the prior snapshot:
/// the step is a pure function of the snapshot it reads.
pub proof fn lemma_step_uses_prior_snapshot(cells: Seq<bool>, w: int, h: int, x: int, y: int)
    requires
        0 <= x < w,
        0 <= y < h,
        cells.len() == w * h,
    ensures
        stepped(cells, w, h).len() == w * h,
        alive_at(stepped(cells, w, h), w, x, y) == next_cell(
            alive_at(cells, w, x, y),
            neighbor_count(cells, w, h, x, y),
        ),
{
    lemma_rowmajor_in_range(w, h, x, y);
    lemma_rowmajor_decompose(w, x, y);
}

/// The rule's boundary cases: a dead cell with exactly 3 live neighbors
/// is born, and a live cell with a single live neighbor dies.
pub proof fn lemma_rule_boundary_cases(cells: Seq<bool>, w: int, h: int, x: int, y: int)
    requires
        0 <= x < w,
        0 <= y < h,
        cells.len() == w * h,
    ensures
        !alive_at(cells, w, x, y) && neighbor_count(cells, w, h, x, y) == 3 ==> alive_at(
            stepped(cells, w, h),
            w,
            x,
            y,
        ),
        alive_at(cells, w, x, y) && neighbor_count(cells, w, h, x, y) == 1 ==> !alive_at(
            stepped(cells, w, h),
            w,
            x,
            y,
        ),
{
    lemma_step_uses_prior_snapshot(cells, w, h, x, y);
}

/// A still life, a fixed point of one generation, is unchanged after
/// any number of generations.
pub proof fn lemma_still_life(cells: Seq<bool>, w: int, h: int, k: nat)
    requires
        stepped(cells, w, h) == cells,
    ensures
        stepped_n(cells, w, h, k) == cells,
    decreases k,
{
    if k > 0 {
        lemma_still_life(cells, w, h, (k - 1) as nat);
    }
}

/// A configuration that two generations carry back to itself returns
/// to its original state after every even number of generations, and
/// stands at the other phase after every odd number: an oscillator of
/// period two comes back after exactly two steps.
pub proof fn lemma_period_two_oscillator(cells: Seq<bool>, w: int, h: int, k: nat)
    requires
        stepped(stepped(cells, w, h), w, h) == cells,
    ensures
        stepped_n(cells, w, h, 2 * k) == cells,
        stepped_n(cells, w, h, 2 * k + 1) == stepped(cells, w, h),
    decreases k,
{
    if k > 0 {
        lemma_period_two_oscillator(cells, w, h, (k - 1) as nat);
        assert(2 * k - 1 == 2 * (k - 1) + 1);
        assert(stepped_n(cells, w, h, 2 * k) == stepped(
            stepped_n(cells, w, h, (2 * k - 1) as nat),
            w,
            h,
        ));
    }
}

} // verus!
