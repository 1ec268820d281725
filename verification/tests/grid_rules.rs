use gol::grid::Grid;

/// Builds a grid from string rows: '#' is a live cell, '.' a dead one.
fn grid_of(rows: &[&str]) -> Grid {
    let height = rows.len() as u32;
    let width = rows[0].len() as u32;
    let mut cells = Vec::new();
    for row in rows {
        assert_eq!(row.len() as u32, width);
        for ch in row.chars() {
            cells.push(ch == '#');
        }
    }
    Grid::try_new(width, height, cells).unwrap()
}

fn cells_of(g: &Grid) -> Vec<bool> {
    let mut out = Vec::new();
    for y in 0..g.height {
        for x in 0..g.width {
            out.push(g.get(x, y));
        }
    }
    out
}

/// An independent reference of the rule on a torus, written with modulo
/// arithmetic rather than the library's wrapped increments.
fn reference_step(width: u32, height: u32, cells: &[bool]) -> Vec<bool> {
    let (w, h) = (width as i64, height as i64);
    let mut out = Vec::new();
    for y in 0..h {
        for x in 0..w {
            let mut n = 0;
            for dy in [-1i64, 0, 1] {
                for dx in [-1i64, 0, 1] {
                    if dx == 0 && dy == 0 {
                        continue;
                    }
                    let nx = (x + dx + w) % w;
                    let ny = (y + dy + h) % h;
                    if cells[(ny * w + nx) as usize] {
                        n += 1;
                    }
                }
            }
            let alive = cells[(y * w + x) as usize];
            out.push(if alive { n == 2 || n == 3 } else { n == 3 });
        }
    }
    out
}

#[test]
fn rejects_bad_dimensions() {
    assert!(Grid::try_new(2, 4, vec![false; 8]).is_none());
    assert!(Grid::try_new(4, 2, vec![false; 8]).is_none());
    assert!(Grid::try_new(0, 0, vec![]).is_none());
    assert!(Grid::try_new(4097, 4, vec![false; 4097 * 4]).is_none());
    assert!(Grid::try_new(4, 4097, vec![false; 4 * 4097]).is_none());
}

#[test]
fn rejects_wrong_cell_count() {
    assert!(Grid::try_new(4, 4, vec![false; 15]).is_none());
    assert!(Grid::try_new(4, 4, vec![false; 17]).is_none());
    assert!(Grid::try_new(4, 4, vec![]).is_none());
}

#[test]
fn accepts_smallest_and_wide_grids() {
    let g = Grid::try_new(3, 3, vec![false; 9]).unwrap();
    assert_eq!((g.width, g.height), (3, 3));
    let g = Grid::try_new(4096, 3, vec![false; 4096 * 3]).unwrap();
    assert_eq!((g.width, g.height), (4096, 3));
}

#[test]
fn get_reads_row_major() {
    let g = grid_of(&["#..", ".#.", "..#"]);
    assert!(g.get(0, 0));
    assert!(!g.get(1, 0));
    assert!(g.get(1, 1));
    assert!(g.get(2, 2));
    assert!(!g.get(2, 0));
}

#[test]
fn neighbor_count_interior_and_wrapped() {
    let g = grid_of(&["##...", "#....", ".....", ".....", "....#"]);
    // Interior of the little block.
    assert_eq!(g.count_neighbors(1, 1), 3);
    // The corner (0, 0) sees the cell at (4, 4) across both edges.
    assert_eq!(g.count_neighbors(0, 0), 3);
    // A far cell sees nothing.
    assert_eq!(g.count_neighbors(3, 3), 1);
}

#[test]
fn dead_cell_with_three_neighbors_is_born() {
    let g = grid_of(&[".....", ".###.", ".....", ".....", "....."]);
    assert!(!g.get(2, 0));
    assert_eq!(g.count_neighbors(2, 0), 3);
    let next = g.next_generation();
    assert!(next.get(2, 0));
}

#[test]
fn live_cell_with_one_neighbor_dies() {
    let g = grid_of(&[".....", ".###.", ".....", ".....", "....."]);
    assert!(g.get(1, 1));
    assert_eq!(g.count_neighbors(1, 1), 1);
    let next = g.next_generation();
    assert!(!next.get(1, 1));
}

#[test]
fn block_still_life_is_unchanged() {
    let g = grid_of(&["....", ".##.", ".##.", "...."]);
    let before = cells_of(&g);
    assert_eq!(cells_of(&g.next_generation()), before);
    assert_eq!(cells_of(&g.advanced(7)), before);
    assert_eq!(cells_of(&g.advanced(32)), before);
}

#[test]
fn blinker_oscillates_with_period_two() {
    let horizontal = grid_of(&[".....", ".....", ".###.", ".....", "....."]);
    let vertical = grid_of(&[".....", "..#..", "..#..", "..#..", "....."]);
    let one = horizontal.next_generation();
    assert_eq!(cells_of(&one), cells_of(&vertical));
    let two = one.next_generation();
    assert_eq!(cells_of(&two), cells_of(&horizontal));
    assert_eq!(cells_of(&horizontal.advanced(2)), cells_of(&horizontal));
    assert_ne!(cells_of(&horizontal.advanced(1)), cells_of(&horizontal));
}

#[test]
fn single_step_matches_reference_on_handcrafted_grids() {
    let samples = [
        vec!["....", ".##.", ".##.", "...."],
        vec![".....", ".....", ".###.", ".....", "....."],
        vec!["#####", "#####", "#####", "#####", "#####"],
        vec!["#..#", "....", "....", "#..#"],
        vec!["###", "###", "###"],
    ];
    for rows in &samples {
        let g = grid_of(rows);
        let got = cells_of(&g.next_generation());
        let want = reference_step(g.width, g.height, &cells_of(&g));
        assert_eq!(got, want);
    }
}

#[test]
fn single_step_matches_reference_on_generated_grids() {
    // A fixed linear congruential generator: reproducible pseudo-random
    // grids of several shapes.
    let mut state: u64 = 0x2545F4914F6CDD1D;
    let mut next = || {
        state = state.wrapping_mul(6364136223846793005).wrapping_add(1442695040888963407);
        (state >> 33) & 1 == 1
    };
    for (w, h) in [(3u32, 3u32), (5, 7), (8, 8), (16, 4), (64, 64)] {
        let cells: Vec<bool> = (0..(w * h)).map(|_| next()).collect();
        let g = Grid::try_new(w, h, cells).unwrap();
        let got = cells_of(&g.next_generation());
        let want = reference_step(w, h, &cells_of(&g));
        assert_eq!(got, want);
    }
}

#[test]
fn advancing_zero_generations_is_identity() {
    let g = grid_of(&["#..", ".#.", "###"]);
    assert_eq!(cells_of(&g.advanced(0)), cells_of(&g));
}

#[test]
fn dead_grid_stays_dead() {
    let g = Grid::dead(6, 4);
    assert_eq!((g.width, g.height), (6, 4));
    assert!(cells_of(&g).iter().all(|c| !c));
    assert!(cells_of(&g.next_generation()).iter().all(|c| !c));
}
