use life_tower::engine::step_grid;
use life_tower::grid::GridState;

fn grid_of(size: usize, live: &[(usize, usize)]) -> GridState {
    let mut cells = vec![false; size * size];
    for &(r, c) in live {
        cells[r * size + c] = true;
    }
    GridState::from_cells(size, cells)
}

fn live_set(g: &GridState) -> Vec<(usize, usize)> {
    let mut out = Vec::new();
    for r in 0..g.size() {
        for c in 0..g.size() {
            if g.query(r, c) {
                out.push((r, c));
            }
        }
    }
    out
}

#[test]
fn block_is_stable() {
    let g = grid_of(6, &[(2, 2), (2, 3), (3, 2), (3, 3)]);
    let next = step_grid(&g);
    assert_eq!(live_set(&next), vec![(2, 2), (2, 3), (3, 2), (3, 3)]);
}

#[test]
fn blinker_oscillates_with_period_two() {
    let g = grid_of(6, &[(2, 1), (2, 2), (2, 3)]);
    let vertical = step_grid(&g);
    assert_eq!(live_set(&vertical), vec![(1, 2), (2, 2), (3, 2)]);
    let horizontal = step_grid(&vertical);
    assert_eq!(live_set(&horizontal), vec![(2, 1), (2, 2), (2, 3)]);
}

#[test]
fn all_alive_top_row_is_boundary_safe() {
    let g = grid_of(4, &[(0, 0), (0, 1), (0, 2), (0, 3)]);
    let next = step_grid(&g);
    // The missing row above contributes zero: the row ends die with one
    // neighbor each, the middle survives, and row 1 births two cells.
    assert_eq!(live_set(&next), vec![(0, 1), (0, 2), (1, 1), (1, 2)]);
}

#[test]
fn lonely_cell_dies_and_empty_grid_stays_empty() {
    let g = grid_of(4, &[(1, 1)]);
    let next = step_grid(&g);
    assert_eq!(live_set(&next), vec![]);
    let again = step_grid(&next);
    assert_eq!(live_set(&again), vec![]);
}

#[test]
fn overcrowded_cell_dies() {
    // A full 3x3 square: the center has eight live neighbors and dies.
    let g = grid_of(6, &[
        (1, 1), (1, 2), (1, 3),
        (2, 1), (2, 2), (2, 3),
        (3, 1), (3, 2), (3, 3),
    ]);
    let next = step_grid(&g);
    assert!(!next.query(2, 2));
    // Each edge midpoint has five live neighbors and dies too; each corner
    // has exactly three and survives.
    assert!(next.query(1, 1));
    assert!(next.query(1, 3));
    assert!(next.query(3, 1));
    assert!(next.query(3, 3));
    assert!(!next.query(1, 2));
    assert!(!next.query(2, 1));
    assert!(!next.query(2, 3));
    assert!(!next.query(3, 2));
}
