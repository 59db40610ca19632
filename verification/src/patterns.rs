//! Classical patterns of the rule, proved once and for all grid sizes.
//!
//! Each lemma characterizes a grid by where its live cells are and states
//! what one engine pass does to it: a 2x2 block is a still life, a 3-cell
//! blinker oscillates with period two, and a cell of the top row draws its
//! neighbors from the two existing rows alone.

use vstd::prelude::*;
use crate::engine::live_neighbors;
use crate::engine::next_grid;
use crate::engine::lemma_next_grid_cell;
use crate::engine::row_count;
use crate::grid::cell_at;

verus! {

/// Stability of the block: on a grid whose live cells are exactly the 2x2
/// block with top-left corner `(r, c)` — so the block has a dead margin on
/// every side — one engine pass changes nothing.
pub proof fn lemma_block_stable(cells: Seq<bool>, size: int, r: int, c: int)
    requires
        0 <= r,
        r + 1 < size,
        0 <= c,
        c + 1 < size,
        cells.len() == size * size,
        forall|x: int, y: int|
            #[trigger] cell_at(cells, size, x, y) <==> (r <= x <= r + 1 && c <= y <= c + 1),
    ensures
        forall|x: int, y: int|
            #[trigger] cell_at(next_grid(cells, size), size, x, y) <==> (r <= x <= r + 1 && c <= y
                <= c + 1),
{
    assert forall|x: int, y: int|
        #[trigger] cell_at(next_grid(cells, size), size, x, y) <==> (r <= x <= r + 1 && c <= y <= c
            + 1) by {
        if 0 <= x < size && 0 <= y < size {
            lemma_next_grid_cell(cells, size, x, y);
        }
    }
}

/// Half a blinker period: on a grid whose live cells are exactly the three
/// horizontally adjacent cells of row `r` at columns `c-1 ..= c+1`, one
/// engine pass leaves exactly the three vertically adjacent cells of column
/// `c` at rows `r-1 ..= r+1`.
pub proof fn lemma_blinker_horizontal_to_vertical(cells: Seq<bool>, size: int, r: int, c: int)
    requires
        1 <= r,
        r + 1 < size,
        1 <= c,
        c + 1 < size,
        cells.len() == size * size,
        forall|x: int, y: int|
            #[trigger] cell_at(cells, size, x, y) <==> (x == r && c - 1 <= y <= c + 1),
    ensures
        forall|x: int, y: int|
            #[trigger] cell_at(next_grid(cells, size), size, x, y) <==> (y == c && r - 1 <= x <= r
                + 1),
{
    assert forall|x: int, y: int|
        #[trigger] cell_at(next_grid(cells, size), size, x, y) <==> (y == c && r - 1 <= x <= r
            + 1) by {
        if 0 <= x < size && 0 <= y < size {
            lemma_next_grid_cell(cells, size, x, y);
        }
    }
}

/// The other half of the period: a vertical blinker at column `c`, rows
/// `r-1 ..= r+1`, becomes the horizontal blinker of row `r` again.
pub proof fn lemma_blinker_vertical_to_horizontal(cells: Seq<bool>, size: int, r: int, c: int)
    requires
        1 <= r,
        r + 1 < size,
        1 <= c,
        c + 1 < size,
        cells.len() == size * size,
        forall|x: int, y: int|
            #[trigger] cell_at(cells, size, x, y) <==> (y == c && r - 1 <= x <= r + 1),
    ensures
        forall|x: int, y: int|
            #[trigger] cell_at(next_grid(cells, size), size, x, y) <==> (x == r && c - 1 <= y <= c
                + 1),
{
    assert forall|x: int, y: int|
        #[trigger] cell_at(next_grid(cells, size), size, x, y) <==> (x == r && c - 1 <= y <= c
            + 1) by {
        if 0 <= x < size && 0 <= y < size {
            lemma_next_grid_cell(cells, size, x, y);
        }
    }
}

/// Oscillation of the blinker: a horizontal blinker turns vertical after
/// one pass and is horizontal again after a second.
pub proof fn lemma_blinker_period_two(cells: Seq<bool>, size: int, r: int, c: int)
    requires
        1 <= r,
        r + 1 < size,
        1 <= c,
        c + 1 < size,
        cells.len() == size * size,
        forall|x: int, y: int|
            #[trigger] cell_at(cells, size, x, y) <==> (x == r && c - 1 <= y <= c + 1),
    ensures
        forall|x: int, y: int|
            #[trigger] cell_at(next_grid(cells, size), size, x, y) <==> (y == c && r - 1 <= x <= r
                + 1),
        forall|x: int, y: int|
            #[trigger] cell_at(next_grid(next_grid(cells, size), size), size, x, y) <==> (x == r
                && c - 1 <= y <= c + 1),
{
    lemma_blinker_horizontal_to_vertical(cells, size, r, c);
    lemma_blinker_vertical_to_horizontal(next_grid(cells, size), size, r, c);
}

/// Boundary safety at the top row: the neighbor count of a cell of row 0
/// is drawn from rows 0 and 1 alone — the non-existent row above the grid
/// contributes exactly zero.
pub proof fn lemma_top_row_boundary(cells: Seq<bool>, size: int, col: int)
    ensures
        live_neighbors(cells, size, 0, col) == row_count(cells, size, 0, col, false) + row_count(
            cells,
            size,
            1,
            col,
            true,
        ),
{
}

} // verus!
