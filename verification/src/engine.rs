//! The step engine.
//!
//! Given an immutable snapshot of the current generation it produces the
//! next one under the standard rule, using the 8-cell Moore neighborhood
//! with finite boundaries: neighbors outside the grid contribute zero, and
//! there is no wraparound. All lookups read the pre-transition snapshot;
//! the next generation is built in a separate buffer, so a freshly written
//! cell can never leak into a neighbor count of the same pass.

use vstd::prelude::*;
use vstd::arithmetic::div_mod::lemma_fundamental_div_mod;
use vstd::arithmetic::div_mod::lemma_fundamental_div_mod_converse;
use crate::grid::GridState;
use crate::grid::cell_at;
use crate::grid::lemma_cell_index;
use crate::grid::lemma_row_major_order;

verus! {

/// Live cells among the three columns `{col-1, col, col+1}` of one row;
/// the center column is counted only when `center` is set, and columns
/// outside the grid contribute zero.
pub open spec fn row_count(cells: Seq<bool>, size: int, row: int, col: int, center: bool) -> int {
    (if cell_at(cells, size, row, col - 1) {
        1int
    } else {
        0int
    }) + (if center && cell_at(cells, size, row, col) {
        1int
    } else {
        0int
    }) + (if cell_at(cells, size, row, col + 1) {
        1int
    } else {
        0int
    })
}

/// Moore-neighborhood live count with finite boundaries: the rows
/// `{row-1, row, row+1}` are examined, the cell itself is skipped, and any
/// coordinate outside the grid contributes zero.
pub open spec fn live_neighbors(cells: Seq<bool>, size: int, row: int, col: int) -> int {
    row_count(cells, size, row - 1, col, true) + row_count(cells, size, row, col, false)
        + row_count(cells, size, row + 1, col, true)
}

/// The rule for one cell: a live cell survives with two or three live
/// neighbors and otherwise dies; a dead cell becomes alive with exactly
/// three live neighbors and otherwise stays dead.
pub open spec fn next_cell(cells: Seq<bool>, size: int, row: int, col: int) -> bool {
    let n = live_neighbors(cells, size, row, col);
    if cell_at(cells, size, row, col) {
        n == 2 || n == 3
    } else {
        n == 3
    }
}

/// The entire next generation, flat in row-major order.
pub open spec fn next_grid(cells: Seq<bool>, size: int) -> Seq<bool> {
    Seq::new((size * size) as nat, |k: int| next_cell(cells, size, k / size, k % size))
}

/// Reading the next generation at `(row, col)` gives the rule applied to
/// that cell of the previous generation.
pub proof fn lemma_next_grid_cell(cells: Seq<bool>, size: int, row: int, col: int)
    requires
        0 <= row < size,
        0 <= col < size,
    ensures
        cell_at(next_grid(cells, size), size, row, col) == next_cell(cells, size, row, col),
        next_grid(cells, size)[row * size + col] == next_cell(cells, size, row, col),
{
    lemma_cell_index(row, col, size);
    lemma_fundamental_div_mod_converse(row * size + col, size, row, col);
}

/// Live cells among up to three horizontally adjacent columns of one row
/// of the snapshot, mirroring [`row_count`].
fn count_row(g: &GridState, row: usize, col: usize, center: bool) -> (n: u8)
    requires
        g.wf(),
        row < g.size_spec(),
        col < g.size_spec(),
    ensures
        n as int == row_count(g.cells_spec(), g.size_spec(), row as int, col as int, center),
{
    let mut n: u8 = 0;
    if col > 0 && g.query(row, col - 1) {
        n = n + 1;
    }
    if center && g.query(row, col) {
        n = n + 1;
    }
    if col + 1 < g.size() && g.query(row, col + 1) {
        n = n + 1;
    }
    n
}

/// One full pass of the engine: a new grid of the same dimension whose
/// every cell is the rule applied to the snapshot.
pub fn step_grid(g: &GridState) -> (next: GridState)
    requires
        g.wf(),
    ensures
        next.wf(),
        next.size_spec() == g.size_spec(),
        next.cells_spec() == next_grid(g.cells_spec(), g.size_spec()),
{
    let size = g.size();
    let ghost gc = g.cells_spec();
    let ghost gs = g.size_spec();
    let mut cells: Vec<bool> = Vec::new();
    let mut i: usize = 0;
    while i < size
        invariant
            g.wf(),
            gc == g.cells_spec(),
            gs == g.size_spec(),
            size == gs,
            i <= size,
            cells@.len() == i * gs,
            forall|r: int, c: int|
                0 <= r < i && 0 <= c < gs ==> cells@[r * gs + c] == #[trigger] next_cell(
                    gc,
                    gs,
                    r,
                    c,
                ),
        decreases size - i,
    {
        let mut ii: usize = 0;
        while ii < size
            invariant
                g.wf(),
                gc == g.cells_spec(),
                gs == g.size_spec(),
                size == gs,
                i < size,
                ii <= size,
                cells@.len() == i * gs + ii,
                forall|r: int, c: int|
                    0 <= r < i && 0 <= c < gs ==> cells@[r * gs + c] == #[trigger] next_cell(
                        gc,
                        gs,
                        r,
                        c,
                    ),
                forall|c: int|
                    0 <= c < ii ==> cells@[i * gs + c] == #[trigger] next_cell(gc, gs, i as int, c),
            decreases size - ii,
        {
            let top: u8 = if i > 0 {
                count_row(g, i - 1, ii, true)
            } else {
                0
            };
            let mid: u8 = count_row(g, i, ii, false);
            let bot: u8 = if i + 1 < size {
                count_row(g, i + 1, ii, true)
            } else {
                0
            };
            let n = top + mid + bot;
            let cur = g.query(i, ii);
            let nv = if cur {
                n == 2 || n == 3
            } else {
                n == 3
            };
            proof {
                assert(n as int == live_neighbors(gc, gs, i as int, ii as int));
                assert(nv == next_cell(gc, gs, i as int, ii as int));
            }
            cells.push(nv);
            proof {
                assert forall|r: int, c: int| 0 <= r < i && 0 <= c < gs implies cells@[r * gs + c]
                    == #[trigger] next_cell(gc, gs, r, c) by {
                    lemma_row_major_order(r, c, i as int, ii as int, gs);
                };
                assert forall|c: int| 0 <= c < ii + 1 implies cells@[i * gs + c]
                    == #[trigger] next_cell(gc, gs, i as int, c) by {
                    lemma_row_major_order(i as int, c, i as int, ii as int + 1, gs);
                };
            }
            ii = ii + 1;
        }
        proof {
            assert((i + 1) * gs == i * gs + gs) by (nonlinear_arith);
        }
        i = i + 1;
    }
    proof {
        assert forall|k: int| 0 <= k < gs * gs implies cells@[k] == next_grid(gc, gs)[k] by {
            let q = k / gs;
            let r = k % gs;
            lemma_fundamental_div_mod(k, gs);
            assert(0 <= q < gs && 0 <= r < gs) by (nonlinear_arith)
                requires
                    gs > 0,
                    0 <= k < gs * gs,
                    k == gs * q + r,
                    0 <= r < gs,
            ;
            assert(k == q * gs + r) by (nonlinear_arith)
                requires
                    k == gs * q + r,
            ;
            assert(cells@[q * gs + r] == next_cell(gc, gs, q, r));
        };
        assert(cells@ =~= next_grid(gc, gs));
    }
    GridState::from_cells(size, cells)
}

} // verus!
