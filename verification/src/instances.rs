//! The render-instance accumulator.
//!
//! Once per tick, every cell alive in the pre-transition grid contributes
//! exactly one [`InstanceRecord`] to an ordered, append-only history
//! buffer. A record carries the plain values a renderer needs to place and
//! color one cube: the cell coordinates, the step at which the generation
//! was evaluated, the grid size (which fixes the centering offset), and the
//! hue bucket of the color rule. The buffer is never pruned: its unbounded
//! growth encodes the simulation's history as vertical stacking and is the
//! point of the visualization, so a long-lived deployment should watch
//! [`crate::sim::Simulation::history`]'s length rather than expect eviction.

use vstd::prelude::*;
use crate::color::color_index;
use crate::color::color_index_spec;
use crate::color::color_modulus;
use crate::grid::GridState;
use crate::grid::cell_at;

verus! {

/// One render-ready primitive: a single live cell at a single step.
/// Immutable once created. A renderer derives the draw position as
/// `(offset + col*cell_size, step*step_height, offset + row*cell_size)`
/// with `offset = -(size/2)*cell_size`, a unit scale, and the color from
/// `color_index` of `size * size / 4` hue buckets at full saturation.
#[derive(Clone, Copy, Debug, PartialEq, Eq, Structural)]
pub struct InstanceRecord {
    /// Row of the live cell.
    pub row: usize,
    /// Column of the live cell.
    pub col: usize,
    /// Step counter value when the cell's generation was evaluated.
    pub step: usize,
    /// Grid dimension the cell belongs to.
    pub size: usize,
    /// Hue bucket assigned by the color rule.
    pub color: usize,
}

/// The record emitted for a live cell at `(row, col)`.
pub open spec fn record_spec(row: int, col: int, step: int, size: int) -> InstanceRecord {
    InstanceRecord {
        row: row as usize,
        col: col as usize,
        step: step as usize,
        size: size as usize,
        color: color_index_spec(row, col, size) as usize,
    }
}

/// Records of the live cells among the first `col` columns of `row`.
pub open spec fn row_records(cells: Seq<bool>, size: int, step: int, row: int, col: int) -> Seq<
    InstanceRecord,
>
    decreases col,
{
    if col <= 0 {
        Seq::empty()
    } else {
        row_records(cells, size, step, row, col - 1) + (if cell_at(cells, size, row, col - 1) {
            seq![record_spec(row, col - 1, step, size)]
        } else {
            Seq::empty()
        })
    }
}

/// Records of the live cells of the first `row` complete rows.
pub open spec fn grid_records_upto(cells: Seq<bool>, size: int, step: int, row: int) -> Seq<
    InstanceRecord,
>
    decreases row,
{
    if row <= 0 {
        Seq::empty()
    } else {
        grid_records_upto(cells, size, step, row - 1) + row_records(cells, size, step, row - 1, size)
    }
}

/// The records one tick appends: one per live cell of the snapshot, in
/// row-major order.
pub open spec fn step_records(cells: Seq<bool>, size: int, step: int) -> Seq<InstanceRecord> {
    grid_records_upto(cells, size, step, size)
}

/// Live cells among the first `col` columns of `row`.
pub open spec fn live_in_row_upto(cells: Seq<bool>, size: int, row: int, col: int) -> int
    decreases col,
{
    if col <= 0 {
        0
    } else {
        live_in_row_upto(cells, size, row, col - 1) + (if cell_at(cells, size, row, col - 1) {
            1int
        } else {
            0int
        })
    }
}

/// Live cells of the first `row` complete rows.
pub open spec fn live_upto(cells: Seq<bool>, size: int, row: int) -> int
    decreases row,
{
    if row <= 0 {
        0
    } else {
        live_upto(cells, size, row - 1) + live_in_row_upto(cells, size, row - 1, size)
    }
}

/// Live cells of the whole grid.
pub open spec fn live_count(cells: Seq<bool>, size: int) -> int {
    live_upto(cells, size, size)
}

/// A row contributes exactly as many records as it has live cells.
pub proof fn lemma_row_records_len(cells: Seq<bool>, size: int, step: int, row: int, col: int)
    ensures
        row_records(cells, size, step, row, col).len() == live_in_row_upto(cells, size, row, col),
        live_in_row_upto(cells, size, row, col) >= 0,
    decreases col,
{
    if col > 0 {
        lemma_row_records_len(cells, size, step, row, col - 1);
    }
}

/// One tick appends exactly one record per live cell of the snapshot.
pub proof fn lemma_step_records_len(cells: Seq<bool>, size: int, step: int)
    ensures
        step_records(cells, size, step).len() == live_count(cells, size),
        live_count(cells, size) >= 0,
{
    lemma_grid_records_upto_len(cells, size, step, size);
}

proof fn lemma_grid_records_upto_len(cells: Seq<bool>, size: int, step: int, row: int)
    ensures
        grid_records_upto(cells, size, step, row).len() == live_upto(cells, size, row),
        live_upto(cells, size, row) >= 0,
    decreases row,
{
    if row > 0 {
        lemma_grid_records_upto_len(cells, size, step, row - 1);
        lemma_row_records_len(cells, size, step, row - 1, size);
    }
}

/// Internal consistency of one record with respect to the grid and step it
/// was produced at: coordinates inside the grid, the step and size of its
/// tick, and the hue bucket the color rule assigns to its cell.
pub open spec fn record_wf(rec: InstanceRecord, size: int, step: int) -> bool {
    rec.row < size && rec.col < size && rec.step == step && rec.size == size && rec.color
        == color_index_spec(rec.row as int, rec.col as int, size)
}

/// Every record of one tick is internally consistent: it names a cell of
/// the grid, carries the step and size it was produced at, and is colored
/// by the rule applied to its own coordinates.
pub proof fn lemma_step_records_wf(cells: Seq<bool>, size: int, step: int)
    requires
        4 <= size <= 256,
        0 <= step <= usize::MAX,
    ensures
        forall|j: int|
            0 <= j < step_records(cells, size, step).len() ==> #[trigger] record_wf(
                step_records(cells, size, step)[j],
                size,
                step,
            ),
{
    lemma_grid_records_upto_wf(cells, size, step, size);
}

proof fn lemma_row_records_wf(cells: Seq<bool>, size: int, step: int, row: int, col: int)
    requires
        4 <= size <= 256,
        0 <= step <= usize::MAX,
    ensures
        forall|j: int|
            0 <= j < row_records(cells, size, step, row, col).len() ==> #[trigger] record_wf(
                row_records(cells, size, step, row, col)[j],
                size,
                step,
            ),
    decreases col,
{
    if col > 0 {
        lemma_row_records_wf(cells, size, step, row, col - 1);
        if cell_at(cells, size, row, col - 1) {
            assert(4 <= color_modulus(size) <= 16384) by (nonlinear_arith)
                requires
                    4 <= size <= 256,
            ;
            assert(record_wf(record_spec(row, col - 1, step, size), size, step));
        }
        let s = row_records(cells, size, step, row, col);
        let a = row_records(cells, size, step, row, col - 1);
        assert forall|j: int| 0 <= j < s.len() implies #[trigger] record_wf(s[j], size, step) by {
            if j < a.len() {
                assert(s[j] == a[j]);
            } else {
                assert(s[j] == record_spec(row, col - 1, step, size));
            }
        }
    }
}

proof fn lemma_grid_records_upto_wf(cells: Seq<bool>, size: int, step: int, row: int)
    requires
        4 <= size <= 256,
        0 <= step <= usize::MAX,
    ensures
        forall|j: int|
            0 <= j < grid_records_upto(cells, size, step, row).len() ==> #[trigger] record_wf(
                grid_records_upto(cells, size, step, row)[j],
                size,
                step,
            ),
    decreases row,
{
    if row > 0 {
        lemma_grid_records_upto_wf(cells, size, step, row - 1);
        lemma_row_records_wf(cells, size, step, row - 1, size);
        let s = grid_records_upto(cells, size, step, row);
        let a = grid_records_upto(cells, size, step, row - 1);
        let b = row_records(cells, size, step, row - 1, size);
        assert forall|j: int| 0 <= j < s.len() implies #[trigger] record_wf(s[j], size, step) by {
            if j < a.len() {
                assert(s[j] == a[j]);
            } else {
                assert(s[j] == b[j - a.len()]);
            }
        }
    }
}

/// Append one record per cell alive in the snapshot, in row-major order.
/// The buffer keeps everything it already held: it only grows.
pub fn append_step_instances(buf: &mut Vec<InstanceRecord>, g: &GridState, step: usize)
    requires
        g.wf(),
    ensures
        final(buf)@ == old(buf)@ + step_records(g.cells_spec(), g.size_spec(), step as int),
{
    let size = g.size();
    let ghost gc = g.cells_spec();
    let ghost gs = g.size_spec();
    let ghost base = buf@;
    let mut i: usize = 0;
    while i < size
        invariant
            g.wf(),
            gc == g.cells_spec(),
            gs == g.size_spec(),
            size == gs,
            i <= size,
            buf@ == base + grid_records_upto(gc, gs, step as int, i as int),
        decreases size - i,
    {
        let mut ii: usize = 0;
        while ii < size
            invariant
                g.wf(),
                gc == g.cells_spec(),
                gs == g.size_spec(),
                size == gs,
                i < size,
                ii <= size,
                buf@ == base + grid_records_upto(gc, gs, step as int, i as int) + row_records(
                    gc,
                    gs,
                    step as int,
                    i as int,
                    ii as int,
                ),
            decreases size - ii,
        {
            if g.query(i, ii) {
                let color = color_index(i, ii, size);
                let rec = InstanceRecord { row: i, col: ii, step, size, color };
                proof {
                    assert(rec == record_spec(i as int, ii as int, step as int, gs));
                }
                buf.push(rec);
            }
            proof {
                assert(buf@ =~= base + grid_records_upto(gc, gs, step as int, i as int)
                    + row_records(gc, gs, step as int, i as int, ii as int + 1));
            }
            ii = ii + 1;
        }
        proof {
            assert(buf@ =~= base + grid_records_upto(gc, gs, step as int, i as int + 1));
        }
        i = i + 1;
    }
    proof {
        assert(buf@ == base + step_records(gc, gs, step as int));
    }
}

} // verus!
