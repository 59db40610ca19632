//! The live/dead matrix.
//!
//! A grid is a square boolean matrix stored flat in row-major order. Its
//! dimension is an even integer between 4 and 256, and the cell vector
//! always holds exactly `size * size` entries. Coordinates outside the grid
//! are never stored: the spec-level reader [`cell_at`] treats them as dead,
//! which is what gives the step engine its finite (non-toroidal) boundary.

use vstd::prelude::*;

verus! {

/// A grid dimension the simulation accepts: even, between 4 and 256.
pub open spec fn valid_size(size: int) -> bool {
    4 <= size <= 256 && size % 2 == 0
}

/// Read one cell of a flat row-major sequence; any coordinate outside the
/// grid reads as dead.
pub open spec fn cell_at(cells: Seq<bool>, size: int, row: int, col: int) -> bool {
    0 <= row < size && 0 <= col < size && cells[row * size + col]
}

/// A row-major cell index is within the matrix.
pub proof fn lemma_cell_index(row: int, col: int, size: int)
    by (nonlinear_arith)
    requires
        0 <= row < size,
        0 <= col < size,
    ensures
        0 <= row * size + col < size * size,
{
}

/// Row-major indices respect the row-then-column order of a double loop:
/// every cell before `(i, ii)` has a strictly smaller flat index.
pub proof fn lemma_row_major_order(r: int, c: int, i: int, ii: int, size: int)
    by (nonlinear_arith)
    requires
        0 <= c < size,
        0 <= r,
        0 <= ii,
        r < i || (r == i && c < ii),
    ensures
        0 <= r * size + c < i * size + ii,
{
}

/// The random source failed while seeding a grid: the simulation must not
/// proceed with an unseeded or partially seeded matrix.
#[derive(Clone, Copy, Debug, PartialEq, Eq, Structural)]
pub struct InitializationError;

/// Relies on `rand::Fill::try_fill` for `[bool]` with `rand::thread_rng()`:
/// on success every element is overwritten with an independent uniform
/// random bit and the buffer keeps its length; an error reported by the
/// generator comes back as `None`.
#[verifier::external_body]
fn random_cells(n: usize) -> (r: Option<Vec<bool>>)
    ensures
        r matches Some(v) ==> v@.len() == n,
{
    let mut tiles = vec![false; n];
    let mut rng = rand::thread_rng();
    match rand::Fill::try_fill(&mut tiles[..], &mut rng) {
        Ok(()) => Some(tiles),
        Err(_) => None,
    }
}

/// The boolean matrix together with its dimension.
pub struct GridState {
    size: usize,
    cells: Vec<bool>,
}

impl GridState {
    /// The grid dimension.
    pub closed spec fn size_spec(self) -> int {
        self.size as int
    }

    /// The flat row-major cell sequence.
    pub closed spec fn cells_spec(self) -> Seq<bool> {
        self.cells@
    }

    /// Well-formedness: a valid dimension and exactly `size * size` cells.
    pub open spec fn wf(self) -> bool {
        valid_size(self.size_spec()) && self.cells_spec().len() == self.size_spec() * self.size_spec()
    }

    /// Build a grid from explicit cell contents.
    pub fn from_cells(size: usize, cells: Vec<bool>) -> (g: GridState)
        requires
            valid_size(size as int),
            cells@.len() == size * size,
        ensures
            g.wf(),
            g.size_spec() == size,
            g.cells_spec() == cells@,
    {
        GridState { size, cells }
    }

    /// Allocate a `size × size` matrix and seed every cell independently
    /// from the uniform random source. Fails only if the random source
    /// reports an error, in which case no grid is produced.
    pub fn initialize(size: usize) -> (r: Result<GridState, InitializationError>)
        requires
            valid_size(size as int),
        ensures
            r matches Ok(g) ==> g.wf() && g.size_spec() == size
                && g.cells_spec().len() == size * size,
    {
        proof {
            assert(size * size <= 256 * 256) by (nonlinear_arith)
                requires
                    size <= 256,
            ;
        }
        match random_cells(size * size) {
            Some(cells) => Ok(GridState::from_cells(size, cells)),
            None => Err(InitializationError),
        }
    }

    /// A full re-initialize at a new dimension; no cell values migrate.
    /// On failure of the random source the grid is left as it was.
    pub fn resize(&mut self, new_size: usize) -> (r: Result<(), InitializationError>)
        requires
            valid_size(new_size as int),
        ensures
            r matches Ok(()) ==> final(self).wf() && final(self).size_spec() == new_size,
            r matches Err(_) ==> *final(self) == *old(self),
    {
        match GridState::initialize(new_size) {
            Ok(g) => {
                *self = g;
                Ok(())
            },
            Err(e) => Err(e),
        }
    }

    /// The grid dimension.
    pub fn size(&self) -> (s: usize)
        ensures
            s == self.size_spec(),
    {
        self.size
    }

    /// Bounds-checked read of one cell. Out-of-range coordinates are never
    /// queried: boundary handling is the step engine's responsibility.
    pub fn query(&self, row: usize, col: usize) -> (b: bool)
        requires
            self.wf(),
            row < self.size_spec(),
            col < self.size_spec(),
        ensures
            b == cell_at(self.cells_spec(), self.size_spec(), row as int, col as int),
    {
        proof {
            lemma_cell_index(row as int, col as int, self.size as int);
            assert(self.size * self.size <= 256 * 256) by (nonlinear_arith)
                requires
                    self.size <= 256,
            ;
        }
        self.cells[row * self.size + col]
    }

    /// The flat row-major cell vector, for read-only consumers.
    pub fn cells(&self) -> (r: &Vec<bool>)
        ensures
            r@ == self.cells_spec(),
    {
        &self.cells
    }
}

} // verus!
