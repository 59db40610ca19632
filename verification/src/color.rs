//! Deterministic cell coloring.
//!
//! Every live cell is colored from its coordinates alone: the hue is picked
//! from `size * size / 4` evenly spaced buckets by `(row * col) mod` that
//! bucket count, while saturation, lightness and alpha are fixed by the
//! host's palette. The integer bucket computed here is the whole decision;
//! turning it into channel values is the renderer's job.

use vstd::prelude::*;

verus! {

/// Number of hue buckets available at a given grid size.
pub open spec fn color_modulus(size: int) -> int {
    size * size / 4
}

/// Hue bucket assigned to the cell at `(row, col)` on a grid of the given
/// size: `(row * col) mod (size * size / 4)`.
pub open spec fn color_index_spec(row: int, col: int, size: int) -> int {
    (row * col) % color_modulus(size)
}

/// The color rule is a pure function of `(row, col, size)`: the result is
/// pinned to `color_index_spec`, so two calls with identical arguments
/// return identical output, independent of call order or prior state.
pub fn color_index(row: usize, col: usize, size: usize) -> (idx: usize)
    requires
        4 <= size <= 256,
        row < size,
        col < size,
    ensures
        idx == color_index_spec(row as int, col as int, size as int),
        idx < color_modulus(size as int),
{
    proof {
        assert(row * col <= 255 * 255) by (nonlinear_arith)
            requires
                row <= 255,
                col <= 255,
        ;
        assert(size * size <= 256 * 256) by (nonlinear_arith)
            requires
                size <= 256,
        ;
        assert(size * size >= 16) by (nonlinear_arith)
            requires
                size >= 4,
        ;
    }
    (row * col) % (size * size / 4)
}

} // verus!
