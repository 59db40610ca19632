//! A verified core for a "Game of Life through time" visualization: each
//! generation of a Conway grid is stacked as one more layer of render
//! instances, so the history of the simulation becomes a growing tower.
//!
//! The library owns the grid, the step counter and the append-only history
//! buffer; a host environment drives ticks, delivers reset commands and
//! turns the plain instance records into draw primitives.

pub mod color;
pub mod engine;
pub mod grid;
pub mod instances;
pub mod patterns;
pub mod sim;
