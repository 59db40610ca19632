//! The simulation context and its tick/reset protocol.
//!
//! A [`Simulation`] owns the triple the driver mutates once per tick: the
//! grid, the step counter and the history buffer. The driver calls
//! [`Simulation::update`] once per scheduling unit with the state of the
//! reset command and the requested grid size; a reset pre-empts that tick's
//! step, so a tick never appends to a buffer a reset has cleared in the
//! same tick, nor steps a partially reset grid.

use vstd::prelude::*;
use crate::engine::next_grid;
use crate::engine::step_grid;
use crate::grid::GridState;
use crate::grid::InitializationError;
use crate::grid::valid_size;
use crate::instances::InstanceRecord;
use crate::instances::append_step_instances;
use crate::instances::lemma_step_records_len;
use crate::instances::live_count;
use crate::instances::step_records;

verus! {

/// Grid size used when the driver supplies none.
pub const DEFAULT_SIZE: usize = 32;

/// The mathematical state of a simulation: the flat cell sequence, the grid
/// dimension, the step counter and the history of emitted records.
pub struct SimModel {
    /// Flat row-major cells of the current generation.
    pub cells: Seq<bool>,
    /// Grid dimension.
    pub size: int,
    /// Ticks since the last reset.
    pub step: int,
    /// Every record appended since the last reset, in order.
    pub history: Seq<InstanceRecord>,
}

/// What one tick does to the model: the records of the current generation
/// are appended at the current step, the grid advances one generation, and
/// the step counter grows by exactly one.
pub open spec fn tick_model(m: SimModel) -> SimModel {
    SimModel {
        cells: next_grid(m.cells, m.size),
        size: m.size,
        step: m.step + 1,
        history: m.history + step_records(m.cells, m.size, m.step),
    }
}

/// The model after `k` ticks with no reset.
pub open spec fn ticks(m: SimModel, k: nat) -> SimModel
    decreases k,
{
    if k == 0 {
        m
    } else {
        tick_model(ticks(m, (k - 1) as nat))
    }
}

/// The live cells summed over the first `k` generations evaluated.
pub open spec fn live_sum(m: SimModel, k: nat) -> int
    decreases k,
{
    if k == 0 {
        0
    } else {
        let prev = ticks(m, (k - 1) as nat);
        live_sum(m, (k - 1) as nat) + live_count(prev.cells, prev.size)
    }
}

/// Ticking never changes the grid dimension.
pub proof fn lemma_ticks_size(m: SimModel, k: nat)
    ensures
        ticks(m, k).size == m.size,
    decreases k,
{
    if k > 0 {
        lemma_ticks_size(m, (k - 1) as nat);
    }
}

/// Growth law: after `k` ticks with no reset the history buffer holds its
/// old contents plus exactly one record per live cell of each of the `k`
/// generations evaluated, so its length equals the old length plus the sum
/// of those live-cell counts and never decreases.
pub proof fn lemma_history_growth(m: SimModel, k: nat)
    ensures
        ticks(m, k).history.len() == m.history.len() + live_sum(m, k),
        live_sum(m, k) >= 0,
    decreases k,
{
    if k > 0 {
        let prev = ticks(m, (k - 1) as nat);
        lemma_history_growth(m, (k - 1) as nat);
        lemma_step_records_len(prev.cells, prev.size, prev.step);
    }
}

/// Normalization of a requested grid size: an odd request is incremented
/// by one, then the result is clamped to `[4, 256]`.
pub open spec fn normalize_size(requested: int) -> int {
    let even = if requested % 2 != 0 {
        requested + 1
    } else {
        requested
    };
    if even < 4 {
        4
    } else if even > 256 {
        256
    } else {
        even
    }
}

/// Normalization always lands on a valid grid size.
pub proof fn lemma_normalize_valid(requested: int)
    requires
        requested >= 0,
    ensures
        valid_size(normalize_size(requested)),
{
}

/// Normalize a requested size as the reset controller does.
pub fn normalized_size(requested: usize) -> (s: usize)
    ensures
        s == normalize_size(requested as int),
        valid_size(s as int),
{
    if requested >= 256 {
        256
    } else {
        let even = if requested % 2 != 0 {
            requested + 1
        } else {
            requested
        };
        if even < 4 {
            4
        } else {
            even
        }
    }
}

/// The simulation context: grid, step counter and history buffer, updated
/// together, once per tick, by a single driver.
pub struct Simulation {
    grid: GridState,
    step: usize,
    history: Vec<InstanceRecord>,
}

impl View for Simulation {
    type V = SimModel;

    closed spec fn view(&self) -> SimModel {
        SimModel {
            cells: self.grid.cells_spec(),
            size: self.grid.size_spec(),
            step: self.step as int,
            history: self.history@,
        }
    }
}

impl Simulation {
    /// Well-formedness: the grid is well formed and the model mirrors it.
    pub open spec fn wf(self) -> bool {
        self.grid_spec().wf() && valid_size(self@.size) && self@.cells.len() == self@.size
            * self@.size
    }

    /// A fresh simulation at the normalized requested size: step 0, empty
    /// history, every cell drawn from the random source. Fails only if the
    /// random source reports an error.
    pub fn new(requested_size: usize) -> (r: Result<Simulation, InitializationError>)
        ensures
            r matches Ok(s) ==> s.wf() && s@.step == 0 && s@.history.len() == 0 && s@.size
                == normalize_size(requested_size as int),
    {
        let size = normalized_size(requested_size);
        match GridState::initialize(size) {
            Ok(grid) => Ok(Simulation { grid, step: 0, history: Vec::new() }),
            Err(e) => Err(e),
        }
    }

    /// A simulation started from a given first generation: step 0 and an
    /// empty history around the supplied grid.
    pub fn from_grid(grid: GridState) -> (s: Simulation)
        requires
            grid.wf(),
        ensures
            s.wf(),
            s@.cells == grid.cells_spec(),
            s@.size == grid.size_spec(),
            s@.step == 0,
            s@.history.len() == 0,
    {
        Simulation { grid, step: 0, history: Vec::new() }
    }

    /// The grid dimension.
    pub fn size(&self) -> (s: usize)
        ensures
            s == self@.size,
    {
        self.grid.size()
    }

    /// Ticks since the last reset.
    pub fn step_count(&self) -> (s: usize)
        ensures
            s == self@.step,
    {
        self.step
    }

    /// The current generation.
    pub fn grid(&self) -> (g: &GridState)
        ensures
            *g == self.grid_spec(),
            g.cells_spec() == self@.cells,
            g.size_spec() == self@.size,
    {
        &self.grid
    }

    /// The owned grid, for spec purposes.
    pub closed spec fn grid_spec(self) -> GridState {
        self.grid
    }

    /// The history buffer: every record appended since the last reset, in
    /// order. Read-only for consumers; it is monotonically non-decreasing
    /// in length except across a reset, which empties it, so an incremental
    /// renderer may upload only the newly appended suffix.
    pub fn history(&self) -> (h: &Vec<InstanceRecord>)
        ensures
            h@ == self@.history,
    {
        &self.history
    }

    /// One tick: the records of the current generation join the history at
    /// the current step, the grid advances one generation under the rule,
    /// and the step counter grows by exactly one.
    pub fn tick(&mut self)
        requires
            old(self).wf(),
            old(self)@.step < usize::MAX,
        ensures
            final(self).wf(),
            final(self)@ == tick_model(old(self)@),
    {
        let next = step_grid(&self.grid);
        append_step_instances(&mut self.history, &self.grid, self.step);
        self.grid = next;
        self.step = self.step + 1;
    }

    /// Reset to a fresh random grid at the normalized requested size: the
    /// step counter returns to 0 and the history buffer is emptied,
    /// regardless of prior state. If the random source fails, nothing
    /// changes and the error is reported.
    pub fn reset(&mut self, requested_size: usize) -> (r: Result<(), InitializationError>)
        ensures
            r matches Ok(()) ==> final(self).wf() && final(self)@.step == 0
                && final(self)@.history.len() == 0
                && final(self)@.size == normalize_size(requested_size as int),
            r matches Err(_) ==> *final(self) == *old(self),
    {
        let size = normalized_size(requested_size);
        match GridState::initialize(size) {
            Ok(grid) => {
                self.grid = grid;
                self.step = 0;
                self.history = Vec::new();
                Ok(())
            },
            Err(e) => Err(e),
        }
    }

    /// The per-tick update the driver calls once per scheduling unit. A
    /// pending reset command, or a requested size that normalizes to a new
    /// dimension, resets the simulation and pre-empts that tick's step;
    /// otherwise the simulation ticks.
    pub fn update(&mut self, reset_requested: bool, requested_size: usize) -> (r: Result<
        (),
        InitializationError,
    >)
        requires
            old(self).wf(),
            old(self)@.step < usize::MAX,
        ensures
            final(self).wf() || *final(self) == *old(self),
            (reset_requested || normalize_size(requested_size as int) != old(self)@.size) ==> ((
            r matches Ok(()) ==> final(self).wf() && final(self)@.step == 0
                && final(self)@.history.len() == 0
                && final(self)@.size == normalize_size(requested_size as int)) && (
            r matches Err(_) ==> *final(self) == *old(self))),
            !(reset_requested || normalize_size(requested_size as int) != old(self)@.size) ==> (
            r matches Ok(()) && final(self).wf() && final(self)@ == tick_model(old(self)@)),
    {
        let want = normalized_size(requested_size);
        if reset_requested || want != self.size() {
            self.reset(requested_size)
        } else {
            self.tick();
            Ok(())
        }
    }
}

} // verus!
