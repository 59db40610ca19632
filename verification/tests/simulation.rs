use life_tower::grid::GridState;
use life_tower::instances::InstanceRecord;
use life_tower::sim::Simulation;
use life_tower::sim::DEFAULT_SIZE;

fn grid_of(size: usize, live: &[(usize, usize)]) -> GridState {
    let mut cells = vec![false; size * size];
    for &(r, c) in live {
        cells[r * size + c] = true;
    }
    GridState::from_cells(size, cells)
}

fn count_live(g: &GridState) -> usize {
    g.cells().iter().filter(|&&b| b).count()
}

#[test]
fn default_size_simulation_starts_empty() {
    let sim = Simulation::new(DEFAULT_SIZE).unwrap();
    assert_eq!(sim.size(), 32);
    assert_eq!(sim.step_count(), 0);
    assert_eq!(sim.history().len(), 0);
}

#[test]
fn four_by_four_block_survives_one_step() {
    let g = grid_of(4, &[(1, 1), (1, 2), (2, 1), (2, 2)]);
    let mut sim = Simulation::from_grid(g);
    sim.tick();
    for r in 0..4 {
        for c in 0..4 {
            let expect = (1..=2).contains(&r) && (1..=2).contains(&c);
            assert_eq!(sim.grid().query(r, c), expect);
        }
    }
}

#[test]
fn tick_appends_one_record_per_live_cell_in_order() {
    let g = grid_of(4, &[(1, 1), (1, 2), (2, 1), (2, 2)]);
    let mut sim = Simulation::from_grid(g);
    sim.tick();
    let expected = vec![
        InstanceRecord { row: 1, col: 1, step: 0, size: 4, color: 1 },
        InstanceRecord { row: 1, col: 2, step: 0, size: 4, color: 2 },
        InstanceRecord { row: 2, col: 1, step: 0, size: 4, color: 2 },
        InstanceRecord { row: 2, col: 2, step: 0, size: 4, color: 0 },
    ];
    assert_eq!(sim.history().clone(), expected);
    assert_eq!(sim.step_count(), 1);
    // A second tick appends the same four cells one layer up.
    sim.tick();
    assert_eq!(sim.history().len(), 8);
    assert_eq!(sim.history()[4].step, 1);
    assert_eq!(sim.history()[0..4], expected[..]);
}

#[test]
fn history_grows_by_live_count_of_each_generation() {
    let g = grid_of(6, &[(2, 1), (2, 2), (2, 3)]);
    let mut sim = Simulation::from_grid(g);
    let mut expected_len = 0usize;
    let mut last_len = 0usize;
    for _ in 0..5 {
        expected_len += count_live(sim.grid());
        sim.tick();
        assert_eq!(sim.history().len(), expected_len);
        assert!(sim.history().len() >= last_len);
        last_len = sim.history().len();
    }
}

#[test]
fn reset_zeroes_step_and_clears_history() {
    let mut sim = Simulation::new(8).unwrap();
    for _ in 0..3 {
        sim.tick();
    }
    assert_eq!(sim.step_count(), 3);
    sim.reset(8).unwrap();
    assert_eq!(sim.step_count(), 0);
    assert_eq!(sim.history().len(), 0);
    assert_eq!(sim.size(), 8);
}

#[test]
fn update_ticks_when_no_reset_is_pending() {
    let g = grid_of(4, &[(1, 1), (1, 2), (2, 1), (2, 2)]);
    let mut sim = Simulation::from_grid(g);
    sim.update(false, 4).unwrap();
    assert_eq!(sim.step_count(), 1);
    assert_eq!(sim.history().len(), 4);
}

#[test]
fn update_resets_on_command() {
    let g = grid_of(4, &[(1, 1), (1, 2), (2, 1), (2, 2)]);
    let mut sim = Simulation::from_grid(g);
    sim.update(false, 4).unwrap();
    sim.update(true, 4).unwrap();
    assert_eq!(sim.step_count(), 0);
    assert_eq!(sim.history().len(), 0);
    assert_eq!(sim.size(), 4);
}

#[test]
fn update_resets_on_size_change_with_normalization() {
    let mut sim = Simulation::new(8).unwrap();
    sim.update(false, 8).unwrap();
    assert_eq!(sim.step_count(), 1);
    // An odd request normalizes to the next even size and forces a reset.
    sim.update(false, 9).unwrap();
    assert_eq!(sim.size(), 10);
    assert_eq!(sim.step_count(), 0);
    assert_eq!(sim.history().len(), 0);
    // A request that normalizes to the current size does not reset.
    sim.update(false, 9).unwrap();
    assert_eq!(sim.step_count(), 1);
}

#[test]
fn reset_normalizes_and_clamps_requested_size() {
    let mut sim = Simulation::new(4).unwrap();
    sim.reset(257).unwrap();
    assert_eq!(sim.size(), 256);
    sim.reset(1).unwrap();
    assert_eq!(sim.size(), 4);
    sim.reset(31).unwrap();
    assert_eq!(sim.size(), 32);
}
