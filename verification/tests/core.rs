use life_tower::color::color_index;
use life_tower::grid::GridState;
use life_tower::sim::normalized_size;

#[test]
fn initialize_yields_square_grid() {
    for n in [4usize, 6, 32, 128, 256] {
        let g = GridState::initialize(n).unwrap();
        assert_eq!(g.size(), n);
        assert_eq!(g.cells().len(), n * n);
    }
}

#[test]
fn resize_reinitializes_at_new_size() {
    let mut g = GridState::initialize(8).unwrap();
    g.resize(12).unwrap();
    assert_eq!(g.size(), 12);
    assert_eq!(g.cells().len(), 144);
}

#[test]
fn query_reads_row_major_cells() {
    let mut cells = vec![false; 16];
    cells[1 * 4 + 2] = true;
    let g = GridState::from_cells(4, cells);
    assert!(g.query(1, 2));
    assert!(!g.query(2, 1));
    assert!(!g.query(0, 0));
}

#[test]
fn color_index_is_pure() {
    let a = color_index(3, 5, 8);
    let b = color_index(3, 5, 8);
    assert_eq!(a, b);
    for r in 0..8 {
        for c in 0..8 {
            assert_eq!(color_index(r, c, 8), color_index(r, c, 8));
        }
    }
}

#[test]
fn color_index_exact_values() {
    // (row * col) mod (size * size / 4)
    assert_eq!(color_index(3, 5, 8), 15);
    assert_eq!(color_index(2, 2, 4), 0);
    assert_eq!(color_index(1, 2, 4), 2);
    assert_eq!(color_index(7, 7, 8), 49 % 16);
    assert_eq!(color_index(255, 255, 256), (255 * 255) % (256 * 256 / 4));
}

#[test]
fn size_normalization() {
    assert_eq!(normalized_size(0), 4);
    assert_eq!(normalized_size(2), 4);
    assert_eq!(normalized_size(3), 4);
    assert_eq!(normalized_size(4), 4);
    assert_eq!(normalized_size(5), 6);
    assert_eq!(normalized_size(31), 32);
    assert_eq!(normalized_size(32), 32);
    assert_eq!(normalized_size(255), 256);
    assert_eq!(normalized_size(256), 256);
    assert_eq!(normalized_size(257), 256);
    assert_eq!(normalized_size(1000), 256);
}
