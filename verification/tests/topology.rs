use vecquid::grid::{get_idx_pos, get_neighbors, get_pos_idx, len_grid, GRID_HEIGHT, GRID_WIDTH};

#[test]
fn grid_length() {
    assert_eq!(len_grid(), 10_000);
    assert_eq!(GRID_WIDTH, 100);
    assert_eq!(GRID_HEIGHT, 100);
}

#[test]
fn index_mapping_values() {
    assert_eq!(get_pos_idx(0), (0, 0));
    assert_eq!(get_pos_idx(99), (99, 0));
    assert_eq!(get_pos_idx(100), (0, 1));
    assert_eq!(get_pos_idx(5050), (50, 50));
    assert_eq!(get_pos_idx(9999), (99, 99));
    assert_eq!(get_idx_pos(0, 0), 0);
    assert_eq!(get_idx_pos(99, 0), 99);
    assert_eq!(get_idx_pos(0, 1), 100);
    assert_eq!(get_idx_pos(50, 50), 5050);
    assert_eq!(get_idx_pos(99, 99), 9999);
}

#[test]
fn index_round_trip_everywhere() {
    for idx in 0..len_grid() {
        let (x, y) = get_pos_idx(idx);
        assert_eq!(get_idx_pos(x, y), idx);
    }
    for x in 0..GRID_WIDTH {
        for y in 0..GRID_HEIGHT {
            assert_eq!(get_pos_idx(get_idx_pos(x, y)), (x, y));
        }
    }
}

#[test]
fn neighbors_corner_top_left() {
    assert_eq!(get_neighbors(get_idx_pos(0, 0)), [0, 1, 100, 0, 0, 1, 100, 101]);
}

#[test]
fn neighbors_corner_top_right() {
    assert_eq!(get_neighbors(get_idx_pos(99, 0)), [98, 99, 199, 99, 98, 99, 198, 199]);
}

#[test]
fn neighbors_corner_bottom_left() {
    assert_eq!(
        get_neighbors(get_idx_pos(0, 99)),
        [9900, 9901, 9900, 9800, 9800, 9801, 9900, 9901]
    );
}

#[test]
fn neighbors_corner_bottom_right() {
    assert_eq!(
        get_neighbors(get_idx_pos(99, 99)),
        [9998, 9999, 9999, 9899, 9898, 9899, 9998, 9999]
    );
}

#[test]
fn neighbors_top_edge_midpoint() {
    assert_eq!(get_neighbors(get_idx_pos(50, 0)), [49, 51, 150, 50, 49, 51, 149, 151]);
}

#[test]
fn neighbors_interior() {
    assert_eq!(
        get_neighbors(get_idx_pos(50, 50)),
        [5049, 5051, 5150, 4950, 4949, 4951, 5149, 5151]
    );
}

#[test]
fn neighbors_always_in_range() {
    for idx in 0..len_grid() {
        for n in get_neighbors(idx) {
            assert!(n < len_grid());
        }
    }
}
