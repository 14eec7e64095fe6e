use vecquid::grid::get_idx_pos;
use vecquid::render::{cell_origin, CELL_SIZE};

#[test]
fn cell_squares_are_placed_at_scaled_coordinates() {
    assert_eq!(CELL_SIZE, 5);
    assert_eq!(cell_origin(0), (0, 0));
    assert_eq!(cell_origin(get_idx_pos(1, 0)), (5, 0));
    assert_eq!(cell_origin(get_idx_pos(0, 1)), (0, 5));
    assert_eq!(cell_origin(get_idx_pos(50, 50)), (250, 250));
    assert_eq!(cell_origin(get_idx_pos(99, 99)), (495, 495));
}
