//! Placement of a cell on the drawing surface. The drawing primitive itself
//! is an external collaborator; this module fixes where each cell's square
//! stands.

use vstd::prelude::*;
use crate::grid::{col_of, row_of, GRID_HEIGHT, GRID_WIDTH, get_pos_idx};

verus! {

/// Side length, in pixels, of the square drawn for one cell.
pub const CELL_SIZE: usize = 5;

/// Top-left corner, in pixels, of the square drawn for the cell at a linear
/// index: the cell's coordinates scaled by the square's side length.
pub fn cell_origin(idx: usize) -> (r: (usize, usize))
    requires
        idx < GRID_WIDTH * GRID_HEIGHT,
    ensures
        r.0 == col_of(idx as int) * CELL_SIZE,
        r.1 == row_of(idx as int) * CELL_SIZE,
{
    let (x, y) = get_pos_idx(idx);
    (x * CELL_SIZE, y * CELL_SIZE)
}

} // verus!
