//! The elementary state unit of the grid: a diffusible quantity together with
//! an immutable grid-position tag.

use vstd::prelude::*;

verus! {

/// A (column, row) grid coordinate.
#[derive(Clone, Copy, Debug, PartialEq, Eq, Structural)]
pub struct Position {
    pub x: usize,
    pub y: usize,
}

/// One grid cell. `quantity` is the diffusible state, mutated every step;
/// `position` is the (column, row) coordinate, assigned once from the cell's
/// linear index when the grid is created and never changed afterward. The
/// quantity type is left generic so that the caller may store any plain
/// value, such as a pair of floating-point components, that this crate's
/// contracts need not inspect.
#[derive(Clone, Copy, Debug)]
pub struct Vector<Q> {
    pub quantity: Q,
    pub position: Position,
}

} // verus!
