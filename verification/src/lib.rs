//! A 2D field of vector quantities on a fixed 100x100 grid. Each cell trades a
//! fixed fraction of its quantity with its eight clamped neighbors once per
//! discrete step, unless the receiving neighbor is already saturated. This
//! crate holds the grid data model, the neighbor topology, and the per-step
//! transfer decision; the floating-point arithmetic on the quantities
//! themselves lives with the caller, which hands plain values in and out.

pub mod grid;
pub mod render;
pub mod update;
pub mod vector;

pub use grid::Grid;
pub use vector::Vector;
