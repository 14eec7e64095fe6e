//! Grid dimensions, the row-major index mapping, the clamped eight-neighbor
//! topology, and the grid container itself.

use vstd::prelude::*;
use crate::vector::{Position, Vector};

verus! {

/// Number of cells per row.
pub const GRID_WIDTH: usize = 100;

/// Number of rows.
pub const GRID_HEIGHT: usize = 100;

/// Column of the cell at a linear index.
pub open spec fn col_of(idx: int) -> int {
    idx % (GRID_WIDTH as int)
}

/// Row of the cell at a linear index.
pub open spec fn row_of(idx: int) -> int {
    idx / (GRID_WIDTH as int)
}

/// Linear index of the cell at a coordinate pair.
pub open spec fn index_of(x: int, y: int) -> int {
    y * (GRID_WIDTH as int) + x
}

/// Splits a linear index into its (column, row) coordinate pair.
pub fn get_pos_idx(idx: usize) -> (r: (usize, usize))
    ensures
        r.0 == col_of(idx as int),
        r.1 == row_of(idx as int),
{
    (idx % GRID_WIDTH, idx / GRID_WIDTH)
}

/// Recombines a coordinate pair into its linear index.
pub fn get_idx_pos(x: usize, y: usize) -> (r: usize)
    requires
        x < GRID_WIDTH,
        y < GRID_HEIGHT,
    ensures
        r == index_of(x as int, y as int),
        r < GRID_WIDTH * GRID_HEIGHT,
{
    y * GRID_WIDTH + x
}

/// Number of cells in the whole grid.
pub fn len_grid() -> (r: usize)
    ensures
        r == GRID_WIDTH * GRID_HEIGHT,
{
    GRID_WIDTH * GRID_HEIGHT
}

/// The two directions of the row-major index mapping invert each other: every
/// linear index round-trips through its coordinate pair, and every in-range
/// coordinate pair round-trips through its linear index.
pub proof fn lemma_index_bijection()
    ensures
        forall|idx: int|
            0 <= idx < GRID_WIDTH * GRID_HEIGHT ==> index_of(col_of(idx), row_of(idx)) == idx,
        forall|x: int, y: int|
            0 <= x < GRID_WIDTH && 0 <= y < GRID_HEIGHT ==> col_of(index_of(x, y)) == x
                && row_of(index_of(x, y)) == y,
{
    assert forall|idx: int| 0 <= idx < GRID_WIDTH * GRID_HEIGHT implies index_of(
        col_of(idx),
        row_of(idx),
    ) == idx by {
        vstd::arithmetic::div_mod::lemma_fundamental_div_mod(idx, GRID_WIDTH as int);
    }
    assert forall|x: int, y: int|
        0 <= x < GRID_WIDTH && 0 <= y < GRID_HEIGHT implies col_of(index_of(x, y)) == x && row_of(
        index_of(x, y),
    ) == y by {
        vstd::arithmetic::div_mod::lemma_fundamental_div_mod_converse(
            index_of(x, y),
            GRID_WIDTH as int,
            y,
            x,
        );
    }
}

/// A value clamped to an inclusive range.
pub open spec fn clamped(n: int, lo: int, hi: int) -> int {
    if n < lo {
        lo
    } else if n > hi {
        hi
    } else {
        n
    }
}

/// Column offset of the neighbor at a position in the fixed neighbor order:
/// west, east, south, north, northwest, northeast, southwest, southeast.
pub open spec fn neighbor_dx(j: int) -> int {
    if j == 0 {
        -1
    } else if j == 1 {
        1
    } else if j == 2 {
        0
    } else if j == 3 {
        0
    } else if j == 4 {
        -1
    } else if j == 5 {
        1
    } else if j == 6 {
        -1
    } else {
        1
    }
}

/// Row offset of the neighbor at a position in the fixed neighbor order.
pub open spec fn neighbor_dy(j: int) -> int {
    if j == 0 {
        0
    } else if j == 1 {
        0
    } else if j == 2 {
        1
    } else if j == 3 {
        -1
    } else if j == 4 {
        -1
    } else if j == 5 {
        -1
    } else if j == 6 {
        1
    } else {
        1
    }
}

/// Linear index of the neighbor at position `j` of the cell at `idx`, with
/// each axis clamped to the grid independently. Edge and corner cells thus
/// repeat some neighbor indices, and every neighbor index is in range.
pub open spec fn neighbor_index(idx: int, j: int) -> int {
    index_of(
        clamped(col_of(idx) + neighbor_dx(j), 0, GRID_WIDTH as int - 1),
        clamped(row_of(idx) + neighbor_dy(j), 0, GRID_HEIGHT as int - 1),
    )
}

/// Every neighbor index of an in-range cell is itself in range.
pub proof fn lemma_neighbor_in_range(idx: int, j: int)
    requires
        0 <= idx < GRID_WIDTH * GRID_HEIGHT,
    ensures
        0 <= neighbor_index(idx, j) < GRID_WIDTH * GRID_HEIGHT,
{
}

fn limit(n: i32, lo: i32, hi: i32) -> (r: usize)
    requires
        0 <= lo <= hi,
    ensures
        r == clamped(n as int, lo as int, hi as int),
{
    if n < lo {
        lo as usize
    } else if n > hi {
        hi as usize
    } else {
        n as usize
    }
}

/// The eight neighbor indices of a cell, in the fixed order west, east,
/// south, north, northwest, northeast, southwest, southeast, each axis
/// clamped to the grid edge rather than wrapped.
pub fn get_neighbors(idx: usize) -> (r: [usize; 8])
    requires
        idx < GRID_WIDTH * GRID_HEIGHT,
    ensures
        forall|j: int| 0 <= j < 8 ==> r@[j] == neighbor_index(idx as int, j),
        forall|j: int| 0 <= j < 8 ==> r@[j] < GRID_WIDTH * GRID_HEIGHT,
{
    let (x, y) = get_pos_idx(idx);
    let x = x as i32;
    let y = y as i32;
    let lo_x: i32 = 0;
    let hi_x: i32 = GRID_WIDTH as i32 - 1;
    let lo_y: i32 = 0;
    let hi_y: i32 = GRID_HEIGHT as i32 - 1;

    let r: [usize; 8] = [
        get_idx_pos(limit(x - 1, lo_x, hi_x), limit(y, lo_y, hi_y)),
        get_idx_pos(limit(x + 1, lo_x, hi_x), limit(y, lo_y, hi_y)),
        get_idx_pos(limit(x, lo_x, hi_x), limit(y + 1, lo_y, hi_y)),
        get_idx_pos(limit(x, lo_x, hi_x), limit(y - 1, lo_y, hi_y)),
        get_idx_pos(limit(x - 1, lo_x, hi_x), limit(y - 1, lo_y, hi_y)),
        get_idx_pos(limit(x + 1, lo_x, hi_x), limit(y - 1, lo_y, hi_y)),
        get_idx_pos(limit(x - 1, lo_x, hi_x), limit(y + 1, lo_y, hi_y)),
        get_idx_pos(limit(x + 1, lo_x, hi_x), limit(y + 1, lo_y, hi_y)),
    ];
    r
}

/// Column of the seed cell, the one cell perturbed when the grid is
/// initialized.
pub const CENTER_X: usize = 50;

/// Row of the seed cell.
pub const CENTER_Y: usize = 50;

/// Linear index of the seed cell.
pub const CENTER_IDX: usize = CENTER_Y * GRID_WIDTH + CENTER_X;

/// The cell a freshly created grid holds at a linear index: the zero quantity
/// and the position derived from that index.
pub open spec fn fresh_cell<Q>(zero: Q, i: int) -> Vector<Q> {
    Vector { quantity: zero, position: Position { x: col_of(i) as usize, y: row_of(i) as usize } }
}

/// The cell sequence of a freshly created grid.
pub open spec fn fresh_cells<Q>(zero: Q) -> Seq<Vector<Q>> {
    Seq::new((GRID_WIDTH * GRID_HEIGHT) as nat, |i: int| fresh_cell(zero, i))
}

/// The cell sequence of a freshly created grid whose center cell alone has
/// been given the seeded quantity.
pub open spec fn seeded_cells<Q>(zero: Q, seeded: Q) -> Seq<Vector<Q>> {
    fresh_cells(zero).update(
        CENTER_IDX as int,
        Vector { quantity: seeded, position: Position { x: CENTER_X, y: CENTER_Y } },
    )
}

/// A fixed-length, row-major grid of cells. The length and every cell's
/// position tag are set at creation and never change; only the quantities are
/// mutated in place.
pub struct Grid<Q> {
    cells: Vec<Vector<Q>>,
}

impl<Q> View for Grid<Q> {
    type V = Seq<Vector<Q>>;

    closed spec fn view(&self) -> Seq<Vector<Q>> {
        self.cells@
    }
}

impl<Q: Copy> Grid<Q> {
    /// The grid has exactly width times height cells and every cell's
    /// position tag agrees with its linear index under the row-major mapping.
    pub open spec fn wf(&self) -> bool {
        &&& self@.len() == GRID_WIDTH * GRID_HEIGHT
        &&& forall|i: int|
            0 <= i < self@.len() ==> (#[trigger] self@[i]).position == (Position {
                x: col_of(i) as usize,
                y: row_of(i) as usize,
            })
    }

    /// A new grid: every cell holds the zero quantity and the position
    /// derived from its linear index.
    pub fn new(zero: Q) -> (r: Grid<Q>)
        ensures
            r.wf(),
            r@ == fresh_cells(zero),
    {
        let n = len_grid();
        let mut cells: Vec<Vector<Q>> = Vec::new();
        let mut i: usize = 0;
        while i < n
            invariant
                n == GRID_WIDTH * GRID_HEIGHT,
                i <= n,
                cells@.len() == i,
                forall|k: int| 0 <= k < i ==> cells@[k] == fresh_cell(zero, k),
            decreases n - i,
        {
            let (x, y) = get_pos_idx(i);
            cells.push(Vector { quantity: zero, position: Position { x, y } });
            i += 1;
        }
        let r = Grid { cells };
        assert(r@ =~= fresh_cells(zero));
        r
    }

    /// Number of cells in this grid.
    pub fn len(&self) -> (r: usize)
        ensures
            r == self@.len(),
    {
        self.cells.len()
    }

    /// The quantity of the cell at a linear index.
    pub fn quantity(&self, idx: usize) -> (r: Q)
        requires
            idx < self@.len(),
        ensures
            r == self@[idx as int].quantity,
    {
        self.cells[idx].quantity
    }

    /// The position tag of the cell at a linear index.
    pub fn position(&self, idx: usize) -> (r: Position)
        requires
            idx < self@.len(),
        ensures
            r == self@[idx as int].position,
    {
        self.cells[idx].position
    }

    /// Replaces the quantity of one cell, leaving its position tag, every
    /// other cell, and the length unchanged.
    pub fn set_quantity(&mut self, idx: usize, q: Q)
        requires
            idx < old(self)@.len(),
        ensures
            final(self)@ == old(self)@.update(
                idx as int,
                Vector { quantity: q, position: old(self)@[idx as int].position },
            ),
            old(self).wf() ==> final(self).wf(),
    {
        let p = self.cells[idx].position;
        self.cells.set(idx, Vector { quantity: q, position: p });
        assert(old(self).wf() ==> self.wf());
    }

    /// Perturbs the grid's designated center cell by storing the seeded
    /// quantity there. The caller computes the seeded value from the cell's
    /// current quantity and the seed, so that repeated initialization
    /// compounds just as repeated seeding of the underlying quantity would.
    pub fn init(&mut self, seeded: Q)
        requires
            old(self).wf(),
        ensures
            final(self).wf(),
            final(self)@ == old(self)@.update(
                CENTER_IDX as int,
                Vector { quantity: seeded, position: Position { x: CENTER_X, y: CENTER_Y } },
            ),
    {
        assert(old(self)@[CENTER_IDX as int].position == (Position { x: CENTER_X, y: CENTER_Y }));
        self.set_quantity(CENTER_IDX, seeded);
    }

    /// Discards all state and replaces it with a freshly created grid whose
    /// center cell holds the seeded quantity: creation followed by
    /// initialization, as one step.
    pub fn reset(&mut self, zero: Q, seeded: Q)
        ensures
            final(self).wf(),
            final(self)@ == seeded_cells(zero, seeded),
    {
        *self = Grid::new(zero);
        self.init(seeded);
    }

    /// An independent deep copy, taken once per step as the frozen read
    /// source while the live grid is written.
    pub fn snapshot(&self) -> (r: Grid<Q>)
        ensures
            r@ == self@,
    {
        let n = self.cells.len();
        let mut cells: Vec<Vector<Q>> = Vec::new();
        let mut i: usize = 0;
        while i < n
            invariant
                n == self@.len(),
                i <= n,
                cells@.len() == i,
                forall|k: int| 0 <= k < i ==> cells@[k] == self@[k],
            decreases n - i,
        {
            cells.push(self.cells[i]);
            i += 1;
        }
        let r = Grid { cells };
        assert(r@ =~= self@);
        r
    }
}

/// After a reset, the grid is exactly a freshly created and then initialized
/// grid: every cell holds the zero quantity and the position derived from its
/// index, except the center cell, which holds the seeded quantity.
pub proof fn lemma_reset_determinism<Q>(zero: Q, seeded: Q)
    ensures
        seeded_cells(zero, seeded).len() == GRID_WIDTH * GRID_HEIGHT,
        seeded_cells(zero, seeded)[CENTER_IDX as int] == (Vector {
            quantity: seeded,
            position: Position { x: CENTER_X, y: CENTER_Y },
        }),
        forall|i: int|
            0 <= i < GRID_WIDTH * GRID_HEIGHT && i != CENTER_IDX ==> seeded_cells(zero, seeded)[i]
                == fresh_cell(zero, i),
{
}

} // verus!
