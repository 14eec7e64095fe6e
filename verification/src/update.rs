//! The per-step transfer decision. For one active cell the engine reads, from
//! the frozen snapshot alone, whether the cell's own quantity is zero and
//! which of its eight neighbors are already saturated, and decides which
//! neighbor indices receive a transfer this step: a zero cell transfers
//! nothing, and a saturated neighbor is skipped entirely. The caller then
//! credits each planned target with the fixed fraction of the active cell's
//! quantity and debits the active cell once per planned target, writing only
//! into the live grid.

use vstd::prelude::*;
use crate::grid::{neighbor_index, GRID_HEIGHT, GRID_WIDTH, get_neighbors};

verus! {

/// The transfer targets of an active cell, restricted to the first `j`
/// neighbor positions: the neighbor indices whose saturation flag is unset,
/// in the fixed neighbor order.
pub open spec fn plan_prefix(idx: int, sat: Seq<bool>, j: int) -> Seq<usize>
    decreases j,
{
    if j <= 0 {
        Seq::empty()
    } else {
        plan_prefix(idx, sat, j - 1) + if !sat[j - 1] {
            seq![neighbor_index(idx, j - 1) as usize]
        } else {
            Seq::empty()
        }
    }
}

/// The transfer targets of an active cell over all eight neighbor positions.
pub open spec fn transfer_plan(idx: int, sat: Seq<bool>) -> Seq<usize> {
    plan_prefix(idx, sat, 8)
}

/// How many of the first `j` neighbor positions are unsaturated.
pub open spec fn unsaturated_count(sat: Seq<bool>, j: int) -> int
    decreases j,
{
    if j <= 0 {
        0
    } else {
        unsaturated_count(sat, j - 1) + if !sat[j - 1] {
            1int
        } else {
            0int
        }
    }
}

/// The neighbor indices that receive a transfer from the cell at `idx` this
/// step, in the fixed neighbor order. `active_zero` says whether the cell's
/// own squared magnitude, read from the snapshot, is zero; `saturated[j]`
/// says whether the squared magnitude of the neighbor at position `j`,
/// likewise read from the snapshot, exceeds the saturation threshold. A zero
/// cell neither gives nor receives on its own step, and a saturated neighbor
/// is skipped: no transfer to it and no matching debit of the active cell.
pub fn transfer_targets(idx: usize, active_zero: bool, saturated: &[bool; 8]) -> (r: Vec<usize>)
    requires
        idx < GRID_WIDTH * GRID_HEIGHT,
    ensures
        active_zero ==> r@ == Seq::<usize>::empty(),
        !active_zero ==> r@ == transfer_plan(idx as int, saturated@),
        forall|k: int| 0 <= k < r@.len() ==> r@[k] < GRID_WIDTH * GRID_HEIGHT,
{
    let mut r: Vec<usize> = Vec::new();
    if active_zero {
        return r;
    }
    let nbrs = get_neighbors(idx);
    let mut j: usize = 0;
    while j < 8
        invariant
            idx < GRID_WIDTH * GRID_HEIGHT,
            j <= 8,
            r@ == plan_prefix(idx as int, saturated@, j as int),
            forall|k: int| 0 <= k < 8 ==> nbrs@[k] == neighbor_index(idx as int, k),
            forall|k: int| 0 <= k < 8 ==> nbrs@[k] < GRID_WIDTH * GRID_HEIGHT,
            forall|k: int| 0 <= k < r@.len() ==> r@[k] < GRID_WIDTH * GRID_HEIGHT,
        decreases 8 - j,
    {
        if !saturated[j] {
            r.push(nbrs[j]);
        }
        j += 1;
    }
    r
}

/// Every planned transfer goes to a genuine unsaturated neighbor, and every
/// unsaturated neighbor position's index is planned: a target index appears
/// in the plan exactly when some unsaturated neighbor position carries it.
pub proof fn lemma_plan_membership(idx: int, sat: Seq<bool>, n: usize)
    requires
        sat.len() == 8,
    ensures
        transfer_plan(idx, sat).contains(n) <==> exists|j: int|
            0 <= j < 8 && !sat[j] && neighbor_index(idx, j) as usize == n,
{
    lemma_plan_prefix_membership(idx, sat, 8, n);
}

proof fn lemma_plan_prefix_membership(idx: int, sat: Seq<bool>, j: int, n: usize)
    requires
        0 <= j <= sat.len() == 8,
    ensures
        plan_prefix(idx, sat, j).contains(n) <==> exists|k: int|
            0 <= k < j && !sat[k] && neighbor_index(idx, k) as usize == n,
    decreases j,
{
    if j > 0 {
        lemma_plan_prefix_membership(idx, sat, j - 1, n);
        let prev = plan_prefix(idx, sat, j - 1);
        let cur = plan_prefix(idx, sat, j);
        if !sat[j - 1] {
            assert(cur == prev + seq![neighbor_index(idx, j - 1) as usize]);
            if plan_prefix(idx, sat, j).contains(n) {
                let w = choose|w: int| 0 <= w < cur.len() && cur[w] == n;
                if w < prev.len() {
                    assert(prev.contains(n));
                } else {
                    assert(neighbor_index(idx, j - 1) as usize == n);
                }
            }
            if exists|k: int| 0 <= k < j && !sat[k] && neighbor_index(idx, k) as usize == n {
                let k = choose|k: int| 0 <= k < j && !sat[k] && neighbor_index(idx, k) as usize == n;
                if k < j - 1 {
                    assert(prev.contains(n));
                    let w = choose|w: int| 0 <= w < prev.len() && prev[w] == n;
                    assert(cur[w] == n);
                    assert(cur.contains(n));
                } else {
                    assert(cur[cur.len() - 1] == n);
                    assert(cur.contains(n));
                }
            }
        } else {
            assert(cur == prev + Seq::<usize>::empty());
            assert(cur =~= prev);
        }
    }
}

/// A saturated neighbor position whose index is shared by no unsaturated
/// position receives no transfer this step: its index is absent from the
/// plan, so its quantity is not written and the active cell is not debited
/// on its account.
pub proof fn lemma_saturated_neighbor_skipped(idx: int, sat: Seq<bool>, j: int)
    requires
        0 <= idx < GRID_WIDTH * GRID_HEIGHT,
        sat.len() == 8,
        0 <= j < 8,
        sat[j],
        forall|k: int|
            0 <= k < 8 && !sat[k] ==> neighbor_index(idx, k) != neighbor_index(idx, j),
    ensures
        !transfer_plan(idx, sat).contains(neighbor_index(idx, j) as usize),
{
    let n = neighbor_index(idx, j) as usize;
    lemma_plan_membership(idx, sat, n);
    if transfer_plan(idx, sat).contains(n) {
        let k = choose|k: int| 0 <= k < 8 && !sat[k] && neighbor_index(idx, k) as usize == n;
        assert(0 <= neighbor_index(idx, k) < GRID_WIDTH * GRID_HEIGHT) by {
            crate::grid::lemma_neighbor_in_range(idx, k);
        }
        assert(neighbor_index(idx, k) == neighbor_index(idx, j));
    }
}

/// The active cell is debited exactly once per planned transfer: the plan's
/// length is the number of unsaturated neighbor positions, so the credits
/// handed out and the debits taken from the active cell pair up one for one.
pub proof fn lemma_plan_length(idx: int, sat: Seq<bool>)
    requires
        sat.len() == 8,
    ensures
        transfer_plan(idx, sat).len() == unsaturated_count(sat, 8),
{
    lemma_plan_prefix_length(idx, sat, 8);
}

proof fn lemma_plan_prefix_length(idx: int, sat: Seq<bool>, j: int)
    requires
        0 <= j <= sat.len(),
    ensures
        plan_prefix(idx, sat, j).len() == unsaturated_count(sat, j),
    decreases j,
{
    if j > 0 {
        lemma_plan_prefix_length(idx, sat, j - 1);
    }
}

} // verus!
