//! What holds of the crate's functions taken together. Each statement is over
//! the views and the spec functions that the functions' own contracts use.

use vstd::prelude::*;
use vstd::arithmetic::power2::is_pow2;
use crate::alignment::lemma_aligned_for_weaker;
use crate::cell::RawCell;
use crate::guard::GuardView;
use crate::layout::{Layout, LayoutMismatch};

verus! {

/// The comparison names the rule that is broken. A target of another size is
/// refused as a size mismatch whatever the alignments are; a target of the
/// same size is refused exactly if it asks for a stricter alignment, and then
/// as insufficient alignment; every other target is accepted.
pub proof fn lemma_verdict_names_the_broken_rule(source: Layout, target: Layout)
    ensures
        source.verdict(target) is Ok <==> source.fits(target),
        source.size != target.size ==> source.verdict(target) == Err::<(), LayoutMismatch>(
            LayoutMismatch::SizeMismatch { source: source.size, target: target.size },
        ),
        source.size == target.size && source.align < target.align ==> source.verdict(target)
            == Err::<(), LayoutMismatch>(
            LayoutMismatch::InsufficientAlignment { source: source.align, target: target.align },
        ),
{
}

/// A cell can always be reused for a value of the type it holds.
pub proof fn lemma_fits_is_reflexive(layout: Layout)
    ensures
        layout.fits(layout),
{
}

/// Reuse composes: what fits a cell that fits the first cell fits the first
/// cell.
pub proof fn lemma_fits_is_transitive(first: Layout, second: Layout, third: Layout)
    requires
        first.fits(second),
        second.fits(third),
    ensures
        first.fits(third),
{
}

/// Reuse keeps a cell aligned: an address that is aligned for the layout the
/// cell was allocated with is aligned for every layout that fits it.
pub proof fn lemma_reuse_keeps_alignment(cell: RawCell, target: Layout)
    requires
        is_pow2(cell.layout.align as int),
        is_pow2(target.align as int),
        cell.addr as int % cell.layout.align as int == 0,
        cell.layout.fits(target),
    ensures
        cell.addr as int % target.align as int == 0,
{
    lemma_aligned_for_weaker(cell.addr as int, cell.layout.align as int, target.align as int);
}

/// A guard pays its debt once. It owes the cell exactly while it is armed,
/// what it owes is the very cell it was armed for, and once it has fired or
/// has been disarmed it owes nothing, however often it fires after that.
pub proof fn lemma_guard_pays_once(guard: GuardView)
    ensures
        guard.owes() is Some <==> guard.armed,
        guard.armed ==> guard.owes() == Some(guard.cell),
        guard.disarmed().owes() is None,
        guard.disarmed().disarmed() == guard.disarmed(),
{
}

/// Repeated success reuses one cell. Let `cells` be the raw views of a cell
/// before and after each of a run of transformations that all succeeded: each
/// layout was accepted for the one before it, and each step kept the address.
/// Then every cell of the run is at the address of the first, the last layout
/// fits the first, and no guard of the run, disarmed as success disarms it,
/// owes anything: the allocation that the run began with is the one that is
/// live at its end, and nothing went back to the allocator.
pub proof fn lemma_repeated_success_keeps_the_cell(cells: Seq<RawCell>)
    requires
        cells.len() > 0,
        forall|i: int|
            0 <= i < cells.len() - 1 ==> {
                &&& (#[trigger] cells[i]).layout.verdict(cells[i + 1].layout) is Ok
                &&& cells[i + 1].addr == cells[i].addr
            },
    ensures
        forall|i: int| 0 <= i < cells.len() ==> (#[trigger] cells[i]).addr == cells[0].addr,
        cells[0].layout.fits(cells.last().layout),
        forall|i: int|
            0 <= i < cells.len() ==> (GuardView {
                cell: #[trigger] cells[i],
                armed: true,
            }).disarmed().owes() is None,
    decreases cells.len(),
{
    if cells.len() > 1 {
        let front = cells.drop_last();
        assert forall|i: int| 0 <= i < front.len() - 1 implies {
            &&& (#[trigger] front[i]).layout.verdict(front[i + 1].layout) is Ok
            &&& front[i + 1].addr == front[i].addr
        } by {
            assert(front[i] == cells[i]);
            assert(front[i + 1] == cells[i + 1]);
        }
        lemma_repeated_success_keeps_the_cell(front);
        let n = cells.len() - 1;
        assert(front[n - 1] == cells[n - 1]);
        assert(front[0] == cells[0]);
        assert(cells[n - 1].layout.verdict(cells[n].layout) is Ok);
        assert forall|i: int| 0 <= i < cells.len() implies (#[trigger] cells[i]).addr
            == cells[0].addr by {
            if i < n {
                assert(front[i] == cells[i]);
            }
        }
    }
}

} // verus!
