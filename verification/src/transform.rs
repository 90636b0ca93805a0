//! The transformation itself.
//!
//! A cell goes through three states: it holds a live `T`, then it is raw
//! while the transforming function runs on the value that was read out of it,
//! then it holds a live `U`. It never holds both values. The call of the
//! transforming function is the one step that can be left by unwinding; if
//! it is, the cell ends raw, and what remains to do is to reclaim its memory.

use vstd::prelude::*;
use vstd::layout::{align_of, layout_for_type_is_valid, valid_layout};
use crate::alignment::lemma_aligned_for_weaker;
use crate::cell::{Owned, OwnedView, RawCell};
use crate::layout::{Layout, LayoutMismatch};

verus! {

/// A transformation that was refused: the rule that the two types break, and
/// the cell that was handed in, untouched.
#[derive(Debug, PartialEq, Eq)]
pub struct Rejected<T> {
    pub mismatch: LayoutMismatch,
    pub input: Owned<T>,
}

/// Why a transformation gave no new cell.
#[derive(Debug, PartialEq, Eq)]
pub enum TransformError<T, P> {
    /// The new type does not fit the cell. Nothing was touched.
    LayoutMismatch(Rejected<T>),
    /// The transforming function was cut short. It had taken the old value
    /// and produced no new one, so the cell holds no live value: `reclaim` is
    /// to go back to the allocator as raw bytes, and `signal`, which the
    /// function raised, is to be raised again after that.
    TransformPanicked { signal: P, reclaim: RawCell },
}

/// The cell at `addr`, which was allocated for a `T`, once `new` has been
/// written into it. A cell that is aligned for `T` is aligned for every type
/// that asks for no more.
fn refill<T, U>(addr: usize, new: U) -> (cell: Owned<U>)
    requires
        addr as nat % align_of::<T>() == 0,
        align_of::<U>() <= align_of::<T>(),
    ensures
        cell@ == (OwnedView { addr, value: new }),
    no_unwind
{
    proof {
        broadcast use vstd::layout::align_properties;

        lemma_aligned_for_weaker(addr as int, align_of::<T>() as int, align_of::<U>() as int);
    }
    Owned::filled(addr, new)
}

/// Replaces the value of the cell `x` by `f` of that value, in the same
/// allocation.
///
/// The layouts of `T` and `U` are compared before anything else. If `U` does
/// not fit, `f` is not called and `x` comes back as it was, with the rule that
/// is broken; this path does not unwind. If `U` fits, the old value is moved
/// out of the cell and handed to `f`, which owns it from then on, and the
/// result is the cell at the same address with the value that `f` returned.
/// The old value is never dropped here.
///
/// If `f` unwinds, the unwinding passes through unchanged. The cell is raw at
/// that point, and the [`Guard`](crate::guard::Guard) that was armed for it
/// says what to free. [`try_map_in_place`] is the same operation for a
/// function that reports such an exit as a value.
pub fn map_in_place<T, U, F>(x: Owned<T>, f: F) -> (r: Result<Owned<U>, Rejected<T>>) where
    F: FnOnce(T) -> U,

    requires
        Layout::of_type::<T>().fits(Layout::of_type::<U>()) ==> f.requires((x@.value,)),
    ensures
        match Layout::of_type::<T>().verdict(Layout::of_type::<U>()) {
            Ok(()) => {
                &&& r matches Ok(y)
                &&& y@.addr == x@.addr
                &&& f.ensures((x@.value,), y@.value)
            },
            Err(mismatch) => r == Err::<Owned<U>, Rejected<T>>(Rejected { mismatch, input: x }),
        },
    no_unwind when !Layout::of_type::<T>().fits(Layout::of_type::<U>())
{
    let source = Layout::of::<T>();
    let target = Layout::of::<U>();
    match source.reusable_for(&target) {
        Err(mismatch) => Err(Rejected { mismatch, input: x }),
        Ok(()) => {
            let (addr, old) = x.into_parts();
            let new = f(old);
            Ok(refill::<T, U>(addr, new))
        },
    }
}

/// [`map_in_place`] for a function that may be cut short, and says so by
/// returning `Err` with the signal to pass on.
///
/// On `Ok` of `f` the result is that of [`map_in_place`]. On `Err` the old
/// value is gone, consumed by `f`, no new value exists, and the error names
/// the one thing left to do before the signal is raised again: to hand the
/// raw cell back to the allocator, at the address of `x` and with the layout
/// of `T`. It is what an armed [`Guard`](crate::guard::Guard) for `x` hands
/// out when it fires.
pub fn try_map_in_place<T, U, P, F>(x: Owned<T>, f: F) -> (r: Result<
    Owned<U>,
    TransformError<T, P>,
>) where F: FnOnce(T) -> Result<U, P>
    requires
        Layout::of_type::<T>().fits(Layout::of_type::<U>()) ==> f.requires((x@.value,)),
    ensures
        match Layout::of_type::<T>().verdict(Layout::of_type::<U>()) {
            Ok(()) => match r {
                Ok(y) => y@.addr == x@.addr && f.ensures((x@.value,), Ok(y@.value)),
                Err(TransformError::TransformPanicked { signal, reclaim }) => {
                    &&& f.ensures((x@.value,), Err(signal))
                    &&& reclaim == x@.raw()
                    &&& valid_layout(reclaim.layout.size, reclaim.layout.align)
                    &&& reclaim.addr as int % reclaim.layout.align as int == 0
                },
                Err(TransformError::LayoutMismatch(_)) => false,
            },
            Err(mismatch) => r == Err::<Owned<U>, TransformError<T, P>>(
                TransformError::LayoutMismatch(Rejected { mismatch, input: x }),
            ),
        },
    no_unwind when !Layout::of_type::<T>().fits(Layout::of_type::<U>())
{
    let source = Layout::of::<T>();
    let target = Layout::of::<U>();
    match source.reusable_for(&target) {
        Err(mismatch) => Err(TransformError::LayoutMismatch(Rejected { mismatch, input: x })),
        Ok(()) => {
            layout_for_type_is_valid::<T>();
            let reclaim = x.raw();
            let (addr, old) = x.into_parts();
            match f(old) {
                Ok(new) => Ok(refill::<T, U>(addr, new)),
                Err(signal) => Err(TransformError::TransformPanicked { signal, reclaim }),
            }
        },
    }
}

} // verus!
