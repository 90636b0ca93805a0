//! A heap cell, seen as typed and seen as raw memory.

use vstd::prelude::*;
use vstd::layout::align_of;
use crate::layout::Layout;

verus! {

/// A heap cell seen as untyped memory: where the allocation is, and the
/// layout it goes back to the allocator with. Nothing in it says whether the
/// bytes are a live value.
#[derive(Clone, Copy, PartialEq, Eq, Structural, Debug)]
pub struct RawCell {
    pub addr: usize,
    pub layout: Layout,
}

/// A heap cell that holds a live value of type `T`: the address of the
/// allocation, and the value that is stored there, held apart.
///
/// The address is a multiple of `T`'s alignment. An `Owned` is neither copied
/// nor cloned: there is one handle to a cell at a time.
#[derive(Debug, PartialEq, Eq)]
pub struct Owned<T> {
    addr: usize,
    value: T,
}

/// What an [`Owned`] stands for.
pub struct OwnedView<T> {
    pub addr: usize,
    pub value: T,
}

impl<T> OwnedView<T> {
    /// The cell as raw memory: its address, with the layout of `T`.
    pub open spec fn raw(self) -> RawCell {
        RawCell { addr: self.addr, layout: Layout::of_type::<T>() }
    }
}

impl<T> View for Owned<T> {
    type V = OwnedView<T>;

    closed spec fn view(&self) -> OwnedView<T> {
        OwnedView { addr: self.addr, value: self.value }
    }
}

impl<T> Owned<T> {
    #[verifier::type_invariant]
    spec fn aligned(self) -> bool {
        self.addr as nat % align_of::<T>() == 0
    }

    /// The cell at `addr` with `value` in it. An address that is not aligned
    /// for `T` cannot be such a cell, and the value is handed back.
    pub fn at(addr: usize, value: T) -> (r: Result<Owned<T>, T>)
        ensures
            match r {
                Ok(cell) => addr as nat % align_of::<T>() == 0 && cell@ == (OwnedView {
                    addr,
                    value,
                }),
                Err(v) => addr as nat % align_of::<T>() != 0 && v == value,
            },
        no_unwind
    {
        broadcast use vstd::layout::align_nonzero;

        if addr % core::mem::align_of::<T>() == 0 {
            Ok(Owned { addr, value })
        } else {
            Err(value)
        }
    }

    /// The cell at `addr` once `value` has been written into it.
    pub(crate) fn filled(addr: usize, value: T) -> (cell: Owned<T>)
        requires
            addr as nat % align_of::<T>() == 0,
        ensures
            cell@ == (OwnedView { addr, value }),
        no_unwind
    {
        Owned { addr, value }
    }

    /// The address of the allocation.
    pub fn addr(&self) -> (addr: usize)
        ensures
            addr == self@.addr,
            addr as nat % align_of::<T>() == 0,
        no_unwind
    {
        proof {
            use_type_invariant(self);
        }
        self.addr
    }

    /// The value in the cell.
    pub fn value(&self) -> (value: &T)
        ensures
            *value == self@.value,
        no_unwind
    {
        &self.value
    }

    /// The cell as raw memory.
    pub fn raw(&self) -> (raw: RawCell)
        ensures
            raw == self@.raw(),
            raw.addr as nat % align_of::<T>() == 0,
        no_unwind
    {
        proof {
            use_type_invariant(self);
        }
        RawCell { addr: self.addr, layout: Layout::of::<T>() }
    }

    /// Takes the cell apart: the address, and the value read out of it. From
    /// here on the value has one owner, the caller, and the cell is raw.
    pub fn into_parts(self) -> (parts: (usize, T))
        ensures
            parts.0 == self@.addr,
            parts.1 == self@.value,
            parts.0 as nat % align_of::<T>() == 0,
        no_unwind
    {
        proof {
            use_type_invariant(&self);
        }
        (self.addr, self.value)
    }
}

} // verus!
