//! The cleanup guard of a transformation.
//!
//! While the transforming function runs, the cell holds no live value: the
//! old one has been read out, the new one is not written yet. If the function
//! is left by unwinding at that point, the only thing still owed is the
//! memory itself. The guard is the record of that debt. It says what to hand
//! back to the allocator, and it says so at most once.

use vstd::prelude::*;
use vstd::layout::{layout_for_type_is_valid, valid_layout};
use crate::cell::{Owned, RawCell};
use crate::layout::Layout;

verus! {

/// A guard over one cell. It is armed when it is made, and it is disarmed
/// either by [`Guard::disarm`], once the cell holds its new value, or by
/// firing. None of its functions unwinds, so it can fire while the stack is
/// unwound.
#[derive(Debug)]
pub struct Guard {
    cell: RawCell,
    armed: bool,
}

/// What a [`Guard`] stands for: the cell it watches, and whether it still owes
/// the cell's memory to the allocator.
pub struct GuardView {
    pub cell: RawCell,
    pub armed: bool,
}

impl GuardView {
    /// What the guard gives back to the allocator if the scope is left now:
    /// the watched cell if it is armed, nothing if it is not.
    pub open spec fn owes(self) -> Option<RawCell> {
        if self.armed {
            Some(self.cell)
        } else {
            None
        }
    }

    /// The same guard, disarmed.
    pub open spec fn disarmed(self) -> GuardView {
        GuardView { cell: self.cell, armed: false }
    }
}

impl View for Guard {
    type V = GuardView;

    closed spec fn view(&self) -> GuardView {
        GuardView { cell: self.cell, armed: self.armed }
    }
}

impl Guard {
    #[verifier::type_invariant]
    spec fn well_formed(self) -> bool {
        &&& valid_layout(self.cell.layout.size, self.cell.layout.align)
        &&& self.cell.addr as int % self.cell.layout.align as int == 0
    }

    /// Arms a guard for `cell`. The guard remembers the address and the layout
    /// of `T`, the type that the cell holds now, and nothing of the value.
    pub fn arm<T>(cell: &Owned<T>) -> (guard: Guard)
        ensures
            guard@ == (GuardView { cell: cell@.raw(), armed: true }),
        no_unwind
    {
        layout_for_type_is_valid::<T>();
        Guard { cell: cell.raw(), armed: true }
    }

    /// Whether the guard still owes the cell's memory.
    pub fn is_armed(&self) -> (armed: bool)
        ensures
            armed == self@.armed,
        no_unwind
    {
        self.armed
    }

    /// Disarms the guard: the cell holds a live value again and belongs to
    /// its new owner, so leaving the scope must free nothing.
    pub fn disarm(&mut self)
        ensures
            final(self)@ == old(self)@.disarmed(),
        no_unwind
    {
        proof {
            use_type_invariant(&*self);
        }
        self.armed = false;
    }

    /// Fires the guard, as leaving the scope does. An armed guard hands out
    /// the cell to deallocate, as raw bytes with the layout it was armed with,
    /// and is disarmed by that; a disarmed guard hands out nothing. No value
    /// is read, written or dropped.
    ///
    /// What is handed out can go to the allocator as it is: the layout is a
    /// valid one, and the address is aligned to it.
    pub fn fire(&mut self) -> (owed: Option<RawCell>)
        ensures
            owed == old(self)@.owes(),
            final(self)@ == old(self)@.disarmed(),
            owed matches Some(raw) ==> {
                &&& valid_layout(raw.layout.size, raw.layout.align)
                &&& raw.addr as int % raw.layout.align as int == 0
            },
        no_unwind
    {
        proof {
            use_type_invariant(&*self);
        }
        if self.armed {
            self.armed = false;
            Some(self.cell)
        } else {
            None
        }
    }
}

} // verus!
