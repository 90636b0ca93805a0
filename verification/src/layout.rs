//! Sizes and alignments, and the rule that decides whether a cell allocated
//! for one type can store a value of another.

use vstd::prelude::*;
use vstd::layout::{align_of, size_of};

verus! {

/// The storage requirements of a type: its size and its alignment, in bytes.
#[derive(Clone, Copy, PartialEq, Eq, Structural, Debug)]
pub struct Layout {
    pub size: usize,
    pub align: usize,
}

/// The rule that a pair of layouts breaks, with the two numbers that break it.
#[derive(Clone, Copy, PartialEq, Eq, Structural, Debug)]
pub enum LayoutMismatch {
    /// The two types differ in size. Nothing is moved or resized in a cell, so
    /// the new value has to fill it exactly.
    SizeMismatch { source: usize, target: usize },
    /// The new type asks for a stricter alignment than the cell was allocated
    /// with.
    InsufficientAlignment { source: usize, target: usize },
}

impl LayoutMismatch {
    /// The sentence for the broken rule.
    pub open spec fn text(self) -> Seq<char> {
        match self {
            LayoutMismatch::SizeMismatch { .. } => "`T` and `U` are of different sizes"@,
            LayoutMismatch::InsufficientAlignment { .. } => "alignment of `U` is too large"@,
        }
    }

    /// Says in words which rule is broken, for a message to the caller.
    pub fn message(&self) -> (text: &'static str)
        ensures
            text@ == self.text(),
        no_unwind
    {
        match self {
            LayoutMismatch::SizeMismatch { .. } => "`T` and `U` are of different sizes",
            LayoutMismatch::InsufficientAlignment { .. } => "alignment of `U` is too large",
        }
    }
}

impl Layout {
    /// The layout of `T`.
    pub open spec fn of_type<T>() -> Layout {
        Layout { size: size_of::<T>() as usize, align: align_of::<T>() as usize }
    }

    /// A cell with layout `self` can store a value with layout `target`: the
    /// sizes are equal and the cell is aligned at least as strictly as
    /// `target` asks.
    pub open spec fn fits(self, target: Layout) -> bool {
        self.size == target.size && self.align >= target.align
    }

    /// The outcome of the comparison: `Ok` where `target` fits, else the rule that
    /// is broken. The sizes are compared first, so a pair that breaks both
    /// rules is reported as a size mismatch.
    pub open spec fn verdict(self, target: Layout) -> Result<(), LayoutMismatch> {
        if self.size != target.size {
            Err(LayoutMismatch::SizeMismatch { source: self.size, target: target.size })
        } else if self.align < target.align {
            Err(
                LayoutMismatch::InsufficientAlignment { source: self.align, target: target.align },
            )
        } else {
            Ok(())
        }
    }

    /// Reads the layout of `T` from the compiler.
    pub fn of<T>() -> (layout: Layout)
        ensures
            layout == Layout::of_type::<T>(),
            layout.size as nat == size_of::<T>(),
            layout.align as nat == align_of::<T>(),
        no_unwind
    {
        Layout { size: core::mem::size_of::<T>(), align: core::mem::align_of::<T>() }
    }

    /// Decides whether a cell with layout `self` can be reused for a value
    /// with layout `target`.
    pub fn reusable_for(&self, target: &Layout) -> (r: Result<(), LayoutMismatch>)
        ensures
            r == self.verdict(*target),
            r is Ok <==> self.fits(*target),
        no_unwind
    {
        if self.size != target.size {
            Err(LayoutMismatch::SizeMismatch { source: self.size, target: target.size })
        } else if self.align < target.align {
            Err(
                LayoutMismatch::InsufficientAlignment { source: self.align, target: target.align },
            )
        } else {
            Ok(())
        }
    }
}

} // verus!
