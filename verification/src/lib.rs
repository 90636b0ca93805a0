//! In-place transformation of a heap cell: the value of a cell is replaced by
//! a value of another type that is stored in the same allocation.
//!
//! This crate holds the part of the operation that can be decided on plain
//! values: whether two types may share a cell, what becomes of the cell's
//! address and value, and what the cleanup guard has to give back to the
//! allocator when the transformation is cut short. The raw reads and writes
//! are left to the caller that owns the allocation.

pub mod alignment;
pub mod cell;
pub mod guard;
pub mod laws;
pub mod layout;
pub mod transform;

pub use cell::{Owned, OwnedView, RawCell};
pub use guard::{Guard, GuardView};
pub use layout::{Layout, LayoutMismatch};
pub use transform::{map_in_place, try_map_in_place, Rejected, TransformError};
