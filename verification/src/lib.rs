//! A pluggable allocation capability and the scoped owner of what it hands out.
//!
//! [`Allocator`] is the contract that an allocation strategy implements: five
//! ways to ask for a block and one way to take it back. [`AllocPtr`] is what
//! an allocation returns: exclusive access to the block, tied to the allocator
//! that produced it, and given back to that allocator by a release that can
//! happen only once.
//!
//! [`Slot`] stands for memory that may not have been initialized, and
//! [`ZeroValid`] marks the payload types for which zeroed memory is a value.
//! The module [`guarantees`] states what holds of a block across several
//! calls.

pub mod allocator;
pub mod error;
pub mod guarantees;
pub mod ptr;
pub mod slot;
pub mod zero;

pub use crate::allocator::Allocator;
pub use crate::error::AllocError;
pub use crate::ptr::AllocPtr;
pub use crate::slot::Slot;
pub use crate::zero::ZeroValid;
