//! What every allocation strategy has to provide.

use crate::ptr::AllocPtr;
use crate::slot::Slot;
use crate::zero::zero_bytes;
use crate::zero::ZeroValid;
use vstd::prelude::*;

verus! {

/// The uniform surface of an allocation strategy.
///
/// Each allocation either fails with the implementation's own error or
/// returns a live wrapper that is paired with this very allocator and holds
/// what the operation promises. When an allocation succeeds is left to the
/// strategy: a bounded one may refuse any request.
///
/// A value of the implementing type is a handle. What stands behind it (a
/// cursor, a free list, a pool of slots) is private to the implementation and
/// does not appear in these contracts.
pub trait Allocator: Sized {
    /// How this strategy reports that it could not satisfy a request.
    type Error;

    /// Allocates a block that holds the default value of `T`.
    fn allocate<'a, T: Default>(&'a self) -> (result: Result<AllocPtr<'a, T, Self>, Self::Error>)
        ensures
            result matches Ok(ptr) ==> ptr.allocator() == *self,
            result matches Ok(ptr) ==> !ptr.is_released(),
            result matches Ok(ptr) ==> T::default.ensures((), *ptr.value()),
    ;

    /// Allocates a block for one `T` without initializing it. Nothing is
    /// promised of the slot's content: it has to be written before it is
    /// read.
    fn allocate_uninit<'a, T>(&'a self) -> (result: Result<
        AllocPtr<'a, Slot<T>, Self>,
        Self::Error,
    >)
        ensures
            result matches Ok(ptr) ==> ptr.allocator() == *self,
            result matches Ok(ptr) ==> !ptr.is_released(),
    ;

    /// Allocates a block whose bytes are all zero, which is a value of `T`.
    fn allocate_zeroed<'a, T: ZeroValid>(&'a self) -> (result: Result<
        AllocPtr<'a, T, Self>,
        Self::Error,
    >)
        ensures
            result matches Ok(ptr) ==> ptr.allocator() == *self,
            result matches Ok(ptr) ==> !ptr.is_released(),
            result matches Ok(ptr) ==> ptr.value().bytes() == zero_bytes(T::size()),
    ;

    /// Allocates a contiguous block of `count` slots, none of them
    /// initialized. With a `count` of zero the block is empty; it is still an
    /// allocation of its own and is released like any other.
    fn allocate_slice<'a, T>(&'a self, count: usize) -> (result: Result<
        AllocPtr<'a, [Slot<T>], Self>,
        Self::Error,
    >)
        ensures
            result matches Ok(ptr) ==> ptr.allocator() == *self,
            result matches Ok(ptr) ==> !ptr.is_released(),
            result matches Ok(ptr) ==> ptr.value()@.len() == count,
    ;

    /// Allocates `count` uninitialized slots, exactly as `allocate_slice`
    /// does.
    fn allocate_uninit_slice<'a, T>(&'a self, count: usize) -> (result: Result<
        AllocPtr<'a, [Slot<T>], Self>,
        Self::Error,
    >)
        ensures
            result matches Ok(ptr) ==> ptr.allocator() == *self,
            result matches Ok(ptr) ==> !ptr.is_released(),
            result matches Ok(ptr) ==> ptr.value()@.len() == count,
    ;

    /// Takes a block back. This is the last step of `AllocPtr::release` and
    /// of nothing else: it is handed a wrapper that is paired with this
    /// allocator and whose owner has given it up.
    fn deallocate<'a, 'b: 'a, T: ?Sized>(&'a self, alloc_ptr: &AllocPtr<'b, T, Self>)
        requires
            alloc_ptr.allocator() == *self,
            alloc_ptr.is_released(),
    ;
}

} // verus!
