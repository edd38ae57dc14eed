//! What a caller may rely on across several operations.
//!
//! Each statement here follows one block through a sequence of calls and is
//! proved from the contracts of those calls alone, for every allocator and
//! every payload type that the calls admit.

use crate::allocator::Allocator;
use crate::ptr::AllocPtr;
use crate::slot::Slot;
use crate::zero::ZeroValid;
use core::ops::Deref;
use core::ops::DerefMut;
use vstd::prelude::*;

verus! {

/// A block from `allocate`, when read, yields a default value of its type.
///
/// `result` stands for what `allocate` returned and `content` for what
/// reading the wrapper returned.
pub proof fn lemma_default_then_read<'a, T: Default, A: Allocator>(
    allocator: &'a A,
    result: Result<AllocPtr<'a, T, A>, A::Error>,
    content: &T,
)
    requires
        call_ensures(A::allocate::<T>, (allocator,), result),
        result is Ok,
        call_ensures(<AllocPtr<'a, T, A> as Deref>::deref, (&result->Ok_0,), content),
    ensures
        T::default.ensures((), *content),
{
}

/// A block from `allocate_zeroed`, when its bytes are inspected, shows as
/// many bytes as a value of the payload type has, and every one of them is zero.
///
/// `result` stands for what `allocate_zeroed` returned, `content` for what
/// reading the wrapper returned and `bytes` for what `to_bytes` copied out.
pub proof fn lemma_zeroed_then_inspect<'a, T: ZeroValid, A: Allocator>(
    allocator: &'a A,
    result: Result<AllocPtr<'a, T, A>, A::Error>,
    content: &T,
    bytes: Vec<u8>,
)
    requires
        call_ensures(A::allocate_zeroed::<T>, (allocator,), result),
        result is Ok,
        call_ensures(<AllocPtr<'a, T, A> as Deref>::deref, (&result->Ok_0,), content),
        call_ensures(T::to_bytes, (content,), bytes),
    ensures
        bytes@.len() == T::size(),
        forall|i: int| 0 <= i < bytes@.len() ==> bytes@[i] == 0u8,
{
}

/// A block from `allocate_zeroed`, when read, yields the zero value of its
/// type: the one that `zeroed` returns. Blocks with the same bytes hold the
/// same value, so any two zeroed blocks of one type read alike.
///
/// `result` stands for what `allocate_zeroed` returned, `content` for what
/// reading the wrapper returned and `zero` for what `zeroed` returned.
pub proof fn lemma_zeroed_then_read<'a, T: ZeroValid, A: Allocator>(
    allocator: &'a A,
    result: Result<AllocPtr<'a, T, A>, A::Error>,
    content: &T,
    zero: T,
)
    requires
        call_ensures(A::allocate_zeroed::<T>, (allocator,), result),
        result is Ok,
        call_ensures(<AllocPtr<'a, T, A> as Deref>::deref, (&result->Ok_0,), content),
        call_ensures(T::zeroed, (), zero),
    ensures
        *content == zero,
{
    T::lemma_bytes_faithful(*content, zero);
}

/// A block from `allocate_uninit` that has been written in full reads back
/// as exactly the value written, whatever the block held before.
///
/// `ptr` is the wrapper that `allocate_uninit` returned, followed through
/// the write: `slot` is the write access it gave, into which `written` was
/// stored. `content` and `read` stand for what reading the wrapper and then
/// the slot returned afterwards.
pub proof fn lemma_write_then_read<'a, T, A: Allocator>(
    allocator: &'a A,
    ptr: &mut AllocPtr<'a, Slot<T>, A>,
    slot: &mut Slot<T>,
    written: T,
    content: &Slot<T>,
    read: &T,
)
    requires
        call_ensures(A::allocate_uninit::<T>, (allocator,), Ok(*ptr)),
        call_ensures(<AllocPtr<'a, Slot<T>, A> as DerefMut>::deref_mut, (ptr,), slot),
        call_ensures(Slot::<T>::write, (slot, written), ()),
        call_ensures(<AllocPtr<'a, Slot<T>, A> as Deref>::deref, (&*final(ptr),), content),
        call_ensures(Slot::<T>::get, (content,), read),
    ensures
        content.is_init(),
        *read == written,
        final(ptr).allocator() == *allocator,
{
}

/// Releasing a wrapper reaches the release operation of the allocator that the
/// wrapper is paired with, and hands it that very wrapper: given up, with
/// the block and the allocator it had.
pub proof fn lemma_release_hands_over_the_pair<'a, T: ?Sized, A: Allocator>(
    ptr: AllocPtr<'a, T, A>,
)
    requires
        call_ensures(AllocPtr::<'a, T, A>::release, (ptr,), ()),
    ensures
        call_ensures(A::deallocate::<T>, (&ptr.allocator(), &ptr.given_up()), ()),
        ptr.given_up().is_released(),
        ptr.given_up().value() == ptr.value(),
        ptr.given_up().allocator() == ptr.allocator(),
{
    ptr.lemma_given_up();
}

/// A block goes back to the allocator that produced it, whatever was written
/// to it in between, and it goes back as it was last written. Which
/// allocator is told depends on the wrapper alone, not on what other
/// allocators of the same type there are.
///
/// `ptr` is a wrapper paired with `allocator`, as every allocation of
/// `allocator` returns it, followed through a write: `content` is the write
/// access it gave. The wrapper is released afterwards.
pub proof fn lemma_release_goes_to_the_producer<'a, T: ?Sized, A: Allocator>(
    allocator: &'a A,
    ptr: &mut AllocPtr<'a, T, A>,
    content: &mut T,
)
    requires
        ptr.allocator() == *allocator,
        call_ensures(<AllocPtr<'a, T, A> as DerefMut>::deref_mut, (ptr,), content),
        call_ensures(AllocPtr::<'a, T, A>::release, (*final(ptr),), ()),
    ensures
        call_ensures(A::deallocate::<T>, (allocator, &final(ptr).given_up()), ()),
        final(ptr).given_up().allocator() == *allocator,
        final(ptr).given_up().value() == &*final(content),
{
    final(ptr).lemma_given_up();
}

/// A block of slots is released as a whole: the allocator that produced it is
/// handed a wrapper of all `count` slots, for any `count`, zero included.
///
/// `result` stands for what `allocate_slice` returned; the wrapper in it is
/// released.
pub proof fn lemma_slice_is_released_whole<'a, T, A: Allocator>(
    allocator: &'a A,
    count: usize,
    result: Result<AllocPtr<'a, [Slot<T>], A>, A::Error>,
)
    requires
        call_ensures(A::allocate_slice::<T>, (allocator, count), result),
        result is Ok,
        call_ensures(AllocPtr::<'a, [Slot<T>], A>::release, (result->Ok_0,), ()),
    ensures
        call_ensures(
            A::deallocate::<[Slot<T>]>,
            (allocator, &(result->Ok_0).given_up()),
            (),
        ),
        (result->Ok_0).given_up().value()@.len() == count,
        (result->Ok_0).given_up().is_released(),
{
    (result->Ok_0).lemma_given_up();
}

} // verus!
