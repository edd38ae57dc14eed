//! The scoped owner of one allocated block.

use crate::allocator::Allocator;
use core::marker::PhantomData;
use core::ops::Deref;
use core::ops::DerefMut;
use vstd::prelude::*;

verus! {

/// Exclusive ownership of one block of type `T`, together with the allocator
/// that the block has to go back to.
///
/// A wrapper is *live* from its construction until it is handed to
/// [`AllocPtr::release`], which consumes it. There is no way back and no
/// state in between: whoever holds a wrapper holds a live one, and nobody can
/// release the same block twice.
///
/// `release` is the orderly end of a wrapper. One that merely goes out of
/// scope gives up its storage without a word to the allocator, which is why
/// the type is `must_use`.
///
/// The lifetime `'a` is that of the borrow of the allocator under which the
/// block was produced: a wrapper cannot outlive it.
#[must_use]
pub struct AllocPtr<'a, T: ?Sized, A> {
    obj: Box<T>,
    allocator: A,
    released: Ghost<bool>,
    marker: PhantomData<&'a ()>,
}

impl<'a, T: ?Sized, A> AllocPtr<'a, T, A> {
    /// The content of the block.
    pub closed spec fn value(&self) -> &T {
        &*self.obj
    }

    /// The allocator that the block is returned to.
    pub closed spec fn allocator(&self) -> A {
        self.allocator
    }

    /// Whether the owner has given the block up. Only `release` brings a
    /// wrapper into this state, on its way to the allocator.
    pub closed spec fn is_released(&self) -> bool {
        self.released@
    }

    /// Wraps the block `obj` and pairs it with `allocator`.
    ///
    /// This is the constructor for allocator implementations: `allocator`
    /// must be the one that handed `obj` out, because it is the one that
    /// `release` will report to.
    pub fn new(obj: Box<T>, allocator: A) -> (ptr: Self)
        ensures
            ptr.value() == &*obj,
            ptr.allocator() == allocator,
            !ptr.is_released(),
    {
        AllocPtr { obj, allocator, released: Ghost(false), marker: PhantomData }
    }
}

impl<'a, T: ?Sized, A> Deref for AllocPtr<'a, T, A> {
    type Target = T;

    /// Read access to the block.
    fn deref(&self) -> (content: &T)
        ensures
            content == self.value(),
    {
        &*self.obj
    }
}

impl<'a, T: ?Sized, A> DerefMut for AllocPtr<'a, T, A> {
    /// Write access to the block. Whatever is written through the returned
    /// reference becomes the content of the block; the pairing with the
    /// allocator and the state of the wrapper are out of its reach.
    fn deref_mut(&mut self) -> (content: &mut T)
        ensures
            &*content == old(self).value(),
            final(self).value() == &*final(content),
            final(self).allocator() == old(self).allocator(),
            final(self).is_released() == old(self).is_released(),
    {
        &mut *self.obj
    }
}

impl<'a, T: ?Sized, A> AllocPtr<'a, T, A> {
    /// The wrapper as its owner gives it up: the same block and the same
    /// allocator, no longer live.
    pub closed spec fn given_up(self) -> Self {
        AllocPtr {
            obj: self.obj,
            allocator: self.allocator,
            released: Ghost(true),
            marker: self.marker,
        }
    }

    /// Giving a wrapper up changes its state and nothing else: the block and
    /// the allocator it goes back to are those of the wrapper before.
    pub proof fn lemma_given_up(self)
        ensures
            self.given_up().is_released(),
            self.given_up().value() == self.value(),
            self.given_up().allocator() == self.allocator(),
    {
    }
}

impl<'a, T: ?Sized, A: Allocator> AllocPtr<'a, T, A> {
    /// Ends the life of the wrapper: the allocator it is paired with is
    /// handed the wrapper, given up, to take the block back, and the wrapper
    /// is gone.
    pub fn release(self)
        ensures
            call_ensures(A::deallocate::<T>, (&self.allocator(), &self.given_up()), ()),
    {
        let mut ending = self;
        ending.released = Ghost(true);
        ending.allocator.deallocate(&ending);
    }
}

} // verus!
