//! Storage for one value that may not have been written yet.

use vstd::prelude::*;

verus! {

/// Room for one `T` whose content is not known to be initialized.
///
/// A slot is either empty or holds a value. Reading is only permitted once a
/// value is known to be there; the contracts below make reading an empty slot
/// a precondition violation rather than a runtime event.
pub struct Slot<T> {
    content: Option<T>,
}

impl<T> View for Slot<T> {
    type V = Option<T>;

    /// `None` while nothing has been written, `Some(v)` once `v` has.
    closed spec fn view(&self) -> Option<T> {
        self.content
    }
}

impl<T> Slot<T> {
    /// Whether a value has been written to the slot.
    pub open spec fn is_init(&self) -> bool {
        self@ is Some
    }

    /// An empty slot.
    pub fn uninit() -> (slot: Self)
        ensures
            slot@ is None,
    {
        Slot { content: None }
    }

    /// Stores `value`, replacing whatever the slot held before.
    pub fn write(&mut self, value: T)
        ensures
            final(self)@ == Some(value),
    {
        self.content = Some(value);
    }

    /// Shared access to the value of an initialized slot.
    pub fn get(&self) -> (value: &T)
        requires
            self.is_init(),
        ensures
            Some(*value) == self@,
    {
        self.content.as_ref().unwrap()
    }

    /// Takes the value out of an initialized slot.
    pub fn into_inner(self) -> (value: T)
        requires
            self.is_init(),
        ensures
            Some(value) == self@,
    {
        self.content.unwrap()
    }
}

} // verus!
