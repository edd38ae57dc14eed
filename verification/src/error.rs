//! The shared error kind for allocators that do not need a taxonomy of their own.

use vstd::prelude::*;

verus! {

/// The one failure an allocator reports when it has nothing more to tell:
/// the request could not be satisfied.
#[derive(Debug, Clone, Copy, PartialEq, Eq, Structural)]
pub struct AllocError;

impl AllocError {
    /// The text shown for this error.
    pub open spec fn spec_message() -> Seq<char> {
        "an allocation error occurred"@
    }

    /// Renders the error for a human reader.
    pub fn message(&self) -> (text: String)
        ensures
            text@ == Self::spec_message(),
    {
        String::from_str("an allocation error occurred")
    }
}

} // verus!
