//! Why an operation on the shared store may fail.

use vstd::prelude::*;

verus! {

/// The one way in which an operation on the shared store fails. A key that is
/// absent is no failure: the operation reports it in its result.
#[derive(Debug, Clone, Copy, PartialEq, Eq, Structural)]
pub enum StoreError {
    /// An earlier holder of the lock ended abnormally while it held the lock,
    /// so nobody vouches for the entries any more.
    LockPoisoned,
}

impl StoreError {
    /// The text that describes this failure.
    pub open spec fn message_text(self) -> Seq<char> {
        match self {
            StoreError::LockPoisoned => "the store's lock is poisoned"@,
        }
    }

    /// A description of this failure for people.
    pub fn message(&self) -> (text: String)
        ensures
            text@ == self.message_text(),
    {
        match self {
            StoreError::LockPoisoned => "the store's lock is poisoned".to_owned(),
        }
    }
}

} // verus!
