//! The ways in which an operation of the library can fail.

use vstd::prelude::*;

verus! {

/// What is wrong with what was given.
#[derive(Debug, Clone, Copy, PartialEq, Eq, Structural)]
pub enum Invalid {
    /// A new record has no title.
    EmptyTitle,
    /// A new record's priority is none of "normal", "medium", "high", "low".
    UnknownPriority,
    /// A change was asked for while no record is selected.
    NoSelection,
}

/// Why an operation did not do what was asked. That a record is absent is no
/// such reason: the store answers it as it answers success, and says which.
#[derive(Debug, Clone, Copy, PartialEq, Eq, Structural)]
pub enum TodoError {
    /// The store cannot be opened or written.
    StorageUnavailable,
    /// What was given is not accepted; nothing was written.
    ValidationError(Invalid),
    /// No credential is kept, or the one kept is empty.
    CredentialMissing,
    /// The remote service refused the request or answered what cannot be read.
    UpstreamError,
}

} // verus!
