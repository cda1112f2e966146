//! The Store's error taxonomy.
//!
//! Every failure the Store reports carries a uniform kind — read, write, or
//! other — plus a diagnostic message standing for the underlying cause.
//! Callers branch on the kind; the message is for display only.

use vstd::prelude::*;

verus! {

/// A storage failure, classified by the operation that failed.
#[derive(Debug, PartialEq, Eq)]
pub enum StoreError {
    /// The backend could not produce bytes for a key, or the bytes did not
    /// decode as a snapshot.
    ReadError(String),
    /// A failure that is neither a read nor a write, such as an enumeration
    /// error.
    OtherError(String),
    /// The backend could not persist the bytes it was given.
    WriteError(String),
}

impl StoreError {
    /// The diagnostic message describing the underlying cause.
    pub open spec fn message_view(&self) -> Seq<char> {
        match self {
            StoreError::ReadError(m) => m@,
            StoreError::OtherError(m) => m@,
            StoreError::WriteError(m) => m@,
        }
    }

    /// A description of the underlying cause.
    pub fn description(&self) -> (s: &str)
        ensures
            s@ == self.message_view(),
    {
        match self {
            StoreError::ReadError(m) => m.as_str(),
            StoreError::OtherError(m) => m.as_str(),
            StoreError::WriteError(m) => m.as_str(),
        }
    }
}

} // verus!
