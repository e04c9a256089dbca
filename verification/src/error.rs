//! The failures that the service distinguishes.

use vstd::prelude::*;

verus! {

/// Why an operation did not produce its result.
#[derive(Debug, Clone, Copy, PartialEq, Eq, Structural)]
pub enum Error {
    /// The entity asked for is absent from the store.
    NotFound,
    /// The store could not run the request.
    StoreFailure,
    /// The queue holds no pending event: nothing to do now.
    QueueEmpty,
    /// An event's payload is not the document its name calls for.
    ParsePayloadFailure,
    /// A failure that nothing in the service recovers from.
    Fatal,
}

impl Error {
    /// A short description of the failure, for logs and reports.
    pub fn message(&self) -> (text: &'static str)
        ensures
            text@ == self.spec_message(),
    {
        match self {
            Error::NotFound => "Fund not found",
            Error::StoreFailure => "The store failed to run the request",
            Error::QueueEmpty => "Queue is empty",
            Error::ParsePayloadFailure => "Failed to parse the event payload",
            Error::Fatal => "Unrecoverable failure",
        }
    }

    /// The text of [`Error::message`].
    pub open spec fn spec_message(&self) -> Seq<char> {
        match self {
            Error::NotFound => "Fund not found"@,
            Error::StoreFailure => "The store failed to run the request"@,
            Error::QueueEmpty => "Queue is empty"@,
            Error::ParsePayloadFailure => "Failed to parse the event payload"@,
            Error::Fatal => "Unrecoverable failure"@,
        }
    }
}

} // verus!
