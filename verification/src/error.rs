//! The ways in which bringing up or using the instrumentation resource can fail.

use vstd::prelude::*;
use vstd::string::StringExecFns;

verus! {

/// Why an operation on the resource or on the manager failed.
///
/// Every failure reaches the caller as one of these; none is retried or
/// swallowed, and none undoes what succeeded before it.
#[derive(Clone, Copy, Debug, PartialEq, Eq, Structural)]
pub enum Error {
    /// The backing storage could not be created.
    AllocationFailure,
    /// The native open routine rejected the resource descriptor.
    OpenFailure,
    /// The kernel rejected the opened resource when it was loaded.
    LoadFailure,
    /// The loaded resource holds no program under the name that probes attach through.
    ProgramNotFound,
    /// The kernel rejected one probe attachment.
    AttachFailure,
}

impl Error {
    /// The text that `message` gives for each kind of failure.
    pub open spec fn message_spec(self) -> Seq<char> {
        match self {
            Error::AllocationFailure => "Couldn't allocate storage"@,
            Error::OpenFailure => "Couldn't open object"@,
            Error::LoadFailure => "Couldn't load object"@,
            Error::ProgramNotFound => "Couldn't get program"@,
            Error::AttachFailure => "Couldn't attach program"@,
        }
    }

    /// A short text for the failure, for the caller to show.
    pub fn message(&self) -> (text: String)
        ensures
            text@ == self.message_spec(),
    {
        match self {
            Error::AllocationFailure => String::from_str("Couldn't allocate storage"),
            Error::OpenFailure => String::from_str("Couldn't open object"),
            Error::LoadFailure => String::from_str("Couldn't load object"),
            Error::ProgramNotFound => String::from_str("Couldn't get program"),
            Error::AttachFailure => String::from_str("Couldn't attach program"),
        }
    }
}

} // verus!
