//! Errors reported by the application-shell wrappers.

use vstd::prelude::*;

verus! {

/// A failure of an application-shell operation, with a short description.
#[derive(Debug, Clone, Copy, PartialEq, Eq)]
pub enum Error {
    /// A native call returned null where the contract implies success.
    NullReference(&'static str),
    /// An operation was attempted that the current state does not allow.
    InvalidOperation(&'static str),
    /// A constructor-style native call failed.
    CreationFailed(&'static str),
    /// A host-side precondition failed before any native call was made.
    InvalidArgument(&'static str),
    /// A named resource could not be found.
    ResourceNotFound(&'static str),
    /// The native layer could not allocate a resource.
    ResourceAllocationFailed(&'static str),
    /// Storage for a callback registration could not be acquired.
    CallbackRegistrationFailed(&'static str),
}

impl Error {
    /// The short description carried by this error.
    pub fn description(&self) -> (r: &'static str)
        ensures
            r == self.spec_description(),
    {
        match self {
            Error::NullReference(d) => d,
            Error::InvalidOperation(d) => d,
            Error::CreationFailed(d) => d,
            Error::InvalidArgument(d) => d,
            Error::ResourceNotFound(d) => d,
            Error::ResourceAllocationFailed(d) => d,
            Error::CallbackRegistrationFailed(d) => d,
        }
    }

    /// The description an [`Error`] carries.
    pub open spec fn spec_description(self) -> &'static str {
        match self {
            Error::NullReference(d) => d,
            Error::InvalidOperation(d) => d,
            Error::CreationFailed(d) => d,
            Error::InvalidArgument(d) => d,
            Error::ResourceNotFound(d) => d,
            Error::ResourceAllocationFailed(d) => d,
            Error::CallbackRegistrationFailed(d) => d,
        }
    }
}

} // verus!
