//! Errors reported by the renderer-side wrappers.

use vstd::prelude::*;

verus! {

/// A failure of a renderer-side operation.
#[derive(Debug, Clone, PartialEq, Eq)]
pub enum Error {
    /// A native call returned null where the contract implies success.
    NullReference(&'static str),
    /// An operation was attempted that the current state does not allow.
    InvalidOperation(&'static str),
    /// Script evaluation raised an exception; the payload is the exception
    /// text as UTF-8 bytes.
    JavaScriptError(Vec<u8>),
    /// A host-side precondition failed before any native call was made.
    InvalidArgument(&'static str),
    /// An operation was attempted on a resource that has been destroyed.
    ResourceDestroyed(&'static str),
    /// A constructor-style native call failed.
    CreationFailed(&'static str),
    /// The native layer reported a failure of its own.
    UltralightError(&'static str),
}

} // verus!
