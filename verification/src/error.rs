//! Failure taxonomy shared by every component of the library.

use vstd::prelude::*;

verus! {

/// Every failure a library operation can surface to its caller.
///
/// Nothing is retried inside the library: each failure is returned as a
/// tagged value to the immediate caller.
#[derive(Debug, Clone, PartialEq, Eq)]
pub enum Error {
    /// An opaque failure surfaced from a backend collaborator.
    ServiceError(String),
    /// The requested target format cannot be satisfied.
    UnsupportedFormatError,
    /// No registered backend module matched the request.
    NoAvailableModules,
    /// A container, stream-selection or codec failure in the multiplex
    /// pipeline.
    RemuxError(String),
    /// A filesystem or network transport failure.
    IoError(String),
}

} // verus!
