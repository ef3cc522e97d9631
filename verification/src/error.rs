//! The kinds of failure a call can report.

use vstd::prelude::*;

verus! {

/// Why a call, a stream or a registration failed. Kinds are told apart by
/// variant, never by message text.
#[derive(Clone, Copy, Debug, PartialEq, Eq, Structural)]
pub enum RpcError {
    /// The connection was lost.
    TransportError,
    /// A payload could not be decoded.
    SerializationError,
    /// No method is registered under the requested name.
    UnknownMethod,
    /// A method of that name is already registered.
    DuplicateMethod,
    /// The handler's call signature does not fit the method's shape.
    ShapeMismatch,
    /// A chunk arrived with a sequence number other than the next expected.
    OutOfOrderChunk,
    /// A chunk arrived on a session that no longer accepts chunks.
    SessionClosed,
    /// A chunk's payload exceeds the configured chunk bound.
    ChunkTooLarge,
    /// The accumulated blob would exceed the configured blob bound.
    BlobTooLarge,
    /// The caller withdrew the call.
    Cancelled,
    /// The configured deadline elapsed.
    Timeout,
}

/// How far the damage of an error reaches.
#[derive(Clone, Copy, Debug, PartialEq, Eq, Structural)]
pub enum ErrorScope {
    /// Misuse while the service is being set up; fatal at startup.
    Startup,
    /// A violation of the chunk protocol; ends the affected stream only.
    Stream,
    /// Ends the affected call.
    Call,
}

impl RpcError {
    /// The reach of this kind of error.
    pub open spec fn spec_scope(self) -> ErrorScope {
        match self {
            RpcError::UnknownMethod | RpcError::DuplicateMethod | RpcError::ShapeMismatch =>
                ErrorScope::Startup,
            RpcError::OutOfOrderChunk | RpcError::SessionClosed | RpcError::ChunkTooLarge
            | RpcError::BlobTooLarge => ErrorScope::Stream,
            RpcError::TransportError | RpcError::SerializationError | RpcError::Cancelled
            | RpcError::Timeout => ErrorScope::Call,
        }
    }

    /// The reach of this kind of error.
    #[verifier::when_used_as_spec(spec_scope)]
    pub fn scope(self) -> (r: ErrorScope)
        ensures
            r == self.spec_scope(),
    {
        match self {
            RpcError::UnknownMethod | RpcError::DuplicateMethod | RpcError::ShapeMismatch => {
                ErrorScope::Startup
            },
            RpcError::OutOfOrderChunk | RpcError::SessionClosed | RpcError::ChunkTooLarge
            | RpcError::BlobTooLarge => ErrorScope::Stream,
            RpcError::TransportError | RpcError::SerializationError | RpcError::Cancelled
            | RpcError::Timeout => ErrorScope::Call,
        }
    }

    /// Whether the error counts as a failure. A cancellation is the caller's
    /// own decision and does not.
    pub open spec fn spec_is_failure(self) -> bool {
        !(self is Cancelled)
    }

    /// Whether the error counts as a failure.
    #[verifier::when_used_as_spec(spec_is_failure)]
    pub fn is_failure(self) -> (r: bool)
        ensures
            r == self.spec_is_failure(),
    {
        match self {
            RpcError::Cancelled => false,
            _ => true,
        }
    }
}

} // verus!
