//! The error taxonomy of the access layer.

use vstd::prelude::*;

verus! {

/// Every failure that an operation of this layer can surface to its caller.
#[derive(Clone, Copy, Debug, PartialEq, Eq, Structural)]
pub enum RepoError {
    /// The connection target string is not a well-formed endpoint.
    InvalidEndpoint,
    /// The identifier string cannot be parsed by the engine's identifier
    /// grammar.
    InvalidDocumentId,
    /// A transport-level connection attempt failed.
    ConnectionFailure,
    /// An operation requiring the engine was issued after `stop`, or after
    /// the engine reported that its internal actor has halted.
    RepositoryStopped,
    /// A transaction against a document or text object could not be
    /// committed, or an addressed text or object reference is invalid or
    /// out of range.
    DocumentOperationFailure,
    /// The document could not be encoded to bytes.
    SerializationFailure,
}

impl RepoError {
    /// A short human-readable description of the error.
    pub fn message(&self) -> (r: &'static str)
        ensures
            self is InvalidEndpoint ==> r@ == "invalid endpoint URL"@,
            self is InvalidDocumentId ==> r@ == "invalid document ID"@,
            self is ConnectionFailure ==> r@ == "failed to connect"@,
            self is RepositoryStopped ==> r@ == "repository stopped"@,
            self is DocumentOperationFailure ==> r@ == "document operation failed"@,
            self is SerializationFailure ==> r@ == "failed to serialize document"@,
    {
        match self {
            RepoError::InvalidEndpoint => "invalid endpoint URL",
            RepoError::InvalidDocumentId => "invalid document ID",
            RepoError::ConnectionFailure => "failed to connect",
            RepoError::RepositoryStopped => "repository stopped",
            RepoError::DocumentOperationFailure => "document operation failed",
            RepoError::SerializationFailure => "failed to serialize document",
        }
    }
}

} // verus!
