//! A concurrency-safe access layer over a replicated, mergeable document
//! store: document lifecycle (creation, lookup, persistence), peer
//! connectivity for synchronization, and structured read/write access to
//! document contents, including a character-addressed collaborative text
//! type.

pub mod doc;
pub mod engine;
pub mod errors;
pub mod ident;
pub mod repo;
pub mod tasks;

pub use errors::RepoError;
