//! Errors reported by entity repositories.

use vstd::prelude::*;

verus! {

/// Errors reported by a repository.
#[derive(Debug)]
pub enum Error {
    /// No record exists with the given key (the key's text).
    NotFound(String),
    /// A record with the same key already exists (a description).
    Conflict(String),
    /// A record with the same identity already exists (a description).
    Duplicate(String),
    /// A record with the same storage key already exists (the key's text).
    AlreadyExists(String),
    /// The repository backend could not be initialized (a description).
    Initialization(String),
    /// A subscription to repository events could not be set up (a description).
    Subscribe(String),
    /// The repository backend failed (a description).
    Unexpected(String),
}

/// Result of a repository operation.
pub type Result<T> = core::result::Result<T, Error>;

} // verus!
