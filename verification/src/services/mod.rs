//! Entity services shared error type and the small services of a projector.

pub mod projectors;
pub mod scene;
pub mod subroutine;
pub mod subroutines;
pub mod uhura;
pub use projectors::ProjectorsService;
pub use subroutines::SubroutinesService;
pub use uhura::UhuraService;

use vstd::prelude::*;

use crate::entity::{repository::Error as RepositoryError, IdError};

verus! {

/// Errors reported by entity services.
#[derive(Debug)]
pub enum EntityServiceError {
    /// The given text is not an entity id.
    InvalidEntityId(IdError),
    /// No entity exists with the given id (the id's text).
    NotFound(String),
    /// An entity with the given name already exists (the name).
    NotUnique(String),
    /// The repository reported an error.
    Repository(RepositoryError),
    /// Something unexpected happened (a description).
    Unexpected(String),
}

/// Result of an entity service operation.
pub type EntityServiceResult<T> = core::result::Result<T, EntityServiceError>;

} // verus!
