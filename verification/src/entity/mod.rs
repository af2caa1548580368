//! Shared entity building blocks: identifiers, timestamps and the errors of
//! repositories and entity services.

pub mod id;
pub use id::{Id, IdError};
pub mod time;
pub mod repository;
pub mod service;
