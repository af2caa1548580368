//! Errors reported by entity services.

pub use crate::services::{EntityServiceError as Error, EntityServiceResult as Result};
