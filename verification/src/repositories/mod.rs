//! Repository implementations.

pub mod etcd;
pub mod memory;

use vstd::prelude::*;

verus! {

/// The repository backends Holodekk can run with.
#[derive(Clone, Copy, Debug, PartialEq, Eq, Structural)]
pub enum RepositoryKind {
    /// etcd
    Etcd,
    /// in-memory
    Memory,
}

} // verus!
