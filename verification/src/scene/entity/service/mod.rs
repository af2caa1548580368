//! Scene entity service: the operations offered to clients, on top of a
//! scene [`Repository`].

pub mod create;
pub use create::Create;
pub mod delete;
pub use delete::Delete;
pub mod find;
pub use find::Find;
pub mod get;
pub use get::Get;
pub mod laws;

use vstd::prelude::*;

use crate::scene::entity::Repository;

verus! {

/// Whether a service is in a state to serve requests.
pub trait Ready {
    /// The service's state allows it to serve requests.
    spec fn ready(&self) -> bool;
}

/// All the operations of the scene entity service.
pub trait Methods: Create + Delete + Find + Get {}

impl<T: Create + Delete + Find + Get> Methods for T {}

/// The scene entity service.
#[derive(Debug)]
pub struct Service<R: Repository> {
    repo: R,
}

impl<R: Repository> Ready for Service<R> {
    /// The repository's invariant holds.
    open spec fn ready(&self) -> bool {
        self.repository().inv()
    }
}

impl<R: Repository> Service<R> {
    /// The repository the service works on.
    pub closed spec fn repository(&self) -> R {
        self.repo
    }

    /// A service working on the given repository.
    pub fn new(repo: R) -> (s: Self)
        ensures
            s.repository() == repo,
    {
        Service { repo }
    }

    /// The repository the service works on.
    pub fn repo(&self) -> (r: &R)
        ensures
            *r == self.repository(),
    {
        &self.repo
    }
}

} // verus!
