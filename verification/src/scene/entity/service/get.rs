//! Retrieving a scene.

use vstd::prelude::*;

use crate::entity::id::{id_error_for, valid_id_text};
use crate::entity::repository::Error as RepositoryError;
use crate::entity::service::{Error, Result};
use crate::entity::Id;
use crate::scene::entity::{Entity, Repository};

use super::{Ready, Service};

verus! {

/// Input requirements for [`Get::get()`]
#[derive(Clone, Copy, Debug)]
pub struct Input<'g> {
    /// Specific entity id to retrieve from the repository
    pub id: &'g str,
}

impl<'g> Input<'g> {
    /// Shorthand for instantiating a new [`Input`] struct.
    pub fn new(id: &'g str) -> (i: Self)
        ensures
            i.id@ == id@,
    {
        Input { id }
    }
}

/// Retrieve a given scene [`Entity`] from the repository.
pub trait Get: Ready {
    /// Retrieves the scene entity matching the input from the repository.
    fn get(&self, input: &Input) -> Result<Entity>
        requires
            self.ready(),
    ;
}

impl<R: Repository> Get for Service<R> {
    /// Retrieves the scene with the given id.
    fn get(&self, input: &Input) -> (r: Result<Entity>)
        ensures
            match r {
                Ok(e) => {
                    &&& valid_id_text(input.id@)
                    &&& self.repository().scenes().contains_key(input.id@)
                    &&& e == self.repository().scenes()[input.id@]
                },
                Err(Error::InvalidEntityId(e)) => !valid_id_text(input.id@) && e == id_error_for(
                    input.id@,
                ),
                Err(Error::NotFound(t)) => {
                    &&& valid_id_text(input.id@)
                    &&& !self.repository().scenes().contains_key(input.id@)
                    &&& t@ == input.id@
                },
                Err(Error::Repository(_)) => !self.repository().reliable(),
                Err(_) => false,
            },
    {
        let id = match Id::parse(input.id) {
            Ok(id) => id,
            Err(e) => return Err(Error::InvalidEntityId(e)),
        };
        match self.repo.scenes_get(&id) {
            Ok(scene) => Ok(scene),
            Err(RepositoryError::NotFound(t)) => Err(Error::NotFound(t)),
            Err(e) => Err(Error::Repository(e)),
        }
    }
}

} // verus!
