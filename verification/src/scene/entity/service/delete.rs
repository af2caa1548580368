//! Deleting scenes.

use vstd::prelude::*;

use crate::entity::id::{id_error_for, valid_id_text};
use crate::entity::repository::Error as RepositoryError;
use crate::entity::service::{Error, Result};
use crate::entity::Id;
use crate::scene::entity::Repository;

use super::{Ready, Service};

verus! {

/// Input requirements for [`Delete::delete()`]
#[derive(Clone, Copy, Debug, PartialEq, Eq)]
pub struct Input<'d> {
    /// text of the id of the scene to delete
    pub id: &'d str,
}

impl<'d> Input<'d> {
    /// Shorthand for instanciating a new [`Input`] instance
    pub fn new(id: &'d str) -> (i: Self)
        ensures
            i.id@ == id@,
    {
        Input { id }
    }
}

/// Remove an entity from the repository
pub trait Delete: Ready {
    /// Removes the entity identified by the input from the repository
    fn delete(&mut self, input: &Input) -> Result<()>
        requires
            old(self).ready(),
    ;
}

impl<R: Repository> Delete for Service<R> {
    /// Deletes the scene with the given id.
    fn delete(&mut self, input: &Input) -> (r: Result<()>)
        ensures
            final(self).repository().inv(),
            final(self).repository().reliable() == old(self).repository().reliable(),
            match r {
                Ok(()) => {
                    &&& valid_id_text(input.id@)
                    &&& old(self).repository().scenes().contains_key(input.id@)
                    &&& final(self).repository().scenes() == old(self).repository().scenes().remove(
                        input.id@,
                    )
                },
                Err(Error::InvalidEntityId(e)) => {
                    &&& !valid_id_text(input.id@)
                    &&& e == id_error_for(input.id@)
                    &&& final(self).repository() == old(self).repository()
                },
                Err(Error::NotFound(t)) => {
                    &&& valid_id_text(input.id@)
                    &&& !old(self).repository().scenes().contains_key(input.id@)
                    &&& t@ == input.id@
                    &&& final(self).repository() == old(self).repository()
                },
                Err(Error::Repository(_)) => !old(self).repository().reliable(),
                Err(_) => false,
            },
    {
        let id = match Id::parse(input.id) {
            Ok(id) => id,
            Err(e) => return Err(Error::InvalidEntityId(e)),
        };
        // ensure the scene exists
        let scene = match self.repo.scenes_get(&id) {
            Ok(scene) => scene,
            Err(RepositoryError::NotFound(t)) => return Err(Error::NotFound(t)),
            Err(e) => return Err(Error::Repository(e)),
        };
        // remove scene from the repository
        match self.repo.scenes_delete(&scene.id) {
            Ok(()) => Ok(()),
            Err(e) => Err(Error::Repository(e)),
        }
    }
}

} // verus!
