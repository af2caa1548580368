//! Creating scenes.

use vstd::prelude::*;

use crate::entity::repository::Error as RepositoryError;
use crate::entity::service::{Error, Result};
use crate::scene::entity::repository::{any_matches, Query, QueryView, Repository};
use crate::scene::entity::{Entity, Status};

use super::{Ready, Service};

verus! {

/// Input requirements for [`Create::create()`]
#[derive(Clone, Copy, Debug)]
pub struct Input<'c> {
    /// name to assign to the [`Entity`]
    pub name: &'c str,
}

impl<'c> Input<'c> {
    /// Shorthand for instanciating a new [`Input`] instance
    pub fn new(name: &'c str) -> (i: Self)
        ensures
            i.name@ == name@,
    {
        Input { name }
    }
}

/// A query for scenes with the given name, whatever their status.
pub open spec fn name_query(name: Seq<char>) -> QueryView {
    QueryView { name: Some(name), status: None }
}

/// Store an [`Entity`] in the repository
pub trait Create: Ready {
    /// Creates an entity using the provided [`Input`], and stores it in the repository
    fn create(&mut self, input: &Input) -> Result<Entity>
        requires
            old(self).ready(),
    ;
}

impl<R: Repository> Create for Service<R> {
    /// Creates a scene with the given name, unless a scene with that name exists:
    /// a fresh scene (a new id, the name, an unknown status, no timestamps) is
    /// handed to the repository, and what the repository stored is returned.
    fn create(&mut self, input: &Input) -> (r: Result<Entity>)
        ensures
            final(self).repository().inv(),
            final(self).repository().reliable() == old(self).repository().reliable(),
            match r {
                Ok(e) => {
                    &&& !any_matches(old(self).repository().scenes(), name_query(input.name@))
                    &&& e.name@ == input.name@
                    &&& e.status == Status::Unknown
                    &&& e.created_at is Some
                    &&& e.updated_at is Some
                    &&& !old(self).repository().scenes().contains_key(e.id@)
                    &&& final(self).repository().scenes() == old(self).repository().scenes().insert(
                        e.id@,
                        e,
                    )
                },
                Err(Error::NotUnique(n)) => {
                    &&& n@ == input.name@
                    &&& any_matches(old(self).repository().scenes(), name_query(input.name@))
                    &&& final(self).repository().scenes() == old(self).repository().scenes()
                },
                Err(Error::Repository(RepositoryError::Conflict(_))) => {
                    &&& final(self).repository().scenes() == old(self).repository().scenes()
                    // with a reliable backend: the freshly generated id was already taken
                    &&& old(self).repository().reliable() ==> {
                        &&& !any_matches(old(self).repository().scenes(), name_query(input.name@))
                        &&& exists|k: Seq<char>| old(self).repository().scenes().contains_key(k)
                    }
                },
                Err(Error::Repository(_)) => !old(self).repository().reliable(),
                Err(_) => false,
            },
    {
        let mut q = Query::builder();
        let query = q.name_eq(input.name).build();
        let exists = match self.repo.scenes_exists(&query) {
            Ok(b) => b,
            Err(e) => return Err(Error::Repository(e)),
        };
        if exists {
            Err(Error::NotUnique(input.name.to_owned()))
        } else {
            let scene = Entity::new(input.name.to_owned());
            let ghost id = scene.id@;
            match self.repo.scenes_create(scene) {
                Ok(e) => Ok(e),
                Err(err) => {
                    proof {
                        if err is Conflict {
                            assert(self.repo.scenes().contains_key(id));
                        }
                    }
                    Err(Error::Repository(err))
                },
            }
        }
    }
}

} // verus!
