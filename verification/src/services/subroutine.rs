//! The subroutine entity service.

use vstd::prelude::*;

use crate::entity::id::{id_error_for, valid_id_text};
use crate::entity::repository::Error as RepositoryError;
use crate::entity::Id;
use crate::repositories::memory::MemoryRepository;
use crate::services::{EntityServiceError, EntityServiceResult};

verus! {

/// Input requirements for [`SubroutineEntityService::delete()`]
#[derive(Clone, Copy, Debug, PartialEq, Eq)]
pub struct DeleteSubroutineInput<'d> {
    /// text of the id of the subroutine to delete
    pub id: &'d str,
}

impl<'d> DeleteSubroutineInput<'d> {
    /// Shorthand for instanciating a new [`DeleteSubroutineInput`] instance
    pub fn new(id: &'d str) -> (i: Self)
        ensures
            i.id@ == id@,
    {
        DeleteSubroutineInput { id }
    }
}

/// The subroutine entity service.
#[derive(Debug)]
pub struct SubroutineEntityService {
    repo: MemoryRepository,
}

impl SubroutineEntityService {
    /// The repository the service works on.
    pub closed spec fn repository(&self) -> MemoryRepository {
        self.repo
    }

    /// A service working on the given repository.
    pub fn new(repo: MemoryRepository) -> (s: Self)
        ensures
            s.repository() == repo,
    {
        SubroutineEntityService { repo }
    }

    /// The repository the service works on.
    pub fn repo(&self) -> (r: &MemoryRepository)
        ensures
            *r == self.repository(),
    {
        &self.repo
    }

    /// Deletes the subroutine with the given id.
    pub fn delete(&mut self, input: &DeleteSubroutineInput) -> (r: EntityServiceResult<()>)
        requires
            old(self).repository().database().wf(),
        ensures
            final(self).repository().database().wf(),
            match r {
                Ok(()) => {
                    &&& valid_id_text(input.id@)
                    &&& old(self).repository().subroutines().contains_key(input.id@)
                    &&& final(self).repository().subroutines() == old(
                        self,
                    ).repository().subroutines().remove(input.id@)
                },
                Err(EntityServiceError::InvalidEntityId(e)) => {
                    &&& !valid_id_text(input.id@)
                    &&& e == id_error_for(input.id@)
                    &&& final(self).repository() == old(self).repository()
                },
                Err(EntityServiceError::NotFound(t)) => {
                    &&& valid_id_text(input.id@)
                    &&& !old(self).repository().subroutines().contains_key(input.id@)
                    &&& t@ == input.id@
                    &&& final(self).repository() == old(self).repository()
                },
                Err(_) => false,
            },
    {
        let id = match Id::parse(input.id) {
            Ok(id) => id,
            Err(e) => return Err(EntityServiceError::InvalidEntityId(e)),
        };
        // ensure the subroutine exists
        let subroutine = match self.repo.subroutines_get(&id) {
            Ok(s) => s,
            Err(RepositoryError::NotFound(t)) => return Err(EntityServiceError::NotFound(t)),
            Err(e) => return Err(EntityServiceError::Repository(e)),
        };
        proof {
            crate::repositories::memory::table::lemma_map_key(
                self.repo.database().subroutine_store()@,
                id@,
            );
        }
        // remove subroutine from the repository
        match self.repo.subroutines_delete(&subroutine.id) {
            Ok(()) => Ok(()),
            Err(e) => Err(EntityServiceError::Repository(e)),
        }
    }
}

} // verus!
