//! In-memory storage of projector records.

use vstd::prelude::*;

use crate::entity::repository::{Error, Result};
use crate::projector::ProjectorEntity;
use crate::repositories::memory::table::{as_map, unique_keys, Record, Table};

verus! {

/// Projector records, by id.
#[derive(Debug)]
pub struct ProjectorsMemoryStore {
    records: Table<ProjectorEntity>,
}

impl View for ProjectorsMemoryStore {
    type V = Seq<ProjectorEntity>;

    /// The records, in the order they were added.
    closed spec fn view(&self) -> Seq<ProjectorEntity> {
        self.records@
    }
}

/// The message of the conflict reported when adding a projector whose id is taken.
pub open spec fn projector_conflict_message(id: Seq<char>) -> Seq<char> {
    "Projector already exists with id "@ + id
}

impl ProjectorsMemoryStore {
    /// No two records share an id.
    pub open spec fn wf(&self) -> bool {
        unique_keys(self@)
    }

    /// The records, by id.
    pub open spec fn projectors(&self) -> Map<Seq<char>, ProjectorEntity> {
        as_map(self@)
    }

    /// An empty store.
    pub fn new() -> (s: Self)
        ensures
            s.wf(),
            s@ == Seq::<ProjectorEntity>::empty(),
            s.projectors() == Map::<Seq<char>, ProjectorEntity>::empty(),
    {
        ProjectorsMemoryStore { records: Table::new() }
    }

    /// Adds a projector whose id is not yet taken.
    pub fn add(&mut self, projector: ProjectorEntity) -> (r: Result<()>)
        requires
            old(self).wf(),
        ensures
            final(self).wf(),
            match r {
                Ok(()) => {
                    &&& !old(self).projectors().contains_key(projector.key())
                    &&& final(self)@ == old(self)@.push(projector)
                    &&& final(self).projectors() == old(self).projectors().insert(
                        projector.key(),
                        projector,
                    )
                },
                Err(Error::Conflict(msg)) => {
                    &&& old(self).projectors().contains_key(projector.key())
                    &&& msg@ == projector_conflict_message(projector.key())
                    &&& final(self)@ == old(self)@
                },
                Err(_) => false,
            },
    {
        let key = projector.key_string();
        if self.records.contains(&key) {
            let msg = "Projector already exists with id ".to_owned().concat(key.as_str());
            Err(Error::Conflict(msg))
        } else {
            self.records.insert(projector);
            Ok(())
        }
    }

    /// All records, in the order they were added.
    pub fn all(&self) -> (r: Vec<ProjectorEntity>)
        requires
            self.wf(),
        ensures
            r@ == self@,
    {
        self.records.values()
    }

    /// Removes the projector with the given id.
    pub fn delete(&mut self, id: &str) -> (r: Result<()>)
        requires
            old(self).wf(),
        ensures
            final(self).wf(),
            final(self).projectors() == old(self).projectors().remove(id@),
            match r {
                Ok(()) => old(self).projectors().contains_key(id@),
                Err(Error::NotFound(t)) => {
                    &&& !old(self).projectors().contains_key(id@)
                    &&& t@ == id@
                    &&& final(self)@ == old(self)@
                },
                Err(_) => false,
            },
    {
        let key = id.to_owned();
        match self.records.remove(&key) {
            Some(_) => Ok(()),
            None => Err(Error::NotFound(key)),
        }
    }

    /// Whether a projector with the given id is stored.
    pub fn contains(&self, id: &str) -> (r: Result<bool>)
        requires
            self.wf(),
        ensures
            r matches Ok(b) && b == self.projectors().contains_key(id@),
    {
        let key = id.to_owned();
        Ok(self.records.contains(&key))
    }

    /// A copy of the projector with the given id.
    pub fn get(&self, id: &str) -> (r: Result<ProjectorEntity>)
        requires
            self.wf(),
        ensures
            match r {
                Ok(e) => self.projectors().contains_key(id@) && e == self.projectors()[id@],
                Err(Error::NotFound(t)) => !self.projectors().contains_key(id@) && t@ == id@,
                Err(_) => false,
            },
    {
        let key = id.to_owned();
        match self.records.get(&key) {
            Some(e) => Ok(e),
            None => Err(Error::NotFound(key)),
        }
    }
}

impl Default for ProjectorsMemoryStore {
    fn default() -> (s: Self)
        ensures
            s.wf(),
            s@ == Seq::<ProjectorEntity>::empty(),
    {
        ProjectorsMemoryStore::new()
    }
}

} // verus!
