//! In-memory storage of subroutine records.

use vstd::prelude::*;

use crate::entity::repository::{Error, Result};
use crate::entity::Id;
use crate::repositories::memory::table::{as_map, unique_keys, Table};
use crate::subroutine::SubroutineEntity;

verus! {

/// Subroutine records, by id.
#[derive(Debug)]
pub struct SubroutinesMemoryStore {
    records: Table<SubroutineEntity>,
}

impl View for SubroutinesMemoryStore {
    type V = Seq<SubroutineEntity>;

    /// The records, in the order they were added.
    closed spec fn view(&self) -> Seq<SubroutineEntity> {
        self.records@
    }
}

/// The message of the conflict reported when adding a subroutine whose id is taken.
pub open spec fn subroutine_conflict_message(id: Seq<char>) -> Seq<char> {
    "Subroutine already exists with id "@ + id
}

impl SubroutinesMemoryStore {
    /// No two records share an id.
    pub open spec fn wf(&self) -> bool {
        unique_keys(self@)
    }

    /// The records, by the text of their ids.
    pub open spec fn subroutines(&self) -> Map<Seq<char>, SubroutineEntity> {
        as_map(self@)
    }

    /// An empty store.
    pub fn new() -> (s: Self)
        ensures
            s.wf(),
            s@ == Seq::<SubroutineEntity>::empty(),
            s.subroutines() == Map::<Seq<char>, SubroutineEntity>::empty(),
    {
        SubroutinesMemoryStore { records: Table::new() }
    }

    /// Adds a subroutine whose id is not yet taken.
    pub fn add(&mut self, subroutine: SubroutineEntity) -> (r: Result<()>)
        requires
            old(self).wf(),
        ensures
            final(self).wf(),
            match r {
                Ok(()) => {
                    &&& !old(self).subroutines().contains_key(subroutine.id@)
                    &&& final(self)@ == old(self)@.push(subroutine)
                    &&& final(self).subroutines() == old(self).subroutines().insert(
                        subroutine.id@,
                        subroutine,
                    )
                },
                Err(Error::Conflict(msg)) => {
                    &&& old(self).subroutines().contains_key(subroutine.id@)
                    &&& msg@ == subroutine_conflict_message(subroutine.id@)
                    &&& final(self)@ == old(self)@
                },
                Err(_) => false,
            },
    {
        let key = subroutine.id.to_string();
        if self.records.contains(&key) {
            let msg = "Subroutine already exists with id ".to_owned().concat(subroutine.id.as_str());
            Err(Error::Conflict(msg))
        } else {
            self.records.insert(subroutine);
            Ok(())
        }
    }

    /// All records, in the order they were added.
    pub fn all(&self) -> (r: Vec<SubroutineEntity>)
        requires
            self.wf(),
        ensures
            r@ == self@,
    {
        self.records.values()
    }

    /// Removes the subroutine with the given id, if it is stored.
    pub fn delete(&mut self, id: &Id) -> (r: Result<()>)
        requires
            old(self).wf(),
        ensures
            final(self).wf(),
            r is Ok,
            final(self).subroutines() == old(self).subroutines().remove(id@),
    {
        let key = id.to_string();
        let _ = self.records.remove(&key);
        Ok(())
    }

    /// Whether a subroutine with the given id is stored.
    pub fn contains(&self, id: &Id) -> (r: Result<bool>)
        requires
            self.wf(),
        ensures
            r matches Ok(b) && b == self.subroutines().contains_key(id@),
    {
        let key = id.to_string();
        if self.records.contains(&key) {
            Ok(true)
        } else {
            Ok(false)
        }
    }

    /// A copy of the subroutine with the given id.
    pub fn get(&self, id: &Id) -> (r: Result<SubroutineEntity>)
        requires
            self.wf(),
        ensures
            match r {
                Ok(e) => self.subroutines().contains_key(id@) && e == self.subroutines()[id@],
                Err(Error::NotFound(t)) => !self.subroutines().contains_key(id@) && t@ == id@,
                Err(_) => false,
            },
    {
        let key = id.to_string();
        match self.records.get(&key) {
            Some(e) => Ok(e),
            None => Err(Error::NotFound(key)),
        }
    }
}

impl Default for SubroutinesMemoryStore {
    fn default() -> (s: Self)
        ensures
            s.wf(),
            s@ == Seq::<SubroutineEntity>::empty(),
    {
        SubroutinesMemoryStore::new()
    }
}

} // verus!
