//! In-memory storage of scene records.

use vstd::prelude::*;

use crate::entity::repository::{Error, Result};
use crate::entity::Id;
use crate::repositories::memory::table::{as_map, unique_keys, Table};
use crate::scene::Entity;

verus! {

/// Scene records, by id.
#[derive(Debug)]
pub struct ScenesMemoryStore {
    records: Table<Entity>,
}

impl View for ScenesMemoryStore {
    type V = Seq<Entity>;

    /// The records, in the order they were added.
    closed spec fn view(&self) -> Seq<Entity> {
        self.records@
    }
}

/// The message of the conflict reported when adding a scene whose id is taken.
pub open spec fn scene_conflict_message(id: Seq<char>) -> Seq<char> {
    "Scene already exists with id "@ + id
}

impl ScenesMemoryStore {
    /// No two records share an id.
    pub open spec fn wf(&self) -> bool {
        unique_keys(self@)
    }

    /// The records, by the text of their ids.
    pub open spec fn scenes(&self) -> Map<Seq<char>, Entity> {
        as_map(self@)
    }

    /// An empty store.
    pub fn new() -> (s: Self)
        ensures
            s.wf(),
            s@ == Seq::<Entity>::empty(),
            s.scenes() == Map::<Seq<char>, Entity>::empty(),
    {
        ScenesMemoryStore { records: Table::new() }
    }

    /// Adds a scene whose id is not yet taken.
    pub fn add(&mut self, scene: Entity) -> (r: Result<()>)
        requires
            old(self).wf(),
        ensures
            final(self).wf(),
            match r {
                Ok(()) => !old(self).scenes().contains_key(scene.id@) && final(self)@ == old(self)@.push(
                    scene,
                ),
                Err(Error::Conflict(msg)) => old(self).scenes().contains_key(scene.id@) && msg@
                    == scene_conflict_message(scene.id@) && final(self)@ == old(self)@,
                Err(_) => false,
            },
            final(self).scenes() == old(self).scenes().insert(scene.id@, scene) || final(self).scenes()
                == old(self).scenes(),
            r is Ok ==> final(self).scenes() == old(self).scenes().insert(scene.id@, scene),
    {
        let key = scene.id.to_string();
        if self.records.contains(&key) {
            let msg = "Scene already exists with id ".to_owned().concat(scene.id.as_str());
            Err(Error::Conflict(msg))
        } else {
            self.records.insert(scene);
            Ok(())
        }
    }

    /// All records, in the order they were added.
    pub fn all(&self) -> (r: Vec<Entity>)
        requires
            self.wf(),
        ensures
            r@ == self@,
    {
        self.records.values()
    }

    /// Removes the scene with the given id.
    pub fn delete(&mut self, id: &Id) -> (r: Result<()>)
        requires
            old(self).wf(),
        ensures
            final(self).wf(),
            final(self).scenes() == old(self).scenes().remove(id@),
            match r {
                Ok(()) => old(self).scenes().contains_key(id@),
                Err(Error::NotFound(t)) => {
                    &&& !old(self).scenes().contains_key(id@)
                    &&& t@ == id@
                    &&& final(self)@ == old(self)@
                },
                Err(_) => false,
            },
    {
        let key = id.to_string();
        match self.records.remove(&key) {
            Some(_) => Ok(()),
            None => Err(Error::NotFound(key)),
        }
    }

    /// Whether a scene with the given id is stored.
    pub fn contains(&self, id: &Id) -> (r: Result<bool>)
        requires
            self.wf(),
        ensures
            r matches Ok(b) && b == self.scenes().contains_key(id@),
    {
        let key = id.to_string();
        Ok(self.records.contains(&key))
    }

    /// A copy of the scene with the given id.
    pub fn get(&self, id: &Id) -> (r: Result<Entity>)
        requires
            self.wf(),
        ensures
            match r {
                Ok(e) => self.scenes().contains_key(id@) && e == self.scenes()[id@],
                Err(Error::NotFound(t)) => !self.scenes().contains_key(id@) && t@ == id@,
                Err(_) => false,
            },
    {
        let key = id.to_string();
        match self.records.get(&key) {
            Some(e) => Ok(e),
            None => Err(Error::NotFound(key)),
        }
    }

    /// Stores the scene under its id, replacing any scene stored there, and hands it back.
    pub fn update(&mut self, scene: Entity) -> (r: Result<Entity>)
        requires
            old(self).wf(),
        ensures
            final(self).wf(),
            r matches Ok(e) && e == scene,
            final(self).scenes() == old(self).scenes().insert(scene.id@, scene),
    {
        let key = scene.id.to_string();
        let copy = scene.clone();
        if self.records.contains(&key) {
            self.records.replace(copy);
        } else {
            self.records.insert(copy);
        }
        Ok(scene)
    }
}

impl Default for ScenesMemoryStore {
    fn default() -> (s: Self)
        ensures
            s.wf(),
            s@ == Seq::<Entity>::empty(),
    {
        ScenesMemoryStore::new()
    }
}

} // verus!
