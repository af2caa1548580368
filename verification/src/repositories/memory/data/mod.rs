//! In-memory storage of entity records.

pub mod scenes;
pub use scenes::ScenesMemoryStore;
pub mod subroutines;
pub use subroutines::SubroutinesMemoryStore;
pub mod subroutine_instances;
pub use subroutine_instances::SubroutineInstanceMemoryStore;
pub mod projectors;
pub use projectors::ProjectorsMemoryStore;

use vstd::prelude::*;

use crate::projector::ProjectorEntity;
use crate::scene::Entity;
use crate::subroutine::SubroutineEntity;

verus! {

/// The records held by a [`MemoryDatabase`], store by store.
pub struct MemoryDatabaseView {
    /// scene records, in the order they were added
    pub scenes: Seq<Entity>,
    /// subroutine records, in the order they were added
    pub subroutines: Seq<SubroutineEntity>,
    /// projector records, in the order they were added
    pub projectors: Seq<ProjectorEntity>,
}

/// The in-memory database: one store per kind of record.
#[derive(Debug)]
pub struct MemoryDatabase {
    scenes: ScenesMemoryStore,
    subroutines: SubroutinesMemoryStore,
    projectors: ProjectorsMemoryStore,
}

impl View for MemoryDatabase {
    type V = MemoryDatabaseView;

    open spec fn view(&self) -> MemoryDatabaseView {
        MemoryDatabaseView {
            scenes: self.scene_store()@,
            subroutines: self.subroutine_store()@,
            projectors: self.projector_store()@,
        }
    }
}

impl MemoryDatabase {
    /// Every store keeps its keys unique.
    pub open spec fn wf(&self) -> bool {
        &&& self.scene_store().wf()
        &&& self.subroutine_store().wf()
        &&& self.projector_store().wf()
    }

    /// The scene store.
    pub closed spec fn scene_store(&self) -> ScenesMemoryStore {
        self.scenes
    }

    /// The subroutine store.
    pub closed spec fn subroutine_store(&self) -> SubroutinesMemoryStore {
        self.subroutines
    }

    /// The projector store.
    pub closed spec fn projector_store(&self) -> ProjectorsMemoryStore {
        self.projectors
    }

    /// An empty database.
    pub fn new() -> (db: Self)
        ensures
            db.wf(),
            db@.scenes == Seq::<Entity>::empty(),
            db@.subroutines == Seq::<SubroutineEntity>::empty(),
            db@.projectors == Seq::<ProjectorEntity>::empty(),
            db.scene_store().scenes() == Map::<Seq<char>, Entity>::empty(),
            db.subroutine_store().subroutines() == Map::<Seq<char>, SubroutineEntity>::empty(),
            db.projector_store().projectors() == Map::<Seq<char>, ProjectorEntity>::empty(),
    {
        MemoryDatabase {
            scenes: ScenesMemoryStore::new(),
            subroutines: SubroutinesMemoryStore::new(),
            projectors: ProjectorsMemoryStore::new(),
        }
    }

    /// The scene store, for reading and writing.
    pub fn scenes(&mut self) -> (s: &mut ScenesMemoryStore)
        ensures
            *s == old(self).scene_store(),
            final(self).scene_store() == *final(s),
            final(self).subroutine_store() == old(self).subroutine_store(),
            final(self).projector_store() == old(self).projector_store(),
    {
        &mut self.scenes
    }

    /// The subroutine store, for reading and writing.
    pub fn subroutines(&mut self) -> (s: &mut SubroutinesMemoryStore)
        ensures
            *s == old(self).subroutine_store(),
            final(self).subroutine_store() == *final(s),
            final(self).scene_store() == old(self).scene_store(),
            final(self).projector_store() == old(self).projector_store(),
    {
        &mut self.subroutines
    }

    /// The projector store, for reading and writing.
    pub fn projectors(&mut self) -> (s: &mut ProjectorsMemoryStore)
        ensures
            *s == old(self).projector_store(),
            final(self).projector_store() == *final(s),
            final(self).scene_store() == old(self).scene_store(),
            final(self).subroutine_store() == old(self).subroutine_store(),
    {
        &mut self.projectors
    }

    /// The scene store, for reading.
    pub fn scenes_ref(&self) -> (s: &ScenesMemoryStore)
        ensures
            *s == self.scene_store(),
    {
        &self.scenes
    }

    /// The subroutine store, for reading.
    pub fn subroutines_ref(&self) -> (s: &SubroutinesMemoryStore)
        ensures
            *s == self.subroutine_store(),
    {
        &self.subroutines
    }

    /// The projector store, for reading.
    pub fn projectors_ref(&self) -> (s: &ProjectorsMemoryStore)
        ensures
            *s == self.projector_store(),
    {
        &self.projectors
    }
}

impl Default for MemoryDatabase {
    fn default() -> (db: Self)
        ensures
            db.wf(),
            db@.scenes == Seq::<Entity>::empty(),
            db@.subroutines == Seq::<SubroutineEntity>::empty(),
            db@.projectors == Seq::<ProjectorEntity>::empty(),
    {
        MemoryDatabase::new()
    }
}

} // verus!
