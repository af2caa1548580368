//! In-memory repository.

pub mod table;
pub mod data;
pub use data::{
    MemoryDatabase, ProjectorsMemoryStore, ScenesMemoryStore, SubroutineInstanceMemoryStore,
    SubroutinesMemoryStore,
};
pub mod scenes;
pub mod subroutines;
pub mod projectors;
pub mod laws;

use vstd::prelude::*;

verus! {

/// A repository that keeps every record in memory.
#[derive(Debug)]
pub struct MemoryRepository {
    db: MemoryDatabase,
}

impl MemoryRepository {
    /// The repository's database.
    pub closed spec fn database(&self) -> MemoryDatabase {
        self.db
    }

    /// A repository over the given database.
    pub fn new(db: MemoryDatabase) -> (r: Self)
        ensures
            r.database() == db,
    {
        MemoryRepository { db }
    }

    /// The repository's database, for reading and writing.
    pub fn db(&mut self) -> (d: &mut MemoryDatabase)
        ensures
            *d == old(self).database(),
            final(self).database() == *final(d),
    {
        &mut self.db
    }

    /// The repository's database, for reading.
    pub fn db_ref(&self) -> (d: &MemoryDatabase)
        ensures
            *d == self.database(),
    {
        &self.db
    }
}

impl Default for MemoryRepository {
    /// A repository over an empty database.
    fn default() -> (r: Self)
        ensures
            r.database().wf(),
            r.database()@.scenes == Seq::<crate::scene::Entity>::empty(),
            r.database()@.subroutines == Seq::<crate::subroutine::SubroutineEntity>::empty(),
            r.database()@.projectors == Seq::<crate::projector::ProjectorEntity>::empty(),
            r.database().scene_store().scenes() == Map::<Seq<char>, crate::scene::Entity>::empty(),
            r.database().subroutine_store().subroutines() == Map::<
                Seq<char>,
                crate::subroutine::SubroutineEntity,
            >::empty(),
            r.database().projector_store().projectors() == Map::<
                Seq<char>,
                crate::projector::ProjectorEntity,
            >::empty(),
    {
        MemoryRepository { db: MemoryDatabase::new() }
    }
}

} // verus!
