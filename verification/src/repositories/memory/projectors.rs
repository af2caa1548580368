//! The projector repository methods of the in-memory repository.

use vstd::prelude::*;

use crate::entity::repository::{Error, Result};
use crate::projector::{projector_matches, ProjectorEntity, ProjectorsQuery};
use crate::repositories::memory::table::{
    as_map, key_index, lemma_filter_lists_exactly, lemma_index_is_key_index, lists_exactly, Record,
};

use super::MemoryRepository;

verus! {

/// The message of the error reported when creating a projector that already exists.
pub open spec fn projector_duplicate_message(id: Seq<char>) -> Seq<char> {
    "Projector "@ + id + " already exists"@
}

impl MemoryRepository {
    /// The projectors held, by id.
    pub open spec fn projectors(&self) -> Map<Seq<char>, ProjectorEntity> {
        self.database().projector_store().projectors()
    }

    /// Stores a new projector.
    pub fn projectors_create(&mut self, projector: ProjectorEntity) -> (r: Result<ProjectorEntity>)
        requires
            old(self).database().wf(),
        ensures
            final(self).database().wf(),
            match r {
                Ok(e) => {
                    &&& !old(self).projectors().contains_key(projector.key())
                    &&& e == projector
                    &&& final(self).projectors() == old(self).projectors().insert(projector.key(), projector)
                },
                Err(Error::Duplicate(msg)) => {
                    &&& old(self).projectors().contains_key(projector.key())
                    &&& msg@ == projector_duplicate_message(projector.key())
                    &&& final(self).projectors() == old(self).projectors()
                },
                Err(_) => false,
            },
    {
        if self.db_ref().projectors_ref().contains(projector.id())? {
            let msg = "Projector ".to_owned().concat(projector.id()).concat(" already exists");
            Err(Error::Duplicate(msg))
        } else {
            let copy = projector.clone();
            let res = self.db().projectors().add(copy);
            match res {
                Ok(()) => Ok(projector),
                Err(e) => Err(e),
            }
        }
    }

    /// Deletes the projector with the given id.
    pub fn projectors_delete(&mut self, id: &str) -> (r: Result<()>)
        requires
            old(self).database().wf(),
        ensures
            final(self).database().wf(),
            final(self).projectors() == old(self).projectors().remove(id@),
            match r {
                Ok(()) => old(self).projectors().contains_key(id@),
                Err(Error::NotFound(t)) => !old(self).projectors().contains_key(id@) && t@ == id@,
                Err(_) => false,
            },
    {
        let res = self.db().projectors().delete(id);
        res
    }

    /// Whether some projector satisfies the query.
    pub fn projectors_exists(&self, query: &ProjectorsQuery) -> (r: Result<bool>)
        requires
            self.database().wf(),
        ensures
            r matches Ok(b) && b == exists|k: Seq<char>| #[trigger] self.projectors().contains_key(k)
                && projector_matches(query@, self.projectors()[k]),
    {
        let all = self.db_ref().projectors_ref().all();
        let ghost s = all@;
        let mut found = false;
        let mut i: usize = 0;
        while i < all.len()
            invariant
                s == all@,
                i <= s.len(),
                found == exists|j: int| 0 <= j < i && projector_matches(query@, #[trigger] s[j]),
            decreases s.len() - i,
        {
            if query.matches(&all[i]) {
                found = true;
            }
            i += 1;
        }
        proof {
            let m = self.projectors();
            assert(m == as_map(s));
            if found {
                let j = choose|j: int| 0 <= j < s.len() && projector_matches(query@, #[trigger] s[j]);
                lemma_index_is_key_index(s, j);
                assert(m.contains_key(s[j].key()) && projector_matches(query@, m[s[j].key()]));
            } else {
                assert forall|k: Seq<char>| #[trigger] m.contains_key(k) implies !projector_matches(
                    query@,
                    m[k],
                ) by {
                    let j = key_index(s, k);
                    lemma_index_is_key_index(s, j);
                }
            }
        }
        Ok(found)
    }

    /// All projectors satisfying the query, each once.
    pub fn projectors_find(&self, query: &ProjectorsQuery) -> (r: Result<Vec<ProjectorEntity>>)
        requires
            self.database().wf(),
        ensures
            r matches Ok(v) && lists_exactly(
                v@,
                self.projectors(),
                |p: ProjectorEntity| projector_matches(query@, p),
            ),
    {
        let all = self.db_ref().projectors_ref().all();
        let ghost pred = |p: ProjectorEntity| projector_matches(query@, p);
        let mut out: Vec<ProjectorEntity> = Vec::new();
        let mut i: usize = 0;
        while i < all.len()
            invariant
                i <= all@.len(),
                out@ == all@.take(i as int).filter(pred),
                pred == (|p: ProjectorEntity| projector_matches(query@, p)),
            decreases all@.len() - i,
        {
            proof {
                all@.take(i as int).lemma_filter_push(all@[i as int], pred);
                assert(all@.take(i as int).push(all@[i as int]) == all@.take(i + 1));
            }
            if query.matches(&all[i]) {
                out.push(all[i].clone());
            }
            i += 1;
        }
        proof {
            assert(all@.take(all@.len() as int) == all@);
            lemma_filter_lists_exactly(all@, pred);
        }
        Ok(out)
    }

    /// The projector with the given id.
    pub fn projectors_get(&self, id: &str) -> (r: Result<ProjectorEntity>)
        requires
            self.database().wf(),
        ensures
            match r {
                Ok(e) => self.projectors().contains_key(id@) && e == self.projectors()[id@],
                Err(Error::NotFound(t)) => !self.projectors().contains_key(id@) && t@ == id@,
                Err(_) => false,
            },
    {
        self.db_ref().projectors_ref().get(id)
    }
}

} // verus!
