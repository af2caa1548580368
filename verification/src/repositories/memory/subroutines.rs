//! The subroutine repository methods of the in-memory repository.

use vstd::prelude::*;

use crate::entity::repository::{Error, Result};
use crate::entity::Id;
use crate::repositories::memory::data::subroutines::subroutine_conflict_message;
use crate::repositories::memory::table::{
    as_map, key_index, lemma_filter_lists_exactly, lemma_index_is_key_index, lists_exactly,
};
use crate::subroutine::{subroutine_matches, SubroutineEntity, SubroutinesQuery};

use super::MemoryRepository;

verus! {

impl MemoryRepository {
    /// The subroutines held, by the text of their ids.
    pub open spec fn subroutines(&self) -> Map<Seq<char>, SubroutineEntity> {
        self.database().subroutine_store().subroutines()
    }

    /// Stores a new subroutine, stamped with its creation and update times.
    pub fn subroutines_create(&mut self, subroutine: SubroutineEntity) -> (r: Result<SubroutineEntity>)
        requires
            old(self).database().wf(),
        ensures
            final(self).database().wf(),
            match r {
                Ok(e) => {
                    &&& !old(self).subroutines().contains_key(subroutine.id@)
                    &&& e == (SubroutineEntity {
                        created_at: e.created_at,
                        updated_at: e.updated_at,
                        ..subroutine
                    })
                    &&& e.created_at is Some
                    &&& e.updated_at is Some
                    &&& final(self).subroutines() == old(self).subroutines().insert(e.id@, e)
                },
                Err(Error::Conflict(msg)) => {
                    &&& old(self).subroutines().contains_key(subroutine.id@)
                    &&& msg@ == subroutine_conflict_message(subroutine.id@)
                    &&& final(self).subroutines() == old(self).subroutines()
                },
                Err(_) => false,
            },
    {
        match self.subroutines_get(&subroutine.id) {
            Err(Error::NotFound(_)) => {
                let mut subroutine = subroutine;
                subroutine.created();
                subroutine.updated();
                let copy = subroutine.clone();
                let res = self.db().subroutines().add(copy);
                match res {
                    Ok(()) => Ok(subroutine),
                    Err(e) => Err(e),
                }
            },
            Ok(_) => {
                let msg = "Subroutine already exists with id ".to_owned().concat(
                    subroutine.id.as_str(),
                );
                Err(Error::Conflict(msg))
            },
            Err(err) => Err(err),
        }
    }

    /// Deletes the subroutine with the given id.
    pub fn subroutines_delete(&mut self, id: &Id) -> (r: Result<()>)
        requires
            old(self).database().wf(),
        ensures
            final(self).database().wf(),
            match r {
                Ok(()) => {
                    &&& old(self).subroutines().contains_key(id@)
                    &&& final(self).subroutines() == old(self).subroutines().remove(id@)
                },
                Err(Error::NotFound(t)) => {
                    &&& !old(self).subroutines().contains_key(id@)
                    &&& t@ == id@
                    &&& final(self).subroutines() == old(self).subroutines()
                },
                Err(_) => false,
            },
    {
        let present = self.db_ref().subroutines_ref().contains(id)?;
        if present {
            let res = self.db().subroutines().delete(id);
            res
        } else {
            Err(Error::NotFound(id.to_string()))
        }
    }

    /// Whether some subroutine satisfies the query.
    pub fn subroutines_exists(&self, query: &SubroutinesQuery) -> (r: Result<bool>)
        requires
            self.database().wf(),
        ensures
            r matches Ok(b) && b == exists|k: Seq<char>| #[trigger] self.subroutines().contains_key(k)
                && subroutine_matches(query@, self.subroutines()[k]),
    {
        let all = self.db_ref().subroutines_ref().all();
        let ghost s = all@;
        let mut found = false;
        let mut i: usize = 0;
        while i < all.len()
            invariant
                s == all@,
                i <= s.len(),
                found == exists|j: int| 0 <= j < i && subroutine_matches(query@, #[trigger] s[j]),
            decreases s.len() - i,
        {
            if query.matches(&all[i]) {
                found = true;
            }
            i += 1;
        }
        proof {
            let m = self.subroutines();
            assert(m == as_map(s));
            if found {
                let j = choose|j: int| 0 <= j < s.len() && subroutine_matches(query@, #[trigger] s[j]);
                lemma_index_is_key_index(s, j);
                assert(m.contains_key(s[j].id@) && subroutine_matches(query@, m[s[j].id@]));
            } else {
                assert forall|k: Seq<char>| #[trigger] m.contains_key(k) implies !subroutine_matches(
                    query@,
                    m[k],
                ) by {
                    let j = key_index(s, k);
                    lemma_index_is_key_index(s, j);
                }
            }
        }
        Ok(found)
    }

    /// All subroutines satisfying the query, each once.
    pub fn subroutines_find(&self, query: &SubroutinesQuery) -> (r: Result<Vec<SubroutineEntity>>)
        requires
            self.database().wf(),
        ensures
            r matches Ok(v) && lists_exactly(
                v@,
                self.subroutines(),
                |s: SubroutineEntity| subroutine_matches(query@, s),
            ),
    {
        let all = self.db_ref().subroutines_ref().all();
        let ghost pred = |s: SubroutineEntity| subroutine_matches(query@, s);
        let mut out: Vec<SubroutineEntity> = Vec::new();
        let mut i: usize = 0;
        while i < all.len()
            invariant
                i <= all@.len(),
                out@ == all@.take(i as int).filter(pred),
                pred == (|s: SubroutineEntity| subroutine_matches(query@, s)),
            decreases all@.len() - i,
        {
            proof {
                all@.take(i as int).lemma_filter_push(all@[i as int], pred);
                assert(all@.take(i as int).push(all@[i as int]) == all@.take(i + 1));
            }
            if query.matches(&all[i]) {
                out.push(all[i].clone());
            }
            i += 1;
        }
        proof {
            assert(all@.take(all@.len() as int) == all@);
            lemma_filter_lists_exactly(all@, pred);
        }
        Ok(out)
    }

    /// The subroutine with the given id.
    pub fn subroutines_get(&self, id: &Id) -> (r: Result<SubroutineEntity>)
        requires
            self.database().wf(),
        ensures
            match r {
                Ok(e) => self.subroutines().contains_key(id@) && e == self.subroutines()[id@],
                Err(Error::NotFound(t)) => !self.subroutines().contains_key(id@) && t@ == id@,
                Err(_) => false,
            },
    {
        let subroutine = self.db_ref().subroutines_ref().get(id)?;
        Ok(subroutine)
    }
}

} // verus!
