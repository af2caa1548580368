//! The scene repository methods of the in-memory repository.

use vstd::prelude::*;

use crate::entity::repository::{Error, Result};
use crate::entity::Id;
use crate::repositories::memory::table::{
    as_map, lemma_filter_lists_exactly, lemma_index_is_key_index, lemma_map_key, Record,
};
use crate::scene::entity::repository::{query_matches, Query, Repository};
use crate::scene::entity::{Name, Status};
use crate::scene::Entity;

use super::MemoryRepository;

verus! {

impl Repository for MemoryRepository {
    open spec fn scenes(&self) -> Map<Seq<char>, Entity> {
        self.database().scene_store().scenes()
    }

    open spec fn reliable(&self) -> bool {
        true
    }

    open spec fn inv(&self) -> bool {
        self.database().wf()
    }

    fn scenes_create(&mut self, scene: Entity) -> (r: Result<Entity>) {
        let mut scene = scene;
        scene.created();
        scene.updated();
        let copy = scene.clone();
        let db = self.db();
        let res = db.scenes().add(copy);
        match res {
            Ok(()) => Ok(scene),
            Err(e) => Err(e),
        }
    }

    fn scenes_delete(&mut self, id: &Id) -> (r: Result<()>) {
        let res = self.db().scenes().delete(id);
        res
    }

    fn scenes_exists(&self, query: &Query) -> (r: Result<bool>) {
        let all = self.db_ref().scenes_ref().all();
        let ghost s = all@;
        let mut found = false;
        let mut i: usize = 0;
        while i < all.len()
            invariant
                s == all@,
                i <= s.len(),
                found == exists|j: int| 0 <= j < i && query_matches(query@, #[trigger] s[j]),
            decreases s.len() - i,
        {
            if query.matches(&all[i]) {
                found = true;
            }
            i += 1;
        }
        proof {
            let m = as_map(s);
            if found {
                let j = choose|j: int| 0 <= j < s.len() && query_matches(query@, #[trigger] s[j]);
                lemma_index_is_key_index(s, j);
                assert(m.contains_key(s[j].key()) && query_matches(query@, m[s[j].key()]));
            } else {
                assert forall|k: Seq<char>| #[trigger] m.contains_key(k) implies !query_matches(
                    query@,
                    m[k],
                ) by {
                    let j = crate::repositories::memory::table::key_index(s, k);
                    lemma_index_is_key_index(s, j);
                }
            }
        }
        Ok(found)
    }

    fn scenes_find(&self, query: &Query) -> (r: Result<Vec<Entity>>) {
        let all = self.db_ref().scenes_ref().all();
        let ghost pred = |e: Entity| query_matches(query@, e);
        let mut out: Vec<Entity> = Vec::new();
        let mut i: usize = 0;
        while i < all.len()
            invariant
                i <= all@.len(),
                out@ == all@.take(i as int).filter(pred),
                pred == (|e: Entity| query_matches(query@, e)),
            decreases all@.len() - i,
        {
            proof {
                all@.take(i as int).lemma_filter_push(all@[i as int], pred);
                assert(all@.take(i as int).push(all@[i as int]) == all@.take(i + 1));
            }
            if query.matches(&all[i]) {
                out.push(all[i].clone());
            }
            i += 1;
        }
        proof {
            assert(all@.take(all@.len() as int) == all@);
            lemma_filter_lists_exactly(all@, pred);
        }
        Ok(out)
    }

    fn scenes_get(&self, id: &Id) -> (r: Result<Entity>) {
        let r = self.db_ref().scenes_ref().get(id);
        proof {
            if r is Ok {
                lemma_map_key(self.database().scene_store()@, id@);
            }
        }
        r
    }

    fn scenes_update(&mut self, id: &Id, name: Option<Name>, status: Option<Status>) -> (r: Result<
        Entity,
    >)
        ensures
            r matches Ok(e) ==> e.updated_at is Some,
    {
        let mut scene = self.scenes_get(id)?;
        if let Some(name) = name {
            scene.name = name;
        }
        if let Some(status) = status {
            scene.status = status;
        }
        scene.updated();
        let res = self.db().scenes().update(scene);
        res
    }
}

} // verus!
