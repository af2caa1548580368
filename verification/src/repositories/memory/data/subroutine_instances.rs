//! In-memory storage of subroutine instances.

use vstd::prelude::*;

use crate::entity::repository::{Error, Result};
use crate::repositories::memory::table::{as_map, lemma_filter_lists_exactly, lists_exactly, unique_keys, Record, Table};
use crate::subroutine::{SubroutineEntity, SubroutineInstance};

verus! {

/// Subroutine instances, by storage key.
#[derive(Debug)]
pub struct SubroutineInstanceMemoryStore {
    records: Table<SubroutineInstance>,
}

impl View for SubroutineInstanceMemoryStore {
    type V = Seq<SubroutineInstance>;

    /// The records, in the order they were added.
    closed spec fn view(&self) -> Seq<SubroutineInstance> {
        self.records@
    }
}

/// The instances among `s` of the subroutine with the given id, in order.
pub open spec fn instances_of(s: Seq<SubroutineInstance>, subroutine_id: Seq<char>) -> Seq<SubroutineInstance> {
    s.filter(|i: SubroutineInstance| i.subroutine_id@ == subroutine_id)
}

impl SubroutineInstanceMemoryStore {
    /// No two records share a storage key.
    pub open spec fn wf(&self) -> bool {
        unique_keys(self@)
    }

    /// The records, by storage key.
    pub open spec fn instances(&self) -> Map<Seq<char>, SubroutineInstance> {
        as_map(self@)
    }

    /// An empty store.
    pub fn new() -> (s: Self)
        ensures
            s.wf(),
            s@ == Seq::<SubroutineInstance>::empty(),
            s.instances() == Map::<Seq<char>, SubroutineInstance>::empty(),
    {
        SubroutineInstanceMemoryStore { records: Table::new() }
    }

    /// Adds an instance whose storage key is not yet taken.
    pub fn add(&mut self, instance: SubroutineInstance) -> (r: Result<()>)
        requires
            old(self).wf(),
        ensures
            final(self).wf(),
            match r {
                Ok(()) => {
                    &&& !old(self).instances().contains_key(instance.key())
                    &&& final(self)@ == old(self)@.push(instance)
                    &&& final(self).instances() == old(self).instances().insert(instance.key(), instance)
                },
                Err(Error::AlreadyExists(k)) => {
                    &&& old(self).instances().contains_key(instance.key())
                    &&& k@ == instance.key()
                    &&& final(self)@ == old(self)@
                },
                Err(_) => false,
            },
    {
        let key = instance.db_key();
        if self.records.contains(&key) {
            Err(Error::AlreadyExists(key))
        } else {
            self.records.insert(instance);
            Ok(())
        }
    }

    /// A copy of the instance stored under the given key.
    pub fn get(&self, id: &str) -> (r: Result<SubroutineInstance>)
        requires
            self.wf(),
        ensures
            match r {
                Ok(e) => self.instances().contains_key(id@) && e == self.instances()[id@],
                Err(Error::NotFound(t)) => !self.instances().contains_key(id@) && t@ == id@,
                Err(_) => false,
            },
    {
        let key = id.to_owned();
        match self.records.get(&key) {
            Some(e) => Ok(e),
            None => Err(Error::NotFound(key)),
        }
    }

    /// All instances of the given subroutine, in the order they were added.
    pub fn get_all_by_subroutine(&self, subroutine: &SubroutineEntity) -> (r: Result<
        Vec<SubroutineInstance>,
    >)
        requires
            self.wf(),
        ensures
            r matches Ok(v) && v@ == self@.filter(|i: SubroutineInstance| i.subroutine_id@ == subroutine.id@)
                && lists_exactly(
                v@,
                self.instances(),
                |i: SubroutineInstance| i.subroutine_id@ == subroutine.id@,
            ),
    {
        let all = self.records.values();
        let ghost pred = |i: SubroutineInstance| i.subroutine_id@ == subroutine.id@;
        let mut out: Vec<SubroutineInstance> = Vec::new();
        let mut i: usize = 0;
        while i < all.len()
            invariant
                all@ == self@,
                i <= all@.len(),
                out@ == all@.take(i as int).filter(pred),
                pred == (|i: SubroutineInstance| i.subroutine_id@ == subroutine.id@),
            decreases all@.len() - i,
        {
            proof {
                all@.take(i as int).lemma_filter_push(all@[i as int], pred);
                assert(all@.take(i as int).push(all@[i as int]) == all@.take(i + 1));
            }
            if all[i].subroutine_id.same_as(&subroutine.id) {
                out.push(all[i].clone());
            }
            i += 1;
        }
        proof {
            assert(all@.take(all@.len() as int) == all@);
            lemma_filter_lists_exactly(self@, pred);
        }
        Ok(out)
    }

    /// All instances of the subroutine with the given id, in the order they were added.
    pub fn all_for(&self, subroutine_id: &str) -> (v: Vec<SubroutineInstance>)
        ensures
            v@ == instances_of(self@, subroutine_id@),
    {
        let all = self.records.values();
        let ghost pred = |i: SubroutineInstance| i.subroutine_id@ == subroutine_id@;
        let target = subroutine_id.to_owned();
        let mut out: Vec<SubroutineInstance> = Vec::new();
        let mut i: usize = 0;
        while i < all.len()
            invariant
                all@ == self@,
                target@ == subroutine_id@,
                i <= all@.len(),
                out@ == all@.take(i as int).filter(pred),
                pred == (|i: SubroutineInstance| i.subroutine_id@ == subroutine_id@),
            decreases all@.len() - i,
        {
            proof {
                all@.take(i as int).lemma_filter_push(all@[i as int], pred);
                assert(all@.take(i as int).push(all@[i as int]) == all@.take(i + 1));
            }
            if all[i].subroutine_id.to_string() == target {
                out.push(all[i].clone());
            }
            i += 1;
        }
        proof {
            assert(all@.take(all@.len() as int) == all@);
        }
        out
    }
}

impl Default for SubroutineInstanceMemoryStore {
    fn default() -> (s: Self)
        ensures
            s.wf(),
            s@ == Seq::<SubroutineInstance>::empty(),
    {
        SubroutineInstanceMemoryStore::new()
    }
}

} // verus!
