//! Laws of the in-memory repository, stated over the models its operations'
//! contracts use.

use vstd::prelude::*;

use crate::repositories::memory::table::{has_key, lists_exactly, Record};
use crate::scene::entity::repository::{any_matches, lists_matching, query_matches, QueryView};
use crate::scene::Entity;

verus! {

/// A read gives back what a write wrote: once a record is stored under its
/// key, looking that key up finds exactly that record.
pub proof fn lemma_read_after_write<T: Record>(m: Map<Seq<char>, T>, v: T)
    ensures
        m.insert(v.key(), v).contains_key(v.key()),
        m.insert(v.key(), v)[v.key()] == v,
{
}

/// A deleted key is gone, and nothing else is touched.
pub proof fn lemma_gone_after_delete<T: Record>(m: Map<Seq<char>, T>, k: Seq<char>)
    ensures
        !m.remove(k).contains_key(k),
        forall|j: Seq<char>| j != k ==> m.remove(k).contains_key(j) == m.contains_key(j) && (
        #[trigger] m.contains_key(j) ==> m.remove(k)[j] == m[j]),
{
}

/// Creating a record under a new key and then deleting it leaves the store as it was.
pub proof fn lemma_delete_undoes_create<T: Record>(m: Map<Seq<char>, T>, v: T)
    requires
        !m.contains_key(v.key()),
    ensures
        m.insert(v.key(), v).remove(v.key()) == m,
{
    assert(m.insert(v.key(), v).remove(v.key()) =~= m);
}

/// Existence and search agree: some scene satisfies a query exactly when a
/// search with that query lists at least one scene.
pub proof fn lemma_exists_agrees_with_find(found: Seq<Entity>, scenes: Map<Seq<char>, Entity>, q: QueryView)
    requires
        lists_matching(found, scenes, q),
    ensures
        any_matches(scenes, q) <==> found.len() > 0,
{
    let pred = |e: Entity| query_matches(q, e);
    assert(lists_exactly(found, scenes, pred));
    if any_matches(scenes, q) {
        let k = choose|k: Seq<char>| #[trigger] scenes.contains_key(k) && query_matches(q, scenes[k]);
        assert(pred(scenes[k]));
        assert(has_key(found, k));
    }
    if found.len() > 0 {
        assert(scenes.contains_key(found[0].key()));
        assert(pred(found[0]));
    }
}

} // verus!
