//! What the scene service keeps true of the repository it works on.

use vstd::prelude::*;

use crate::scene::entity::repository::any_matches;
use crate::scene::entity::Entity;

use super::create::name_query;

verus! {

/// No two stored scenes share a name.
pub open spec fn names_unique(scenes: Map<Seq<char>, Entity>) -> bool {
    forall|a: Seq<char>, b: Seq<char>|
        #![trigger scenes[a], scenes[b]]
        scenes.contains_key(a) && scenes.contains_key(b) && scenes[a].name@ == scenes[b].name@ ==> a == b
}

/// Scene names stay unique through a create: the service stores a scene only
/// when no stored scene has its name.
pub proof fn lemma_create_keeps_names_unique(before: Map<Seq<char>, Entity>, created: Entity)
    requires
        names_unique(before),
        !any_matches(before, name_query(created.name@)),
    ensures
        names_unique(before.insert(created.id@, created)),
{
    let after = before.insert(created.id@, created);
    assert forall|a: Seq<char>, b: Seq<char>|
        after.contains_key(a) && after.contains_key(b) && after[a].name@ == after[b].name@ implies a == b by {
        if a != created.id@ && b != created.id@ {
            assert(before[a] == after[a] && before[b] == after[b]);
        } else if a != created.id@ {
            assert(before.contains_key(a) && before[a].name@ == created.name@);
            assert(crate::scene::entity::repository::query_matches(name_query(created.name@), before[a]));
        } else if b != created.id@ {
            assert(before.contains_key(b) && before[b].name@ == created.name@);
            assert(crate::scene::entity::repository::query_matches(name_query(created.name@), before[b]));
        }
    }
}

/// Scene names stay unique through a delete.
pub proof fn lemma_delete_keeps_names_unique(before: Map<Seq<char>, Entity>, id: Seq<char>)
    requires
        names_unique(before),
    ensures
        names_unique(before.remove(id)),
{
    let after = before.remove(id);
    assert forall|a: Seq<char>, b: Seq<char>|
        after.contains_key(a) && after.contains_key(b) && after[a].name@ == after[b].name@ implies a == b by {
        assert(before[a] == after[a] && before[b] == after[b]);
    }
}

} // verus!
