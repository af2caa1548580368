//! Decisions of the etcd scene repository.

use vstd::prelude::*;

use crate::entity::repository::{Error, Result};
use crate::entity::Id;
use crate::repositories::memory::data::scenes::scene_conflict_message;
use crate::scene::entity::repository::{query_matches, stored_as_updated, Event, Query, QueryView};
use crate::scene::entity::{Name, Status};
use crate::scene::Entity;

verus! {

/// The kind of a change etcd reports on a watched key.
#[derive(Clone, Copy, Debug, PartialEq, Eq, Structural)]
pub enum WatchEventKind {
    /// The key was written
    Put,
    /// The key was deleted
    Delete,
}

/// The scene event for an etcd watch event.  `has_kv` tells whether the event
/// carries a key-value pair; `current` and `previous` are the scenes decoded
/// from the new and the previous value, where the event carries them.
pub open spec fn scene_event_spec(
    kind: WatchEventKind,
    has_kv: bool,
    current: Option<Entity>,
    previous: Option<Entity>,
) -> Event {
    if !has_kv {
        Event::Unknown
    } else {
        match kind {
            WatchEventKind::Put => match previous {
                Some(orig) => Event::Update { scene: current->0, orig },
                None => Event::Insert { scene: current->0 },
            },
            WatchEventKind::Delete => Event::Delete { scene: previous->0 },
        }
    }
}

/// Translates an etcd watch event into a scene repository event.  A written
/// key must carry a scene, and a deleted key its previous scene.
pub fn scene_event(
    kind: WatchEventKind,
    has_kv: bool,
    current: Option<Entity>,
    previous: Option<Entity>,
) -> (e: Event)
    requires
        has_kv && kind == WatchEventKind::Put ==> current is Some,
        has_kv && kind == WatchEventKind::Delete ==> previous is Some,
    ensures
        e == scene_event_spec(kind, has_kv, current, previous),
{
    if !has_kv {
        return Event::Unknown;
    }
    match kind {
        WatchEventKind::Put => {
            let scene = current.unwrap();
            match previous {
                Some(orig) => Event::Update { scene, orig },
                None => Event::Insert { scene },
            }
        },
        WatchEventKind::Delete => Event::Delete { scene: previous.unwrap() },
    }
}

/// The answer to a lookup of one scene, from the number of keys etcd counted
/// and the first value it returned (decoded, or the decoding error).
pub fn scene_from_lookup(id: &Id, count: i64, first: Option<core::result::Result<Entity, String>>) -> (r:
    Result<Entity>)
    ensures
        match r {
            Ok(e) => count == 1 && first == Some(Ok::<Entity, String>(e)),
            Err(Error::NotFound(t)) => t@ == id@ && (count != 1 || first is None),
            Err(Error::Unexpected(msg)) => count == 1 && first == Some(Err::<Entity, String>(msg)),
            Err(_) => false,
        },
{
    if count != 1 {
        Err(Error::NotFound(id.to_string()))
    } else {
        match first {
            Some(Ok(scene)) => Ok(scene),
            Some(Err(msg)) => Err(Error::Unexpected(msg)),
            None => Err(Error::NotFound(id.to_string())),
        }
    }
}

/// Whether creating a scene may go ahead, given the lookup of its id: only
/// when no scene is stored under it.
pub fn create_admission(scene: &Entity, lookup: Result<Entity>) -> (r: Result<()>)
    ensures
        match lookup {
            Err(Error::NotFound(_)) => r is Ok,
            Ok(_) => r matches Err(Error::Conflict(msg)) && msg@ == scene_conflict_message(scene.id@),
            Err(e) => r == Err::<(), Error>(e),
        },
{
    match lookup {
        Err(Error::NotFound(_)) => Ok(()),
        Ok(_) => Err(Error::Conflict("Scene already exists with id ".to_owned().concat(scene.id.as_str()))),
        Err(e) => Err(e),
    }
}

/// Whether deleting a scene may go ahead, given how many keys etcd counted for it.
pub fn delete_admission(id: &Id, count: i64) -> (r: Result<()>)
    ensures
        match r {
            Ok(()) => count != 0,
            Err(Error::NotFound(t)) => count == 0 && t@ == id@,
            Err(_) => false,
        },
{
    if count == 0 {
        Err(Error::NotFound(id.to_string()))
    } else {
        Ok(())
    }
}

/// The decoded values (in etcd's order) that satisfy the query; values that
/// could not be decoded are passed over.
pub open spec fn matching_values(values: Seq<Option<Entity>>, q: crate::scene::entity::repository::QueryView) -> Seq<
    Entity,
>
    decreases values.len(),
{
    if values.len() == 0 {
        Seq::empty()
    } else {
        let rest = matching_values(values.drop_last(), q);
        match values.last() {
            Some(e) => if query_matches(q, e) {
                rest.push(e)
            } else {
                rest
            },
            None => rest,
        }
    }
}

/// Searching a run of values one part after the other gives the results of the
/// parts, in order: a search never drops or reorders a match of either part.
pub proof fn lemma_matching_values_concat(a: Seq<Option<Entity>>, b: Seq<Option<Entity>>, q: QueryView)
    ensures
        matching_values(a + b, q) == matching_values(a, q) + matching_values(b, q),
    decreases b.len(),
{
    if b.len() == 0 {
        assert(a + b == a);
        assert(matching_values(b, q) == Seq::<Entity>::empty());
        assert(matching_values(a, q) + Seq::<Entity>::empty() == matching_values(a, q));
    } else {
        lemma_matching_values_concat(a, b.drop_last(), q);
        assert((a + b).drop_last() == a + b.drop_last());
        assert((a + b).last() == b.last());
        match b.last() {
            Some(e) => if query_matches(q, e) {
                assert(matching_values(a, q) + matching_values(b.drop_last(), q).push(e) == (matching_values(a, q)
                    + matching_values(b.drop_last(), q)).push(e));
            },
            None => {},
        }
    }
}

/// One value: a decoded scene satisfying the query is the result; a scene that
/// does not satisfy it, or a value that could not be decoded, gives nothing.
pub proof fn lemma_matching_values_single(v: Option<Entity>, q: QueryView)
    ensures
        matching_values(seq![v], q) == (match v {
            Some(e) => if query_matches(q, e) {
                seq![e]
            } else {
                Seq::<Entity>::empty()
            },
            None => Seq::<Entity>::empty(),
        }),
{
    assert(seq![v].drop_last() == Seq::<Option<Entity>>::empty());
    assert(matching_values(Seq::<Option<Entity>>::empty(), q) == Seq::<Entity>::empty());
    assert(Seq::<Entity>::empty().push(v->0) == seq![v->0]);
}

/// Every decoded value satisfying the query is among the results, and every
/// result is a decoded value satisfying the query.
pub proof fn lemma_matching_values_members(values: Seq<Option<Entity>>, q: QueryView)
    ensures
        forall|i: int|
            0 <= i < values.len() && (#[trigger] values[i]) is Some && query_matches(q, values[i]->0)
                ==> matching_values(values, q).contains(values[i]->0),
        forall|e: Entity|
            #[trigger] matching_values(values, q).contains(e) ==> query_matches(q, e) && values.contains(Some(e)),
    decreases values.len(),
{
    if values.len() > 0 {
        let rest = values.drop_last();
        lemma_matching_values_members(rest, q);
        let r = matching_values(rest, q);
        let out = matching_values(values, q);
        assert forall|i: int|
            0 <= i < values.len() && (#[trigger] values[i]) is Some && query_matches(q, values[i]->0)
                implies out.contains(values[i]->0) by {
            if i < values.len() - 1 {
                assert(rest[i] == values[i]);
                assert(r.contains(values[i]->0));
                let j = choose|j: int| 0 <= j < r.len() && r[j] == values[i]->0;
                assert(out[j] == r[j]);
            } else {
                assert(out[out.len() - 1] == values[i]->0);
            }
        }
        assert forall|e: Entity| #[trigger] out.contains(e) implies query_matches(q, e) && values.contains(Some(e)) by {
            let j = choose|j: int| 0 <= j < out.len() && out[j] == e;
            if j < r.len() {
                assert(r[j] == out[j]);
                assert(r.contains(e));
                let k = choose|k: int| 0 <= k < rest.len() && rest[k] == Some(e);
                assert(values[k] == rest[k]);
            } else {
                assert(values[values.len() - 1] == Some(e));
            }
        }
    }
}

/// The scenes among the decoded values that satisfy the query.
pub fn scenes_matching(values: Vec<Option<Entity>>, query: &Query) -> (r: Vec<Entity>)
    ensures
        r@ == matching_values(values@, query@),
{
    let mut out: Vec<Entity> = Vec::new();
    let mut i: usize = 0;
    while i < values.len()
        invariant
            i <= values@.len(),
            out@ == matching_values(values@.take(i as int), query@),
        decreases values@.len() - i,
    {
        proof {
            assert(values@.take(i + 1).drop_last() == values@.take(i as int));
        }
        match &values[i] {
            Some(e) => if query.matches(e) {
                out.push(e.clone());
            },
            None => {},
        }
        i += 1;
    }
    proof {
        assert(values@.take(values@.len() as int) == values@);
    }
    out
}

/// Whether some decoded value satisfies the query.
pub fn any_scene_matching(values: Vec<Option<Entity>>, query: &Query) -> (b: bool)
    ensures
        b == (matching_values(values@, query@).len() > 0),
{
    let found = scenes_matching(values, query);
    found.len() > 0
}

/// The scene stored by an update: the fetched scene (decoded, or the decoding
/// error) with the given name and status, where given.
pub fn updated_scene(
    id: &Id,
    fetched: Option<core::result::Result<Entity, String>>,
    name: Option<Name>,
    status: Option<Status>,
) -> (r: Result<Entity>)
    ensures
        match fetched {
            None => r matches Err(Error::NotFound(t)) && t@ == id@,
            Some(Err(msg)) => r == Err::<Entity, Error>(Error::Unexpected(msg)),
            Some(Ok(orig)) => r matches Ok(e) && stored_as_updated(e, orig, name, status) && e.updated_at
                == orig.updated_at,
        },
{
    match fetched {
        None => Err(Error::NotFound(id.to_string())),
        Some(Err(msg)) => Err(Error::Unexpected(msg)),
        Some(Ok(orig)) => {
            let mut scene = orig;
            if let Some(name) = name {
                scene.name = name;
            }
            if let Some(status) = status {
                scene.status = status;
            }
            Ok(scene)
        },
    }
}

} // verus!
