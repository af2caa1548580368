//! Scene entity specific repository interface: events, queries and the
//! repository methods.

use vstd::prelude::*;

use crate::entity::repository::{Error, Result};
use crate::entity::Id;
use crate::repositories::memory::table::{has_key, lists_exactly, Record};

use super::{Entity, Name, Status};

verus! {

/// Repository events for the `Scene` `Repository`
#[derive(Debug)]
pub enum Event {
    /// Unknown event type (or one we don't understand)
    Unknown,
    /// entity was inserted into the repo
    Insert {
        /// entity that was added
        scene: Entity,
    },
    /// existing entity was updated
    Update {
        /// new entity representation
        scene: Entity,
        /// prior entity representation
        orig: Entity,
    },
    /// entity was deleted from the repo
    Delete {
        /// entity that was deleted
        scene: Entity,
    },
}

/// What a [`Query`] asks for: an optional name and an optional status.
pub struct QueryView {
    /// the name to match, if any
    pub name: Option<Seq<char>>,
    /// the status to match, if any
    pub status: Option<Status>,
}

/// A scene satisfies a query when it has the query's name (if one is given)
/// and the query's status (if one is given).
pub open spec fn query_matches(q: QueryView, scene: Entity) -> bool {
    &&& (q.name matches Some(n) ==> scene.name@ == n)
    &&& (q.status matches Some(s) ==> scene.status == s)
}

/// `scene` specific query arguments
#[derive(Debug, Default)]
pub struct Query {
    name: Option<String>,
    status: Option<Status>,
}

impl View for Query {
    type V = QueryView;

    closed spec fn view(&self) -> QueryView {
        QueryView {
            name: match self.name {
                Some(n) => Some(n@),
                None => None,
            },
            status: self.status,
        }
    }
}

impl Query {
    /// Construct a query builder, matching every scene.
    pub fn builder() -> (q: Self)
        ensures
            q@.name is None,
            q@.status is None,
    {
        Query { name: None, status: None }
    }

    /// match on the specified name
    pub fn name_eq(&mut self, name: &str) -> (r: &mut Self)
        ensures
            r@.name == Some(name@),
            r@.status == old(self)@.status,
            *final(self) == *final(r),
    {
        self.name = Some(name.to_owned());
        self
    }

    /// match on the specified status
    pub fn status_eq(&mut self, status: &Status) -> (r: &mut Self)
        ensures
            r@.name == old(self)@.name,
            r@.status == Some(*status),
            *final(self) == *final(r),
    {
        self.status = Some(*status);
        self
    }

    /// Convert this builder instance into a [`Query`]
    pub fn build(&self) -> (q: Self)
        ensures
            q@ == self@,
    {
        Query {
            name: match &self.name {
                Some(n) => Some(n.clone()),
                None => None,
            },
            status: self.status,
        }
    }

    /// A query matching the name and status of the given scene.
    pub fn from_entity(scene: &Entity) -> (q: Self)
        ensures
            q@.name == Some(scene.name@),
            q@.status == Some(scene.status),
    {
        Query { name: Some(scene.name.clone()), status: Some(scene.status) }
    }

    /// Whether the scene satisfies this query.
    pub fn matches(&self, scene: &Entity) -> (b: bool)
        ensures
            b == query_matches(self@, *scene),
    {
        let name_ok = match &self.name {
            Some(n) => *n == scene.name,
            None => true,
        };
        let status_ok = match &self.status {
            Some(s) => *s == scene.status,
            None => true,
        };
        name_ok && status_ok
    }
}

/// A scene satisfies the query built from it.
pub proof fn lemma_query_from_entity_matches(scene: Entity)
    ensures
        query_matches(QueryView { name: Some(scene.name@), status: Some(scene.status) }, scene),
{
}

/// A scene satisfies a query exactly when it has the very name the query
/// names (if it names one) and the very status the query names (if it names
/// one); a query naming neither is satisfied by every scene.
pub proof fn lemma_query_criteria(q: QueryView, scene: Entity)
    ensures
        query_matches(q, scene) ==> (q.name is None || scene.name@ == q.name->0),
        query_matches(q, scene) ==> (q.status is None || scene.status == q.status->0),
        (q.name is None || scene.name@ == q.name->0) && (q.status is None || scene.status == q.status->0)
            ==> query_matches(q, scene),
{
}

/// Some stored scene satisfies a query for a name alone exactly when some
/// stored scene has that very name.
pub proof fn lemma_name_query_matches_exact_name(scenes: Map<Seq<char>, Entity>, name: Seq<char>)
    ensures
        any_matches(scenes, QueryView { name: Some(name), status: None }) <==> exists|k: Seq<char>|
            #[trigger] scenes.contains_key(k) && scenes[k].name@ == name,
{
}

/// Some scene of `scenes` satisfies the query.
pub open spec fn any_matches(scenes: Map<Seq<char>, Entity>, q: QueryView) -> bool {
    exists|k: Seq<char>| #[trigger] scenes.contains_key(k) && query_matches(q, scenes[k])
}

/// `found` lists each scene of `scenes` satisfying the query exactly once.
pub open spec fn lists_matching(found: Seq<Entity>, scenes: Map<Seq<char>, Entity>, q: QueryView) -> bool {
    lists_exactly(found, scenes, |e: Entity| query_matches(q, e))
}

/// A search lists only scenes with the name and the status asked for (each
/// where one is asked for), and lists every stored scene that has both.
pub proof fn lemma_scene_search_results(found: Seq<Entity>, scenes: Map<Seq<char>, Entity>, q: QueryView)
    requires
        lists_matching(found, scenes, q),
    ensures
        forall|i: int| 0 <= i < found.len() && q.name is Some ==> (#[trigger] found[i]).name@ == q.name->0,
        forall|i: int| 0 <= i < found.len() && q.status is Some ==> (#[trigger] found[i]).status == q.status->0,
        forall|i: int| 0 <= i < found.len() ==> scenes.contains_key((#[trigger] found[i]).id@),
        forall|k: Seq<char>|
            #[trigger] scenes.contains_key(k) && (q.name is None || scenes[k].name@ == q.name->0) && (q.status is None
                || scenes[k].status == q.status->0) ==> has_key(found, k),
{
    let pred = |e: Entity| query_matches(q, e);
    assert(lists_exactly(found, scenes, pred));
    assert forall|i: int| 0 <= i < found.len() implies (q.name is Some ==> (#[trigger] found[i]).name@ == q.name->0)
        && (q.status is Some ==> found[i].status == q.status->0) && scenes.contains_key(found[i].id@) by {
        assert(scenes.contains_key(found[i].key()));
        assert(pred(found[i]));
    }
    assert forall|k: Seq<char>|
        #[trigger] scenes.contains_key(k) && (q.name is None || scenes[k].name@ == q.name->0) && (q.status is None
            || scenes[k].status == q.status->0) implies has_key(found, k) by {
        assert(pred(scenes[k]));
    }
}

/// A scene as stored by `scenes_create`: the given scene, stamped with the
/// moment it was created and updated (whatever timestamps it carried before).
pub open spec fn stored_as_created(stored: Entity, given: Entity) -> bool {
    &&& stored.id == given.id
    &&& stored.name == given.name
    &&& stored.status == given.status
    &&& stored.created_at is Some
    &&& stored.updated_at is Some
}

/// A scene as stored by `scenes_update`: the old scene with the given name and
/// status, where given.
pub open spec fn stored_as_updated(
    stored: Entity,
    orig: Entity,
    name: Option<Name>,
    status: Option<Status>,
) -> bool {
    &&& stored.id == orig.id
    &&& stored.name == (match name {
        Some(n) => n,
        None => orig.name,
    })
    &&& stored.status == (match status {
        Some(s) => s,
        None => orig.status,
    })
    &&& stored.created_at == orig.created_at
}

/// Repository methods specific to the `scene` [`Entity`].
///
/// A repository holds scenes by id.  A backend that is not `reliable` may fail
/// any call for reasons of its own (connection loss, corrupt records); such a
/// failure is reported with an error other than the ones each method names.
pub trait Repository: Sized {
    /// The scenes held, by the text of their ids.
    spec fn scenes(&self) -> Map<Seq<char>, Entity>;

    /// The backend never fails for reasons of its own.
    spec fn reliable(&self) -> bool;

    /// The repository's internal invariant.
    spec fn inv(&self) -> bool;

    /// Store the provided [`Entity`]
    fn scenes_create(&mut self, scene: Entity) -> (r: Result<Entity>)
        requires
            old(self).inv(),
        ensures
            final(self).inv(),
            final(self).reliable() == old(self).reliable(),
            match r {
                Ok(e) => {
                    &&& !old(self).scenes().contains_key(scene.id@)
                    &&& stored_as_created(e, scene)
                    &&& final(self).scenes() == old(self).scenes().insert(e.id@, e)
                },
                Err(Error::Conflict(_)) => {
                    &&& old(self).scenes().contains_key(scene.id@)
                    &&& final(self).scenes() == old(self).scenes()
                },
                Err(_) => !old(self).reliable(),
            },
    ;

    /// Delete an [`Entity`] matching the provided [`Id`]
    fn scenes_delete(&mut self, id: &Id) -> (r: Result<()>)
        requires
            old(self).inv(),
        ensures
            final(self).inv(),
            final(self).reliable() == old(self).reliable(),
            match r {
                Ok(()) => {
                    &&& old(self).scenes().contains_key(id@)
                    &&& final(self).scenes() == old(self).scenes().remove(id@)
                },
                Err(Error::NotFound(t)) => {
                    &&& !old(self).scenes().contains_key(id@)
                    &&& t@ == id@
                    &&& final(self).scenes() == old(self).scenes()
                },
                Err(_) => !old(self).reliable(),
            },
    ;

    /// Determine whether or not entities exist matching the provided [`Query`]
    fn scenes_exists(&self, query: &Query) -> (r: Result<bool>)
        requires
            self.inv(),
        ensures
            match r {
                Ok(b) => b == any_matches(self.scenes(), query@),
                Err(_) => !self.reliable(),
            },
    ;

    /// Retrieve one or more entities matching the provided [`Query`]
    fn scenes_find(&self, query: &Query) -> (r: Result<Vec<Entity>>)
        requires
            self.inv(),
        ensures
            match r {
                Ok(v) => lists_matching(v@, self.scenes(), query@),
                Err(_) => !self.reliable(),
            },
    ;

    /// Retrieve a scene entity matching the specified [`Id`]
    fn scenes_get(&self, id: &Id) -> (r: Result<Entity>)
        requires
            self.inv(),
        ensures
            match r {
                Ok(e) => self.scenes().contains_key(id@) && e == self.scenes()[id@] && e.id@ == id@,
                Err(Error::NotFound(t)) => !self.scenes().contains_key(id@) && t@ == id@,
                Err(_) => !self.reliable(),
            },
    ;

    /// Update an existing scene [`Entity`]
    fn scenes_update(&mut self, id: &Id, name: Option<Name>, status: Option<Status>) -> (r: Result<
        Entity,
    >)
        requires
            old(self).inv(),
        ensures
            final(self).inv(),
            final(self).reliable() == old(self).reliable(),
            match r {
                Ok(e) => {
                    &&& old(self).scenes().contains_key(id@)
                    &&& stored_as_updated(e, old(self).scenes()[id@], name, status)
                    &&& final(self).scenes() == old(self).scenes().insert(id@, e)
                },
                Err(Error::NotFound(t)) => {
                    &&& !old(self).scenes().contains_key(id@)
                    &&& t@ == id@
                    &&& final(self).scenes() == old(self).scenes()
                },
                Err(_) => !old(self).reliable(),
            },
    ;
}

} // verus!
