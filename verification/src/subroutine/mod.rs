//! Subroutines: programs running inside a scene, and their instances.

pub mod definition;

use vstd::prelude::*;

use crate::entity::{time::now, Id};
use crate::repositories::memory::table::{has_key, lists_exactly, Record};

verus! {

/// Current status of a subroutine.
#[derive(Clone, Copy, Debug, PartialEq, Eq, Structural)]
pub enum SubroutineStatus {
    /// Unknown
    Unknown,
    /// Running with the given process id
    Running(u32),
    /// Terminated via command
    Stopped,
    /// Stopped without being requested
    Crashed,
}

/// Data storage entity for a subroutine running in a scene.
#[derive(Debug, PartialEq)]
pub struct SubroutineEntity {
    /// Subroutine key
    pub id: Id,
    /// Name of the subroutine
    pub name: String,
    /// Scene the subroutine runs in
    pub scene_id: Id,
    /// Definition the subroutine was started from
    pub subroutine_definition_id: String,
    /// Current status
    pub status: SubroutineStatus,
    /// Timestamp for the subroutine's repository record
    pub created_at: Option<chrono::NaiveDateTime>,
    /// Last time this subroutine's repository record was updated
    pub updated_at: Option<chrono::NaiveDateTime>,
}

impl SubroutineEntity {
    /// A new subroutine record with a fresh id, an unknown status and no timestamps.
    pub fn new(name: String, scene_id: Id, subroutine_definition_id: String) -> (s: Self)
        ensures
            s.name == name,
            s.scene_id == scene_id,
            s.subroutine_definition_id == subroutine_definition_id,
            s.status == SubroutineStatus::Unknown,
            s.created_at is None,
            s.updated_at is None,
    {
        SubroutineEntity {
            id: Id::generate(),
            name,
            scene_id,
            subroutine_definition_id,
            status: SubroutineStatus::Unknown,
            created_at: None,
            updated_at: None,
        }
    }

    /// Stamps the record's creation time with the current time.
    pub fn created(&mut self)
        ensures
            *final(self) == (SubroutineEntity { created_at: final(self).created_at, ..*old(self) }),
            final(self).created_at is Some,
    {
        self.created_at = Some(now());
    }

    /// Stamps the record's update time with the current time.
    pub fn updated(&mut self)
        ensures
            *final(self) == (SubroutineEntity { updated_at: final(self).updated_at, ..*old(self) }),
            final(self).updated_at is Some,
    {
        self.updated_at = Some(now());
    }
}

impl Clone for SubroutineEntity {
    fn clone(&self) -> (res: Self)
        ensures
            res == *self,
    {
        SubroutineEntity {
            id: self.id.clone(),
            name: self.name.clone(),
            scene_id: self.scene_id.clone(),
            subroutine_definition_id: self.subroutine_definition_id.clone(),
            status: self.status,
            created_at: self.created_at,
            updated_at: self.updated_at,
        }
    }
}

impl Record for SubroutineEntity {
    open spec fn key(&self) -> Seq<char> {
        self.id@
    }

    fn key_string(&self) -> (k: String) {
        self.id.to_string()
    }

    fn duplicate(&self) -> (r: Self) {
        self.clone()
    }
}

/// What a [`SubroutinesQuery`] asks for.
pub struct SubroutinesQueryView {
    /// the scene to match, if any
    pub scene: Option<Seq<char>>,
    /// the subroutine definition to match, if any
    pub definition: Option<Seq<char>>,
}

/// A subroutine satisfies a query when it runs in the query's scene (if one is
/// given) and was started from the query's definition (if one is given).
pub open spec fn subroutine_matches(q: SubroutinesQueryView, s: SubroutineEntity) -> bool {
    &&& (q.scene matches Some(id) ==> s.scene_id@ == id)
    &&& (q.definition matches Some(d) ==> s.subroutine_definition_id@ == d)
}

/// A subroutine satisfies a query exactly when it runs in the scene the query
/// names (if it names one) and was started from the definition the query names
/// (if it names one); a query naming neither is satisfied by every subroutine.
pub proof fn lemma_subroutine_query_criteria(q: SubroutinesQueryView, s: SubroutineEntity)
    ensures
        subroutine_matches(q, s) ==> (q.scene is None || s.scene_id@ == q.scene->0),
        subroutine_matches(q, s) ==> (q.definition is None || s.subroutine_definition_id@ == q.definition->0),
        (q.scene is None || s.scene_id@ == q.scene->0) && (q.definition is None
            || s.subroutine_definition_id@ == q.definition->0) ==> subroutine_matches(q, s),
{
}

/// A search lists only subroutines of the scene and the definition asked for,
/// and lists every stored subroutine that is of both.
pub proof fn lemma_subroutine_search_results(
    found: Seq<SubroutineEntity>,
    stored: Map<Seq<char>, SubroutineEntity>,
    q: SubroutinesQueryView,
)
    requires
        lists_exactly(found, stored, |s: SubroutineEntity| subroutine_matches(q, s)),
    ensures
        forall|i: int|
            0 <= i < found.len() && q.definition is Some ==> (#[trigger] found[i]).subroutine_definition_id@
                == q.definition->0,
        forall|i: int| 0 <= i < found.len() && q.scene is Some ==> (#[trigger] found[i]).scene_id@ == q.scene->0,
        forall|i: int| 0 <= i < found.len() ==> stored.contains_key((#[trigger] found[i]).id@),
        forall|k: Seq<char>|
            #[trigger] stored.contains_key(k) && (q.scene is None || stored[k].scene_id@ == q.scene->0) && (
            q.definition is None || stored[k].subroutine_definition_id@ == q.definition->0) ==> has_key(found, k),
{
    let pred = |s: SubroutineEntity| subroutine_matches(q, s);
    assert forall|i: int| 0 <= i < found.len() implies (q.definition is Some ==> (#[trigger] found[i]).subroutine_definition_id@
        == q.definition->0) && (q.scene is Some ==> found[i].scene_id@ == q.scene->0) && stored.contains_key(
        found[i].id@) by {
        assert(stored.contains_key(found[i].key()));
        assert(pred(found[i]));
    }
    assert forall|k: Seq<char>|
        #[trigger] stored.contains_key(k) && (q.scene is None || stored[k].scene_id@ == q.scene->0) && (
        q.definition is None || stored[k].subroutine_definition_id@ == q.definition->0) implies has_key(found, k) by {
        assert(pred(stored[k]));
    }
}

/// `subroutine` specific query arguments
#[derive(Debug, Default)]
pub struct SubroutinesQuery {
    scene: Option<String>,
    definition: Option<String>,
}

impl View for SubroutinesQuery {
    type V = SubroutinesQueryView;

    closed spec fn view(&self) -> SubroutinesQueryView {
        SubroutinesQueryView {
            scene: match self.scene {
                Some(n) => Some(n@),
                None => None,
            },
            definition: match self.definition {
                Some(n) => Some(n@),
                None => None,
            },
        }
    }
}

impl SubroutinesQuery {
    /// Construct a query builder, matching every subroutine.
    pub fn builder() -> (q: Self)
        ensures
            q@.scene is None,
            q@.definition is None,
    {
        SubroutinesQuery { scene: None, definition: None }
    }

    /// match subroutines running in the given scene
    pub fn for_scene(&mut self, scene_id: &Id) -> (r: &mut Self)
        ensures
            r@.scene == Some(scene_id@),
            r@.definition == old(self)@.definition,
            *final(self) == *final(r),
    {
        self.scene = Some(scene_id.to_string());
        self
    }

    /// match subroutines started from the given definition
    pub fn for_subroutine_definition(&mut self, definition_id: &str) -> (r: &mut Self)
        ensures
            r@.scene == old(self)@.scene,
            r@.definition == Some(definition_id@),
            *final(self) == *final(r),
    {
        self.definition = Some(definition_id.to_owned());
        self
    }

    /// Convert this builder instance into a [`SubroutinesQuery`]
    pub fn build(&self) -> (q: Self)
        ensures
            q@ == self@,
    {
        SubroutinesQuery {
            scene: match &self.scene {
                Some(n) => Some(n.clone()),
                None => None,
            },
            definition: match &self.definition {
                Some(n) => Some(n.clone()),
                None => None,
            },
        }
    }

    /// Whether the subroutine satisfies this query.
    pub fn matches(&self, s: &SubroutineEntity) -> (b: bool)
        ensures
            b == subroutine_matches(self@, *s),
    {
        let scene_ok = match &self.scene {
            Some(id) => *id == s.scene_id.to_string(),
            None => true,
        };
        let def_ok = match &self.definition {
            Some(d) => *d == s.subroutine_definition_id,
            None => true,
        };
        scene_ok && def_ok
    }
}

/// A subroutine running for a given fleet and namespace.
#[derive(Debug, PartialEq)]
pub struct SubroutineInstance {
    /// The subroutine this is an instance of
    pub subroutine_id: Id,
    /// Fleet the instance runs in
    pub fleet: String,
    /// Namespace the instance runs in
    pub namespace: String,
    /// Current status
    pub status: SubroutineStatus,
}

/// Storage key of an instance: its fleet, namespace and subroutine id, joined by slashes.
pub open spec fn instance_key(fleet: Seq<char>, namespace: Seq<char>, subroutine_id: Seq<char>) -> Seq<
    char,
> {
    fleet + seq!['/'] + namespace + seq!['/'] + subroutine_id
}

impl SubroutineInstance {
    /// Storage key of this instance.
    pub fn db_key(&self) -> (k: String)
        ensures
            k@ == instance_key(self.fleet@, self.namespace@, self.subroutine_id@),
    {
        let sep = "/";
        proof {
            reveal_strlit("/");
        }
        self.fleet.clone().concat(sep).concat(self.namespace.as_str()).concat(sep).concat(
            self.subroutine_id.as_str(),
        )
    }
}

impl Clone for SubroutineInstance {
    fn clone(&self) -> (res: Self)
        ensures
            res == *self,
    {
        SubroutineInstance {
            subroutine_id: self.subroutine_id.clone(),
            fleet: self.fleet.clone(),
            namespace: self.namespace.clone(),
            status: self.status,
        }
    }
}

impl Record for SubroutineInstance {
    open spec fn key(&self) -> Seq<char> {
        instance_key(self.fleet@, self.namespace@, self.subroutine_id@)
    }

    fn key_string(&self) -> (k: String) {
        self.db_key()
    }

    fn duplicate(&self) -> (r: Self) {
        self.clone()
    }
}

} // verus!
