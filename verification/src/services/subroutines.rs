//! The subroutines service of a projector: the subroutines of one namespace.

use vstd::prelude::*;

use crate::config::HolodekkConfig;
use crate::entity::id::valid_id_text;
use crate::entity::repository::Error as RepositoryError;
use crate::entity::Id;
use crate::repositories::memory::data::subroutine_instances::{instances_of, SubroutineInstanceMemoryStore};
use crate::repositories::memory::table::{has_key, lists_exactly, Record};
use crate::subroutine::definition::{
    definition_matches, opt_view, SubroutineDefinitionEntity, SubroutineDefinitions, SubroutineKind,
};
use crate::subroutine::{SubroutineInstance, SubroutineStatus};

verus! {

/// Errors reported by the subroutines service.
#[derive(Debug)]
pub enum SubroutineServiceError {
    /// No such subroutine (or no instance of it here).
    NotFound,
    /// A subroutine with the same name exists.
    Duplicate,
    /// The repository reported an error.
    Repository(RepositoryError),
}

/// Position of the first instance running in the given fleet and namespace, or -1.
pub open spec fn first_instance_in(instances: Seq<SubroutineInstance>, fleet: Seq<char>, namespace: Seq<char>) -> int {
    if exists|i: int| is_first_instance_in(instances, fleet, namespace, i) {
        choose|i: int| is_first_instance_in(instances, fleet, namespace, i)
    } else {
        -1
    }
}

/// The instance at position `i` is the first one running in the given fleet and namespace.
pub open spec fn is_first_instance_in(instances: Seq<SubroutineInstance>, fleet: Seq<char>, namespace: Seq<char>, i: int) -> bool {
    &&& 0 <= i < instances.len()
    &&& instances[i].fleet@ == fleet
    &&& instances[i].namespace@ == namespace
    &&& forall|j: int| 0 <= j < i ==> !((#[trigger] instances[j]).fleet@ == fleet && instances[j].namespace@ == namespace)
}

/// What a new subroutine is made of.
#[derive(Debug)]
pub struct SubroutineCreateInput {
    /// name of the subroutine
    pub name: String,
    /// directory holding the subroutine
    pub path: String,
    /// how the subroutine is packaged
    pub kind: SubroutineKind,
}

/// Some instance at or before position `i` runs in the given fleet and namespace.
proof fn lemma_first_instance_exists(v: Seq<SubroutineInstance>, fleet: Seq<char>, namespace: Seq<char>, i: int)
    requires
        0 <= i < v.len(),
        v[i].fleet@ == fleet,
        v[i].namespace@ == namespace,
    ensures
        exists|k: int| is_first_instance_in(v, fleet, namespace, k),
    decreases i,
{
    if exists|j: int| 0 <= j < i && (#[trigger] v[j]).fleet@ == fleet && v[j].namespace@ == namespace {
        let j = choose|j: int| 0 <= j < i && (#[trigger] v[j]).fleet@ == fleet && v[j].namespace@ == namespace;
        lemma_first_instance_exists(v, fleet, namespace, j);
    } else {
        assert(is_first_instance_in(v, fleet, namespace, i));
    }
}

/// The status answered for a subroutine's instances is that of an instance
/// running in the service's fleet and namespace, with no earlier instance in
/// both; it is not found exactly when no instance runs in both.
pub proof fn lemma_status_among(v: Seq<SubroutineInstance>, fleet: Seq<char>, namespace: Seq<char>)
    ensures
        status_among(v, fleet, namespace) matches Ok(st) ==> exists|i: int|
            0 <= i < v.len() && (#[trigger] v[i]).fleet@ == fleet && v[i].namespace@ == namespace && v[i].status == st
                && forall|j: int| 0 <= j < i ==> !((#[trigger] v[j]).fleet@ == fleet && v[j].namespace@ == namespace),
        status_among(v, fleet, namespace) is Err <==> forall|i: int|
            0 <= i < v.len() ==> !((#[trigger] v[i]).fleet@ == fleet && v[i].namespace@ == namespace),
        status_among(v, fleet, namespace) matches Err(e) ==> e is NotFound,
{
    let k = first_instance_in(v, fleet, namespace);
    if exists|i: int| 0 <= i < v.len() && (#[trigger] v[i]).fleet@ == fleet && v[i].namespace@ == namespace {
        let i = choose|i: int| 0 <= i < v.len() && (#[trigger] v[i]).fleet@ == fleet && v[i].namespace@ == namespace;
        lemma_first_instance_exists(v, fleet, namespace, i);
        assert(is_first_instance_in(v, fleet, namespace, k));
        assert(0 <= k < v.len() && v[k].fleet@ == fleet && v[k].namespace@ == namespace);
    } else {
        if exists|i: int| is_first_instance_in(v, fleet, namespace, i) {
            let i = choose|i: int| is_first_instance_in(v, fleet, namespace, i);
            assert(v[i].fleet@ == fleet);
        }
    }
}

/// The status answered for a subroutine whose instances are `v`: that of the
/// first one running in the given fleet and namespace, or not found.
pub open spec fn status_among(v: Seq<SubroutineInstance>, fleet: Seq<char>, namespace: Seq<char>) -> core::result::Result<
    SubroutineStatus,
    SubroutineServiceError,
> {
    let i = first_instance_in(v, fleet, namespace);
    if i < 0 {
        Err(SubroutineServiceError::NotFound)
    } else {
        Ok(v[i].status)
    }
}

/// Some stored subroutine has the given name.
pub open spec fn name_taken(definitions: Map<Seq<char>, SubroutineDefinitionEntity>, name: Seq<char>) -> bool {
    exists|k: Seq<char>| #[trigger] definitions.contains_key(k) && definitions[k].name@ == name
}

/// The subroutines service for one namespace.
#[derive(Debug)]
pub struct SubroutinesService {
    config: HolodekkConfig,
    namespace: String,
}

impl SubroutinesService {
    /// The configuration the service runs with.
    pub closed spec fn config_spec(&self) -> HolodekkConfig {
        self.config
    }

    /// The namespace the service serves.
    pub closed spec fn namespace_spec(&self) -> Seq<char> {
        self.namespace@
    }

    /// A service for the given namespace.
    pub fn new(config: HolodekkConfig, namespace: &str) -> (s: Self)
        ensures
            s.config_spec() == config,
            s.namespace_spec() == namespace@,
    {
        SubroutinesService { config, namespace: namespace.to_owned() }
    }

    /// The status of a subroutine here, given the lookup of the subroutine by
    /// name: the instances recorded for it (if any were recorded), or the
    /// repository's error.  The status is that of the first instance running in
    /// this fleet and namespace.
    pub fn status(&self, lookup: core::result::Result<Option<Vec<SubroutineInstance>>, RepositoryError>) -> (r:
        core::result::Result<SubroutineStatus, SubroutineServiceError>)
        ensures
            match lookup {
                Err(RepositoryError::NotFound(_)) => r matches Err(SubroutineServiceError::NotFound),
                Err(e) => r matches Err(SubroutineServiceError::Repository(e2)) && e2 == e,
                Ok(None) => r matches Err(SubroutineServiceError::NotFound),
                Ok(Some(v)) => {
                    let i = first_instance_in(v@, self.config_spec().fleet@, self.namespace_spec());
                    if i < 0 {
                        r matches Err(SubroutineServiceError::NotFound)
                    } else {
                        r == Ok::<SubroutineStatus, SubroutineServiceError>(v@[i].status)
                    }
                },
            },
            lookup matches Ok(Some(v)) ==> r == status_among(v@, self.config_spec().fleet@, self.namespace_spec()),
    {
        let ghost lk = lookup;
        let instances = match lookup {
            Err(RepositoryError::NotFound(_)) => return Err(SubroutineServiceError::NotFound),
            Err(e) => return Err(SubroutineServiceError::Repository(e)),
            Ok(None) => return Err(SubroutineServiceError::NotFound),
            Ok(Some(v)) => v,
        };
        let ghost fleet = self.config.fleet@;
        let ghost ns = self.namespace@;
        let mut i: usize = 0;
        while i < instances.len()
            invariant
                i <= instances@.len(),
                fleet == self.config.fleet@,
                ns == self.namespace@,
                lk == lookup,
                lk matches Ok(Some(v)) && v == instances,
                forall|j: int|
                    0 <= j < i ==> !((#[trigger] instances@[j]).fleet@ == fleet && instances@[j].namespace@
                        == ns),
            decreases instances@.len() - i,
        {
            let inst = &instances[i];
            if inst.fleet == self.config.fleet && inst.namespace == self.namespace {
                proof {
                    assert(is_first_instance_in(instances@, fleet, ns, i as int));
                    let k = first_instance_in(instances@, fleet, ns);
                    assert(0 <= k < instances@.len());
                    assert(instances@[k].fleet@ == fleet && instances@[k].namespace@ == ns);
                    if k < i {
                        assert(!(instances@[k].fleet@ == fleet && instances@[k].namespace@ == ns));
                    }
                    if k > i {
                        assert(!(instances@[i as int].fleet@ == fleet && instances@[i as int].namespace@ == ns));
                    }
                }
                return Ok(inst.status);
            }
            i += 1;
        }
        proof {
            let k = first_instance_in(instances@, fleet, ns);
            if k >= 0 {
                assert(!(instances@[k].fleet@ == fleet && instances@[k].namespace@ == ns));
            }
        }
        Err(SubroutineServiceError::NotFound)
    }

    /// Creates a subroutine from the input and stores it among the definitions,
    /// unless a subroutine with its name is stored already: the new subroutine
    /// has a fresh id and the input's name, path and kind.  Should the fresh id
    /// already be taken, the store refuses it and nothing changes.
    pub fn create(&self, definitions: &mut SubroutineDefinitions, input: SubroutineCreateInput) -> (r:
        core::result::Result<SubroutineDefinitionEntity, SubroutineServiceError>)
        requires
            old(definitions).wf(),
        ensures
            final(definitions).wf(),
            match r {
                Ok(d) => {
                    &&& !name_taken(old(definitions).by_id(), input.name@)
                    &&& valid_id_text(d.id@)
                    &&& d.name == input.name
                    &&& d.path == input.path
                    &&& d.kind == input.kind
                    &&& !old(definitions).by_id().contains_key(d.id@)
                    &&& final(definitions).by_id() == old(definitions).by_id().insert(d.id@, d)
                },
                Err(SubroutineServiceError::Duplicate) => {
                    &&& name_taken(old(definitions).by_id(), input.name@)
                    &&& final(definitions).by_id() == old(definitions).by_id()
                },
                Err(SubroutineServiceError::Repository(RepositoryError::Conflict(t))) => {
                    &&& !name_taken(old(definitions).by_id(), input.name@)
                    &&& old(definitions).by_id().contains_key(t@)
                    &&& final(definitions).by_id() == old(definitions).by_id()
                },
                Err(_) => false,
            },
    {
        // make sure this subroutine does not already exist
        let name = input.name.as_str();
        let found = definitions.find_subroutine_definitions(Some(name), None, None);
        proof {
            let m = old(definitions).by_id();
            let pred = |d: SubroutineDefinitionEntity|
                definition_matches(opt_view(Some(name)), opt_view(None), None, d);
            assert(opt_view(Some(name)) == Some(input.name@));
            assert(lists_exactly(found@, m, pred));
            if name_taken(m, input.name@) {
                let k = choose|k: Seq<char>| #[trigger] m.contains_key(k) && m[k].name@ == input.name@;
                assert(pred(m[k]));
                assert(has_key(found@, k));
            }
            if found@.len() > 0 {
                assert(m.contains_key(found@[0].key()) && m[found@[0].key()] == found@[0] && pred(found@[0]));
                assert(found@[0].name@ == input.name@);
            }
        }
        if found.len() > 0 {
            return Err(SubroutineServiceError::Duplicate);
        }
        let id = Id::generate();
        let definition = SubroutineDefinitionEntity {
            id: id.to_string(),
            name: input.name,
            path: input.path,
            kind: input.kind,
        };
        let key = definition.id.clone();
        let copy = definition.clone();
        if definitions.add(copy) {
            Ok(definition)
        } else {
            Err(SubroutineServiceError::Repository(RepositoryError::Conflict(key)))
        }
    }

    /// The status here of the subroutine with the given name: the subroutine is
    /// looked up by name among the definitions, together with its instances,
    /// and the status is that of its first instance in this fleet and namespace.
    pub fn status_by_name(
        &self,
        definitions: &SubroutineDefinitions,
        instances: &SubroutineInstanceMemoryStore,
        name: &str,
    ) -> (r: core::result::Result<SubroutineStatus, SubroutineServiceError>)
        requires
            definitions.wf(),
        ensures
            !name_taken(definitions.by_id(), name@) ==> r matches Err(SubroutineServiceError::NotFound),
            name_taken(definitions.by_id(), name@) ==> exists|k: Seq<char>|
                #[trigger] definitions.by_id().contains_key(k) && definitions.by_id()[k].name@ == name@
                    && r == status_among(instances_of(instances@, k), self.config_spec().fleet@, self.namespace_spec()),
    {
        let found = definitions.find_subroutine_definitions(Some(name), None, None);
        proof {
            let m = definitions.by_id();
            let pred = |d: SubroutineDefinitionEntity|
                definition_matches(opt_view(Some(name)), opt_view(None), None, d);
            assert(opt_view(Some(name)) == Some(name@));
            if name_taken(m, name@) {
                let k = choose|k: Seq<char>| #[trigger] m.contains_key(k) && m[k].name@ == name@;
                assert(pred(m[k]));
                assert(has_key(found@, k));
            }
            if found@.len() > 0 {
                assert(m.contains_key(found@[0].key()) && m[found@[0].key()] == found@[0] && pred(found@[0]));
            }
        }
        if found.len() == 0 {
            return self.status(Err(RepositoryError::NotFound(name.to_owned())));
        }
        let v = instances.all_for(found[0].id.as_str());
        let ghost k = found@[0].id@;
        let r = self.status(Ok(Some(v)));
        proof {
            assert(definitions.by_id().contains_key(k) && definitions.by_id()[k].name@ == name@);
        }
        r
    }
}

} // verus!
