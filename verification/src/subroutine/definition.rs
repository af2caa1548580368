//! Subroutine definitions: the subroutines a projector knows how to run.

use vstd::prelude::*;

use crate::repositories::memory::table::{
    as_map, has_key, lemma_filter_lists_exactly, lists_exactly, unique_keys, Record, Table,
};

verus! {

/// How a subroutine is packaged.
#[derive(Clone, Copy, Debug, PartialEq, Eq, Structural)]
pub enum SubroutineKind {
    /// Unknown packaging
    Unknown,
    /// A Ruby application
    Ruby,
}

/// A subroutine definition.
#[derive(Debug, PartialEq)]
pub struct SubroutineDefinitionEntity {
    /// Definition key
    pub id: String,
    /// Name of the subroutine
    pub name: String,
    /// Directory holding the subroutine
    pub path: String,
    /// How the subroutine is packaged
    pub kind: SubroutineKind,
}

impl Clone for SubroutineDefinitionEntity {
    fn clone(&self) -> (res: Self)
        ensures
            res == *self,
    {
        SubroutineDefinitionEntity {
            id: self.id.clone(),
            name: self.name.clone(),
            path: self.path.clone(),
            kind: self.kind,
        }
    }
}

impl Record for SubroutineDefinitionEntity {
    open spec fn key(&self) -> Seq<char> {
        self.id@
    }

    fn key_string(&self) -> (k: String) {
        self.id.clone()
    }

    fn duplicate(&self) -> (r: Self) {
        self.clone()
    }
}

/// Errors reported when looking up a subroutine definition.
#[derive(Debug)]
pub enum GetSubroutineDefinitionError {
    /// No definition has the given id (the id).
    NotFound(String),
}

/// Errors reported when creating a subroutine definition.
#[derive(Debug)]
pub enum CreateSubroutineDefinitionError {
    /// A definition with the given name already exists (the name).
    Conflict(String),
}

/// A definition satisfies the criteria when it has the given name, path and
/// kind, for each criterion that is given.
pub open spec fn definition_matches(
    name: Option<Seq<char>>,
    path: Option<Seq<char>>,
    kind: Option<SubroutineKind>,
    d: SubroutineDefinitionEntity,
) -> bool {
    &&& (name matches Some(n) ==> d.name@ == n)
    &&& (path matches Some(p) ==> d.path@ == p)
    &&& (kind matches Some(k) ==> d.kind == k)
}

/// A search for definitions lists only definitions with the name, the path and
/// the kind asked for (each where one is asked for), and lists every stored
/// definition that has all of them.
pub proof fn lemma_definition_search_results(
    found: Seq<SubroutineDefinitionEntity>,
    stored: Map<Seq<char>, SubroutineDefinitionEntity>,
    name: Option<Seq<char>>,
    path: Option<Seq<char>>,
    kind: Option<SubroutineKind>,
)
    requires
        lists_exactly(found, stored, |d: SubroutineDefinitionEntity| definition_matches(name, path, kind, d)),
    ensures
        forall|i: int| 0 <= i < found.len() && name is Some ==> (#[trigger] found[i]).name@ == name->0,
        forall|i: int| 0 <= i < found.len() && path is Some ==> (#[trigger] found[i]).path@ == path->0,
        forall|i: int| 0 <= i < found.len() && kind is Some ==> (#[trigger] found[i]).kind == kind->0,
        forall|i: int| 0 <= i < found.len() ==> stored.contains_key((#[trigger] found[i]).id@),
        forall|k: Seq<char>|
            #[trigger] stored.contains_key(k) && (name is None || stored[k].name@ == name->0) && (path is None
                || stored[k].path@ == path->0) && (kind is None || stored[k].kind == kind->0) ==> has_key(found, k),
{
    let pred = |d: SubroutineDefinitionEntity| definition_matches(name, path, kind, d);
    assert forall|i: int| 0 <= i < found.len() implies (name is Some ==> (#[trigger] found[i]).name@ == name->0) && (
    path is Some ==> found[i].path@ == path->0) && (kind is Some ==> found[i].kind == kind->0) && stored.contains_key(
        found[i].id@) by {
        assert(stored.contains_key(found[i].key()));
        assert(pred(found[i]));
    }
    assert forall|k: Seq<char>|
        #[trigger] stored.contains_key(k) && (name is None || stored[k].name@ == name->0) && (path is None
            || stored[k].path@ == path->0) && (kind is None || stored[k].kind == kind->0) implies has_key(found, k) by {
        assert(pred(stored[k]));
    }
}

/// The view of an optional text.
pub open spec fn opt_view(s: Option<&str>) -> Option<Seq<char>> {
    match s {
        Some(t) => Some(t@),
        None => None,
    }
}

/// The subroutine definitions a projector knows, by id.
#[derive(Debug)]
pub struct SubroutineDefinitions {
    definitions: Table<SubroutineDefinitionEntity>,
}

impl View for SubroutineDefinitions {
    type V = Seq<SubroutineDefinitionEntity>;

    closed spec fn view(&self) -> Seq<SubroutineDefinitionEntity> {
        self.definitions@
    }
}

impl SubroutineDefinitions {
    /// No two definitions share an id.
    pub open spec fn wf(&self) -> bool {
        unique_keys(self@)
    }

    /// The definitions, by id.
    pub open spec fn by_id(&self) -> Map<Seq<char>, SubroutineDefinitionEntity> {
        as_map(self@)
    }

    /// No definitions.
    pub fn new() -> (s: Self)
        ensures
            s.wf(),
            s.by_id() == Map::<Seq<char>, SubroutineDefinitionEntity>::empty(),
    {
        SubroutineDefinitions { definitions: Table::new() }
    }

    /// Adds a definition under an id that is not yet used.
    pub fn add(&mut self, definition: SubroutineDefinitionEntity) -> (r: bool)
        requires
            old(self).wf(),
        ensures
            final(self).wf(),
            r == !old(self).by_id().contains_key(definition.id@),
            r ==> final(self).by_id() == old(self).by_id().insert(definition.id@, definition),
            !r ==> final(self).by_id() == old(self).by_id(),
    {
        if self.definitions.contains(&definition.id) {
            false
        } else {
            self.definitions.insert(definition);
            true
        }
    }

    /// All definitions satisfying the criteria given, each once.
    pub fn find_subroutine_definitions(
        &self,
        name: Option<&str>,
        path: Option<&str>,
        kind: Option<SubroutineKind>,
    ) -> (r: Vec<SubroutineDefinitionEntity>)
        requires
            self.wf(),
        ensures
            lists_exactly(
                r@,
                self.by_id(),
                |d: SubroutineDefinitionEntity| definition_matches(opt_view(name), opt_view(path), kind, d),
            ),
    {
        let all = self.definitions.values();
        let ghost pred = |d: SubroutineDefinitionEntity| definition_matches(opt_view(name), opt_view(path), kind, d);
        let mut out: Vec<SubroutineDefinitionEntity> = Vec::new();
        let mut i: usize = 0;
        while i < all.len()
            invariant
                i <= all@.len(),
                out@ == all@.take(i as int).filter(pred),
                pred == (|d: SubroutineDefinitionEntity| definition_matches(opt_view(name), opt_view(path), kind, d)),
            decreases all@.len() - i,
        {
            proof {
                all@.take(i as int).lemma_filter_push(all@[i as int], pred);
                assert(all@.take(i as int).push(all@[i as int]) == all@.take(i + 1));
            }
            let d = &all[i];
            let name_ok = match name {
                Some(n) => n.to_owned() == d.name,
                None => true,
            };
            let path_ok = match path {
                Some(p) => p.to_owned() == d.path,
                None => true,
            };
            let kind_ok = match kind {
                Some(k) => k == d.kind,
                None => true,
            };
            if name_ok && path_ok && kind_ok {
                out.push(d.clone());
            }
            i += 1;
        }
        proof {
            assert(all@.take(all@.len() as int) == all@);
            lemma_filter_lists_exactly(all@, pred);
        }
        out
    }

    /// The definition with the given id.
    pub fn get_subroutine_definition(&self, id: &str) -> (r: core::result::Result<
        SubroutineDefinitionEntity,
        GetSubroutineDefinitionError,
    >)
        requires
            self.wf(),
        ensures
            match r {
                Ok(d) => self.by_id().contains_key(id@) && d == self.by_id()[id@],
                Err(GetSubroutineDefinitionError::NotFound(t)) => !self.by_id().contains_key(id@) && t@
                    == id@,
            },
    {
        let key = id.to_owned();
        match self.definitions.get(&key) {
            Some(d) => Ok(d),
            None => Err(GetSubroutineDefinitionError::NotFound(key)),
        }
    }
}

} // verus!
