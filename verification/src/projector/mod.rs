//! Projectors: the per-namespace `uhura` processes.

use vstd::prelude::*;

use crate::paths::{join, joined};
use crate::repositories::memory::table::Record;

verus! {

/// Current status of a projector.
#[derive(Clone, Copy, Debug, PartialEq, Eq, Structural)]
pub enum ProjectorStatus {
    /// Unknown
    Unknown,
    /// Running with the given process id
    Running(u32),
    /// Terminated via command
    Stopped,
}

/// Data storage entity for a projector.  A projector is identified by its namespace.
#[derive(Debug, PartialEq)]
pub struct ProjectorEntity {
    id: String,
    namespace: String,
    root: String,
    status: ProjectorStatus,
}

/// Name of the pidfile a projector writes in its root directory.
pub open spec fn projector_pidfile_name() -> Seq<char> {
    "uhura.pid"@
}

impl ProjectorEntity {
    /// The projector's id (the text of its namespace).
    pub closed spec fn id_spec(&self) -> Seq<char> {
        self.id@
    }

    /// The projector's namespace.
    pub closed spec fn namespace_spec(&self) -> Seq<char> {
        self.namespace@
    }

    /// The projector's root directory.
    pub closed spec fn root_spec(&self) -> Seq<char> {
        self.root@
    }

    /// The projector's status.
    pub closed spec fn status_spec(&self) -> ProjectorStatus {
        self.status
    }

    /// A projector for `namespace` rooted at `root`, with an unknown status.
    pub fn new(namespace: &str, root: &str) -> (p: Self)
        ensures
            p.id_spec() == namespace@,
            p.namespace_spec() == namespace@,
            p.root_spec() == root@,
            p.status_spec() == ProjectorStatus::Unknown,
    {
        ProjectorEntity {
            id: namespace.to_owned(),
            namespace: namespace.to_owned(),
            root: root.to_owned(),
            status: ProjectorStatus::Unknown,
        }
    }

    /// The projector's id.
    pub fn id(&self) -> (s: &str)
        ensures
            s@ == self.id_spec(),
    {
        self.id.as_str()
    }

    /// The projector's namespace.
    pub fn namespace(&self) -> (s: &str)
        ensures
            s@ == self.namespace_spec(),
    {
        self.namespace.as_str()
    }

    /// The projector's root directory.
    pub fn root(&self) -> (s: &str)
        ensures
            s@ == self.root_spec(),
    {
        self.root.as_str()
    }

    /// The projector's pidfile, inside its root directory.
    pub fn pidfile(&self) -> (s: String)
        ensures
            s@ == joined(self.root_spec(), projector_pidfile_name()),
    {
        let name = "uhura.pid";
        join(self.root.as_str(), name)
    }

    /// The projector's status.
    pub fn status(&self) -> (s: ProjectorStatus)
        ensures
            s == self.status_spec(),
    {
        self.status
    }

    /// Sets the projector's status.
    pub fn set_status(&mut self, status: ProjectorStatus)
        ensures
            final(self).id_spec() == old(self).id_spec(),
            final(self).namespace_spec() == old(self).namespace_spec(),
            final(self).root_spec() == old(self).root_spec(),
            final(self).status_spec() == status,
    {
        self.status = status;
    }
}

impl Clone for ProjectorEntity {
    fn clone(&self) -> (res: Self)
        ensures
            res == *self,
    {
        ProjectorEntity {
            id: self.id.clone(),
            namespace: self.namespace.clone(),
            root: self.root.clone(),
            status: self.status,
        }
    }
}

impl Record for ProjectorEntity {
    open spec fn key(&self) -> Seq<char> {
        self.id_spec()
    }

    fn key_string(&self) -> (k: String) {
        self.id.clone()
    }

    fn duplicate(&self) -> (r: Self) {
        self.clone()
    }
}

/// What a [`ProjectorsQuery`] asks for: an optional namespace.
pub struct ProjectorsQueryView {
    /// the namespace to match, if any
    pub namespace: Option<Seq<char>>,
}

/// A projector satisfies a query when it serves the query's namespace (if one is given).
pub open spec fn projector_matches(q: ProjectorsQueryView, p: ProjectorEntity) -> bool {
    q.namespace matches Some(n) ==> p.namespace_spec() == n
}

/// `projector` specific query arguments
#[derive(Debug, Default)]
pub struct ProjectorsQuery {
    namespace: Option<String>,
}

impl View for ProjectorsQuery {
    type V = ProjectorsQueryView;

    closed spec fn view(&self) -> ProjectorsQueryView {
        ProjectorsQueryView {
            namespace: match self.namespace {
                Some(n) => Some(n@),
                None => None,
            },
        }
    }
}

impl ProjectorsQuery {
    /// Construct a query builder, matching every projector.
    pub fn builder() -> (q: Self)
        ensures
            q@.namespace is None,
    {
        ProjectorsQuery { namespace: None }
    }

    /// match projectors serving the given namespace
    pub fn namespace_eq(&mut self, namespace: &str) -> (r: &mut Self)
        ensures
            r@.namespace == Some(namespace@),
            *final(self) == *final(r),
    {
        self.namespace = Some(namespace.to_owned());
        self
    }

    /// Convert this builder instance into a [`ProjectorsQuery`]
    pub fn build(&self) -> (q: Self)
        ensures
            q@ == self@,
    {
        ProjectorsQuery {
            namespace: match &self.namespace {
                Some(n) => Some(n.clone()),
                None => None,
            },
        }
    }

    /// Whether the projector satisfies this query.
    pub fn matches(&self, p: &ProjectorEntity) -> (b: bool)
        ensures
            b == projector_matches(self@, *p),
    {
        match &self.namespace {
            Some(n) => *n == p.namespace,
            None => true,
        }
    }
}

} // verus!
