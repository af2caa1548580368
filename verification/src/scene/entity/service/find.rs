//! Finding scenes.

use vstd::prelude::*;

use crate::entity::service::{Error, Result};
use crate::scene::entity::repository::{lists_matching, Query, QueryView, Repository};
use crate::scene::entity::Entity;

use super::{Ready, Service};

verus! {

/// Input requirements for [`Find::find()`]
#[derive(Clone, Copy, Default, Debug, PartialEq)]
pub struct Input<'f> {
    /// name to query
    pub name: Option<&'f str>,
}

impl<'f> Input<'f> {
    /// Shorthand for instanciating a new [`Input`] instance
    pub fn new(name: Option<&'f str>) -> (i: Self)
        ensures
            i.name == name,
    {
        Input { name }
    }
}

/// The query a find input asks for: its name, if any, whatever the status.
pub open spec fn input_query(name: Option<&str>) -> QueryView {
    QueryView {
        name: match name {
            Some(n) => Some(n@),
            None => None,
        },
        status: None,
    }
}

/// Retrieve one or more scene [`Entities`][`Entity`] from the repository
pub trait Find: Ready {
    /// Retrieves scene instances from the repository based on the input data.
    fn find(&self, input: &Input) -> Result<Vec<Entity>>
        requires
            self.ready(),
    ;
}

impl<R: Repository> Find for Service<R> {
    /// Retrieves every scene with the input's name (every scene, when no name is given).
    fn find(&self, input: &Input) -> (r: Result<Vec<Entity>>)
        ensures
            match r {
                Ok(v) => lists_matching(v@, self.repository().scenes(), input_query(input.name)),
                Err(Error::Repository(_)) => !self.repository().reliable(),
                Err(_) => false,
            },
    {
        let mut q = Query::builder();
        let query = match input.name {
            Some(n) => q.name_eq(n).build(),
            None => q.build(),
        };
        match self.repo.scenes_find(&query) {
            Ok(scenes) => Ok(scenes),
            Err(e) => Err(Error::Repository(e)),
        }
    }
}

} // verus!
