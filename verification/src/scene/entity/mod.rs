//! Repository storage representation for a running scene instance.

pub mod repository;
pub use repository::Repository;
pub mod service;
pub use service::Service;

pub mod api;

use vstd::prelude::*;

use crate::entity::{time::now, Id};
use crate::repositories::memory::table::Record;

verus! {

/// Scene specific entity id (data storage key)
pub type SceneId = Id;

/// User-assigned scene name
pub type Name = String;

/// Current status of a given scene
#[derive(Clone, Copy, Debug, PartialEq, Eq, Structural)]
pub enum Status {
    /// Unknown
    Unknown,
    /// Created (but not running)
    Created,
    /// Running (but not synchronized)
    Starting(i32),
    /// Fully operational
    Running(i32),
    /// Terminated via command
    Stopped,
    /// Stopped without being requested
    Crashed,
}

/// Data storage entity for a given scene
#[derive(Debug, PartialEq)]
pub struct Entity {
    /// Scene key
    pub id: Id,
    /// Name assigned by the end user
    pub name: Name,
    /// Current status of this scene (projector)
    pub status: Status,
    /// Timestamp for the scene's repository record
    pub created_at: Option<chrono::NaiveDateTime>,
    /// Last time this scene's repository record was updated
    pub updated_at: Option<chrono::NaiveDateTime>,
}

impl Entity {
    /// Shorthand for creating a new scene entity: a fresh id, the given name,
    /// an unknown status and no timestamps.
    pub fn new(name: Name) -> (e: Self)
        ensures
            e.name@ == name@,
            e.status == Status::Unknown,
            e.created_at is None,
            e.updated_at is None,
    {
        Entity { id: Id::generate(), name, status: Status::Unknown, created_at: None, updated_at: None }
    }

    /// Stamps the record's creation time with the current time.
    pub fn created(&mut self)
        ensures
            final(self).id == old(self).id,
            final(self).name == old(self).name,
            final(self).status == old(self).status,
            final(self).created_at is Some,
            final(self).updated_at == old(self).updated_at,
    {
        self.created_at = Some(now());
    }

    /// Stamps the record's update time with the current time.
    pub fn updated(&mut self)
        ensures
            final(self).id == old(self).id,
            final(self).name == old(self).name,
            final(self).status == old(self).status,
            final(self).created_at == old(self).created_at,
            final(self).updated_at is Some,
    {
        self.updated_at = Some(now());
    }
}

impl Default for Entity {
    /// A nameless scene with a fresh id, an unknown status and no timestamps.
    fn default() -> (e: Self)
        ensures
            e.name@ == Seq::<char>::empty(),
            e.status == Status::Unknown,
            e.created_at is None,
            e.updated_at is None,
    {
        Entity::new(String::new())
    }
}

impl Clone for Entity {
    fn clone(&self) -> (res: Self)
        ensures
            res == *self,
    {
        Entity {
            id: self.id.clone(),
            name: self.name.clone(),
            status: self.status,
            created_at: self.created_at,
            updated_at: self.updated_at,
        }
    }
}

impl Record for Entity {
    open spec fn key(&self) -> Seq<char> {
        self.id@
    }

    fn key_string(&self) -> (k: String) {
        self.id.to_string()
    }

    fn duplicate(&self) -> (r: Self) {
        self.clone()
    }
}

} // verus!
