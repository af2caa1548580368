//! DTO's for the `scene` api

use vstd::prelude::*;

use crate::scene::entity::{Entity, Status};

verus! {

/// Data provided to construct a new scene [`Entity`]
#[derive(Debug)]
pub struct NewScene {
    /// user-assigned name for this scene
    pub name: String,
}

/// Representation of a `scene` [`Entity`] returned to clients
#[derive(Debug)]
pub struct Scene {
    /// the entity `Id`
    pub id: String,
    /// the user-assigned name
    pub name: String,
    /// current status of this `scene`
    pub status: Status,
    /// entity creation timestamp from repository
    pub created_at: chrono::NaiveDateTime,
    /// optional update timestamp from repository
    pub updated_at: Option<chrono::NaiveDateTime>,
}

impl Scene {
    /// The representation of a stored scene (one with a creation time).
    pub fn from_entity(entity: Entity) -> (s: Self)
        requires
            entity.created_at is Some,
        ensures
            s.id@ == entity.id@,
            s.name == entity.name,
            s.status == entity.status,
            Some(s.created_at) == entity.created_at,
            s.updated_at == entity.updated_at,
    {
        Scene {
            id: entity.id.to_string(),
            name: entity.name,
            status: entity.status,
            created_at: entity.created_at.unwrap(),
            updated_at: entity.updated_at,
        }
    }
}

} // verus!
