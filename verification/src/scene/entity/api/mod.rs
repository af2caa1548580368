//! The scene HTTP API: its data, and the answer each request gets.
//!
//! A created scene is answered with `201 Created`, a list of scenes with
//! `200 OK`, a deletion with `204 No Content`; a failed request with the status
//! of its error.

pub mod models;

use vstd::prelude::*;

use crate::entity::service::{Error, Result};
use crate::scene::entity::Entity;

use models::Scene;

verus! {

/// HTTP `200 OK`.
pub const STATUS_OK: u16 = 200;
/// HTTP `201 Created`.
pub const STATUS_CREATED: u16 = 201;
/// HTTP `204 No Content`.
pub const STATUS_NO_CONTENT: u16 = 204;

/// The HTTP status answering a request that failed with the given error.
pub open spec fn error_status_spec(e: Error) -> u16 {
    match e {
        Error::InvalidEntityId(_) => 400,
        Error::NotFound(_) => 404,
        Error::NotUnique(_) => 409,
        Error::Repository(_) => 500,
        Error::Unexpected(_) => 500,
    }
}

/// The HTTP status answering a request that failed with the given error.
pub fn error_status(e: &Error) -> (s: u16)
    ensures
        s == error_status_spec(*e),
{
    match e {
        Error::InvalidEntityId(_) => 400,
        Error::NotFound(_) => 404,
        Error::NotUnique(_) => 409,
        Error::Repository(_) => 500,
        Error::Unexpected(_) => 500,
    }
}

/// The representation `s` is that of the stored scene `e`.
pub open spec fn represents(s: Scene, e: Entity) -> bool {
    &&& s.id@ == e.id@
    &&& s.name == e.name
    &&& s.status == e.status
    &&& Some(s.created_at) == e.created_at
    &&& s.updated_at == e.updated_at
}

/// The answer to a create request, from what the service returned: the
/// created scene, or the error, with its status.
pub fn create_scene_answer(result: Result<Entity>) -> (r: (u16, Result<Scene>))
    requires
        result matches Ok(e) ==> e.created_at is Some,
    ensures
        match result {
            Ok(e) => r.0 == STATUS_CREATED && (r.1 matches Ok(s) && represents(s, e)),
            Err(err) => r.0 == error_status_spec(err) && r.1 == Err::<Scene, Error>(err),
        },
{
    match result {
        Ok(e) => (STATUS_CREATED, Ok(Scene::from_entity(e))),
        Err(err) => (error_status(&err), Err(err)),
    }
}

/// The answer to a delete request, from what the service returned.
pub fn delete_scene_answer(result: Result<()>) -> (r: (u16, Result<()>))
    ensures
        match result {
            Ok(()) => r.0 == STATUS_NO_CONTENT && r.1 is Ok,
            Err(err) => r.0 == error_status_spec(err) && r.1 == Err::<(), Error>(err),
        },
{
    match result {
        Ok(()) => (STATUS_NO_CONTENT, Ok(())),
        Err(err) => (error_status(&err), Err(err)),
    }
}

/// The answer to a find request, from what the service returned: the scenes,
/// in order, or the error, with its status.
pub fn find_scenes_answer(result: Result<Vec<Entity>>) -> (r: (u16, Result<Vec<Scene>>))
    requires
        result matches Ok(v) ==> forall|i: int| 0 <= i < v@.len() ==> (#[trigger] v@[i]).created_at is Some,
    ensures
        match result {
            Ok(v) => {
                &&& r.0 == STATUS_OK
                &&& r.1 matches Ok(out)
                &&& out@.len() == v@.len()
                &&& forall|i: int| 0 <= i < v@.len() ==> represents(#[trigger] out@[i], v@[i])
            },
            Err(err) => r.0 == error_status_spec(err) && r.1 == Err::<Vec<Scene>, Error>(err),
        },
{
    match result {
        Ok(v) => {
            let mut out: Vec<Scene> = Vec::new();
            let mut i: usize = 0;
            while i < v.len()
                invariant
                    i <= v@.len(),
                    out@.len() == i,
                    forall|j: int| 0 <= j < i ==> represents(#[trigger] out@[j], v@[j]),
                    forall|j: int| 0 <= j < v@.len() ==> (#[trigger] v@[j]).created_at is Some,
                decreases v@.len() - i,
            {
                out.push(Scene::from_entity(v[i].clone()));
                i += 1;
            }
            (STATUS_OK, Ok(out))
        },
        Err(err) => (error_status(&err), Err(err)),
    }
}

} // verus!
