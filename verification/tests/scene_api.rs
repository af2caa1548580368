use holodekk::entity::id::IdError;
use holodekk::entity::repository::Error as RepositoryError;
use holodekk::entity::service::Error as ServiceError;
use holodekk::repositories::memory::{MemoryDatabase, MemoryRepository};
use holodekk::scene::entity::api::{
    create_scene_answer, delete_scene_answer, error_status, find_scenes_answer, STATUS_CREATED,
    STATUS_NO_CONTENT, STATUS_OK,
};
use holodekk::scene::entity::service::{create, delete, find, Create, Delete, Find};
use holodekk::scene::entity::{Service, Status};
use holodekk::scene::Entity;

fn mock_entity() -> Entity {
    let mut scene = Entity::new("test".to_string());
    scene.created_at = Some(chrono::Utc::now().naive_utc());
    scene
}

fn service_with(scenes: Vec<Entity>) -> Service<MemoryRepository> {
    let mut db = MemoryDatabase::new();
    for s in scenes {
        db.scenes().add(s).unwrap();
    }
    Service::new(MemoryRepository::new(db))
}

#[test]
fn responds_with_conflict_when_scene_exists() {
    let mut service = service_with(vec![mock_entity()]);
    let (status, body) = create_scene_answer(service.create(&create::Input::new("test")));
    assert_eq!(status, 409);
    assert!(matches!(body, Err(ServiceError::NotUnique(..))));
}

#[test]
fn responds_with_created() {
    let mut service = service_with(vec![]);
    let (status, body) = create_scene_answer(service.create(&create::Input::new("test")));
    assert_eq!(status, STATUS_CREATED);
    assert_eq!(status, 201);
    assert!(body.is_ok());
}

#[test]
fn returns_the_new_scene() {
    let mut service = service_with(vec![]);
    let created = service.create(&create::Input::new("test")).unwrap();
    let id = created.id.to_string();
    let (_, body) = create_scene_answer(Ok(created));
    let scene = body.unwrap();
    assert_eq!(scene.id, id);
    assert_eq!(scene.name, "test");
    assert_eq!(scene.status, Status::Unknown);
}

#[test]
fn gets_scenes_from_service() {
    let service = service_with(vec![]);
    let (_, body) = find_scenes_answer(service.find(&find::Input::default()));
    assert!(body.unwrap().is_empty());
}

#[test]
fn responds_with_ok() {
    let service = service_with(vec![]);
    let (status, _) = find_scenes_answer(service.find(&find::Input::default()));
    assert_eq!(status, STATUS_OK);
    assert_eq!(status, 200);
}

#[test]
fn returns_scenes() {
    let entity = mock_entity();
    let service = service_with(vec![entity.clone()]);
    let (_, body) = find_scenes_answer(service.find(&find::Input::default()));
    let scenes = body.unwrap();
    let first = scenes.first().unwrap();
    assert_eq!(first.id, entity.id.to_string());
    assert_eq!(first.name, entity.name);
    assert_eq!(first.status, entity.status);
    assert_eq!(Some(first.created_at), entity.created_at);
    assert_eq!(first.updated_at, entity.updated_at);
}

#[test]
fn delete_answers_no_content_or_the_error_status() {
    let entity = mock_entity();
    let mut service = service_with(vec![entity.clone()]);
    let (status, body) = delete_scene_answer(service.delete(&delete::Input::new(entity.id.as_str())));
    assert_eq!(status, STATUS_NO_CONTENT);
    assert_eq!(status, 204);
    assert!(body.is_ok());
    let (status, body) = delete_scene_answer(service.delete(&delete::Input::new(entity.id.as_str())));
    assert_eq!(status, 404);
    assert!(matches!(body, Err(ServiceError::NotFound(..))));
    let (status, _) = delete_scene_answer(service.delete(&delete::Input::new("nope")));
    assert_eq!(status, 400);
}

#[test]
fn error_statuses() {
    assert_eq!(error_status(&ServiceError::InvalidEntityId(IdError::InvalidLength(3))), 400);
    assert_eq!(error_status(&ServiceError::NotFound("x".to_string())), 404);
    assert_eq!(error_status(&ServiceError::NotUnique("x".to_string())), 409);
    assert_eq!(error_status(&ServiceError::Repository(RepositoryError::Unexpected("x".to_string()))), 500);
    assert_eq!(error_status(&ServiceError::Unexpected("x".to_string())), 500);
}
