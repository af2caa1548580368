use holodekk::entity::id::IdError;
use holodekk::entity::service::Error as ServiceError;
use holodekk::entity::Id;
use holodekk::repositories::memory::{MemoryDatabase, MemoryRepository};
use holodekk::scene::entity::service::{create, delete, find, get, Create, Delete, Find, Get};
use holodekk::scene::entity::{Service, Status};
use holodekk::scene::Entity;

fn mock_entity() -> Entity {
    let mut scene = Entity::new("test".to_string());
    scene.created_at = Some(chrono::Utc::now().naive_utc());
    scene
}

fn service_with(scenes: Vec<Entity>) -> Service<MemoryRepository> {
    let mut db = MemoryDatabase::new();
    for s in scenes {
        db.scenes().add(s).unwrap();
    }
    Service::new(MemoryRepository::new(db))
}

#[test]
fn returns_error_when_scene_already_exists() {
    let mut existing = mock_entity();
    existing.name = "existing".to_string();
    let mut service = service_with(vec![existing]);

    let res = service.create(&create::Input { name: "existing" });

    assert!(res.is_err());
    assert!(matches!(res.unwrap_err(), ServiceError::NotUnique(..)));
}

#[test]
fn adds_entity_to_repository() {
    let mock_entity = mock_entity();
    let mut service = service_with(vec![]);

    let scene = service.create(&create::Input { name: &mock_entity.name }).unwrap();

    assert_eq!(scene.name, mock_entity.name);
    assert_eq!(scene.status, Status::Unknown);
    let stored = service.repo().db_ref().scenes_ref().get(&scene.id).unwrap();
    assert_eq!(stored, scene);
}

#[test]
fn delete_returns_error_for_non_existent_scene() {
    let mock_id = Id::generate();
    let mut service = service_with(vec![]);

    let res = service.delete(&delete::Input::new(mock_id.as_str()));

    assert!(matches!(res.unwrap_err(), ServiceError::NotFound(..)));
}

#[test]
fn delete_removes_entry_in_repository() {
    let mock_entity = mock_entity();
    let mut service = service_with(vec![mock_entity.clone()]);

    service.delete(&delete::Input::new(mock_entity.id.as_str())).unwrap();

    assert!(!service.repo().db_ref().scenes_ref().contains(&mock_entity.id).unwrap());
}

#[test]
fn delete_returns_ok() {
    let mock_entity = mock_entity();
    let mut service = service_with(vec![mock_entity.clone()]);

    let result = service.delete(&delete::Input::new(mock_entity.id.as_str()));

    assert!(result.is_ok());
}

#[test]
fn delete_rejects_malformed_ids() {
    let mut service = service_with(vec![]);
    assert!(matches!(
        service.delete(&delete::Input::new("abc")).unwrap_err(),
        ServiceError::InvalidEntityId(IdError::InvalidLength(3))
    ));
    assert!(matches!(
        service
            .delete(&delete::Input::new("0123456789abcdef0123456789abcdeZ"))
            .unwrap_err(),
        ServiceError::InvalidEntityId(IdError::InvalidCharacter('Z'))
    ));
}

#[test]
fn executes_query() {
    let service = service_with(vec![]);
    let scenes = service.find(&find::Input::default()).unwrap();
    assert!(scenes.is_empty());
}

#[test]
fn returns_results_of_query() {
    let mock_entity = mock_entity();
    let service = service_with(vec![mock_entity.clone()]);

    let scenes = service.find(&find::Input::default()).unwrap();
    assert_eq!(scenes, vec![mock_entity]);
}

#[test]
fn find_by_name_only_returns_that_scene() {
    let a = mock_entity();
    let mut b = mock_entity();
    b.name = "other".to_string();
    let service = service_with(vec![a.clone(), b.clone()]);
    let scenes = service.find(&find::Input::new(Some("other"))).unwrap();
    assert_eq!(scenes, vec![b]);
}

#[test]
fn returns_error_for_nonexisting_scene() {
    let mock_id = Id::generate();
    let service = service_with(vec![]);

    let result = service.get(&get::Input::new(&mock_id.to_string()));

    assert!(matches!(result.unwrap_err(), ServiceError::NotFound(..)));
}

#[test]
fn returns_scene_for_existing_scene() {
    let mock_entity = mock_entity();
    let service = service_with(vec![mock_entity.clone()]);

    let scene = service.get(&get::Input::new(&mock_entity.id.to_string())).unwrap();

    assert_eq!(scene, mock_entity);
}

#[test]
fn create_then_delete_leaves_no_scene() {
    let mut service = service_with(vec![]);
    let scene = service.create(&create::Input::new("fresh")).unwrap();
    service.delete(&delete::Input::new(scene.id.as_str())).unwrap();
    assert!(service.find(&find::Input::default()).unwrap().is_empty());
}

#[test]
fn names_stay_unique_through_create_and_delete() {
    let mut service = service_with(vec![]);
    let first = service.create(&create::Input::new("web")).unwrap();
    assert!(matches!(
        service.create(&create::Input::new("web")),
        Err(ServiceError::NotUnique(..))
    ));
    service.create(&create::Input::new("db")).unwrap();
    service.delete(&delete::Input::new(first.id.as_str())).unwrap();
    let again = service.create(&create::Input::new("web")).unwrap();
    assert_ne!(again.id, first.id);
    let all = service.find(&find::Input::default()).unwrap();
    assert_eq!(all.len(), 2);
    assert_eq!(all.iter().filter(|s| s.name == "web").count(), 1);
}

#[test]
fn created_scene_is_fresh_and_stamped() {
    let mut service = service_with(vec![]);
    let scene = service.create(&create::Input::new("stamped")).unwrap();
    assert_eq!(scene.name, "stamped");
    assert_eq!(scene.status, Status::Unknown);
    assert!(scene.created_at.is_some());
    assert!(scene.updated_at.is_some());
    let stored = service.repo().db_ref().scenes_ref().get(&scene.id).unwrap();
    assert_eq!(stored, scene);
}
