use holodekk::entity::repository::Error as RepositoryError;
use holodekk::entity::Id;
use holodekk::repositories::memory::{MemoryDatabase, MemoryRepository};
use holodekk::scene::entity::repository::Query;
use holodekk::scene::entity::{Repository, Status};
use holodekk::scene::Entity;

fn mock_scene_entity() -> Entity {
    let mut scene = Entity::new("test".to_string());
    scene.created_at = Some(chrono::Utc::now().naive_utc());
    scene
}

fn db() -> MemoryDatabase {
    MemoryDatabase::new()
}

#[test]
fn scenes_create_succeeds() {
    let mut repo = MemoryRepository::new(db());
    let result = repo.scenes_create(mock_scene_entity());
    assert!(result.is_ok());
}

#[test]
fn create_returns_the_scene() {
    let mock_scene_entity = mock_scene_entity();
    let mut repo = MemoryRepository::new(db());
    let new_scene = repo.scenes_create(mock_scene_entity.clone()).unwrap();
    assert_eq!(new_scene.name, mock_scene_entity.name);
    assert_eq!(new_scene.status, mock_scene_entity.status);
}

#[test]
fn scenes_create_adds_record() {
    let mut repo = MemoryRepository::new(db());
    let new_scene = repo.scenes_create(mock_scene_entity()).unwrap();
    let db_scene = repo.db().scenes().get(&new_scene.id).unwrap();
    assert_eq!(new_scene.id, db_scene.id);
}

#[test]
fn create_stamps_the_scene() {
    let mut scene = mock_scene_entity();
    scene.created_at = None;
    let mut repo = MemoryRepository::new(db());
    let new_scene = repo.scenes_create(scene).unwrap();
    assert!(new_scene.created_at.is_some());
    assert!(new_scene.updated_at.is_some());
}

#[test]
fn create_conflicts_for_existing_id() {
    let scene = mock_scene_entity();
    let mut repo = MemoryRepository::new(db());
    repo.scenes_create(scene.clone()).unwrap();
    assert!(matches!(repo.scenes_create(scene).unwrap_err(), RepositoryError::Conflict(..)));
}

#[test]
fn delete_fails_for_nonexistent_scene() {
    let scene_id = Id::generate();
    let mut repo = MemoryRepository::new(db());
    let res = repo.scenes_delete(&scene_id);
    assert!(matches!(res.unwrap_err(), RepositoryError::NotFound(..)));
}

#[test]
fn scenes_delete_removes_the_record() {
    let mock_scene_entity = mock_scene_entity();
    let mut db = db();
    db.scenes().add(mock_scene_entity.clone()).unwrap();
    let mut repo = MemoryRepository::new(db);
    repo.scenes_delete(&mock_scene_entity.id).unwrap();

    assert!(!repo.db().scenes().contains(&mock_scene_entity.id).unwrap());
}

#[test]
fn exists_returns_true_for_existing_scene() {
    let mock_scene_entity = mock_scene_entity();
    let mut db = db();
    db.scenes().add(mock_scene_entity.clone()).unwrap();
    let repo = MemoryRepository::new(db);
    let query = Query::builder().name_eq(&mock_scene_entity.name).build();
    assert!(repo.scenes_exists(&query).unwrap());
}

#[test]
fn exists_returns_false_for_nonexistent_scene() {
    let repo = MemoryRepository::new(db());
    let name = "nonexistent".to_string();
    let query = Query::builder().name_eq(&name).build();
    assert!(!repo.scenes_exists(&query).unwrap());
}

#[test]
fn scenes_find_returns_nothing_when_no_records() {
    let repo = MemoryRepository::new(db());
    assert!(repo.scenes_find(&Query::default()).unwrap().is_empty());
}

#[test]
fn scenes_find_returns_nothing_when_no_matches() {
    let mut db = db();
    db.scenes().add(mock_scene_entity()).unwrap();
    let repo = MemoryRepository::new(db);
    let name = "nonexistent".to_string();
    assert!(repo
        .scenes_find(&Query::builder().name_eq(&name).build())
        .unwrap()
        .is_empty());
}

#[test]
fn scenes_find_returns_matches() {
    let mock_scene_entity = mock_scene_entity();
    let mut db = db();
    db.scenes().add(mock_scene_entity.clone()).unwrap();
    let repo = MemoryRepository::new(db);
    let res = repo
        .scenes_find(&Query::builder().name_eq(&mock_scene_entity.name).build())
        .unwrap();
    assert_eq!(res.len(), 1);
    assert_eq!(res[0], mock_scene_entity);
}

#[test]
fn find_filters_on_status() {
    let mut running = mock_scene_entity();
    running.status = Status::Running(7);
    let stopped = mock_scene_entity();
    let mut db = db();
    db.scenes().add(running.clone()).unwrap();
    db.scenes().add(stopped.clone()).unwrap();
    let repo = MemoryRepository::new(db);
    let res = repo
        .scenes_find(&Query::builder().status_eq(&Status::Running(7)).build())
        .unwrap();
    assert_eq!(res, vec![running.clone()]);
    let q = Query::from_entity(&stopped);
    assert!(q.matches(&stopped));
    assert!(!q.matches(&running));
}

#[test]
fn get_fails_when_scene_does_not_exist() {
    let mock_scene_entity = mock_scene_entity();
    let repo = MemoryRepository::new(db());
    let res = repo.scenes_get(&mock_scene_entity.id);
    assert!(res.is_err());
    assert!(matches!(res.unwrap_err(), RepositoryError::NotFound(..)));
}

#[test]
fn get_returns_scene() {
    let mock_scene_entity = mock_scene_entity();
    let mut db = db();
    db.scenes().add(mock_scene_entity.clone()).unwrap();
    let repo = MemoryRepository::new(db);

    let s = repo.scenes_get(&mock_scene_entity.id).unwrap();
    assert_eq!(s, mock_scene_entity);
}

#[test]
fn update_changes_name_and_status() {
    let scene = mock_scene_entity();
    let mut db = db();
    db.scenes().add(scene.clone()).unwrap();
    let mut repo = MemoryRepository::new(db);
    let updated = repo
        .scenes_update(&scene.id, Some("renamed".to_string()), Some(Status::Stopped))
        .unwrap();
    assert_eq!(updated.name, "renamed");
    assert_eq!(updated.status, Status::Stopped);
    assert_eq!(updated.created_at, scene.created_at);
    assert!(updated.updated_at.is_some());
    assert_eq!(repo.scenes_get(&scene.id).unwrap(), updated);
    let missing = Id::generate();
    assert!(matches!(
        repo.scenes_update(&missing, None, None).unwrap_err(),
        RepositoryError::NotFound(..)
    ));
}
