use holodekk::entity::Id;
use holodekk::repositories::memory::MemoryDatabase;
use holodekk::scene::Entity;
use holodekk::subroutine::SubroutineEntity;

fn mock_scene_entity() -> Entity {
    let mut scene = Entity::new("test".to_string());
    scene.created_at = Some(chrono::Utc::now().naive_utc());
    scene
}

fn mock_subroutine_entity() -> SubroutineEntity {
    SubroutineEntity::new("test".to_string(), Id::generate(), "definition".to_string())
}

#[test]
fn can_add_scene() {
    let mut db = MemoryDatabase::new();

    let result = db.scenes().add(mock_scene_entity());
    assert!(result.is_ok())
}

#[test]
fn can_get_scene() {
    let mock_scene_entity = mock_scene_entity();
    let mut db = MemoryDatabase::new();
    db.scenes().add(mock_scene_entity.clone()).unwrap();

    let new_scene = db.scenes().get(&mock_scene_entity.id).unwrap();
    assert_eq!(new_scene.id, mock_scene_entity.id);
}

#[test]
fn can_get_subroutine() {
    let mock_subroutine_entity = mock_subroutine_entity();
    let mut db = MemoryDatabase::new();
    db.subroutines().add(mock_subroutine_entity.clone()).unwrap();

    let new_sub = db.subroutines().get(&mock_subroutine_entity.id).unwrap();
    assert_eq!(new_sub.id, mock_subroutine_entity.id);
}

#[test]
fn can_add_subroutine() {
    let mock_subroutine_entity = mock_subroutine_entity();
    let mut db = MemoryDatabase::new();

    let result = db.subroutines().add(mock_subroutine_entity.to_owned());
    assert!(result.is_ok())
}

#[test]
fn adding_a_scene_twice_conflicts_and_keeps_the_first() {
    let scene = mock_scene_entity();
    let mut db = MemoryDatabase::new();
    db.scenes().add(scene.clone()).unwrap();
    let mut other = scene.clone();
    other.name = "other".to_string();
    let err = db.scenes().add(other).unwrap_err();
    match err {
        holodekk::entity::repository::Error::Conflict(msg) => {
            assert_eq!(msg, format!("Scene already exists with id {}", scene.id.as_str()))
        }
        e => panic!("unexpected error {:?}", e),
    }
    assert_eq!(db.scenes().get(&scene.id).unwrap().name, "test");
    assert_eq!(db.scenes().all().len(), 1);
}

#[test]
fn deleting_a_scene_removes_only_it() {
    let a = mock_scene_entity();
    let b = mock_scene_entity();
    let mut db = MemoryDatabase::new();
    db.scenes().add(a.clone()).unwrap();
    db.scenes().add(b.clone()).unwrap();
    db.scenes().delete(&a.id).unwrap();
    assert!(!db.scenes().contains(&a.id).unwrap());
    assert!(db.scenes().contains(&b.id).unwrap());
    assert!(matches!(
        db.scenes().delete(&a.id),
        Err(holodekk::entity::repository::Error::NotFound(t)) if t == a.id.as_str()
    ));
}

#[test]
fn updating_a_scene_replaces_it() {
    let a = mock_scene_entity();
    let mut db = MemoryDatabase::new();
    db.scenes().add(a.clone()).unwrap();
    let mut changed = a.clone();
    changed.name = "renamed".to_string();
    let stored = db.scenes().update(changed.clone()).unwrap();
    assert_eq!(stored, changed);
    assert_eq!(db.scenes().get(&a.id).unwrap().name, "renamed");
    assert_eq!(db.scenes().all().len(), 1);
}

#[test]
fn all_lists_every_scene_in_insertion_order() {
    let a = mock_scene_entity();
    let b = mock_scene_entity();
    let mut db = MemoryDatabase::new();
    db.scenes().add(a.clone()).unwrap();
    db.scenes().add(b.clone()).unwrap();
    assert_eq!(db.scenes().all(), vec![a, b]);
}

#[test]
fn subroutine_delete_is_ok_even_when_absent() {
    let mut db = MemoryDatabase::new();
    assert!(db.subroutines().delete(&Id::generate()).is_ok());
}
