use holodekk::entity::repository::Error;
use holodekk::entity::Id;
use holodekk::repositories::memory::{MemoryDatabase, MemoryRepository};
use holodekk::subroutine::{SubroutineEntity, SubroutinesQuery};

fn mock_subroutine() -> SubroutineEntity {
    SubroutineEntity::new("test".to_string(), Id::generate(), "definition".to_string())
}

fn db() -> MemoryDatabase {
    MemoryDatabase::new()
}

#[test]
fn create_fails_when_subroutine_already_exists() {
    let mock_subroutine = mock_subroutine();
    let mut db = db();
    db.subroutines().add(mock_subroutine.clone()).unwrap();
    let mut repo = MemoryRepository::new(db);

    let result = repo.subroutines_create(mock_subroutine);

    assert!(matches!(result.unwrap_err(), Error::Conflict(..)));
}

#[test]
fn subroutines_create_succeeds() {
    let mut repo = MemoryRepository::new(db());

    let result = repo.subroutines_create(mock_subroutine());

    assert!(result.is_ok());
}

#[test]
fn create_stores_subroutine() {
    let mock_subroutine = mock_subroutine();
    let mut repo = MemoryRepository::new(db());

    repo.subroutines_create(mock_subroutine.clone()).unwrap();

    let exists = repo.db().subroutines().contains(&mock_subroutine.id).unwrap();
    assert!(exists);
}

#[test]
fn delete_fails_when_subroutine_does_not_exist() {
    let mut repo = MemoryRepository::new(db());
    let res = repo.subroutines_delete(&Id::generate());
    assert!(res.is_err());
    assert!(matches!(res.unwrap_err(), Error::NotFound(..)));
}

#[test]
fn subroutines_delete_removes_the_record() {
    let mock_subroutine = mock_subroutine();
    let mut db = db();
    db.subroutines().add(mock_subroutine.clone()).unwrap();
    let mut repo = MemoryRepository::new(db);
    repo.subroutines_delete(&mock_subroutine.id).unwrap();
    let exists = repo.db().subroutines().contains(&mock_subroutine.id).unwrap();
    assert!(!exists);
}

#[test]
fn exists_returns_false_for_nonexistent_subroutine() {
    let repo = MemoryRepository::new(db());
    let query = SubroutinesQuery::default();
    let exists = repo.subroutines_exists(&query).unwrap();
    assert!(!exists);
}

#[test]
fn exists_returns_true_for_existing_subroutine() {
    let mock_subroutine = mock_subroutine();
    let mut db = db();
    db.subroutines().add(mock_subroutine.clone()).unwrap();
    let repo = MemoryRepository::new(db);
    let query = SubroutinesQuery::builder()
        .for_scene(&mock_subroutine.scene_id)
        .for_subroutine_definition(&mock_subroutine.subroutine_definition_id)
        .build();
    let exists = repo.subroutines_exists(&query).unwrap();
    assert!(exists);
}

#[test]
fn find_retrieves_nothing_when_no_records() {
    let repo = MemoryRepository::new(db());

    let instances = repo.subroutines_find(&SubroutinesQuery::default()).unwrap();
    assert!(instances.is_empty());
}

#[test]
fn find_retrieves_nothing_when_no_matches() {
    let mut db = db();
    db.subroutines().add(mock_subroutine()).unwrap();
    let repo = MemoryRepository::new(db);
    let invalid_id = Id::generate();

    let query = SubroutinesQuery::builder().for_scene(&invalid_id).build();
    let instances = repo.subroutines_find(&query).unwrap();
    assert!(instances.is_empty());
}

#[test]
fn find_retrieves_matches() {
    let mock_subroutine = mock_subroutine();
    let mut db = db();
    db.subroutines().add(mock_subroutine.clone()).unwrap();
    let repo = MemoryRepository::new(db);
    let query = SubroutinesQuery::builder()
        .for_scene(&mock_subroutine.scene_id)
        .for_subroutine_definition(&mock_subroutine.subroutine_definition_id)
        .build();

    let instances = repo.subroutines_find(&query).unwrap();
    assert!(!instances.is_empty());
    assert_eq!(instances[0], mock_subroutine);
}

#[test]
fn get_fails_when_the_instance_does_not_exist() {
    let repo = MemoryRepository::new(db());
    let invalid_id = Id::generate();

    let res = repo.subroutines_get(&invalid_id);
    assert!(res.is_err());
    assert!(matches!(res.unwrap_err(), Error::NotFound(..)));
}

#[test]
fn get_retrieves_subroutine() {
    let mock_subroutine = mock_subroutine();
    let mut db = db();
    db.subroutines().add(mock_subroutine.clone()).unwrap();
    let repo = MemoryRepository::new(db);

    let instance = repo.subroutines_get(&mock_subroutine.id).unwrap();
    assert_eq!(instance.id, mock_subroutine.id);
}

#[test]
fn create_stamps_subroutine_and_reports_conflict_message() {
    let sub = mock_subroutine();
    let mut repo = MemoryRepository::new(db());
    let created = repo.subroutines_create(sub.clone()).unwrap();
    assert!(created.created_at.is_some());
    assert!(created.updated_at.is_some());
    assert_eq!(created.name, sub.name);
    match repo.subroutines_create(sub.clone()).unwrap_err() {
        Error::Conflict(msg) => {
            assert_eq!(msg, format!("Subroutine already exists with id {}", sub.id.as_str()))
        }
        e => panic!("unexpected {:?}", e),
    }
}
