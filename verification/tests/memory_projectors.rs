use holodekk::entity::repository::Error as RepositoryError;
use holodekk::projector::{ProjectorEntity, ProjectorStatus, ProjectorsQuery};
use holodekk::repositories::memory::{MemoryDatabase, MemoryRepository};

fn projector() -> ProjectorEntity {
    ProjectorEntity::new("test-namespace", "/tmp/holodekk/projectors/test-namespace")
}

fn db() -> MemoryDatabase {
    MemoryDatabase::new()
}

#[test]
fn create_fails_when_projector_already_exists() {
    let projector = projector();
    let mut db = db();
    db.projectors().add(projector.clone()).unwrap();
    let mut repo = MemoryRepository::new(db);
    let result = repo.projectors_create(projector.clone());
    assert!(matches!(result.unwrap_err(), RepositoryError::Duplicate(..)));
}

#[test]
fn projectors_create_succeeds() {
    let mut repo = MemoryRepository::new(db());
    let result = repo.projectors_create(projector());
    assert!(result.is_ok());
}

#[test]
fn projectors_create_adds_record() {
    let projector = projector();
    let mut repo = MemoryRepository::new(db());
    repo.projectors_create(projector.clone()).unwrap();
    let new_projector = repo.db().projectors().get(projector.id()).unwrap();
    assert_eq!(new_projector.id(), projector.id());
}

#[test]
fn create_returns_the_projector() {
    let projector = projector();
    let mut repo = MemoryRepository::new(db());
    let new_projector = repo.projectors_create(projector.clone()).unwrap();
    assert_eq!(new_projector.id(), projector.id());
}

#[test]
fn delete_fails_for_nonexistent_projector() {
    let mut repo = MemoryRepository::new(db());
    let res = repo.projectors_delete("nonexistent");
    assert!(matches!(res.unwrap_err(), RepositoryError::NotFound(..)));
}

#[test]
fn projectors_delete_removes_the_record() {
    let projector = projector();
    let mut db = db();
    db.projectors().add(projector.clone()).unwrap();
    let mut repo = MemoryRepository::new(db);
    repo.projectors_delete(projector.id()).unwrap();

    assert!(!repo.db().projectors().contains(projector.id()).unwrap());
}

#[test]
fn exists_returns_true_for_existing_projector() {
    let projector = projector();
    let mut db = db();
    db.projectors().add(projector.clone()).unwrap();
    let repo = MemoryRepository::new(db);
    let query = ProjectorsQuery::builder().namespace_eq(projector.namespace()).build();
    assert!(repo.projectors_exists(&query).unwrap());
}

#[test]
fn exists_returns_false_for_nonexistent_projector() {
    let repo = MemoryRepository::new(db());
    let query = ProjectorsQuery::builder().namespace_eq("nonexistent").build();
    assert!(!repo.projectors_exists(&query).unwrap());
}

#[test]
fn projectors_find_returns_nothing_when_no_records() {
    let repo = MemoryRepository::new(db());
    assert!(repo.projectors_find(&ProjectorsQuery::default()).unwrap().is_empty());
}

#[test]
fn projectors_find_returns_nothing_when_no_matches() {
    let projector = projector();
    let mut db = db();
    db.projectors().add(projector.clone()).unwrap();
    let repo = MemoryRepository::new(db);
    assert!(repo
        .projectors_find(
            &ProjectorsQuery::builder()
                .namespace_eq(&format!("{}nonexistent", projector.namespace()))
                .build()
        )
        .unwrap()
        .is_empty());
}

#[test]
fn projectors_find_returns_matches() {
    let projector = projector();
    let mut db = db();
    db.projectors().add(projector.clone()).unwrap();
    let repo = MemoryRepository::new(db);
    let res = repo
        .projectors_find(&ProjectorsQuery::builder().namespace_eq(projector.namespace()).build())
        .unwrap();
    assert_eq!(res.len(), 1);
    assert_eq!(res[0], projector);
}

#[test]
fn get_fails_when_projector_does_not_exist() {
    let projector = projector();
    let repo = MemoryRepository::new(db());
    let res = repo.projectors_get(projector.id());
    assert!(res.is_err());
    assert!(matches!(res.unwrap_err(), RepositoryError::NotFound(..)));
}

#[test]
fn get_returns_projector() {
    let projector = projector();
    let mut db = db();
    db.projectors().add(projector.clone()).unwrap();
    let repo = MemoryRepository::new(db);

    let p = repo.projectors_get(projector.id()).unwrap();
    assert_eq!(p.id(), projector.id());
}

#[test]
fn projector_paths_and_status() {
    let mut p = projector();
    assert_eq!(p.id(), "test-namespace");
    assert_eq!(p.pidfile(), "/tmp/holodekk/projectors/test-namespace/uhura.pid");
    assert_eq!(p.status(), ProjectorStatus::Unknown);
    p.set_status(ProjectorStatus::Running(12));
    assert_eq!(p.status(), ProjectorStatus::Running(12));
}

#[test]
fn duplicate_message_names_the_projector() {
    let projector = projector();
    let mut repo = MemoryRepository::new(db());
    repo.projectors_create(projector.clone()).unwrap();
    match repo.projectors_create(projector).unwrap_err() {
        RepositoryError::Duplicate(msg) => assert_eq!(msg, "Projector test-namespace already exists"),
        e => panic!("unexpected {:?}", e),
    }
}
