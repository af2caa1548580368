use holodekk::config::HolodekkConfig;
use holodekk::entity::repository::Error as RepositoryError;
use holodekk::entity::service::Error as ServiceError;
use holodekk::entity::Id;
use holodekk::paths::HolodekkPaths;
use holodekk::repositories::memory::{MemoryDatabase, MemoryRepository, SubroutineInstanceMemoryStore};
use holodekk::services::subroutine::{DeleteSubroutineInput, SubroutineEntityService};
use holodekk::services::subroutines::{SubroutineCreateInput, SubroutineServiceError};
use holodekk::services::{SubroutinesService, UhuraService};
use holodekk::subroutine::definition::{SubroutineDefinitions, SubroutineKind};
use holodekk::subroutine::{SubroutineEntity, SubroutineInstance, SubroutineStatus};

fn config() -> HolodekkConfig {
    HolodekkConfig {
        fleet: "test-fleet".to_string(),
        root_path: "/tmp/holodekk".to_string(),
        bin_path: "/usr/local/bin".to_string(),
        projector_path: "/tmp/holodekk/projector".to_string(),
        paths: HolodekkPaths {
            data_root: "/var/lib/holodekk".to_string(),
            exec_root: "/run/holodekk".to_string(),
            bin_root: "/usr/local/bin".to_string(),
        },
    }
}

fn mock_subroutine_entity() -> SubroutineEntity {
    SubroutineEntity::new("test".to_string(), Id::generate(), "definition".to_string())
}

fn service_with(subs: Vec<SubroutineEntity>) -> SubroutineEntityService {
    let mut db = MemoryDatabase::new();
    for s in subs {
        db.subroutines().add(s).unwrap();
    }
    SubroutineEntityService::new(MemoryRepository::new(db))
}

#[test]
fn returns_error_for_non_existent_subroutine() {
    let mock_id = Id::generate();
    let mut service = service_with(vec![]);

    let res = service.delete(&DeleteSubroutineInput::new(mock_id.as_str()));

    assert!(res.is_err());
    assert!(matches!(res.unwrap_err(), ServiceError::NotFound(..)));
}

#[test]
fn subroutine_delete_removes_entry() {
    let sub = mock_subroutine_entity();
    let mut service = service_with(vec![sub.clone()]);
    assert!(service.delete(&DeleteSubroutineInput::new(sub.id.as_str())).is_ok());
    assert!(!service.repo().db_ref().subroutines_ref().contains(&sub.id).unwrap());
}

fn instance(namespace: &str, status: SubroutineStatus) -> SubroutineInstance {
    SubroutineInstance {
        subroutine_id: Id::generate(),
        fleet: "test-fleet".to_string(),
        namespace: namespace.to_string(),
        status,
    }
}

#[test]
fn returns_status_for_existing_subroutine_instance() {
    let service = SubroutinesService::new(config(), "test-namespace");
    let instances = vec![
        instance("other", SubroutineStatus::Running(4)),
        instance("test-namespace", SubroutineStatus::Unknown),
    ];
    let status = service.status(Ok(Some(instances))).unwrap();
    assert_eq!(status, SubroutineStatus::Unknown);
}

#[test]
fn returns_not_found_for_missing_subroutine() {
    let service = SubroutinesService::new(config(), "test-namespace");
    let res = service.status(Err(RepositoryError::NotFound("test".to_string())));
    assert!(res.is_err());
    assert!(matches!(res.unwrap_err(), SubroutineServiceError::NotFound));
}

#[test]
fn status_is_not_found_without_instance_here() {
    let service = SubroutinesService::new(config(), "test-namespace");
    assert!(matches!(service.status(Ok(None)), Err(SubroutineServiceError::NotFound)));
    assert!(matches!(
        service.status(Ok(Some(vec![instance("other", SubroutineStatus::Stopped)]))),
        Err(SubroutineServiceError::NotFound)
    ));
    assert!(matches!(
        service.status(Err(RepositoryError::Unexpected("boom".to_string()))),
        Err(SubroutineServiceError::Repository(RepositoryError::Unexpected(..)))
    ));
}

fn create_input() -> SubroutineCreateInput {
    SubroutineCreateInput {
        name: "test".to_string(),
        path: "/tmp/holodekk/subroutines/test".to_string(),
        kind: SubroutineKind::Ruby,
    }
}

#[test]
fn creates_subroutine() {
    let service = SubroutinesService::new(config(), "test-namespace");
    let mut definitions = SubroutineDefinitions::new();
    let sub = service.create(&mut definitions, create_input()).unwrap();
    assert_eq!(sub.name, "test");
    assert_eq!(sub.path, "/tmp/holodekk/subroutines/test");
    assert_eq!(sub.kind, SubroutineKind::Ruby);
    assert!(Id::parse(&sub.id).is_ok());
    let stored = definitions.get_subroutine_definition(&sub.id).unwrap();
    assert_eq!(stored, sub);
}

#[test]
fn rejects_duplicate_subroutine_name() {
    let service = SubroutinesService::new(config(), "test-namespace");
    let mut definitions = SubroutineDefinitions::new();
    let existing = service.create(&mut definitions, create_input()).unwrap();
    let mut again = create_input();
    again.path = "/elsewhere".to_string();
    let res = service.create(&mut definitions, again);
    assert!(res.is_err());
    assert!(matches!(res.unwrap_err(), SubroutineServiceError::Duplicate));
    let all = definitions.find_subroutine_definitions(None, None, None);
    assert_eq!(all, vec![existing]);
}

#[test]
fn uhura_reports_its_pid() {
    let service = UhuraService::new();
    assert_eq!(service.status_for(42).pid, 42);
}

#[test]
fn status_is_looked_up_by_name() {
    let service = SubroutinesService::new(config(), "test-namespace");
    let mut definitions = SubroutineDefinitions::new();
    let mut instances = SubroutineInstanceMemoryStore::new();
    assert!(matches!(
        service.status_by_name(&definitions, &instances, "test"),
        Err(SubroutineServiceError::NotFound)
    ));
    let sub = service.create(&mut definitions, create_input()).unwrap();
    assert!(matches!(
        service.status_by_name(&definitions, &instances, "test"),
        Err(SubroutineServiceError::NotFound)
    ));
    let id = Id::parse(&sub.id).unwrap();
    let mut other = instance("other", SubroutineStatus::Running(4));
    other.subroutine_id = id.clone();
    instances.add(other).unwrap();
    let mut here = instance("test-namespace", SubroutineStatus::Running(9));
    here.subroutine_id = id;
    instances.add(here).unwrap();
    instances.add(instance("test-namespace", SubroutineStatus::Stopped)).unwrap();
    assert_eq!(service.status_by_name(&definitions, &instances, "test").unwrap(), SubroutineStatus::Running(9));
    assert!(matches!(
        service.status_by_name(&definitions, &instances, "missing"),
        Err(SubroutineServiceError::NotFound)
    ));
}
