use holodekk::entity::Id;
use holodekk::repositories::memory::SubroutineInstanceMemoryStore;
use holodekk::subroutine::{SubroutineEntity, SubroutineInstance, SubroutineStatus};

fn instance(subroutine_id: &Id, namespace: &str) -> SubroutineInstance {
    SubroutineInstance {
        subroutine_id: subroutine_id.clone(),
        fleet: "fleet".to_string(),
        namespace: namespace.to_string(),
        status: SubroutineStatus::Unknown,
    }
}

#[test]
fn instance_key_joins_fleet_namespace_and_subroutine() {
    let id = Id::generate();
    let i = instance(&id, "ns");
    assert_eq!(i.db_key(), format!("fleet/ns/{}", id.as_str()));
}

#[test]
fn instance_add_get_and_conflict() {
    let id = Id::generate();
    let mut store = SubroutineInstanceMemoryStore::new();
    store.add(instance(&id, "ns")).unwrap();
    let key = format!("fleet/ns/{}", id.as_str());
    assert_eq!(store.get(&key).unwrap().namespace, "ns");
    assert!(matches!(
        store.add(instance(&id, "ns")),
        Err(holodekk::entity::repository::Error::AlreadyExists(k)) if k == key
    ));
    assert!(matches!(
        store.get("missing"),
        Err(holodekk::entity::repository::Error::NotFound(k)) if k == "missing"
    ));
}

#[test]
fn instances_by_subroutine() {
    let sub = SubroutineEntity::new("s".to_string(), Id::generate(), "d".to_string());
    let other = Id::generate();
    let mut store = SubroutineInstanceMemoryStore::new();
    store.add(instance(&sub.id, "a")).unwrap();
    store.add(instance(&other, "a")).unwrap();
    store.add(instance(&sub.id, "b")).unwrap();
    let found = store.get_all_by_subroutine(&sub).unwrap();
    assert_eq!(found.len(), 2);
    assert_eq!(found[0].namespace, "a");
    assert_eq!(found[1].namespace, "b");
    assert!(found.iter().all(|i| i.subroutine_id == sub.id));
}
