use holodekk::entity::Id;
use holodekk::paths::{join, HolodekkPaths};
use holodekk::repositories::etcd::scenes::{
    any_scene_matching, create_admission, delete_admission, scene_event, scene_from_lookup,
    scenes_matching, updated_scene, WatchEventKind,
};
use holodekk::repositories::etcd::{etcd_scene_key, etcd_subroutine_key};
use holodekk::scene::entity::api::models::Scene;
use holodekk::scene::entity::repository::{Event, Query};
use holodekk::scene::entity::Status;
use holodekk::scene::monitor::{CheckOutcome, Event as MonitorEvent, Monitor};
use holodekk::scene::{Entity, Paths};
use holodekk::entity::repository::Error as RepositoryError;

fn paths() -> HolodekkPaths {
    HolodekkPaths {
        data_root: "/var/lib/holodekk".to_string(),
        exec_root: "/run/holodekk".to_string(),
        bin_root: "/usr/local/bin".to_string(),
    }
}

#[test]
fn join_follows_pathbuf_push() {
    for (base, part) in [
        ("/a", "b"),
        ("/a/", "b"),
        ("", "b"),
        ("/a", "/c"),
        ("a/b", "c/d"),
        ("/a", ""),
    ] {
        let mut expected = std::path::PathBuf::from(base);
        expected.push(part);
        assert_eq!(join(base, part), expected.to_str().unwrap(), "{base:?} + {part:?}");
    }
}

#[test]
fn scene_paths_are_under_the_scenes_root() {
    let p = Paths::build(&paths(), "my-scene");
    assert_eq!(p.root(), "/run/holodekk/scenes/my-scene");
    assert_eq!(p.pidfile(), "/run/holodekk/scenes/my-scene/uhura.pid");
    assert_eq!(p.socket(), "/run/holodekk/scenes/my-scene/uhura.sock");
    assert_eq!(paths().projectors_root(), "/run/holodekk/projectors");
}

#[test]
fn etcd_keys() {
    let id = Id::generate();
    assert_eq!(etcd_scene_key(None), "/scenes/");
    assert_eq!(etcd_scene_key(Some(&id)), format!("/scenes/{}", id.as_str()));
    assert_eq!(etcd_subroutine_key(None), "/subroutines/");
    assert_eq!(etcd_subroutine_key(Some(&id)), format!("/subroutines/{}", id.as_str()));
}

#[test]
fn generated_ids_parse_back() {
    let id = Id::generate();
    assert_eq!(id.as_str().len(), 32);
    assert_eq!(Id::parse(id.as_str()).unwrap(), id);
    assert!(Id::parse("0123456789ABCDEF0123456789abcdef").is_err());
}

fn scene(name: &str) -> Entity {
    let mut s = Entity::new(name.to_string());
    s.created_at = Some(chrono::Utc::now().naive_utc());
    s
}

#[test]
fn etcd_watch_events() {
    let a = scene("a");
    let b = scene("b");
    assert!(matches!(scene_event(WatchEventKind::Put, false, None, None), Event::Unknown));
    assert!(matches!(
        scene_event(WatchEventKind::Put, true, Some(a.clone()), None),
        Event::Insert { scene } if scene == a
    ));
    assert!(matches!(
        scene_event(WatchEventKind::Put, true, Some(a.clone()), Some(b.clone())),
        Event::Update { scene, orig } if scene == a && orig == b
    ));
    assert!(matches!(
        scene_event(WatchEventKind::Delete, true, None, Some(b.clone())),
        Event::Delete { scene } if scene == b
    ));
}

#[test]
fn etcd_lookups_and_admissions() {
    let a = scene("a");
    assert_eq!(scene_from_lookup(&a.id, 1, Some(Ok(a.clone()))).unwrap(), a);
    assert!(matches!(scene_from_lookup(&a.id, 0, None), Err(RepositoryError::NotFound(..))));
    assert!(matches!(
        scene_from_lookup(&a.id, 1, Some(Err("bad json".to_string()))),
        Err(RepositoryError::Unexpected(m)) if m == "bad json"
    ));
    assert!(create_admission(&a, Err(RepositoryError::NotFound(a.id.to_string()))).is_ok());
    assert!(matches!(create_admission(&a, Ok(a.clone())), Err(RepositoryError::Conflict(..))));
    assert!(delete_admission(&a.id, 1).is_ok());
    assert!(matches!(delete_admission(&a.id, 0), Err(RepositoryError::NotFound(..))));
}

#[test]
fn etcd_search_skips_undecodable_values() {
    let a = scene("a");
    let b = scene("b");
    let values = vec![Some(a.clone()), None, Some(b.clone())];
    let q = Query::builder().name_eq("b").build();
    assert_eq!(scenes_matching(values.clone(), &q), vec![b.clone()]);
    assert!(any_scene_matching(values.clone(), &q));
    assert!(!any_scene_matching(values, &Query::builder().name_eq("zzz").build()));
    let updated = updated_scene(&a.id, Some(Ok(a.clone())), None, Some(Status::Stopped)).unwrap();
    assert_eq!(updated.name, "a");
    assert_eq!(updated.status, Status::Stopped);
    assert!(matches!(updated_scene(&a.id, None, None, None), Err(RepositoryError::NotFound(..))));
}

#[test]
fn scene_model_from_entity() {
    let a = scene("a");
    let m = Scene::from_entity(a.clone());
    assert_eq!(m.id, a.id.to_string());
    assert_eq!(m.name, "a");
    assert_eq!(Some(m.created_at), a.created_at);
}

#[test]
fn monitor_decisions() {
    let entity = scene("demo");
    let mut monitor = Monitor::new(paths(), &entity);
    assert_eq!(monitor.status, Status::Unknown);
    assert_eq!(Monitor::observe(None, false), Status::Unknown);
    assert_eq!(Monitor::observe(Some(9), false), Status::Crashed);
    assert_eq!(Monitor::observe(Some(9), true), Status::Running(9));
    assert_eq!(monitor.check_projector(Status::Crashed), CheckOutcome::StartProjector);
    assert_eq!(monitor.projector_to_stop(), None);
    assert_eq!(monitor.projector_started(77), MonitorEvent::Started(77));
    assert_eq!(monitor.projector_to_stop(), Some(77));
    assert_eq!(monitor.check_projector(Status::Running(78)), CheckOutcome::AlreadyRunning);
    assert_eq!(monitor.status, Status::Running(78));
    let cmd = monitor.projector_command(3);
    assert_eq!(cmd.program, "/usr/local/bin/uhura");
    assert_eq!(cmd.args[0], "--id");
    assert_eq!(cmd.args[1], entity.id.to_string());
    assert_eq!(cmd.args[2], "--name");
    assert_eq!(cmd.args[3], "demo");
    assert_eq!(cmd.args[11], "3");
}
