use holodekk::config::HolodekkConfig;
use holodekk::managers::projector::projector_spawn_plan;
use holodekk::managers::subroutine::{shutdown_target, spawned_status, subroutine_spawn_plan};
use holodekk::paths::HolodekkPaths;
use holodekk::subroutine::definition::{SubroutineDefinitionEntity, SubroutineKind};
use holodekk::subroutine::SubroutineStatus;

fn config() -> HolodekkConfig {
    HolodekkConfig {
        fleet: "fleet".to_string(),
        root_path: "/run/holodekk/projectors".to_string(),
        bin_path: "/opt/holodekk/bin".to_string(),
        projector_path: "/run/holodekk/projector".to_string(),
        paths: HolodekkPaths {
            data_root: "/var/lib/holodekk".to_string(),
            exec_root: "/run/holodekk".to_string(),
            bin_root: "/opt/holodekk/bin".to_string(),
        },
    }
}

#[test]
fn projector_spawn_plan_lays_out_files_and_arguments() {
    let plan = projector_spawn_plan(&config(), "ns", 9);
    assert_eq!(plan.root, "/run/holodekk/projectors/ns");
    assert_eq!(plan.pidfile, "/run/holodekk/projectors/ns/uhura.pid");
    assert_eq!(plan.uhura_socket, "/run/holodekk/projectors/ns/uhura.sock");
    assert_eq!(plan.projector_socket, "/run/holodekk/projectors/ns/projector.sock");
    assert_eq!(plan.command.program, "/opt/holodekk/bin/uhura");
    assert_eq!(
        plan.command.args,
        vec![
            "--projector-root",
            "/run/holodekk/projectors/ns",
            "--fleet",
            "fleet",
            "--namespace",
            "ns",
            "--pidfile",
            "/run/holodekk/projectors/ns/uhura.pid",
            "--sync-pipe",
            "9",
            "--uhura-socket",
            "/run/holodekk/projectors/ns/uhura.sock",
            "--projector-socket",
            "/run/holodekk/projectors/ns/projector.sock",
        ]
    );
}

#[test]
fn subroutine_spawn_plan_lays_out_files_and_arguments() {
    let def = SubroutineDefinitionEntity {
        id: "d1".to_string(),
        name: "web".to_string(),
        path: "/srv/web".to_string(),
        kind: SubroutineKind::Ruby,
    };
    let plan = subroutine_spawn_plan(&config(), &def, 12);
    assert_eq!(plan.root, "/run/holodekk/projector/web");
    assert_eq!(plan.pidfile, "/run/holodekk/projector/web/subroutine.pid");
    assert_eq!(plan.command.program, "/opt/holodekk/bin/holodekk-subroutine");
    assert_eq!(
        plan.command.args,
        vec![
            "--name",
            "web",
            "--pidfile",
            "/run/holodekk/projector/web/shim.pid",
            "--subroutine-directory",
            "/srv/web",
            "--subroutine-pidfile",
            "/run/holodekk/projector/web/subroutine.pid",
            "--log-file",
            "/run/holodekk/projector/web/subroutine.log",
            "--subroutine",
            "default",
            "--projector-port",
            "1234",
            "--log-socket",
            "/run/holodekk/projector/web/log.sock",
            "--sync-pipe",
            "12",
        ]
    );
}

#[test]
fn subroutine_shutdown_and_spawn_status() {
    assert_eq!(shutdown_target(SubroutineStatus::Running(5)), Some(5));
    assert_eq!(shutdown_target(SubroutineStatus::Stopped), None);
    assert_eq!(spawned_status(17), SubroutineStatus::Running(17));
    assert_eq!(spawned_status(-1), SubroutineStatus::Running(u32::MAX));
}
