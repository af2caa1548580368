//! Launching and stopping subroutines.

use vstd::prelude::*;

use crate::config::HolodekkConfig;
use crate::paths::{join, joined};
use crate::process::daemon::texts;
use crate::process::pidfile::{pid_text, pid_text_of};
use crate::process::CommandPlan;
use crate::subroutine::definition::SubroutineDefinitionEntity;
use crate::subroutine::SubroutineStatus;

verus! {

/// Where a subroutine keeps its files, and how it is launched.
#[derive(Debug)]
pub struct SubroutineSpawnPlan {
    /// the subroutine's root directory (to be created if missing)
    pub root: String,
    /// the pidfile the subroutine process writes
    pub pidfile: String,
    /// the command that launches the subroutine's shim
    pub command: CommandPlan,
}

/// The root directory of a subroutine started from the definition with the given name.
pub open spec fn subroutine_root(config: &HolodekkConfig, name: Seq<char>) -> Seq<char> {
    joined(config.projector_path@, name)
}

/// The arguments a subroutine's shim is launched with.
pub open spec fn subroutine_spawn_args(
    config: &HolodekkConfig,
    name: Seq<char>,
    directory: Seq<char>,
    child_fd: i32,
) -> Seq<Seq<char>> {
    let root = subroutine_root(config, name);
    seq![
        "--name"@,
        name,
        "--pidfile"@,
        joined(root, "shim.pid"@),
        "--subroutine-directory"@,
        directory,
        "--subroutine-pidfile"@,
        joined(root, "subroutine.pid"@),
        "--log-file"@,
        joined(root, "subroutine.log"@),
        "--subroutine"@,
        "default"@,
        "--projector-port"@,
        "1234"@,
        "--log-socket"@,
        joined(root, "log.sock"@),
        "--sync-pipe"@,
        pid_text_of(child_fd as int),
    ]
}

/// Plans the launch of a subroutine from its definition, reporting its pid on `child_fd`.
pub fn subroutine_spawn_plan(
    config: &HolodekkConfig,
    definition: &SubroutineDefinitionEntity,
    child_fd: i32,
) -> (p: SubroutineSpawnPlan)
    ensures
        p.root@ == subroutine_root(config, definition.name@),
        p.pidfile@ == joined(p.root@, "subroutine.pid"@),
        p.command.program@ == joined(config.paths.bin_root@, "holodekk-subroutine"@),
        texts(p.command.args@) == subroutine_spawn_args(
            config,
            definition.name@,
            definition.path@,
            child_fd,
        ),
{
    let root = join(config.projector_path.as_str(), definition.name.as_str());
    let shim_pidfile = join(root.as_str(), "shim.pid");
    let pidfile = join(root.as_str(), "subroutine.pid");
    let log_file = join(root.as_str(), "subroutine.log");
    let log_socket = join(root.as_str(), "log.sock");
    let program = join(config.paths.bin_root.as_str(), "holodekk-subroutine");
    let mut args: Vec<String> = Vec::new();
    args.push("--name".to_owned());
    args.push(definition.name.clone());
    args.push("--pidfile".to_owned());
    args.push(shim_pidfile);
    args.push("--subroutine-directory".to_owned());
    args.push(definition.path.clone());
    args.push("--subroutine-pidfile".to_owned());
    args.push(pidfile.clone());
    args.push("--log-file".to_owned());
    args.push(log_file);
    args.push("--subroutine".to_owned());
    args.push("default".to_owned());
    args.push("--projector-port".to_owned());
    args.push("1234".to_owned());
    args.push("--log-socket".to_owned());
    args.push(log_socket);
    args.push("--sync-pipe".to_owned());
    args.push(pid_text(child_fd));
    proof {
        assert(texts(args@) =~= subroutine_spawn_args(config, definition.name@, definition.path@, child_fd));
    }
    SubroutineSpawnPlan { root, pidfile, command: CommandPlan { program, args } }
}

/// The status of a subroutine that was launched and reported the given pid
/// (the pid's bits, read as unsigned).
pub fn spawned_status(pid: i32) -> (s: SubroutineStatus)
    ensures
        s == SubroutineStatus::Running(pid as u32),
        pid >= 0 ==> (s matches SubroutineStatus::Running(p) && p == pid),
{
    SubroutineStatus::Running(pid as u32)
}

/// The process to signal when shutting a subroutine instance down: its pid
/// when it is running; nothing to do otherwise.
pub fn shutdown_target(status: SubroutineStatus) -> (r: Option<u32>)
    ensures
        match status {
            SubroutineStatus::Running(pid) => r == Some(pid),
            _ => r is None,
        },
{
    match status {
        SubroutineStatus::Running(pid) => Some(pid),
        _ => None,
    }
}

} // verus!
