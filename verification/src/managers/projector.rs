//! Launching projectors.

use vstd::prelude::*;

use crate::config::HolodekkConfig;
use crate::paths::{join, joined};
use crate::process::daemon::texts;
use crate::process::pidfile::{pid_text, pid_text_of};
use crate::process::CommandPlan;

verus! {

/// Where a projector keeps its files, and how it is launched.
#[derive(Debug)]
pub struct ProjectorSpawnPlan {
    /// the projector's root directory (to be created if missing)
    pub root: String,
    /// the pidfile the projector writes
    pub pidfile: String,
    /// the socket the projector's uhura API listens on
    pub uhura_socket: String,
    /// the socket the projector's API listens on
    pub projector_socket: String,
    /// the command that launches the projector
    pub command: CommandPlan,
}

/// The root directory of the projector for a namespace.
pub open spec fn projector_root(config: &HolodekkConfig, namespace: Seq<char>) -> Seq<char> {
    joined(config.root_path@, namespace)
}

/// The arguments a projector is launched with.
pub open spec fn projector_spawn_args(
    config: &HolodekkConfig,
    namespace: Seq<char>,
    child_fd: i32,
) -> Seq<Seq<char>> {
    let root = projector_root(config, namespace);
    seq![
        "--projector-root"@,
        root,
        "--fleet"@,
        config.fleet@,
        "--namespace"@,
        namespace,
        "--pidfile"@,
        joined(root, "uhura.pid"@),
        "--sync-pipe"@,
        pid_text_of(child_fd as int),
        "--uhura-socket"@,
        joined(root, "uhura.sock"@),
        "--projector-socket"@,
        joined(root, "projector.sock"@),
    ]
}

/// Plans the launch of the projector for `namespace`, reporting its pid on `child_fd`.
pub fn projector_spawn_plan(config: &HolodekkConfig, namespace: &str, child_fd: i32) -> (p:
    ProjectorSpawnPlan)
    ensures
        p.root@ == projector_root(config, namespace@),
        p.pidfile@ == joined(p.root@, "uhura.pid"@),
        p.uhura_socket@ == joined(p.root@, "uhura.sock"@),
        p.projector_socket@ == joined(p.root@, "projector.sock"@),
        p.command.program@ == joined(config.bin_path@, "uhura"@),
        texts(p.command.args@) == projector_spawn_args(config, namespace@, child_fd),
{
    let root = join(config.root_path.as_str(), namespace);
    let pidfile = join(root.as_str(), "uhura.pid");
    let uhura_socket = join(root.as_str(), "uhura.sock");
    let projector_socket = join(root.as_str(), "projector.sock");
    let program = join(config.bin_path.as_str(), "uhura");
    let mut args: Vec<String> = Vec::new();
    args.push("--projector-root".to_owned());
    args.push(root.clone());
    args.push("--fleet".to_owned());
    args.push(config.fleet.clone());
    args.push("--namespace".to_owned());
    args.push(namespace.to_owned());
    args.push("--pidfile".to_owned());
    args.push(pidfile.clone());
    args.push("--sync-pipe".to_owned());
    args.push(pid_text(child_fd));
    args.push("--uhura-socket".to_owned());
    args.push(uhura_socket.clone());
    args.push("--projector-socket".to_owned());
    args.push(projector_socket.clone());
    proof {
        assert(texts(args@) =~= projector_spawn_args(config, namespace@, child_fd));
    }
    ProjectorSpawnPlan { root, pidfile, uhura_socket, projector_socket, command: CommandPlan { program, args } }
}

} // verus!
