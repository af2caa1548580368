//! Scene monitor: keeps a scene's projector (`uhura`) running.
//!
//! The monitor's task loop, its channels and the processes it launches live
//! with the caller; the monitor decides what the observations mean and what
//! to do about them.

use vstd::prelude::*;

use crate::entity::Id;
use crate::paths::{join, joined, HolodekkPaths};
use crate::process::daemon::{daemon_args, daemon_args_spec, texts};
use crate::process::CommandPlan;
use crate::scene::entity::{Entity, Name, Status};
use crate::scene::{scene_root, Paths};

verus! {

/// Messages a scene monitor accepts
#[derive(Clone, Copy, Debug, PartialEq, Eq, Hash, Structural)]
pub enum Message {
    /// Stop the scene's projector and exit
    Shutdown,
}

/// Events a scene monitor reports
#[derive(Clone, Copy, Debug, PartialEq, Eq, Hash, Structural)]
pub enum Event {
    /// The scene's projector was started with the given pid
    Started(i32),
}

/// What the monitor decided after looking for the scene's projector.
#[derive(Clone, Copy, Debug, PartialEq, Eq, Structural)]
pub enum CheckOutcome {
    /// The projector is running; nothing to do.
    AlreadyRunning,
    /// The projector is not running; it is to be started.
    StartProjector,
}

/// The status of a scene whose projector was looked for: the pid its pidfile
/// names (if there is a pidfile) and whether a process with that pid exists.
pub open spec fn observed_status(pid: Option<i32>, alive: bool) -> Status {
    match pid {
        Some(p) => if alive {
            Status::Running(p)
        } else {
            Status::Crashed
        },
        None => Status::Unknown,
    }
}

/// The arguments a scene projector is launched with.
pub open spec fn projector_args_spec(
    id: Seq<char>,
    name: Seq<char>,
    paths: &HolodekkPaths,
    child_fd: i32,
) -> Seq<Seq<char>> {
    seq!["--id"@, id, "--name"@, name] + daemon_args_spec(paths, child_fd)
}

/// The monitor of one scene.
#[derive(Debug)]
pub struct Monitor {
    /// the scene's id
    pub id: Id,
    /// the scene's name
    pub name: Name,
    /// the scene's status, as the monitor knows it
    pub status: Status,
    /// where the scene keeps its files
    pub scene_paths: Paths,
    /// where Holodekk keeps its files
    pub paths: HolodekkPaths,
}

impl Monitor {
    /// A monitor for the given scene; the scene's status is not yet known.
    pub fn new(paths: HolodekkPaths, entity: &Entity) -> (m: Self)
        ensures
            m.id == entity.id,
            m.name == entity.name,
            m.status == Status::Unknown,
            m.scene_paths.root_spec() == scene_root(&paths, entity.name@),
            m.scene_paths.pidfile_spec() == joined(scene_root(&paths, entity.name@), "uhura.pid"@),
            m.paths == paths,
    {
        let scene_paths = Paths::build(&paths, entity.name.as_str());
        Monitor {
            id: entity.id.clone(),
            name: entity.name.clone(),
            status: Status::Unknown,
            scene_paths,
            paths,
        }
    }

    /// The status a scene has when its pidfile names `pid` (if there is one)
    /// and a process with that pid does (`alive`) or does not exist.
    pub fn observe(pid: Option<i32>, alive: bool) -> (s: Status)
        ensures
            s == observed_status(pid, alive),
    {
        match pid {
            Some(p) => if alive {
                Status::Running(p)
            } else {
                Status::Crashed
            },
            None => Status::Unknown,
        }
    }

    /// Takes in what was observed: a running projector is adopted; anything
    /// else calls for starting one.
    pub fn check_projector(&mut self, observed: Status) -> (r: CheckOutcome)
        ensures
            observed is Running ==> r == CheckOutcome::AlreadyRunning && final(self).status == observed,
            !(observed is Running) ==> r == CheckOutcome::StartProjector && final(self).status == old(
                self,
            ).status,
            final(self).id == old(self).id,
            final(self).name == old(self).name,
            final(self).scene_paths == old(self).scene_paths,
            final(self).paths == old(self).paths,
    {
        match observed {
            Status::Running(_) => {
                self.status = observed;
                CheckOutcome::AlreadyRunning
            },
            _ => CheckOutcome::StartProjector,
        }
    }

    /// The projector was started with the given pid: the scene is running, and
    /// this is to be reported.
    pub fn projector_started(&mut self, pid: i32) -> (e: Event)
        ensures
            e == Event::Started(pid),
            final(self).status == Status::Running(pid),
            final(self).id == old(self).id,
            final(self).name == old(self).name,
            final(self).scene_paths == old(self).scene_paths,
            final(self).paths == old(self).paths,
    {
        self.status = Status::Running(pid);
        Event::Started(pid)
    }

    /// The command that starts the scene's projector, reporting on `child_fd`.
    pub fn projector_command(&self, child_fd: i32) -> (c: CommandPlan)
        ensures
            c.program@ == joined(self.paths.bin_root@, "uhura"@),
            texts(c.args@) == projector_args_spec(self.id@, self.name@, &self.paths, child_fd),
    {
        let program = join(self.paths.bin_root.as_str(), "uhura");
        let mut args: Vec<String> = Vec::new();
        args.push("--id".to_owned());
        args.push(self.id.to_string());
        args.push("--name".to_owned());
        args.push(self.name.clone());
        let mut rest = daemon_args(&self.paths, child_fd);
        let ghost a0 = args@;
        args.append(&mut rest);
        proof {
            assert(texts(a0) == seq!["--id"@, self.id@, "--name"@, self.name@]);
            assert(texts(args@) =~= texts(a0) + daemon_args_spec(&self.paths, child_fd));
        }
        CommandPlan { program, args }
    }

    /// The pid of the projector to stop on shutdown, when the scene is running.
    pub fn projector_to_stop(&self) -> (r: Option<i32>)
        ensures
            match self.status {
                Status::Running(pid) => r == Some(pid),
                _ => r is None,
            },
    {
        match self.status {
            Status::Running(pid) => Some(pid),
            _ => None,
        }
    }
}

} // verus!
