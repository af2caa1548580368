//! Scenes

pub mod entity;
pub use entity::Entity;
pub mod monitor;
pub use monitor::Monitor;

use vstd::prelude::*;

use crate::paths::{join, joined, HolodekkPaths};

verus! {

/// Paths (on disk) where a given scene is running
#[derive(Debug)]
pub struct Paths {
    root: String,
    pidfile: String,
    socket: String,
}

/// The root directory of the scene with the given name.
pub open spec fn scene_root(paths: &HolodekkPaths, name: Seq<char>) -> Seq<char> {
    joined(paths.scenes_root_spec(), name)
}

impl Clone for Paths {
    fn clone(&self) -> (res: Self)
        ensures
            res == *self,
    {
        Paths { root: self.root.clone(), pidfile: self.pidfile.clone(), socket: self.socket.clone() }
    }
}

impl Paths {
    /// The root directory for this scene
    pub closed spec fn root_spec(&self) -> Seq<char> {
        self.root@
    }

    /// Location on disk of this scene projector's pidfile
    pub closed spec fn pidfile_spec(&self) -> Seq<char> {
        self.pidfile@
    }

    /// Location on disk of this scene projector's socket
    pub closed spec fn socket_spec(&self) -> Seq<char> {
        self.socket@
    }

    /// Builds a set of paths based on the currently running Holodekk instance for this scene.
    pub fn build(paths: &HolodekkPaths, name: &str) -> (p: Self)
        ensures
            p.root_spec() == scene_root(paths, name@),
            p.pidfile_spec() == joined(scene_root(paths, name@), "uhura.pid"@),
            p.socket_spec() == joined(scene_root(paths, name@), "uhura.sock"@),
    {
        let scenes_root = paths.scenes_root();
        let root = join(scenes_root.as_str(), name);
        let pidfile = join(root.as_str(), "uhura.pid");
        let socket = join(root.as_str(), "uhura.sock");
        Paths { root, pidfile, socket }
    }

    /// The root directory for this scene
    pub fn root(&self) -> (s: &String)
        ensures
            s@ == self.root_spec(),
    {
        &self.root
    }

    /// Location on disk of this scene projector's pidfile
    pub fn pidfile(&self) -> (s: &String)
        ensures
            s@ == self.pidfile_spec(),
    {
        &self.pidfile
    }

    /// Location on disk of this scene projector's socket
    pub fn socket(&self) -> (s: &String)
        ensures
            s@ == self.socket_spec(),
    {
        &self.socket
    }
}

} // verus!
