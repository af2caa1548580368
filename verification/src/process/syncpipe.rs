//! Synchronization with daemons: when a process daemonizes, its final child is
//! reparented, so the child reports its pid to the parent over a pipe.

use vstd::prelude::*;

verus! {

/// Structure used to share pid information between daemon and parent.
#[derive(Clone, Copy, Debug, PartialEq, Eq, Structural)]
pub struct PidSyncMessage {
    pid: i32,
}

impl PidSyncMessage {
    /// The process id carried.
    pub closed spec fn pid_spec(&self) -> i32 {
        self.pid
    }

    /// Construct a new [`PidSyncMessage`] from the given `pid`.
    pub fn new(pid: i32) -> (m: Self)
        ensures
            m.pid_spec() == pid,
    {
        PidSyncMessage { pid }
    }

    /// The process id carried.
    pub fn pid(&self) -> (p: i32)
        ensures
            p == self.pid_spec(),
    {
        self.pid
    }
}

} // verus!
