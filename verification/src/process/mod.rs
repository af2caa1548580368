//! Process management: pidfiles, synchronization messages and daemon control.

pub mod daemon;
pub mod pidfile;
pub mod syncpipe;
pub use syncpipe::PidSyncMessage;

use vstd::prelude::*;

verus! {

/// A command to launch: the program and its arguments.
#[derive(Debug)]
pub struct CommandPlan {
    /// path of the program
    pub program: String,
    /// arguments, in order
    pub args: Vec<String>,
}

} // verus!
