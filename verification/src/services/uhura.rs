//! The uhura service: what a projector reports about itself.

use vstd::prelude::*;

verus! {

/// The uhura service.
#[derive(Clone, Copy, Debug, Default)]
pub struct UhuraService {}

/// What uhura reports about itself.
#[derive(Clone, Copy, Debug, PartialEq, Eq, Structural)]
pub struct UhuraStatus {
    /// process id of the projector
    pub pid: u32,
}

impl UhuraService {
    /// A new uhura service.
    pub fn new() -> (s: Self) {
        UhuraService {}
    }

    /// The status uhura reports when running with the given process id.
    pub fn status_for(&self, pid: u32) -> (s: UhuraStatus)
        ensures
            s.pid == pid,
    {
        UhuraStatus { pid }
    }
}

} // verus!
