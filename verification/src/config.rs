//! Configuration of a Holodekk instance.

use vstd::prelude::*;

use crate::paths::HolodekkPaths;

verus! {

/// Configuration of a Holodekk instance.
#[derive(Clone, Debug)]
pub struct HolodekkConfig {
    /// the fleet this instance belongs to
    pub fleet: String,
    /// directory under which each projector gets its own directory
    pub root_path: String,
    /// directory holding the Holodekk binaries
    pub bin_path: String,
    /// directory under which a projector keeps its subroutines
    pub projector_path: String,
    /// directories of the running instance
    pub paths: HolodekkPaths,
}

} // verus!
