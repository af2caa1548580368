//! The projectors service.

use vstd::prelude::*;

use crate::config::HolodekkConfig;

verus! {

/// Input for creating a projector
#[derive(Debug)]
pub struct ProjectorCreateInput {
    /// the namespace the projector serves
    pub namespace: String,
}

/// The projectors service.
#[derive(Debug)]
pub struct ProjectorsService {
    config: HolodekkConfig,
}

impl ProjectorsService {
    /// The configuration the service runs with.
    pub closed spec fn config_spec(&self) -> HolodekkConfig {
        self.config
    }

    /// A service running with the given configuration.
    pub fn new(config: HolodekkConfig) -> (s: Self)
        ensures
            s.config_spec() == config,
    {
        ProjectorsService { config }
    }

    /// The configuration the service runs with.
    pub fn config(&self) -> (c: &HolodekkConfig)
        ensures
            *c == self.config_spec(),
    {
        &self.config
    }
}

} // verus!
