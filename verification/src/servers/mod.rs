//! Servers: the director and its decisions.

pub mod director;
