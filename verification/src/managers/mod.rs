//! Managers: launching and stopping projectors and subroutines.
//!
//! The processes are launched by the caller; the managers decide where each
//! process keeps its files and what it is told on its command line.

pub mod projector;
pub mod subroutine;
