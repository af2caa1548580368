//! Holodekk: scene and subroutine orchestration — the verified core.

pub mod entity;
pub mod paths;
pub mod projector;
pub mod repositories;
pub mod scene;
pub mod services;
pub mod subroutine;
pub mod servers;
pub mod process;
pub mod config;
pub mod managers;
