//! The scene entity service, under its service-layer name.

pub use crate::scene::entity::service::delete::Input as DeleteSceneInput;
pub use crate::scene::entity::service::Delete as DeleteScene;
pub use crate::scene::entity::service::Service as SceneEntityService;
