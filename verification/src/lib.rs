//! The decisions of a hosting platform's control plane: the gateway that creates, serves and
//! deletes projects, the service that authenticates its users, the deployer inside a project and
//! the orchestrator of its pods.

pub mod auth;
pub mod deployer;
pub mod gateway;
pub mod id;
pub mod orchestrator;
pub mod routing;
pub mod text;
pub mod timestamp;
