//! The deployer, which runs the deployments of a project from inside it.

pub mod manager;
pub mod row;
