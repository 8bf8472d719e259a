//! The orchestrator, which runs services in pods.

pub mod client;
pub mod pod;
pub mod rollout;
