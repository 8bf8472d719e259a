//! The gateway: the control plane in front of the projects.

pub mod account;
pub mod ambulance;
pub mod api;
pub mod api_laws;
pub mod bulk;
pub mod certificate;
pub mod creation;
pub mod deletion;
pub mod deletion_laws;
pub mod deletion_outcome;
pub mod deployment;
pub mod destruction;
pub mod docker;
pub mod domain;
pub mod error;
pub mod forwarding;
pub mod listing;
pub mod load;
pub mod own_certificate;
pub mod project;
pub mod service;
pub mod state;
pub mod status;
