//! The service that authenticates users.

pub mod api;
