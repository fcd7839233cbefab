//! Decision logic of a local development-environment launcher: configuration
//! validation, the admin-tool process lifecycle, service and database commands,
//! project scaffolding and command planning. The caller performs the I/O.

pub mod text;
pub mod error;
pub mod config;
pub mod server;
pub mod plan;
pub mod database;
pub mod project;
