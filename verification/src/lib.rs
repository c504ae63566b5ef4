//! Provisioning of a remote development environment, as a library of decisions.

pub mod cache_key;
pub mod command;
pub mod error;
pub mod git;
pub mod render;
pub mod run;
pub mod run_laws;
pub mod session;
pub mod text;
pub mod transfer;
