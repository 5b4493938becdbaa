//! The logic of a desktop shell around a locally spawned backend service:
//! supervision of the service process, and the rules for the documents and
//! screenshots that the shell handles.

pub mod agent;
pub mod config;
pub mod error;
pub mod json;
pub mod launcher;
pub mod laws;
pub mod locator;
pub mod memory;
pub mod prober;
pub mod projects;
pub mod registry;
pub mod screenshot;
pub mod shutdown;
pub mod status;
pub mod storage;
pub mod supervisor;
pub mod text;
