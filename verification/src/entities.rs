//! The rows of the metadata store.

pub mod file;
pub mod user;
