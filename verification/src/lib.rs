//! Coordination logic of a gateway that keeps a blob store and a relational
//! metadata store consistent for per-user, path-addressed, versioned files.

pub mod clock;
pub mod config;
pub mod entities;
pub mod error;
pub mod handlers;
pub mod identity;
pub mod laws;
pub mod memory;
pub mod model;
pub mod storage;
pub mod text;
