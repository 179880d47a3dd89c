//! The blob store as the gateway sees it.

pub mod client;
