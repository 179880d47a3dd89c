//! The four operations of the gateway, each as a sequence of decisions
//! between calls to the two stores.

pub mod delete;
pub mod get;
pub mod head;
pub mod protocol;
pub mod put;
