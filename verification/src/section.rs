//! The section level of the hierarchy.

pub mod anchor;
pub mod entry;
pub mod handlers;
