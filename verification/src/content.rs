//! The content level of the hierarchy.

pub mod entry;
pub mod handlers;
