//! The content entry: one teaching material (a video, a text, ...)
//! attached to sections.
//!
//! Content is a single-version entity: it has no anchor of its own.  A
//! section references it through a multiset edge, and the same content
//! entry may be referenced from several sections; deleting it from one
//! section only removes that edge.

use vstd::prelude::*;

verus! {

pub struct Content {
    pub name: String,
    pub url: String,
    pub description: String,
    pub timestamp: u64,
}

impl Content {
    pub fn new(name: String, url: String, description: String, timestamp: u64) -> (content: Self)
        ensures
            content == (Content { name, url, description, timestamp }),
    {
        Content { name, url, description, timestamp }
    }

    /// The entry-type name under which content entries are committed.
    pub fn entry_type() -> (t: &'static str)
        ensures
            t@ == "content"@,
    {
        "content"
    }
}

impl Clone for Content {
    fn clone(&self) -> (other: Self)
        ensures
            other == *self,
    {
        Content {
            name: self.name.clone(),
            url: self.url.clone(),
            description: self.description.clone(),
            timestamp: self.timestamp,
        }
    }
}

} // verus!
