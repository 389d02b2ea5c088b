//! The section anchor: the permanent identity record of one section.
//!
//! The anchor is committed once, at section creation, and never mutated;
//! its address is the section's external handle forever.  Updating the
//! section only swaps the anchor's latest-version edge, and deleting the
//! section tombstones the anchor alone.

use vstd::prelude::*;

use crate::store::{Address, LinkType};

verus! {

pub struct SectionAnchor {
    /// Denormalized label, fixed at creation time.
    pub title: String,
    /// Back-reference to the owning course's anchor.
    pub course_anchor_address: Address,
    pub timestamp: u64,
}

impl SectionAnchor {
    pub fn new(title: String, anchor_address: Address, timestamp: u64) -> (anchor: Self)
        ensures
            anchor == (SectionAnchor { title, course_anchor_address: anchor_address, timestamp }),
    {
        SectionAnchor { title, course_anchor_address: anchor_address, timestamp }
    }

    /// The entry-type name under which section anchors are committed.
    pub fn entry_type() -> (t: &'static str)
        ensures
            t@ == "section_anchor"@,
    {
        "section_anchor"
    }

    /// The entry-type name the latest-version edge points at.
    pub fn link_to() -> (t: &'static str)
        ensures
            t@ == "section"@,
    {
        "section"
    }

    /// The link type of the singleton anchor -> latest-section edge.
    pub fn link_type() -> (t: LinkType)
        ensures
            t == LinkType::SectionLatest,
    {
        LinkType::SectionLatest
    }
}

impl Clone for SectionAnchor {
    fn clone(&self) -> (other: Self)
        ensures
            other == *self,
    {
        SectionAnchor {
            title: self.title.clone(),
            course_anchor_address: self.course_anchor_address,
            timestamp: self.timestamp,
        }
    }
}

} // verus!
