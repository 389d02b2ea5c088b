//! The section version entry: one immutable snapshot of a section's
//! mutable payload.  Updates commit a new snapshot at a new address and
//! swap the anchor's latest-version edge; no snapshot is ever mutated.

use vstd::prelude::*;

use crate::store::Address;

verus! {

pub struct Section {
    pub title: String,
    pub timestamp: u64,
    /// Back-reference to the section anchor this snapshot belongs to.
    pub anchor_address: Address,
}

impl Section {
    pub fn new(title: String, timestamp: u64, anchor_address: Address) -> (section: Self)
        ensures
            section == (Section { title, timestamp, anchor_address }),
    {
        Section { title, timestamp, anchor_address }
    }

    /// The entry-type name under which section snapshots are committed.
    pub fn entry_type() -> (t: &'static str)
        ensures
            t@ == "section"@,
    {
        "section"
    }
}

impl Clone for Section {
    fn clone(&self) -> (other: Self)
        ensures
            other == *self,
    {
        Section {
            title: self.title.clone(),
            timestamp: self.timestamp,
            anchor_address: self.anchor_address,
        }
    }
}

} // verus!
