//! Failure taxonomy of the zome operations.
//!
//! Reads signal "deleted or never existed" with `None`, never with an
//! error; writes that need a live parent or a live target fail with an
//! explicit variant.  A live anchor without a latest-version edge is a
//! detected invariant violation, surfaced as `MissingLatestLink` rather
//! than read through silently.

use vstd::prelude::*;

verus! {

#[derive(Clone, Copy, Debug, PartialEq, Eq, Structural)]
pub enum ZomeError {
    /// A commit, update, delete or fetch went through an address that is
    /// missing or tombstoned.
    EntryNotFound,
    /// A link removal found no live edge with the requested quadruple.
    LinkNotFound,
    /// A live anchor has no latest-version edge at all.
    MissingLatestLink,
    /// The entry at an address is not of the kind the operation expects.
    EntryTypeMismatch,
    /// A section cannot be created under a deleted course.
    CannotCreateInDeletedCourse,
    /// A course that has been deleted cannot be updated.
    CannotUpdateDeletedCourse,
    /// A content cannot be created under a deleted section.
    CannotCreateInDeletedSection,
    /// A section that has been deleted cannot be updated.
    CannotUpdateDeletedSection,
}

impl ZomeError {
    pub open spec fn message_spec(self) -> Seq<char> {
        match self {
            ZomeError::EntryNotFound => "entry not found or deleted"@,
            ZomeError::LinkNotFound => "no matching live link"@,
            ZomeError::MissingLatestLink => "no latest-version link for a live anchor"@,
            ZomeError::EntryTypeMismatch => "entry has an unexpected type"@,
            ZomeError::CannotCreateInDeletedCourse => "Can't create a section in deleted course"@,
            ZomeError::CannotUpdateDeletedCourse => "Can't update a deleted course"@,
            ZomeError::CannotCreateInDeletedSection => "Can't create a content in deleted section"@,
            ZomeError::CannotUpdateDeletedSection => "Can't update a deleted section"@,
        }
    }

    /// A short human-readable description of the failure.
    pub fn message(&self) -> (m: &'static str)
        ensures
            m@ == self.message_spec(),
    {
        match self {
            ZomeError::EntryNotFound => "entry not found or deleted",
            ZomeError::LinkNotFound => "no matching live link",
            ZomeError::MissingLatestLink => "no latest-version link for a live anchor",
            ZomeError::EntryTypeMismatch => "entry has an unexpected type",
            ZomeError::CannotCreateInDeletedCourse => "Can't create a section in deleted course",
            ZomeError::CannotUpdateDeletedCourse => "Can't update a deleted course",
            ZomeError::CannotCreateInDeletedSection => "Can't create a content in deleted section",
            ZomeError::CannotUpdateDeletedSection => "Can't update a deleted section",
        }
    }
}

} // verus!
