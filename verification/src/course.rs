//! The course level: the root of the ownership hierarchy.
//!
//! A course follows the anchor-indirection pattern: a permanent
//! `CourseAnchor` record, a chain of immutable `Course` snapshots, and a
//! singleton latest-version edge from the anchor to the current
//! snapshot.  Every course anchor is additionally linked from the
//! well-known catalog anchor at address 0, which makes all courses
//! enumerable.

use vstd::prelude::*;

use crate::error::ZomeError;
use crate::helper;
use crate::helper::{latest_entry_spec, store_inv, tombstones_preserved};
use crate::store::{
    first_live_match, link_targets, live_link, removed_link, seq_max, Address, EntryData, LinkType,
    Store, StoreModel,
};

verus! {

/// Permanent identity record of one course.  Committed once and never
/// mutated; its address is the course's external handle.
pub struct CourseAnchor {
    /// Denormalized label, fixed at creation time.
    pub title: String,
    pub timestamp: u64,
}

impl CourseAnchor {
    pub fn new(title: String, timestamp: u64) -> (anchor: Self)
        ensures
            anchor == (CourseAnchor { title, timestamp }),
    {
        CourseAnchor { title, timestamp }
    }

    /// The entry-type name under which course anchors are committed.
    pub fn entry_type() -> (t: &'static str)
        ensures
            t@ == "course_anchor"@,
    {
        "course_anchor"
    }
}

impl Clone for CourseAnchor {
    fn clone(&self) -> (other: Self)
        ensures
            other == *self,
    {
        CourseAnchor { title: self.title.clone(), timestamp: self.timestamp }
    }
}

/// One immutable snapshot of a course's mutable payload.
pub struct Course {
    pub title: String,
    /// Addresses of the section anchors the caller has registered under
    /// this course.
    pub sections: Vec<Address>,
    pub timestamp: u64,
    /// Back-reference to the course anchor this snapshot belongs to.
    pub anchor_address: Address,
}

/// Full-information equivalence of course snapshots: every field
/// agrees, the section list by its contents.
pub open spec fn course_like(a: Course, b: Course) -> bool {
    &&& a.title == b.title
    &&& a.sections@ == b.sections@
    &&& a.timestamp == b.timestamp
    &&& a.anchor_address == b.anchor_address
}

impl Course {
    pub fn new(title: String, sections: Vec<Address>, timestamp: u64, anchor_address: Address) -> (course: Self)
        ensures
            course == (Course { title, sections, timestamp, anchor_address }),
    {
        Course { title, sections, timestamp, anchor_address }
    }

    /// The entry-type name under which course snapshots are committed.
    pub fn entry_type() -> (t: &'static str)
        ensures
            t@ == "course"@,
    {
        "course"
    }
}

impl Clone for Course {
    fn clone(&self) -> (other: Self)
        ensures
            course_like(other, *self),
    {
        let mut sections: Vec<Address> = Vec::new();
        let mut i: usize = 0;
        while i < self.sections.len()
            invariant
                i <= self.sections.len(),
                sections@ == self.sections@.subrange(0, i as int),
            decreases self.sections.len() - i,
        {
            sections.push(self.sections[i]);
            proof {
                assert(sections@ =~= self.sections@.subrange(0, i + 1 as int));
            }
            i = i + 1;
        }
        proof {
            assert(sections@ =~= self.sections@);
        }
        Course {
            title: self.title.clone(),
            sections,
            timestamp: self.timestamp,
            anchor_address: self.anchor_address,
        }
    }
}

/// What fetching the latest course snapshot yields: the engine's fetch,
/// with the entry read as a course.
pub open spec fn course_latest(m: StoreModel, course_anchor_address: Address)
    -> Result<Option<(Course, Address)>, ZomeError> {
    match latest_entry_spec(m, course_anchor_address, LinkType::CourseLatest) {
        Ok(None) => Ok(None),
        Ok(Some((e, a))) => match e {
            EntryData::Course(c) => Ok(Some((c, a))),
            _ => Err(ZomeError::EntryTypeMismatch),
        },
        Err(e) => Err(e),
    }
}

/// Relates an executable fetch result to `course_latest`: equal up to
/// course equivalence.
pub open spec fn course_result_matches(
    r: Result<Option<(Course, Address)>, ZomeError>,
    m: StoreModel,
    course_anchor_address: Address,
) -> bool {
    match (r, course_latest(m, course_anchor_address)) {
        (Ok(Some((c, a))), Ok(Some((c0, a0)))) => course_like(c, c0) && a == a0,
        (Ok(None), Ok(None)) => true,
        (Err(e), Err(e0)) => e == e0,
        _ => false,
    }
}

/// Whether an entry is a course snapshot with exactly these fields.
pub open spec fn is_course_entry(
    e: EntryData,
    title: String,
    sections: Seq<Address>,
    timestamp: u64,
    anchor_address: Address,
) -> bool {
    match e {
        EntryData::Course(c) => c.title == title && c.sections@ == sections && c.timestamp
            == timestamp && c.anchor_address == anchor_address,
        _ => false,
    }
}

/// Whether the course anchor currently resolves to a snapshot with
/// exactly these fields, at the given address.
pub open spec fn course_latest_is(
    m: StoreModel,
    course_anchor_address: Address,
    title: String,
    sections: Seq<Address>,
    timestamp: u64,
    entry_address: int,
) -> bool {
    match course_latest(m, course_anchor_address) {
        Ok(Some((c, a))) => c.title == title && c.sections@ == sections && c.timestamp == timestamp
            && a == entry_address,
        _ => false,
    }
}

/// The state change of a successful course creation: anchor and first
/// snapshot committed at fresh addresses, the singleton latest edge
/// between them, and a catalog edge to the new anchor.  Creation cannot
/// fail.
pub open spec fn create_course_post(
    m0: StoreModel,
    m1: StoreModel,
    title: String,
    timestamp: u64,
    r: Result<Address, ZomeError>,
) -> bool {
    match r {
        Ok(course_anchor_address) => {
            &&& course_anchor_address == m0.entries.len()
            &&& m1.entries.len() == m0.entries.len() + 2
            &&& m1.entries.subrange(0, m0.entries.len() as int) == m0.entries
            &&& m1.entries[course_anchor_address as int] == EntryData::CourseAnchor(
                CourseAnchor { title, timestamp },
            )
            &&& is_course_entry(
                m1.entries[course_anchor_address + 1],
                title,
                Seq::<Address>::empty(),
                timestamp,
                course_anchor_address,
            )
            &&& m1.dead == m0.dead.push(false).push(false)
            &&& m1.links == m0.links.push(
                live_link(
                    course_anchor_address,
                    LinkType::CourseLatest,
                    (course_anchor_address + 1) as Address,
                ),
            ).push(live_link(0, LinkType::CatalogCourse, course_anchor_address))
            &&& link_targets(m1.links, 0, LinkType::CatalogCourse) == link_targets(
                m0.links,
                0,
                LinkType::CatalogCourse,
            ).push(course_anchor_address)
            &&& course_latest_is(
                m1,
                course_anchor_address,
                title,
                Seq::<Address>::empty(),
                timestamp,
                course_anchor_address + 1,
            )
        },
        Err(_) => false,
    }
}

/// The state change of a course update: one fresh snapshot carrying the
/// new payload, the latest edge swapped onto it, everything else —
/// including every earlier snapshot — untouched.
pub open spec fn update_course_post(
    m0: StoreModel,
    m1: StoreModel,
    title: String,
    sections: Seq<Address>,
    course_anchor_address: Address,
    r: Result<Address, ZomeError>,
) -> bool {
    match course_latest(m0, course_anchor_address) {
        Ok(Some((previous, previous_address))) => {
            &&& r == Ok::<Address, ZomeError>(course_anchor_address)
            &&& m1.entries.len() == m0.entries.len() + 1
            &&& m1.entries.subrange(0, m0.entries.len() as int) == m0.entries
            &&& is_course_entry(
                m1.entries[m0.entries.len() as int],
                title,
                sections,
                previous.timestamp,
                previous.anchor_address,
            )
            &&& m1.dead == m0.dead.push(false)
            &&& m1.links == m0.links.update(
                first_live_match(
                    m0.links,
                    course_anchor_address,
                    LinkType::CourseLatest,
                    previous_address,
                ),
                removed_link(course_anchor_address, LinkType::CourseLatest, previous_address),
            ).push(
                live_link(
                    course_anchor_address,
                    LinkType::CourseLatest,
                    m0.entries.len() as Address,
                ),
            )
            &&& course_latest_is(
                m1,
                course_anchor_address,
                title,
                sections,
                previous.timestamp,
                m0.entries.len() as int,
            )
        },
        Ok(None) => r == Err::<Address, ZomeError>(ZomeError::CannotUpdateDeletedCourse) && m1
            == m0,
        Err(e) => r == Err::<Address, ZomeError>(e) && m1 == m0,
    }
}

/// The state change of a course deletion: the anchor alone is
/// tombstoned; snapshots and edges stay, but the course reads as
/// deleted from then on.
pub open spec fn delete_course_post(
    m0: StoreModel,
    m1: StoreModel,
    course_anchor_address: Address,
    r: Result<Address, ZomeError>,
) -> bool {
    if !m0.live(course_anchor_address) {
        r == Err::<Address, ZomeError>(ZomeError::EntryNotFound) && m1 == m0
    } else if !(m0.entries[course_anchor_address as int] is CourseAnchor) {
        r == Err::<Address, ZomeError>(ZomeError::EntryTypeMismatch) && m1 == m0
    } else {
        &&& r == Ok::<Address, ZomeError>(course_anchor_address)
        &&& m1.entries == m0.entries
        &&& m1.dead == m0.dead.update(course_anchor_address as int, true)
        &&& m1.links == m0.links
        &&& course_latest(m1, course_anchor_address) == Ok::<Option<(Course, Address)>, ZomeError>(
            None,
        )
    }
}

/// Creates a course: commits its anchor (the permanent handle that is
/// returned), its first snapshot with an empty section list, the
/// singleton latest edge, and a catalog edge so the course is listed.
pub fn create(store: &mut Store, title: String, timestamp: u64) -> (r: Result<Address, ZomeError>)
    requires
        store_inv(old(store)@),
    ensures
        store_inv(final(store)@),
        tombstones_preserved(old(store)@, final(store)@),
        create_course_post(old(store)@, final(store)@, title, timestamp, r),
        forall|x: Address| old(store)@.live(x) ==> final(store)@.live(x)
            && final(store)@.entries[x as int] == old(store)@.entries[x as int],
{
    let ghost m0 = store@;
    let course_anchor_address = store.entry_count();
    let anchor_entry = EntryData::CourseAnchor(CourseAnchor::new(title.clone(), timestamp));
    let ghost ae = anchor_entry;
    let course_entry = EntryData::Course(
        Course::new(title, Vec::new(), timestamp, course_anchor_address),
    );
    let ghost ce = course_entry;
    let (anchor_address, version_address) = helper::create_versioned(
        store,
        anchor_entry,
        course_entry,
        LinkType::CourseLatest,
    );
    let ghost m_mid = store@;
    proof {
        helper::lemma_inv_after_create(
            m0,
            m_mid,
            ae,
            ce,
            LinkType::CourseLatest,
            anchor_address,
            version_address,
        );
    }
    let catalog_result = store.link_entries(0, anchor_address, LinkType::CatalogCourse);
    if catalog_result.is_err() {
        proof {
            // The catalog anchor and the fresh course anchor are committed.
            assert(false);
        }
    }
    proof {
        helper::lemma_inv_after_catalog_link(m_mid, store@, anchor_address);
        assert(store@.entries.subrange(0, m0.entries.len() as int) =~= m0.entries);
        assert(link_targets(store@.links, anchor_address, LinkType::CourseLatest)
            == seq![version_address]);
        assert(seq_max(seq![version_address]) == seq![version_address][0]);
        assert(store@.entries[version_address as int] == ce);
    }
    Ok(anchor_address)
}

/// Fetches the current snapshot of a course; `Ok(None)` signals a
/// deleted (or never created) course.
pub fn get_latest_course(store: &Store, course_anchor_address: Address)
    -> (r: Result<Option<(Course, Address)>, ZomeError>)
    requires
        store@.wf(),
    ensures
        course_result_matches(r, store@, course_anchor_address),
{
    match helper::get_latest_data_entry(store, course_anchor_address, LinkType::CourseLatest)? {
        None => Ok(None),
        Some((entry, address)) => match entry {
            EntryData::Course(c) => Ok(Some((c, address))),
            _ => Err(ZomeError::EntryTypeMismatch),
        },
    }
}

/// Updates a course: the new title and section list are committed as a
/// fresh snapshot and the latest edge is swapped onto it.  The anchor
/// address — returned unchanged, for API uniformity — keeps
/// identifying the course; a deleted course cannot be updated.
pub fn update(
    store: &mut Store,
    title: String,
    sections_addresses: Vec<Address>,
    course_anchor_address: Address,
) -> (r: Result<Address, ZomeError>)
    requires
        store_inv(old(store)@),
    ensures
        store_inv(final(store)@),
        tombstones_preserved(old(store)@, final(store)@),
        update_course_post(
            old(store)@,
            final(store)@,
            title,
            sections_addresses@,
            course_anchor_address,
            r,
        ),
        forall|x: Address| old(store)@.live(x) ==> final(store)@.live(x)
            && final(store)@.entries[x as int] == old(store)@.entries[x as int],
{
    let ghost m0 = store@;
    let latest = get_latest_course(store, course_anchor_address)?;
    match latest {
        Some((previous_course, previous_address)) => {
            let mut course = previous_course;
            course.title = title;
            course.sections = sections_addresses;
            let ghost updated = course;
            proof {
                helper::lemma_latest_edge_unique(
                    m0,
                    course_anchor_address,
                    LinkType::CourseLatest,
                    previous_address,
                );
            }
            let new_address = store.entry_count();
            let result = helper::commit_update(
                store,
                EntryData::Course(course),
                previous_address,
                course_anchor_address,
                LinkType::CourseLatest,
            );
            match result {
                Ok(_anchor) => {
                    proof {
                        helper::lemma_inv_after_latest_swap(
                            m0,
                            store@,
                            EntryData::Course(updated),
                            course_anchor_address,
                            LinkType::CourseLatest,
                            previous_address,
                            new_address,
                        );
                        assert(store@.entries.subrange(0, m0.entries.len() as int) =~= m0.entries);
                        assert(store@.entries[new_address as int] == EntryData::Course(updated));
                        assert(seq_max(seq![new_address]) == seq![new_address][0]);
                    }
                    Ok(course_anchor_address)
                },
                Err(e) => {
                    proof {
                        // The fetch showed a live snapshot behind a live edge.
                        assert(false);
                    }
                    Err(e)
                },
            }
        },
        None => Err(ZomeError::CannotUpdateDeletedCourse),
    }
}

/// Deletes a course by tombstoning its anchor alone.  Snapshots and
/// edges stay committed; the course reads as deleted forever after.
pub fn delete(store: &mut Store, course_anchor_address: Address) -> (r: Result<Address, ZomeError>)
    requires
        store_inv(old(store)@),
    ensures
        store_inv(final(store)@),
        tombstones_preserved(old(store)@, final(store)@),
        delete_course_post(old(store)@, final(store)@, course_anchor_address, r),
{
    let ghost m0 = store@;
    match store.get_entry(course_anchor_address) {
        Some(entry) => match entry {
            EntryData::CourseAnchor(_) => {
                let result = store.remove_entry(course_anchor_address);
                match result {
                    Ok(address) => {
                        proof {
                            helper::lemma_inv_after_tombstone(m0, store@, course_anchor_address);
                        }
                        Ok(address)
                    },
                    Err(_) => {
                        proof {
                            // The fetch just showed the anchor live.
                            assert(false);
                        }
                        Err(ZomeError::EntryNotFound)
                    },
                }
            },
            _ => Err(ZomeError::EntryTypeMismatch),
        },
        None => Err(ZomeError::EntryNotFound),
    }
}

/// Lists the anchor addresses of every course ever created, live or
/// deleted, in creation order: the targets of the catalog's edges.
pub fn list_all_courses(store: &Store) -> (r: Result<Vec<Address>, ZomeError>)
    ensures
        r matches Ok(v) && v@ == link_targets(store@.links, 0, LinkType::CatalogCourse),
{
    Ok(store.get_links(0, LinkType::CatalogCourse))
}

} // verus!
