//! Mutable, updatable, deletable records on top of an immutable,
//! content-addressed entry store.
//!
//! Every write appends an immutable entry at a fresh address; logical
//! mutability comes from the anchor-indirection pattern: a stable anchor
//! record that callers reference forever, plus a single "latest version"
//! edge that is swapped on every update.  A three-level ownership
//! hierarchy (course -> section -> content) repeats the pattern with a
//! per-level deletion policy: deleting a course or section tombstones
//! its anchor alone, and deleting a content from a section removes one
//! edge, never the entry.
//!
//! The functions below are the exposed surface; they delegate to the
//! per-level handlers, which in turn drive the generic engine in
//! `helper` against the store.  Operations are sequences of store calls
//! with no transaction around them: their contracts state exactly which
//! partial state a failing step leaves behind.

pub mod content;
pub mod course;
pub mod error;
pub mod helper;
pub mod section;
pub mod store;

use vstd::prelude::*;

use crate::course::Course;
use crate::error::ZomeError;
use crate::helper::{store_inv, tombstones_preserved};
use crate::section::entry::Section;
use crate::store::{Address, EntryData, Store};

verus! {

/// Sets up the store with the well-known course-catalog anchor at
/// address 0, from which every course anchor is linked.
pub fn init() -> (s: Store)
    ensures
        store_inv(s@),
        s@.entries == seq![EntryData::CatalogAnchor],
        s@.dead == seq![false],
        s@.links == Seq::<store::Link>::empty(),
{
    let mut s = Store::new();
    let _catalog: Address = s.commit_entry(EntryData::CatalogAnchor);
    proof {
        assert(s@.entries =~= seq![EntryData::CatalogAnchor]);
        assert(s@.dead =~= seq![false]);
    }
    s
}

/// Creates a course and returns its permanent anchor address.
pub fn create_course(store: &mut Store, title: String, timestamp: u64)
    -> (r: Result<Address, ZomeError>)
    requires
        store_inv(old(store)@),
    ensures
        store_inv(final(store)@),
        tombstones_preserved(old(store)@, final(store)@),
        course::create_course_post(old(store)@, final(store)@, title, timestamp, r),
{
    course::create(store, title, timestamp)
}

/// Fetches the current payload of a course; `Ok(None)` signals a
/// deleted (or never created) course.
pub fn get_latest_course_entry(store: &Store, course_anchor_address: Address)
    -> (r: Result<Option<Course>, ZomeError>)
    requires
        store@.wf(),
    ensures
        match (r, course::course_latest(store@, course_anchor_address)) {
            (Ok(Some(c)), Ok(Some((c0, _)))) => course::course_like(c, c0),
            (Ok(None), Ok(None)) => true,
            (Err(e), Err(e0)) => e == e0,
            _ => false,
        },
{
    let latest_course_result = course::get_latest_course(store, course_anchor_address)?;
    match latest_course_result {
        Some((course_entry, _course_entry_address)) => Ok(Some(course_entry)),
        None => Ok(None),
    }
}

/// Updates a course's title and section list; fails on a deleted
/// course.  Returns the unchanged anchor address.
pub fn update_course(
    store: &mut Store,
    title: String,
    sections_addresses: Vec<Address>,
    course_anchor_address: Address,
) -> (r: Result<Address, ZomeError>)
    requires
        store_inv(old(store)@),
    ensures
        store_inv(final(store)@),
        tombstones_preserved(old(store)@, final(store)@),
        course::update_course_post(
            old(store)@,
            final(store)@,
            title,
            sections_addresses@,
            course_anchor_address,
            r,
        ),
{
    course::update(store, title, sections_addresses, course_anchor_address)
}

/// Deletes a course by tombstoning its anchor; every snapshot stays
/// fetchable by address.
pub fn delete_course(store: &mut Store, course_anchor_address: Address)
    -> (r: Result<Address, ZomeError>)
    requires
        store_inv(old(store)@),
    ensures
        store_inv(final(store)@),
        tombstones_preserved(old(store)@, final(store)@),
        course::delete_course_post(old(store)@, final(store)@, course_anchor_address, r),
{
    course::delete(store, course_anchor_address)
}

/// Lists the anchor addresses of every course ever created.
pub fn get_all_courses(store: &Store) -> (r: Result<Vec<Address>, ZomeError>)
    ensures
        r matches Ok(v) && v@ == store::link_targets(
            store@.links,
            0,
            store::LinkType::CatalogCourse,
        ),
{
    course::list_all_courses(store)
}

/// Creates a section under a live course and returns its permanent
/// anchor address; fails — committing nothing — if the course is
/// deleted.
pub fn create_section(
    store: &mut Store,
    title: String,
    course_anchor_address: Address,
    timestamp: u64,
) -> (r: Result<Address, ZomeError>)
    requires
        store_inv(old(store)@),
    ensures
        store_inv(final(store)@),
        tombstones_preserved(old(store)@, final(store)@),
        section::handlers::create_section_post(
            old(store)@,
            final(store)@,
            title,
            course_anchor_address,
            timestamp,
            r,
        ),
{
    section::handlers::create(store, title, course_anchor_address, timestamp)
}

/// Fetches the current payload of a section; `Ok(None)` signals a
/// deleted (or never created) section.
pub fn get_latest_section_entry(store: &Store, section_anchor_address: Address)
    -> (r: Result<Option<Section>, ZomeError>)
    requires
        store@.wf(),
    ensures
        r == match section::handlers::section_latest(store@, section_anchor_address) {
            Ok(Some((s, _))) => Ok::<Option<Section>, ZomeError>(Some(s)),
            Ok(None) => Ok::<Option<Section>, ZomeError>(None),
            Err(e) => Err::<Option<Section>, ZomeError>(e),
        },
{
    section::handlers::get_latest_section_entry(store, section_anchor_address)
}

/// Updates a section's title; fails on a deleted section.  Returns the
/// unchanged anchor address.
pub fn update_section(store: &mut Store, title: String, section_anchor_address: Address)
    -> (r: Result<Address, ZomeError>)
    requires
        store_inv(old(store)@),
    ensures
        store_inv(final(store)@),
        tombstones_preserved(old(store)@, final(store)@),
        section::handlers::update_section_post(
            old(store)@,
            final(store)@,
            title,
            section_anchor_address,
            r,
        ),
{
    section::handlers::update(store, title, section_anchor_address)
}

/// Deletes a section by tombstoning its anchor; its snapshots and its
/// contents stay committed.
pub fn delete_section(store: &mut Store, section_anchor_address: Address)
    -> (r: Result<Address, ZomeError>)
    requires
        store_inv(old(store)@),
    ensures
        store_inv(final(store)@),
        tombstones_preserved(old(store)@, final(store)@),
        section::handlers::delete_section_post(
            old(store)@,
            final(store)@,
            section_anchor_address,
            r,
        ),
{
    section::handlers::delete(store, section_anchor_address)
}

/// Creates a content under a live section and returns the entry's
/// address; fails — committing nothing — if the section is deleted.
pub fn create_content(
    store: &mut Store,
    name: String,
    url: String,
    description: String,
    timestamp: u64,
    section_anchor_address: Address,
) -> (r: Result<Address, ZomeError>)
    requires
        store_inv(old(store)@),
    ensures
        store_inv(final(store)@),
        tombstones_preserved(old(store)@, final(store)@),
        content::handlers::create_content_post(
            old(store)@,
            final(store)@,
            name,
            url,
            description,
            timestamp,
            section_anchor_address,
            r,
        ),
{
    content::handlers::create(store, name, url, description, timestamp, section_anchor_address)
}

/// Lists the addresses of every content currently linked under the
/// section.
pub fn get_contents(store: &Store, section_anchor_address: Address)
    -> (r: Result<Vec<Address>, ZomeError>)
    ensures
        r matches Ok(v) && v@ == store::link_targets(
            store@.links,
            section_anchor_address,
            store::LinkType::SectionContent,
        ),
{
    content::handlers::get_contents(store, section_anchor_address)
}

/// Updates a content under a section: a fresh entry is committed (its
/// address is returned) and the section's edge is swapped onto it; the
/// old entry survives at its address.
pub fn update_content(
    store: &mut Store,
    content_address: Address,
    name: String,
    url: String,
    description: String,
    section_anchor_address: Address,
) -> (r: Result<Address, ZomeError>)
    requires
        store_inv(old(store)@),
    ensures
        store_inv(final(store)@),
        tombstones_preserved(old(store)@, final(store)@),
        content::handlers::update_content_post(
            old(store)@,
            final(store)@,
            content_address,
            name,
            url,
            description,
            section_anchor_address,
            r,
        ),
{
    content::handlers::update(store, content_address, name, url, description, section_anchor_address)
}

/// Deletes a content from a section: removes the edge alone; the entry
/// stays committed and reusable elsewhere.
pub fn delete_content(store: &mut Store, content_address: Address, section_anchor_address: Address)
    -> (r: Result<Address, ZomeError>)
    requires
        store_inv(old(store)@),
    ensures
        store_inv(final(store)@),
        tombstones_preserved(old(store)@, final(store)@),
        content::handlers::delete_content_post(
            old(store)@,
            final(store)@,
            content_address,
            section_anchor_address,
            r,
        ),
{
    content::handlers::delete(store, content_address, section_anchor_address)
}

} // verus!
