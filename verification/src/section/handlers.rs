//! Operations on sections: the middle level of the hierarchy.
//!
//! A section lives under a course and follows the anchor-indirection
//! pattern.  Creating one is gated on the parent course being live;
//! deleting one tombstones its anchor alone, deliberately leaving the
//! section's snapshots — and every content it references — committed.

use vstd::prelude::*;

use crate::course;
use crate::course::course_latest;
use crate::error::ZomeError;
use crate::helper;
use crate::helper::{latest_entry_spec, store_inv, tombstones_preserved};
use crate::section::anchor::SectionAnchor;
use crate::section::entry::Section;
use crate::store::{
    first_live_match, link_targets, live_link, removed_link, seq_max, Address, EntryData, LinkType,
    Store, StoreModel,
};

verus! {

/// What fetching the latest section snapshot yields: the engine's
/// fetch, with the entry read as a section.
pub open spec fn section_latest(m: StoreModel, section_anchor_address: Address)
    -> Result<Option<(Section, Address)>, ZomeError> {
    match latest_entry_spec(m, section_anchor_address, LinkType::SectionLatest) {
        Ok(None) => Ok(None),
        Ok(Some((e, a))) => match e {
            EntryData::Section(s) => Ok(Some((s, a))),
            _ => Err(ZomeError::EntryTypeMismatch),
        },
        Err(e) => Err(e),
    }
}

/// The state change of a successful section creation: anchor and first
/// snapshot committed at fresh addresses with the singleton latest edge
/// between them — but only under a live course.  A deleted parent fails
/// the operation and, crucially, commits nothing at all.
pub open spec fn create_section_post(
    m0: StoreModel,
    m1: StoreModel,
    title: String,
    course_anchor_address: Address,
    timestamp: u64,
    r: Result<Address, ZomeError>,
) -> bool {
    match course_latest(m0, course_anchor_address) {
        Ok(Some(_)) => match r {
            Ok(section_anchor_address) => {
                &&& section_anchor_address == m0.entries.len()
                &&& m1.entries == m0.entries.push(
                    EntryData::SectionAnchor(
                        SectionAnchor { title, course_anchor_address, timestamp },
                    ),
                ).push(
                    EntryData::Section(
                        Section { title, timestamp, anchor_address: section_anchor_address },
                    ),
                )
                &&& m1.dead == m0.dead.push(false).push(false)
                &&& m1.links == m0.links.push(
                    live_link(
                        section_anchor_address,
                        LinkType::SectionLatest,
                        (section_anchor_address + 1) as Address,
                    ),
                )
                &&& section_latest(m1, section_anchor_address) == Ok::<
                    Option<(Section, Address)>,
                    ZomeError,
                >(
                    Some(
                        (
                            Section { title, timestamp, anchor_address: section_anchor_address },
                            (section_anchor_address + 1) as Address,
                        ),
                    ),
                )
            },
            Err(_) => false,
        },
        Ok(None) => r == Err::<Address, ZomeError>(ZomeError::CannotCreateInDeletedCourse) && m1
            == m0,
        Err(e) => r == Err::<Address, ZomeError>(e) && m1 == m0,
    }
}

/// The state change of a section update: one fresh snapshot with the
/// new title, the latest edge swapped onto it, every earlier snapshot
/// untouched.
pub open spec fn update_section_post(
    m0: StoreModel,
    m1: StoreModel,
    title: String,
    section_anchor_address: Address,
    r: Result<Address, ZomeError>,
) -> bool {
    match section_latest(m0, section_anchor_address) {
        Ok(Some((previous, previous_address))) => {
            &&& r == Ok::<Address, ZomeError>(section_anchor_address)
            &&& m1.entries == m0.entries.push(
                EntryData::Section(
                    Section {
                        title,
                        timestamp: previous.timestamp,
                        anchor_address: previous.anchor_address,
                    },
                ),
            )
            &&& m1.dead == m0.dead.push(false)
            &&& m1.links == m0.links.update(
                first_live_match(
                    m0.links,
                    section_anchor_address,
                    LinkType::SectionLatest,
                    previous_address,
                ),
                removed_link(section_anchor_address, LinkType::SectionLatest, previous_address),
            ).push(
                live_link(
                    section_anchor_address,
                    LinkType::SectionLatest,
                    m0.entries.len() as Address,
                ),
            )
            &&& section_latest(m1, section_anchor_address) == Ok::<
                Option<(Section, Address)>,
                ZomeError,
            >(
                Some(
                    (
                        Section {
                            title,
                            timestamp: previous.timestamp,
                            anchor_address: previous.anchor_address,
                        },
                        m0.entries.len() as Address,
                    ),
                ),
            )
        },
        Ok(None) => r == Err::<Address, ZomeError>(ZomeError::CannotUpdateDeletedSection) && m1
            == m0,
        Err(e) => r == Err::<Address, ZomeError>(e) && m1 == m0,
    }
}

/// The state change of a section deletion: the anchor alone is
/// tombstoned; snapshots, content edges and content entries all stay.
pub open spec fn delete_section_post(
    m0: StoreModel,
    m1: StoreModel,
    section_anchor_address: Address,
    r: Result<Address, ZomeError>,
) -> bool {
    if !m0.live(section_anchor_address) {
        r == Err::<Address, ZomeError>(ZomeError::EntryNotFound) && m1 == m0
    } else if !(m0.entries[section_anchor_address as int] is SectionAnchor) {
        r == Err::<Address, ZomeError>(ZomeError::EntryTypeMismatch) && m1 == m0
    } else {
        &&& r == Ok::<Address, ZomeError>(section_anchor_address)
        &&& m1.entries == m0.entries
        &&& m1.dead == m0.dead.update(section_anchor_address as int, true)
        &&& m1.links == m0.links
        &&& section_latest(m1, section_anchor_address) == Ok::<
            Option<(Section, Address)>,
            ZomeError,
        >(None)
    }
}

/// Creates a section under a live course: commits the section anchor
/// (the permanent handle that is returned), the first snapshot, and the
/// singleton latest edge.  If the course is deleted, the operation
/// fails without committing anything — no orphans.
///
/// No edge is added from the course to the new section: the caller
/// keeps the returned anchor address and registers it in the course's
/// section list through a course update.  The anchor's back-reference
/// to the course is the authoritative parent link.
pub fn create(store: &mut Store, title: String, course_anchor_address: Address, timestamp: u64)
    -> (r: Result<Address, ZomeError>)
    requires
        store_inv(old(store)@),
    ensures
        store_inv(final(store)@),
        tombstones_preserved(old(store)@, final(store)@),
        create_section_post(
            old(store)@,
            final(store)@,
            title,
            course_anchor_address,
            timestamp,
            r,
        ),
        forall|x: Address| old(store)@.live(x) ==> final(store)@.live(x)
            && final(store)@.entries[x as int] == old(store)@.entries[x as int],
{
    let ghost m0 = store@;
    let latest_course_result = course::get_latest_course(store, course_anchor_address)?;
    match latest_course_result {
        Some((_course, _course_address)) => {
            let section_anchor_address = store.entry_count();
            let anchor_entry = EntryData::SectionAnchor(
                SectionAnchor::new(title.clone(), course_anchor_address, timestamp),
            );
            let ghost ae = anchor_entry;
            let section_entry = EntryData::Section(
                Section::new(title, timestamp, section_anchor_address),
            );
            let ghost se = section_entry;
            let (anchor_address, version_address) = helper::create_versioned(
                store,
                anchor_entry,
                section_entry,
                LinkType::SectionLatest,
            );
            proof {
                helper::lemma_inv_after_create(
                    m0,
                    store@,
                    ae,
                    se,
                    LinkType::SectionLatest,
                    anchor_address,
                    version_address,
                );
                assert(store@.entries[version_address as int] == se);
                assert(seq_max(seq![version_address]) == seq![version_address][0]);
            }
            Ok(anchor_address)
        },
        None => Err(ZomeError::CannotCreateInDeletedCourse),
    }
}

/// Fetches the current snapshot of a section; `Ok(None)` signals a
/// deleted (or never created) section.
pub fn get_latest_section(store: &Store, section_anchor_address: Address)
    -> (r: Result<Option<(Section, Address)>, ZomeError>)
    requires
        store@.wf(),
    ensures
        r == section_latest(store@, section_anchor_address),
{
    match helper::get_latest_data_entry(store, section_anchor_address, LinkType::SectionLatest)? {
        None => Ok(None),
        Some((entry, address)) => match entry {
            EntryData::Section(s) => Ok(Some((s, address))),
            _ => Err(ZomeError::EntryTypeMismatch),
        },
    }
}

/// Fetches the current snapshot of a section, without its address.
pub fn get_latest_section_entry(store: &Store, section_anchor_address: Address)
    -> (r: Result<Option<Section>, ZomeError>)
    requires
        store@.wf(),
    ensures
        r == match section_latest(store@, section_anchor_address) {
            Ok(Some((s, _))) => Ok::<Option<Section>, ZomeError>(Some(s)),
            Ok(None) => Ok::<Option<Section>, ZomeError>(None),
            Err(e) => Err::<Option<Section>, ZomeError>(e),
        },
{
    match get_latest_section(store, section_anchor_address)? {
        Some((section, _address)) => Ok(Some(section)),
        None => Ok(None),
    }
}

/// Updates a section's title: the new payload is committed as a fresh
/// snapshot and the latest edge is swapped onto it.  Returns the
/// unchanged anchor address, for API uniformity; a deleted section
/// cannot be updated.
pub fn update(store: &mut Store, title: String, section_anchor_address: Address)
    -> (r: Result<Address, ZomeError>)
    requires
        store_inv(old(store)@),
    ensures
        store_inv(final(store)@),
        tombstones_preserved(old(store)@, final(store)@),
        update_section_post(old(store)@, final(store)@, title, section_anchor_address, r),
        forall|x: Address| old(store)@.live(x) ==> final(store)@.live(x)
            && final(store)@.entries[x as int] == old(store)@.entries[x as int],
{
    let ghost m0 = store@;
    let latest_section_result = get_latest_section(store, section_anchor_address)?;
    match latest_section_result {
        Some((previous_section, previous_section_address)) => {
            let mut section = previous_section;
            section.title = title;
            let ghost updated = section;
            proof {
                helper::lemma_latest_edge_unique(
                    m0,
                    section_anchor_address,
                    LinkType::SectionLatest,
                    previous_section_address,
                );
            }
            let new_address = store.entry_count();
            let result = helper::commit_update(
                store,
                EntryData::Section(section),
                previous_section_address,
                section_anchor_address,
                LinkType::SectionLatest,
            );
            match result {
                Ok(_anchor) => {
                    proof {
                        helper::lemma_inv_after_latest_swap(
                            m0,
                            store@,
                            EntryData::Section(updated),
                            section_anchor_address,
                            LinkType::SectionLatest,
                            previous_section_address,
                            new_address,
                        );
                        assert(store@.entries[new_address as int] == EntryData::Section(updated));
                        assert(seq_max(seq![new_address]) == seq![new_address][0]);
                    }
                    Ok(section_anchor_address)
                },
                Err(e) => {
                    proof {
                        // The fetch showed a live snapshot behind a live edge.
                        assert(false);
                    }
                    Err(e)
                },
            }
        },
        None => Err(ZomeError::CannotUpdateDeletedSection),
    }
}

/// Deletes a section by tombstoning its anchor alone.  The latest edge,
/// the snapshots, the content edges and the contents all stay
/// committed: contents are reusable from other sections, and the
/// history stays fetchable by address.
pub fn delete(store: &mut Store, section_anchor_address: Address) -> (r: Result<Address, ZomeError>)
    requires
        store_inv(old(store)@),
    ensures
        store_inv(final(store)@),
        tombstones_preserved(old(store)@, final(store)@),
        delete_section_post(old(store)@, final(store)@, section_anchor_address, r),
{
    let ghost m0 = store@;
    match store.get_entry(section_anchor_address) {
        Some(entry) => match entry {
            EntryData::SectionAnchor(_) => {
                let result = store.remove_entry(section_anchor_address);
                match result {
                    Ok(address) => {
                        proof {
                            helper::lemma_inv_after_tombstone(m0, store@, section_anchor_address);
                        }
                        Ok(address)
                    },
                    Err(_) => {
                        proof {
                            // The fetch just showed the anchor live.
                            assert(false);
                        }
                        Err(ZomeError::EntryNotFound)
                    },
                }
            },
            _ => Err(ZomeError::EntryTypeMismatch),
        },
        None => Err(ZomeError::EntryNotFound),
    }
}

/// A chain of successful updates of one section: `states[0]` is the
/// starting state, and `states[i + 1]` comes from `states[i]` by an
/// update that wrote `titles[i]` and returned the anchor address.
pub open spec fn section_update_chain(
    states: Seq<StoreModel>,
    titles: Seq<String>,
    section_anchor_address: Address,
) -> bool {
    &&& states.len() == titles.len() + 1
    &&& forall|i: int| 0 <= i < titles.len() ==> update_section_post(
            #[trigger] states[i],
            states[i + 1],
            titles[i],
            section_anchor_address,
            Ok(section_anchor_address),
        )
}

/// The history law of the versioning pattern, for any number of
/// updates: after a chain of successful updates of one section, the
/// latest snapshot carries the last title written, with the timestamp
/// and the anchor back-reference carried over unchanged from before the
/// chain; and every entry committed before the chain — the earlier
/// snapshots among them — is still there, unchanged at its address.
pub proof fn lemma_section_update_chain(
    states: Seq<StoreModel>,
    titles: Seq<String>,
    section_anchor_address: Address,
    first: Section,
    first_address: Address,
)
    requires
        section_update_chain(states, titles, section_anchor_address),
        titles.len() > 0,
        section_latest(states[0], section_anchor_address) == Ok::<
            Option<(Section, Address)>,
            ZomeError,
        >(Some((first, first_address))),
    ensures
        section_latest(states.last(), section_anchor_address) matches Ok(o) && o matches Some(
            (s, _),
        ) && s.title == titles.last() && s.timestamp == first.timestamp && s.anchor_address
            == first.anchor_address,
        states[0].entries.len() <= states.last().entries.len(),
        forall|x: int| 0 <= x < states[0].entries.len()
            ==> states.last().entries[x] == #[trigger] states[0].entries[x],
        states[0].dead.len() <= states.last().dead.len(),
        forall|x: int| 0 <= x < states[0].dead.len()
            ==> states.last().dead[x] == #[trigger] states[0].dead[x],
    decreases titles.len(),
{
    let n = titles.len() as int;
    if n == 1 {
        assert(update_section_post(
            states[0],
            states[1],
            titles[0],
            section_anchor_address,
            Ok(section_anchor_address),
        ));
        assert(states.last() == states[1]);
    } else {
        let prefix_states = states.drop_last();
        let prefix_titles = titles.drop_last();
        assert forall|i: int| 0 <= i < prefix_titles.len() implies update_section_post(
            #[trigger] prefix_states[i],
            prefix_states[i + 1],
            prefix_titles[i],
            section_anchor_address,
            Ok(section_anchor_address),
        ) by {
            assert(prefix_states[i] == states[i]);
            assert(prefix_states[i + 1] == states[i + 1]);
            assert(update_section_post(
                states[i],
                states[i + 1],
                titles[i],
                section_anchor_address,
                Ok(section_anchor_address),
            ));
        }
        lemma_section_update_chain(
            prefix_states,
            prefix_titles,
            section_anchor_address,
            first,
            first_address,
        );
        assert(prefix_states.last() == states[n - 1]);
        assert(update_section_post(
            states[n - 1],
            states[n],
            titles[n - 1],
            section_anchor_address,
            Ok(section_anchor_address),
        ));
        assert(states.last() == states[n]);
    }
}

} // verus!
