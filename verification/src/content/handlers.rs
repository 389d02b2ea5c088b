//! Operations on contents: the leaf level of the hierarchy.
//!
//! Contents have no anchor: each is a single committed entry, reachable
//! through multiset edges from section anchors.  Updating commits a new
//! entry and swaps the section's edge; deleting removes the edge alone,
//! so the entry survives and stays reusable from other sections.

use vstd::prelude::*;

use crate::content::entry::Content;
use crate::error::ZomeError;
use crate::helper;
use crate::helper::{store_inv, tombstones_preserved};
use crate::section::handlers::section_latest;
use crate::store::{
    first_live_match, link_targets, live_link, removed_link, Address, EntryData, LinkType, Store,
    StoreModel,
};

verus! {

/// The content entry at an address with the payload fields replaced and
/// the timestamp kept.
pub open spec fn updated_content(e: EntryData, name: String, url: String, description: String)
    -> EntryData {
    match e {
        EntryData::Content(c) => EntryData::Content(
            Content { name, url, description, timestamp: c.timestamp },
        ),
        _ => e,
    }
}

/// The state change of a successful content creation: one fresh entry
/// and a multiset edge from the section anchor to it — but only under a
/// live section.  A deleted parent fails the operation and commits
/// nothing.
pub open spec fn create_content_post(
    m0: StoreModel,
    m1: StoreModel,
    name: String,
    url: String,
    description: String,
    timestamp: u64,
    section_anchor_address: Address,
    r: Result<Address, ZomeError>,
) -> bool {
    match section_latest(m0, section_anchor_address) {
        Ok(Some(_)) => match r {
            Ok(content_address) => {
                &&& content_address == m0.entries.len()
                &&& m1.entries == m0.entries.push(
                    EntryData::Content(Content { name, url, description, timestamp }),
                )
                &&& m1.dead == m0.dead.push(false)
                &&& m1.links == m0.links.push(
                    live_link(section_anchor_address, LinkType::SectionContent, content_address),
                )
                &&& link_targets(m1.links, section_anchor_address, LinkType::SectionContent)
                    == link_targets(m0.links, section_anchor_address, LinkType::SectionContent)
                    .push(content_address)
            },
            Err(_) => false,
        },
        Ok(None) => r == Err::<Address, ZomeError>(ZomeError::CannotCreateInDeletedSection) && m1
            == m0,
        Err(e) => r == Err::<Address, ZomeError>(e) && m1 == m0,
    }
}

/// The state change of a content update: the replaced payload is
/// committed as a fresh entry and the section's edge is swapped onto
/// it.  The old entry stays committed and fetchable at its address.
/// The steps are not atomic: if the section never linked this content,
/// the fresh entry is already committed when the edge swap fails, and
/// that partial state remains.
pub open spec fn update_content_post(
    m0: StoreModel,
    m1: StoreModel,
    content_address: Address,
    name: String,
    url: String,
    description: String,
    section_anchor_address: Address,
    r: Result<Address, ZomeError>,
) -> bool {
    if !m0.live(content_address) {
        r == Err::<Address, ZomeError>(ZomeError::EntryNotFound) && m1 == m0
    } else if !(m0.entries[content_address as int] is Content) {
        r == Err::<Address, ZomeError>(ZomeError::EntryTypeMismatch) && m1 == m0
    } else {
        let updated = updated_content(m0.entries[content_address as int], name, url, description);
        if first_live_match(
            m0.links,
            section_anchor_address,
            LinkType::SectionContent,
            content_address,
        ) < 0 {
            &&& r == Err::<Address, ZomeError>(ZomeError::LinkNotFound)
            &&& m1.entries == m0.entries.push(updated)
            &&& m1.dead == m0.dead.push(false)
            &&& m1.links == m0.links
        } else {
            &&& r matches Ok(new_address) && new_address == m0.entries.len()
            &&& m1.entries == m0.entries.push(updated)
            &&& m1.dead == m0.dead.push(false)
            &&& m1.links == m0.links.update(
                first_live_match(
                    m0.links,
                    section_anchor_address,
                    LinkType::SectionContent,
                    content_address,
                ),
                removed_link(section_anchor_address, LinkType::SectionContent, content_address),
            ).push(
                live_link(
                    section_anchor_address,
                    LinkType::SectionContent,
                    m0.entries.len() as Address,
                ),
            )
            &&& !link_targets(m1.links, section_anchor_address, LinkType::SectionContent).contains(
                content_address,
            )
            &&& link_targets(m1.links, section_anchor_address, LinkType::SectionContent).contains(
                m0.entries.len() as Address,
            )
            &&& m1.live(content_address)
        }
    }
}

/// The state change of a content deletion: the section's edge to the
/// content is removed — and nothing else.  The entry stays committed,
/// live, and reusable from any other section that references it.
pub open spec fn delete_content_post(
    m0: StoreModel,
    m1: StoreModel,
    content_address: Address,
    section_anchor_address: Address,
    r: Result<Address, ZomeError>,
) -> bool {
    if first_live_match(
        m0.links,
        section_anchor_address,
        LinkType::SectionContent,
        content_address,
    ) < 0 {
        r == Err::<Address, ZomeError>(ZomeError::LinkNotFound) && m1 == m0
    } else {
        &&& r == Ok::<Address, ZomeError>(content_address)
        &&& m1.entries == m0.entries
        &&& m1.dead == m0.dead
        &&& m1.links == m0.links.update(
            first_live_match(
                m0.links,
                section_anchor_address,
                LinkType::SectionContent,
                content_address,
            ),
            removed_link(section_anchor_address, LinkType::SectionContent, content_address),
        )
        &&& !link_targets(m1.links, section_anchor_address, LinkType::SectionContent).contains(
            content_address,
        )
        &&& forall|t: Address| t != content_address
            ==> #[trigger] link_targets(m1.links, section_anchor_address, LinkType::SectionContent)
                .contains(t) == link_targets(
                m0.links,
                section_anchor_address,
                LinkType::SectionContent,
            ).contains(t)
    }
}

/// Creates a content under a live section: commits the entry and adds a
/// multiset edge from the section anchor.  If the section is deleted,
/// nothing is committed.
pub fn create(
    store: &mut Store,
    name: String,
    url: String,
    description: String,
    timestamp: u64,
    section_anchor_address: Address,
) -> (r: Result<Address, ZomeError>)
    requires
        store_inv(old(store)@),
    ensures
        store_inv(final(store)@),
        tombstones_preserved(old(store)@, final(store)@),
        create_content_post(
            old(store)@,
            final(store)@,
            name,
            url,
            description,
            timestamp,
            section_anchor_address,
            r,
        ),
        forall|x: Address| old(store)@.live(x) ==> final(store)@.live(x)
            && final(store)@.entries[x as int] == old(store)@.entries[x as int],
{
    let ghost m0 = store@;
    let latest_section_result =
        crate::section::handlers::get_latest_section(store, section_anchor_address)?;
    match latest_section_result {
        Some((_current_section, _current_section_address)) => {
            proof {
                helper::lemma_latest_edge_unique(
                    m0,
                    section_anchor_address,
                    LinkType::SectionLatest,
                    match section_latest(m0, section_anchor_address) {
                        Ok(Some((_, a))) => a,
                        _ => 0,
                    },
                );
            }
            let new_content = Content::new(name, url, description, timestamp);
            let new_content_address = store.commit_entry(EntryData::Content(new_content));
            let ghost m_commit = store@;
            proof {
                helper::lemma_inv_after_commit(
                    m0,
                    m_commit,
                    m_commit.entries[new_content_address as int],
                );
            }
            let link_result = store.link_entries(
                section_anchor_address,
                new_content_address,
                LinkType::SectionContent,
            );
            if link_result.is_err() {
                proof {
                    // The section anchor is live and the entry was just
                    // committed.
                    assert(false);
                }
            }
            proof {
                assert(forall|j: int| 0 <= j < m_commit.links.len()
                    && (#[trigger] m_commit.links[j]).live
                    && m_commit.links[j].link_type == LinkType::SectionContent
                    ==> m_commit.links[j].target != new_content_address);
                helper::lemma_inv_after_content_link(
                    m_commit,
                    store@,
                    section_anchor_address,
                    new_content_address,
                );
            }
            Ok(new_content_address)
        },
        None => Err(ZomeError::CannotCreateInDeletedSection),
    }
}

/// Lists the addresses of every content currently linked under the
/// section anchor, in the order the edges were added.
pub fn get_contents(store: &Store, section_anchor_address: Address)
    -> (r: Result<Vec<Address>, ZomeError>)
    ensures
        r matches Ok(v) && v@ == link_targets(
            store@.links,
            section_anchor_address,
            LinkType::SectionContent,
        ),
{
    Ok(store.get_links(section_anchor_address, LinkType::SectionContent))
}

/// Updates a content: commits the replaced payload as a fresh entry (at
/// a fresh address, which is returned), removes the section's edge to
/// the old entry and adds one to the new.  The old entry survives at
/// its address.
pub fn update(
    store: &mut Store,
    content_address: Address,
    name: String,
    url: String,
    description: String,
    section_anchor_address: Address,
) -> (r: Result<Address, ZomeError>)
    requires
        store_inv(old(store)@),
    ensures
        store_inv(final(store)@),
        tombstones_preserved(old(store)@, final(store)@),
        update_content_post(
            old(store)@,
            final(store)@,
            content_address,
            name,
            url,
            description,
            section_anchor_address,
            r,
        ),
        forall|x: Address| old(store)@.live(x) ==> final(store)@.live(x)
            && final(store)@.entries[x as int] == old(store)@.entries[x as int],
{
    let ghost m0 = store@;
    match store.get_entry(content_address) {
        Some(EntryData::Content(fetched)) => {
            let mut content = fetched;
            content.description = description;
            content.name = name;
            content.url = url;
            let ghost updated = content;
            let update_result = store.update_entry(EntryData::Content(content), content_address);
            let new_content_address = match update_result {
                Ok(address) => address,
                Err(e) => {
                    proof {
                        // The fetch just showed the entry live.
                        assert(false);
                    }
                    return Err(e);
                },
            };
            let ghost m_commit = store@;
            proof {
                helper::lemma_inv_after_commit(
                    m0,
                    m_commit,
                    m_commit.entries[new_content_address as int],
                );
            }
            let remove_result = store.remove_link(
                section_anchor_address,
                content_address,
                LinkType::SectionContent,
            );
            match remove_result {
                Ok(()) => {
                    let ghost m_unlink = store@;
                    proof {
                        helper::lemma_inv_after_content_unlink(
                            m_commit,
                            m_unlink,
                            section_anchor_address,
                            content_address,
                        );
                        // The matched edge pins the section anchor as a
                        // committed address.
                        crate::store::lemma_first_live_match_props(
                            m_commit.links,
                            section_anchor_address,
                            LinkType::SectionContent,
                            content_address,
                        );
                    }
                    let link_result = store.link_entries(
                        section_anchor_address,
                        new_content_address,
                        LinkType::SectionContent,
                    );
                    if link_result.is_err() {
                        proof {
                            assert(false);
                        }
                    }
                    proof {
                        assert(forall|j: int| 0 <= j < m_unlink.links.len()
                            && (#[trigger] m_unlink.links[j]).live
                            && m_unlink.links[j].link_type == LinkType::SectionContent
                            ==> m_unlink.links[j].target != new_content_address);
                        helper::lemma_inv_after_content_link(
                            m_unlink,
                            store@,
                            section_anchor_address,
                            new_content_address,
                        );
                        let ts = link_targets(
                            store@.links,
                            section_anchor_address,
                            LinkType::SectionContent,
                        );
                        assert(ts[ts.len() - 1] == new_content_address);
                        assert(ts.contains(new_content_address));
                    }
                    Ok(new_content_address)
                },
                Err(e) => {
                    // The edge swap failed after the new entry was
                    // committed: the partial state remains.
                    Err(e)
                },
            }
        },
        Some(_) => Err(ZomeError::EntryTypeMismatch),
        None => Err(ZomeError::EntryNotFound),
    }
}

/// Deletes a content from a section: removes the edge alone.  The entry
/// is deliberately kept committed and live — the same content may be
/// referenced from other sections and outlives this one.
pub fn delete(store: &mut Store, content_address: Address, section_anchor_address: Address)
    -> (r: Result<Address, ZomeError>)
    requires
        store_inv(old(store)@),
    ensures
        store_inv(final(store)@),
        tombstones_preserved(old(store)@, final(store)@),
        delete_content_post(
            old(store)@,
            final(store)@,
            content_address,
            section_anchor_address,
            r,
        ),
        forall|x: Address| old(store)@.live(x) ==> final(store)@.live(x)
            && final(store)@.entries[x as int] == old(store)@.entries[x as int],
{
    let ghost m0 = store@;
    store.remove_link(section_anchor_address, content_address, LinkType::SectionContent)?;
    proof {
        helper::lemma_inv_after_content_unlink(m0, store@, section_anchor_address, content_address);
    }
    Ok(content_address)
}

} // verus!
