//! The anchor-versioning engine: the generic pattern shared by every
//! level of the hierarchy.
//!
//! An entity is a permanent anchor record plus a chain of immutable
//! snapshots; a singleton latest-version edge leads from the anchor to
//! the current snapshot.  Creation commits anchor, first snapshot and
//! edge; update commits a new snapshot and swaps the edge; deletion
//! tombstones the anchor alone, which makes the whole entity
//! unreachable while its history stays fetchable by address.

use vstd::prelude::*;

use crate::error::ZomeError;
use crate::store::{
    entry_eq, first_live_match, is_exact_live_match, lemma_first_live_match_props,
    lemma_link_targets_decompose, lemma_link_targets_push, lemma_no_match_no_targets,
    lemma_target_has_match, link_matches, link_targets, live_link, matched_target, removed_link,
    seq_max, Address, EntryData, Link, LinkType, Store, StoreModel,
};

verus! {

/// Typing of a live edge: what kinds of entries its endpoints hold.
pub open spec fn link_ok(m: StoreModel, l: Link) -> bool {
    match l.link_type {
        LinkType::CourseLatest => m.entries[l.base as int] is CourseAnchor
            && m.entries[l.target as int] is Course,
        LinkType::SectionLatest => m.entries[l.base as int] is SectionAnchor
            && m.entries[l.target as int] is Section,
        LinkType::SectionContent => m.entries[l.base as int] is SectionAnchor
            && m.entries[l.target as int] is Content,
        LinkType::CatalogCourse => l.base == 0 && m.entries[l.target as int] is CourseAnchor,
    }
}

/// Coherence of the whole store, established by `init` and preserved by
/// every operation of the hierarchy:
/// - the well-known catalog anchor sits at address 0 and is never
///   tombstoned;
/// - edge endpoints are committed addresses and live edges are typed as
///   `link_ok` says;
/// - every live course or section anchor carries exactly one live
///   latest-version edge (the singleton discipline);
/// - only anchors are ever tombstoned, so snapshots and contents stay
///   fetchable forever;
/// - live section-to-content edges have pairwise distinct targets.
pub open spec fn store_inv(m: StoreModel) -> bool {
    &&& m.wf()
    &&& m.entries.len() >= 1
    &&& m.entries[0] is CatalogAnchor
    &&& !m.dead[0]
    &&& forall|i: int| 0 <= i < m.links.len()
            ==> (#[trigger] m.links[i]).base < m.entries.len()
                && m.links[i].target < m.entries.len()
    &&& forall|i: int| 0 <= i < m.links.len() && (#[trigger] m.links[i]).live
            ==> link_ok(m, m.links[i])
    &&& forall|a: int| 0 <= a < m.entries.len() && !m.dead[a]
            && (#[trigger] m.entries[a]) is CourseAnchor
            ==> link_targets(m.links, a as Address, LinkType::CourseLatest).len() == 1
    &&& forall|a: int| 0 <= a < m.entries.len() && !m.dead[a]
            && (#[trigger] m.entries[a]) is SectionAnchor
            ==> link_targets(m.links, a as Address, LinkType::SectionLatest).len() == 1
    &&& forall|a: int| 0 <= a < m.dead.len() && m.dead[a]
            ==> ((#[trigger] m.entries[a]) is CourseAnchor || m.entries[a] is SectionAnchor)
    &&& forall|i: int, j: int| 0 <= i < j < m.links.len()
            && (#[trigger] m.links[i]).live && (#[trigger] m.links[j]).live
            && m.links[i].link_type == LinkType::SectionContent
            && m.links[j].link_type == LinkType::SectionContent
            ==> m.links[i].target != m.links[j].target
}

/// What fetching the latest snapshot behind an anchor yields on a given
/// store state:
/// - `Ok(None)` iff the anchor address does not resolve (tombstoned or
///   never committed) — the explicit "deleted" signal;
/// - `Err(MissingLatestLink)` iff the anchor is live but carries no
///   latest-version edge (a detected invariant violation, never read
///   through silently);
/// - otherwise the target of the newest live edge: `Ok(Some(..))` with
///   that entry and its address if it resolves, `Err(EntryNotFound)` if
///   it does not.
pub open spec fn latest_entry_spec(m: StoreModel, anchor_address: Address, link_type: LinkType)
    -> Result<Option<(EntryData, Address)>, ZomeError> {
    if !m.live(anchor_address) {
        Ok(None)
    } else {
        let targets = link_targets(m.links, anchor_address, link_type);
        if targets.len() == 0 {
            Err(ZomeError::MissingLatestLink)
        } else {
            let t = seq_max(targets);
            if m.live(t) {
                Ok(Some((m.entries[t as int], t)))
            } else {
                Err(ZomeError::EntryNotFound)
            }
        }
    }
}

/// Relates an executable fetch result to `latest_entry_spec`: equal up
/// to entry equivalence.
pub open spec fn latest_result_matches(
    r: Result<Option<(EntryData, Address)>, ZomeError>,
    m: StoreModel,
    anchor_address: Address,
    link_type: LinkType,
) -> bool {
    match (r, latest_entry_spec(m, anchor_address, link_type)) {
        (Ok(Some((e, a))), Ok(Some((e0, a0)))) => entry_eq(e, e0) && a == a0,
        (Ok(None), Ok(None)) => true,
        (Err(e), Err(e0)) => e == e0,
        _ => false,
    }
}

/// Fetches the latest snapshot linked to the anchor at
/// `anchor_address`.  This is the read side of the anchor-first
/// pattern: a tombstoned anchor makes the whole entity read as deleted,
/// even though snapshots and edges are still physically present.
///
/// When several live edges exist (possible when two writers raced), the
/// one with the largest target address — the most recently committed
/// snapshot — is chosen deterministically.
pub fn get_latest_data_entry(store: &Store, anchor_address: Address, link_type: LinkType)
    -> (r: Result<Option<(EntryData, Address)>, ZomeError>)
    requires
        store@.wf(),
    ensures
        latest_result_matches(r, store@, anchor_address, link_type),
{
    match store.get_entry(anchor_address) {
        None => Ok(None),
        Some(_) => {
            let targets = store.get_links(anchor_address, link_type);
            if targets.len() == 0 {
                Err(ZomeError::MissingLatestLink)
            } else {
                let ghost tgs = targets@;
                let mut latest: Address = targets[0];
                let mut i: usize = 1;
                proof {
                    assert(tgs.subrange(0, 1) =~= seq![tgs[0]]);
                }
                while i < targets.len()
                    invariant
                        targets@ == tgs,
                        1 <= i <= tgs.len(),
                        latest == seq_max(tgs.subrange(0, i as int)),
                    decreases targets.len() - i,
                {
                    proof {
                        assert(tgs.subrange(0, i + 1 as int).drop_last() =~= tgs.subrange(0, i as int));
                        assert(tgs.subrange(0, i + 1 as int).last() == tgs[i as int]);
                    }
                    if targets[i] > latest {
                        latest = targets[i];
                    }
                    i = i + 1;
                }
                proof {
                    assert(tgs.subrange(0, tgs.len() as int) =~= tgs);
                }
                match store.get_entry(latest) {
                    Some(entry) => Ok(Some((entry, latest))),
                    None => Err(ZomeError::EntryNotFound),
                }
            }
        },
    }
}

/// Commits an anchor record and the first snapshot of its entity, then
/// adds the singleton latest-version edge between them.  Returns the
/// anchor's address — the entity's permanent handle — and the snapshot's
/// address.
pub fn create_versioned(
    store: &mut Store,
    anchor_entry: EntryData,
    first_entry: EntryData,
    link_type: LinkType,
) -> (addresses: (Address, Address))
    requires
        old(store)@.wf(),
    ensures
        final(store)@.wf(),
        tombstones_preserved(old(store)@, final(store)@),
        addresses.0 == old(store)@.entries.len(),
        addresses.1 == old(store)@.entries.len() + 1,
        final(store)@.entries == old(store)@.entries.push(anchor_entry).push(first_entry),
        final(store)@.dead == old(store)@.dead.push(false).push(false),
        final(store)@.links == old(store)@.links.push(
            live_link(addresses.0, link_type, addresses.1),
        ),
{
    let anchor_address = store.commit_entry(anchor_entry);
    let entry_address = store.commit_entry(first_entry);
    let link_result = store.link_entries(anchor_address, entry_address, link_type);
    if link_result.is_err() {
        proof {
            // Both endpoints were just committed.
            assert(false);
        }
    }
    (anchor_address, entry_address)
}

/// Commits a new snapshot as the successor of `previous_address` and
/// swaps the anchor's latest-version edge onto it: the edge to the old
/// snapshot is removed, one to the new snapshot is added.  The old
/// snapshot stays fetchable at its address forever.  Returns the
/// unchanged anchor address; the fresh snapshot's address — the entry
/// count before the call — is pinned by the `ensures`.
///
/// The store offers no transactions, so a failing step aborts the rest
/// and leaves the effects of the completed steps committed; the `Err`
/// cases below say exactly which partial state remains.
pub fn commit_update(
    store: &mut Store,
    new_entry: EntryData,
    previous_address: Address,
    anchor_address: Address,
    link_type: LinkType,
) -> (r: Result<Address, ZomeError>)
    requires
        old(store)@.wf(),
        anchor_address < old(store)@.entries.len(),
    ensures
        final(store)@.wf(),
        tombstones_preserved(old(store)@, final(store)@),
        match r {
            Ok(returned_address) => {
                let i = first_live_match(
                    old(store)@.links,
                    anchor_address,
                    link_type,
                    previous_address,
                );
                &&& returned_address == anchor_address
                &&& old(store)@.live(previous_address)
                &&& i >= 0
                &&& final(store)@.entries == old(store)@.entries.push(new_entry)
                &&& final(store)@.dead == old(store)@.dead.push(false)
                &&& final(store)@.links == old(store)@.links.update(
                    i,
                    removed_link(anchor_address, link_type, previous_address),
                ).push(
                    live_link(
                        anchor_address,
                        link_type,
                        old(store)@.entries.len() as Address,
                    ),
                )
            },
            Err(e) => {
                ||| {
                    &&& e == ZomeError::EntryNotFound
                    &&& !old(store)@.live(previous_address)
                    &&& final(store)@ == old(store)@
                }
                ||| {
                    &&& e == ZomeError::LinkNotFound
                    &&& old(store)@.live(previous_address)
                    &&& first_live_match(
                        old(store)@.links,
                        anchor_address,
                        link_type,
                        previous_address,
                    ) == -1
                    &&& final(store)@.entries == old(store)@.entries.push(new_entry)
                    &&& final(store)@.dead == old(store)@.dead.push(false)
                    &&& final(store)@.links == old(store)@.links
                }
            },
        },
{
    let new_address = store.update_entry(new_entry, previous_address)?;
    store.remove_link(anchor_address, previous_address, link_type)?;
    let link_result = store.link_entries(anchor_address, new_address, link_type);
    if link_result.is_err() {
        proof {
            // The anchor is a committed address and so is the snapshot.
            assert(false);
        }
    }
    Ok(anchor_address)
}

/// No resurrection, as a relation between states: every address
/// tombstoned in the earlier state is still tombstoned in the later
/// one.  Every mutating operation of the hierarchy ensures this
/// relation between its old and new state.
pub open spec fn tombstones_preserved(m0: StoreModel, m1: StoreModel) -> bool {
    forall|x: int| 0 <= x < m0.dead.len() && m0.dead[x] ==> #[trigger] m1.dead[x]
}

/// Tombstone preservation composes across successive operations, so
/// the relation carries over any chain of them.
pub proof fn lemma_tombstones_preserved_trans(m0: StoreModel, m1: StoreModel, m2: StoreModel)
    requires
        tombstones_preserved(m0, m1),
        tombstones_preserved(m1, m2),
        m0.dead.len() <= m1.dead.len(),
    ensures
        tombstones_preserved(m0, m2),
{
    assert forall|x: int| 0 <= x < m0.dead.len() && m0.dead[x] implies #[trigger] m2.dead[x] by {
        assert(m1.dead[x]);
    }
}

/// A deleted entity never resurrects: across any chain of operations —
/// each preserves tombstones and only appends entries — a tombstoned
/// anchor keeps reading as deleted.
pub proof fn lemma_no_resurrection(
    m0: StoreModel,
    m1: StoreModel,
    anchor_address: Address,
    link_type: LinkType,
)
    requires
        m1.wf(),
        anchor_address < m0.dead.len(),
        m0.dead[anchor_address as int],
        m0.dead.len() <= m1.dead.len(),
        tombstones_preserved(m0, m1),
    ensures
        latest_entry_spec(m1, anchor_address, link_type) == Ok::<
            Option<(EntryData, Address)>,
            ZomeError,
        >(None),
{
    assert(m1.dead[anchor_address as int]);
}

/// A tombstoned (or never committed) anchor reads as deleted, whatever
/// else the store holds; in particular this holds forever after
/// deletion, since nothing ever clears a tombstone.
pub proof fn lemma_deleted_anchor_reads_none(
    m: StoreModel,
    anchor_address: Address,
    link_type: LinkType,
)
    requires
        !m.live(anchor_address),
    ensures
        latest_entry_spec(m, anchor_address, link_type) == Ok::<
            Option<(EntryData, Address)>,
            ZomeError,
        >(None),
{
}

/// On a coherent store, fetching through a live course or section
/// anchor always succeeds: the singleton edge exists, its target is a
/// live snapshot of the right kind.
pub proof fn lemma_live_anchor_resolves(m: StoreModel, anchor_address: Address, link_type: LinkType)
    requires
        store_inv(m),
        m.live(anchor_address),
        (m.entries[anchor_address as int] is CourseAnchor && link_type == LinkType::CourseLatest)
            || (m.entries[anchor_address as int] is SectionAnchor && link_type
                == LinkType::SectionLatest),
    ensures
        latest_entry_spec(m, anchor_address, link_type) matches Ok(r) && r matches Some((e, a))
            && a < m.entries.len() && m.live(a) && e == m.entries[a as int]
            && (link_type == LinkType::CourseLatest ==> e is Course)
            && (link_type == LinkType::SectionLatest ==> e is Section),
{
    let targets = link_targets(m.links, anchor_address, link_type);
    assert(targets.len() == 1);
    let t = seq_max(targets);
    assert(t == targets[0]);
    assert(targets.contains(t));
    lemma_target_has_match(m.links, anchor_address, link_type, t);
    let j = choose|j: int| 0 <= j < m.links.len()
        && is_exact_live_match(#[trigger] m.links[j], anchor_address, link_type, t);
    assert(link_ok(m, m.links[j]));
    assert(t < m.entries.len());
    if m.dead[t as int] {
        // Only anchors are tombstoned, but the edge target is a snapshot.
        assert(false);
    }
}

/// From a successful fetch on a coherent store: the anchor is of the
/// kind the link type says, its latest-version edge is the single one,
/// and that edge can be found for removal.
pub proof fn lemma_latest_edge_unique(
    m: StoreModel,
    anchor_address: Address,
    link_type: LinkType,
    entry_address: Address,
)
    requires
        store_inv(m),
        link_type == LinkType::CourseLatest || link_type == LinkType::SectionLatest,
        m.live(anchor_address),
        link_targets(m.links, anchor_address, link_type).len() > 0,
        entry_address == seq_max(link_targets(m.links, anchor_address, link_type)),
    ensures
        link_type == LinkType::CourseLatest ==> m.entries[anchor_address as int] is CourseAnchor,
        link_type == LinkType::SectionLatest ==> m.entries[anchor_address as int] is SectionAnchor,
        link_targets(m.links, anchor_address, link_type) == seq![entry_address],
        first_live_match(m.links, anchor_address, link_type, entry_address) >= 0,
{
    let ts = link_targets(m.links, anchor_address, link_type);
    assert(ts.contains(ts[0]));
    lemma_target_has_match(m.links, anchor_address, link_type, ts[0]);
    let j = choose|j: int| 0 <= j < m.links.len()
        && is_exact_live_match(#[trigger] m.links[j], anchor_address, link_type, ts[0]);
    assert(link_ok(m, m.links[j]));
    assert(ts.len() == 1);
    assert(seq_max(ts) == ts[0]);
    assert(ts =~= seq![entry_address]);
    assert(ts.contains(entry_address));
    lemma_target_has_match(m.links, anchor_address, link_type, entry_address);
    let k = choose|k: int| 0 <= k < m.links.len()
        && is_exact_live_match(#[trigger] m.links[k], anchor_address, link_type, entry_address);
    lemma_first_live_match_props(m.links, anchor_address, link_type, entry_address);
    if first_live_match(m.links, anchor_address, link_type, entry_address) == -1 {
        assert(!is_exact_live_match(m.links[k], anchor_address, link_type, entry_address));
        assert(false);
    }
}

/// The coherence invariant survives creating an entity: two fresh
/// entries and the singleton edge between them.  Queries on every
/// previously committed base are unchanged.
pub proof fn lemma_inv_after_create(
    m0: StoreModel,
    m1: StoreModel,
    anchor_entry: EntryData,
    first_entry: EntryData,
    link_type: LinkType,
    anchor_address: Address,
    version_address: Address,
)
    requires
        store_inv(m0),
        link_type == LinkType::CourseLatest || link_type == LinkType::SectionLatest,
        link_type == LinkType::CourseLatest ==> anchor_entry is CourseAnchor
            && first_entry is Course,
        link_type == LinkType::SectionLatest ==> anchor_entry is SectionAnchor
            && first_entry is Section,
        anchor_address == m0.entries.len(),
        version_address == m0.entries.len() + 1,
        m1.entries == m0.entries.push(anchor_entry).push(first_entry),
        m1.dead == m0.dead.push(false).push(false),
        m1.links == m0.links.push(live_link(anchor_address, link_type, version_address)),
    ensures
        store_inv(m1),
        m1.live(anchor_address),
        m1.live(version_address),
        link_targets(m1.links, anchor_address, link_type) == seq![version_address],
        forall|b: Address, t: LinkType| b < m0.entries.len()
            ==> #[trigger] link_targets(m1.links, b, t) == link_targets(m0.links, b, t),
{
    let l = live_link(anchor_address, link_type, version_address);
    assert forall|b: Address, t: LinkType| b < m0.entries.len()
        implies #[trigger] link_targets(m1.links, b, t) == link_targets(m0.links, b, t) by {
        lemma_link_targets_push(m0.links, l, b, t);
    }
    assert(forall|i: int| 0 <= i < m0.links.len()
        ==> !link_matches(#[trigger] m0.links[i], anchor_address, link_type));
    lemma_no_match_no_targets(m0.links, anchor_address, link_type);
    lemma_link_targets_push(m0.links, l, anchor_address, link_type);
    assert(link_targets(m1.links, anchor_address, link_type) =~= seq![version_address]);

    assert forall|a: int| 0 <= a < m1.entries.len() && !m1.dead[a]
        && (#[trigger] m1.entries[a]) is CourseAnchor
        implies link_targets(m1.links, a as Address, LinkType::CourseLatest).len() == 1 by {
        if a < m0.entries.len() {
            lemma_link_targets_push(m0.links, l, a as Address, LinkType::CourseLatest);
        } else if a == anchor_address as int {
            if link_type == LinkType::SectionLatest {
                assert(false);
            }
        } else {
            assert(a == version_address as int);
            assert(false);
        }
    }
    assert forall|a: int| 0 <= a < m1.entries.len() && !m1.dead[a]
        && (#[trigger] m1.entries[a]) is SectionAnchor
        implies link_targets(m1.links, a as Address, LinkType::SectionLatest).len() == 1 by {
        if a < m0.entries.len() {
            lemma_link_targets_push(m0.links, l, a as Address, LinkType::SectionLatest);
        } else if a == anchor_address as int {
            if link_type == LinkType::CourseLatest {
                assert(false);
            }
        } else {
            assert(a == version_address as int);
            assert(false);
        }
    }
    assert forall|i: int| 0 <= i < m1.links.len() && (#[trigger] m1.links[i]).live
        implies link_ok(m1, m1.links[i]) by {
        if i < m0.links.len() {
            assert(link_ok(m0, m0.links[i]));
        }
    }
}

/// The coherence invariant survives hanging a fresh course anchor off
/// the catalog.  Queries on every other (base, link type) pair are
/// unchanged.
pub proof fn lemma_inv_after_catalog_link(m0: StoreModel, m1: StoreModel, course_anchor_address: Address)
    requires
        store_inv(m0),
        course_anchor_address < m0.entries.len(),
        m0.entries[course_anchor_address as int] is CourseAnchor,
        m1.entries == m0.entries,
        m1.dead == m0.dead,
        m1.links == m0.links.push(live_link(0, LinkType::CatalogCourse, course_anchor_address)),
    ensures
        store_inv(m1),
        link_targets(m1.links, 0, LinkType::CatalogCourse) == link_targets(
            m0.links,
            0,
            LinkType::CatalogCourse,
        ).push(course_anchor_address),
        forall|b: Address, t: LinkType| !(b == 0 && t == LinkType::CatalogCourse)
            ==> #[trigger] link_targets(m1.links, b, t) == link_targets(m0.links, b, t),
{
    let l = live_link(0, LinkType::CatalogCourse, course_anchor_address);
    lemma_link_targets_push(m0.links, l, 0, LinkType::CatalogCourse);
    assert forall|b: Address, t: LinkType| !(b == 0 && t == LinkType::CatalogCourse)
        implies #[trigger] link_targets(m1.links, b, t) == link_targets(m0.links, b, t) by {
        lemma_link_targets_push(m0.links, l, b, t);
    }
    assert forall|a: int| 0 <= a < m1.entries.len() && !m1.dead[a]
        && (#[trigger] m1.entries[a]) is CourseAnchor
        implies link_targets(m1.links, a as Address, LinkType::CourseLatest).len() == 1 by {
        lemma_link_targets_push(m0.links, l, a as Address, LinkType::CourseLatest);
    }
    assert forall|a: int| 0 <= a < m1.entries.len() && !m1.dead[a]
        && (#[trigger] m1.entries[a]) is SectionAnchor
        implies link_targets(m1.links, a as Address, LinkType::SectionLatest).len() == 1 by {
        lemma_link_targets_push(m0.links, l, a as Address, LinkType::SectionLatest);
    }
    assert forall|i: int| 0 <= i < m1.links.len() && (#[trigger] m1.links[i]).live
        implies link_ok(m1, m1.links[i]) by {
        if i < m0.links.len() {
            assert(link_ok(m0, m0.links[i]));
        }
    }
}

/// The coherence invariant survives committing a snapshot or content
/// entry with no edge added yet (the first step of an update).  Queries
/// are untouched since the link index is.
pub proof fn lemma_inv_after_commit(m0: StoreModel, m1: StoreModel, entry: EntryData)
    requires
        store_inv(m0),
        entry is Course || entry is Section || entry is Content,
        m1.entries == m0.entries.push(entry),
        m1.dead == m0.dead.push(false),
        m1.links == m0.links,
    ensures
        store_inv(m1),
{
    assert forall|a: int| 0 <= a < m1.entries.len() && !m1.dead[a]
        && (#[trigger] m1.entries[a]) is CourseAnchor
        implies link_targets(m1.links, a as Address, LinkType::CourseLatest).len() == 1 by {
        assert(a < m0.entries.len());
    }
    assert forall|a: int| 0 <= a < m1.entries.len() && !m1.dead[a]
        && (#[trigger] m1.entries[a]) is SectionAnchor
        implies link_targets(m1.links, a as Address, LinkType::SectionLatest).len() == 1 by {
        assert(a < m0.entries.len());
    }
    assert forall|i: int| 0 <= i < m1.links.len() && (#[trigger] m1.links[i]).live
        implies link_ok(m1, m1.links[i]) by {
        assert(link_ok(m0, m0.links[i]));
    }
}

/// The coherence invariant survives swapping an anchor's latest-version
/// edge from the previous snapshot to a freshly committed one.  The
/// anchor's query now reports exactly the new snapshot; every other
/// query is unchanged.
pub proof fn lemma_inv_after_latest_swap(
    m0: StoreModel,
    m1: StoreModel,
    new_entry: EntryData,
    anchor_address: Address,
    link_type: LinkType,
    previous_address: Address,
    new_address: Address,
)
    requires
        store_inv(m0),
        link_type == LinkType::CourseLatest || link_type == LinkType::SectionLatest,
        link_type == LinkType::CourseLatest ==> m0.entries[anchor_address as int] is CourseAnchor
            && new_entry is Course,
        link_type == LinkType::SectionLatest ==> m0.entries[anchor_address as int] is SectionAnchor
            && new_entry is Section,
        anchor_address < m0.entries.len(),
        link_targets(m0.links, anchor_address, link_type) == seq![previous_address],
        first_live_match(m0.links, anchor_address, link_type, previous_address) >= 0,
        new_address == m0.entries.len(),
        m1.entries == m0.entries.push(new_entry),
        m1.dead == m0.dead.push(false),
        m1.links == m0.links.update(
            first_live_match(m0.links, anchor_address, link_type, previous_address),
            removed_link(anchor_address, link_type, previous_address),
        ).push(live_link(anchor_address, link_type, new_address)),
    ensures
        store_inv(m1),
        m1.live(new_address),
        link_targets(m1.links, anchor_address, link_type) == seq![new_address],
        forall|b: Address, t: LinkType| !(b == anchor_address && t == link_type)
            ==> #[trigger] link_targets(m1.links, b, t) == link_targets(m0.links, b, t),
{
    let i = first_live_match(m0.links, anchor_address, link_type, previous_address);
    lemma_first_live_match_props(m0.links, anchor_address, link_type, previous_address);
    assert(is_exact_live_match(m0.links[i], anchor_address, link_type, previous_address));
    let killed = m0.links.update(i, removed_link(anchor_address, link_type, previous_address));
    let added = live_link(anchor_address, link_type, new_address);
    assert(killed.subrange(0, i) =~= m0.links.subrange(0, i));
    assert(killed.subrange(i + 1, killed.len() as int)
        =~= m0.links.subrange(i + 1, m0.links.len() as int));

    // The anchor's own query: one element before, exactly the new one after.
    lemma_link_targets_decompose(m0.links, i, anchor_address, link_type);
    assert(matched_target(m0.links[i], anchor_address, link_type) =~= seq![previous_address]);
    assert(link_targets(m0.links.subrange(0, i), anchor_address, link_type).len() == 0);
    assert(link_targets(
        m0.links.subrange(i + 1, m0.links.len() as int),
        anchor_address,
        link_type,
    ).len() == 0);
    lemma_link_targets_decompose(killed, i, anchor_address, link_type);
    assert(link_targets(killed, anchor_address, link_type) =~= Seq::<Address>::empty());
    lemma_link_targets_push(killed, added, anchor_address, link_type);
    assert(link_targets(m1.links, anchor_address, link_type) =~= seq![new_address]);

    // Every other query is unchanged.
    assert forall|b: Address, t: LinkType| !(b == anchor_address && t == link_type)
        implies #[trigger] link_targets(m1.links, b, t) == link_targets(m0.links, b, t) by {
        lemma_link_targets_decompose(m0.links, i, b, t);
        lemma_link_targets_decompose(killed, i, b, t);
        assert(matched_target(m0.links[i], b, t) =~= Seq::<Address>::empty());
        assert(matched_target(killed[i], b, t) =~= Seq::<Address>::empty());
        assert(link_targets(killed, b, t) == link_targets(m0.links, b, t));
        lemma_link_targets_push(killed, added, b, t);
    }

    // Coherence.
    assert forall|a: int| 0 <= a < m1.entries.len() && !m1.dead[a]
        && (#[trigger] m1.entries[a]) is CourseAnchor
        implies link_targets(m1.links, a as Address, LinkType::CourseLatest).len() == 1 by {
        if a == anchor_address as int && link_type == LinkType::CourseLatest {
        } else {
            assert(a < m0.entries.len());
            assert(link_targets(m1.links, a as Address, LinkType::CourseLatest)
                == link_targets(m0.links, a as Address, LinkType::CourseLatest));
        }
    }
    assert forall|a: int| 0 <= a < m1.entries.len() && !m1.dead[a]
        && (#[trigger] m1.entries[a]) is SectionAnchor
        implies link_targets(m1.links, a as Address, LinkType::SectionLatest).len() == 1 by {
        if a == anchor_address as int && link_type == LinkType::SectionLatest {
        } else {
            assert(a < m0.entries.len());
            assert(link_targets(m1.links, a as Address, LinkType::SectionLatest)
                == link_targets(m0.links, a as Address, LinkType::SectionLatest));
        }
    }
    assert forall|j: int| 0 <= j < m1.links.len() && (#[trigger] m1.links[j]).live
        implies link_ok(m1, m1.links[j]) by {
        if j < m0.links.len() && j != i {
            assert(m1.links[j] == m0.links[j]);
            assert(link_ok(m0, m0.links[j]));
        }
    }
    assert forall|p: int, q: int| 0 <= p < q < m1.links.len()
        && (#[trigger] m1.links[p]).live && (#[trigger] m1.links[q]).live
        && m1.links[p].link_type == LinkType::SectionContent
        && m1.links[q].link_type == LinkType::SectionContent
        implies m1.links[p].target != m1.links[q].target by {
        assert(p != i && p < m0.links.len() ==> m1.links[p] == m0.links[p]);
        assert(q != i && q < m0.links.len() ==> m1.links[q] == m0.links[q]);
    }
}

/// The coherence invariant survives tombstoning a course or section
/// anchor.  Entries and edges are untouched: the entity merely stops
/// resolving.
pub proof fn lemma_inv_after_tombstone(m0: StoreModel, m1: StoreModel, address: Address)
    requires
        store_inv(m0),
        address < m0.entries.len(),
        m0.entries[address as int] is CourseAnchor || m0.entries[address as int] is SectionAnchor,
        m1.entries == m0.entries,
        m1.dead == m0.dead.update(address as int, true),
        m1.links == m0.links,
    ensures
        store_inv(m1),
        !m1.live(address),
        forall|x: Address| x != address ==> m1.live(x) == m0.live(x),
{
    assert forall|i: int| 0 <= i < m1.links.len() && (#[trigger] m1.links[i]).live
        implies link_ok(m1, m1.links[i]) by {
        assert(link_ok(m0, m0.links[i]));
    }
}

/// The coherence invariant survives linking a freshly committed content
/// entry under a section anchor.  The section's content query gains
/// exactly the new address; every other query is unchanged.
pub proof fn lemma_inv_after_content_link(
    m0: StoreModel,
    m1: StoreModel,
    section_anchor_address: Address,
    content_address: Address,
)
    requires
        store_inv(m0),
        section_anchor_address < m0.entries.len(),
        m0.entries[section_anchor_address as int] is SectionAnchor,
        content_address < m0.entries.len(),
        m0.entries[content_address as int] is Content,
        forall|j: int| 0 <= j < m0.links.len() && (#[trigger] m0.links[j]).live
            && m0.links[j].link_type == LinkType::SectionContent
            ==> m0.links[j].target != content_address,
        m1.entries == m0.entries,
        m1.dead == m0.dead,
        m1.links == m0.links.push(
            live_link(section_anchor_address, LinkType::SectionContent, content_address),
        ),
    ensures
        store_inv(m1),
        link_targets(m1.links, section_anchor_address, LinkType::SectionContent) == link_targets(
            m0.links,
            section_anchor_address,
            LinkType::SectionContent,
        ).push(content_address),
        forall|b: Address, t: LinkType| !(b == section_anchor_address && t
            == LinkType::SectionContent) ==> #[trigger] link_targets(m1.links, b, t)
            == link_targets(m0.links, b, t),
{
    let l = live_link(section_anchor_address, LinkType::SectionContent, content_address);
    lemma_link_targets_push(m0.links, l, section_anchor_address, LinkType::SectionContent);
    assert forall|b: Address, t: LinkType| !(b == section_anchor_address && t
        == LinkType::SectionContent)
        implies #[trigger] link_targets(m1.links, b, t) == link_targets(m0.links, b, t) by {
        lemma_link_targets_push(m0.links, l, b, t);
    }
    assert forall|a: int| 0 <= a < m1.entries.len() && !m1.dead[a]
        && (#[trigger] m1.entries[a]) is CourseAnchor
        implies link_targets(m1.links, a as Address, LinkType::CourseLatest).len() == 1 by {
        lemma_link_targets_push(m0.links, l, a as Address, LinkType::CourseLatest);
    }
    assert forall|a: int| 0 <= a < m1.entries.len() && !m1.dead[a]
        && (#[trigger] m1.entries[a]) is SectionAnchor
        implies link_targets(m1.links, a as Address, LinkType::SectionLatest).len() == 1 by {
        lemma_link_targets_push(m0.links, l, a as Address, LinkType::SectionLatest);
    }
    assert forall|i: int| 0 <= i < m1.links.len() && (#[trigger] m1.links[i]).live
        implies link_ok(m1, m1.links[i]) by {
        if i < m0.links.len() {
            assert(link_ok(m0, m0.links[i]));
        }
    }
}

/// The coherence invariant survives removing a section-to-content edge.
/// The content entry itself stays committed and live; only the
/// section's content query stops reporting it (and reports everything
/// else as before).
pub proof fn lemma_inv_after_content_unlink(
    m0: StoreModel,
    m1: StoreModel,
    section_anchor_address: Address,
    content_address: Address,
)
    requires
        store_inv(m0),
        first_live_match(
            m0.links,
            section_anchor_address,
            LinkType::SectionContent,
            content_address,
        ) >= 0,
        m1.entries == m0.entries,
        m1.dead == m0.dead,
        m1.links == m0.links.update(
            first_live_match(
                m0.links,
                section_anchor_address,
                LinkType::SectionContent,
                content_address,
            ),
            removed_link(section_anchor_address, LinkType::SectionContent, content_address),
        ),
    ensures
        store_inv(m1),
        !link_targets(m1.links, section_anchor_address, LinkType::SectionContent).contains(
            content_address,
        ),
        forall|t: Address| t != content_address
            ==> #[trigger] link_targets(m1.links, section_anchor_address, LinkType::SectionContent)
                .contains(t) == link_targets(
                m0.links,
                section_anchor_address,
                LinkType::SectionContent,
            ).contains(t),
        forall|b: Address, t: LinkType| !(b == section_anchor_address && t
            == LinkType::SectionContent) ==> #[trigger] link_targets(m1.links, b, t)
            == link_targets(m0.links, b, t),
{
    let sa = section_anchor_address;
    let sc = LinkType::SectionContent;
    let i = first_live_match(m0.links, sa, sc, content_address);
    lemma_first_live_match_props(m0.links, sa, sc, content_address);
    assert(is_exact_live_match(m0.links[i], sa, sc, content_address));
    assert(killed_eq_frames(m0, m1, i));
    let before = link_targets(m0.links.subrange(0, i), sa, sc);
    let after = link_targets(m0.links.subrange(i + 1, m0.links.len() as int), sa, sc);
    lemma_link_targets_decompose(m0.links, i, sa, sc);
    lemma_link_targets_decompose(m1.links, i, sa, sc);
    assert(matched_target(m0.links[i], sa, sc) =~= seq![content_address]);
    assert(matched_target(m1.links[i], sa, sc) =~= Seq::<Address>::empty());
    assert(link_targets(m0.links, sa, sc) =~= before + seq![content_address] + after);
    assert(link_targets(m1.links, sa, sc) =~= before + after);

    // Neither part reports the removed content: its edge was the only
    // live one with that target.
    if before.contains(content_address) {
        lemma_target_has_match(m0.links.subrange(0, i), sa, sc, content_address);
        let j = choose|j: int| 0 <= j < i
            && is_exact_live_match(#[trigger] m0.links.subrange(0, i)[j], sa, sc, content_address);
        assert(m0.links[j].target == m0.links[i].target);
        assert(false);
    }
    if after.contains(content_address) {
        lemma_target_has_match(
            m0.links.subrange(i + 1, m0.links.len() as int),
            sa,
            sc,
            content_address,
        );
        let j = choose|j: int| 0 <= j < m0.links.len() - i - 1
            && is_exact_live_match(
            #[trigger] m0.links.subrange(i + 1, m0.links.len() as int)[j],
            sa,
            sc,
            content_address,
        );
        assert(m0.links[i].target == m0.links[j + i + 1].target);
        assert(false);
    }
    assert forall|t: Address| t != content_address
        implies #[trigger] link_targets(m1.links, sa, sc).contains(t) == link_targets(
        m0.links,
        sa,
        sc,
    ).contains(t) by {
        let whole = before + seq![content_address] + after;
        let part = before + after;
        if whole.contains(t) {
            let k = choose|k: int| 0 <= k < whole.len() && whole[k] == t;
            if k < before.len() {
                assert(part[k] == t);
            } else {
                assert(k > before.len());
                assert(part[k - 1] == t);
            }
            assert(part.contains(t));
        }
        if part.contains(t) {
            let k = choose|k: int| 0 <= k < part.len() && part[k] == t;
            if k < before.len() {
                assert(whole[k] == t);
            } else {
                assert(whole[k + 1] == t);
            }
            assert(whole.contains(t));
        }
    }

    // Every other query is unchanged.
    assert forall|b: Address, t: LinkType| !(b == sa && t == sc)
        implies #[trigger] link_targets(m1.links, b, t) == link_targets(m0.links, b, t) by {
        lemma_link_targets_decompose(m0.links, i, b, t);
        lemma_link_targets_decompose(m1.links, i, b, t);
        assert(matched_target(m0.links[i], b, t) =~= Seq::<Address>::empty());
        assert(matched_target(m1.links[i], b, t) =~= Seq::<Address>::empty());
    }

    // Coherence.
    assert forall|a: int| 0 <= a < m1.entries.len() && !m1.dead[a]
        && (#[trigger] m1.entries[a]) is CourseAnchor
        implies link_targets(m1.links, a as Address, LinkType::CourseLatest).len() == 1 by {
        assert(link_targets(m1.links, a as Address, LinkType::CourseLatest)
            == link_targets(m0.links, a as Address, LinkType::CourseLatest));
    }
    assert forall|a: int| 0 <= a < m1.entries.len() && !m1.dead[a]
        && (#[trigger] m1.entries[a]) is SectionAnchor
        implies link_targets(m1.links, a as Address, LinkType::SectionLatest).len() == 1 by {
        assert(link_targets(m1.links, a as Address, LinkType::SectionLatest)
            == link_targets(m0.links, a as Address, LinkType::SectionLatest));
    }
    assert forall|j: int| 0 <= j < m1.links.len() && (#[trigger] m1.links[j]).live
        implies link_ok(m1, m1.links[j]) by {
        if j != i {
            assert(m1.links[j] == m0.links[j]);
            assert(link_ok(m0, m0.links[j]));
        }
    }
    assert forall|p: int, q: int| 0 <= p < q < m1.links.len()
        && (#[trigger] m1.links[p]).live && (#[trigger] m1.links[q]).live
        && m1.links[p].link_type == LinkType::SectionContent
        && m1.links[q].link_type == LinkType::SectionContent
        implies m1.links[p].target != m1.links[q].target by {
        assert(p != i ==> m1.links[p] == m0.links[p]);
        assert(q != i ==> m1.links[q] == m0.links[q]);
    }
}

/// After killing the edge at index `i`, the sequences agree on the
/// prefix before and the suffix after `i`.
spec fn killed_eq_frames(m0: StoreModel, m1: StoreModel, i: int) -> bool {
    &&& m1.links.subrange(0, i) =~= m0.links.subrange(0, i)
    &&& m1.links.subrange(i + 1, m1.links.len() as int) =~= m0.links.subrange(
        i + 1,
        m0.links.len() as int,
    )
}

} // verus!
