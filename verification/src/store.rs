//! Model of the content-addressed entry store and the typed link index.
//!
//! The substrate only supports appending immutable entries, each at a
//! fresh address, soft-tombstoning an address, and keeping typed
//! directed edges between addresses.  Nothing committed is ever mutated
//! or erased in place: deleting marks the address dead, and removing a
//! link marks the edge not live.  Addresses are opaque handles assigned
//! at commit time and never reused.
//!
//! One modeling divergence from the real substrate: there, an address
//! is a deterministic content hash, so committing identical content
//! twice yields the same address; here, every commit is assigned its
//! position in commit order, so identical payloads get distinct
//! addresses.  In particular, one content entry shared by several
//! sections never arises from this crate's operations — each creation
//! commits a fresh entry — although the edge model would represent it.
//!
//! Every edge of this design carries the empty tag, so edges are
//! modelled as `(base, link_type, target)` triples with a liveness flag;
//! queries return the targets of all live edges with the requested base
//! and link type, in the order the edges were added.

use vstd::prelude::*;

use crate::content::entry::Content;
use crate::course::{Course, CourseAnchor};
use crate::error::ZomeError;
use crate::section::anchor::SectionAnchor;
use crate::section::entry::Section;

verus! {

/// An opaque handle to a committed entry.
pub type Address = usize;

/// The link types used by the course hierarchy.
#[derive(Clone, Copy, Debug, PartialEq, Eq, Structural)]
pub enum LinkType {
    /// Singleton edge: course anchor -> current course snapshot.
    CourseLatest,
    /// Singleton edge: section anchor -> current section snapshot.
    SectionLatest,
    /// Multiset edge: section anchor -> content entry.
    SectionContent,
    /// Multiset edge: catalog anchor -> course anchor.
    CatalogCourse,
}

/// One typed directed edge between two addresses.
#[derive(Clone, Copy, Debug, PartialEq, Eq, Structural)]
pub struct Link {
    pub base: Address,
    pub link_type: LinkType,
    pub target: Address,
    /// Set to false when the edge is removed; removed edges stay in the
    /// index but are invisible to queries.
    pub live: bool,
}

/// Every kind of entry the course hierarchy commits.
pub enum EntryData {
    /// The well-known root anchor from which all course anchors hang.
    CatalogAnchor,
    CourseAnchor(CourseAnchor),
    Course(Course),
    SectionAnchor(SectionAnchor),
    Section(Section),
    Content(Content),
}

/// Full-information equivalence of entries.  It coincides with equality
/// except on course snapshots, whose section list is compared by its
/// contents.
pub open spec fn entry_eq(a: EntryData, b: EntryData) -> bool {
    match (a, b) {
        (EntryData::CatalogAnchor, EntryData::CatalogAnchor) => true,
        (EntryData::CourseAnchor(x), EntryData::CourseAnchor(y)) => x == y,
        (EntryData::Course(x), EntryData::Course(y)) => crate::course::course_like(x, y),
        (EntryData::SectionAnchor(x), EntryData::SectionAnchor(y)) => x == y,
        (EntryData::Section(x), EntryData::Section(y)) => x == y,
        (EntryData::Content(x), EntryData::Content(y)) => x == y,
        _ => false,
    }
}

impl Clone for EntryData {
    fn clone(&self) -> (other: Self)
        ensures
            entry_eq(other, *self),
    {
        match self {
            EntryData::CatalogAnchor => EntryData::CatalogAnchor,
            EntryData::CourseAnchor(a) => EntryData::CourseAnchor(a.clone()),
            EntryData::Course(c) => EntryData::Course(c.clone()),
            EntryData::SectionAnchor(a) => EntryData::SectionAnchor(a.clone()),
            EntryData::Section(s) => EntryData::Section(s.clone()),
            EntryData::Content(c) => EntryData::Content(c.clone()),
        }
    }
}

/// The mathematical state of the store: the committed entries in commit
/// order, the tombstone flag of each address, and every edge ever added.
#[verifier::ext_equal]
pub struct StoreModel {
    pub entries: Seq<EntryData>,
    pub dead: Seq<bool>,
    pub links: Seq<Link>,
}

impl StoreModel {
    /// One tombstone flag per committed entry.
    pub open spec fn wf(self) -> bool {
        self.dead.len() == self.entries.len()
    }

    /// An address resolves iff it was committed and not tombstoned.
    pub open spec fn live(self, a: Address) -> bool {
        a < self.entries.len() && !self.dead[a as int]
    }
}

/// Whether a live edge has the given base and link type.
pub open spec fn link_matches(l: Link, base: Address, link_type: LinkType) -> bool {
    l.live && l.base == base && l.link_type == link_type
}

/// The targets of all live edges with the given base and link type, in
/// the order the edges were added.
pub open spec fn link_targets(links: Seq<Link>, base: Address, link_type: LinkType) -> Seq<Address>
    decreases links.len(),
{
    if links.len() == 0 {
        Seq::empty()
    } else {
        let rest = link_targets(links.drop_last(), base, link_type);
        if link_matches(links.last(), base, link_type) {
            rest.push(links.last().target)
        } else {
            rest
        }
    }
}

/// The contribution of a single edge to a query: its target if it
/// matches, nothing otherwise.
pub open spec fn matched_target(l: Link, base: Address, link_type: LinkType) -> Seq<Address> {
    if link_matches(l, base, link_type) {
        seq![l.target]
    } else {
        Seq::empty()
    }
}

/// Whether a live edge is exactly the given triple.
pub open spec fn is_exact_live_match(l: Link, base: Address, link_type: LinkType, target: Address) -> bool {
    l.live && l.base == base && l.link_type == link_type && l.target == target
}

/// The index of the first live edge with exactly the given triple, or
/// -1 when there is none.
pub open spec fn first_live_match(links: Seq<Link>, base: Address, link_type: LinkType, target: Address) -> int
    decreases links.len(),
{
    if links.len() == 0 {
        -1
    } else if is_exact_live_match(links[0], base, link_type, target) {
        0
    } else {
        let rest = first_live_match(links.drop_first(), base, link_type, target);
        if rest < 0 {
            -1
        } else {
            rest + 1
        }
    }
}

/// The largest address in a sequence (0 if it is empty).  Because
/// addresses are assigned in commit order, the largest target of a set
/// of edges is the most recently committed one.
pub open spec fn seq_max(s: Seq<Address>) -> Address
    decreases s.len(),
{
    if s.len() == 0 {
        0
    } else if s.len() == 1 {
        s[0]
    } else if s.last() >= seq_max(s.drop_last()) {
        s.last()
    } else {
        seq_max(s.drop_last())
    }
}

/// A live edge, as `add` records it.
pub open spec fn live_link(base: Address, link_type: LinkType, target: Address) -> Link {
    Link { base, link_type, target, live: true }
}

/// A removed edge, as `remove` leaves it behind.
pub open spec fn removed_link(base: Address, link_type: LinkType, target: Address) -> Link {
    Link { base, link_type, target, live: false }
}

/// Appending an edge extends a matching query by its target and leaves
/// every other query unchanged.
pub proof fn lemma_link_targets_push(links: Seq<Link>, l: Link, base: Address, link_type: LinkType)
    ensures
        link_targets(links.push(l), base, link_type) == (if link_matches(l, base, link_type) {
            link_targets(links, base, link_type).push(l.target)
        } else {
            link_targets(links, base, link_type)
        }),
{
    assert(links.push(l).drop_last() =~= links);
    assert(links.push(l).last() == l);
}

/// A query splits around any index: the targets before it, the matched
/// target at it (if any), and the targets after it.
pub proof fn lemma_link_targets_decompose(links: Seq<Link>, i: int, base: Address, link_type: LinkType)
    requires
        0 <= i < links.len(),
    ensures
        link_targets(links, base, link_type) == link_targets(links.subrange(0, i), base, link_type)
            + matched_target(links[i], base, link_type)
            + link_targets(links.subrange(i + 1, links.len() as int), base, link_type),
    decreases links.len(),
{
    if i == links.len() - 1 {
        assert(links.subrange(0, i) =~= links.drop_last());
        assert(links.subrange(i + 1, links.len() as int) =~= Seq::<Link>::empty());
        assert(link_targets(Seq::<Link>::empty(), base, link_type) == Seq::<Address>::empty());
        if link_matches(links[i], base, link_type) {
            assert(link_targets(links, base, link_type) =~= link_targets(links.drop_last(), base, link_type)
                + matched_target(links[i], base, link_type) + Seq::<Address>::empty());
        } else {
            assert(link_targets(links, base, link_type) =~= link_targets(links.drop_last(), base, link_type)
                + matched_target(links[i], base, link_type) + Seq::<Address>::empty());
        }
    } else {
        let shorter = links.drop_last();
        lemma_link_targets_decompose(shorter, i, base, link_type);
        assert(links.subrange(0, i) =~= shorter.subrange(0, i));
        assert(shorter =~= links.subrange(0, links.len() - 1));
        assert(links.subrange(i + 1, links.len() as int)
            =~= shorter.subrange(i + 1, shorter.len() as int).push(links.last()));
        lemma_link_targets_push(shorter.subrange(i + 1, shorter.len() as int), links.last(), base, link_type);
        if link_matches(links.last(), base, link_type) {
            assert(link_targets(links, base, link_type)
                == link_targets(shorter, base, link_type).push(links.last().target));
            assert(link_targets(shorter, base, link_type).push(links.last().target)
                =~= link_targets(links.subrange(0, i), base, link_type)
                    + matched_target(links[i], base, link_type)
                    + link_targets(links.subrange(i + 1, links.len() as int), base, link_type));
        } else {
            assert(link_targets(links, base, link_type) == link_targets(shorter, base, link_type));
            assert(link_targets(shorter, base, link_type)
                =~= link_targets(links.subrange(0, i), base, link_type)
                    + matched_target(links[i], base, link_type)
                    + link_targets(links.subrange(i + 1, links.len() as int), base, link_type));
        }
    }
}

/// What `first_live_match` finds: -1 means no live edge has the triple;
/// a nonnegative result is the least index of such an edge.
pub proof fn lemma_first_live_match_props(links: Seq<Link>, base: Address, link_type: LinkType, target: Address)
    ensures
        first_live_match(links, base, link_type, target) == -1 ==> forall|j: int|
            0 <= j < links.len() ==> !is_exact_live_match(#[trigger] links[j], base, link_type, target),
        first_live_match(links, base, link_type, target) >= 0 ==> {
            let i = first_live_match(links, base, link_type, target);
            &&& i < links.len()
            &&& is_exact_live_match(links[i], base, link_type, target)
            &&& forall|j: int| 0 <= j < i ==> !is_exact_live_match(#[trigger] links[j], base, link_type, target)
        },
    decreases links.len(),
{
    if links.len() == 0 {
    } else if is_exact_live_match(links[0], base, link_type, target) {
    } else {
        lemma_first_live_match_props(links.drop_first(), base, link_type, target);
        let rest = first_live_match(links.drop_first(), base, link_type, target);
        if rest < 0 {
            assert(first_live_match(links, base, link_type, target) == -1);
            assert forall|j: int| 0 <= j < links.len()
                implies !is_exact_live_match(#[trigger] links[j], base, link_type, target) by {
                if j > 0 {
                    assert(links.drop_first()[j - 1] == links[j]);
                }
            }
        } else {
            let i = rest + 1;
            assert(first_live_match(links, base, link_type, target) == i);
            assert(links.drop_first()[rest] == links[i]);
            assert forall|j: int| 0 <= j < i
                implies !is_exact_live_match(#[trigger] links[j], base, link_type, target) by {
                if j > 0 {
                    assert(links.drop_first()[j - 1] == links[j]);
                }
            }
        }
    }
}

/// A target reported by a query comes from some live edge with exactly
/// that triple.
pub proof fn lemma_target_has_match(links: Seq<Link>, base: Address, link_type: LinkType, target: Address)
    requires
        link_targets(links, base, link_type).contains(target),
    ensures
        exists|j: int| 0 <= j < links.len()
            && is_exact_live_match(#[trigger] links[j], base, link_type, target),
    decreases links.len(),
{
    if links.len() == 0 {
    } else {
        let rest = link_targets(links.drop_last(), base, link_type);
        if link_matches(links.last(), base, link_type) && links.last().target == target {
            assert(is_exact_live_match(links[links.len() - 1], base, link_type, target));
        } else {
            assert(rest.contains(target));
            lemma_target_has_match(links.drop_last(), base, link_type, target);
            let j = choose|j: int| 0 <= j < links.drop_last().len()
                && is_exact_live_match(#[trigger] links.drop_last()[j], base, link_type, target);
            assert(is_exact_live_match(links[j], base, link_type, target));
        }
    }
}

/// A query on a base and link type no edge matches reports nothing.
pub proof fn lemma_no_match_no_targets(links: Seq<Link>, base: Address, link_type: LinkType)
    requires
        forall|i: int| 0 <= i < links.len() ==> !link_matches(#[trigger] links[i], base, link_type),
    ensures
        link_targets(links, base, link_type) == Seq::<Address>::empty(),
    decreases links.len(),
{
    if links.len() > 0 {
        assert(forall|i: int| 0 <= i < links.drop_last().len()
            ==> #[trigger] links.drop_last()[i] == links[i]);
        lemma_no_match_no_targets(links.drop_last(), base, link_type);
    }
}

/// The store: a growing vector of immutable entries (the address of an
/// entry is its position), a tombstone flag per address, and the link
/// index.
pub struct Store {
    entries: Vec<EntryData>,
    dead: Vec<bool>,
    links: Vec<Link>,
}

impl View for Store {
    type V = StoreModel;

    closed spec fn view(&self) -> StoreModel {
        StoreModel { entries: self.entries@, dead: self.dead@, links: self.links@ }
    }
}

impl Store {
    /// An empty store: nothing committed, no edges.
    pub fn new() -> (s: Store)
        ensures
            s@.entries == Seq::<EntryData>::empty(),
            s@.dead == Seq::<bool>::empty(),
            s@.links == Seq::<Link>::empty(),
    {
        Store { entries: Vec::new(), dead: Vec::new(), links: Vec::new() }
    }

    /// The number of entries ever committed; also the address the next
    /// commit will be assigned.
    pub fn entry_count(&self) -> (n: usize)
        ensures
            n == self@.entries.len(),
    {
        self.entries.len()
    }

    /// Appends an immutable entry and returns its fresh address.
    pub fn commit_entry(&mut self, entry: EntryData) -> (address: Address)
        requires
            old(self)@.wf(),
        ensures
            final(self)@.wf(),
            address == old(self)@.entries.len(),
            final(self)@.entries == old(self)@.entries.push(entry),
            final(self)@.dead == old(self)@.dead.push(false),
            final(self)@.links == old(self)@.links,
    {
        let address = self.entries.len();
        self.entries.push(entry);
        self.dead.push(false);
        address
    }

    /// Fetches the entry at an address; `None` iff the address was never
    /// committed or has been tombstoned.
    pub fn get_entry(&self, address: Address) -> (entry: Option<EntryData>)
        requires
            self@.wf(),
        ensures
            match entry {
                Some(e) => self@.live(address) && entry_eq(e, self@.entries[address as int]),
                None => !self@.live(address),
            },
    {
        if address < self.entries.len() && !self.dead[address] {
            Some(self.entries[address].clone())
        } else {
            None
        }
    }

    /// Commits a new entry as the successor of the one at
    /// `base_address`; fails iff that address does not resolve.
    pub fn update_entry(&mut self, entry: EntryData, base_address: Address) -> (r: Result<Address, ZomeError>)
        requires
            old(self)@.wf(),
        ensures
            final(self)@.wf(),
            match r {
                Ok(address) => {
                    &&& old(self)@.live(base_address)
                    &&& address == old(self)@.entries.len()
                    &&& final(self)@.entries == old(self)@.entries.push(entry)
                    &&& final(self)@.dead == old(self)@.dead.push(false)
                    &&& final(self)@.links == old(self)@.links
                },
                Err(e) => {
                    &&& e == ZomeError::EntryNotFound
                    &&& !old(self)@.live(base_address)
                    &&& final(self)@ == old(self)@
                },
            },
    {
        if base_address < self.entries.len() && !self.dead[base_address] {
            Ok(self.commit_entry(entry))
        } else {
            Err(ZomeError::EntryNotFound)
        }
    }

    /// Tombstones the entry at an address; the entry stays in storage
    /// but no longer resolves.  Fails iff the address does not resolve.
    pub fn remove_entry(&mut self, address: Address) -> (r: Result<Address, ZomeError>)
        requires
            old(self)@.wf(),
        ensures
            final(self)@.wf(),
            match r {
                Ok(a) => {
                    &&& a == address
                    &&& old(self)@.live(address)
                    &&& final(self)@.entries == old(self)@.entries
                    &&& final(self)@.dead == old(self)@.dead.update(address as int, true)
                    &&& final(self)@.links == old(self)@.links
                },
                Err(e) => {
                    &&& e == ZomeError::EntryNotFound
                    &&& !old(self)@.live(address)
                    &&& final(self)@ == old(self)@
                },
            },
    {
        if address < self.entries.len() && !self.dead[address] {
            self.dead.set(address, true);
            Ok(address)
        } else {
            Err(ZomeError::EntryNotFound)
        }
    }

    /// Records a live edge.  The index enforces no cardinality: callers
    /// keep the singleton discipline where a relation requires it.
    /// Fails iff an endpoint was never committed (a tombstoned endpoint
    /// is accepted: the index does not check liveness).
    pub fn link_entries(&mut self, base: Address, target: Address, link_type: LinkType) -> (r: Result<(), ZomeError>)
        requires
            old(self)@.wf(),
        ensures
            final(self)@.wf(),
            match r {
                Ok(()) => {
                    &&& base < old(self)@.entries.len()
                    &&& target < old(self)@.entries.len()
                    &&& final(self)@.entries == old(self)@.entries
                    &&& final(self)@.dead == old(self)@.dead
                    &&& final(self)@.links == old(self)@.links.push(live_link(base, link_type, target))
                },
                Err(e) => {
                    &&& e == ZomeError::EntryNotFound
                    &&& !(base < old(self)@.entries.len() && target < old(self)@.entries.len())
                    &&& final(self)@ == old(self)@
                },
            },
    {
        if base < self.entries.len() && target < self.entries.len() {
            self.links.push(Link { base, link_type, target, live: true });
            Ok(())
        } else {
            Err(ZomeError::EntryNotFound)
        }
    }

    /// Marks the first live edge with exactly this triple as removed;
    /// fails iff there is none.
    pub fn remove_link(&mut self, base: Address, target: Address, link_type: LinkType) -> (r: Result<(), ZomeError>)
        requires
            old(self)@.wf(),
        ensures
            final(self)@.wf(),
            match r {
                Ok(()) => {
                    let i = first_live_match(old(self)@.links, base, link_type, target);
                    &&& i >= 0
                    &&& final(self)@.entries == old(self)@.entries
                    &&& final(self)@.dead == old(self)@.dead
                    &&& final(self)@.links == old(self)@.links.update(i, removed_link(base, link_type, target))
                },
                Err(e) => {
                    &&& e == ZomeError::LinkNotFound
                    &&& first_live_match(old(self)@.links, base, link_type, target) == -1
                    &&& final(self)@ == old(self)@
                },
            },
    {
        let ghost links0 = old(self)@.links;
        let mut i: usize = 0;
        while i < self.links.len()
            invariant
                self@ == old(self)@,
                old(self)@.wf(),
                i <= links0.len(),
                links0 == old(self)@.links,
                forall|j: int| 0 <= j < i ==> !is_exact_live_match(#[trigger] links0[j], base, link_type, target),
            decreases self.links.len() - i,
        {
            let l = self.links[i];
            if l.live && l.base == base && l.target == target && l.link_type == link_type {
                proof {
                    lemma_first_live_match_props(links0, base, link_type, target);
                    assert(is_exact_live_match(links0[i as int], base, link_type, target));
                    // The least matching index is exactly i.
                    assert(first_live_match(links0, base, link_type, target) == i);
                }
                self.links.set(i, Link { base, link_type, target, live: false });
                return Ok(());
            }
            i = i + 1;
        }
        proof {
            lemma_first_live_match_props(links0, base, link_type, target);
        }
        Err(ZomeError::LinkNotFound)
    }

    /// Returns the targets of every live edge with this base and link
    /// type, in the order the edges were added.
    pub fn get_links(&self, base: Address, link_type: LinkType) -> (targets: Vec<Address>)
        ensures
            targets@ == link_targets(self@.links, base, link_type),
    {
        let mut targets: Vec<Address> = Vec::new();
        let mut i: usize = 0;
        while i < self.links.len()
            invariant
                i <= self@.links.len(),
                targets@ == link_targets(self@.links.subrange(0, i as int), base, link_type),
            decreases self.links.len() - i,
        {
            let l = self.links[i];
            proof {
                assert(self@.links.subrange(0, i + 1 as int).drop_last()
                    =~= self@.links.subrange(0, i as int));
                assert(self@.links.subrange(0, i + 1 as int).last() == self@.links[i as int]);
            }
            if l.live && l.base == base && l.link_type == link_type {
                targets.push(l.target);
            }
            i = i + 1;
        }
        proof {
            assert(self@.links.subrange(0, self@.links.len() as int) =~= self@.links);
        }
        targets
    }
}

} // verus!
