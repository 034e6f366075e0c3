//! The decisions of the marketplace client: paged fetching with
//! de-duplication, list assembly from a header and its items, and the events
//! it publishes.
use vstd::prelude::*;

use crate::dcosl::item::{build_item_tags, item_tags, opt_str_view, parse_coordinate_str, spec_parse_coordinate};
use crate::dcosl::query::{collect_tag_values, coordinate_of, event_to_json, list_fields, tag_values};
use crate::event::{
    strings_view, tags_view, Event, EventTemplate, PublicKey, KIND_HEADER, KIND_HEADER_REGULAR,
    KIND_ITEM,
};
use crate::dcosl::error::DcoslError;
use crate::nostr_lib::error::NostrLibError;
use crate::nostr_lib::filters::{header_filter, Filter, FilterView};
use crate::nostr_lib::types::{MarketplaceList, ProfileMetadata};
use crate::text::concat2;

verus! {

/// Number of events asked for per page.
pub const FETCH_PAGE_SIZE: usize = 500;

// ---------------------------------------------------------------------------
// Paged fetching
// ---------------------------------------------------------------------------

/// The ids of a list of events.
pub open spec fn event_ids(s: Seq<Event>) -> Seq<Seq<u8>> {
    Seq::new(s.len(), |i: int| s[i].id@)
}

/// `acc` followed by the events of `batch` whose id is not yet present, in
/// order.
pub open spec fn merge_new(acc: Seq<Event>, batch: Seq<Event>) -> Seq<Event>
    decreases batch.len(),
{
    if batch.len() == 0 {
        acc
    } else {
        let prev = merge_new(acc, batch.drop_last());
        if event_ids(prev).contains(batch.last().id@) {
            prev
        } else {
            prev.push(batch.last())
        }
    }
}

/// The oldest creation time in a batch (`u64::MAX` for an empty batch).
pub open spec fn oldest_created_at(batch: Seq<Event>) -> u64
    decreases batch.len(),
{
    if batch.len() == 0 {
        u64::MAX
    } else {
        let prev = oldest_created_at(batch.drop_last());
        if batch.last().created_at < prev {
            batch.last().created_at
        } else {
            prev
        }
    }
}

/// Whether another, older page should be fetched after a batch: the batch
/// was full, its oldest event is not at time zero, and the next bound differs
/// from the current one.
pub open spec fn wants_next_page(batch: Seq<Event>, until: Option<u64>) -> bool {
    let oldest = oldest_created_at(batch);
    batch.len() >= FETCH_PAGE_SIZE && oldest != 0 && until != Some((oldest - 1) as u64)
}

/// No two events share an id.
pub open spec fn distinct_ids(s: Seq<Event>) -> bool {
    forall|i: int, j: int| 0 <= i < j < s.len() ==> s[i].id@ != s[j].id@
}

/// The state of a paged fetch: the base filter, the events gathered so far
/// and the current upper bound on creation time.
pub struct EventPager {
    base: Filter,
    events: Vec<Event>,
    seen: Vec<[u8; 32]>,
    until: Option<u64>,
}

impl EventPager {
    /// The base filter.
    pub closed spec fn base_view(&self) -> FilterView {
        self.base@
    }

    /// The events gathered so far.
    pub closed spec fn gathered(&self) -> Seq<Event> {
        self.events@
    }

    /// The current upper bound on creation time.
    pub closed spec fn bound(&self) -> Option<u64> {
        self.until
    }

    /// The pager's own bookkeeping is consistent, and no id repeats.
    pub closed spec fn wf(&self) -> bool {
        &&& self.seen@.len() == self.events@.len()
        &&& forall|i: int| 0 <= i < self.seen@.len() ==> #[trigger] self.seen@[i]@ == self.events@[i].id@
        &&& distinct_ids(self.events@)
    }

    /// A fetch that has gathered nothing yet.
    pub fn new(base: Filter) -> (p: EventPager)
        ensures
            p.wf(),
            p.base_view() == base@,
            p.gathered() == Seq::<Event>::empty(),
            p.bound() is None,
    {
        EventPager { base, events: Vec::new(), seen: Vec::new(), until: None }
    }

    /// The filter of the next page: the base filter with the page size as
    /// limit and the current bound, if any.
    pub fn next_filter(&self) -> (f: Filter)
        ensures
            f@ == (FilterView {
                limit: Some(FETCH_PAGE_SIZE),
                until: match self.bound() {
                    Some(u) => Some(u),
                    None => self.base_view().until,
                },
                ..self.base_view()
            }),
    {
        let f = self.base.copy().limit(FETCH_PAGE_SIZE);
        match self.until {
            Some(u) => f.until(u),
            None => f,
        }
    }

    fn has_seen(&self, id: &[u8; 32]) -> (r: bool)
        requires
            self.wf(),
        ensures
            r == event_ids(self.events@).contains(id@),
    {
        let mut i: usize = 0;
        while i < self.seen.len()
            invariant
                self.wf(),
                i <= self.seen@.len(),
                forall|k: int| 0 <= k < i ==> self.seen@[k]@ != id@,
            decreases self.seen@.len() - i,
        {
            if bytes32_eq(&self.seen[i], id) {
                assert(event_ids(self.events@)[i as int] == id@);
                return true;
            }
            i = i + 1;
        }
        proof {
            if event_ids(self.events@).contains(id@) {
                let k = choose|k: int| 0 <= k < event_ids(self.events@).len() && event_ids(self.events@)[k] == id@;
                assert(self.seen@[k]@ == id@);
            }
        }
        false
    }

    /// Takes in a fetched batch: keeps the events whose id is new, and tells
    /// whether an older page should be fetched, moving the bound to just
    /// before the batch's oldest event when so.
    pub fn accept_batch(&mut self, batch: Vec<Event>) -> (more: bool)
        requires
            old(self).wf(),
        ensures
            final(self).wf(),
            final(self).base_view() == old(self).base_view(),
            final(self).gathered() == merge_new(old(self).gathered(), batch@),
            more == wants_next_page(batch@, old(self).bound()),
            more ==> final(self).bound() == Some((oldest_created_at(batch@) - 1) as u64),
            !more ==> final(self).bound() == old(self).bound(),
    {
        let ghost start = self.events@;
        let ghost whole = batch@;
        let n = batch.len();
        let mut batch = batch;
        let mut oldest: u64 = u64::MAX;
        let mut i: usize = 0;
        while i < n
            invariant
                self.wf(),
                self.base == old(self).base,
                self.until == old(self).until,
                n == whole.len(),
                i <= n,
                batch@ == whole.skip(i as int),
                self.events@ == merge_new(start, whole.take(i as int)),
                oldest == oldest_created_at(whole.take(i as int)),
            decreases n - i,
        {
            assert(whole.take(i + 1).drop_last() =~= whole.take(i as int));
            assert(batch@[0] == whole[i as int]);
            let e = batch.remove(0);
            assert(batch@ =~= whole.skip(i + 1));
            if e.created_at < oldest {
                oldest = e.created_at;
            }
            let id = e.id;
            if !self.has_seen(&id) {
                let ghost before = self.events@;
                self.events.push(e);
                self.seen.push(id);
                proof {
                    assert forall|a: int, b: int| 0 <= a < b < self.events@.len() implies self.events@[a].id@
                        != self.events@[b].id@ by {
                        if b == self.events@.len() - 1 {
                            assert(event_ids(before)[a] == self.events@[a].id@);
                        }
                    }
                }
            }
            i = i + 1;
        }
        assert(whole.take(n as int) =~= whole);
        let more = n > 0 && n >= FETCH_PAGE_SIZE && oldest != 0 && self.until != Some(oldest - 1);
        if more {
            self.until = Some(oldest - 1);
        }
        more
    }

    /// The events gathered, ending the fetch.
    pub fn into_events(self) -> (r: Vec<Event>)
        ensures
            r@ == self.gathered(),
    {
        self.events
    }
}

fn bytes32_eq(a: &[u8; 32], b: &[u8; 32]) -> (r: bool)
    ensures
        r == (a@ == b@),
{
    let mut i: usize = 0;
    while i < 32
        invariant
            i <= 32,
            a@.len() == 32,
            b@.len() == 32,
            forall|k: int| 0 <= k < i ==> a@[k] == b@[k],
        decreases 32 - i,
    {
        if a[i] != b[i] {
            return false;
        }
        i = i + 1;
    }
    assert(a@ =~= b@);
    true
}

/// A paged fetch never gathers two events with the same id.
pub proof fn lemma_pager_ids_distinct(p: EventPager)
    requires
        p.wf(),
    ensures
        distinct_ids(p.gathered()),
{
}

/// After taking in a batch, every event fetched so far, earlier or in the
/// batch, is represented by an event with its id, and nothing else was added.
pub proof fn lemma_merge_new_complete(acc: Seq<Event>, batch: Seq<Event>)
    ensures
        forall|i: int| 0 <= i < acc.len() ==> merge_new(acc, batch)[i] == acc[i],
        merge_new(acc, batch).len() >= acc.len(),
        forall|i: int| 0 <= i < batch.len() ==> event_ids(merge_new(acc, batch)).contains(
            #[trigger] batch[i].id@,
        ),
        forall|k: int| acc.len() <= k < merge_new(acc, batch).len() ==> batch.contains(
            #[trigger] merge_new(acc, batch)[k],
        ),
    decreases batch.len(),
{
    if batch.len() > 0 {
        let prev = merge_new(acc, batch.drop_last());
        lemma_merge_new_complete(acc, batch.drop_last());
        let m = merge_new(acc, batch);
        assert forall|i: int| 0 <= i < batch.len() implies event_ids(m).contains(
            #[trigger] batch[i].id@,
        ) by {
            if i < batch.len() - 1 {
                assert(batch.drop_last()[i] == batch[i]);
                let k = choose|k: int| 0 <= k < event_ids(prev).len() && event_ids(prev)[k] == batch[i].id@;
                assert(event_ids(m)[k] == batch[i].id@);
            } else if !event_ids(prev).contains(batch.last().id@) {
                assert(event_ids(m)[m.len() - 1] == batch[i].id@);
            }
        }
        assert forall|k: int| acc.len() <= k < m.len() implies batch.contains(#[trigger] m[k]) by {
            if k < prev.len() {
                assert(batch.drop_last().contains(prev[k]));
                let j = choose|j: int| 0 <= j < batch.drop_last().len() && batch.drop_last()[j] == prev[k];
                assert(batch[j] == prev[k]);
            } else {
                assert(m[k] == batch[batch.len() - 1]);
            }
        }
    }
}

// ---------------------------------------------------------------------------
// Lists
// ---------------------------------------------------------------------------

/// The query for the header a coordinate names, and the curator's key.
pub fn marketplace_header_query(coordinate: &str) -> (r: Result<(Filter, PublicKey), NostrLibError>)
    ensures
        match r {
            Ok((f, pk)) => spec_parse_coordinate(coordinate@) matches Some((kind, key, d)) && pk@
                == key && f@ == (FilterView {
                kinds: seq![kind],
                authors: seq![key],
                tags: seq![('d', d)],
                limit: Some(1),
                ..crate::nostr_lib::filters::empty_filter()
            }),
            Err(e) => spec_parse_coordinate(coordinate@) is None && (e matches NostrLibError::Protocol(
                DcoslError::InvalidCoordinate { input },
            ) && input@ == coordinate@),
        },
{
    match parse_coordinate_str(coordinate) {
        Ok((kind, pubkey, d_tag)) => Ok((header_filter(kind, pubkey, d_tag), pubkey)),
        Err(e) => Err(NostrLibError::Protocol(e)),
    }
}

/// The error when no header answers a coordinate.
pub fn header_not_found(coordinate: &str) -> (e: NostrLibError)
    ensures
        e matches NostrLibError::Sdk(m) && m@ == "Header not found for coordinate: "@ + coordinate@,
{
    NostrLibError::Sdk(concat2("Header not found for coordinate: ", coordinate))
}

/// The display name of a list when its header has none.
pub open spec fn unknown_name() -> Seq<char> {
    "Unknown"@
}

/// Assemble a marketplace list from its header, its items and the curator.
/// Name, plural name and description come from the header's tags (the name
/// defaults to "Unknown"), the categories are its `t` tags.
pub fn marketplace_list_from(
    coordinate: &str,
    header: Event,
    items: Vec<Event>,
    curator_pubkey: PublicKey,
    curator_profile: Option<ProfileMetadata>,
) -> (m: MarketplaceList)
    ensures
        m.header == header,
        m.items == items,
        m.coordinate@ == coordinate@,
        m.name@ == match list_fields(
            tags_view(header.tags@),
            coordinate_of(header.kind, header.pubkey@, seq![]),
        ).name {
            Some(n) => n,
            None => unknown_name(),
        },
        crate::dcosl::query::opt_view(m.plural_name) == list_fields(
            tags_view(header.tags@),
            coordinate_of(header.kind, header.pubkey@, seq![]),
        ).plural_name,
        crate::dcosl::query::opt_view(m.description) == list_fields(
            tags_view(header.tags@),
            coordinate_of(header.kind, header.pubkey@, seq![]),
        ).description,
        strings_view(m.categories@) == tag_values(tags_view(header.tags@), "t"@),
        m.zap_count == 0,
        m.curator_pubkey == curator_pubkey,
        m.curator_profile == curator_profile,
{
    let header_json = event_to_json(&header);
    let name = match header_json.name {
        Some(n) => n,
        None => String::from_str("Unknown"),
    };
    let categories = collect_tag_values(header.tags.as_slice(), "t");
    MarketplaceList {
        header,
        items,
        coordinate: String::from_str(coordinate),
        name,
        plural_name: header_json.plural_name,
        description: header_json.description,
        categories,
        zap_count: 0,
        curator_pubkey,
        curator_profile,
    }
}

// ---------------------------------------------------------------------------
// Publishing
// ---------------------------------------------------------------------------

/// The kind of a published header: addressable or regular.
pub fn header_kind(addressable: bool) -> (k: u16)
    ensures
        k == if addressable {
            KIND_HEADER
        } else {
            KIND_HEADER_REGULAR
        },
{
    if addressable {
        KIND_HEADER
    } else {
        KIND_HEADER_REGULAR
    }
}

/// The event that publishes a list item: an addressable item whose tags name
/// this client, with empty content when none is given.
pub fn item_event_template(
    parent_z_ref: &str,
    resource: &str,
    fields: &[String],
    content: Option<&str>,
    d_tag: Option<&str>,
) -> (t: EventTemplate)
    ensures
        t.kind == KIND_ITEM,
        t.content@ == match content {
            Some(c) => c@,
            None => seq![],
        },
        tags_view(t.tags@) == item_tags(
            parent_z_ref@,
            resource@,
            strings_view(fields@),
            opt_str_view(d_tag),
            Some("magic-carpet"@),
        ),
{
    let tags = build_item_tags(parent_z_ref, resource, fields, d_tag, Some("magic-carpet"));
    let content = match content {
        Some(c) => String::from_str(c),
        None => String::new(),
    };
    EventTemplate { kind: KIND_ITEM, content, tags }
}

/// The error when a published event cannot be read back.
pub fn published_event_missing() -> (e: NostrLibError)
    ensures
        e matches NostrLibError::PublishFailed { reason } && reason@
            == "Event published but not found on relay"@,
{
    NostrLibError::PublishFailed { reason: String::from_str("Event published but not found on relay") }
}

/// The error when a relay cannot be added.
pub fn relay_connection_error(url: &str) -> (e: NostrLibError)
    ensures
        e matches NostrLibError::RelayConnection { url: u } && u@ == url@,
{
    NostrLibError::RelayConnection { url: String::from_str(url) }
}

} // verus!
