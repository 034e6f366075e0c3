//! Relay subscription filters the marketplace asks for.
use vstd::prelude::*;

use crate::event::{
    PublicKey, KIND_BOUNTY, KIND_HEADER, KIND_HEADER_REGULAR, KIND_ITEM, KIND_ITEM_REGULAR,
    KIND_METADATA, KIND_RELAY_LIST, KIND_ZAP_RECEIPT,
};
use crate::text::hex_encode;

verus! {

/// A relay filter: events must match every field that is set. `tags` holds
/// single-letter tag conditions `(letter, value)`.
#[derive(Debug)]
pub struct Filter {
    pub ids: Vec<[u8; 32]>,
    pub authors: Vec<PublicKey>,
    pub kinds: Vec<u16>,
    pub tags: Vec<(char, String)>,
    pub until: Option<u64>,
    pub limit: Option<usize>,
}

/// The view of a filter.
#[verifier::ext_equal]
pub struct FilterView {
    pub ids: Seq<Seq<u8>>,
    pub authors: Seq<Seq<u8>>,
    pub kinds: Seq<u16>,
    pub tags: Seq<(char, Seq<char>)>,
    pub until: Option<u64>,
    pub limit: Option<usize>,
}

impl View for Filter {
    type V = FilterView;

    open spec fn view(&self) -> FilterView {
        FilterView {
            ids: Seq::new(self.ids@.len(), |i: int| self.ids@[i]@),
            authors: Seq::new(self.authors@.len(), |i: int| self.authors@[i]@),
            kinds: self.kinds@,
            tags: Seq::new(self.tags@.len(), |i: int| (self.tags@[i].0, self.tags@[i].1@)),
            until: self.until,
            limit: self.limit,
        }
    }
}

/// A filter with no condition.
pub open spec fn empty_filter() -> FilterView {
    FilterView {
        ids: seq![],
        authors: seq![],
        kinds: seq![],
        tags: seq![],
        until: None,
        limit: None,
    }
}

impl Filter {
    /// A filter with no condition.
    pub fn new() -> (f: Filter)
        ensures
            f@ == empty_filter(),
    {
        let f = Filter {
            ids: Vec::new(),
            authors: Vec::new(),
            kinds: Vec::new(),
            tags: Vec::new(),
            until: None,
            limit: None,
        };
        assert(f@ =~= empty_filter());
        f
    }

    /// A filter with the same conditions.
    pub fn copy(&self) -> (f: Filter)
        ensures
            f@ == self@,
    {
        let mut ids: Vec<[u8; 32]> = Vec::new();
        let mut i: usize = 0;
        while i < self.ids.len()
            invariant
                i <= self.ids@.len(),
                ids@.len() == i,
                forall|k: int| 0 <= k < i ==> #[trigger] ids@[k] == self.ids@[k],
            decreases self.ids@.len() - i,
        {
            ids.push(self.ids[i]);
            i = i + 1;
        }
        let mut authors: Vec<PublicKey> = Vec::new();
        let mut i: usize = 0;
        while i < self.authors.len()
            invariant
                i <= self.authors@.len(),
                authors@.len() == i,
                forall|k: int| 0 <= k < i ==> #[trigger] authors@[k] == self.authors@[k],
            decreases self.authors@.len() - i,
        {
            authors.push(self.authors[i]);
            i = i + 1;
        }
        let mut kinds: Vec<u16> = Vec::new();
        let mut i: usize = 0;
        while i < self.kinds.len()
            invariant
                i <= self.kinds@.len(),
                kinds@.len() == i,
                forall|k: int| 0 <= k < i ==> #[trigger] kinds@[k] == self.kinds@[k],
            decreases self.kinds@.len() - i,
        {
            kinds.push(self.kinds[i]);
            i = i + 1;
        }
        let mut tags: Vec<(char, String)> = Vec::new();
        let mut i: usize = 0;
        while i < self.tags.len()
            invariant
                i <= self.tags@.len(),
                tags@.len() == i,
                forall|k: int|
                    0 <= k < i ==> (#[trigger] tags@[k]).0 == self.tags@[k].0 && tags@[k].1@
                        == self.tags@[k].1@,
            decreases self.tags@.len() - i,
        {
            let letter = self.tags[i].0;
            let value = String::from_str(self.tags[i].1.as_str());
            tags.push((letter, value));
            i = i + 1;
        }
        let f = Filter { ids, authors, kinds, tags, until: self.until, limit: self.limit };
        assert(f@.ids =~= self@.ids);
        assert(f@.authors =~= self@.authors);
        assert(f@.kinds =~= self@.kinds);
        assert(f@.tags =~= self@.tags);
        f
    }

    /// Adds a kind.
    pub fn kind(self, k: u16) -> (f: Filter)
        ensures
            f@ == (FilterView { kinds: self@.kinds.push(k), ..self@ }),
    {
        let mut f = self;
        f.kinds.push(k);
        assert(f@ =~= FilterView { kinds: self@.kinds.push(k), ..self@ });
        f
    }

    /// Adds an author.
    pub fn author(self, pk: PublicKey) -> (f: Filter)
        ensures
            f@ == (FilterView { authors: self@.authors.push(pk@), ..self@ }),
    {
        let mut f = self;
        f.authors.push(pk);
        assert(f@.authors =~= self@.authors.push(pk@));
        assert(f@ =~= FilterView { authors: self@.authors.push(pk@), ..self@ });
        f
    }

    /// Adds an event id.
    pub fn id(self, id: [u8; 32]) -> (f: Filter)
        ensures
            f@ == (FilterView { ids: self@.ids.push(id@), ..self@ }),
    {
        let mut f = self;
        f.ids.push(id);
        assert(f@.ids =~= self@.ids.push(id@));
        assert(f@ =~= FilterView { ids: self@.ids.push(id@), ..self@ });
        f
    }

    /// Adds a single-letter tag condition.
    pub fn custom_tag(self, letter: char, value: String) -> (f: Filter)
        ensures
            f@ == (FilterView { tags: self@.tags.push((letter, value@)), ..self@ }),
    {
        let mut f = self;
        let ghost v = value@;
        f.tags.push((letter, value));
        assert(f@.tags =~= self@.tags.push((letter, v)));
        assert(f@ =~= FilterView { tags: self@.tags.push((letter, v)), ..self@ });
        f
    }

    /// Adds a hashtag (`t` tag) condition.
    pub fn hashtag(self, t: &str) -> (f: Filter)
        ensures
            f@ == (FilterView { tags: self@.tags.push(('t', t@)), ..self@ }),
    {
        self.custom_tag('t', String::from_str(t))
    }

    /// Adds a tagged-key (`p` tag) condition.
    pub fn pubkey(self, pk: PublicKey) -> (f: Filter)
        ensures
            f@ == (FilterView { tags: self@.tags.push(('p', hex_encode(pk@))), ..self@ }),
    {
        self.custom_tag('p', pk.to_hex())
    }

    /// Sets the limit.
    pub fn limit(self, n: usize) -> (f: Filter)
        ensures
            f@ == (FilterView { limit: Some(n), ..self@ }),
    {
        let mut f = self;
        f.limit = Some(n);
        f
    }

    /// Sets the upper bound on creation time.
    pub fn until(self, secs: u64) -> (f: Filter)
        ensures
            f@ == (FilterView { until: Some(secs), ..self@ }),
    {
        let mut f = self;
        f.until = Some(secs);
        f
    }
}

/// Build a filter for list headers (regular and addressable), optionally by
/// author and hashtag.
pub fn list_headers_filter(author: Option<PublicKey>, hashtag: Option<&str>) -> (f: Filter)
    ensures
        f@ == (FilterView {
            kinds: seq![KIND_HEADER_REGULAR, KIND_HEADER],
            authors: match author {
                Some(pk) => seq![pk@],
                None => seq![],
            },
            tags: match hashtag {
                Some(t) => seq![('t', t@)],
                None => seq![],
            },
            ..empty_filter()
        }),
{
    let mut filter = Filter::new().kind(KIND_HEADER_REGULAR).kind(KIND_HEADER);
    if let Some(pk) = author {
        filter = filter.author(pk);
    }
    if let Some(t) = hashtag {
        filter = filter.hashtag(t);
    }
    assert(filter@.kinds =~= seq![KIND_HEADER_REGULAR, KIND_HEADER]);
    assert(filter@.authors =~= match author {
        Some(pk) => seq![pk@],
        None => Seq::<Seq<u8>>::empty(),
    });
    assert(filter@.tags =~= match hashtag {
        Some(t) => seq![('t', t@)],
        None => Seq::<(char, Seq<char>)>::empty(),
    });
    filter
}

/// Build a filter for list items referring to a parent (`z` tag).
pub fn list_items_filter(z_ref: &str) -> (f: Filter)
    ensures
        f@ == (FilterView {
            kinds: seq![KIND_ITEM_REGULAR, KIND_ITEM],
            tags: seq![('z', z_ref@)],
            ..empty_filter()
        }),
{
    let f = Filter::new().kind(KIND_ITEM_REGULAR).kind(KIND_ITEM).custom_tag('z', String::from_str(z_ref));
    assert(f@.kinds =~= seq![KIND_ITEM_REGULAR, KIND_ITEM]);
    assert(f@.tags =~= seq![('z', z_ref@)]);
    f
}

/// Build a filter for bounties, optionally those targeting a list (`a` tag).
pub fn bounties_filter(target_coordinate: Option<&str>) -> (f: Filter)
    ensures
        f@ == (FilterView {
            kinds: seq![KIND_BOUNTY],
            tags: seq![('t', "bounty"@)] + match target_coordinate {
                Some(c) => seq![('a', c@)],
                None => seq![],
            },
            ..empty_filter()
        }),
{
    let mut filter = Filter::new().kind(KIND_BOUNTY).hashtag("bounty");
    if let Some(coord) = target_coordinate {
        filter = filter.custom_tag('a', String::from_str(coord));
    }
    assert(filter@.kinds =~= seq![KIND_BOUNTY]);
    assert(filter@.tags =~= seq![('t', "bounty"@)] + match target_coordinate {
        Some(c) => seq![('a', c@)],
        None => Seq::<(char, Seq<char>)>::empty(),
    });
    filter
}

/// Build a filter for zap receipts to a key.
pub fn zap_receipts_filter(target_pubkey: PublicKey) -> (f: Filter)
    ensures
        f@ == (FilterView {
            kinds: seq![KIND_ZAP_RECEIPT],
            tags: seq![('p', hex_encode(target_pubkey@))],
            ..empty_filter()
        }),
{
    let f = Filter::new().kind(KIND_ZAP_RECEIPT).pubkey(target_pubkey);
    assert(f@.kinds =~= seq![KIND_ZAP_RECEIPT]);
    assert(f@.tags =~= seq![('p', hex_encode(target_pubkey@))]);
    f
}

/// Build a filter for the latest profile metadata of a key.
pub fn profile_filter(pubkey: PublicKey) -> (f: Filter)
    ensures
        f@ == (FilterView {
            kinds: seq![KIND_METADATA],
            authors: seq![pubkey@],
            limit: Some(1),
            ..empty_filter()
        }),
{
    let f = Filter::new().kind(KIND_METADATA).author(pubkey).limit(1);
    assert(f@.kinds =~= seq![KIND_METADATA]);
    assert(f@.authors =~= seq![pubkey@]);
    f
}

/// Build a filter for the latest relay list of a key.
pub fn relay_list_filter(pubkey: PublicKey) -> (f: Filter)
    ensures
        f@ == (FilterView {
            kinds: seq![KIND_RELAY_LIST],
            authors: seq![pubkey@],
            limit: Some(1),
            ..empty_filter()
        }),
{
    let f = Filter::new().kind(KIND_RELAY_LIST).author(pubkey).limit(1);
    assert(f@.kinds =~= seq![KIND_RELAY_LIST]);
    assert(f@.authors =~= seq![pubkey@]);
    f
}

/// Build a filter for the header a coordinate names.
pub fn header_filter(kind: u16, pubkey: PublicKey, d_tag: String) -> (f: Filter)
    ensures
        f@ == (FilterView {
            kinds: seq![kind],
            authors: seq![pubkey@],
            tags: seq![('d', d_tag@)],
            limit: Some(1),
            ..empty_filter()
        }),
{
    let ghost d = d_tag@;
    let f = Filter::new().kind(kind).author(pubkey).custom_tag('d', d_tag).limit(1);
    assert(f@.kinds =~= seq![kind]);
    assert(f@.authors =~= seq![pubkey@]);
    assert(f@.tags =~= seq![('d', d)]);
    f
}

/// Build a filter for one event by id.
pub fn event_id_filter(id: [u8; 32]) -> (f: Filter)
    ensures
        f@ == (FilterView { ids: seq![id@], limit: Some(1), ..empty_filter() }),
{
    let f = Filter::new().id(id).limit(1);
    assert(f@.ids =~= seq![id@]);
    f
}

} // verus!
