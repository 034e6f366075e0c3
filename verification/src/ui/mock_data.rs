//! Sample data the screens show before a relay is connected.
use vstd::prelude::*;

use crate::dcosl::query::opt_view;
use crate::event::strings_view;
use crate::ui::state::{NostrState, WalletState};
use crate::ui::types::{BountyDisplay, BountyStatus, ItemDisplay, ListDisplay};

verus! {

/// `l` shows a list with these values and no curator picture.
pub open spec fn list_is(
    l: ListDisplay,
    coordinate: Seq<char>,
    name: Seq<char>,
    description: Seq<char>,
    categories: Seq<Seq<char>>,
    item_count: usize,
    zap_count: u64,
    curator_name: Seq<char>,
    curator_nip05: Option<Seq<char>>,
) -> bool {
    &&& l.coordinate@ == coordinate
    &&& l.name@ == name
    &&& l.description@ == description
    &&& strings_view(l.categories@) == categories
    &&& l.item_count == item_count
    &&& l.zap_count == zap_count
    &&& l.curator_name@ == curator_name
    &&& l.curator_picture is None
    &&& opt_view(l.curator_nip05) == curator_nip05
}

fn list(
    coordinate: &str,
    name: &str,
    description: &str,
    category_a: &str,
    category_b: &str,
    item_count: usize,
    zap_count: u64,
    curator_name: &str,
    curator_nip05: Option<&str>,
) -> (l: ListDisplay)
    ensures
        list_is(
            l,
            coordinate@,
            name@,
            description@,
            seq![category_a@, category_b@],
            item_count,
            zap_count,
            curator_name@,
            match curator_nip05 {
                Some(n) => Some(n@),
                None => None,
            },
        ),
{
    let categories = vec![String::from_str(category_a), String::from_str(category_b)];
    let l = ListDisplay {
        coordinate: String::from_str(coordinate),
        name: String::from_str(name),
        description: String::from_str(description),
        categories,
        item_count,
        zap_count,
        curator_name: String::from_str(curator_name),
        curator_picture: None,
        curator_nip05: match curator_nip05 {
            Some(n) => Some(String::from_str(n)),
            None => None,
        },
    };
    assert(strings_view(l.categories@) =~= seq![category_a@, category_b@]);
    l
}
/// The sample lists.
pub fn mock_lists() -> (r: Vec<ListDisplay>)
    ensures
        r@.len() == 6,
        list_is(
            r@[0],
            "30001:abc123:best-bitcoin-books"@,
            "Best Bitcoin Books"@,
            "Essential reading for understanding Bitcoin, from technical deep-dives to economic philosophy."@,
            seq!["Books"@, "Education"@],
            12,
            847,
            "Satoshi Reader"@,
            Some("reader@bitcoinbooks.com"@),
        ),
        list_is(
            r@[1],
            "30001:def456:lightning-wallets"@,
            "Lightning Wallets"@,
            "The best Lightning Network wallets ranked by usability, features, and sovereignty."@,
            seq!["Wallets"@, "Lightning"@],
            8,
            1203,
            "LN Explorer"@,
            Some("explorer@ln.tips"@),
        ),
        list_is(
            r@[2],
            "30001:ghi789:nostr-clients"@,
            "Nostr Clients"@,
            "A comprehensive guide to Nostr clients across all platforms — mobile, desktop, and web."@,
            seq!["Nostr"@, "Apps"@],
            15,
            2100,
            "Nostr Enthusiast"@,
            Some("fan@nostr.com"@),
        ),
        list_is(
            r@[3],
            "30001:jkl012:bitcoin-podcasts"@,
            "Bitcoin Podcasts"@,
            "Top podcasts covering Bitcoin technology, economics, and culture."@,
            seq!["Podcasts"@, "Media"@],
            10,
            523,
            "Pod Collector"@,
            None,
        ),
        list_is(
            r@[4],
            "30001:mno345:privacy-tools"@,
            "Privacy Tools"@,
            "Tools and services for protecting your privacy in the digital age."@,
            seq!["Privacy"@, "Security"@],
            7,
            341,
            "Privacy Max"@,
            Some("max@privacytools.io"@),
        ),
        list_is(
            r@[5],
            "30001:pqr678:dev-resources"@,
            "Bitcoin Dev Resources"@,
            "Libraries, frameworks, and learning resources for Bitcoin developers."@,
            seq!["Development"@, "Education"@],
            20,
            1580,
            "Dev Builder"@,
            Some("builder@devs.bitcoin"@),
        ),
{
    vec![
        list(
            "30001:abc123:best-bitcoin-books",
            "Best Bitcoin Books",
            "Essential reading for understanding Bitcoin, from technical deep-dives to economic philosophy.",
            "Books",
            "Education",
            12,
            847,
            "Satoshi Reader",
            Some("reader@bitcoinbooks.com"),
        ),
        list(
            "30001:def456:lightning-wallets",
            "Lightning Wallets",
            "The best Lightning Network wallets ranked by usability, features, and sovereignty.",
            "Wallets",
            "Lightning",
            8,
            1203,
            "LN Explorer",
            Some("explorer@ln.tips"),
        ),
        list(
            "30001:ghi789:nostr-clients",
            "Nostr Clients",
            "A comprehensive guide to Nostr clients across all platforms — mobile, desktop, and web.",
            "Nostr",
            "Apps",
            15,
            2100,
            "Nostr Enthusiast",
            Some("fan@nostr.com"),
        ),
        list(
            "30001:jkl012:bitcoin-podcasts",
            "Bitcoin Podcasts",
            "Top podcasts covering Bitcoin technology, economics, and culture.",
            "Podcasts",
            "Media",
            10,
            523,
            "Pod Collector",
            None,
        ),
        list(
            "30001:mno345:privacy-tools",
            "Privacy Tools",
            "Tools and services for protecting your privacy in the digital age.",
            "Privacy",
            "Security",
            7,
            341,
            "Privacy Max",
            Some("max@privacytools.io"),
        ),
        list(
            "30001:pqr678:dev-resources",
            "Bitcoin Dev Resources",
            "Libraries, frameworks, and learning resources for Bitcoin developers.",
            "Development",
            "Education",
            20,
            1580,
            "Dev Builder",
            Some("builder@devs.bitcoin"),
        ),
    ]
}

/// `b` shows a bounty with these values.
pub open spec fn bounty_is(
    b: BountyDisplay,
    d_tag: Seq<char>,
    target_list_name: Seq<char>,
    target_list_coordinate: Seq<char>,
    reward_sats: u64,
    criteria: Seq<char>,
    status: BountyStatus,
    creator_name: Seq<char>,
) -> bool {
    &&& b.d_tag@ == d_tag
    &&& b.target_list_name@ == target_list_name
    &&& b.target_list_coordinate@ == target_list_coordinate
    &&& b.reward_sats == reward_sats
    &&& b.criteria@ == criteria
    &&& b.status == status
    &&& b.creator_name@ == creator_name
}

fn bounty(
    d_tag: &str,
    target_list_name: &str,
    target_list_coordinate: &str,
    reward_sats: u64,
    criteria: &str,
    status: BountyStatus,
    creator_name: &str,
) -> (b: BountyDisplay)
    ensures
        bounty_is(
            b,
            d_tag@,
            target_list_name@,
            target_list_coordinate@,
            reward_sats,
            criteria@,
            status,
            creator_name@,
        ),
{
    BountyDisplay {
        d_tag: String::from_str(d_tag),
        target_list_name: String::from_str(target_list_name),
        target_list_coordinate: String::from_str(target_list_coordinate),
        reward_sats,
        criteria: String::from_str(criteria),
        status,
        creator_name: String::from_str(creator_name),
    }
}

/// The sample bounties.
pub fn mock_bounties() -> (r: Vec<BountyDisplay>)
    ensures
        r@.len() == 3,
        bounty_is(
            r@[0],
            "bounty-001"@,
            "Best Bitcoin Books"@,
            "30001:abc123:best-bitcoin-books"@,
            50000,
            "Add 3 books published in 2025 covering Bitcoin Layer 2 protocols"@,
            BountyStatus::Open,
            "Bookworm"@,
        ),
        bounty_is(
            r@[1],
            "bounty-002"@,
            "Nostr Clients"@,
            "30001:ghi789:nostr-clients"@,
            25000,
            "Review and rate all listed clients on NIP-44 support"@,
            BountyStatus::Open,
            "NIP Checker"@,
        ),
        bounty_is(
            r@[2],
            "bounty-003"@,
            "Privacy Tools"@,
            "30001:mno345:privacy-tools"@,
            100000,
            "Add Tor-based tools and verify each tool's open-source status"@,
            BountyStatus::Fulfilled,
            "Privacy Max"@,
        ),
{
    vec![
        bounty(
            "bounty-001",
            "Best Bitcoin Books",
            "30001:abc123:best-bitcoin-books",
            50000,
            "Add 3 books published in 2025 covering Bitcoin Layer 2 protocols",
            BountyStatus::Open,
            "Bookworm",
        ),
        bounty(
            "bounty-002",
            "Nostr Clients",
            "30001:ghi789:nostr-clients",
            25000,
            "Review and rate all listed clients on NIP-44 support",
            BountyStatus::Open,
            "NIP Checker",
        ),
        bounty(
            "bounty-003",
            "Privacy Tools",
            "30001:mno345:privacy-tools",
            100000,
            "Add Tor-based tools and verify each tool's open-source status",
            BountyStatus::Fulfilled,
            "Privacy Max",
        ),
    ]
}

/// The views of `key`/`value` pairs.
pub open spec fn pairs_view(v: Seq<(String, String)>) -> Seq<(Seq<char>, Seq<char>)> {
    Seq::new(v.len(), |i: int| (v[i].0@, v[i].1@))
}

/// `i` shows an item with these values.
pub open spec fn item_is(
    i: ItemDisplay,
    resource: Seq<char>,
    content: Seq<char>,
    fields: Seq<(Seq<char>, Seq<char>)>,
) -> bool {
    &&& i.resource@ == resource
    &&& i.content@ == content
    &&& pairs_view(i.fields@) == fields
}

fn book(resource: &str, content: &str, author: &str, year: &str, rating: &str) -> (i: ItemDisplay)
    ensures
        item_is(
            i,
            resource@,
            content@,
            seq![("Author"@, author@), ("Year"@, year@), ("Rating"@, rating@)],
        ),
{
    let fields = vec![
        (String::from_str("Author"), String::from_str(author)),
        (String::from_str("Year"), String::from_str(year)),
        (String::from_str("Rating"), String::from_str(rating)),
    ];
    let i = ItemDisplay {
        resource: String::from_str(resource),
        content: String::from_str(content),
        fields,
    };
    assert(pairs_view(i.fields@) =~= seq![
        ("Author"@, author@),
        ("Year"@, year@),
        ("Rating"@, rating@),
    ]);
    i
}

/// The sample items.
pub fn mock_items() -> (r: Vec<ItemDisplay>)
    ensures
        r@.len() == 4,
        item_is(
            r@[0],
            "https://www.amazon.com/Bitcoin-Standard-Decentralized-Alternative-Central/dp/1119473861"@,
            "The foundational text on Bitcoin's economic significance. Saifedean Ammous makes the case for Bitcoin as sound money."@,
            seq![("Author"@, "Saifedean Ammous"@), ("Year"@, "2018"@), ("Rating"@, "5/5"@)],
        ),
        item_is(
            r@[1],
            "https://www.amazon.com/Mastering-Bitcoin-Programming-Open-Blockchain/dp/1491954388"@,
            "The technical bible for Bitcoin developers. Covers everything from keys to mining to the protocol."@,
            seq![("Author"@, "Andreas M. Antonopoulos"@), ("Year"@, "2017"@), ("Rating"@, "5/5"@)],
        ),
        item_is(
            r@[2],
            "https://www.amazon.com/Broken-Money-Financial-System-Failing/dp/B0CG8837J5"@,
            "A deep exploration of monetary history and how Bitcoin fits into the evolution of money."@,
            seq![("Author"@, "Lyn Alden"@), ("Year"@, "2023"@), ("Rating"@, "4.5/5"@)],
        ),
        item_is(
            r@[3],
            "https://www.amazon.com/Sovereign-Individual-Mastering-Transition-Information/dp/0684832720"@,
            "Prescient predictions about the impact of digital technology on society and economics."@,
            seq![("Author"@, "James Dale Davidson"@), ("Year"@, "1999"@), ("Rating"@, "4/5"@)],
        ),
{
    vec![
        book(
            "https://www.amazon.com/Bitcoin-Standard-Decentralized-Alternative-Central/dp/1119473861",
            "The foundational text on Bitcoin's economic significance. Saifedean Ammous makes the case for Bitcoin as sound money.",
            "Saifedean Ammous",
            "2018",
            "5/5",
        ),
        book(
            "https://www.amazon.com/Mastering-Bitcoin-Programming-Open-Blockchain/dp/1491954388",
            "The technical bible for Bitcoin developers. Covers everything from keys to mining to the protocol.",
            "Andreas M. Antonopoulos",
            "2017",
            "5/5",
        ),
        book(
            "https://www.amazon.com/Broken-Money-Financial-System-Failing/dp/B0CG8837J5",
            "A deep exploration of monetary history and how Bitcoin fits into the evolution of money.",
            "Lyn Alden",
            "2023",
            "4.5/5",
        ),
        book(
            "https://www.amazon.com/Sovereign-Individual-Mastering-Transition-Information/dp/0684832720",
            "Prescient predictions about the impact of digital technology on society and economics.",
            "James Dale Davidson",
            "1999",
            "4/5",
        ),
    ]
}

/// The sample Nostr connection: three relays, a signer and its key.
pub fn nostr_state() -> (s: NostrState)
    ensures
        strings_view(s.connected_relays@) == seq!["wss://relay.damus.io"@, "wss://nos.lol"@, "wss://relay.nostr.band"@],
        !s.is_connecting,
        s.has_signer,
        opt_view(s.npub) == Some("npub1a2b3c4d5e6f7890abcdef1234567890abcdef1234567890abcdef12345678"@),
{
    let s = NostrState {
        connected_relays: vec![String::from_str("wss://relay.damus.io"), String::from_str("wss://nos.lol"), String::from_str("wss://relay.nostr.band")],
        is_connecting: false,
        has_signer: true,
        npub: Some(String::from_str("npub1a2b3c4d5e6f7890abcdef1234567890abcdef1234567890abcdef12345678")),
    };
    assert(strings_view(s.connected_relays@) =~= seq!["wss://relay.damus.io"@, "wss://nos.lol"@, "wss://relay.nostr.band"@]);
    s
}

/// The sample balances.
pub fn wallet_state() -> (s: WalletState)
    ensures
        s.btc_balance_sats == 1_250_000,
        s.ln_balance_sats == 350_000,
        !s.is_loading,
{
    WalletState { btc_balance_sats: 1_250_000, ln_balance_sats: 350_000, is_loading: false }
}

} // verus!
