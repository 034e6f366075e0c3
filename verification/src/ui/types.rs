//! What the screens show of lists, bounties and items.
use vstd::prelude::*;

verus! {

/// A list as shown on a card.
#[derive(Debug)]
pub struct ListDisplay {
    pub coordinate: String,
    pub name: String,
    pub description: String,
    pub categories: Vec<String>,
    pub item_count: usize,
    pub zap_count: u64,
    pub curator_name: String,
    pub curator_picture: Option<String>,
    pub curator_nip05: Option<String>,
}

/// A bounty as shown on a card.
#[derive(Debug)]
pub struct BountyDisplay {
    pub d_tag: String,
    pub target_list_name: String,
    pub target_list_coordinate: String,
    pub reward_sats: u64,
    pub criteria: String,
    pub status: BountyStatus,
    pub creator_name: String,
}

/// Where a bounty stands.
#[derive(Clone, Copy, Debug, PartialEq, Eq)]
pub enum BountyStatus {
    Open,
    Fulfilled,
    Expired,
}

/// A list item as shown in a list: its resource, text and `key=value`
/// fields.
#[derive(Debug)]
pub struct ItemDisplay {
    pub resource: String,
    pub content: String,
    pub fields: Vec<(String, String)>,
}

/// The two balances a wallet card can show.
#[derive(Clone, Copy, Debug, PartialEq, Eq)]
pub enum WalletVariant {
    Bitcoin,
    Lightning,
}

} // verus!
