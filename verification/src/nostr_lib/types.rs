//! Marketplace data assembled from events.
use vstd::prelude::*;

use crate::event::{Event, PublicKey};

verus! {

/// A marketplace list: header event, items and metadata.
#[derive(Debug)]
pub struct MarketplaceList {
    pub header: Event,
    pub items: Vec<Event>,
    pub coordinate: String,
    pub name: String,
    pub plural_name: Option<String>,
    pub description: Option<String>,
    pub categories: Vec<String>,
    pub zap_count: u64,
    pub curator_pubkey: PublicKey,
    pub curator_profile: Option<ProfileMetadata>,
}

/// Curator profile metadata (kind 0). A field that is absent or not a string
/// in the profile JSON is `None`.
#[derive(Debug, Clone, PartialEq, Eq)]
pub struct ProfileMetadata {
    pub name: Option<String>,
    pub about: Option<String>,
    pub picture: Option<String>,
    pub nip05: Option<String>,
    pub lud16: Option<String>,
    pub display_name: Option<String>,
}

/// A bounty targeting a specific list. `expiry` is a UNIX timestamp.
#[derive(Debug)]
pub struct Bounty {
    pub event: Event,
    pub d_tag: String,
    pub target_list_coordinate: String,
    pub reward_sats: u64,
    pub criteria: String,
    pub expiry: Option<u64>,
    pub status: BountyStatus,
    pub creator_pubkey: PublicKey,
}

/// The state of a bounty.
#[derive(Debug, Clone, Copy, PartialEq, Eq)]
pub enum BountyStatus {
    Open,
    Fulfilled,
    Expired,
}

/// Links a list update event to a bounty it fulfills.
#[derive(Debug)]
pub struct BountyFulfillment {
    pub bounty_id: String,
    pub update_event_id: [u8; 32],
    pub updater_pubkey: PublicKey,
    pub zap_receipt_id: Option<[u8; 32]>,
}

} // verus!
