//! The state the screens track.
use vstd::prelude::*;

verus! {

/// Marketplace view state: the search, the chosen category, and whether
/// lists are loading.
#[derive(Debug)]
pub struct MarketplaceState {
    pub search_query: String,
    pub selected_category: Option<String>,
    pub is_loading: bool,
}

/// Nostr connection state.
#[derive(Debug)]
pub struct NostrState {
    pub connected_relays: Vec<String>,
    pub is_connecting: bool,
    pub has_signer: bool,
    pub npub: Option<String>,
}

/// Wallet balances.
#[derive(Debug)]
pub struct WalletState {
    pub btc_balance_sats: u64,
    pub ln_balance_sats: u64,
    pub is_loading: bool,
}

impl Default for MarketplaceState {
    /// No search, no category, not loading.
    fn default() -> (s: MarketplaceState)
        ensures
            s.search_query@ == Seq::<char>::empty(),
            s.selected_category is None,
            !s.is_loading,
    {
        MarketplaceState { search_query: String::new(), selected_category: None, is_loading: false }
    }
}

impl Default for NostrState {
    /// No relay, not connecting, no signer, no key.
    fn default() -> (s: NostrState)
        ensures
            s.connected_relays@.len() == 0,
            !s.is_connecting,
            !s.has_signer,
            s.npub is None,
    {
        NostrState { connected_relays: Vec::new(), is_connecting: false, has_signer: false, npub: None }
    }
}

impl Default for WalletState {
    /// Empty balances, not loading.
    fn default() -> (s: WalletState)
        ensures
            s.btc_balance_sats == 0,
            s.ln_balance_sats == 0,
            !s.is_loading,
    {
        WalletState { btc_balance_sats: 0, ln_balance_sats: 0, is_loading: false }
    }
}

} // verus!
