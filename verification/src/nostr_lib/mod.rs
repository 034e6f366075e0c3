//! Marketplace logic on top of Nostr: filters, profiles, list assembly,
//! paged fetching and NIP-57 zap requests.
pub mod error;
pub mod filters;
pub mod profile;
pub mod service;
pub mod types;
pub mod zap;
