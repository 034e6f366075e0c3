//! Decentralized curated sorted lists: coordinates, item tags and queries.
pub mod error;
pub mod item;
pub mod query;
