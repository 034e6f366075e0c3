//! On-chain wallet: where its files live, the descriptors derived from a
//! mnemonic, and the values it reports.
pub mod config;
pub mod error;
pub mod wallet;
