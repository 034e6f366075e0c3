//! Verified core of a Nostr list marketplace with Lightning and on-chain payments.
use vstd::prelude::*;

pub mod bdk;
pub mod cli;
pub mod dcosl;
pub mod event;
pub mod nostr_lib;
pub mod phoenixd;
pub mod text;
pub mod ui;

verus! {
} // verus!
