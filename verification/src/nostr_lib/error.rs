//! Errors of the marketplace's Nostr layer.
use vstd::prelude::*;

use crate::dcosl::error::{dcosl_error_message, DcoslError};
use crate::phoenixd::error::{phoenixd_error_message, PhoenixdError};

verus! {

/// Errors of the marketplace's Nostr layer. `Sdk` holds the client's error text.
#[derive(Debug, PartialEq, Eq)]
pub enum NostrLibError {
    RelayConnection { url: String },
    PublishFailed { reason: String },
    Protocol(DcoslError),
    Zap { reason: String },
    ProfileNotFound { pubkey: String },
    MissingLud16 { pubkey: String },
    Lnurl { reason: String },
    Phoenixd(PhoenixdError),
    Sdk(String),
}

/// The human-readable message of each error.
pub open spec fn nostr_error_message(e: NostrLibError) -> Seq<char> {
    match e {
        NostrLibError::RelayConnection { url } => "Relay connection failed: "@ + url@,
        NostrLibError::PublishFailed { reason } => "Event publish failed: "@ + reason@,
        NostrLibError::Protocol(p) => "Protocol error: "@ + dcosl_error_message(p),
        NostrLibError::Zap { reason } => "Zap error: "@ + reason@,
        NostrLibError::ProfileNotFound { pubkey } => "Profile not found for pubkey: "@ + pubkey@,
        NostrLibError::MissingLud16 { pubkey } => "Missing lud16 in profile for pubkey: "@ + pubkey@,
        NostrLibError::Lnurl { reason } => "LNURL error: "@ + reason@,
        NostrLibError::Phoenixd(p) => "PhoenixD error: "@ + phoenixd_error_message(p),
        NostrLibError::Sdk(m) => "Nostr SDK error: "@ + m@,
    }
}

impl NostrLibError {
    /// Human-readable description of the error.
    pub fn message(&self) -> (r: String)
        ensures
            r@ == nostr_error_message(*self),
    {
        let (prefix, detail) = match self {
            NostrLibError::RelayConnection { url } => ("Relay connection failed: ", url.clone()),
            NostrLibError::PublishFailed { reason } => ("Event publish failed: ", reason.clone()),
            NostrLibError::Protocol(p) => ("Protocol error: ", p.message()),
            NostrLibError::Zap { reason } => ("Zap error: ", reason.clone()),
            NostrLibError::ProfileNotFound { pubkey } => (
                "Profile not found for pubkey: ",
                pubkey.clone(),
            ),
            NostrLibError::MissingLud16 { pubkey } => (
                "Missing lud16 in profile for pubkey: ",
                pubkey.clone(),
            ),
            NostrLibError::Lnurl { reason } => ("LNURL error: ", reason.clone()),
            NostrLibError::Phoenixd(p) => ("PhoenixD error: ", p.message()),
            NostrLibError::Sdk(m) => ("Nostr SDK error: ", m.clone()),
        };
        let mut r = String::from_str(prefix);
        r.append(detail.as_str());
        r
    }
}

} // verus!
