//! Protocol-level errors for list operations.
use vstd::prelude::*;

verus! {

/// Protocol-level errors: data validation issues, not network or CLI errors.
#[derive(Debug, PartialEq, Eq)]
pub enum DcoslError {
    InvalidCoordinate { input: String },
    HeaderMissingDTag,
    InvalidEventId { id: String },
    InvalidPubkey { pubkey: String },
}

/// The machine-readable code of each error.
pub open spec fn dcosl_error_code(e: DcoslError) -> Seq<char> {
    match e {
        DcoslError::InvalidCoordinate { .. } => "INVALID_COORDINATE"@,
        DcoslError::HeaderMissingDTag => "HEADER_MISSING_D_TAG"@,
        DcoslError::InvalidEventId { .. } => "INVALID_EVENT_ID"@,
        DcoslError::InvalidPubkey { .. } => "INVALID_PUBKEY"@,
    }
}

/// The human-readable message of each error.
pub open spec fn dcosl_error_message(e: DcoslError) -> Seq<char> {
    match e {
        DcoslError::InvalidCoordinate { input } => "Invalid coordinate format: "@ + input@
            + " \u{2014} expected kind:pubkey:d-tag"@,
        DcoslError::HeaderMissingDTag => "Header missing d-tag (required for addressable events)"@,
        DcoslError::InvalidEventId { id } => "Invalid event ID: "@ + id@,
        DcoslError::InvalidPubkey { pubkey } => "Invalid public key: "@ + pubkey@,
    }
}

impl DcoslError {
    /// Machine-readable error code.
    pub fn code(&self) -> (r: &'static str)
        ensures
            r@ == dcosl_error_code(*self),
    {
        match self {
            DcoslError::InvalidCoordinate { .. } => "INVALID_COORDINATE",
            DcoslError::HeaderMissingDTag => "HEADER_MISSING_D_TAG",
            DcoslError::InvalidEventId { .. } => "INVALID_EVENT_ID",
            DcoslError::InvalidPubkey { .. } => "INVALID_PUBKEY",
        }
    }

    /// No protocol error goes away by retrying.
    pub fn retryable(&self) -> (r: bool)
        ensures
            !r,
    {
        false
    }

    /// Human-readable description of the error.
    pub fn message(&self) -> (r: String)
        ensures
            r@ == dcosl_error_message(*self),
    {
        match self {
            DcoslError::InvalidCoordinate { input } => {
                let mut r = String::from_str("Invalid coordinate format: ");
                r.append(input.as_str());
                r.append(" \u{2014} expected kind:pubkey:d-tag");
                r
            },
            DcoslError::HeaderMissingDTag => String::from_str(
                "Header missing d-tag (required for addressable events)",
            ),
            DcoslError::InvalidEventId { id } => {
                let mut r = String::from_str("Invalid event ID: ");
                r.append(id.as_str());
                r
            },
            DcoslError::InvalidPubkey { pubkey } => {
                let mut r = String::from_str("Invalid public key: ");
                r.append(pubkey.as_str());
                r
            },
        }
    }
}

/// Every error has its own code.
pub proof fn lemma_error_codes_distinct(a: DcoslError, b: DcoslError)
    requires
        dcosl_error_code(a) == dcosl_error_code(b),
    ensures
        a is InvalidCoordinate <==> b is InvalidCoordinate,
        a is HeaderMissingDTag <==> b is HeaderMissingDTag,
        a is InvalidEventId <==> b is InvalidEventId,
        a is InvalidPubkey <==> b is InvalidPubkey,
{
    reveal_strlit("INVALID_COORDINATE");
    reveal_strlit("HEADER_MISSING_D_TAG");
    reveal_strlit("INVALID_EVENT_ID");
    reveal_strlit("INVALID_PUBKEY");
    let c1 = "INVALID_COORDINATE"@;
    let c2 = "HEADER_MISSING_D_TAG"@;
    let c3 = "INVALID_EVENT_ID"@;
    let c4 = "INVALID_PUBKEY"@;
    assert(c1[8] != c2[8]);
    assert(c1.len() != c3.len());
    assert(c1.len() != c4.len());
    assert(c2.len() != c3.len());
    assert(c2.len() != c4.len());
    assert(c3.len() != c4.len());
}

} // verus!
