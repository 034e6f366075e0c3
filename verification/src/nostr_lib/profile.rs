//! Reading profiles and relay lists out of fetched events.
use vstd::prelude::*;

use crate::dcosl::query::{collect_tag_values, tag_values};
use crate::event::{tags_view, Event, PublicKey};
use crate::nostr_lib::error::NostrLibError;
use crate::nostr_lib::types::ProfileMetadata;
use crate::text::hex_encode;

verus! {

/// The error for a key whose profile is missing or unreadable.
pub fn profile_not_found(pubkey: &PublicKey) -> (e: NostrLibError)
    ensures
        e matches NostrLibError::ProfileNotFound { pubkey: p } && p@ == hex_encode(pubkey@),
{
    NostrLibError::ProfileNotFound { pubkey: pubkey.to_hex() }
}

/// The profile event among those fetched: the first one.
pub fn first_profile_event(events: Vec<Event>, pubkey: &PublicKey) -> (r: Result<
    Event,
    NostrLibError,
>)
    ensures
        events@.len() > 0 ==> r == Ok::<Event, NostrLibError>(events@[0]),
        events@.len() == 0 ==> (r matches Err(e) && e matches NostrLibError::ProfileNotFound {
            pubkey: p,
        } && p@ == hex_encode(pubkey@)),
{
    let mut events = events;
    if events.len() == 0 {
        return Err(profile_not_found(pubkey));
    }
    Ok(events.remove(0))
}

/// The lightning address of a profile.
pub fn lud16_of(profile: ProfileMetadata, pubkey: &PublicKey) -> (r: Result<String, NostrLibError>)
    ensures
        profile.lud16 is Some ==> r == Ok::<String, NostrLibError>(profile.lud16->0),
        profile.lud16 is None ==> (r matches Err(e) && e matches NostrLibError::MissingLud16 {
            pubkey: p,
        } && p@ == hex_encode(pubkey@)),
{
    match profile.lud16 {
        Some(l) => Ok(l),
        None => Err(NostrLibError::MissingLud16 { pubkey: pubkey.to_hex() }),
    }
}

/// The relays a relay-list event names (`r` tags); none when no event was found.
pub fn relay_list_of(events: &[Event]) -> (r: Vec<String>)
    ensures
        events@.len() == 0 ==> r@.len() == 0,
        events@.len() > 0 ==> crate::event::strings_view(r@) == tag_values(
            tags_view(events@[0].tags@),
            "r"@,
        ),
{
    if events.len() == 0 {
        return Vec::new();
    }
    collect_tag_values(events[0].tags.as_slice(), "r")
}

} // verus!
