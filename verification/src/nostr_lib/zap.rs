//! NIP-57 zaps: the LNURL callback of a lightning address, and the signed
//! zap request (kind 9734) that is sent to it.
use vstd::prelude::*;

use crate::dcosl::error::DcoslError;
use crate::dcosl::item::{parse_coordinate_str, spec_parse_coordinate};
use crate::dcosl::query::{coordinate_of, opt_view, rows_view};
use crate::event::{
    key_bytes_view, strings_view, tags_view, xonly_public_key, Event, PublicKey, SecretKey as SigningKey,
    Tag, KIND_ZAP_REQUEST,
};
use crate::nostr_lib::error::NostrLibError;
use crate::text::{
    concat2, decimal, hex_encode, lemma_split_once_at, split_once, split_once_char,
};

use nostr::nips::nip01::Coordinate;
use nostr::nips::nip57::ZapRequestData;
use nostr::{
    EventBuilder, EventId, Keys, Kind as NostrKind, PublicKey as NostrPublicKey, RelayUrl, SecretKey,
    Tag as NostrTag,
};

verus! {

// ---------------------------------------------------------------------------
// Lightning addresses
// ---------------------------------------------------------------------------

/// The LNURL-pay callback of a lightning address `user@domain`:
/// `https://domain/.well-known/lnurlp/user`, when the user and the domain are
/// not empty and the domain holds no further `@`.
pub open spec fn lud16_callback(lud16: Seq<char>) -> Option<Seq<char>> {
    match split_once(lud16, '@') {
        Some((user, domain)) => if user.len() > 0 && domain.len() > 0 && !domain.contains('@') {
            Some("https://"@ + domain + "/.well-known/lnurlp/"@ + user)
        } else {
            None
        },
        None => None,
    }
}

/// The reason given for a malformed lightning address.
pub open spec fn invalid_lud16_reason(lud16: Seq<char>) -> Seq<char> {
    "Invalid lud16 format: "@ + lud16
}

/// Resolve a recipient's LNURL callback URL from their lud16.
pub fn lud16_to_lnurl_callback(lud16: &str) -> (r: Result<String, NostrLibError>)
    ensures
        match r {
            Ok(url) => lud16_callback(lud16@) == Some(url@),
            Err(e) => lud16_callback(lud16@) is None && (e matches NostrLibError::Lnurl { reason }
                && reason@ == invalid_lud16_reason(lud16@)),
        },
{
    let (user, domain) = match split_once_char(lud16, '@') {
        Some(p) => p,
        None => {
            return Err(NostrLibError::Lnurl { reason: concat2("Invalid lud16 format: ", lud16) });
        },
    };
    let domain_chars = crate::text::chars_of(domain.as_str());
    if user.unicode_len() == 0 || domain.unicode_len() == 0 || crate::text::contains_char(
        domain_chars.as_slice(),
        '@',
    ) {
        return Err(NostrLibError::Lnurl { reason: concat2("Invalid lud16 format: ", lud16) });
    }
    let mut url = String::from_str("https://");
    url.append(domain.as_str());
    url.append("/.well-known/lnurlp/");
    url.append(user.as_str());
    Ok(url)
}

/// A well-formed lightning address `user@domain` always has the callback
/// `https://domain/.well-known/lnurlp/user`.
pub proof fn lemma_lud16_callback(user: Seq<char>, domain: Seq<char>)
    requires
        user.len() > 0,
        !user.contains('@'),
        domain.len() > 0,
        !domain.contains('@'),
    ensures
        lud16_callback(user + "@"@ + domain) == Some("https://"@ + domain + "/.well-known/lnurlp/"@ + user),
{
    reveal_strlit("@");
    assert("@"@ =~= seq!['@']);
    lemma_split_once_at(user, '@', domain);
}

// ---------------------------------------------------------------------------
// Relay URLs
// ---------------------------------------------------------------------------

/// What `nostr::RelayUrl::parse` accepts, written back as text: the
/// normalised URL, or none when the text is not a `ws`/`wss` URL.
pub uninterp spec fn relay_url_normalized(url: Seq<char>) -> Option<Seq<char>>;

/// Calls `nostr::RelayUrl::parse` and writes an accepted URL back as text
/// (`to_string`). The result is named, not described: it is a function of the
/// text alone.
#[verifier::external_body]
fn parse_relay_url(url: &str) -> (r: Option<String>)
    ensures
        opt_view(r) == relay_url_normalized(url@),
{
    nostr::RelayUrl::parse(url).ok().map(|u| u.to_string())
}

/// `urls` without those that `nostr::RelayUrl::parse` refuses, in order.
pub open spec fn parsing_relays(urls: Seq<Seq<char>>) -> Seq<Seq<char>>
    decreases urls.len(),
{
    if urls.len() == 0 {
        seq![]
    } else {
        parsing_relays(urls.drop_last()) + if relay_url_normalized(urls.last()) is Some {
            seq![urls.last()]
        } else {
            seq![]
        }
    }
}

/// The normalised form of each of a list of relay URLs that all parse.
pub open spec fn normalized_texts(relays: Seq<Seq<char>>) -> Seq<Seq<char>> {
    Seq::new(relays.len(), |i: int| relay_url_normalized(relays[i])->0)
}

/// The texts whose flag is set, in order.
pub open spec fn kept_where(candidates: Seq<(Seq<char>, bool)>) -> Seq<Seq<char>>
    decreases candidates.len(),
{
    if candidates.len() == 0 {
        seq![]
    } else {
        kept_where(candidates.drop_last()) + if candidates.last().1 {
            seq![candidates.last().0]
        } else {
            seq![]
        }
    }
}

/// The views of texts paired with flags.
pub open spec fn candidates_view(v: Seq<(String, bool)>) -> Seq<(Seq<char>, bool)> {
    Seq::new(v.len(), |i: int| (v[i].0@, v[i].1))
}

/// Keeps the URLs whose flag says that they parsed, in order.
pub fn keep_parsed_relays(candidates: Vec<(String, bool)>) -> (r: Vec<String>)
    ensures
        strings_view(r@) == kept_where(candidates_view(candidates@)),
{
    let ghost whole = candidates@;
    let mut candidates = candidates;
    let mut kept: Vec<String> = Vec::new();
    let n = candidates.len();
    let mut i: usize = 0;
    while i < n
        invariant
            n == whole.len(),
            i <= n,
            candidates@ == whole.skip(i as int),
            strings_view(kept@) == kept_where(candidates_view(whole.take(i as int))),
        decreases n - i,
    {
        assert(candidates_view(whole.take(i + 1)).drop_last() =~= candidates_view(
            whole.take(i as int),
        ));
        assert(candidates@[0] == whole[i as int]);
        let (url, parsed) = candidates.remove(0);
        assert(candidates@ =~= whole.skip(i + 1));
        let ghost before = kept@;
        if parsed {
            kept.push(url);
            assert(strings_view(kept@) =~= strings_view(before).push(kept@[kept@.len() - 1]@));
        }
        i = i + 1;
    }
    assert(whole.take(n as int) =~= whole);
    kept
}

proof fn lemma_kept_where_parsing(c: Seq<(Seq<char>, bool)>, u: Seq<Seq<char>>)
    requires
        c.len() == u.len(),
        forall|k: int| 0 <= k < u.len() ==> #[trigger] c[k] == (u[k], relay_url_normalized(u[k]) is Some),
    ensures
        kept_where(c) == parsing_relays(u),
    decreases u.len(),
{
    if u.len() > 0 {
        assert(c.last() == c[c.len() - 1]);
        lemma_kept_where_parsing(c.drop_last(), u.drop_last());
    }
}

/// Every relay URL that `parsing_relays` keeps parses.
pub proof fn lemma_parsing_relays_parse(u: Seq<Seq<char>>)
    ensures
        forall|i: int| 0 <= i < parsing_relays(u).len() ==> relay_url_normalized(
            #[trigger] parsing_relays(u)[i],
        ) is Some,
    decreases u.len(),
{
    if u.len() > 0 {
        lemma_parsing_relays_parse(u.drop_last());
        let p = parsing_relays(u.drop_last());
        assert forall|i: int| 0 <= i < parsing_relays(u).len() implies relay_url_normalized(
            #[trigger] parsing_relays(u)[i],
        ) is Some by {
            if i < p.len() {
                assert(parsing_relays(u)[i] == p[i]);
            }
        }
    }
}

/// The relay URLs that nostr accepts, as given, in order.
pub fn valid_relay_urls(urls: &[String]) -> (r: Vec<String>)
    ensures
        strings_view(r@) == parsing_relays(strings_view(urls@)),
{
    let mut candidates: Vec<(String, bool)> = Vec::new();
    let mut i: usize = 0;
    while i < urls.len()
        invariant
            i <= urls@.len(),
            candidates@.len() == i,
            forall|k: int|
                0 <= k < i ==> (#[trigger] candidates@[k]).0@ == urls@[k]@ && candidates@[k].1
                    == (relay_url_normalized(urls@[k]@) is Some),
        decreases urls@.len() - i,
    {
        let parsed = parse_relay_url(urls[i].as_str());
        candidates.push((urls[i].clone(), parsed.is_some()));
        i = i + 1;
    }
    proof {
        lemma_kept_where_parsing(candidates_view(candidates@), strings_view(urls@));
    }
    keep_parsed_relays(candidates)
}

// ---------------------------------------------------------------------------
// Zap requests
// ---------------------------------------------------------------------------

/// The tags of a zap request: the recipient (`p`), the relays to publish the
/// receipt to (when there are any), the zapped event (`e`) and list (`a`),
/// and the amount in millisats.
pub open spec fn zap_request_tags(
    recipient: Seq<u8>,
    relays: Seq<Seq<char>>,
    event_id: Option<Seq<u8>>,
    coordinate: Option<Seq<char>>,
    amount_msats: u64,
) -> Seq<Seq<Seq<char>>> {
    seq![seq!["p"@, hex_encode(recipient)]] + (if relays.len() > 0 {
        seq![seq!["relays"@] + relays]
    } else {
        seq![]
    }) + match event_id {
        Some(id) => seq![seq!["e"@, hex_encode(id)]],
        None => seq![],
    } + match coordinate {
        Some(c) => seq![seq!["a"@, c]],
        None => seq![],
    } + seq![seq!["amount"@, decimal(amount_msats as nat)]]
}

/// The `a` tag text of an optional parsed coordinate.
pub open spec fn target_text(coordinate: Option<(u16, PublicKey, String)>) -> Option<Seq<char>> {
    match coordinate {
        Some((k, pk, d)) => Some(coordinate_of(k, pk@, d@)),
        None => None,
    }
}

/// Calls nostr's NIP-57 `From<ZapRequestData> for Vec<Tag>` on a request
/// for the recipient with the relay URLs (each `RelayUrl::parse`d), the
/// amount, and the optional event and coordinate, and gives each tag's parts.
/// It fails exactly when a relay URL does not parse; the tags are the
/// recipient, the relays' normal forms (when there are any), the event, the
/// coordinate `kind:hexkey:d`, and the amount.
#[verifier::external_body]
fn zap_request_rows(
    recipient: &PublicKey,
    relays: &[String],
    event_id: Option<[u8; 32]>,
    coordinate: Option<(u16, PublicKey, String)>,
    amount_msats: u64,
) -> (r: Option<Vec<Vec<String>>>)
    ensures
        r is Some == (forall|i: int| 0 <= i < relays@.len() ==> relay_url_normalized(#[trigger] relays@[i]@) is Some),
        r matches Some(rows) ==> rows_view(rows@) == zap_request_tags(recipient@, normalized_texts(strings_view(relays@)), key_bytes_view(event_id), target_text(coordinate), amount_msats),
{
    let relays: Option<Vec<RelayUrl>> = relays.iter().map(|u| RelayUrl::parse(u).ok()).collect();
    let mut data = ZapRequestData::new(NostrPublicKey::from_byte_array(recipient.bytes), relays?).amount(amount_msats);
    data.event_id = event_id.map(EventId::from_byte_array);
    data.event_coordinate = coordinate.map(|(k, pk, d)| Coordinate::new(NostrKind::from_u16(k), NostrPublicKey::from_byte_array(pk.bytes)).identifier(d));
    Some(Vec::<NostrTag>::from(data).into_iter().map(|t| t.to_vec()).collect())
}

/// A `p` tag naming the key whose hex form is `author_hex`.
pub open spec fn is_author_p_tag(t: Seq<Seq<char>>, author_hex: Seq<char>) -> bool {
    t.len() >= 2 && t[0] == "p"@ && t[1] == author_hex
}

/// The tags without those that name the author in a `p` tag.
pub open spec fn without_author_p_tags(tags: Seq<Seq<Seq<char>>>, author_hex: Seq<char>) -> Seq<
    Seq<Seq<char>>,
> {
    tags.filter(|t: Seq<Seq<char>>| !is_author_p_tag(t, author_hex))
}

/// `e` is a signature of an event with this kind, content and tags: nostr
/// keeps kind and content, and drops the `p` tags that name the signer.
pub open spec fn signed_as(e: Event, kind: u16, content: Seq<char>, tags: Seq<Seq<Seq<char>>>) -> bool {
    &&& e.kind == kind
    &&& e.content@ == content
    &&& tags_view(e.tags@) == without_author_p_tags(tags, hex_encode(e.pubkey@))
}

/// No row is empty: each can be parsed as a tag.
pub open spec fn no_empty_rows(rows: Seq<Seq<Seq<char>>>) -> bool {
    forall|i: int| 0 <= i < rows.len() ==> #[trigger] rows[i].len() > 0
}

proof fn lemma_no_empty_rows_add(a: Seq<Seq<Seq<char>>>, b: Seq<Seq<Seq<char>>>)
    requires
        no_empty_rows(a),
        no_empty_rows(b),
    ensures
        no_empty_rows(a + b),
{
    assert forall|i: int| 0 <= i < (a + b).len() implies #[trigger] (a + b)[i].len() > 0 by {
        if i < a.len() {
            assert((a + b)[i] == a[i]);
        } else {
            assert((a + b)[i] == b[i - a.len()]);
        }
    }
}

/// The tags of a zap request are never empty.
proof fn lemma_zap_request_tags_not_empty(
    recipient: Seq<u8>,
    relays: Seq<Seq<char>>,
    event_id: Option<Seq<u8>>,
    coordinate: Option<Seq<char>>,
    amount_msats: u64,
)
    ensures
        no_empty_rows(zap_request_tags(recipient, relays, event_id, coordinate, amount_msats)),
{
    let p: Seq<Seq<Seq<char>>> = seq![seq!["p"@, hex_encode(recipient)]];
    let r: Seq<Seq<Seq<char>>> = if relays.len() > 0 {
        seq![seq!["relays"@] + relays]
    } else {
        seq![]
    };
    let e: Seq<Seq<Seq<char>>> = match event_id {
        Some(id) => seq![seq!["e"@, hex_encode(id)]],
        None => seq![],
    };
    let c: Seq<Seq<Seq<char>>> = match coordinate {
        Some(t) => seq![seq!["a"@, t]],
        None => seq![],
    };
    let m: Seq<Seq<Seq<char>>> = seq![seq!["amount"@, decimal(amount_msats as nat)]];
    assert(no_empty_rows(p));
    assert(no_empty_rows(r)) by {
        if relays.len() > 0 {
            assert((seq!["relays"@] + relays).len() > 0);
        }
    }
    assert(no_empty_rows(e));
    assert(no_empty_rows(c));
    assert(no_empty_rows(m));
    lemma_no_empty_rows_add(p, r);
    lemma_no_empty_rows_add(p + r, e);
    lemma_no_empty_rows_add(p + r + e, c);
    lemma_no_empty_rows_add(p + r + e + c, m);
    assert(zap_request_tags(recipient, relays, event_id, coordinate, amount_msats) == p + r + e + c + m);
}

/// The id nostr gives an event (`EventId::new`): the SHA-256 hash of the
/// JSON array `[0, pubkey, created_at, kind, tags, content]`.
pub uninterp spec fn event_id_of(
    pubkey: Seq<u8>,
    created_at: u64,
    kind: u16,
    tags: Seq<Seq<Seq<char>>>,
    content: Seq<char>,
) -> Seq<u8>;

/// Whether `sig` is a valid BIP-340 Schnorr signature of the 32 bytes `id`
/// by the x-only key `pubkey` (what nostr's `Event::verify_signature` says).
pub uninterp spec fn schnorr_signature_valid(pubkey: Seq<u8>, id: Seq<u8>, sig: Seq<u8>) -> bool;

/// Calls nostr's `EventBuilder::new(kind, content).tags(tags).sign_with_keys(keys)`
/// with the keys of the secret key (`SecretKey::from_slice`, `Keys::new`),
/// each tag made with `Tag::parse` from its parts, checks the result with
/// nostr's `Event::verify` (id and signature), and gives the signed event's
/// id, author, creation time, tags and signature. The author is the x-only
/// public key of the secret, and the tags are the given ones without the `p`
/// tags that name the author, which nostr drops; nostr keeps the kind and the
/// content. The id is nostr's id of exactly these fields and the signature is
/// valid for the id and the author. It succeeds for a valid secret key and
/// tags that are not empty: nostr's `SecretKey::from_slice` fails only on an
/// invalid key, `Tag::parse` only on an empty tag, and signing with keys
/// only when the id it just computed does not check, which cannot happen;
/// the check of the fresh signature holds by Schnorr signing. Not stated:
/// the creation time (the clock) and which signature (a random nonce). An
/// error is nostr's message.
#[verifier::external_body]
fn sign_event(secret: &[u8; 32], kind: u16, content: &str, rows: Vec<Vec<String>>) -> (r: Result<
    ([u8; 32], [u8; 32], u64, Vec<Vec<String>>, [u8; 64]),
    String,
>)
    ensures
        r is Ok ==> xonly_public_key(secret@) == Some(r->Ok_0.1@),
        r is Ok ==> rows_view(r->Ok_0.3@) == without_author_p_tags(rows_view(rows@), hex_encode(r->Ok_0.1@)),
        r is Ok ==> r->Ok_0.0@ == event_id_of(r->Ok_0.1@, r->Ok_0.2, kind, rows_view(r->Ok_0.3@), content@),
        r is Ok ==> schnorr_signature_valid(r->Ok_0.1@, r->Ok_0.0@, r->Ok_0.4@),
        xonly_public_key(secret@) is Some && no_empty_rows(rows_view(rows@)) ==> r is Ok,
{
    let keys = Keys::new(SecretKey::from_slice(secret).map_err(|e| e.to_string())?);
    let tags = rows.into_iter().map(NostrTag::parse).collect::<Result<Vec<_>, _>>().map_err(|e| e.to_string())?;
    let e = EventBuilder::new(kind.into(), content).tags(tags).sign_with_keys(&keys).map_err(|e| e.to_string())?;
    e.verify().map_err(|e| e.to_string())?;
    Ok((e.id.to_bytes(), e.pubkey.to_bytes(), e.created_at.as_secs(), e.tags.into_iter().map(NostrTag::to_vec).collect(), e.sig.serialize()))
}

/// Tags made of the given parts.
pub fn tags_from_rows(rows: Vec<Vec<String>>) -> (r: Vec<Tag>)
    ensures
        tags_view(r@) == rows_view(rows@),
{
    let ghost whole = rows@;
    let mut rows = rows;
    let mut tags: Vec<Tag> = Vec::new();
    let n = rows.len();
    let mut i: usize = 0;
    while i < n
        invariant
            n == whole.len(),
            i <= n,
            rows@ == whole.skip(i as int),
            tags@.len() == i,
            tags_view(tags@) == rows_view(whole.take(i as int)),
        decreases n - i,
    {
        assert(rows@[0] == whole[i as int]);
        let parts = rows.remove(0);
        assert(rows@ =~= whole.skip(i + 1));
        let ghost before = tags@;
        tags.push(Tag { parts });
        assert forall|k: int| 0 <= k <= i implies #[trigger] tags_view(tags@)[k] == rows_view(
            whole.take(i + 1),
        )[k] by {
            if k < i {
                assert(tags@[k] == before[k]);
                assert(tags_view(before)[k] == rows_view(whole.take(i as int))[k]);
            }
        }
        assert(tags_view(tags@) =~= rows_view(whole.take(i + 1)));
        i = i + 1;
    }
    assert(whole.take(n as int) =~= whole);
    tags
}

/// The signed event of a kind and content from the parts a signer gave back.
pub fn signed_event(
    parts: ([u8; 32], [u8; 32], u64, Vec<Vec<String>>, [u8; 64]),
    kind: u16,
    content: &str,
) -> (e: Event)
    ensures
        e.id == parts.0,
        e.pubkey@ == parts.1@,
        e.created_at == parts.2,
        e.kind == kind,
        tags_view(e.tags@) == rows_view(parts.3@),
        e.content@ == content@,
        e.sig == parts.4,
{
    let (id, pubkey, created_at, rows, sig) = parts;
    Event {
        id,
        pubkey: PublicKey { bytes: pubkey },
        created_at,
        kind,
        tags: tags_from_rows(rows),
        content: String::from_str(content),
        sig,
    }
}

/// The coordinate text that the `a` tag carries: the target rewritten as
/// `kind:hexkey:d`, when it parses.
pub open spec fn zap_coordinate_text(coordinate: Option<Seq<char>>) -> Option<Seq<char>> {
    match coordinate {
        Some(c) => match spec_parse_coordinate(c) {
            Some((k, pk, d)) => Some(coordinate_of(k, pk, d)),
            None => None,
        },
        None => None,
    }
}

/// The reason given when no relay URL is usable.
pub open spec fn no_relays_reason() -> Seq<char> {
    "no valid relay URLs for zap routing"@
}

/// What building a zap request gives: an error when no relay URL is usable,
/// then an error when the target coordinate does not parse; otherwise the
/// request signed by the key of `secret` (its id nostr's id of its own
/// fields, its signature valid for that id), which is owed whenever `secret`
/// is a valid secret key; when it is not, the signer's error as a zap error.
pub open spec fn zap_request_outcome(
    r: Result<Event, NostrLibError>,
    secret: Seq<u8>,
    recipient: Seq<u8>,
    event_id: Option<Seq<u8>>,
    coordinate: Option<Seq<char>>,
    amount_msats: u64,
    relay_urls: Seq<Seq<char>>,
    message: Seq<char>,
) -> bool {
    let relays = parsing_relays(relay_urls);
    if relays.len() == 0 {
        r matches Err(e) && e matches NostrLibError::Zap { reason } && reason@ == no_relays_reason()
    } else if coordinate matches Some(c) && spec_parse_coordinate(c) is None {
        r matches Err(e) && e matches NostrLibError::Protocol(DcoslError::InvalidCoordinate {
            input,
        }) && Some(input@) == coordinate
    } else {
        match r {
            Ok(ev) => {
                &&& xonly_public_key(secret) == Some(ev.pubkey@)
                &&& signed_as(
                    ev,
                    KIND_ZAP_REQUEST,
                    message,
                    zap_request_tags(
                        recipient,
                        normalized_texts(relays),
                        event_id,
                        zap_coordinate_text(coordinate),
                        amount_msats,
                    ),
                )
                &&& ev.id@ == event_id_of(ev.pubkey@, ev.created_at, ev.kind, tags_view(ev.tags@), ev.content@)
                &&& schnorr_signature_valid(ev.pubkey@, ev.id@, ev.sig@)
            },
            Err(e) => e is Zap && xonly_public_key(secret) is None,
        }
    }
}

/// The message of an optional comment, empty when there is none.
pub open spec fn message_of(content: Option<String>) -> Seq<char> {
    match content {
        Some(c) => c@,
        None => seq![],
    }
}

/// Construct and sign a NIP-57 zap request (kind 9734). It is meant for the
/// recipient's LNURL callback, not for relays.
pub fn build_zap_request(
    signer: &SigningKey,
    recipient_pubkey: PublicKey,
    target_event_id: Option<[u8; 32]>,
    target_coordinate: Option<String>,
    amount_msats: u64,
    relay_urls: Vec<String>,
    content: Option<String>,
) -> (r: Result<Event, NostrLibError>)
    ensures
        zap_request_outcome(
            r,
            signer@,
            recipient_pubkey@,
            key_bytes_view(target_event_id),
            opt_view(target_coordinate),
            amount_msats,
            strings_view(relay_urls@),
            message_of(content),
        ),
{
    let relays = valid_relay_urls(relay_urls.as_slice());
    if relays.len() == 0 {
        return Err(
            NostrLibError::Zap { reason: String::from_str("no valid relay URLs for zap routing") },
        );
    }
    let coordinate = match target_coordinate {
        Some(c) => match parse_coordinate_str(c.as_str()) {
            Ok(parts) => Some(parts),
            Err(e) => return Err(NostrLibError::Protocol(e)),
        },
        None => None,
    };
    let message = match content {
        Some(c) => c,
        None => String::new(),
    };
    let ghost relay_texts = strings_view(relays@);
    proof {
        lemma_parsing_relays_parse(strings_view(relay_urls@));
        assert forall|i: int| 0 <= i < relays@.len() implies relay_url_normalized(
            #[trigger] relays@[i]@,
        ) is Some by {
            assert(relay_texts[i] == relays@[i]@);
        }
    }
    let rows = match zap_request_rows(&recipient_pubkey, relays.as_slice(), target_event_id, coordinate, amount_msats) {
        Some(rows) => rows,
        None => {
            return Err(NostrLibError::Zap { reason: String::from_str("no valid relay URLs for zap routing") });
        },
    };
    proof {
        lemma_zap_request_tags_not_empty(
            recipient_pubkey@,
            normalized_texts(relay_texts),
            key_bytes_view(target_event_id),
            target_text(coordinate),
            amount_msats,
        );
    }
    match sign_event(&signer.bytes, KIND_ZAP_REQUEST, message.as_str(), rows) {
        Ok(parts) => Ok(signed_event(parts, KIND_ZAP_REQUEST, message.as_str())),
        Err(reason) => Err(NostrLibError::Zap { reason }),
    }
}

/// The relays a zap receipt goes to: the recipient's relay list, or the
/// connected relays when that list is empty.
pub fn zap_relays(recipient_relays: Vec<String>, connected_relays: Vec<String>) -> (r: Vec<String>)
    ensures
        r@ == if recipient_relays@.len() == 0 {
            connected_relays@
        } else {
            recipient_relays@
        },
{
    if recipient_relays.len() == 0 {
        connected_relays
    } else {
        recipient_relays
    }
}

/// The zap flow once the recipient's lightning address and relay lists are
/// known: resolve the LNURL callback, pick the relays, and build the zap
/// request. Returns the request and the callback to send it to.
pub fn prepare_zap(
    signer: &SigningKey,
    recipient_pubkey: PublicKey,
    lud16: &str,
    recipient_relays: Vec<String>,
    connected_relays: Vec<String>,
    target_event_id: Option<[u8; 32]>,
    target_coordinate: Option<String>,
    amount_msats: u64,
    content: Option<String>,
) -> (r: Result<(Event, String), NostrLibError>)
    ensures
        lud16_callback(lud16@) is None ==> (r matches Err(e) && e matches NostrLibError::Lnurl {
            reason,
        } && reason@ == invalid_lud16_reason(lud16@)),
        lud16_callback(lud16@) matches Some(url) ==> zap_request_outcome(
            match r {
                Ok((e, _)) => Ok(e),
                Err(e) => Err(e),
            },
            signer@,
            recipient_pubkey@,
            key_bytes_view(target_event_id),
            opt_view(target_coordinate),
            amount_msats,
            strings_view(
                if recipient_relays@.len() == 0 {
                    connected_relays@
                } else {
                    recipient_relays@
                },
            ),
            message_of(content),
        ) && (r matches Ok((_, cb)) ==> cb@ == url),
{
    let callback_url = match lud16_to_lnurl_callback(lud16) {
        Ok(u) => u,
        Err(e) => return Err(e),
    };
    let ghost chosen = if recipient_relays@.len() == 0 {
        connected_relays@
    } else {
        recipient_relays@
    };
    let relays = zap_relays(recipient_relays, connected_relays);
    let r = build_zap_request(
        signer,
        recipient_pubkey,
        target_event_id,
        target_coordinate,
        amount_msats,
        relays,
        content,
    );
    match r {
        Ok(e) => Ok((e, callback_url)),
        Err(e) => Err(e),
    }
}

} // verus!
