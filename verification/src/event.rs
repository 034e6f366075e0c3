//! The Nostr data the marketplace logic reads: public keys, tags and signed
//! events, held as plain values.
use vstd::prelude::*;

use crate::text::{hex_decode, hex_encode, hex_string, is_hex_string, lemma_hex_encode, lemma_hex_roundtrip};

verus! {

/// Addressable list header kind.
pub const KIND_HEADER: u16 = 39998;

/// Regular list header kind.
pub const KIND_HEADER_REGULAR: u16 = 9998;

/// Addressable list item kind.
pub const KIND_ITEM: u16 = 39999;

/// Regular list item kind.
pub const KIND_ITEM_REGULAR: u16 = 9999;

/// Classified listing kind used for bounties.
pub const KIND_BOUNTY: u16 = 30402;

/// Zap request kind.
pub const KIND_ZAP_REQUEST: u16 = 9734;

/// Zap receipt kind.
pub const KIND_ZAP_RECEIPT: u16 = 9735;

/// Relay list metadata kind.
pub const KIND_RELAY_LIST: u16 = 10002;

/// Profile metadata kind.
pub const KIND_METADATA: u16 = 0;

/// An x-only public key, as its 32 bytes.
#[derive(Clone, Copy, Debug, PartialEq, Eq)]
pub struct PublicKey {
    pub bytes: [u8; 32],
}

impl View for PublicKey {
    type V = Seq<u8>;

    open spec fn view(&self) -> Seq<u8> {
        self.bytes@
    }
}

/// A secret signing key, as its 32 bytes.
pub struct SecretKey {
    pub bytes: [u8; 32],
}

impl View for SecretKey {
    type V = Seq<u8>;

    open spec fn view(&self) -> Seq<u8> {
        self.bytes@
    }
}

/// The x-only public key of a secret key, or none when the bytes are not a
/// valid secret key.
pub uninterp spec fn xonly_public_key(secret: Seq<u8>) -> Option<Seq<u8>>;

/// Whether `s` is the hex form of a 32-byte key (64 hex digits, either case).
pub open spec fn is_hex_key(s: Seq<char>) -> bool {
    s.len() == 64 && is_hex_string(s)
}

/// What `PublicKey::parse` gives for text that is not 64 hex digits: the
/// bytes of a key written as `npub` bech32 or as a `nostr:` URI, if it is one.
pub uninterp spec fn public_key_from_non_hex(s: Seq<char>) -> Option<Seq<u8>>;

/// The key bytes that the text `s` denotes, if any: hex is tried first, then
/// the other notations.
pub open spec fn spec_parse_public_key(s: Seq<char>) -> Option<Seq<u8>> {
    if is_hex_key(s) {
        Some(hex_decode(s))
    } else {
        public_key_from_non_hex(s)
    }
}

/// The bytes of an optional key.
pub open spec fn key_bytes_view(r: Option<[u8; 32]>) -> Option<Seq<u8>> {
    match r {
        Some(b) => Some(b@),
        None => None,
    }
}

/// Calls `nostr::PublicKey::parse`, which decodes 64 hex digits into the key
/// bytes, and otherwise tries bech32 `npub` and `nostr:` URI notation. The
/// contract states the hex case exactly and names the rest; that a bech32 key
/// has 32 bytes is stated, what the bech32 decoding gives is not.
#[verifier::external_body]
fn parse_public_key_bytes(s: &str) -> (r: Option<[u8; 32]>)
    ensures
        is_hex_key(s@) ==> key_bytes_view(r) == Some(hex_decode(s@)),
        !is_hex_key(s@) ==> key_bytes_view(r) == public_key_from_non_hex(s@),
{
    nostr::PublicKey::parse(s).ok().map(|pk| pk.to_bytes())
}

impl PublicKey {
    /// Parses a key given as hex, `npub` bech32 or `nostr:` URI.
    pub fn parse(s: &str) -> (r: Option<PublicKey>)
        ensures
            match r {
                Some(pk) => spec_parse_public_key(s@) == Some(pk@),
                None => spec_parse_public_key(s@) is None,
            },
    {
        let r = parse_public_key_bytes(s);
        match r {
            Some(b) => Some(PublicKey { bytes: b }),
            None => None,
        }
    }

    /// Lowercase hex form of the key.
    pub fn to_hex(&self) -> (s: String)
        ensures
            s@ == hex_encode(self@),
    {
        hex_string(self.bytes.as_slice())
    }
}

/// Parsing the hex form of a key gives the key back.
pub proof fn lemma_public_key_hex_roundtrip(pk: PublicKey)
    ensures
        spec_parse_public_key(hex_encode(pk@)) == Some(pk@),
        hex_encode(pk@).len() == 64,
{
    lemma_hex_roundtrip(pk@);
    lemma_hex_encode(pk@);
}

/// A tag: its kind followed by its values.
#[derive(Debug)]
pub struct Tag {
    pub parts: Vec<String>,
}

/// The views of a list of strings.
pub open spec fn strings_view(v: Seq<String>) -> Seq<Seq<char>> {
    Seq::new(v.len(), |i: int| v[i]@)
}

impl View for Tag {
    type V = Seq<Seq<char>>;

    open spec fn view(&self) -> Seq<Seq<char>> {
        strings_view(self.parts@)
    }
}

/// The views of a list of tags.
pub open spec fn tags_view(tags: Seq<Tag>) -> Seq<Seq<Seq<char>>> {
    Seq::new(tags.len(), |i: int| tags[i]@)
}

impl Tag {
    /// A tag `[kind, value]`.
    pub fn custom(kind: &str, value: &str) -> (t: Tag)
        ensures
            t@ == seq![kind@, value@],
    {
        let mut parts: Vec<String> = Vec::new();
        parts.push(String::from_str(kind));
        parts.push(String::from_str(value));
        let t = Tag { parts };
        assert(t@ =~= seq![kind@, value@]);
        t
    }

    /// The identifier tag `["d", value]`.
    pub fn identifier(value: &str) -> (t: Tag)
        ensures
            t@ == seq![seq!['d'], value@],
    {
        proof {
            reveal_strlit("d");
        }
        let t = Tag::custom("d", value);
        assert("d"@ =~= seq!['d']);
        t
    }

    /// The kind and values of the tag.
    pub fn as_slice(&self) -> (r: &[String])
        ensures
            r@ == self.parts@,
    {
        self.parts.as_slice()
    }
}

/// A signed event.
#[derive(Debug)]
pub struct Event {
    pub id: [u8; 32],
    pub pubkey: PublicKey,
    pub created_at: u64,
    pub kind: u16,
    pub tags: Vec<Tag>,
    pub content: String,
    pub sig: [u8; 64],
}

impl Event {
    /// Lowercase hex form of the event id.
    pub fn id_hex(&self) -> (s: String)
        ensures
            s@ == hex_encode(self.id@),
    {
        hex_string(self.id.as_slice())
    }

    /// Lowercase hex form of the signature.
    pub fn sig_hex(&self) -> (s: String)
        ensures
            s@ == hex_encode(self.sig@),
    {
        hex_string(self.sig.as_slice())
    }
}

/// An event to be signed and published: its kind, content and tags.
#[derive(Debug)]
pub struct EventTemplate {
    pub kind: u16,
    pub content: String,
    pub tags: Vec<Tag>,
}

} // verus!
